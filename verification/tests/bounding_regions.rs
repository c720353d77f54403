use leafwing_2d::bounding::{AxisAlignedBoundingBox, BoundingRegion, Intersects};
use leafwing_2d::discrete::OrthogonalGrid;
use leafwing_2d::position::Position;

fn grid_position(x: i64, y: i64) -> Position<OrthogonalGrid> {
    Position::new(OrthogonalGrid(x), OrthogonalGrid(y))
}

fn grid_box(left: i64, right: i64, bottom: i64, top: i64) -> AxisAlignedBoundingBox<OrthogonalGrid> {
    AxisAlignedBoundingBox::new(
        OrthogonalGrid(left),
        OrthogonalGrid(right),
        OrthogonalGrid(bottom),
        OrthogonalGrid(top),
    )
}

#[test]
fn clamp_sends_an_outlier_to_the_nearest_corner() {
    let aabb = grid_box(-1, 3, 0, 17);

    let outlier = grid_position(42, 42);
    assert!(!aabb.contains(outlier));

    let clamped_outlier = aabb.clamp(outlier);
    assert_eq!(clamped_outlier, grid_position(3, 17));
    assert_eq!(clamped_outlier, aabb.top_right());
    assert!(aabb.contains(clamped_outlier));

    // A contained point is left exactly where it is
    let inside = grid_position(0, 5);
    assert_eq!(aabb.clamp(inside), inside);

    // Clamping works per axis: an outlier on one axis keeps the other
    assert_eq!(aabb.clamp(grid_position(42, 5)), grid_position(3, 5));
    assert_eq!(aabb.clamp(grid_position(0, -9)), grid_position(0, 0));
    assert_eq!(aabb.clamp(grid_position(-7, 42)), grid_position(-1, 17));
}

#[test]
fn draw_around_is_tight() {
    let positions: Vec<Position<OrthogonalGrid>> = vec![
        grid_position(0, 0),
        grid_position(-1, 1),
        grid_position(3, 4),
        grid_position(-1, 17),
    ];

    let aabb = AxisAlignedBoundingBox::draw_around(&positions);
    assert_eq!(aabb, grid_box(-1, 3, 0, 17));

    for position in positions {
        assert!(aabb.contains(position));
    }
}

#[test]
fn draw_around_does_not_assume_the_origin() {
    let positions: Vec<Position<OrthogonalGrid>> = vec![grid_position(5, 7), grid_position(6, 9)];
    let aabb = AxisAlignedBoundingBox::draw_around(&positions);
    assert_eq!(aabb, grid_box(5, 6, 7, 9));
    assert!(!aabb.contains(grid_position(0, 0)));

    let empty: Vec<Position<OrthogonalGrid>> = vec![];
    assert_eq!(AxisAlignedBoundingBox::draw_around(&empty), grid_box(0, 0, 0, 0));
}

#[test]
fn intersection_includes_containment_and_touching() {
    let outer = grid_box(0, 10, 0, 10);
    let inner = grid_box(2, 3, 2, 3);
    let touching = grid_box(10, 12, 5, 6);
    let separate = grid_box(11, 12, 0, 10);

    assert_eq!(outer.intersects(inner), Intersects::Yes);
    assert_eq!(inner.intersects(outer), Intersects::Yes);
    assert_eq!(outer.intersects(touching), Intersects::Yes);
    assert_eq!(outer.intersects(separate), Intersects::No);
    assert_eq!(separate.intersects(outer), Intersects::No);
}

#[test]
fn vertexes_are_the_four_corners() {
    let aabb = grid_box(-1, 3, 0, 17);
    let vertexes = aabb.vertexes();
    assert_eq!(
        vertexes,
        vec![grid_position(3, 17), grid_position(3, 0), grid_position(-1, 0), grid_position(-1, 17)]
    );
}

#[test]
fn from_size_centers_the_box() {
    let aabb = AxisAlignedBoundingBox::from_size(
        grid_position(10, 20),
        OrthogonalGrid(4),
        OrthogonalGrid(6),
    );
    assert_eq!(aabb, grid_box(8, 12, 17, 23));
}
