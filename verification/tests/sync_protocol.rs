use leafwing_2d::discrete::OrthogonalGrid;
use leafwing_2d::orientation::{Direction, Orientation, Rotation};
use leafwing_2d::position::Position;
use leafwing_2d::sync::{
    sync_direction_and_rotation, sync_transform_with_2d, ChangeFlags, Entity2d, SyncWrites,
    Transform2d,
};

/// One frame of the two-stage reconciliation for an entity that carries a
/// rotation, a direction and a host transform, mirroring the fixed per-frame
/// pipeline order.
fn orientation_frame(
    rotation: &mut Rotation,
    direction: &mut Direction,
    transform: &mut Transform2d<OrthogonalGrid>,
    rotation_changed: bool,
    direction_changed: bool,
    transform_changed: bool,
) {
    let (wrote_rotation, wrote_direction) = sync_direction_and_rotation(
        rotation,
        rotation_changed,
        direction,
        direction_changed,
    );
    let mut components: Entity2d<OrthogonalGrid> = Entity2d {
        rotation: Some(*rotation),
        direction: Some(*direction),
        position: None,
    };
    let flags = ChangeFlags {
        transform: transform_changed,
        rotation: rotation_changed || wrote_rotation,
        direction: direction_changed || wrote_direction,
        position: false,
    };
    sync_transform_with_2d(transform, &mut components, flags);
    *rotation = components.rotation.unwrap();
    *direction = components.direction.unwrap();
}

/// One frame of the transform reconciliation for an entity that carries only
/// a position.
fn position_frame(
    position: &mut Position<OrthogonalGrid>,
    transform: &mut Transform2d<OrthogonalGrid>,
    position_changed: bool,
    transform_changed: bool,
) {
    let mut components: Entity2d<OrthogonalGrid> = Entity2d {
        rotation: None,
        direction: None,
        position: Some(*position),
    };
    let flags = ChangeFlags {
        transform: transform_changed,
        rotation: false,
        direction: false,
        position: position_changed,
    };
    sync_transform_with_2d(transform, &mut components, flags);
    *position = components.position.unwrap();
}

fn assert_orientation_state(
    rotation: Rotation,
    direction: Direction,
    transform: &Transform2d<OrthogonalGrid>,
    expected: Rotation,
) {
    assert_eq!(rotation, expected);
    assert_eq!(direction.to_rotation(), expected);
    assert_eq!(transform.rotation, Some(expected));
}

#[test]
fn sync_orientation() {
    let mut rotation = Rotation::default();
    let mut direction = Direction::default();
    let mut transform: Transform2d<OrthogonalGrid> = Transform2d {
        rotation: Some(Rotation::default()),
        translation: Some(Position::origin()),
    };

    // Changing direction
    direction = Direction::north();
    orientation_frame(&mut rotation, &mut direction, &mut transform, false, true, false);
    assert_orientation_state(rotation, direction, &transform, Rotation::north());

    // Changing rotation
    rotation = Rotation::east();
    orientation_frame(&mut rotation, &mut direction, &mut transform, true, false, false);
    assert_orientation_state(rotation, direction, &transform, Rotation::east());

    // Changing rotation and direction (rotation wins)
    rotation = Rotation::west();
    direction = Direction::south();
    orientation_frame(&mut rotation, &mut direction, &mut transform, true, true, false);
    assert_orientation_state(rotation, direction, &transform, Rotation::west());

    // Changing the transform's rotation
    transform.rotation = Some(Rotation::northeast());
    orientation_frame(&mut rotation, &mut direction, &mut transform, false, false, true);
    assert_orientation_state(rotation, direction, &transform, Rotation::northeast());

    // Changing transform and rotation (rotation wins)
    transform.rotation = Some(Rotation::southeast());
    rotation = Rotation::north();
    orientation_frame(&mut rotation, &mut direction, &mut transform, true, false, true);
    assert_orientation_state(rotation, direction, &transform, Rotation::north());

    // Changing transform and direction (direction wins)
    transform.rotation = Some(Rotation::southeast());
    direction = Direction::south();
    orientation_frame(&mut rotation, &mut direction, &mut transform, false, true, true);
    assert_orientation_state(rotation, direction, &transform, Rotation::south());

    // Changing all three (rotation wins)
    transform.rotation = Some(Rotation::southeast());
    direction = Direction::west();
    rotation = Rotation::north();
    orientation_frame(&mut rotation, &mut direction, &mut transform, true, true, true);
    assert_orientation_state(rotation, direction, &transform, Rotation::north());
}

#[test]
fn sync_position() {
    let mut position: Position<OrthogonalGrid> = Position::origin();
    let mut transform: Transform2d<OrthogonalGrid> = Transform2d {
        rotation: None,
        translation: Some(Position::origin()),
    };

    // Changing position
    position = Position::new(OrthogonalGrid(1), OrthogonalGrid(1));
    position_frame(&mut position, &mut transform, true, false);
    assert_eq!(transform.translation, Some(Position::new(OrthogonalGrid(1), OrthogonalGrid(1))));

    // Changing the transform's translation
    transform.translation = Some(Position::new(OrthogonalGrid(2), OrthogonalGrid(2)));
    position_frame(&mut position, &mut transform, false, true);
    assert_eq!(position, Position::new(OrthogonalGrid(2), OrthogonalGrid(2)));

    // Changing transform and position (position wins)
    position = Position::new(OrthogonalGrid(3), OrthogonalGrid(3));
    transform.translation = Some(Position::new(OrthogonalGrid(0), OrthogonalGrid(42)));
    position_frame(&mut position, &mut transform, true, true);
    assert_eq!(transform.translation, Some(Position::new(OrthogonalGrid(3), OrthogonalGrid(3))));
    assert_eq!(position, Position::new(OrthogonalGrid(3), OrthogonalGrid(3)));

    // An unreadable translation is skipped: the position keeps its value
    transform.translation = None;
    position_frame(&mut position, &mut transform, false, true);
    assert_eq!(position, Position::new(OrthogonalGrid(3), OrthogonalGrid(3)));

    position = Position::new(OrthogonalGrid(4), OrthogonalGrid(4));
    position_frame(&mut position, &mut transform, true, true);
    assert_eq!(transform.translation, Some(Position::new(OrthogonalGrid(4), OrthogonalGrid(4))));
}

#[test]
fn sync_is_idempotent_within_a_frame() {
    // A direction write propagates on the first pass; running the transform
    // pass again in the same frame, with only the first pass's own writes
    // flagged, writes nothing further.
    let mut rotation = Rotation::default();
    let mut direction = Direction::east();
    let (wrote_rotation, wrote_direction) = sync_direction_and_rotation(
        &mut rotation,
        false,
        &mut direction,
        true,
    );
    assert!(wrote_rotation);
    assert!(!wrote_direction);
    assert_eq!(rotation, Rotation::east());

    let mut transform: Transform2d<OrthogonalGrid> = Transform2d {
        rotation: Some(Rotation::default()),
        translation: Some(Position::origin()),
    };
    let mut components: Entity2d<OrthogonalGrid> = Entity2d {
        rotation: Some(rotation),
        direction: Some(direction),
        position: Some(Position::new(OrthogonalGrid(5), OrthogonalGrid(7))),
    };
    let first = sync_transform_with_2d(
        &mut transform,
        &mut components,
        ChangeFlags { transform: false, rotation: true, direction: true, position: true },
    );
    assert!(first.transform_rotation);
    assert!(first.transform_translation);
    assert_eq!(transform.rotation, Some(Rotation::east()));

    let second = sync_transform_with_2d(
        &mut transform,
        &mut components,
        ChangeFlags {
            transform: first.transform_rotation || first.transform_translation,
            rotation: first.rotation,
            direction: first.direction,
            position: first.position,
        },
    );
    let none = SyncWrites {
        transform_rotation: false,
        transform_translation: false,
        rotation: false,
        direction: false,
        position: false,
    };
    assert_eq!(second, none);
}

#[test]
fn stage_a_prioritizes_rotation() {
    let mut rotation = Rotation::west();
    let mut direction = Direction::south();
    let (wrote_rotation, wrote_direction) = sync_direction_and_rotation(
        &mut rotation,
        true,
        &mut direction,
        true,
    );
    assert!(!wrote_rotation);
    assert!(wrote_direction);
    assert_eq!(rotation, Rotation::west());
    assert_eq!(direction, Direction::west());

    // A no-op write never registers as a change
    let (wrote_rotation, wrote_direction) = sync_direction_and_rotation(
        &mut rotation,
        true,
        &mut direction,
        false,
    );
    assert!(!wrote_rotation);
    assert!(!wrote_direction);
}

#[test]
fn near_singular_transform_rotation_is_skipped() {
    let mut rotation = Rotation::east();
    let mut transform: Transform2d<OrthogonalGrid> = Transform2d {
        rotation: None,
        translation: None,
    };
    let mut components: Entity2d<OrthogonalGrid> = Entity2d {
        rotation: Some(rotation),
        direction: None,
        position: None,
    };
    // The transform changed, but its rotation readout is near-singular: the
    // rotation component keeps its prior value.
    let writes = sync_transform_with_2d(
        &mut transform,
        &mut components,
        ChangeFlags { transform: true, rotation: false, direction: false, position: false },
    );
    assert_eq!(components.rotation, Some(Rotation::east()));
    assert!(!writes.rotation);
    rotation = components.rotation.unwrap();
    assert_eq!(rotation, Rotation::east());
}
