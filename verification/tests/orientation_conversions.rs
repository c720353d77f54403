use leafwing_2d::discrete::OrthogonalGrid;
use leafwing_2d::orientation::{
    Direction, NearlySingularConversion, Orientation, Rotation, RotationDirection, FULL_CIRCLE,
};
use leafwing_2d::position::Position;

#[test]
fn rotation_wrapping() {
    let rotation = Rotation::new(42);

    assert_eq!(Rotation::new(FULL_CIRCLE), Rotation::default());
    assert_eq!(rotation.add(Rotation::new(FULL_CIRCLE)), rotation);
    assert_eq!(rotation.sub(Rotation::new(FULL_CIRCLE)), rotation);
    assert_eq!(rotation.add(Rotation::new(FULL_CIRCLE).mul_scalar(9001)), rotation);
}

#[test]
fn orientation_alignment() {
    let due_north: Position<OrthogonalGrid> = Position::new(OrthogonalGrid(0), OrthogonalGrid(1));
    let origin: Position<OrthogonalGrid> = Position::origin();

    let rotation: Rotation = origin.orientation_to(due_north).unwrap();
    let direction: Direction = origin.orientation_to(due_north).unwrap();

    assert_eq!(rotation, Rotation::north());
    assert_eq!(direction, Direction::north());
}

#[test]
fn rotation_from_degrees() {
    assert_eq!(Rotation::from_degrees(0).deci_degrees(), 0);
    assert_eq!(Rotation::from_degrees(65).deci_degrees(), 650);
    assert_eq!(Rotation::from_degrees(-90).deci_degrees(), 2700);
    assert_eq!(Rotation::from_degrees(360).deci_degrees(), 0);
}

#[test]
fn direction_rotation_conversion() {
    assert!(Direction::north().approx_eq(Direction::of_rotation(Rotation::new(0))));
    assert!(Direction::northeast().approx_eq(Direction::of_rotation(Rotation::new(450))));
    assert!(Direction::west().approx_eq(Direction::of_rotation(Rotation::new(2700))));
    assert!(Direction::north().approx_eq(Direction::of_rotation(Rotation::new(3600))));
}

#[test]
fn rotation_direction_round_trip_is_exact() {
    for deci in [0u16, 1, 450, 899, 1800, 2700, 3599] {
        let rotation = Rotation::new(deci);
        let direction = Direction::of_rotation(rotation);
        assert_eq!(direction.to_rotation(), rotation);
        assert_eq!(Direction::of_rotation(direction.to_rotation()), direction);
    }
}

#[test]
fn principal_ray_bearings_are_exact() {
    assert_eq!(Rotation::from_xy(0, 5), Ok(Rotation::north()));
    assert_eq!(Rotation::from_xy(7, 7), Ok(Rotation::northeast()));
    assert_eq!(Rotation::from_xy(3, 0), Ok(Rotation::east()));
    assert_eq!(Rotation::from_xy(2, -2), Ok(Rotation::southeast()));
    assert_eq!(Rotation::from_xy(0, -9), Ok(Rotation::south()));
    assert_eq!(Rotation::from_xy(-4, -4), Ok(Rotation::southwest()));
    assert_eq!(Rotation::from_xy(-1, 0), Ok(Rotation::west()));
    assert_eq!(Rotation::from_xy(-6, 6), Ok(Rotation::northwest()));
}

#[test]
fn zero_displacement_is_near_singular() {
    assert_eq!(Rotation::from_xy(0, 0), Err(NearlySingularConversion));
    assert_eq!(Direction::from_xy(0, 0), Err(NearlySingularConversion));
    assert!(Direction::from_xy(0, 1).is_ok());
}

#[test]
fn distance_is_symmetric_and_bounded() {
    let angles = [0u16, 42, 450, 900, 1799, 1800, 1801, 2700, 3599];
    for &a in angles.iter() {
        for &b in angles.iter() {
            let ab = Rotation::new(a).distance(Rotation::new(b));
            let ba = Rotation::new(b).distance(Rotation::new(a));
            assert_eq!(ab, ba);
            assert!(ab.deci_degrees() <= 1800);
        }
    }
    assert_eq!(Rotation::new(0).distance(Rotation::new(3599)).deci_degrees(), 1);
    assert_eq!(Rotation::new(0).distance(Rotation::new(1800)).deci_degrees(), 1800);
}

#[test]
fn rotate_towards_never_overshoots() {
    // Without a max step, the orientation snaps to the target
    let mut rotation = Rotation::south();
    rotation.rotate_towards(Rotation::west(), None);
    assert_eq!(rotation, Rotation::west());

    // With a max step, it advances by exactly that much along the short way
    rotation.rotate_towards(Rotation::south(), Some(Rotation::new(450)));
    assert_eq!(rotation, Rotation::southwest());

    // Once within the max step, it lands exactly on the target
    rotation.rotate_towards(Rotation::south(), Some(Rotation::new(500)));
    assert_eq!(rotation, Rotation::south());

    // The distance to the target never grows
    let target = Rotation::new(1000);
    let mut current = Rotation::new(3500);
    let mut last_distance = current.distance(target).deci_degrees();
    for _ in 0..20 {
        current.rotate_towards(target, Some(Rotation::new(100)));
        let now = current.distance(target).deci_degrees();
        assert!(now <= last_distance);
        last_distance = now;
    }
    assert_eq!(current, target);
}

#[test]
fn rotation_direction_shortest_way() {
    assert_eq!(Rotation::north().rotation_direction(Rotation::north()), RotationDirection::Clockwise);
    assert_eq!(Rotation::north().rotation_direction(Rotation::east()), RotationDirection::Clockwise);
    assert_eq!(Rotation::north().rotation_direction(Rotation::west()), RotationDirection::CounterClockwise);
    // Ties of exactly 180 degrees resolve to clockwise
    assert_eq!(Rotation::north().rotation_direction(Rotation::south()), RotationDirection::Clockwise);
    assert_eq!(RotationDirection::Clockwise.reverse(), RotationDirection::CounterClockwise);
    assert_eq!(RotationDirection::default(), RotationDirection::Clockwise);
    assert_eq!(RotationDirection::Clockwise.sign(), 1);
    assert_eq!(RotationDirection::CounterClockwise.sign(), -1);
}

#[test]
fn orientation_to_respects_requested_way() {
    assert_eq!(Rotation::north().orientation_to(Rotation::north(), None), Rotation::default());
    assert_eq!(
        Rotation::north().orientation_to(Rotation::east(), Some(RotationDirection::Clockwise)),
        Rotation::new(900)
    );
    assert_eq!(
        Rotation::north().orientation_to(Rotation::east(), Some(RotationDirection::CounterClockwise)),
        Rotation::new(2700)
    );
}

#[test]
fn negation_turns_the_other_way() {
    assert_eq!(Rotation::new(450).neg(), Rotation::new(3150));
    assert_eq!(Rotation::new(0).neg(), Rotation::new(0));
    assert_eq!(Direction::east().neg(), Direction::west());
    assert_eq!(Direction::north().neg(), Direction::south());
}
