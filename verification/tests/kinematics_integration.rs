use leafwing_2d::discrete::OrthogonalGrid;
use leafwing_2d::kinematics::{
    angular_kinematics, linear_kinematics, Acceleration, AngularAcceleration, AngularVelocity,
    Kinematic, Velocity,
};
use leafwing_2d::orientation::{Direction, Rotation, RotationDirection};
use leafwing_2d::position::Position;
use leafwing_2d::scale::Scale;

#[test]
fn linear_integration_is_explicit_euler() {
    let mut position: Position<OrthogonalGrid> = Position::origin();
    let mut velocity: Velocity<OrthogonalGrid> =
        Velocity { x: OrthogonalGrid(10), y: OrthogonalGrid(0) };
    let acceleration: Acceleration<OrthogonalGrid> =
        Acceleration { x: OrthogonalGrid(2), y: OrthogonalGrid(4) };

    // One full second: velocity += acceleration, then position += velocity
    linear_kinematics(&mut position, &mut velocity, &acceleration, 1000);
    assert_eq!(velocity, Velocity { x: OrthogonalGrid(12), y: OrthogonalGrid(4) });
    assert_eq!(position, Position::new(OrthogonalGrid(12), OrthogonalGrid(4)));

    // Half a second: the accrued shares are halved, truncating towards zero
    linear_kinematics(&mut position, &mut velocity, &acceleration, 500);
    assert_eq!(velocity, Velocity { x: OrthogonalGrid(13), y: OrthogonalGrid(6) });
    assert_eq!(position, Position::new(OrthogonalGrid(18), OrthogonalGrid(7)));

    // No elapsed time changes nothing
    linear_kinematics(&mut position, &mut velocity, &acceleration, 0);
    assert_eq!(velocity, Velocity { x: OrthogonalGrid(13), y: OrthogonalGrid(6) });
    assert_eq!(position, Position::new(OrthogonalGrid(18), OrthogonalGrid(7)));
}

#[test]
fn angular_integration_wraps_safely() {
    let mut rotation = Rotation::new(3500);
    let mut velocity = AngularVelocity { deci_degrees: 0 };
    let acceleration = AngularAcceleration { deci_degrees: 200 };

    // One second: the velocity accrues 200 deci-degrees per second, and the
    // rotation advances by the new velocity, wrapping past north
    angular_kinematics(&mut rotation, &mut velocity, &acceleration, 1000);
    assert_eq!(velocity, AngularVelocity { deci_degrees: 200 });
    assert_eq!(rotation, Rotation::new(100));

    // A counter-clockwise velocity turns the other way
    let mut rotation = Rotation::new(100);
    let mut velocity = AngularVelocity { deci_degrees: -300 };
    let still = AngularAcceleration { deci_degrees: 0 };
    angular_kinematics(&mut rotation, &mut velocity, &still, 1000);
    assert_eq!(rotation, Rotation::new(3400));

    // Many full turns in one tick are still a no-op on the angle
    let mut rotation = Rotation::new(42);
    let mut velocity = AngularVelocity { deci_degrees: 36000 };
    angular_kinematics(&mut rotation, &mut velocity, &still, 1000);
    assert_eq!(rotation, Rotation::new(42));
}

#[test]
fn angular_quantities_know_their_direction() {
    let clockwise = AngularVelocity::new(150, RotationDirection::Clockwise);
    assert_eq!(clockwise.deci_degrees, 150);
    assert_eq!(clockwise.magnitude(), 150);
    assert_eq!(clockwise.magnitude_squared(), 22500);
    assert_eq!(clockwise.direction(), Some(RotationDirection::Clockwise));

    let widdershins = AngularAcceleration::new(40, RotationDirection::CounterClockwise);
    assert_eq!(widdershins.deci_degrees, -40);
    assert_eq!(widdershins.magnitude(), 40);
    assert_eq!(widdershins.magnitude_squared(), 1600);
    assert_eq!(widdershins.direction(), Some(RotationDirection::CounterClockwise));

    let still = AngularVelocity::new(0, RotationDirection::Clockwise);
    assert_eq!(still.direction(), None);
}

#[test]
fn linear_vectors_know_their_direction() {
    let north_east: Velocity<OrthogonalGrid> =
        Velocity { x: OrthogonalGrid(3), y: OrthogonalGrid(3) };
    assert_eq!(north_east.direction(), Some(Direction::northeast()));
    assert_eq!(north_east.magnitude_squared(), OrthogonalGrid(18));

    let still: Velocity<OrthogonalGrid> = Velocity { x: OrthogonalGrid(0), y: OrthogonalGrid(0) };
    assert_eq!(still.direction(), None);

    let south: Acceleration<OrthogonalGrid> =
        Acceleration { x: OrthogonalGrid(0), y: OrthogonalGrid(-5) };
    assert_eq!(south.direction(), Some(Direction::south()));
    assert_eq!(south.magnitude_squared(), OrthogonalGrid(25));
}

#[test]
fn scale_multiplies_and_divides() {
    let scale = Scale(OrthogonalGrid(6));
    assert_eq!(scale.mul(OrthogonalGrid(3)), Scale(OrthogonalGrid(18)));
    assert_eq!(scale.div(OrthogonalGrid(4)), Scale(OrthogonalGrid(1)));
}
