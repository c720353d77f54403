use leafwing_2d::coordinate::{Coordinate, OutOfBoundsConversion};
use leafwing_2d::discrete::OrthogonalGrid;
use leafwing_2d::position::Position;

/// The interchange readout of a position, as the host adapter would hand it
/// to the transform's translation (x, y); the depth axis never appears.
fn to_xy(position: Position<OrthogonalGrid>) -> (f32, f32) {
    (position.x.to_interchange() as f32, position.y.to_interchange() as f32)
}

/// Reads a position back from a host translation, ignoring the depth axis.
fn from_xyz(x: f32, y: f32, _z: f32) -> Result<Position<OrthogonalGrid>, OutOfBoundsConversion> {
    Ok(Position::new(
        OrthogonalGrid::from_interchange(x as i64)?,
        OrthogonalGrid::from_interchange(y as i64)?,
    ))
}

#[test]
fn position_to_vec3() {
    assert_eq!(to_xy(Position::new(OrthogonalGrid(0), OrthogonalGrid(0))), (0.0, 0.0));
    assert_eq!(to_xy(Position::new(OrthogonalGrid(1), OrthogonalGrid(0))), (1.0, 0.0));
    assert_eq!(to_xy(Position::new(OrthogonalGrid(0), OrthogonalGrid(1))), (0.0, 1.0));
    assert_eq!(to_xy(Position::new(OrthogonalGrid(1), OrthogonalGrid(1))), (1.0, 1.0));
    assert_eq!(to_xy(Position::new(OrthogonalGrid(-1), OrthogonalGrid(-1))), (-1.0, -1.0));
    assert_eq!(to_xy(Position::new(OrthogonalGrid(-42), OrthogonalGrid(3))), (-42.0, 3.0));
}

#[test]
fn vec3_to_position() {
    assert_eq!(Ok(Position::new(OrthogonalGrid(0), OrthogonalGrid(0))), from_xyz(0.0, 0.0, 0.0));
    assert_eq!(Ok(Position::new(OrthogonalGrid(1), OrthogonalGrid(0))), from_xyz(1.0, 0.0, 0.0));
    assert_eq!(Ok(Position::new(OrthogonalGrid(0), OrthogonalGrid(1))), from_xyz(0.0, 1.0, 0.0));
    assert_eq!(Ok(Position::new(OrthogonalGrid(1), OrthogonalGrid(1))), from_xyz(1.0, 1.0, 0.0));
    assert_eq!(
        Ok(Position::new(OrthogonalGrid(-1), OrthogonalGrid(-1))),
        from_xyz(-1.0, -1.0, 0.0)
    );
    assert_eq!(
        Ok(Position::new(OrthogonalGrid(-42), OrthogonalGrid(3))),
        from_xyz(-42.0, 3.0, 0.0)
    );
    // The depth component is ignored entirely
    assert_eq!(
        Ok(Position::new(OrthogonalGrid(-42), OrthogonalGrid(3))),
        from_xyz(-42.0, 3.0, 17.0)
    );
}

#[test]
fn out_of_range_translation_is_rejected() {
    assert_eq!(
        OrthogonalGrid::from_interchange(16777217),
        Err(OutOfBoundsConversion)
    );
    assert_eq!(
        OrthogonalGrid::from_interchange(-16777217),
        Err(OutOfBoundsConversion)
    );
    assert_eq!(OrthogonalGrid::from_interchange(16777216), Ok(OrthogonalGrid(16777216)));
    assert_eq!(OrthogonalGrid::from_interchange(-16777216), Ok(OrthogonalGrid(-16777216)));
}

#[test]
fn position_arithmetic_is_componentwise() {
    let a = Position::new(OrthogonalGrid(10), OrthogonalGrid(4));
    let b = Position::new(OrthogonalGrid(3), OrthogonalGrid(-7));
    assert_eq!(a.add(b), Position::new(OrthogonalGrid(13), OrthogonalGrid(-3)));
    assert_eq!(a.sub(b), Position::new(OrthogonalGrid(7), OrthogonalGrid(11)));
    assert_eq!(a.mul(OrthogonalGrid(2)), Position::new(OrthogonalGrid(20), OrthogonalGrid(8)));
    assert_eq!(a.div(OrthogonalGrid(3)), Position::new(OrthogonalGrid(3), OrthogonalGrid(1)));
    assert_eq!(a.rem(OrthogonalGrid(3)), Position::new(OrthogonalGrid(1), OrthogonalGrid(1)));
    // Division truncates towards zero, and the remainder keeps the dividend's sign
    assert_eq!(b.div(OrthogonalGrid(2)), Position::new(OrthogonalGrid(1), OrthogonalGrid(-3)));
    assert_eq!(b.rem(OrthogonalGrid(2)), Position::new(OrthogonalGrid(1), OrthogonalGrid(-1)));

    // The componentwise remainder divides each axis by its own divisor
    let divisors = Position::new(OrthogonalGrid(4), OrthogonalGrid(5));
    assert_eq!(a.rem_position(divisors), Position::new(OrthogonalGrid(2), OrthogonalGrid(4)));
    assert_eq!(b.rem_position(divisors), Position::new(OrthogonalGrid(3), OrthogonalGrid(-2)));

    let origin: Position<OrthogonalGrid> = Position::origin();
    assert_eq!(a.add(origin), a);
    assert_eq!(a.sub(origin), a);
}

#[test]
fn position_addition_saturates_at_the_range_ends() {
    let max = Position::new(OrthogonalGrid(16777216), OrthogonalGrid(16777216));
    let one = Position::new(OrthogonalGrid(1), OrthogonalGrid(1));
    assert_eq!(max.add(one), max);
    let min = Position::new(OrthogonalGrid(-16777216), OrthogonalGrid(-16777216));
    assert_eq!(min.sub(one), min);
}
