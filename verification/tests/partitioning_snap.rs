use leafwing_2d::orientation::{Direction, Orientation, Rotation};
use leafwing_2d::partitioning::{
    directions, rotations, snap, snap_direction, snap_rotation, CardinalOctant, CardinalQuadrant,
    CardinalSextant, DirectionParitioning, OffsetQuadrant, OffsetSextant,
};

#[test]
fn quadrant_members_in_enumeration_order() {
    assert_eq!(
        CardinalQuadrant::partitions(),
        vec![
            CardinalQuadrant::North,
            CardinalQuadrant::East,
            CardinalQuadrant::South,
            CardinalQuadrant::West,
        ]
    );
    assert_eq!(
        rotations::<CardinalQuadrant>(),
        vec![Rotation::north(), Rotation::east(), Rotation::south(), Rotation::west()]
    );
    assert_eq!(
        directions::<CardinalQuadrant>(),
        vec![Direction::north(), Direction::east(), Direction::south(), Direction::west()]
    );
}

#[test]
fn snap_picks_the_nearest_member() {
    assert_eq!(snap::<CardinalQuadrant>(Rotation::new(100)), CardinalQuadrant::North);
    assert_eq!(snap::<CardinalQuadrant>(Rotation::new(600)), CardinalQuadrant::East);
    assert_eq!(snap::<CardinalQuadrant>(Rotation::new(1700)), CardinalQuadrant::South);
    assert_eq!(snap::<CardinalQuadrant>(Rotation::new(3500)), CardinalQuadrant::North);
    assert_eq!(snap_rotation::<CardinalQuadrant>(Rotation::new(2650)), Rotation::west());
    assert_eq!(snap_direction::<CardinalQuadrant>(Direction::of_rotation(Rotation::new(950))), Direction::east());
}

#[test]
fn snap_breaks_ties_towards_the_first_member() {
    // 45 degrees sits exactly between North and East: the first minimal
    // member in enumeration order wins
    assert_eq!(snap::<CardinalQuadrant>(Rotation::new(450)), CardinalQuadrant::North);
    // and 135 degrees between East and South
    assert_eq!(snap::<CardinalQuadrant>(Rotation::new(1350)), CardinalQuadrant::East);
}

#[test]
fn snap_on_a_member_is_that_member() {
    assert_eq!(snap::<CardinalOctant>(Rotation::northeast()), CardinalOctant::NorthEast);
    assert_eq!(snap::<OffsetQuadrant>(Rotation::new(2250)), OffsetQuadrant::SouthWest);
    assert_eq!(snap::<CardinalSextant>(Rotation::new(600)), CardinalSextant::NorthEast);
    assert_eq!(snap::<OffsetSextant>(Rotation::new(3300)), OffsetSextant::NorthWest);
}

#[test]
fn octant_covers_all_eight_ways() {
    assert_eq!(
        rotations::<CardinalOctant>(),
        vec![
            Rotation::north(),
            Rotation::northeast(),
            Rotation::east(),
            Rotation::southeast(),
            Rotation::south(),
            Rotation::southwest(),
            Rotation::west(),
            Rotation::northwest(),
        ]
    );
    assert_eq!(snap::<CardinalOctant>(Rotation::new(2000)), CardinalOctant::South);
}

#[test]
fn sextant_members_match_their_tilings() {
    assert_eq!(
        rotations::<CardinalSextant>(),
        vec![
            Rotation::new(0),
            Rotation::new(600),
            Rotation::new(1200),
            Rotation::new(1800),
            Rotation::new(2400),
            Rotation::new(3000),
        ]
    );
    assert_eq!(
        rotations::<OffsetSextant>(),
        vec![
            Rotation::new(300),
            Rotation::new(900),
            Rotation::new(1500),
            Rotation::new(2100),
            Rotation::new(2700),
            Rotation::new(3300),
        ]
    );
}

#[test]
fn member_conversions_agree() {
    assert_eq!(CardinalQuadrant::West.to_rotation(), Rotation::west());
    assert_eq!(CardinalQuadrant::West.to_direction(), Direction::west());
    assert_eq!(OffsetQuadrant::NorthEast.to_rotation(), Rotation::northeast());
    assert_eq!(CardinalSextant::SouthWest.to_rotation(), Rotation::new(2400));
    assert_eq!(OffsetSextant::East.to_direction(), Direction::east());
}
