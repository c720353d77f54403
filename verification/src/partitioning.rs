//! Tools to partition orientations into discrete regions

use vstd::prelude::*;

use crate::orientation::{rot_dist, Direction, Orientation, Rotation};

verus! {

/// An exhaustive partitioning of the unit circle, snapping continuous
/// directional input into one of a few possible options
///
/// Only the member list and each member's angle are specific to a
/// partitioning; the snapping rules themselves are shared.
pub trait DirectionParitioning: Sized + Copy {
    /// The members of this partitioning, in enumeration order
    spec fn partitions_spec() -> Seq<Self>;

    /// The angle, in deci-degrees clockwise from north, that this member
    /// stands for
    spec fn angle_of(self) -> int;

    /// There is at least one member, and every member's angle is canonical
    proof fn partitions_wf()
        ensures
            Self::partitions_spec().len() > 0,
            forall|i: int|
                0 <= i < Self::partitions_spec().len() ==> 0 <= (
                #[trigger] Self::partitions_spec()[i]).angle_of() < 3600,
    ;

    /// Returns the vector of possible partitions that can be snapped to
    fn partitions() -> (v: Vec<Self>)
        ensures
            v@ == Self::partitions_spec(),
    ;

    /// The [`Rotation`] this member snaps an orientation to
    fn to_rotation(self) -> (r: Rotation)
        ensures
            r@ == self.angle_of(),
    ;

    /// The [`Direction`] this member snaps an orientation to
    fn to_direction(self) -> (d: Direction)
        ensures
            d@ == self.angle_of(),
    ;
}

/// Finds the first option at minimal angular distance from `rotation`
///
/// No other option is strictly closer than the returned index, and every
/// earlier option is strictly farther, so ties go to the first minimal
/// element in enumeration order.
pub fn nearest_rotation_index(rotation: Rotation, options: &Vec<Rotation>) -> (idx: usize)
    requires
        options@.len() > 0,
    ensures
        idx < options@.len(),
        forall|j: int|
            0 <= j < options@.len() ==> rot_dist(rotation@, options@[idx as int]@) <= rot_dist(
                rotation@,
                (#[trigger] options@[j])@,
            ),
        forall|j: int|
            0 <= j < idx ==> rot_dist(rotation@, (#[trigger] options@[j])@) > rot_dist(
                rotation@,
                options@[idx as int]@,
            ),
{
    proof {
        use_type_invariant(rotation);
    }
    let first: Rotation = options[0];
    let mut best: usize = 0;
    let mut best_dist: u16 = rotation.distance(first).deci_degrees();
    let mut i: usize = 1;
    while i < options.len()
        invariant
            1 <= i <= options@.len(),
            (best as int) < i,
            best_dist as int == rot_dist(rotation@, options@[best as int]@),
            forall|j: int|
                0 <= j < i ==> best_dist as int <= rot_dist(rotation@, (#[trigger] options@[j])@),
            forall|j: int|
                0 <= j < best ==> rot_dist(rotation@, (#[trigger] options@[j])@) > best_dist as int,
        decreases options@.len() - i,
    {
        proof {
            use_type_invariant(rotation);
        }
        let candidate: Rotation = options[i];
        let d: u16 = rotation.distance(candidate).deci_degrees();
        if d < best_dist {
            best = i;
            best_dist = d;
        }
        i += 1;
    }
    best
}

/// Returns a vector of the snappable rotations, in enumeration order
pub fn rotations<P: DirectionParitioning>() -> (v: Vec<Rotation>)
    ensures
        v@.len() == P::partitions_spec().len(),
        forall|i: int|
            0 <= i < v@.len() ==> (#[trigger] v@[i])@ == P::partitions_spec()[i].angle_of(),
{
    let members: Vec<P> = P::partitions();
    let mut v: Vec<Rotation> = Vec::new();
    let mut i: usize = 0;
    while i < members.len()
        invariant
            i <= members@.len(),
            members@ == P::partitions_spec(),
            v@.len() == i,
            forall|j: int|
                0 <= j < i ==> (#[trigger] v@[j])@ == P::partitions_spec()[j].angle_of(),
        decreases members@.len() - i,
    {
        let member: P = members[i];
        v.push(member.to_rotation());
        i += 1;
    }
    v
}

/// Returns a vector of the snappable directions, in enumeration order
pub fn directions<P: DirectionParitioning>() -> (v: Vec<Direction>)
    ensures
        v@.len() == P::partitions_spec().len(),
        forall|i: int|
            0 <= i < v@.len() ==> (#[trigger] v@[i])@ == P::partitions_spec()[i].angle_of(),
{
    let members: Vec<P> = P::partitions();
    let mut v: Vec<Direction> = Vec::new();
    let mut i: usize = 0;
    while i < members.len()
        invariant
            i <= members@.len(),
            members@ == P::partitions_spec(),
            v@.len() == i,
            forall|j: int|
                0 <= j < i ==> (#[trigger] v@[j])@ == P::partitions_spec()[j].angle_of(),
        decreases members@.len() - i,
    {
        let member: P = members[i];
        v.push(member.to_direction());
        i += 1;
    }
    v
}

/// Snaps to the nearest partition member
///
/// The winner minimizes the angular distance to the input; ties are broken in
/// favor of the first minimal member in enumeration order.
pub fn snap<P: DirectionParitioning>(rotation: Rotation) -> (p: P)
    ensures
        ({
            let s = P::partitions_spec();
            exists|i: int|
                #![auto]
                0 <= i < s.len() && p == s[i] && (forall|j: int|
                    0 <= j < s.len() ==> rot_dist(rotation@, s[i].angle_of()) <= rot_dist(
                        rotation@,
                        (#[trigger] s[j]).angle_of(),
                    )) && (forall|j: int|
                    0 <= j < i ==> rot_dist(rotation@, (#[trigger] s[j]).angle_of()) > rot_dist(
                        rotation@,
                        s[i].angle_of(),
                    ))
        }),
{
    proof {
        P::partitions_wf();
    }
    let options: Vec<Rotation> = rotations::<P>();
    let idx: usize = nearest_rotation_index(rotation, &options);
    let members: Vec<P> = P::partitions();
    let winner: P = members[idx];
    proof {
        let s = P::partitions_spec();
        let w: int = idx as int;
        assert forall|j: int| 0 <= j < s.len() implies rot_dist(rotation@, s[w].angle_of())
            <= rot_dist(rotation@, (#[trigger] s[j]).angle_of()) by {
            assert(options@[j]@ == s[j].angle_of());
            assert(options@[w]@ == s[w].angle_of());
        }
        assert forall|j: int| 0 <= j < w implies rot_dist(rotation@, (#[trigger] s[j]).angle_of())
            > rot_dist(rotation@, s[w].angle_of()) by {
            assert(options@[j]@ == s[j].angle_of());
            assert(options@[w]@ == s[w].angle_of());
        }
        assert(0 <= w < s.len() && winner == s[w] && (forall|j: int|
            0 <= j < s.len() ==> rot_dist(rotation@, s[w].angle_of()) <= rot_dist(
                rotation@,
                (#[trigger] s[j]).angle_of(),
            )) && (forall|j: int|
            0 <= j < w ==> rot_dist(rotation@, (#[trigger] s[j]).angle_of()) > rot_dist(
                rotation@,
                s[w].angle_of(),
            )));
    }
    winner
}

/// Snaps a [`Rotation`] to the nearest matching discrete [`Rotation`]
pub fn snap_rotation<P: DirectionParitioning>(rotation: Rotation) -> (r: Rotation)
    ensures
        ({
            let s = P::partitions_spec();
            exists|i: int|
                #![auto]
                0 <= i < s.len() && r@ == s[i].angle_of() && (forall|j: int|
                    0 <= j < s.len() ==> rot_dist(rotation@, s[i].angle_of()) <= rot_dist(
                        rotation@,
                        (#[trigger] s[j]).angle_of(),
                    )) && (forall|j: int|
                    0 <= j < i ==> rot_dist(rotation@, (#[trigger] s[j]).angle_of()) > rot_dist(
                        rotation@,
                        s[i].angle_of(),
                    ))
        }),
{
    let p: P = snap::<P>(rotation);
    p.to_rotation()
}

/// Snaps a [`Direction`] to the nearest matching discrete [`Direction`]
pub fn snap_direction<P: DirectionParitioning>(direction: Direction) -> (d: Direction)
    ensures
        ({
            let s = P::partitions_spec();
            exists|i: int|
                #![auto]
                0 <= i < s.len() && d@ == s[i].angle_of() && (forall|j: int|
                    0 <= j < s.len() ==> rot_dist(direction@, s[i].angle_of()) <= rot_dist(
                        direction@,
                        (#[trigger] s[j]).angle_of(),
                    )) && (forall|j: int|
                    0 <= j < i ==> rot_dist(direction@, (#[trigger] s[j]).angle_of()) > rot_dist(
                        direction@,
                        s[i].angle_of(),
                    ))
        }),
{
    proof {
        use_type_invariant(direction);
    }
    let rotation: Rotation = direction.to_rotation();
    let p: P = snap::<P>(rotation);
    p.to_direction()
}

/// A 4-way [`DirectionParitioning`], corresponding to the four cardinal directions
#[derive(Clone, Copy, Debug, PartialEq, Eq, Structural)]
pub enum CardinalQuadrant {
    /// Up
    North,
    /// Right
    East,
    /// Down
    South,
    /// Left
    West,
}

impl DirectionParitioning for CardinalQuadrant {
    open spec fn partitions_spec() -> Seq<Self> {
        seq![
            CardinalQuadrant::North,
            CardinalQuadrant::East,
            CardinalQuadrant::South,
            CardinalQuadrant::West,
        ]
    }

    open spec fn angle_of(self) -> int {
        match self {
            CardinalQuadrant::North => 0,
            CardinalQuadrant::East => 900,
            CardinalQuadrant::South => 1800,
            CardinalQuadrant::West => 2700,
        }
    }

    proof fn partitions_wf() {
    }

    fn partitions() -> (v: Vec<Self>) {
        let mut v: Vec<Self> = Vec::new();
        v.push(CardinalQuadrant::North);
        v.push(CardinalQuadrant::East);
        v.push(CardinalQuadrant::South);
        v.push(CardinalQuadrant::West);
        proof {
            assert(v@ =~= Self::partitions_spec());
        }
        v
    }

    fn to_rotation(self) -> (r: Rotation) {
        match self {
            CardinalQuadrant::North => Rotation::north(),
            CardinalQuadrant::East => Rotation::east(),
            CardinalQuadrant::South => Rotation::south(),
            CardinalQuadrant::West => Rotation::west(),
        }
    }

    fn to_direction(self) -> (d: Direction) {
        match self {
            CardinalQuadrant::North => Direction::north(),
            CardinalQuadrant::East => Direction::east(),
            CardinalQuadrant::South => Direction::south(),
            CardinalQuadrant::West => Direction::west(),
        }
    }
}


/// A 4-way [`DirectionParitioning`], corresponding to the four cardinal
/// directions offset by 45 degrees
#[derive(Clone, Copy, Debug, PartialEq, Eq, Structural)]
pub enum OffsetQuadrant {
    /// Up and right
    NorthEast,
    /// Down and right
    SouthEast,
    /// Down and left
    SouthWest,
    /// Up and left
    NorthWest,
}

impl DirectionParitioning for OffsetQuadrant {
    open spec fn partitions_spec() -> Seq<Self> {
        seq![
            OffsetQuadrant::NorthEast,
            OffsetQuadrant::SouthEast,
            OffsetQuadrant::SouthWest,
            OffsetQuadrant::NorthWest,
        ]
    }

    open spec fn angle_of(self) -> int {
        match self {
            OffsetQuadrant::NorthEast => 450,
            OffsetQuadrant::SouthEast => 1350,
            OffsetQuadrant::SouthWest => 2250,
            OffsetQuadrant::NorthWest => 3150,
        }
    }

    proof fn partitions_wf() {
    }

    fn partitions() -> (v: Vec<Self>) {
        let mut v: Vec<Self> = Vec::new();
        v.push(OffsetQuadrant::NorthEast);
        v.push(OffsetQuadrant::SouthEast);
        v.push(OffsetQuadrant::SouthWest);
        v.push(OffsetQuadrant::NorthWest);
        proof {
            assert(v@ =~= Self::partitions_spec());
        }
        v
    }

    fn to_rotation(self) -> (r: Rotation) {
        match self {
            OffsetQuadrant::NorthEast => Rotation::northeast(),
            OffsetQuadrant::SouthEast => Rotation::southeast(),
            OffsetQuadrant::SouthWest => Rotation::southwest(),
            OffsetQuadrant::NorthWest => Rotation::northwest(),
        }
    }

    fn to_direction(self) -> (d: Direction) {
        match self {
            OffsetQuadrant::NorthEast => Direction::northeast(),
            OffsetQuadrant::SouthEast => Direction::southeast(),
            OffsetQuadrant::SouthWest => Direction::southwest(),
            OffsetQuadrant::NorthWest => Direction::northwest(),
        }
    }
}

/// An 8-way [`DirectionParitioning`], corresponding to the four cardinal
/// directions and the intermediate values
#[derive(Clone, Copy, Debug, PartialEq, Eq, Structural)]
pub enum CardinalOctant {
    /// Up
    North,
    /// Up and right
    NorthEast,
    /// Right
    East,
    /// Down and right
    SouthEast,
    /// Down
    South,
    /// Down and left
    SouthWest,
    /// Left
    West,
    /// Up and left
    NorthWest,
}

impl DirectionParitioning for CardinalOctant {
    open spec fn partitions_spec() -> Seq<Self> {
        seq![
            CardinalOctant::North,
            CardinalOctant::NorthEast,
            CardinalOctant::East,
            CardinalOctant::SouthEast,
            CardinalOctant::South,
            CardinalOctant::SouthWest,
            CardinalOctant::West,
            CardinalOctant::NorthWest,
        ]
    }

    open spec fn angle_of(self) -> int {
        match self {
            CardinalOctant::North => 0,
            CardinalOctant::NorthEast => 450,
            CardinalOctant::East => 900,
            CardinalOctant::SouthEast => 1350,
            CardinalOctant::South => 1800,
            CardinalOctant::SouthWest => 2250,
            CardinalOctant::West => 2700,
            CardinalOctant::NorthWest => 3150,
        }
    }

    proof fn partitions_wf() {
    }

    fn partitions() -> (v: Vec<Self>) {
        let mut v: Vec<Self> = Vec::new();
        v.push(CardinalOctant::North);
        v.push(CardinalOctant::NorthEast);
        v.push(CardinalOctant::East);
        v.push(CardinalOctant::SouthEast);
        v.push(CardinalOctant::South);
        v.push(CardinalOctant::SouthWest);
        v.push(CardinalOctant::West);
        v.push(CardinalOctant::NorthWest);
        proof {
            assert(v@ =~= Self::partitions_spec());
        }
        v
    }

    fn to_rotation(self) -> (r: Rotation) {
        match self {
            CardinalOctant::North => Rotation::north(),
            CardinalOctant::NorthEast => Rotation::northeast(),
            CardinalOctant::East => Rotation::east(),
            CardinalOctant::SouthEast => Rotation::southeast(),
            CardinalOctant::South => Rotation::south(),
            CardinalOctant::SouthWest => Rotation::southwest(),
            CardinalOctant::West => Rotation::west(),
            CardinalOctant::NorthWest => Rotation::northwest(),
        }
    }

    fn to_direction(self) -> (d: Direction) {
        match self {
            CardinalOctant::North => Direction::north(),
            CardinalOctant::NorthEast => Direction::northeast(),
            CardinalOctant::East => Direction::east(),
            CardinalOctant::SouthEast => Direction::southeast(),
            CardinalOctant::South => Direction::south(),
            CardinalOctant::SouthWest => Direction::southwest(),
            CardinalOctant::West => Direction::west(),
            CardinalOctant::NorthWest => Direction::northwest(),
        }
    }
}

/// A 6-way [`DirectionParitioning`], corresponding to the 6 directions of a
/// tip-up hexagon
///
/// For visualization purposes, these hexagons can be tiled in a row.
#[derive(Clone, Copy, Debug, PartialEq, Eq, Structural)]
pub enum CardinalSextant {
    /// Up
    North,
    /// Up and right
    NorthEast,
    /// Down and right
    SouthEast,
    /// Down
    South,
    /// Down and left
    SouthWest,
    /// Up and left
    NorthWest,
}

impl DirectionParitioning for CardinalSextant {
    open spec fn partitions_spec() -> Seq<Self> {
        seq![
            CardinalSextant::North,
            CardinalSextant::NorthEast,
            CardinalSextant::SouthEast,
            CardinalSextant::South,
            CardinalSextant::SouthWest,
            CardinalSextant::NorthWest,
        ]
    }

    open spec fn angle_of(self) -> int {
        match self {
            CardinalSextant::North => 0,
            CardinalSextant::NorthEast => 600,
            CardinalSextant::SouthEast => 1200,
            CardinalSextant::South => 1800,
            CardinalSextant::SouthWest => 2400,
            CardinalSextant::NorthWest => 3000,
        }
    }

    proof fn partitions_wf() {
    }

    fn partitions() -> (v: Vec<Self>) {
        let mut v: Vec<Self> = Vec::new();
        v.push(CardinalSextant::North);
        v.push(CardinalSextant::NorthEast);
        v.push(CardinalSextant::SouthEast);
        v.push(CardinalSextant::South);
        v.push(CardinalSextant::SouthWest);
        v.push(CardinalSextant::NorthWest);
        proof {
            assert(v@ =~= Self::partitions_spec());
        }
        v
    }

    fn to_rotation(self) -> (r: Rotation) {
        match self {
            CardinalSextant::North => Rotation::north(),
            CardinalSextant::NorthEast => Rotation::new(600),
            CardinalSextant::SouthEast => Rotation::new(1200),
            CardinalSextant::South => Rotation::south(),
            CardinalSextant::SouthWest => Rotation::new(2400),
            CardinalSextant::NorthWest => Rotation::new(3000),
        }
    }

    fn to_direction(self) -> (d: Direction) {
        match self {
            CardinalSextant::North => Direction::north(),
            CardinalSextant::NorthEast => Direction::of_rotation(Rotation::new(600)),
            CardinalSextant::SouthEast => Direction::of_rotation(Rotation::new(1200)),
            CardinalSextant::South => Direction::south(),
            CardinalSextant::SouthWest => Direction::of_rotation(Rotation::new(2400)),
            CardinalSextant::NorthWest => Direction::of_rotation(Rotation::new(3000)),
        }
    }
}

/// A 6-way [`DirectionParitioning`], corresponding to the 6 directions of a
/// flat-up hexagon
///
/// For visualization purposes, these hexagons can be tiled in a column.
#[derive(Clone, Copy, Debug, PartialEq, Eq, Structural)]
pub enum OffsetSextant {
    /// Up and right
    NorthEast,
    /// Right
    East,
    /// Down and right
    SouthEast,
    /// Down and left
    SouthWest,
    /// Left
    West,
    /// Up and left
    NorthWest,
}

impl DirectionParitioning for OffsetSextant {
    open spec fn partitions_spec() -> Seq<Self> {
        seq![
            OffsetSextant::NorthEast,
            OffsetSextant::East,
            OffsetSextant::SouthEast,
            OffsetSextant::SouthWest,
            OffsetSextant::West,
            OffsetSextant::NorthWest,
        ]
    }

    open spec fn angle_of(self) -> int {
        match self {
            OffsetSextant::NorthEast => 300,
            OffsetSextant::East => 900,
            OffsetSextant::SouthEast => 1500,
            OffsetSextant::SouthWest => 2100,
            OffsetSextant::West => 2700,
            OffsetSextant::NorthWest => 3300,
        }
    }

    proof fn partitions_wf() {
    }

    fn partitions() -> (v: Vec<Self>) {
        let mut v: Vec<Self> = Vec::new();
        v.push(OffsetSextant::NorthEast);
        v.push(OffsetSextant::East);
        v.push(OffsetSextant::SouthEast);
        v.push(OffsetSextant::SouthWest);
        v.push(OffsetSextant::West);
        v.push(OffsetSextant::NorthWest);
        proof {
            assert(v@ =~= Self::partitions_spec());
        }
        v
    }

    fn to_rotation(self) -> (r: Rotation) {
        match self {
            OffsetSextant::NorthEast => Rotation::new(300),
            OffsetSextant::East => Rotation::east(),
            OffsetSextant::SouthEast => Rotation::new(1500),
            OffsetSextant::SouthWest => Rotation::new(2100),
            OffsetSextant::West => Rotation::west(),
            OffsetSextant::NorthWest => Rotation::new(3300),
        }
    }

    fn to_direction(self) -> (d: Direction) {
        match self {
            OffsetSextant::NorthEast => Direction::of_rotation(Rotation::new(300)),
            OffsetSextant::East => Direction::east(),
            OffsetSextant::SouthEast => Direction::of_rotation(Rotation::new(1500)),
            OffsetSextant::SouthWest => Direction::of_rotation(Rotation::new(2100)),
            OffsetSextant::West => Direction::west(),
            OffsetSextant::NorthWest => Direction::of_rotation(Rotation::new(3300)),
        }
    }
}

} // verus!
