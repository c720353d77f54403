//! Coordinate types for positions designed for operation on discrete grids
//!
//! The provided types all store an `i64` under the hood, clamped to a range
//! whose every value survives the trip through the host's single-precision
//! interchange format with zero error.

use vstd::prelude::*;

use crate::coordinate::{clip, trunc_div, trunc_rem, Coordinate, OutOfBoundsConversion, TrivialCoordinate};
use crate::orientation::{displacement_angle, Direction};
use crate::position::Position;
use vstd::arithmetic::div_mod::{lemma_div_nonincreasing, lemma_fundamental_div_mod};

verus! {

/// The largest magnitude a grid coordinate can hold
///
/// Every integer of magnitude at most 2^24 is exactly representable in the
/// host transform's single-precision translation, so round trips through the
/// interchange format are lossless across the whole range.
pub const GRID_BOUND: i64 = 16777216;

/// Clamps `v` into the grid's representable range
fn clamp_grid(v: i64) -> (r: i64)
    ensures
        r as int == clip(v as int, -16777216, 16777216),
{
    if v < -GRID_BOUND {
        -GRID_BOUND
    } else if v > GRID_BOUND {
        GRID_BOUND
    } else {
        v
    }
}

/// Saturating addition within the grid range
fn grid_add(a: i64, b: i64) -> (r: i64)
    requires
        -16777216 <= a <= 16777216,
        -16777216 <= b <= 16777216,
    ensures
        r as int == clip(a + b, -16777216, 16777216),
{
    clamp_grid(a + b)
}

/// Saturating subtraction within the grid range
fn grid_sub(a: i64, b: i64) -> (r: i64)
    requires
        -16777216 <= a <= 16777216,
        -16777216 <= b <= 16777216,
    ensures
        r as int == clip(a - b, -16777216, 16777216),
{
    clamp_grid(a - b)
}

/// Saturating multiplication within the grid range
fn grid_mul(a: i64, b: i64) -> (r: i64)
    requires
        -16777216 <= a <= 16777216,
        -16777216 <= b <= 16777216,
    ensures
        r as int == clip(a * b, -16777216, 16777216),
{
    proof {
        assert(-0x1000000000000 <= a * b <= 0x1000000000000) by (nonlinear_arith)
            requires
                -16777216 <= a <= 16777216,
                -16777216 <= b <= 16777216,
        ;
    }
    clamp_grid(a * b)
}

/// The magnitude of `v` as an unsigned value
fn grid_abs(v: i64) -> (a: u64)
    requires
        -16777216 <= v <= 16777216,
    ensures
        a as int == (if v >= 0 {
            v as int
        } else {
            -(v as int)
        }),
        a <= 16777216,
{
    if v >= 0 {
        v as u64
    } else {
        (-v) as u64
    }
}

/// Division truncated towards zero within the grid range
fn grid_div(a: i64, b: i64) -> (r: i64)
    requires
        -16777216 <= a <= 16777216,
        -16777216 <= b <= 16777216,
        b != 0,
    ensures
        r as int == clip(trunc_div(a as int, b as int), -16777216, 16777216),
{
    let aa: u64 = grid_abs(a);
    let ab: u64 = grid_abs(b);
    let q: u64 = aa / ab;
    proof {
        lemma_div_nonincreasing(aa as int, ab as int);
    }
    let signed: i64 = if (a >= 0) == (b >= 0) {
        q as i64
    } else {
        -(q as i64)
    };
    clamp_grid(signed)
}

/// Remainder of truncated division within the grid range
fn grid_rem(a: i64, b: i64) -> (r: i64)
    requires
        -16777216 <= a <= 16777216,
        -16777216 <= b <= 16777216,
        b != 0,
    ensures
        r as int == clip(trunc_rem(a as int, b as int), -16777216, 16777216),
{
    let aa: u64 = grid_abs(a);
    let ab: u64 = grid_abs(b);
    let m: u64 = aa % ab;
    proof {
        lemma_fundamental_div_mod(aa as int, ab as int);
        assert(trunc_rem(a as int, b as int) == (if a >= 0 {
            m as int
        } else {
            -(m as int)
        })) by (nonlinear_arith)
            requires
                aa as int == (if a >= 0 {
                    a as int
                } else {
                    -(a as int)
                }),
                ab as int == (if b >= 0 {
                    b as int
                } else {
                    -(b as int)
                }),
                b != 0,
                aa as int == ab as int * (aa as int / ab as int) + m as int,
                trunc_rem(a as int, b as int) == a - b * trunc_div(a as int, b as int),
                trunc_div(a as int, b as int) == (if (a >= 0) == (b >= 0) {
                    aa as int / ab as int
                } else {
                    -(aa as int / ab as int)
                }),
        ;
    }
    if a >= 0 {
        m as i64
    } else {
        -(m as i64)
    }
}

/// Scales a per-second rate down to `millis` milliseconds within the grid range
fn grid_scale_millis(a: i64, millis: u64) -> (r: i64)
    requires
        -16777216 <= a <= 16777216,
        millis <= 1000000,
    ensures
        r as int == clip(trunc_div(a * millis, 1000), -16777216, 16777216),
{
    let aa: u64 = grid_abs(a);
    proof {
        assert(aa * millis <= 16777216u64 * 1000000) by (nonlinear_arith)
            requires
                aa <= 16777216,
                millis <= 1000000,
        ;
    }
    let scaled: u64 = aa * millis;
    let q: u64 = scaled / 1000;
    proof {
        lemma_div_nonincreasing(scaled as int, 1000);
        assert(trunc_div(a * millis, 1000) == (if a >= 0 {
            scaled as int / 1000
        } else {
            -(scaled as int / 1000)
        })) by (nonlinear_arith)
            requires
                aa as int == (if a >= 0 {
                    a as int
                } else {
                    -(a as int)
                }),
                scaled as int == aa as int * millis,
                trunc_div(a * millis, 1000) == (if a * millis >= 0 {
                    (a * millis) / 1000
                } else {
                    -((-(a * millis)) / 1000)
                }),
        ;
    }
    let signed: i64 = if a >= 0 {
        q as i64
    } else {
        -(q as i64)
    };
    clamp_grid(signed)
}

/// Checks an interchange value against the grid range
fn grid_from_interchange(v: i64) -> (r: Result<i64, OutOfBoundsConversion>)
    ensures
        r is Ok <==> -16777216 <= v <= 16777216,
        r matches Ok(c) ==> c == v,
{
    if -GRID_BOUND <= v && v <= GRID_BOUND {
        Ok(v)
    } else {
        Err(OutOfBoundsConversion)
    }
}

/// A type that can be used to represent a discrete 2-dimensional coordinate
///
/// Typically used to create and work with [`Position`]s on a grid.
pub trait DiscreteCoordinate: Coordinate {
    /// The offsets from a cell to each of its neighbors, in clockwise order
    /// starting from north
    spec fn neighbor_offsets() -> Seq<(int, int)>;

    /// Neighbor offsets are unit steps: there is at least one, none is zero,
    /// and none moves more than one cell along either axis
    proof fn offsets_are_unit_steps()
        ensures
            Self::neighbor_offsets().len() > 0,
            forall|i: int|
                0 <= i < Self::neighbor_offsets().len() ==> {
                    let o = #[trigger] Self::neighbor_offsets()[i];
                    -1 <= o.0 <= 1 && -1 <= o.1 <= 1 && !(o.0 == 0 && o.1 == 0)
                },
    ;

    /// Gets the next higher value, bounded by the representable maximum
    fn next(&self) -> (r: Self)
        requires
            Self::min_spec() <= self.to_int() <= Self::max_spec(),
        ensures
            r.to_int() == clip(self.to_int() + 1, Self::min_spec(), Self::max_spec()),
    ;

    /// Gets the next lower value, bounded by the representable minimum
    fn prev(&self) -> (r: Self)
        requires
            Self::min_spec() <= self.to_int() <= Self::max_spec(),
        ensures
            r.to_int() == clip(self.to_int() - 1, Self::min_spec(), Self::max_spec()),
    ;

    /// Fetches the neighboring positions, in clockwise order starting from north
    ///
    /// Each neighbor sits one step along this grid's offsets, saturating at
    /// the edge of the representable range.
    fn neighbors(position: Position<Self>) -> (v: Vec<Position<Self>>)
        requires
            position.wf(),
        ensures
            v@.len() == Self::neighbor_offsets().len(),
            forall|i: int|
                0 <= i < v@.len() ==> {
                    let o = Self::neighbor_offsets()[i];
                    (#[trigger] v@[i]).x.to_int() == clip(
                        position.x.to_int() + o.0,
                        Self::min_spec(),
                        Self::max_spec(),
                    ) && v@[i].y.to_int() == clip(
                        position.y.to_int() + o.1,
                        Self::min_spec(),
                        Self::max_spec(),
                    ) && v@[i].wf()
                },
    ;
}

/// The [`Direction`] towards each neighbor, in clockwise order starting
/// from north
///
/// These are derived from the neighbors of the origin cell, so they line
/// up index by index with what [`neighbors`](D::neighbors) returns.
#[verifier::loop_isolation(false)]
pub fn neighbor_directions<D: DiscreteCoordinate>() -> (v: Vec<Direction>)
    ensures
        v@.len() == D::neighbor_offsets().len(),
        forall|i: int|
            0 <= i < v@.len() ==> {
                let o = D::neighbor_offsets()[i];
                (#[trigger] v@[i])@ == displacement_angle(o.0, o.1)
            },
{
    proof {
        D::offsets_are_unit_steps();
        D::bounds_okay();
    }
    let origin: Position<D> = Position::origin();
    let neighbors: Vec<Position<D>> = D::neighbors(origin);
    let mut directions: Vec<Direction> = Vec::new();
    let mut i: usize = 0;
    while i < neighbors.len()
        invariant
            i <= neighbors@.len(),
            directions@.len() == i,
            forall|j: int|
                0 <= j < i ==> {
                    let o = D::neighbor_offsets()[j];
                    (#[trigger] directions@[j])@ == displacement_angle(o.0, o.1)
                },
        decreases neighbors@.len() - i,
    {
        let p: Position<D> = neighbors[i];
        let dx: i64 = p.x.to_interchange();
        let dy: i64 = p.y.to_interchange();
        match Direction::from_xy(dx, dy) {
            Ok(d) => directions.push(d),
            Err(_) => {
                proof {
                    assert(false);
                }
                directions.push(Direction::north());
            },
        }
        i += 1;
    }
    directions
}

/// [`DiscreteCoordinate`] primitive for a square grid, where each cell has
/// four neighbors
///
/// Neighboring tiles must touch on their faces.
#[derive(Clone, Copy, Debug, PartialEq, Eq, Structural, Hash)]
pub struct OrthogonalGrid(pub i64);

impl Coordinate for OrthogonalGrid {
    open spec fn to_int(self) -> int {
        self.0 as int
    }

    open spec fn min_spec() -> int {
        -16777216
    }

    open spec fn max_spec() -> int {
        16777216
    }

    proof fn bounds_okay() {
    }

    fn zero() -> (r: Self) {
        OrthogonalGrid(0)
    }

    fn min_value() -> (r: Self) {
        OrthogonalGrid(-GRID_BOUND)
    }

    fn max_value() -> (r: Self) {
        OrthogonalGrid(GRID_BOUND)
    }

    fn add(self, rhs: Self) -> (r: Self) {
        OrthogonalGrid(grid_add(self.0, rhs.0))
    }

    fn sub(self, rhs: Self) -> (r: Self) {
        OrthogonalGrid(grid_sub(self.0, rhs.0))
    }

    fn mul(self, rhs: Self) -> (r: Self) {
        OrthogonalGrid(grid_mul(self.0, rhs.0))
    }

    fn div(self, rhs: Self) -> (r: Self) {
        OrthogonalGrid(grid_div(self.0, rhs.0))
    }

    fn rem(self, rhs: Self) -> (r: Self) {
        OrthogonalGrid(grid_rem(self.0, rhs.0))
    }

    fn scale_by_millis(self, millis: u64) -> (r: Self) {
        OrthogonalGrid(grid_scale_millis(self.0, millis))
    }

    fn lt(self, rhs: Self) -> (b: bool) {
        self.0 < rhs.0
    }

    fn le(self, rhs: Self) -> (b: bool) {
        self.0 <= rhs.0
    }

    fn eq_value(self, rhs: Self) -> (b: bool) {
        self.0 == rhs.0
    }

    fn to_interchange(self) -> (v: i64) {
        self.0
    }

    fn from_interchange(v: i64) -> (r: Result<Self, OutOfBoundsConversion>) {
        match grid_from_interchange(v) {
            Ok(c) => Ok(OrthogonalGrid(c)),
            Err(e) => Err(e),
        }
    }
}

impl TrivialCoordinate for OrthogonalGrid {
    type Wrapped = i64;

    open spec fn wrapped(self) -> i64 {
        self.0
    }

    open spec fn make_spec(value: i64) -> i64 {
        clip(value as int, -16777216, 16777216) as i64
    }

    fn new(value: i64) -> (s: Self) {
        OrthogonalGrid(clamp_grid(value))
    }

    fn value(&self) -> (v: i64) {
        self.0
    }
}

impl DiscreteCoordinate for OrthogonalGrid {
    open spec fn neighbor_offsets() -> Seq<(int, int)> {
        seq![(0int, 1int), (1int, 0int), (0int, -1int), (-1int, 0int)]
    }

    proof fn offsets_are_unit_steps() {
    }

    fn next(&self) -> (r: Self) {
        OrthogonalGrid(grid_add(self.0, 1))
    }

    fn prev(&self) -> (r: Self) {
        OrthogonalGrid(grid_sub(self.0, 1))
    }

    fn neighbors(position: Position<Self>) -> (v: Vec<Position<Self>>) {
        let mut v: Vec<Position<Self>> = Vec::new();
        v.push(Position { x: position.x, y: position.y.next() });
        v.push(Position { x: position.x.next(), y: position.y });
        v.push(Position { x: position.x, y: position.y.prev() });
        v.push(Position { x: position.x.prev(), y: position.y });
        v
    }
}

/// [`DiscreteCoordinate`] primitive for a square grid, where each cell has
/// eight neighbors
///
/// Neighboring tiles are a king's move away: either touching faces or
/// diagonally adjacent.
#[derive(Clone, Copy, Debug, PartialEq, Eq, Structural, Hash)]
pub struct AdjacentGrid(pub i64);

impl Coordinate for AdjacentGrid {
    open spec fn to_int(self) -> int {
        self.0 as int
    }

    open spec fn min_spec() -> int {
        -16777216
    }

    open spec fn max_spec() -> int {
        16777216
    }

    proof fn bounds_okay() {
    }

    fn zero() -> (r: Self) {
        AdjacentGrid(0)
    }

    fn min_value() -> (r: Self) {
        AdjacentGrid(-GRID_BOUND)
    }

    fn max_value() -> (r: Self) {
        AdjacentGrid(GRID_BOUND)
    }

    fn add(self, rhs: Self) -> (r: Self) {
        AdjacentGrid(grid_add(self.0, rhs.0))
    }

    fn sub(self, rhs: Self) -> (r: Self) {
        AdjacentGrid(grid_sub(self.0, rhs.0))
    }

    fn mul(self, rhs: Self) -> (r: Self) {
        AdjacentGrid(grid_mul(self.0, rhs.0))
    }

    fn div(self, rhs: Self) -> (r: Self) {
        AdjacentGrid(grid_div(self.0, rhs.0))
    }

    fn rem(self, rhs: Self) -> (r: Self) {
        AdjacentGrid(grid_rem(self.0, rhs.0))
    }

    fn scale_by_millis(self, millis: u64) -> (r: Self) {
        AdjacentGrid(grid_scale_millis(self.0, millis))
    }

    fn lt(self, rhs: Self) -> (b: bool) {
        self.0 < rhs.0
    }

    fn le(self, rhs: Self) -> (b: bool) {
        self.0 <= rhs.0
    }

    fn eq_value(self, rhs: Self) -> (b: bool) {
        self.0 == rhs.0
    }

    fn to_interchange(self) -> (v: i64) {
        self.0
    }

    fn from_interchange(v: i64) -> (r: Result<Self, OutOfBoundsConversion>) {
        match grid_from_interchange(v) {
            Ok(c) => Ok(AdjacentGrid(c)),
            Err(e) => Err(e),
        }
    }
}

impl TrivialCoordinate for AdjacentGrid {
    type Wrapped = i64;

    open spec fn wrapped(self) -> i64 {
        self.0
    }

    open spec fn make_spec(value: i64) -> i64 {
        clip(value as int, -16777216, 16777216) as i64
    }

    fn new(value: i64) -> (s: Self) {
        AdjacentGrid(clamp_grid(value))
    }

    fn value(&self) -> (v: i64) {
        self.0
    }
}

impl DiscreteCoordinate for AdjacentGrid {
    open spec fn neighbor_offsets() -> Seq<(int, int)> {
        seq![
            (0int, 1int),
            (1int, 1int),
            (1int, 0int),
            (1int, -1int),
            (0int, -1int),
            (-1int, -1int),
            (-1int, 0int),
            (-1int, 1int),
        ]
    }

    proof fn offsets_are_unit_steps() {
    }

    fn next(&self) -> (r: Self) {
        AdjacentGrid(grid_add(self.0, 1))
    }

    fn prev(&self) -> (r: Self) {
        AdjacentGrid(grid_sub(self.0, 1))
    }

    fn neighbors(position: Position<Self>) -> (v: Vec<Position<Self>>) {
        let mut v: Vec<Position<Self>> = Vec::new();
        v.push(Position { x: position.x, y: position.y.next() });
        v.push(Position { x: position.x.next(), y: position.y.next() });
        v.push(Position { x: position.x.next(), y: position.y });
        v.push(Position { x: position.x.next(), y: position.y.prev() });
        v.push(Position { x: position.x, y: position.y.prev() });
        v.push(Position { x: position.x.prev(), y: position.y.prev() });
        v.push(Position { x: position.x.prev(), y: position.y });
        v.push(Position { x: position.x.prev(), y: position.y.next() });
        v
    }
}

/// [`DiscreteCoordinate`] primitive for a hexagonal grid, where each cell
/// points sideways
///
/// These hexes tile vertically, but not horizontally.
#[derive(Clone, Copy, Debug, PartialEq, Eq, Structural, Hash)]
pub struct FlatHex(pub i64);

impl Coordinate for FlatHex {
    open spec fn to_int(self) -> int {
        self.0 as int
    }

    open spec fn min_spec() -> int {
        -16777216
    }

    open spec fn max_spec() -> int {
        16777216
    }

    proof fn bounds_okay() {
    }

    fn zero() -> (r: Self) {
        FlatHex(0)
    }

    fn min_value() -> (r: Self) {
        FlatHex(-GRID_BOUND)
    }

    fn max_value() -> (r: Self) {
        FlatHex(GRID_BOUND)
    }

    fn add(self, rhs: Self) -> (r: Self) {
        FlatHex(grid_add(self.0, rhs.0))
    }

    fn sub(self, rhs: Self) -> (r: Self) {
        FlatHex(grid_sub(self.0, rhs.0))
    }

    fn mul(self, rhs: Self) -> (r: Self) {
        FlatHex(grid_mul(self.0, rhs.0))
    }

    fn div(self, rhs: Self) -> (r: Self) {
        FlatHex(grid_div(self.0, rhs.0))
    }

    fn rem(self, rhs: Self) -> (r: Self) {
        FlatHex(grid_rem(self.0, rhs.0))
    }

    fn scale_by_millis(self, millis: u64) -> (r: Self) {
        FlatHex(grid_scale_millis(self.0, millis))
    }

    fn lt(self, rhs: Self) -> (b: bool) {
        self.0 < rhs.0
    }

    fn le(self, rhs: Self) -> (b: bool) {
        self.0 <= rhs.0
    }

    fn eq_value(self, rhs: Self) -> (b: bool) {
        self.0 == rhs.0
    }

    fn to_interchange(self) -> (v: i64) {
        self.0
    }

    fn from_interchange(v: i64) -> (r: Result<Self, OutOfBoundsConversion>) {
        match grid_from_interchange(v) {
            Ok(c) => Ok(FlatHex(c)),
            Err(e) => Err(e),
        }
    }
}

impl TrivialCoordinate for FlatHex {
    type Wrapped = i64;

    open spec fn wrapped(self) -> i64 {
        self.0
    }

    open spec fn make_spec(value: i64) -> i64 {
        clip(value as int, -16777216, 16777216) as i64
    }

    fn new(value: i64) -> (s: Self) {
        FlatHex(clamp_grid(value))
    }

    fn value(&self) -> (v: i64) {
        self.0
    }
}

impl DiscreteCoordinate for FlatHex {
    open spec fn neighbor_offsets() -> Seq<(int, int)> {
        seq![
            (0int, 1int),
            (1int, 1int),
            (1int, -1int),
            (0int, -1int),
            (-1int, -1int),
            (-1int, 1int),
        ]
    }

    proof fn offsets_are_unit_steps() {
    }

    fn next(&self) -> (r: Self) {
        FlatHex(grid_add(self.0, 1))
    }

    fn prev(&self) -> (r: Self) {
        FlatHex(grid_sub(self.0, 1))
    }

    fn neighbors(position: Position<Self>) -> (v: Vec<Position<Self>>) {
        let mut v: Vec<Position<Self>> = Vec::new();
        v.push(Position { x: position.x, y: position.y.next() });
        v.push(Position { x: position.x.next(), y: position.y.next() });
        v.push(Position { x: position.x.next(), y: position.y.prev() });
        v.push(Position { x: position.x, y: position.y.prev() });
        v.push(Position { x: position.x.prev(), y: position.y.prev() });
        v.push(Position { x: position.x.prev(), y: position.y.next() });
        v
    }
}

/// [`DiscreteCoordinate`] primitive for a hexagonal grid, where each cell
/// points up
///
/// These hexes tile horizontally, but not vertically.
#[derive(Clone, Copy, Debug, PartialEq, Eq, Structural, Hash)]
pub struct PointyHex(pub i64);

impl Coordinate for PointyHex {
    open spec fn to_int(self) -> int {
        self.0 as int
    }

    open spec fn min_spec() -> int {
        -16777216
    }

    open spec fn max_spec() -> int {
        16777216
    }

    proof fn bounds_okay() {
    }

    fn zero() -> (r: Self) {
        PointyHex(0)
    }

    fn min_value() -> (r: Self) {
        PointyHex(-GRID_BOUND)
    }

    fn max_value() -> (r: Self) {
        PointyHex(GRID_BOUND)
    }

    fn add(self, rhs: Self) -> (r: Self) {
        PointyHex(grid_add(self.0, rhs.0))
    }

    fn sub(self, rhs: Self) -> (r: Self) {
        PointyHex(grid_sub(self.0, rhs.0))
    }

    fn mul(self, rhs: Self) -> (r: Self) {
        PointyHex(grid_mul(self.0, rhs.0))
    }

    fn div(self, rhs: Self) -> (r: Self) {
        PointyHex(grid_div(self.0, rhs.0))
    }

    fn rem(self, rhs: Self) -> (r: Self) {
        PointyHex(grid_rem(self.0, rhs.0))
    }

    fn scale_by_millis(self, millis: u64) -> (r: Self) {
        PointyHex(grid_scale_millis(self.0, millis))
    }

    fn lt(self, rhs: Self) -> (b: bool) {
        self.0 < rhs.0
    }

    fn le(self, rhs: Self) -> (b: bool) {
        self.0 <= rhs.0
    }

    fn eq_value(self, rhs: Self) -> (b: bool) {
        self.0 == rhs.0
    }

    fn to_interchange(self) -> (v: i64) {
        self.0
    }

    fn from_interchange(v: i64) -> (r: Result<Self, OutOfBoundsConversion>) {
        match grid_from_interchange(v) {
            Ok(c) => Ok(PointyHex(c)),
            Err(e) => Err(e),
        }
    }
}

impl TrivialCoordinate for PointyHex {
    type Wrapped = i64;

    open spec fn wrapped(self) -> i64 {
        self.0
    }

    open spec fn make_spec(value: i64) -> i64 {
        clip(value as int, -16777216, 16777216) as i64
    }

    fn new(value: i64) -> (s: Self) {
        PointyHex(clamp_grid(value))
    }

    fn value(&self) -> (v: i64) {
        self.0
    }
}

impl DiscreteCoordinate for PointyHex {
    open spec fn neighbor_offsets() -> Seq<(int, int)> {
        seq![
            (1int, 1int),
            (1int, 0int),
            (1int, -1int),
            (-1int, -1int),
            (-1int, 0int),
            (-1int, 1int),
        ]
    }

    proof fn offsets_are_unit_steps() {
    }

    fn next(&self) -> (r: Self) {
        PointyHex(grid_add(self.0, 1))
    }

    fn prev(&self) -> (r: Self) {
        PointyHex(grid_sub(self.0, 1))
    }

    fn neighbors(position: Position<Self>) -> (v: Vec<Position<Self>>) {
        let mut v: Vec<Position<Self>> = Vec::new();
        v.push(Position { x: position.x.next(), y: position.y.next() });
        v.push(Position { x: position.x.next(), y: position.y });
        v.push(Position { x: position.x.next(), y: position.y.prev() });
        v.push(Position { x: position.x.prev(), y: position.y.prev() });
        v.push(Position { x: position.x.prev(), y: position.y });
        v.push(Position { x: position.x.prev(), y: position.y.next() });
        v
    }
}

} // verus!
