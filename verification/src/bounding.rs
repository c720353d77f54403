//! Structs that bound regions that contain positions

use vstd::prelude::*;

use crate::coordinate::{clip, in_range, trunc_div, Coordinate};
use crate::position::Position;

verus! {

/// How do two bounding regions intersect?
#[derive(Clone, Copy, Debug, PartialEq, Eq, Structural)]
pub enum Intersects {
    /// The regions overlap, including if one region is contained within the other
    Yes,
    /// The two regions do not overlap at all
    No,
}

/// A 2D region that could contain a [`Position`]
pub trait BoundingRegion<C: Coordinate>: Sized + Copy {
    /// Whether the mathematical point `(x, y)` lies inside this region
    spec fn contains_spec(self, x: int, y: int) -> bool;

    /// Whether this region is well formed: its extents are ordered and representable
    spec fn region_wf(self) -> bool;

    /// The corner points of this region, in the order `vertexes` lists them
    spec fn vertexes_spec(self) -> Seq<(int, int)>;

    /// The point this region clamps `(x, y)` to
    spec fn clamped_spec(self, x: int, y: int) -> (int, int);

    /// Gets the list of vertexes that make up this bounding region
    fn vertexes(&self) -> (v: Vec<Position<C>>)
        requires
            self.region_wf(),
        ensures
            v@.len() == self.vertexes_spec().len(),
            forall|i: int|
                0 <= i < v@.len() ==> ((#[trigger] v@[i]).x.to_int(), v@[i].y.to_int())
                    == self.vertexes_spec()[i],
            forall|i: int|
                0 <= i < v@.len() ==> self.contains_spec(
                    (#[trigger] v@[i]).x.to_int(),
                    v@[i].y.to_int(),
                ),
    ;

    /// Tightly draws a new region around the provided positions
    ///
    /// Every input position is contained in the result, and the result is
    /// minimal: any well-formed region of the same type that contains all the
    /// inputs also contains everything the result contains.  With no input
    /// positions, the region collapses onto the origin.
    fn draw_around(positions: &Vec<Position<C>>) -> (region: Self)
        requires
            forall|i: int| 0 <= i < positions@.len() ==> (#[trigger] positions@[i]).wf(),
        ensures
            region.region_wf(),
            forall|i: int|
                0 <= i < positions@.len() ==> region.contains_spec(
                    (#[trigger] positions@[i]).x.to_int(),
                    positions@[i].y.to_int(),
                ),
            positions@.len() > 0 ==> (forall|other: Self|
                ((#[trigger] other.region_wf()) && (forall|i: int|
                    0 <= i < positions@.len() ==> other.contains_spec(
                        (#[trigger] positions@[i]).x.to_int(),
                        positions@[i].y.to_int(),
                    ))) ==> (forall|x: int, y: int|
                    #[trigger] region.contains_spec(x, y) ==> other.contains_spec(x, y))),
    ;

    /// Does this region contain the `position`?
    fn contains(&self, position: Position<C>) -> (b: bool)
        requires
            self.region_wf(),
            position.wf(),
        ensures
            b == self.contains_spec(position.x.to_int(), position.y.to_int()),
    ;

    /// Does this region intersect with the `other` region of the same type?
    fn intersects(&self, other: Self) -> (r: Intersects)
        requires
            self.region_wf(),
            other.region_wf(),
        ensures
            (r == Intersects::Yes) == (exists|x: int, y: int|
                self.contains_spec(x, y) && other.contains_spec(x, y)),
    ;

    /// Clamps the provided position to the limits of this region, taking the
    /// shortest path
    fn clamp(&self, position: Position<C>) -> (p: Position<C>)
        requires
            self.region_wf(),
            position.wf(),
        ensures
            p.wf(),
            (p.x.to_int(), p.y.to_int()) == self.clamped_spec(
                position.x.to_int(),
                position.y.to_int(),
            ),
            self.contains_spec(p.x.to_int(), p.y.to_int()),
            self.contains_spec(position.x.to_int(), position.y.to_int()) ==> (p.x.to_int()
                == position.x.to_int() && p.y.to_int() == position.y.to_int()),
    ;
}

/// Half of a coordinate value, truncated towards zero
///
/// Halving can never leave the representable range, so the result is exact.
fn halve<C: Coordinate>(value: C) -> (h: C)
    requires
        C::min_spec() <= value.to_int() <= C::max_spec(),
    ensures
        h.to_int() == trunc_div(value.to_int(), 2),
        C::min_spec() <= h.to_int() <= C::max_spec(),
{
    proof {
        C::bounds_okay();
    }
    let v: i64 = value.to_interchange();
    let magnitude: u64 = if v >= 0 {
        v as u64
    } else {
        (-v) as u64
    };
    let quotient: u64 = magnitude / 2;
    proof {
        vstd::arithmetic::div_mod::lemma_div_nonincreasing(magnitude as int, 2);
        vstd::arithmetic::div_mod::lemma_div_pos_is_pos(magnitude as int, 2);
    }
    let signed: i64 = if v >= 0 {
        quotient as i64
    } else {
        -(quotient as i64)
    };
    match C::from_interchange(signed) {
        Ok(h) => h,
        Err(_) => {
            proof {
                assert(false);
            }
            C::zero()
        },
    }
}

/// A 2-dimensional axis-aligned bounding box with coordinate type `C`
///
/// Its invariant is that `left <= right` and `bottom <= top`; boxes built by
/// [`BoundingRegion::draw_around`] always satisfy it.
#[derive(Clone, Copy, Debug, PartialEq)]
pub struct AxisAlignedBoundingBox<C: Coordinate> {
    /// The left extent of the bounding box
    pub left: C,
    /// The right extent of the bounding box
    pub right: C,
    /// The bottom extent of the bounding box
    pub bottom: C,
    /// The top extent of the bounding box
    pub top: C,
}

impl<C: Coordinate> AxisAlignedBoundingBox<C> {
    /// Creates a new AABB from the coordinate values of its sides
    pub fn new(left: C, right: C, bottom: C, top: C) -> (aabb: Self)
        ensures
            aabb.left == left,
            aabb.right == right,
            aabb.bottom == bottom,
            aabb.top == top,
    {
        Self { left, right, bottom, top }
    }

    /// Creates a new AABB from a central position plus a `width` and `height`
    ///
    /// The sides sit half the width to the left and right of the center, and
    /// half the height below and above it, saturating at the representable
    /// range.
    pub fn from_size(position: Position<C>, width: C, height: C) -> (aabb: Self)
        requires
            position.wf(),
            C::min_spec() <= width.to_int() <= C::max_spec(),
            C::min_spec() <= height.to_int() <= C::max_spec(),
        ensures
            aabb.left.to_int() == clip(
                position.x.to_int() - trunc_div(width.to_int(), 2),
                C::min_spec(),
                C::max_spec(),
            ),
            aabb.right.to_int() == clip(
                position.x.to_int() + trunc_div(width.to_int(), 2),
                C::min_spec(),
                C::max_spec(),
            ),
            aabb.bottom.to_int() == clip(
                position.y.to_int() - trunc_div(height.to_int(), 2),
                C::min_spec(),
                C::max_spec(),
            ),
            aabb.top.to_int() == clip(
                position.y.to_int() + trunc_div(height.to_int(), 2),
                C::min_spec(),
                C::max_spec(),
            ),
    {
        let half_width: C = halve(width);
        let half_height: C = halve(height);
        Self {
            left: position.x.sub(half_width),
            right: position.x.add(half_width),
            bottom: position.y.sub(half_height),
            top: position.y.add(half_height),
        }
    }

    /// Gets the bottom left [`Position`] of this bounding box
    pub fn bottom_left(&self) -> (p: Position<C>)
        ensures
            p.x == self.left,
            p.y == self.bottom,
    {
        Position { x: self.left, y: self.bottom }
    }

    /// Gets the bottom right [`Position`] of this bounding box
    pub fn bottom_right(&self) -> (p: Position<C>)
        ensures
            p.x == self.right,
            p.y == self.bottom,
    {
        Position { x: self.right, y: self.bottom }
    }

    /// Gets the top left [`Position`] of this bounding box
    pub fn top_left(&self) -> (p: Position<C>)
        ensures
            p.x == self.left,
            p.y == self.top,
    {
        Position { x: self.left, y: self.top }
    }

    /// Gets the top right [`Position`] of this bounding box
    pub fn top_right(&self) -> (p: Position<C>)
        ensures
            p.x == self.right,
            p.y == self.top,
    {
        Position { x: self.right, y: self.top }
    }
}

impl<C: Coordinate> BoundingRegion<C> for AxisAlignedBoundingBox<C> {
    open spec fn contains_spec(self, x: int, y: int) -> bool {
        self.left.to_int() <= x <= self.right.to_int() && self.bottom.to_int() <= y
            <= self.top.to_int()
    }

    open spec fn region_wf(self) -> bool {
        self.left.to_int() <= self.right.to_int() && self.bottom.to_int() <= self.top.to_int()
            && in_range(self.left) && in_range(self.right) && in_range(self.bottom) && in_range(
            self.top,
        )
    }

    open spec fn vertexes_spec(self) -> Seq<(int, int)> {
        seq![
            (self.right.to_int(), self.top.to_int()),
            (self.right.to_int(), self.bottom.to_int()),
            (self.left.to_int(), self.bottom.to_int()),
            (self.left.to_int(), self.top.to_int()),
        ]
    }

    open spec fn clamped_spec(self, x: int, y: int) -> (int, int) {
        (
            clip(x, self.left.to_int(), self.right.to_int()),
            clip(y, self.bottom.to_int(), self.top.to_int()),
        )
    }

    fn vertexes(&self) -> (v: Vec<Position<C>>) {
        let mut v: Vec<Position<C>> = Vec::new();
        v.push(self.top_right());
        v.push(self.bottom_right());
        v.push(self.bottom_left());
        v.push(self.top_left());
        v
    }

    fn draw_around(positions: &Vec<Position<C>>) -> (region: Self) {
        if positions.len() == 0 {
            let zero: C = C::zero();
            return Self { left: zero, right: zero, bottom: zero, top: zero };
        }
        let seed: Position<C> = positions[0];
        let mut left: C = seed.x;
        let mut right: C = seed.x;
        let mut bottom: C = seed.y;
        let mut top: C = seed.y;
        let ghost mut wl: int = 0;
        let ghost mut wr: int = 0;
        let ghost mut wb: int = 0;
        let ghost mut wt: int = 0;
        let mut i: usize = 1;
        while i < positions.len()
            invariant
                1 <= i <= positions@.len(),
                forall|j: int| 0 <= j < positions@.len() ==> (#[trigger] positions@[j]).wf(),
                in_range(left) && in_range(right) && in_range(bottom) && in_range(top),
                left.to_int() <= right.to_int(),
                bottom.to_int() <= top.to_int(),
                forall|j: int|
                    0 <= j < i ==> left.to_int() <= (#[trigger] positions@[j]).x.to_int()
                        <= right.to_int() && bottom.to_int() <= positions@[j].y.to_int()
                        <= top.to_int(),
                0 <= wl < i && positions@[wl].x.to_int() == left.to_int(),
                0 <= wr < i && positions@[wr].x.to_int() == right.to_int(),
                0 <= wb < i && positions@[wb].y.to_int() == bottom.to_int(),
                0 <= wt < i && positions@[wt].y.to_int() == top.to_int(),
            decreases positions@.len() - i,
        {
            let p: Position<C> = positions[i];
            if p.x.lt(left) {
                left = p.x;
                proof {
                    wl = i as int;
                }
            }
            if right.lt(p.x) {
                right = p.x;
                proof {
                    wr = i as int;
                }
            }
            if p.y.lt(bottom) {
                bottom = p.y;
                proof {
                    wb = i as int;
                }
            }
            if top.lt(p.y) {
                top = p.y;
                proof {
                    wt = i as int;
                }
            }
            i += 1;
        }
        let region = Self { left, right, bottom, top };
        proof {
            // Any well-formed box containing every input reaches at least as
            // far as the witnesses that pinned each extent, and so contains
            // everything this box contains
            assert forall|other: Self|
                ((#[trigger] other.region_wf()) && (forall|j: int|
                    0 <= j < positions@.len() ==> other.contains_spec(
                        (#[trigger] positions@[j]).x.to_int(),
                        positions@[j].y.to_int(),
                    ))) implies (forall|x: int, y: int|
                #[trigger] region.contains_spec(x, y) ==> other.contains_spec(x, y)) by {
                assert(other.contains_spec(positions@[wl].x.to_int(), positions@[wl].y.to_int()));
                assert(other.contains_spec(positions@[wr].x.to_int(), positions@[wr].y.to_int()));
                assert(other.contains_spec(positions@[wb].x.to_int(), positions@[wb].y.to_int()));
                assert(other.contains_spec(positions@[wt].x.to_int(), positions@[wt].y.to_int()));
            }
        }
        region
    }

    fn contains(&self, position: Position<C>) -> (b: bool) {
        self.left.le(position.x) && self.bottom.le(position.y) && position.x.le(self.right)
            && position.y.le(self.top)
    }

    fn intersects(&self, other: Self) -> (r: Intersects) {
        let disjoint: bool = other.right.lt(self.left) || self.right.lt(other.left)
            || other.top.lt(self.bottom) || self.top.lt(other.bottom);
        if disjoint {
            proof {
                assert forall|x: int, y: int| !(self.contains_spec(x, y) && other.contains_spec(
                    x,
                    y,
                )) by {}
            }
            Intersects::No
        } else {
            proof {
                let x = if self.left.to_int() >= other.left.to_int() {
                    self.left.to_int()
                } else {
                    other.left.to_int()
                };
                let y = if self.bottom.to_int() >= other.bottom.to_int() {
                    self.bottom.to_int()
                } else {
                    other.bottom.to_int()
                };
                assert(self.contains_spec(x, y) && other.contains_spec(x, y));
            }
            Intersects::Yes
        }
    }

    fn clamp(&self, position: Position<C>) -> (p: Position<C>) {
        let mut new_x: C = position.x;
        let mut new_y: C = position.y;
        if position.x.lt(self.left) {
            new_x = self.left;
        } else if self.right.lt(position.x) {
            new_x = self.right;
        }
        if position.y.lt(self.bottom) {
            new_y = self.bottom;
        } else if self.top.lt(position.y) {
            new_y = self.top;
        }
        Position { x: new_x, y: new_y }
    }
}

} // verus!
