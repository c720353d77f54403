//! 2-dimensional coordinates

use vstd::prelude::*;

use crate::coordinate::{clip, in_range, trunc_div, trunc_rem, Coordinate};
use crate::orientation::{
    displacement_angle, rot_add, rot_dist, rot_sub, NearlySingularConversion, Orientation,
    Rotation,
};

verus! {

/// A 2-dimensional coordinate
///
/// The underlying data type `C` can be modified to control whether the
/// coordinate system is hexagonal vs. grid, and so on.
#[derive(Clone, Copy, Debug, PartialEq)]
pub struct Position<C: Coordinate> {
    /// The first coordinate of the position, typically the x-axis
    pub x: C,
    /// The second coordinate of the position, typically the y-axis
    pub y: C,
}

impl<C: Coordinate> Position<C> {
    /// Whether both coordinates lie within their representable range
    pub open spec fn wf(self) -> bool {
        in_range(self.x) && in_range(self.y)
    }

    /// Creates a new [`Position`] with the provided `x` and `y` coordinates
    pub fn new(x: C, y: C) -> (p: Position<C>)
        ensures
            p.x == x,
            p.y == y,
    {
        Position { x, y }
    }

    /// The (0, 0) position
    pub fn origin() -> (p: Position<C>)
        ensures
            p.x.to_int() == 0,
            p.y.to_int() == 0,
            p.wf(),
    {
        Position { x: C::zero(), y: C::zero() }
    }

    /// Componentwise saturating addition
    pub fn add(self, rhs: Position<C>) -> (p: Position<C>)
        requires
            self.wf(),
            rhs.wf(),
        ensures
            p.x.to_int() == clip(self.x.to_int() + rhs.x.to_int(), C::min_spec(), C::max_spec()),
            p.y.to_int() == clip(self.y.to_int() + rhs.y.to_int(), C::min_spec(), C::max_spec()),
            p.wf(),
    {
        Position { x: self.x.add(rhs.x), y: self.y.add(rhs.y) }
    }

    /// Componentwise saturating subtraction
    pub fn sub(self, rhs: Position<C>) -> (p: Position<C>)
        requires
            self.wf(),
            rhs.wf(),
        ensures
            p.x.to_int() == clip(self.x.to_int() - rhs.x.to_int(), C::min_spec(), C::max_spec()),
            p.y.to_int() == clip(self.y.to_int() - rhs.y.to_int(), C::min_spec(), C::max_spec()),
            p.wf(),
    {
        Position { x: self.x.sub(rhs.x), y: self.y.sub(rhs.y) }
    }

    /// Scales both coordinates by `rhs`, saturating at the representable range
    pub fn mul(self, rhs: C) -> (p: Position<C>)
        requires
            self.wf(),
            in_range(rhs),
        ensures
            p.x.to_int() == clip(self.x.to_int() * rhs.to_int(), C::min_spec(), C::max_spec()),
            p.y.to_int() == clip(self.y.to_int() * rhs.to_int(), C::min_spec(), C::max_spec()),
            p.wf(),
    {
        Position { x: self.x.mul(rhs), y: self.y.mul(rhs) }
    }

    /// Divides both coordinates by `rhs`, truncating towards zero
    pub fn div(self, rhs: C) -> (p: Position<C>)
        requires
            self.wf(),
            in_range(rhs),
            rhs.to_int() != 0,
        ensures
            p.x.to_int() == clip(trunc_div(self.x.to_int(), rhs.to_int()), C::min_spec(), C::max_spec()),
            p.y.to_int() == clip(trunc_div(self.y.to_int(), rhs.to_int()), C::min_spec(), C::max_spec()),
            p.wf(),
    {
        Position { x: self.x.div(rhs), y: self.y.div(rhs) }
    }

    /// The componentwise remainder of dividing by `rhs`, truncating towards zero
    pub fn rem(self, rhs: C) -> (p: Position<C>)
        requires
            self.wf(),
            in_range(rhs),
            rhs.to_int() != 0,
        ensures
            p.x.to_int() == clip(trunc_rem(self.x.to_int(), rhs.to_int()), C::min_spec(), C::max_spec()),
            p.y.to_int() == clip(trunc_rem(self.y.to_int(), rhs.to_int()), C::min_spec(), C::max_spec()),
            p.wf(),
    {
        Position { x: self.x.rem(rhs), y: self.y.rem(rhs) }
    }

    /// The componentwise remainder of dividing by another position,
    /// truncating towards zero
    pub fn rem_position(self, rhs: Position<C>) -> (p: Position<C>)
        requires
            self.wf(),
            rhs.wf(),
            rhs.x.to_int() != 0,
            rhs.y.to_int() != 0,
        ensures
            p.x.to_int() == clip(trunc_rem(self.x.to_int(), rhs.x.to_int()), C::min_spec(), C::max_spec()),
            p.y.to_int() == clip(trunc_rem(self.y.to_int(), rhs.y.to_int()), C::min_spec(), C::max_spec()),
            p.wf(),
    {
        Position { x: self.x.rem(rhs.x), y: self.y.rem(rhs.y) }
    }

    /// Whether `self` and `rhs` hold the same pair of coordinate values
    pub fn eq_value(self, rhs: Position<C>) -> (b: bool)
        ensures
            b == (self.x.to_int() == rhs.x.to_int() && self.y.to_int() == rhs.y.to_int()),
    {
        self.x.eq_value(rhs.x) && self.y.eq_value(rhs.y)
    }

    /// Gets the [`Orientation`] that points away from this position towards
    /// `other_position`
    ///
    /// If the two positions coincide, the displacement between them is the
    /// zero vector, which has no defined orientation, and an error is
    /// returned instead.
    pub fn orientation_to<O: Orientation>(&self, other_position: Position<C>) -> (r: Result<
        O,
        NearlySingularConversion,
    >)
        requires
            self.wf(),
            other_position.wf(),
        ensures
            r is Err <==> ((*self).x.to_int() == other_position.x.to_int() && (*self).y.to_int()
                == other_position.y.to_int()),
            r matches Ok(o) ==> o.wf() && o.angle() == displacement_angle(
                other_position.x.to_int() - (*self).x.to_int(),
                other_position.y.to_int() - (*self).y.to_int(),
            ),
    {
        orientation_between_positions(*self, other_position)
    }

    /// Gets the [`Orientation`] that points towards this position from
    /// `other_position`
    ///
    /// Fails with the same near-singular error as
    /// [`orientation_to`](Self::orientation_to) when the positions coincide.
    pub fn orientation_from<O: Orientation>(&self, other_position: Position<C>) -> (r: Result<
        O,
        NearlySingularConversion,
    >)
        requires
            self.wf(),
            other_position.wf(),
        ensures
            r is Err <==> ((*self).x.to_int() == other_position.x.to_int() && (*self).y.to_int()
                == other_position.y.to_int()),
            r matches Ok(o) ==> o.wf() && o.angle() == displacement_angle(
                (*self).x.to_int() - other_position.x.to_int(),
                (*self).y.to_int() - other_position.y.to_int(),
            ),
    {
        orientation_between_positions(other_position, *self)
    }
}

/// Computes the orientation from `position_a` to `position_b`
///
/// If the two positions coincide there is no defined orientation between
/// them, and a near-singular error is returned instead.
pub fn orientation_between_positions<C: Coordinate, O: Orientation>(
    position_a: Position<C>,
    position_b: Position<C>,
) -> (r: Result<O, NearlySingularConversion>)
    requires
        position_a.wf(),
        position_b.wf(),
    ensures
        r is Err <==> (position_a.x.to_int() == position_b.x.to_int() && position_a.y.to_int()
            == position_b.y.to_int()),
        r matches Ok(o) ==> o.wf() && o.angle() == displacement_angle(
            position_b.x.to_int() - position_a.x.to_int(),
            position_b.y.to_int() - position_a.y.to_int(),
        ),
{
    proof {
        C::bounds_okay();
    }
    let bx: i64 = position_b.x.to_interchange();
    let ax: i64 = position_a.x.to_interchange();
    let by: i64 = position_b.y.to_interchange();
    let ay: i64 = position_a.y.to_interchange();
    assert(-16777216 <= bx <= 16777216 && -16777216 <= ax <= 16777216);
    assert(-16777216 <= by <= 16777216 && -16777216 <= ay <= 16777216);
    let dx: i64 = bx - ax;
    let dy: i64 = by - ay;
    match Rotation::from_xy(dx, dy) {
        Ok(rotation) => Ok(O::of_rotation(rotation)),
        Err(e) => Err(e),
    }
}

/// Rotates `orientation` towards `target_position` by up to `max_rotation`
///
/// When the two positions coincide, no orientation towards the target is
/// defined and `orientation` is left unchanged.
pub fn rotate_towards_position<C: Coordinate, O: Orientation>(
    orientation: &mut O,
    current_position: Position<C>,
    target_position: Position<C>,
    max_rotation: Option<Rotation>,
)
    requires
        old(orientation).wf(),
        current_position.wf(),
        target_position.wf(),
    ensures
        final(orientation).wf(),
        ({
            let coincide = current_position.x.to_int() == target_position.x.to_int()
                && current_position.y.to_int() == target_position.y.to_int();
            let t = displacement_angle(
                target_position.x.to_int() - current_position.x.to_int(),
                target_position.y.to_int() - current_position.y.to_int(),
            );
            let a = old(orientation).angle();
            if coincide {
                *final(orientation) == *old(orientation)
            } else {
                (match max_rotation {
                    None => final(orientation).angle() == t,
                    Some(m) => if rot_dist(a, t) <= m@ {
                        final(orientation).angle() == t
                    } else {
                        final(orientation).angle() == (if rot_sub(t, a) <= 1800 {
                            rot_add(a, m@)
                        } else {
                            rot_sub(a, m@)
                        }) && rot_dist(final(orientation).angle(), t) == rot_dist(a, t) - m@
                    },
                }) && rot_dist(final(orientation).angle(), t) <= rot_dist(a, t)
            }
        }),
{
    let target: Result<O, NearlySingularConversion> = orientation_between_positions(
        current_position,
        target_position,
    );
    if let Ok(target_orientation) = target {
        orientation.rotate_towards(target_orientation, max_rotation);
    }
}

} // verus!
