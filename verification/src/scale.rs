//! Tools to change the size of 2D objects

use vstd::prelude::*;

use crate::coordinate::{clip, in_range, trunc_div, Coordinate};

verus! {

/// The relative size of a 2D object
///
/// Use an axis-aligned bounding box for a measure of absolute size.
#[derive(Clone, Copy, Debug, PartialEq)]
pub struct Scale<C: Coordinate>(pub C);

impl<C: Coordinate> Scale<C> {
    /// Multiplies the scale factor by `rhs`, saturating at the representable range
    pub fn mul(self, rhs: C) -> (r: Scale<C>)
        requires
            in_range(self.0),
            in_range(rhs),
        ensures
            r.0.to_int() == clip(self.0.to_int() * rhs.to_int(), C::min_spec(), C::max_spec()),
            in_range(r.0),
    {
        Scale(self.0.mul(rhs))
    }

    /// Divides the scale factor by `rhs`, truncating towards zero
    pub fn div(self, rhs: C) -> (r: Scale<C>)
        requires
            in_range(self.0),
            in_range(rhs),
            rhs.to_int() != 0,
        ensures
            r.0.to_int() == clip(
                trunc_div(self.0.to_int(), rhs.to_int()),
                C::min_spec(),
                C::max_spec(),
            ),
            in_range(r.0),
    {
        Scale(self.0.div(rhs))
    }
}

} // verus!
