//! Traits for the scalar units that positions and distances are measured in

use vstd::prelude::*;

verus! {

/// Clamps `x` into the inclusive range `[lo, hi]`
pub open spec fn clip(x: int, lo: int, hi: int) -> int {
    if x < lo {
        lo
    } else if x > hi {
        hi
    } else {
        x
    }
}

/// Division truncated towards zero, as Rust's `/` computes it for signed integers
pub open spec fn trunc_div(a: int, b: int) -> int {
    let q = (if a >= 0 {
        a
    } else {
        -a
    }) / (if b >= 0 {
        b
    } else {
        -b
    });
    if (a >= 0) == (b >= 0) {
        q
    } else {
        -q
    }
}

/// Remainder of division truncated towards zero, as Rust's `%` computes it
/// for signed integers: the result has the sign of the dividend
pub open spec fn trunc_rem(a: int, b: int) -> int {
    a - b * trunc_div(a, b)
}

/// An interchange value fell outside the representable range of a coordinate type
#[derive(Clone, Copy, Debug, PartialEq, Eq, Structural)]
pub struct OutOfBoundsConversion;

/// Whether a coordinate value lies within its type's representable range
pub open spec fn in_range<C: Coordinate>(c: C) -> bool {
    C::min_spec() <= c.to_int() <= C::max_spec()
}

/// A type that can be used as a coordinate for positions
///
/// A coordinate is a bounded scalar: it carries a mathematical value, a
/// representable range `[min_spec(), max_spec()]` that straddles zero, and a
/// lossless conversion to and from a shared integer interchange value, which
/// the host-engine adapter maps onto the transform's translation units.
/// Arithmetic saturates at the ends of the representable range, so every
/// operation is total on well-formed values and never panics.
pub trait Coordinate: Sized + Copy {
    /// The mathematical value of this coordinate
    spec fn to_int(self) -> int;

    /// The least representable value
    spec fn min_spec() -> int;

    /// The greatest representable value
    spec fn max_spec() -> int;

    /// The representable range straddles zero, so the range is never empty
    /// and the origin is always representable; it also stays within the span
    /// of integers that the host's single-precision interchange format can
    /// represent exactly, so no representable value is lost in transit
    proof fn bounds_okay()
        ensures
            Self::min_spec() < 0 < Self::max_spec(),
            -16777216 <= Self::min_spec(),
            Self::max_spec() <= 16777216,
    ;

    /// The zero coordinate: adding or subtracting it changes nothing
    fn zero() -> (r: Self)
        ensures
            r.to_int() == 0,
            Self::min_spec() <= r.to_int() <= Self::max_spec(),
    ;

    /// The least representable coordinate
    fn min_value() -> (r: Self)
        ensures
            r.to_int() == Self::min_spec(),
            Self::min_spec() <= r.to_int() <= Self::max_spec(),
    ;

    /// The greatest representable coordinate
    fn max_value() -> (r: Self)
        ensures
            r.to_int() == Self::max_spec(),
            Self::min_spec() <= r.to_int() <= Self::max_spec(),
    ;

    /// Saturating addition
    fn add(self, rhs: Self) -> (r: Self)
        requires
            Self::min_spec() <= self.to_int() <= Self::max_spec(),
            Self::min_spec() <= rhs.to_int() <= Self::max_spec(),
        ensures
            r.to_int() == clip(self.to_int() + rhs.to_int(), Self::min_spec(), Self::max_spec()),
            Self::min_spec() <= r.to_int() <= Self::max_spec(),
    ;

    /// Saturating subtraction
    fn sub(self, rhs: Self) -> (r: Self)
        requires
            Self::min_spec() <= self.to_int() <= Self::max_spec(),
            Self::min_spec() <= rhs.to_int() <= Self::max_spec(),
        ensures
            r.to_int() == clip(self.to_int() - rhs.to_int(), Self::min_spec(), Self::max_spec()),
            Self::min_spec() <= r.to_int() <= Self::max_spec(),
    ;

    /// Saturating multiplication
    fn mul(self, rhs: Self) -> (r: Self)
        requires
            Self::min_spec() <= self.to_int() <= Self::max_spec(),
            Self::min_spec() <= rhs.to_int() <= Self::max_spec(),
        ensures
            r.to_int() == clip(self.to_int() * rhs.to_int(), Self::min_spec(), Self::max_spec()),
            Self::min_spec() <= r.to_int() <= Self::max_spec(),
    ;

    /// Division, truncated towards zero; the divisor must not be zero
    fn div(self, rhs: Self) -> (r: Self)
        requires
            Self::min_spec() <= self.to_int() <= Self::max_spec(),
            Self::min_spec() <= rhs.to_int() <= Self::max_spec(),
            rhs.to_int() != 0,
        ensures
            r.to_int() == clip(
                trunc_div(self.to_int(), rhs.to_int()),
                Self::min_spec(),
                Self::max_spec(),
            ),
            Self::min_spec() <= r.to_int() <= Self::max_spec(),
    ;

    /// Remainder of truncated division; the divisor must not be zero
    fn rem(self, rhs: Self) -> (r: Self)
        requires
            Self::min_spec() <= self.to_int() <= Self::max_spec(),
            Self::min_spec() <= rhs.to_int() <= Self::max_spec(),
            rhs.to_int() != 0,
        ensures
            r.to_int() == clip(
                trunc_rem(self.to_int(), rhs.to_int()),
                Self::min_spec(),
                Self::max_spec(),
            ),
            Self::min_spec() <= r.to_int() <= Self::max_spec(),
    ;

    /// Scales this coordinate, understood as a per-second rate, down to the
    /// share accrued over `millis` milliseconds, truncating towards zero
    fn scale_by_millis(self, millis: u64) -> (r: Self)
        requires
            Self::min_spec() <= self.to_int() <= Self::max_spec(),
            millis <= 1000000,
        ensures
            r.to_int() == clip(
                trunc_div(self.to_int() * millis, 1000),
                Self::min_spec(),
                Self::max_spec(),
            ),
            Self::min_spec() <= r.to_int() <= Self::max_spec(),
    ;

    /// Whether `self` is strictly less than `rhs`
    fn lt(self, rhs: Self) -> (b: bool)
        ensures
            b == (self.to_int() < rhs.to_int()),
    ;

    /// Whether `self` is less than or equal to `rhs`
    fn le(self, rhs: Self) -> (b: bool)
        ensures
            b == (self.to_int() <= rhs.to_int()),
    ;

    /// Whether `self` and `rhs` hold the same value
    fn eq_value(self, rhs: Self) -> (b: bool)
        ensures
            b == (self.to_int() == rhs.to_int()),
    ;

    /// The shared integer interchange value of this coordinate
    ///
    /// The host-engine adapter turns this exact integer into the transform's
    /// translation units; it is chosen so that every representable coordinate
    /// survives the trip through the host's single-precision format.
    fn to_interchange(self) -> (v: i64)
        requires
            Self::min_spec() <= self.to_int() <= Self::max_spec(),
        ensures
            v as int == self.to_int(),
    ;

    /// Reads a coordinate back from an interchange value
    ///
    /// Returns an error exactly when the value falls outside the
    /// representable range; the caller then keeps its previous coordinate.
    fn from_interchange(v: i64) -> (r: Result<Self, OutOfBoundsConversion>)
        ensures
            r is Ok <==> Self::min_spec() <= v as int <= Self::max_spec(),
            r matches Ok(c) ==> c.to_int() == v as int,
    ;

    /// Computes the signed round-trip error of converting this coordinate to
    /// the interchange format and back again
    ///
    /// The difference is computed as `final - initial`; it is always exactly
    /// zero across the whole representable range, which is the conversion
    /// contract every coordinate type must honor.
    fn round_trip_coordinate_error(self) -> (e: Self)
        requires
            Self::min_spec() <= self.to_int() <= Self::max_spec(),
        ensures
            e.to_int() == 0,
    {
        proof {
            Self::bounds_okay();
        }
        let v: i64 = self.to_interchange();
        match Self::from_interchange(v) {
            Ok(back) => back.sub(self),
            Err(_) => Self::zero(),
        }
    }
}

/// A helper trait for [`Coordinate`] types that simply wrap a single
/// number-like value
///
/// Wrapper types only have to supply the wrapped value; the rest of the
/// coordinate surface is written against it.
pub trait TrivialCoordinate: Sized {
    /// The underlying number-like type that is wrapped
    type Wrapped: Copy;

    /// The value stored by this wrapper
    spec fn wrapped(self) -> Self::Wrapped;

    /// The value that constructing from `value` actually stores; wrappers
    /// with a restricted range may clamp it
    spec fn make_spec(value: Self::Wrapped) -> Self::Wrapped;

    /// Creates a new coordinate storing `value`
    fn new(value: Self::Wrapped) -> (s: Self)
        ensures
            s.wrapped() == Self::make_spec(value),
    ;

    /// The underlying value stored
    fn value(&self) -> (v: Self::Wrapped)
        ensures
            v == self.wrapped(),
    ;

    /// Sets this coordinate to `value`
    fn set(&mut self, value: Self::Wrapped)
        ensures
            final(self).wrapped() == Self::make_spec(value),
    {
        *self = Self::new(value);
    }
}

} // verus!
