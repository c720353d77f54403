//! Tools for working with velocities and accelerations, and their
//! [`Rotation`]-based equivalents

use vstd::prelude::*;

use crate::coordinate::{clip, in_range, trunc_div, Coordinate};
use crate::orientation::{displacement_angle, Direction, Rotation, RotationDirection};
use crate::position::Position;
use vstd::arithmetic::div_mod::{
    lemma_add_mod_noop_right, lemma_mod_bound, lemma_sub_mod_noop_right,
};

verus! {

/// The amount a per-second rate accrues over `delta_millis` milliseconds,
/// saturating at `C`'s representable range
pub open spec fn per_tick<C: Coordinate>(rate: int, delta_millis: int) -> int {
    clip(trunc_div(rate * delta_millis, 1000), C::min_spec(), C::max_spec())
}

/// A value advanced by a delta, saturating at `C`'s representable range
pub open spec fn advanced<C: Coordinate>(value: int, delta: int) -> int {
    clip(value + delta, C::min_spec(), C::max_spec())
}

/// The rate of change of a [`Position<C>`]
///
/// When used with [`linear_kinematics`], the units are `C` per second.
#[derive(Clone, Copy, Debug, PartialEq)]
pub struct Velocity<C: Coordinate> {
    /// Velocity along the x-axis of a [`Position<C>`]
    pub x: C,
    /// Velocity along the y-axis of a [`Position<C>`]
    pub y: C,
}

/// The rate of change of a [`Velocity<C>`]
///
/// When used with [`linear_kinematics`], the units are `C` per second per second.
#[derive(Clone, Copy, Debug, PartialEq)]
pub struct Acceleration<C: Coordinate> {
    /// Acceleration along the x-axis of a [`Position<C>`]
    pub x: C,
    /// Acceleration along the y-axis of a [`Position<C>`]
    pub y: C,
}

impl<C: Coordinate> Velocity<C> {
    /// Whether both components lie within their representable range
    pub open spec fn wf(self) -> bool {
        in_range(self.x) && in_range(self.y)
    }

    /// The squared strength (or length) of this vector, saturating at `C`'s
    /// representable range
    pub fn magnitude_squared(&self) -> (m: C)
        requires
            self.wf(),
        ensures
            m.to_int() == advanced::<C>(
                clip(self.x.to_int() * self.x.to_int(), C::min_spec(), C::max_spec()),
                clip(self.y.to_int() * self.y.to_int(), C::min_spec(), C::max_spec()),
            ),
    {
        self.x.mul(self.x).add(self.y.mul(self.y))
    }

    /// The direction of this vector
    ///
    /// Returns `None` if the vector is zero and so has no direction.
    pub fn direction(&self) -> (d: Option<Direction>)
        requires
            self.wf(),
        ensures
            d is None <==> (self.x.to_int() == 0 && self.y.to_int() == 0),
            d matches Some(dir) ==> dir@ == displacement_angle(self.x.to_int(), self.y.to_int()),
    {
        proof {
            C::bounds_okay();
        }
        match Direction::from_xy(self.x.to_interchange(), self.y.to_interchange()) {
            Ok(dir) => Some(dir),
            Err(_) => None,
        }
    }
}

impl<C: Coordinate> Acceleration<C> {
    /// Whether both components lie within their representable range
    pub open spec fn wf(self) -> bool {
        in_range(self.x) && in_range(self.y)
    }

    /// The squared strength (or length) of this vector, saturating at `C`'s
    /// representable range
    pub fn magnitude_squared(&self) -> (m: C)
        requires
            self.wf(),
        ensures
            m.to_int() == advanced::<C>(
                clip(self.x.to_int() * self.x.to_int(), C::min_spec(), C::max_spec()),
                clip(self.y.to_int() * self.y.to_int(), C::min_spec(), C::max_spec()),
            ),
    {
        self.x.mul(self.x).add(self.y.mul(self.y))
    }

    /// The direction of this vector
    ///
    /// Returns `None` if the vector is zero and so has no direction.
    pub fn direction(&self) -> (d: Option<Direction>)
        requires
            self.wf(),
        ensures
            d is None <==> (self.x.to_int() == 0 && self.y.to_int() == 0),
            d matches Some(dir) ==> dir@ == displacement_angle(self.x.to_int(), self.y.to_int()),
    {
        proof {
            C::bounds_okay();
        }
        match Direction::from_xy(self.x.to_interchange(), self.y.to_interchange()) {
            Ok(dir) => Some(dir),
            Err(_) => None,
        }
    }
}

/// The rate of change of a [`Rotation`]
///
/// When used with [`angular_kinematics`], the units are tenths of a degree
/// per second.  Positive is clockwise, negative is counter-clockwise.
#[derive(Clone, Copy, Debug, PartialEq, Eq, Structural, Hash)]
pub struct AngularVelocity {
    /// Tenths of a degree per second, positive clockwise
    pub deci_degrees: i64,
}

/// The rate of change of an [`AngularVelocity`]
///
/// When used with [`angular_kinematics`], the units are tenths of a degree
/// per second per second.  Positive is clockwise, negative is counter-clockwise.
#[derive(Clone, Copy, Debug, PartialEq, Eq, Structural, Hash)]
pub struct AngularAcceleration {
    /// Tenths of a degree per second per second, positive clockwise
    pub deci_degrees: i64,
}

impl Default for AngularVelocity {
    /// At rest: no rotation per second
    fn default() -> (v: AngularVelocity)
        ensures
            v.deci_degrees == 0,
    {
        AngularVelocity { deci_degrees: 0 }
    }
}

impl Default for AngularAcceleration {
    /// Steady: no change of angular velocity per second
    fn default() -> (a: AngularAcceleration)
        ensures
            a.deci_degrees == 0,
    {
        AngularAcceleration { deci_degrees: 0 }
    }
}

/// A signed angular quantity, defined by a magnitude and a turning direction
pub trait Kinematic: Sized {
    /// The signed measure of this quantity, in tenths of a degree per unit of time
    spec fn measure(self) -> int;

    /// Creates a new quantity, defined by its `magnitude` and `direction`
    fn new(magnitude: i64, direction: RotationDirection) -> (s: Self)
        requires
            0 <= magnitude,
        ensures
            s.measure() == magnitude * direction.sign_spec(),
    ;

    /// The strength of this quantity, without its turning direction
    fn magnitude(&self) -> (m: i64)
        requires
            -0x7fffffffffffffff <= self.measure(),
        ensures
            m == (if self.measure() >= 0 {
                self.measure()
            } else {
                -self.measure()
            }),
    ;

    /// The squared strength of this quantity
    fn magnitude_squared(&self) -> (m: i64)
        requires
            -3037000499 <= self.measure() <= 3037000499,
        ensures
            m == self.measure() * self.measure(),
    ;

    /// The turning direction of this quantity
    ///
    /// Returns `None` if the quantity is zero and so turns neither way.
    fn direction(&self) -> (d: Option<RotationDirection>)
        ensures
            d == (if self.measure() > 0 {
                Some(RotationDirection::Clockwise)
            } else if self.measure() < 0 {
                Some(RotationDirection::CounterClockwise)
            } else {
                None::<RotationDirection>
            }),
    ;
}

impl Kinematic for AngularVelocity {
    open spec fn measure(self) -> int {
        self.deci_degrees as int
    }

    fn new(magnitude: i64, direction: RotationDirection) -> (s: Self) {
        let sign: i64 = direction.sign();
        AngularVelocity { deci_degrees: magnitude * sign }
    }

    fn magnitude(&self) -> (m: i64) {
        if self.deci_degrees >= 0 {
            self.deci_degrees
        } else {
            -self.deci_degrees
        }
    }

    fn magnitude_squared(&self) -> (m: i64) {
        proof {
            assert(-0x7fffffffffffffff <= self.deci_degrees * self.deci_degrees
                <= 0x7fffffffffffffff) by (nonlinear_arith)
                requires
                    -3037000499 <= self.deci_degrees <= 3037000499,
            ;
        }
        self.deci_degrees * self.deci_degrees
    }

    fn direction(&self) -> (d: Option<RotationDirection>) {
        if self.deci_degrees > 0 {
            Some(RotationDirection::Clockwise)
        } else if self.deci_degrees < 0 {
            Some(RotationDirection::CounterClockwise)
        } else {
            None
        }
    }
}

impl Kinematic for AngularAcceleration {
    open spec fn measure(self) -> int {
        self.deci_degrees as int
    }

    fn new(magnitude: i64, direction: RotationDirection) -> (s: Self) {
        let sign: i64 = direction.sign();
        AngularAcceleration { deci_degrees: magnitude * sign }
    }

    fn magnitude(&self) -> (m: i64) {
        if self.deci_degrees >= 0 {
            self.deci_degrees
        } else {
            -self.deci_degrees
        }
    }

    fn magnitude_squared(&self) -> (m: i64) {
        proof {
            assert(-0x7fffffffffffffff <= self.deci_degrees * self.deci_degrees
                <= 0x7fffffffffffffff) by (nonlinear_arith)
                requires
                    -3037000499 <= self.deci_degrees <= 3037000499,
            ;
        }
        self.deci_degrees * self.deci_degrees
    }

    fn direction(&self) -> (d: Option<RotationDirection>) {
        if self.deci_degrees > 0 {
            Some(RotationDirection::Clockwise)
        } else if self.deci_degrees < 0 {
            Some(RotationDirection::CounterClockwise)
        } else {
            None
        }
    }
}

/// One tick of explicit Euler integration for linear motion
///
/// The velocity first accrues the acceleration over the elapsed
/// `delta_millis` milliseconds, then the position accrues the updated
/// velocity over the same span; both saturate at `C`'s representable range.
pub fn linear_kinematics<C: Coordinate>(
    position: &mut Position<C>,
    velocity: &mut Velocity<C>,
    acceleration: &Acceleration<C>,
    delta_millis: u64,
)
    requires
        old(position).wf(),
        old(velocity).wf(),
        acceleration.wf(),
        delta_millis <= 1000000,
    ensures
        final(velocity).x.to_int() == advanced::<C>(
            old(velocity).x.to_int(),
            per_tick::<C>(acceleration.x.to_int(), delta_millis as int),
        ),
        final(velocity).y.to_int() == advanced::<C>(
            old(velocity).y.to_int(),
            per_tick::<C>(acceleration.y.to_int(), delta_millis as int),
        ),
        final(position).x.to_int() == advanced::<C>(
            old(position).x.to_int(),
            per_tick::<C>(final(velocity).x.to_int(), delta_millis as int),
        ),
        final(position).y.to_int() == advanced::<C>(
            old(position).y.to_int(),
            per_tick::<C>(final(velocity).y.to_int(), delta_millis as int),
        ),
        final(velocity).wf(),
        final(position).wf(),
{
    let vx: C = velocity.x.add(acceleration.x.scale_by_millis(delta_millis));
    let vy: C = velocity.y.add(acceleration.y.scale_by_millis(delta_millis));
    *velocity = Velocity { x: vx, y: vy };
    let px: C = position.x.add(vx.scale_by_millis(delta_millis));
    let py: C = position.y.add(vy.scale_by_millis(delta_millis));
    *position = Position { x: px, y: py };
}

/// One tick of explicit Euler integration for angular motion
///
/// The angular velocity first accrues the angular acceleration over the
/// elapsed `delta_millis` milliseconds; the rotation then advances by the
/// updated velocity's share of the tick, using the wraparound-safe
/// [`Rotation`] arithmetic.
pub fn angular_kinematics(
    rotation: &mut Rotation,
    angular_velocity: &mut AngularVelocity,
    angular_acceleration: &AngularAcceleration,
    delta_millis: u64,
)
    requires
        -1000000000 <= old(angular_velocity).deci_degrees <= 1000000000,
        -1000000000 <= angular_acceleration.deci_degrees <= 1000000000,
        delta_millis <= 1000000,
    ensures
        final(angular_velocity).deci_degrees as int == old(angular_velocity).deci_degrees
            + trunc_div(angular_acceleration.deci_degrees * delta_millis, 1000),
        final(rotation)@ == (old(rotation)@ + trunc_div(
            final(angular_velocity).deci_degrees * delta_millis,
            1000,
        )) % 3600,
{
    let accrued: i64 = signed_scale_millis(angular_acceleration.deci_degrees, delta_millis);
    let new_velocity: i64 = angular_velocity.deci_degrees + accrued;
    *angular_velocity = AngularVelocity { deci_degrees: new_velocity };
    let step_magnitude: u64 = if new_velocity >= 0 {
        new_velocity as u64
    } else {
        (-new_velocity) as u64
    };
    proof {
        assert(step_magnitude * delta_millis <= 2000000000000u64 * 1000000) by (nonlinear_arith)
            requires
                step_magnitude <= 2000000000000u64,
                delta_millis <= 1000000,
        ;
    }
    let step: u64 = (step_magnitude * delta_millis) / 1000;
    let step_wrapped: u16 = (step % 3600) as u16;
    proof {
        lemma_mod_bound(step as int, 3600);
        let s = trunc_div(new_velocity * delta_millis, 1000);
        assert(s == (if new_velocity >= 0 {
            step as int
        } else {
            -(step as int)
        })) by (nonlinear_arith)
            requires
                step as int == (step_magnitude * delta_millis) as int / 1000,
                step_magnitude as int == (if new_velocity >= 0 {
                    new_velocity as int
                } else {
                    -(new_velocity as int)
                }),
                s == trunc_div(new_velocity * delta_millis, 1000),
                trunc_div(new_velocity * delta_millis, 1000) == (if new_velocity * delta_millis
                    >= 0 {
                    (new_velocity * delta_millis) / 1000
                } else {
                    -((-(new_velocity * delta_millis)) / 1000)
                }),
        ;
        if new_velocity >= 0 {
            lemma_add_mod_noop_right(old(rotation)@, step as int, 3600);
        } else {
            lemma_sub_mod_noop_right(old(rotation)@, step as int, 3600);
        }
    }
    if new_velocity >= 0 {
        *rotation = rotation.add(Rotation::new(step_wrapped));
    } else {
        *rotation = rotation.sub(Rotation::new(step_wrapped));
    }
}

/// The signed share of a per-second rate accrued over `millis` milliseconds,
/// truncating towards zero
fn signed_scale_millis(rate: i64, millis: u64) -> (r: i64)
    requires
        -1000000000 <= rate <= 1000000000,
        millis <= 1000000,
    ensures
        r as int == trunc_div(rate * millis, 1000),
        -1000000000000 <= r <= 1000000000000,
{
    let magnitude: u64 = if rate >= 0 {
        rate as u64
    } else {
        (-rate) as u64
    };
    proof {
        assert(magnitude * millis <= 1000000000u64 * 1000000) by (nonlinear_arith)
            requires
                magnitude <= 1000000000,
                millis <= 1000000,
        ;
    }
    let scaled: u64 = magnitude * millis;
    let q: u64 = scaled / 1000;
    proof {
        vstd::arithmetic::div_mod::lemma_div_nonincreasing(scaled as int, 1000);
        vstd::arithmetic::div_mod::lemma_div_pos_is_pos(scaled as int, 1000);
        assert(trunc_div(rate * millis, 1000) == (if rate >= 0 {
            q as int
        } else {
            -(q as int)
        })) by (nonlinear_arith)
            requires
                q as int == scaled as int / 1000,
                scaled as int == magnitude * millis,
                magnitude as int == (if rate >= 0 {
                    rate as int
                } else {
                    -(rate as int)
                }),
                trunc_div(rate * millis, 1000) == (if rate * millis >= 0 {
                    (rate * millis) / 1000
                } else {
                    -((-(rate * millis)) / 1000)
                }),
        ;
        assert(scaled <= 1000000000000000u64) by (nonlinear_arith)
            requires
                scaled as int == magnitude * millis,
                magnitude <= 1000000000,
                millis <= 1000000,
        ;
        vstd::arithmetic::div_mod::lemma_div_is_ordered(scaled as int, 1000000000000000, 1000);
        vstd::arithmetic::div_mod::lemma_fundamental_div_mod_converse(
            1000000000000000,
            1000,
            1000000000000,
            0,
        );
    }
    if rate >= 0 {
        q as i64
    } else {
        -(q as i64)
    }
}

} // verus!
