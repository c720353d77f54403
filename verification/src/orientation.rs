//! Direction and rotation for spinning around in 2 dimensions
//!
//! Orientations are discretized into tenths of a degree measured clockwise
//! from north, so that angle arithmetic is exact: adding any number of full
//! turns is a no-op by construction, no matter how often it is repeated.

use vstd::prelude::*;

use vstd::arithmetic::div_mod::{
    lemma_add_mod_noop, lemma_add_mod_noop_right, lemma_mod_add_multiples_vanish,
    lemma_mod_bound, lemma_mod_multiples_vanish, lemma_mod_sub_multiples_vanish,
    lemma_mul_mod_noop_right, lemma_small_mod, lemma_sub_mod_noop, lemma_sub_mod_noop_right,
};

verus! {

/// The number of deci-degrees (tenths of a degree) that make up a full circle
pub const FULL_CIRCLE: u16 = 3600;

/// The angle reached by starting at `a` and turning `b` deci-degrees clockwise
///
/// The result is always reduced to the canonical range `[0, 3600)`.
pub open spec fn rot_add(a: int, b: int) -> int {
    (a + b) % 3600
}

/// The angle reached by starting at `a` and turning `b` deci-degrees counter-clockwise
///
/// The result is always reduced to the canonical range `[0, 3600)`.
pub open spec fn rot_sub(a: int, b: int) -> int {
    (a - b) % 3600
}

/// The unsigned shortest angular distance between `a` and `b`
///
/// For angles in `[0, 3600)` this lies in `[0, 1800]`.
pub open spec fn rot_dist(a: int, b: int) -> int {
    let d = if a >= b {
        a - b
    } else {
        b - a
    };
    if d <= 1800 {
        d
    } else {
        3600 - d
    }
}

/// The supplied vector-like value was too close to zero to be converted into a
/// rotation-like type
///
/// In almost all cases, the correct way to handle this error is to simply not
/// change the rotation.
#[derive(Clone, Copy, Debug, PartialEq, Eq, Structural)]
pub struct NearlySingularConversion;

/// A direction that a [`Rotation`] can be applied in
#[derive(Clone, Copy, Debug, PartialEq, Eq, Structural)]
pub enum RotationDirection {
    /// Corresponds to a positive rotation
    Clockwise,
    /// Corresponds to a negative rotation
    CounterClockwise,
}

impl RotationDirection {
    /// The sign convention of this turning direction: clockwise is positive
    pub open spec fn sign_spec(self) -> int {
        match self {
            RotationDirection::Clockwise => 1,
            RotationDirection::CounterClockwise => -1,
        }
    }

    /// Reverses the direction into the opposite enum variant
    pub fn reverse(self) -> (r: RotationDirection)
        ensures
            r != self,
    {
        match self {
            RotationDirection::Clockwise => RotationDirection::CounterClockwise,
            RotationDirection::CounterClockwise => RotationDirection::Clockwise,
        }
    }

    /// The sign of this turning direction: `+1` for clockwise, `-1` for counter-clockwise
    pub fn sign(self) -> (s: i64)
        ensures
            s == self.sign_spec(),
    {
        match self {
            RotationDirection::Clockwise => 1,
            RotationDirection::CounterClockwise => -1,
        }
    }
}

impl Default for RotationDirection {
    /// Clockwise is the conventional positive turning direction
    fn default() -> (r: RotationDirection)
        ensures
            r == RotationDirection::Clockwise,
    {
        RotationDirection::Clockwise
    }
}

/// A discretized 2-dimensional rotation
///
/// Internally, these are stored in normalized tenths of a degree, and so can be
/// cleanly added and reversed without accumulating error.  The angle is
/// measured clockwise from midnight (x=0, y=1); 3600 deci-degrees make up a
/// full circle, and the stored value is always reduced modulo 3600.
#[derive(Clone, Copy, Debug, PartialEq, Eq, Structural, Hash)]
pub struct Rotation {
    deci_degrees: u16,
}

impl View for Rotation {
    type V = int;

    closed spec fn view(&self) -> int {
        self.deci_degrees as int
    }
}

impl Rotation {
    /// The stored angle is always reduced modulo a full circle
    #[verifier::type_invariant]
    pub closed spec fn inv(self) -> bool {
        self.deci_degrees < 3600
    }

    /// Creates a new [`Rotation`] from a whole number of tenths of a degree
    ///
    /// Measured clockwise from midnight.
    pub fn new(deci_degrees: u16) -> (r: Rotation)
        ensures
            r@ == deci_degrees as int % 3600,
    {
        Rotation { deci_degrees: deci_degrees % FULL_CIRCLE }
    }

    /// Returns the exact internal measurement, stored in tenths of a degree
    ///
    /// Measured clockwise from midnight (x=0, y=1).
    /// 3600 make up a full circle.
    pub fn deci_degrees(&self) -> (d: u16)
        ensures
            d as int == self@,
            d < 3600,
    {
        proof {
            use_type_invariant(self);
        }
        self.deci_degrees
    }

    /// The direction that points straight up
    pub fn north() -> (r: Rotation)
        ensures
            r@ == 0,
    {
        Rotation { deci_degrees: 0 }
    }

    /// The direction that points straight right
    pub fn east() -> (r: Rotation)
        ensures
            r@ == 900,
    {
        Rotation { deci_degrees: 900 }
    }

    /// The direction that points straight down
    pub fn south() -> (r: Rotation)
        ensures
            r@ == 1800,
    {
        Rotation { deci_degrees: 1800 }
    }

    /// The direction that points straight left
    pub fn west() -> (r: Rotation)
        ensures
            r@ == 2700,
    {
        Rotation { deci_degrees: 2700 }
    }

    /// The direction that points halfway between up and right
    pub fn northeast() -> (r: Rotation)
        ensures
            r@ == 450,
    {
        Rotation { deci_degrees: 450 }
    }

    /// The direction that points halfway between down and right
    pub fn southeast() -> (r: Rotation)
        ensures
            r@ == 1350,
    {
        Rotation { deci_degrees: 1350 }
    }

    /// The direction that points halfway between down and left
    pub fn southwest() -> (r: Rotation)
        ensures
            r@ == 2250,
    {
        Rotation { deci_degrees: 2250 }
    }

    /// The direction that points halfway between left and up
    pub fn northwest() -> (r: Rotation)
        ensures
            r@ == 3150,
    {
        Rotation { deci_degrees: 3150 }
    }

    /// Turns this rotation clockwise by `rhs`, wrapping around a full circle
    pub fn add(self, rhs: Rotation) -> (r: Rotation)
        ensures
            r@ == rot_add(self@, rhs@),
    {
        proof {
            use_type_invariant(self);
            use_type_invariant(rhs);
        }
        Rotation::new(self.deci_degrees + rhs.deci_degrees)
    }

    /// Turns this rotation counter-clockwise by `rhs`, wrapping around a full circle
    pub fn sub(self, rhs: Rotation) -> (r: Rotation)
        ensures
            r@ == rot_sub(self@, rhs@),
    {
        proof {
            use_type_invariant(self);
            use_type_invariant(rhs);
        }
        if self.deci_degrees >= rhs.deci_degrees {
            proof {
                lemma_small_mod((self.deci_degrees - rhs.deci_degrees) as nat, 3600);
            }
            Rotation { deci_degrees: self.deci_degrees - rhs.deci_degrees }
        } else {
            proof {
                lemma_mod_add_multiples_vanish(self@ - rhs@, 3600);
                lemma_small_mod((self.deci_degrees + FULL_CIRCLE - rhs.deci_degrees) as nat, 3600);
            }
            Rotation { deci_degrees: self.deci_degrees + FULL_CIRCLE - rhs.deci_degrees }
        }
    }

    /// The rotation of the same magnitude in the opposite turning direction
    pub fn neg(self) -> (r: Rotation)
        ensures
            r@ == rot_sub(0, self@),
    {
        proof {
            use_type_invariant(self);
        }
        Rotation::new(FULL_CIRCLE - self.deci_degrees)
    }

    /// Repeats this rotation `rhs` times, wrapping around a full circle
    pub fn mul_scalar(self, rhs: u64) -> (r: Rotation)
        ensures
            r@ == (self@ * rhs) % 3600,
    {
        proof {
            use_type_invariant(self);
        }
        let reduced: u64 = rhs % 3600;
        proof {
            assert((self.deci_degrees as u64) * reduced < 3600 * 3600) by (nonlinear_arith)
                requires
                    self.deci_degrees < 3600,
                    reduced < 3600,
            ;
        }
        let product: u64 = (self.deci_degrees as u64) * reduced;
        proof {
            lemma_mul_mod_noop_right(self@, rhs as int, 3600);
            lemma_mod_bound(product as int, 3600);
        }
        Rotation { deci_degrees: (product % 3600) as u16 }
    }

    /// Constructs a [`Rotation`] from a whole number of degrees, measured
    /// clockwise from midnight
    ///
    /// Negative inputs wrap around to their positive equivalent.
    pub fn from_degrees(degrees: i64) -> (r: Rotation)
        ensures
            r@ == (degrees as int % 360) * 10,
    {
        if degrees >= 0 {
            let reduced: u64 = (degrees as u64) % 360;
            proof {
                lemma_small_mod((reduced * 10) as nat, 3600);
            }
            Rotation { deci_degrees: (reduced * 10) as u16 }
        } else {
            let magnitude: u64 = (-(degrees as i128)) as u64;
            let reduced: u64 = magnitude % 360;
            proof {
                lemma_mod_multiples_vanish(
                    -((magnitude / 360) as int) - 1,
                    (360 - reduced) as int,
                    360,
                );
                if reduced == 0 {
                    lemma_mod_multiples_vanish(-((magnitude / 360) as int), 0, 360);
                }
            }
            if reduced == 0 {
                Rotation { deci_degrees: 0 }
            } else {
                Rotation { deci_degrees: ((360 - reduced) * 10) as u16 }
            }
        }
    }

    /// Returns the absolute distance between `self` and `other` as a [`Rotation`]
    ///
    /// The shortest path will always be taken, and so this value ranges
    /// between 0 and 180 degrees.
    pub fn distance(&self, other: Rotation) -> (d: Rotation)
        ensures
            d@ == rot_dist(self@, other@),
            0 <= d@ <= 1800,
    {
        proof {
            use_type_invariant(self);
            use_type_invariant(other);
        }
        let initial_distance: u16 = if self.deci_degrees >= other.deci_degrees {
            self.deci_degrees - other.deci_degrees
        } else {
            other.deci_degrees - self.deci_degrees
        };
        if initial_distance <= FULL_CIRCLE / 2 {
            Rotation { deci_degrees: initial_distance }
        } else {
            Rotation { deci_degrees: FULL_CIRCLE - initial_distance }
        }
    }
}

/// A 2D unit vector that represents a direction
///
/// The heading is stored as the discretized angle in deci-degrees, measured
/// clockwise from north, that singles the unit vector out; this keeps the
/// invariant "magnitude is always one" true by construction and makes the
/// conversion to and from [`Rotation`] lossless.  The Cartesian components of
/// the unit vector are a floating-point concern of the host-engine adapter.
#[derive(Clone, Copy, Debug, PartialEq, Eq, Structural, Hash)]
pub struct Direction {
    deci_degrees: u16,
}

impl View for Direction {
    type V = int;

    closed spec fn view(&self) -> int {
        self.deci_degrees as int
    }
}

impl Direction {
    /// The stored heading is always reduced modulo a full circle
    #[verifier::type_invariant]
    pub closed spec fn inv(self) -> bool {
        self.deci_degrees < 3600
    }

    /// The heading of this direction, in deci-degrees clockwise from north
    pub fn deci_degrees(&self) -> (d: u16)
        ensures
            d as int == self@,
            d < 3600,
    {
        proof {
            use_type_invariant(self);
        }
        self.deci_degrees
    }

    /// The direction that points straight up
    pub fn north() -> (d: Direction)
        ensures
            d@ == 0,
    {
        Direction { deci_degrees: 0 }
    }

    /// The direction that points straight right
    pub fn east() -> (d: Direction)
        ensures
            d@ == 900,
    {
        Direction { deci_degrees: 900 }
    }

    /// The direction that points straight down
    pub fn south() -> (d: Direction)
        ensures
            d@ == 1800,
    {
        Direction { deci_degrees: 1800 }
    }

    /// The direction that points straight left
    pub fn west() -> (d: Direction)
        ensures
            d@ == 2700,
    {
        Direction { deci_degrees: 2700 }
    }

    /// The direction that points halfway between up and right
    pub fn northeast() -> (d: Direction)
        ensures
            d@ == 450,
    {
        Direction { deci_degrees: 450 }
    }

    /// The direction that points halfway between down and right
    pub fn southeast() -> (d: Direction)
        ensures
            d@ == 1350,
    {
        Direction { deci_degrees: 1350 }
    }

    /// The direction that points halfway between down and left
    pub fn southwest() -> (d: Direction)
        ensures
            d@ == 2250,
    {
        Direction { deci_degrees: 2250 }
    }

    /// The direction that points halfway between left and up
    pub fn northwest() -> (d: Direction)
        ensures
            d@ == 3150,
    {
        Direction { deci_degrees: 3150 }
    }

    /// The direction that points the opposite way
    pub fn neg(self) -> (d: Direction)
        ensures
            d@ == rot_add(self@, 1800),
    {
        proof {
            use_type_invariant(self);
        }
        if self.deci_degrees >= 1800 {
            proof {
                lemma_mod_sub_multiples_vanish(self@ + 1800, 3600);
                lemma_small_mod((self.deci_degrees - 1800) as nat, 3600);
            }
            Direction { deci_degrees: self.deci_degrees - 1800 }
        } else {
            proof {
                lemma_small_mod((self.deci_degrees + 1800) as nat, 3600);
            }
            Direction { deci_degrees: self.deci_degrees + 1800 }
        }
    }
}

impl Default for Direction {
    /// North is the default direction, as it is consistent with the default [`Rotation`]
    fn default() -> (d: Direction)
        ensures
            d@ == 0,
    {
        Direction::north()
    }
}

impl Default for Rotation {
    /// The default rotation points north
    fn default() -> (r: Rotation)
        ensures
            r@ == 0,
    {
        Rotation::north()
    }
}

/// Relates the clockwise offset `rot_sub(t, a)` to the unsigned shortest
/// distance between two canonical angles
proof fn lemma_dist_of_offset(a: int, t: int)
    requires
        0 <= a < 3600,
        0 <= t < 3600,
    ensures
        0 <= rot_sub(t, a) < 3600,
        rot_dist(a, t) == (if rot_sub(t, a) <= 1800 {
            rot_sub(t, a)
        } else {
            3600 - rot_sub(t, a)
        }),
{
    if t >= a {
        lemma_small_mod((t - a) as nat, 3600);
    } else {
        lemma_mod_add_multiples_vanish(t - a, 3600);
        lemma_small_mod((t - a + 3600) as nat, 3600);
    }
}

/// A type that can represent an orientation in 2D space
pub trait Orientation: Sized + Copy {
    /// The discretized angle of this orientation, in deci-degrees clockwise from north
    spec fn angle(self) -> int;

    /// Whether this value holds its angle in the canonical range
    spec fn wf(self) -> bool;

    /// A well-formed orientation holds an angle in `[0, 3600)`
    proof fn lemma_wf_range(self)
        requires
            self.wf(),
        ensures
            0 <= self.angle() < 3600,
    ;

    /// Converts this orientation into the equivalent [`Rotation`]
    fn to_rotation(self) -> (r: Rotation)
        requires
            self.wf(),
        ensures
            r@ == self.angle(),
    ;

    /// Builds the orientation equivalent to the given [`Rotation`]
    fn of_rotation(rotation: Rotation) -> (s: Self)
        ensures
            s.wf(),
            s.angle() == rotation@,
    ;

    /// Returns the absolute distance between `self` and `other` as a [`Rotation`]
    ///
    /// The shortest path will always be taken, and so this value ranges
    /// between 0 and 180 degrees.
    fn distance(&self, other: Self) -> (d: Rotation)
        requires
            self.wf(),
            other.wf(),
        ensures
            d@ == rot_dist(self.angle(), other.angle()),
            0 <= d@ <= 1800,
    ;

    /// Whether `self` and `other` are within 2 deci-degrees of each other
    fn approx_eq(self, other: Self) -> (b: bool)
        requires
            self.wf(),
            other.wf(),
        ensures
            b == (rot_dist(self.angle(), other.angle()) <= 2),
    {
        let d = self.distance(other);
        d.deci_degrees() <= 2
    }

    /// Computes the [`Orientation`] that must be applied to `self` so that it
    /// matches `target`
    ///
    /// The rotation will be performed in `rotation_direction` if it is
    /// supplied.  Otherwise, the shorter distance will be preferred.
    fn orientation_to(&self, target: Self, rotation_direction: Option<RotationDirection>) -> (o:
        Self)
        requires
            self.wf(),
            target.wf(),
        ensures
            o.wf(),
            o.angle() == ({
                let delta = rot_sub(target.angle(), (*self).angle());
                match rotation_direction {
                    Some(RotationDirection::Clockwise) => delta,
                    Some(RotationDirection::CounterClockwise) => rot_sub(0, delta),
                    None => if delta <= 1800 {
                        delta
                    } else {
                        rot_sub(0, delta)
                    },
                }
            }),
    {
        let self_rotation: Rotation = (*self).to_rotation();
        let target_rotation: Rotation = target.to_rotation();
        let rotation_to = target_rotation.sub(self_rotation);
        match rotation_direction {
            Some(RotationDirection::Clockwise) => Self::of_rotation(rotation_to),
            Some(RotationDirection::CounterClockwise) => Self::of_rotation(rotation_to.neg()),
            None => {
                if rotation_to.deci_degrees() <= 1800 {
                    Self::of_rotation(rotation_to)
                } else {
                    Self::of_rotation(rotation_to.neg())
                }
            },
        }
    }

    /// Which [`RotationDirection`] is the shortest to rotate towards to reach `target`?
    ///
    /// In the case of ties, [`RotationDirection::Clockwise`] will be returned.
    fn rotation_direction(&self, target: Self) -> (rd: RotationDirection)
        requires
            self.wf(),
            target.wf(),
        ensures
            rd == (if rot_sub(target.angle(), (*self).angle()) <= 1800 {
                RotationDirection::Clockwise
            } else {
                RotationDirection::CounterClockwise
            }),
    {
        let self_rotation: Rotation = (*self).to_rotation();
        let target_rotation: Rotation = target.to_rotation();
        let rotation_to = target_rotation.sub(self_rotation);
        if rotation_to.deci_degrees() <= 1800 {
            RotationDirection::Clockwise
        } else {
            RotationDirection::CounterClockwise
        }
    }

    /// Rotates `self` towards `target_orientation` by up to `max_rotation`
    ///
    /// Without a `max_rotation` the orientation snaps to the target.  With
    /// one, it advances by exactly `max_rotation` along the shorter direction,
    /// and snaps exactly to the target once the remaining distance is within
    /// `max_rotation`; the result is never farther from the target than the
    /// starting orientation was.
    fn rotate_towards(&mut self, target_orientation: Self, max_rotation: Option<Rotation>)
        requires
            old(self).wf(),
            target_orientation.wf(),
        ensures
            final(self).wf(),
            ({
                let a = old(self).angle();
                let t = target_orientation.angle();
                match max_rotation {
                    None => final(self).angle() == t,
                    Some(m) => if rot_dist(a, t) <= m@ {
                        final(self).angle() == t
                    } else {
                        final(self).angle() == (if rot_sub(t, a) <= 1800 {
                            rot_add(a, m@)
                        } else {
                            rot_sub(a, m@)
                        }) && rot_dist(final(self).angle(), t) == rot_dist(a, t) - m@
                    },
                }
            }),
            rot_dist(final(self).angle(), target_orientation.angle()) <= rot_dist(
                old(self).angle(),
                target_orientation.angle(),
            ),
    {
        proof {
            old(self).lemma_wf_range();
            target_orientation.lemma_wf_range();
        }
        if let Some(max_rotation) = max_rotation {
            let dist = self.distance(target_orientation);
            if dist.deci_degrees() <= max_rotation.deci_degrees() {
                *self = target_orientation;
            } else {
                let ghost a = old(self).angle();
                let ghost t = target_orientation.angle();
                let ghost m = max_rotation@;
                let delta_rotation = match self.rotation_direction(target_orientation) {
                    RotationDirection::Clockwise => max_rotation,
                    RotationDirection::CounterClockwise => max_rotation.neg(),
                };
                let current_rotation: Rotation = (*self).to_rotation();
                let new_rotation: Rotation = current_rotation.add(delta_rotation);
                proof {
                    lemma_dist_of_offset(a, t);
                    let delta = rot_sub(t, a);
                    lemma_small_mod(m as nat, 3600);
                    if delta <= 1800 {
                        // clockwise: the offset shrinks by exactly m
                        assert(new_rotation@ == (a + m) % 3600);
                        lemma_sub_mod_noop_right(t, a + m, 3600);
                        lemma_sub_mod_noop(t - a, m, 3600);
                        lemma_small_mod((delta - m) as nat, 3600);
                        assert(rot_sub(t, new_rotation@) == delta - m);
                    } else {
                        // counter-clockwise: the offset grows by exactly m
                        assert(delta_rotation@ == (0 - m) % 3600);
                        lemma_add_mod_noop_right(a, 0 - m, 3600);
                        assert(new_rotation@ == (a - m) % 3600);
                        lemma_sub_mod_noop_right(t, a - m, 3600);
                        lemma_add_mod_noop(t - a, m, 3600);
                        lemma_small_mod((delta + m) as nat, 3600);
                        assert(rot_sub(t, new_rotation@) == delta + m);
                    }
                    lemma_dist_of_offset(new_rotation@, t);
                }
                *self = Self::of_rotation(new_rotation);
            }
        } else {
            *self = target_orientation;
        }
    }
}

impl Orientation for Rotation {
    open spec fn angle(self) -> int {
        self@
    }

    open spec fn wf(self) -> bool {
        self.inv()
    }

    proof fn lemma_wf_range(self) {
    }

    fn to_rotation(self) -> (r: Rotation) {
        self
    }

    fn of_rotation(rotation: Rotation) -> (s: Self) {
        proof {
            use_type_invariant(rotation);
        }
        rotation
    }

    fn distance(&self, other: Self) -> (d: Rotation) {
        Rotation::distance(self, other)
    }
}

impl Orientation for Direction {
    open spec fn angle(self) -> int {
        self@
    }

    open spec fn wf(self) -> bool {
        self.inv()
    }

    proof fn lemma_wf_range(self) {
    }

    fn to_rotation(self) -> (r: Rotation) {
        proof {
            use_type_invariant(self);
        }
        Rotation { deci_degrees: self.deci_degrees }
    }

    fn of_rotation(rotation: Rotation) -> (s: Self) {
        proof {
            use_type_invariant(rotation);
        }
        let d = Direction { deci_degrees: rotation.deci_degrees };
        proof {
            assert(d.inv());
            assert(d@ == rotation@);
        }
        d
    }

    fn distance(&self, other: Self) -> (d: Rotation) {
        let self_rotation: Rotation = (*self).to_rotation();
        let other_rotation: Rotation = other.to_rotation();
        self_rotation.distance(other_rotation)
    }
}

/// The bearing within one octant, linearly interpolated: for offsets
/// `0 <= small <= large` this is `450 * small / large` deci-degrees from the
/// octant's leading ray, rounded to the nearest whole deci-degree
pub open spec fn octant_lerp(small: int, large: int) -> int {
    (900 * small + large) / (2 * large)
}

/// The discretized bearing of the displacement `(dx, dy)`, in deci-degrees
/// clockwise from north (`+y`)
///
/// The bearing is exact on the eight principal rays (the axes and the
/// diagonals) and linearly interpolated within each octant, which stays
/// within about four degrees of the true bearing.
pub open spec fn displacement_angle(dx: int, dy: int) -> int {
    let ax = if dx >= 0 {
        dx
    } else {
        -dx
    };
    let ay = if dy >= 0 {
        dy
    } else {
        -dy
    };
    if dx >= 0 {
        if dy > 0 {
            if ax <= ay {
                octant_lerp(ax, ay)
            } else {
                900 - octant_lerp(ay, ax)
            }
        } else {
            if ax >= ay {
                900 + octant_lerp(ay, ax)
            } else {
                1800 - octant_lerp(ax, ay)
            }
        }
    } else {
        if dy <= 0 {
            if ax <= ay {
                1800 + octant_lerp(ax, ay)
            } else {
                2700 - octant_lerp(ay, ax)
            }
        } else {
            if ax >= ay {
                2700 + octant_lerp(ay, ax)
            } else {
                (3600 - octant_lerp(ax, ay)) % 3600
            }
        }
    }
}

/// The absolute value of `v`, widened so that `i64::MIN` is representable
fn abs_i64(v: i64) -> (a: u64)
    ensures
        a as int == (if v >= 0 {
            v as int
        } else {
            -(v as int)
        }),
{
    if v >= 0 {
        v as u64
    } else {
        (-(v as i128)) as u64
    }
}

/// One octant's worth of linear interpolation, rounded to the nearest deci-degree
fn octant_lerp_exec(small: u64, large: u64) -> (l: u16)
    requires
        small <= large,
        0 < large,
    ensures
        l as int == octant_lerp(small as int, large as int),
        l <= 450,
{
    let numerator: u128 = 900u128 * (small as u128) + (large as u128);
    let denominator: u128 = 2u128 * (large as u128);
    let quotient: u128 = numerator / denominator;
    proof {
        let s = small as int;
        let g = large as int;
        assert(900 * s + g <= 901 * g) by (nonlinear_arith)
            requires
                s <= g,
                0 < g,
        ;
        vstd::arithmetic::div_mod::lemma_div_is_ordered(900 * s + g, 901 * g, 2 * g);
        vstd::arithmetic::div_mod::lemma_fundamental_div_mod_converse(901 * g, 2 * g, 450, g);
        vstd::arithmetic::div_mod::lemma_div_pos_is_pos(900 * s + g, 2 * g);
    }
    quotient as u16
}

impl Rotation {
    /// Constructs a [`Rotation`] from an integer (x, y) displacement,
    /// measured in any common unit
    ///
    /// Returns [`Err(NearlySingularConversion)`] for the zero displacement,
    /// which points nowhere; every other displacement has a bearing, exact on
    /// the axes and diagonals and interpolated within each octant.
    pub fn from_xy(x: i64, y: i64) -> (r: Result<Rotation, NearlySingularConversion>)
        ensures
            r is Err <==> (x == 0 && y == 0),
            r matches Ok(rot) ==> rot@ == displacement_angle(x as int, y as int),
    {
        if x == 0 && y == 0 {
            return Err(NearlySingularConversion);
        }
        let ax: u64 = abs_i64(x);
        let ay: u64 = abs_i64(y);
        let deci_degrees: u16 = if x >= 0 {
            if y > 0 {
                if ax <= ay {
                    octant_lerp_exec(ax, ay)
                } else {
                    900 - octant_lerp_exec(ay, ax)
                }
            } else {
                if ax >= ay {
                    900 + octant_lerp_exec(ay, ax)
                } else {
                    1800 - octant_lerp_exec(ax, ay)
                }
            }
        } else {
            if y <= 0 {
                if ax <= ay {
                    1800 + octant_lerp_exec(ax, ay)
                } else {
                    2700 - octant_lerp_exec(ay, ax)
                }
            } else {
                if ax >= ay {
                    2700 + octant_lerp_exec(ay, ax)
                } else {
                    (3600 - octant_lerp_exec(ax, ay)) % 3600
                }
            }
        };
        Ok(Rotation { deci_degrees })
    }
}

impl Direction {
    /// Constructs a [`Direction`] from an integer (x, y) displacement,
    /// measured in any common unit
    ///
    /// Returns [`Err(NearlySingularConversion)`] for the zero displacement;
    /// every other displacement is normalized onto the unit circle at the
    /// same bearing that [`Rotation::from_xy`] reports.
    pub fn from_xy(x: i64, y: i64) -> (r: Result<Direction, NearlySingularConversion>)
        ensures
            r is Err <==> (x == 0 && y == 0),
            r matches Ok(d) ==> d@ == displacement_angle(x as int, y as int),
    {
        match Rotation::from_xy(x, y) {
            Ok(rotation) => Ok(Direction::of_rotation(rotation)),
            Err(e) => Err(e),
        }
    }
}

/// Wrapping an angle by whole turns never changes it: for every rotation `r`
/// and every turn count `k`, `r` advanced by `k` full circles is `r` again
pub proof fn lemma_full_turn_identity(r: Rotation, k: nat)
    requires
        0 <= r@ < 3600,
    ensures
        rot_add(r@, k * 3600int) == r@,
{
    lemma_mod_multiples_vanish(k as int, r@, 3600);
    lemma_small_mod(r@ as nat, 3600);
}

/// Converting between the two orientation representations is lossless: a
/// rotation turned into a direction and back, or a direction turned into a
/// rotation and back, lands exactly on the angle it started from, so the
/// round-trip error is zero, well within any tolerance
///
/// Both conversions preserve the discretized angle exactly (see the
/// `to_rotation` and `of_rotation` contracts of [`Orientation`]), so each
/// round trip composes two angle-preserving steps.
pub proof fn lemma_orientation_round_trip(a: int)
    requires
        0 <= a < 3600,
    ensures
        rot_dist(a, a) == 0,
{
}

/// The angular distance is symmetric and always lies between 0 and 180 degrees
pub proof fn lemma_distance_symmetric_and_bounded(a: Rotation, b: Rotation)
    requires
        0 <= a@ < 3600,
        0 <= b@ < 3600,
    ensures
        rot_dist(a@, b@) == rot_dist(b@, a@),
        0 <= rot_dist(a@, b@) <= 1800,
{
}

} // verus!
