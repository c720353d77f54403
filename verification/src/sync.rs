//! Per-frame reconciliation between the library's 2D components and the host
//! engine's transform
//!
//! Each entity's `Rotation`, `Direction` and `Position` components and its
//! host transform are reconciled once per frame, in two stages: first
//! [`sync_direction_and_rotation`] makes the two orientation components
//! agree, then [`sync_transform_with_2d`] reconciles each component with the
//! transform.  Every write is guarded by an equality check, so a no-op
//! reconciliation never registers as a change and the process cannot ping-pong.

use vstd::prelude::*;

use crate::coordinate::Coordinate;
use crate::orientation::{Direction, Orientation, Rotation};
use crate::position::Position;

verus! {

/// The 2D readout of the host engine's transform
///
/// `rotation` is the transform's rotation about the axis perpendicular to
/// the working plane, discretized; `None` stands for a near-singular readout
/// that has no 2D orientation.  `translation` is the transform's (x, y)
/// translation read into `C`; `None` stands for a translation outside `C`'s
/// representable range.  The transform's depth component never appears here:
/// the host adapter leaves it untouched.
#[derive(Clone, Copy, Debug, PartialEq)]
pub struct Transform2d<C: Coordinate> {
    /// The planar rotation of the transform, when it has one
    pub rotation: Option<Rotation>,
    /// The planar translation of the transform, when `C` can represent it
    pub translation: Option<Position<C>>,
}

/// The 2D components an entity carries, each present or absent
#[derive(Clone, Copy, Debug, PartialEq)]
pub struct Entity2d<C: Coordinate> {
    /// The entity's [`Rotation`] component, if attached
    pub rotation: Option<Rotation>,
    /// The entity's [`Direction`] component, if attached
    pub direction: Option<Direction>,
    /// The entity's [`Position`] component, if attached
    pub position: Option<Position<C>>,
}

/// Which fields of an entity the host's change tracking reports as written
/// since the last frame
#[derive(Clone, Copy, Debug, PartialEq, Eq, Structural)]
pub struct ChangeFlags {
    /// Whether the host transform changed
    pub transform: bool,
    /// Whether the [`Rotation`] component changed
    pub rotation: bool,
    /// Whether the [`Direction`] component changed
    pub direction: bool,
    /// Whether the [`Position`] component changed
    pub position: bool,
}

/// Which writes a reconciliation pass performed
#[derive(Clone, Copy, Debug, PartialEq, Eq, Structural)]
pub struct SyncWrites {
    /// Whether the transform's rotation slot was written
    pub transform_rotation: bool,
    /// Whether the transform's translation was written
    pub transform_translation: bool,
    /// Whether the [`Rotation`] component was written
    pub rotation: bool,
    /// Whether the [`Direction`] component was written
    pub direction: bool,
    /// Whether the [`Position`] component was written
    pub position: bool,
}

impl SyncWrites {
    /// The record of a pass that wrote nothing
    pub open spec fn none_spec() -> SyncWrites {
        SyncWrites {
            transform_rotation: false,
            transform_translation: false,
            rotation: false,
            direction: false,
            position: false,
        }
    }
}

/// The angle a rotation slot holds, if any
pub open spec fn rot_view(o: Option<Rotation>) -> Option<int> {
    match o {
        Some(r) => Some(r@),
        None => None,
    }
}

/// The angle a direction slot holds, if any
pub open spec fn dir_view(o: Option<Direction>) -> Option<int> {
    match o {
        Some(d) => Some(d@),
        None => None,
    }
}

/// The coordinate pair a position slot holds, if any
pub open spec fn pos_view<C: Coordinate>(o: Option<Position<C>>) -> Option<(int, int)> {
    match o {
        Some(p) => Some((p.x.to_int(), p.y.to_int())),
        None => None,
    }
}

/// One field's reconciliation against the transform, for an angle-valued field
///
/// Returns the new slot, the new component value, and whether the slot and
/// the component were written.  The component pushes when it changed; the
/// slot is pulled back otherwise, when the transform changed and its readout
/// is available; every write is guarded by an equality check.
pub open spec fn sync_angle_step(
    slot: Option<int>,
    value: int,
    value_changed: bool,
    transform_changed: bool,
) -> (Option<int>, int, bool, bool) {
    if value_changed {
        if slot != Some(value) {
            (Some(value), value, true, false)
        } else {
            (slot, value, false, false)
        }
    } else if transform_changed {
        match slot {
            Some(tv) => if tv != value {
                (slot, tv, false, true)
            } else {
                (slot, value, false, false)
            },
            None => (slot, value, false, false),
        }
    } else {
        (slot, value, false, false)
    }
}

/// One field's reconciliation against the transform, for a pair-valued field
///
/// The same push/pull rule as [`sync_angle_step`], for the translation slot.
pub open spec fn sync_pair_step(
    slot: Option<(int, int)>,
    value: (int, int),
    value_changed: bool,
    transform_changed: bool,
) -> (Option<(int, int)>, (int, int), bool, bool) {
    if value_changed {
        if slot != Some(value) {
            (Some(value), value, true, false)
        } else {
            (slot, value, false, false)
        }
    } else if transform_changed {
        match slot {
            Some(tv) => if tv != value {
                (slot, tv, false, true)
            } else {
                (slot, value, false, false)
            },
            None => (slot, value, false, false),
        }
    } else {
        (slot, value, false, false)
    }
}

/// The whole transform reconciliation pass, at the level of readout values
///
/// Fields are processed in order: rotation, then direction (which shares the
/// rotation slot), then position.  A slot write by an earlier field counts as
/// a transform change for the later ones, exactly as the host's per-component
/// change tracking would report it.
pub open spec fn stage_b_spec(
    t_rot: Option<int>,
    t_pos: Option<(int, int)>,
    e_rot: Option<int>,
    e_dir: Option<int>,
    e_pos: Option<(int, int)>,
    flags: ChangeFlags,
) -> (Option<int>, Option<(int, int)>, Option<int>, Option<int>, Option<(int, int)>, SyncWrites) {
    let (t_rot1, e_rot1, w_tr1, w_r) = match e_rot {
        Some(r) => {
            let (s, v, a, b) = sync_angle_step(t_rot, r, flags.rotation, flags.transform);
            (s, Some(v), a, b)
        },
        None => (t_rot, None::<int>, false, false),
    };
    let (t_rot2, e_dir1, w_tr2, w_d) = match e_dir {
        Some(d) => {
            let (s, v, a, b) = sync_angle_step(t_rot1, d, flags.direction, flags.transform || w_tr1);
            (s, Some(v), a, b)
        },
        None => (t_rot1, None::<int>, false, false),
    };
    let (t_pos1, e_pos1, w_tt, w_p) = match e_pos {
        Some(p) => {
            let (s, v, a, b) = sync_pair_step(t_pos, p, flags.position, flags.transform || w_tr1 || w_tr2);
            (s, Some(v), a, b)
        },
        None => (t_pos, None::<(int, int)>, false, false),
    };
    (
        t_rot2,
        t_pos1,
        e_rot1,
        e_dir1,
        e_pos1,
        SyncWrites {
            transform_rotation: w_tr1 || w_tr2,
            transform_translation: w_tt,
            rotation: w_r,
            direction: w_d,
            position: w_p,
        },
    )
}

/// Synchronizes the [`Direction`] and [`Rotation`] of one entity
///
/// Returns the new rotation angle, the new direction angle, and whether each
/// was written.  Whichever component changed is used and the other is made
/// consistent; if both changed, the rotation is prioritized.  A write only
/// happens when the values actually differ.
pub open spec fn stage_a_spec(
    rotation: int,
    rotation_changed: bool,
    direction: int,
    direction_changed: bool,
) -> (int, int, bool, bool) {
    if rotation_changed {
        if direction != rotation {
            (rotation, rotation, false, true)
        } else {
            (rotation, direction, false, false)
        }
    } else if direction_changed {
        if rotation != direction {
            (direction, direction, true, false)
        } else {
            (rotation, direction, false, false)
        }
    } else {
        (rotation, direction, false, false)
    }
}

/// Synchronizes the [`Direction`] and [`Rotation`] of an entity
///
/// If the two are desynced, whichever one was changed this frame is used and
/// the other is made consistent.  If both were changed, [`Rotation`] is
/// prioritized.  The equality guards avoid triggering change detection
/// pointlessly, which would create an infinite ping-pong effect.
///
/// The returned pair reports whether the rotation and the direction were
/// written, in that order.
pub fn sync_direction_and_rotation(
    rotation: &mut Rotation,
    rotation_changed: bool,
    direction: &mut Direction,
    direction_changed: bool,
) -> (wrote: (bool, bool))
    ensures
        ({
            let (r, d, wr, wd) = stage_a_spec(
                old(rotation)@,
                rotation_changed,
                old(direction)@,
                direction_changed,
            );
            final(rotation)@ == r && final(direction)@ == d && wrote.0 == wr && wrote.1 == wd
        }),
        (rotation_changed || direction_changed) ==> final(rotation)@ == final(direction)@,
{
    if rotation_changed {
        let new_direction: Direction = Direction::of_rotation(*rotation);
        if direction.deci_degrees() != new_direction.deci_degrees() {
            *direction = new_direction;
            (false, true)
        } else {
            (false, false)
        }
    } else if direction_changed {
        let current: Direction = *direction;
        proof {
            use_type_invariant(current);
        }
        let new_rotation: Rotation = current.to_rotation();
        if rotation.deci_degrees() != new_rotation.deci_degrees() {
            *rotation = new_rotation;
            (true, false)
        } else {
            (false, false)
        }
    } else {
        (false, false)
    }
}

/// Synchronizes the [`Rotation`], [`Direction`] and [`Position`] of an
/// entity with its host transform, and vice versa
///
/// A component that changed this frame is pushed into the transform; a field
/// whose component did not change is pulled back from the transform when the
/// transform changed, skipping readouts that are unavailable (a
/// near-singular rotation, a translation outside `C`'s range), which leaves
/// the component at its prior value.  Every write is guarded by an equality
/// check, so reconciliation is idempotent (see
/// [`lemma_stage_b_idempotent`]).
pub fn sync_transform_with_2d<C: Coordinate>(
    transform: &mut Transform2d<C>,
    components: &mut Entity2d<C>,
    flags: ChangeFlags,
) -> (w: SyncWrites)
    ensures
        ({
            let (t_rot, t_pos, e_rot, e_dir, e_pos, writes) = stage_b_spec(
                rot_view(old(transform).rotation),
                pos_view(old(transform).translation),
                rot_view(old(components).rotation),
                dir_view(old(components).direction),
                pos_view(old(components).position),
                flags,
            );
            rot_view(final(transform).rotation) == t_rot && pos_view(final(transform).translation)
                == t_pos && rot_view(final(components).rotation) == e_rot && dir_view(
                final(components).direction,
            ) == e_dir && pos_view(final(components).position) == e_pos && w == writes
        }),
{
    let mut writes = SyncWrites {
        transform_rotation: false,
        transform_translation: false,
        rotation: false,
        direction: false,
        position: false,
    };
    let mut slot_written: bool = false;

    // Synchronize Rotation with the transform's rotation slot
    if let Some(rotation) = components.rotation {
        if flags.rotation {
            let differs: bool = match &transform.rotation {
                Some(tr) => tr.deci_degrees() != rotation.deci_degrees(),
                None => true,
            };
            if differs {
                transform.rotation = Some(rotation);
                writes.transform_rotation = true;
                slot_written = true;
            }
        } else if flags.transform {
            if let Some(tr) = transform.rotation {
                if tr.deci_degrees() != rotation.deci_degrees() {
                    components.rotation = Some(tr);
                    writes.rotation = true;
                }
            }
        }
    }

    // Synchronize Direction with the same rotation slot, which may just have
    // been rewritten by the rotation push above
    if let Some(direction) = components.direction {
        proof {
            use_type_invariant(direction);
        }
        let direction_rotation: Rotation = direction.to_rotation();
        if flags.direction {
            let differs: bool = match &transform.rotation {
                Some(tr) => tr.deci_degrees() != direction_rotation.deci_degrees(),
                None => true,
            };
            if differs {
                transform.rotation = Some(direction_rotation);
                writes.transform_rotation = true;
                slot_written = true;
            }
        } else if flags.transform || slot_written {
            if let Some(tr) = transform.rotation {
                if tr.deci_degrees() != direction_rotation.deci_degrees() {
                    components.direction = Some(Direction::of_rotation(tr));
                    writes.direction = true;
                }
            }
        }
    }

    // Synchronize Position with the transform's translation
    if let Some(position) = components.position {
        if flags.position {
            let differs: bool = match &transform.translation {
                Some(t) => !position.eq_value(*t),
                None => true,
            };
            if differs {
                transform.translation = Some(position);
                writes.transform_translation = true;
            }
        } else if flags.transform || slot_written {
            if let Some(t) = transform.translation {
                if !position.eq_value(t) {
                    components.position = Some(t);
                    writes.position = true;
                }
            }
        }
    }

    writes
}

/// Reconciliation is idempotent: running the transform pass a second time in
/// the same frame, with the change flags that the first pass's own writes
/// would raise and no new external writes, performs no further writes and
/// leaves every field as it was
///
/// This holds from the steady state that each frame's passes establish:
/// when both orientation components are attached and the direction changed,
/// the two already agree (which is what [`sync_direction_and_rotation`]
/// leaves behind), and a component that did not change this frame, on a
/// transform that did not change either, is still reconciled with it from
/// the previous frame.
#[verifier::rlimit(100)]
pub proof fn lemma_stage_b_idempotent(
    t_rot: Option<int>,
    t_pos: Option<(int, int)>,
    e_rot: Option<int>,
    e_dir: Option<int>,
    e_pos: Option<(int, int)>,
    flags: ChangeFlags,
)
    requires
        (e_rot is Some && e_dir is Some && flags.direction) ==> e_rot == e_dir,
        (!flags.transform && !flags.rotation && t_rot is Some && e_rot is Some) ==> t_rot == e_rot,
        (!flags.transform && !flags.direction && t_rot is Some && e_dir is Some) ==> t_rot == e_dir,
        (!flags.transform && !flags.position && t_pos is Some && e_pos is Some) ==> t_pos == e_pos,
        (flags.transform && flags.direction && !flags.rotation && e_rot is Some && e_dir is Some
            && t_rot is Some) ==> t_rot == e_dir,
    ensures
        ({
            let (t_rot1, t_pos1, e_rot1, e_dir1, e_pos1, w1) = stage_b_spec(
                t_rot,
                t_pos,
                e_rot,
                e_dir,
                e_pos,
                flags,
            );
            let flags2 = ChangeFlags {
                transform: w1.transform_rotation || w1.transform_translation,
                rotation: w1.rotation,
                direction: w1.direction,
                position: w1.position,
            };
            let (t_rot2, t_pos2, e_rot2, e_dir2, e_pos2, w2) = stage_b_spec(
                t_rot1,
                t_pos1,
                e_rot1,
                e_dir1,
                e_pos1,
                flags2,
            );
            t_rot2 == t_rot1 && t_pos2 == t_pos1 && e_rot2 == e_rot1 && e_dir2 == e_dir1 && e_pos2
                == e_pos1 && w2 == SyncWrites::none_spec()
        }),
{
    let outcome = stage_b_spec(t_rot, t_pos, e_rot, e_dir, e_pos, flags);
    let t_rot1 = outcome.0;
    let t_pos1 = outcome.1;
    let e_rot1 = outcome.2;
    let e_dir1 = outcome.3;
    let e_pos1 = outcome.4;
    let w1 = outcome.5;
    // After one pass, every attached component agrees with its slot, or the
    // slot is unreadable and that component was left alone
    assert(match e_rot1 {
        Some(r1) => t_rot1 == Some(r1) || (t_rot1 is None && !w1.rotation),
        None => true,
    });
    assert(match e_dir1 {
        Some(d1) => t_rot1 == Some(d1) || (t_rot1 is None && !w1.direction),
        None => true,
    });
    assert(match e_pos1 {
        Some(p1) => t_pos1 == Some(p1) || (t_pos1 is None && !w1.position),
        None => true,
    });
    // A field in that state is a fixed point of its reconciliation step
    let flags2 = ChangeFlags {
        transform: w1.transform_rotation || w1.transform_translation,
        rotation: w1.rotation,
        direction: w1.direction,
        position: w1.position,
    };
    if e_rot1 is Some {
        lemma_angle_step_noop(t_rot1, e_rot1->0, flags2.rotation, flags2.transform);
    }
    if e_dir1 is Some {
        lemma_angle_step_noop(t_rot1, e_dir1->0, flags2.direction, flags2.transform);
    }
    if e_pos1 is Some {
        lemma_pair_step_noop(t_pos1, e_pos1->0, flags2.position, flags2.transform);
    }
}

/// A reconciliation step whose component already agrees with its slot, or
/// whose slot is unreadable while the component did not change, writes
/// nothing and changes nothing
proof fn lemma_angle_step_noop(slot: Option<int>, value: int, value_changed: bool, transform_changed: bool)
    requires
        slot == Some(value) || (slot is None && !value_changed),
    ensures
        sync_angle_step(slot, value, value_changed, transform_changed) == (
            slot,
            value,
            false,
            false,
        ),
{
}

/// The pair-valued analogue of [`lemma_angle_step_noop`]
proof fn lemma_pair_step_noop(
    slot: Option<(int, int)>,
    value: (int, int),
    value_changed: bool,
    transform_changed: bool,
)
    requires
        slot == Some(value) || (slot is None && !value_changed),
    ensures
        sync_pair_step(slot, value, value_changed, transform_changed) == (
            slot,
            value,
            false,
            false,
        ),
{
}

} // verus!
