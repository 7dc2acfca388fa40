//! The motion controller: moves the cab toward its target with a hand-tuned
//! piecewise deceleration curve, one tick at a time.
//!
//! The travel direction is fixed at the moment the target is set (the sign
//! of `y_target - y_old`), not recomputed from the current position. While
//! the cab is far from the target it accelerates by a constant; inside the
//! final 30 pixels a braking table keyed by the *total* trip length takes
//! over, so longer trips brake earlier and harder. The acceleration is
//! doubled whenever the cab is moving against the travel direction, the
//! velocity is clamped, and on crossing the target the cab stops dead where
//! it is (no snap) and the target is cleared.

use vstd::prelude::*;

use crate::state::Elevator;
use crate::units::{abs, sign, sign_i64, PX, POS_LIMIT, VEL_LIMIT};

verus! {

/// Acceleration applied while no braking bracket matches: 0.01 pixel per
/// tick per tick.
pub const ACCEL_BASE: i64 = 10_000;

/// The braking table: the acceleration for a trip of `total` length once the
/// cab is inside the braking zone. Each row is a hand-tuned constant; trips
/// of at most 30 pixels keep the base acceleration. First matching bracket
/// wins, upper bounds inclusive.
pub open spec fn brake_accel(total: int) -> int {
    if total <= 30 * PX {
        ACCEL_BASE as int
    } else if total <= 60 * PX {
        -500
    } else if total <= 80 * PX {
        -5_000
    } else if total <= 86 * PX {
        -17_500
    } else if total <= 120 * PX {
        -17_500
    } else if total <= 171 * PX {
        -30_125
    } else {
        -32_125
    }
}

/// The undirected acceleration for this tick: the braking table applies only
/// inside the last 30 pixels of travel, the base acceleration everywhere
/// else.
pub open spec fn raw_accel(total: int, current: int) -> int {
    if current < 30 * PX {
        brake_accel(total)
    } else {
        ACCEL_BASE as int
    }
}

/// The travel direction of the trip the cab is on: the sign of the target
/// minus the position at the moment the target was set. Zero when the trip
/// starts on the target, in which case no motion follows.
pub open spec fn travel_dir(e: Elevator, t: int) -> int {
    sign(t - e.y_old)
}

/// The signed acceleration the controller applies this tick: the raw value
/// oriented along the travel direction, doubled when the cab's current
/// velocity does not point that way.
pub open spec fn directed_accel(e: Elevator, t: int) -> int {
    let oriented = raw_accel(abs(e.y_old - t), abs(e.y - t)) * travel_dir(e, t);
    if sign(e.y_velocity as int) != travel_dir(e, t) {
        oriented * 2
    } else {
        oriented
    }
}

/// Clamp a velocity to [-`VEL_LIMIT`, `VEL_LIMIT`].
pub open spec fn clamp_vel(v: int) -> int {
    if v > VEL_LIMIT {
        VEL_LIMIT as int
    } else if v < -VEL_LIMIT {
        -(VEL_LIMIT as int)
    } else {
        v
    }
}

/// The cab's velocity after this tick's acceleration and clamp.
pub open spec fn vel_after(e: Elevator, t: int) -> int {
    clamp_vel(e.y_velocity + directed_accel(e, t))
}

/// The cab's position after this tick.
pub open spec fn y_after(e: Elevator, t: int) -> int {
    e.y + vel_after(e, t)
}

/// The cab reaches (or crosses) the target this tick: its new position is at
/// or past the target along the travel direction.
pub open spec fn arrives(e: Elevator, t: int) -> bool {
    ||| travel_dir(e, t) == 1 && y_after(e, t) >= t
    ||| travel_dir(e, t) == -1 && y_after(e, t) <= t
}

/// The full effect of one controller tick: an idle cab is left untouched; a
/// cab with a target moves by its new clamped velocity, and on arrival stops
/// where it is and forgets the target.
pub open spec fn stepped(pre: Elevator, post: Elevator) -> bool {
    match pre.y_target {
        None => post == pre,
        Some(t) => {
            &&& post.y_old == pre.y_old
            &&& post.door == pre.door
            &&& post.y == y_after(pre, t as int)
            &&& post.y_velocity == (if arrives(pre, t as int) {
                0
            } else {
                vel_after(pre, t as int)
            })
            &&& post.y_target == (if arrives(pre, t as int) {
                None::<i64>
            } else {
                Some(t)
            })
        },
    }
}

/// One tick of the motion controller.
///
/// With no target this is a pure no-op. With a target, the cab's velocity
/// and position advance exactly as [`stepped`] describes, and the velocity
/// stays clamped to [-`VEL_LIMIT`, `VEL_LIMIT`] whatever the pre-state.
pub fn step_elevator(e: &mut Elevator)
    requires
        old(e).wf(),
        old(e).in_bounds(),
    ensures
        stepped(*old(e), *final(e)),
        old(e).y_target is None ==> *final(e) == *old(e),
        -VEL_LIMIT <= final(e).y_velocity <= VEL_LIMIT,
        final(e).wf(),
        final(e).y_old == old(e).y_old,
        final(e).door == old(e).door,
        abs(final(e).y as int) <= POS_LIMIT + VEL_LIMIT,
{
    if let Some(t) = e.y_target {
        let dir = sign_i64(t - e.y_old);
        let total = if e.y_old - t < 0 {
            t - e.y_old
        } else {
            e.y_old - t
        };
        let current = if e.y - t < 0 {
            t - e.y
        } else {
            e.y - t
        };

        let mut a: i64 = ACCEL_BASE;
        if current < 30 * PX && total > 30 * PX {
            a = if total <= 60 * PX {
                -500
            } else if total <= 80 * PX {
                -5_000
            } else if total <= 86 * PX {
                -17_500
            } else if total <= 120 * PX {
                -17_500
            } else if total <= 171 * PX {
                -30_125
            } else {
                -32_125
            };
        }

        if dir == 0 {
            a = 0;
        } else if dir == -1 {
            a = -a;
        }
        if sign_i64(e.y_velocity) != dir {
            a = a * 2;
        }

        let mut v = e.y_velocity + a;
        if v > VEL_LIMIT {
            v = VEL_LIMIT;
        } else if v < -VEL_LIMIT {
            v = -VEL_LIMIT;
        }
        e.y_velocity = v;
        e.y = e.y + v;

        if (dir == 1 && e.y >= t) || (dir == -1 && e.y <= t) {
            e.y_velocity = 0;
            e.y_target = None;
        }
    }
}

/// A trip of no more than 30 pixels never engages the braking table: the
/// controller applies the base acceleration whatever the remaining distance.
pub proof fn lemma_short_trip_keeps_base_accel(total: int, current: int)
    requires
        0 <= total <= 30 * PX,
    ensures
        raw_accel(total, current) == ACCEL_BASE,
{
}

} // verus!
