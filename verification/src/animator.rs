//! The actor animator: advances every stick figure one tick.
//!
//! A figure riding the elevator is teleported to the cab interior before
//! anything else. The walking-cycle counter, when present, advances modulo
//! 30. The walking direction is added to the horizontal position on every
//! tick — even while riding, so riders drift one step sideways per tick (a
//! deliberate quirk of the simulation). A figure on foot reverses direction
//! on reaching either horizontal bound, or spontaneously when this tick's
//! random draw hits one specific value.

use vstd::prelude::*;

use crate::state::StickFigure;
use crate::units::{abs, PX, POS_LIMIT, VEL_LIMIT};

verus! {

/// The random draw value (out of 0..200) on which a figure on foot
/// spontaneously turns around.
pub const FLIP_DRAW: i64 = 10;

/// Where the figure stands horizontally after the teleport phase: riders are
/// put at the cab interior, figures on foot stay where they are.
pub open spec fn placed_x(f: StickFigure) -> int {
    if f.in_elevator {
        75 * PX
    } else {
        f.x as int
    }
}

/// The figure's horizontal position after the tick: the teleport phase
/// followed by one walking step.
pub open spec fn fig_x_after(f: StickFigure) -> int {
    placed_x(f) + f.walking_direction * PX
}

/// The figure's vertical position after the tick: riders track the cab
/// interior, 44 pixels below the cab's position; figures on foot do not
/// move vertically.
pub open spec fn fig_y_after(f: StickFigure, cab_y: int) -> int {
    if f.in_elevator {
        cab_y + 44 * PX
    } else {
        f.y as int
    }
}

/// The walking-cycle counter after the tick: one step around the cycle of
/// 30, or still absent.
pub open spec fn fig_walk_after(f: StickFigure) -> Option<i8> {
    match f.walking_state {
        Some(w) => Some((((w + 1) % 30) as i8)),
        None => None,
    }
}

/// The walking direction after the tick. Riders never turn. A figure on
/// foot turns on reaching either horizontal bound (105 and 765 pixels,
/// checked after the step), or else when the random draw hits
/// [`FLIP_DRAW`].
pub open spec fn fig_dir_after(f: StickFigure, draw: int) -> i8 {
    if f.in_elevator {
        f.walking_direction
    } else if fig_x_after(f) <= 105 * PX || fig_x_after(f) >= 765 * PX {
        (0 - f.walking_direction) as i8
    } else if draw == FLIP_DRAW {
        (0 - f.walking_direction) as i8
    } else {
        f.walking_direction
    }
}

/// The full effect of one animator tick on one figure.
pub open spec fn fig_stepped(pre: StickFigure, post: StickFigure, cab_y: int, draw: int) -> bool {
    &&& post.x == fig_x_after(pre)
    &&& post.y == fig_y_after(pre, cab_y)
    &&& post.walking_state == fig_walk_after(pre)
    &&& post.walking_direction == fig_dir_after(pre, draw)
    &&& post.in_elevator == pre.in_elevator
}

/// One animator tick for one figure, against the cab position `cab_y` and
/// this tick's random draw.
pub fn step_figure(f: &StickFigure, cab_y: i64, draw: i64) -> (g: StickFigure)
    requires
        f.wf(),
        f.in_bounds(),
        abs(cab_y as int) <= POS_LIMIT + VEL_LIMIT,
    ensures
        fig_stepped(*f, g, cab_y as int, draw as int),
        g.wf(),
{
    let mut x = f.x;
    let mut y = f.y;
    let mut dir = f.walking_direction;

    if f.in_elevator {
        y = cab_y + 44 * PX;
        x = 75 * PX;
    }

    let walking_state = match f.walking_state {
        Some(w) => Some((w + 1) % 30),
        None => None,
    };

    x = x + (dir as i64) * PX;

    if !f.in_elevator {
        if x <= 105 * PX || x >= 765 * PX {
            dir = -dir;
        } else if draw == FLIP_DRAW {
            dir = -dir;
        }
    }

    StickFigure { x, y, walking_state, walking_direction: dir, in_elevator: f.in_elevator }
}

/// A rider tracks the cab: after a tick, a figure riding the elevator
/// stands at the cab interior — 44 pixels below the cab position, and at 75
/// pixels horizontally plus the single walking step of that tick — with its
/// direction unchanged.
pub proof fn lemma_rider_tracks_cab(pre: StickFigure, post: StickFigure, cab_y: int, draw: int)
    requires
        pre.wf(),
        pre.in_elevator,
        fig_stepped(pre, post, cab_y, draw),
    ensures
        post.y == cab_y + 44 * PX,
        post.x == 75 * PX + pre.walking_direction * PX,
        post.walking_direction == pre.walking_direction,
        post.in_elevator,
{
}

} // verus!
