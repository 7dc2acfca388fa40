//! The input router: turns the tick's pointer state into either a free drag
//! of the cab or a floor-click that retargets it.
//!
//! A drag wins over a click: while the primary button is held and the drag
//! started on the cab (the pointer position minus its per-frame delta lies
//! over the cab's bounding rectangle), the cab's position follows the
//! pointer directly, bypassing the motion controller. Otherwise a fresh
//! press scans the floors in stored order and sends the cab to the first
//! floor whose line is at or below the pointer; a press below every floor
//! changes nothing.

use vstd::prelude::*;

use crate::state::{Elevator, Floor, Rect, State};
use crate::units::{abs, PX, POS_LIMIT};

verus! {

/// The pointer state the windowing collaborator reports for one tick.
#[derive(Clone, Copy, Debug)]
pub struct Pointer {
    /// Current position.
    pub x: i64,
    pub y: i64,
    /// Movement since the previous tick.
    pub dx: i64,
    pub dy: i64,
    /// The primary button is held this tick.
    pub left_down: bool,
    /// The primary button went down this tick (not held over from before).
    pub left_pressed: bool,
}

impl Pointer {
    /// The pointer's coordinates stay inside the coordinate range.
    pub open spec fn in_bounds(self) -> bool {
        &&& abs(self.x as int) <= POS_LIMIT
        &&& abs(self.y as int) <= POS_LIMIT
        &&& abs(self.dx as int) <= POS_LIMIT
        &&& abs(self.dy as int) <= POS_LIMIT
    }
}

/// The pointer is dragging the cab: the button is held and the drag started
/// on the cab's bounding rectangle.
pub open spec fn drag_grabbed(e: Elevator, p: Pointer) -> bool {
    &&& p.left_down
    &&& (Rect {
        x: (50 * PX) as i64,
        y: e.y,
        width: (50 * PX) as i64,
        height: (80 * PX) as i64,
    }).spec_contains(p.x - p.dx, p.y - p.dy)
}

/// The first floor, in stored order starting at index `i`, whose line is at
/// or below the pointer's vertical position.
pub open spec fn first_floor_hit(floors: Seq<Floor>, py: int, i: int) -> Option<int>
    decreases floors.len() - i,
{
    if i < 0 || i >= floors.len() {
        None
    } else if floors[i].y >= py {
        Some(i)
    } else {
        first_floor_hit(floors, py, i + 1)
    }
}

/// Find the first floor at or below the pointer, in stored order.
pub fn find_first_floor(floors: &Vec<Floor>, py: i64) -> (r: Option<usize>)
    ensures
        match r {
            Some(k) => k < floors@.len() && first_floor_hit(floors@, py as int, 0) == Some(
                k as int,
            ),
            None => first_floor_hit(floors@, py as int, 0) is None,
        },
{
    let n = floors.len();
    let mut i: usize = 0;
    while i < n
        invariant
            i <= n,
            n == floors@.len(),
            first_floor_hit(floors@, py as int, 0) == first_floor_hit(floors@, py as int, i as int),
        decreases n - i,
    {
        if floors[i].y >= py {
            return Some(i);
        }
        i = i + 1;
    }
    None
}

/// One tick of the input router.
///
/// Exactly one of three things happens, in this order of precedence: a drag
/// moves the cab to 40 pixels above the pointer; a fresh press retargets
/// the cab to 78 pixels above the first floor at or below the pointer
/// (capturing the start-of-travel position, as `set_target` does); nothing
/// changes. Floors and figures are never touched.
pub fn controls(state: &mut State, p: &Pointer)
    requires
        old(state).wf(),
        p.in_bounds(),
    ensures
        final(state).floors@ == old(state).floors@,
        final(state).stick_figures@ == old(state).stick_figures@,
        drag_grabbed(old(state).elevator, *p) ==> final(state).elevator == (Elevator {
            y: (p.y - 40 * PX) as i64,
            ..old(state).elevator
        }),
        !drag_grabbed(old(state).elevator, *p) && p.left_pressed ==> match first_floor_hit(
            old(state).floors@,
            p.y as int,
            0,
        ) {
            Some(k) => final(state).elevator == (Elevator {
                y_old: old(state).elevator.y,
                y_target: Some((old(state).floors@[k].y - 78 * PX) as i64),
                ..old(state).elevator
            }),
            None => final(state).elevator == old(state).elevator,
        },
        !drag_grabbed(old(state).elevator, *p) && !p.left_pressed ==> final(state).elevator == old(
            state,
        ).elevator,
        final(state).elevator.wf(),
{
    let rect = state.elevator.rectangle();
    if p.left_down && rect.contains(p.x - p.dx, p.y - p.dy) {
        state.elevator.y = p.y - 40 * PX;
    } else if p.left_pressed {
        match find_first_floor(&state.floors, p.y) {
            Some(k) => {
                let floor_y = state.floors[k].y;
                state.elevator.set_target(floor_y - 78 * PX);
            },
            None => {},
        }
    }
}

/// A press below every floor selects nothing: when the pointer's vertical
/// position is past every floor line, no floor matches, and so — by the
/// contract of [`controls`] — the cab, its target included, is left exactly
/// as it was.
pub proof fn lemma_click_below_all_floors(floors: Seq<Floor>, py: int)
    requires
        forall|j: int| 0 <= j < floors.len() ==> (#[trigger] floors[j]).y < py,
    ensures
        first_floor_hit(floors, py, 0) is None,
{
    lemma_no_floor_hit_from(floors, py, 0);
}

/// No floor from index `i` on matches a pointer past every floor line.
proof fn lemma_no_floor_hit_from(floors: Seq<Floor>, py: int, i: int)
    requires
        forall|j: int| 0 <= j < floors.len() ==> (#[trigger] floors[j]).y < py,
    ensures
        first_floor_hit(floors, py, i) is None,
    decreases floors.len() - i,
{
    if 0 <= i < floors.len() {
        lemma_no_floor_hit_from(floors, py, i + 1);
    }
}

} // verus!
