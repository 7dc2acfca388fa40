//! One simulation tick over the whole world: the motion controller moves
//! the cab, then the animator advances every figure against the cab's *new*
//! position.

use vstd::prelude::*;

use crate::animator::{fig_stepped, step_figure};
use crate::motion::{step_elevator, stepped};
use crate::state::{State, StickFigure};

verus! {

/// Advance the world by one tick. `draws` supplies one random draw per
/// figure (each figure's spontaneous-turn lottery for this tick); the
/// caller draws them from its random source.
///
/// The cab steps exactly as [`stepped`] describes; every figure then steps
/// exactly as [`fig_stepped`] describes against the cab's new position and
/// its own draw. Floors never change.
#[verifier::loop_isolation(false)]
pub fn calculate(state: &mut State, draws: &Vec<i64>)
    requires
        old(state).wf(),
        draws@.len() == old(state).stick_figures@.len(),
    ensures
        stepped(old(state).elevator, final(state).elevator),
        final(state).elevator.wf(),
        final(state).floors@ == old(state).floors@,
        final(state).stick_figures@.len() == old(state).stick_figures@.len(),
        forall|i: int|
            0 <= i < old(state).stick_figures@.len() ==> fig_stepped(
                old(state).stick_figures@[i],
                #[trigger] final(state).stick_figures@[i],
                final(state).elevator.y as int,
                draws@[i] as int,
            ),
        forall|i: int|
            0 <= i < final(state).stick_figures@.len()
                ==> (#[trigger] final(state).stick_figures@[i]).wf(),
{
    step_elevator(&mut state.elevator);
    let cab_y = state.elevator.y;

    let n = state.stick_figures.len();
    let mut updated: Vec<StickFigure> = Vec::new();
    let mut i: usize = 0;
    while i < n
        invariant
            i <= n,
            updated@.len() == i,
            forall|j: int|
                0 <= j < i ==> fig_stepped(
                    state.stick_figures@[j],
                    #[trigger] updated@[j],
                    cab_y as int,
                    draws@[j] as int,
                ),
            forall|j: int| 0 <= j < i ==> (#[trigger] updated@[j]).wf(),
        decreases n - i,
    {
        let g = step_figure(&state.stick_figures[i], cab_y, draws[i]);
        updated.push(g);
        i = i + 1;
    }
    state.stick_figures = updated;
}

} // verus!
