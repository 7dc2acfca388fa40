//! The renderer: a pure, read-only projection of the world to drawing
//! primitives. Nothing here affects the simulation; the frame loop hands
//! the produced commands to the windowing collaborator to rasterize.
//!
//! Commands carry the same fixed-point coordinates as the world (see
//! [`PX`]); the consumer divides by [`PX`] when it talks to the screen.

use vstd::prelude::*;

use crate::state::{Elevator, Floor, State, StickFigure};
use crate::units::PX;

verus! {

/// An RGBA color, one byte per channel.
#[derive(Clone, Copy, Debug)]
pub struct Rgba {
    pub r: u8,
    pub g: u8,
    pub b: u8,
    pub a: u8,
}

/// One drawing primitive, in fixed-point coordinates.
#[derive(Clone, Copy, Debug)]
pub enum DrawCmd {
    /// Fill the whole frame with one color.
    Clear { color: Rgba },
    /// A filled triangle.
    Triangle { x1: i64, y1: i64, x2: i64, y2: i64, x3: i64, y3: i64, color: Rgba },
    /// A rectangle outline with the given stroke width.
    RectLines { x: i64, y: i64, width: i64, height: i64, thickness: i64, color: Rgba },
    /// A straight line with the given stroke width.
    Line { x1: i64, y1: i64, x2: i64, y2: i64, thickness: i64, color: Rgba },
    /// A filled circle.
    Circle { x: i64, y: i64, radius: i64, color: Rgba },
}

pub open spec fn black() -> Rgba {
    Rgba { r: 0, g: 0, b: 0, a: 255 }
}

pub open spec fn white() -> Rgba {
    Rgba { r: 255, g: 255, b: 255, a: 255 }
}

pub open spec fn orange() -> Rgba {
    Rgba { r: 255, g: 161, b: 0, a: 255 }
}

pub open spec fn white_smoke() -> Rgba {
    Rgba { r: 245, g: 245, b: 245, a: 255 }
}

pub open spec fn light_steel_blue() -> Rgba {
    Rgba { r: 176, g: 196, b: 222, a: 255 }
}

/// The cab's four primitives: the light fixture, the outline, the control
/// panel, and the door blackout, whose length follows the door openness.
pub open spec fn elevator_cmds(e: Elevator) -> Seq<DrawCmd> {
    seq![
        DrawCmd::Triangle {
            x1: (65 * PX) as i64,
            y1: (e.y + 12 * PX) as i64,
            x2: (85 * PX) as i64,
            y2: (e.y + 12 * PX) as i64,
            x3: (75 * PX) as i64,
            y3: (e.y + 4 * PX) as i64,
            color: orange(),
        },
        DrawCmd::RectLines {
            x: (50 * PX) as i64,
            y: e.y,
            width: (50 * PX) as i64,
            height: (80 * PX) as i64,
            thickness: (5 * PX) as i64,
            color: white_smoke(),
        },
        DrawCmd::Line {
            x1: (53 * PX) as i64,
            y1: (e.y + 35 * PX) as i64,
            x2: (53 * PX) as i64,
            y2: (e.y + 60 * PX) as i64,
            thickness: (2 * PX) as i64,
            color: light_steel_blue(),
        },
        DrawCmd::Line {
            x1: (97 * PX) as i64,
            y1: (e.y + 17 * PX) as i64,
            x2: (97 * PX) as i64,
            y2: (e.y + 17 * PX + 58 * e.door) as i64,
            thickness: (6 * PX) as i64,
            color: black(),
        },
    ]
}

/// A floor's one primitive: its line across the walkable area.
pub open spec fn floor_cmd(f: Floor) -> DrawCmd {
    DrawCmd::Line {
        x1: (102 * PX) as i64,
        y1: f.y,
        x2: (768 * PX) as i64,
        y2: f.y,
        thickness: (5 * PX) as i64,
        color: white(),
    }
}

/// How far the arms swing forward in the given walking phase, in pixels.
pub open spec fn arm_swing(walk: Option<i8>) -> int {
    match walk {
        Some(w) => if w < 7 {
            4
        } else if w < 15 {
            2
        } else {
            0
        },
        None => 0,
    }
}

/// How far the legs swing forward in the given walking phase, in pixels.
pub open spec fn leg_swing(walk: Option<i8>) -> int {
    match walk {
        Some(w) => if w < 7 {
            2
        } else if w < 15 {
            4
        } else {
            0
        },
        None => 0,
    }
}

/// A figure's seven primitives: head outline and fill, body, two arms and
/// two legs, the limbs swung by the walking phase.
pub open spec fn figure_cmds(f: StickFigure) -> Seq<DrawCmd> {
    let cb = f.y + 7 * PX;
    let arm = arm_swing(f.walking_state);
    let leg = leg_swing(f.walking_state);
    seq![
        DrawCmd::Circle { x: f.x, y: f.y, radius: (7 * PX) as i64, color: white() },
        DrawCmd::Circle { x: f.x, y: f.y, radius: (5 * PX) as i64, color: black() },
        DrawCmd::Line {
            x1: f.x,
            y1: cb as i64,
            x2: f.x,
            y2: (cb + 15 * PX) as i64,
            thickness: (2 * PX) as i64,
            color: white(),
        },
        DrawCmd::Line {
            x1: f.x,
            y1: (cb + 2 * PX) as i64,
            x2: (f.x - 7 * PX + arm * PX) as i64,
            y2: (cb + 12 * PX + arm * PX) as i64,
            thickness: (2 * PX) as i64,
            color: white(),
        },
        DrawCmd::Line {
            x1: f.x,
            y1: (cb + 2 * PX) as i64,
            x2: (f.x + 7 * PX - arm * PX) as i64,
            y2: (cb + 12 * PX + arm * PX) as i64,
            thickness: (2 * PX) as i64,
            color: white(),
        },
        DrawCmd::Line {
            x1: f.x,
            y1: (cb + 15 * PX) as i64,
            x2: (f.x - 7 * PX + leg * PX) as i64,
            y2: (cb + 24 * PX + leg * PX) as i64,
            thickness: (2 * PX) as i64,
            color: white(),
        },
        DrawCmd::Line {
            x1: f.x,
            y1: (cb + 15 * PX) as i64,
            x2: (f.x + 7 * PX - leg * PX) as i64,
            y2: (cb + 24 * PX + leg * PX) as i64,
            thickness: (2 * PX) as i64,
            color: white(),
        },
    ]
}

/// The primitives of the first `n` floors, in stored order.
pub open spec fn floors_cmds(floors: Seq<Floor>, n: int) -> Seq<DrawCmd>
    decreases n,
{
    if n <= 0 {
        Seq::empty()
    } else {
        floors_cmds(floors, n - 1).push(floor_cmd(floors[n - 1]))
    }
}

/// The primitives of the first `n` figures, in stored order.
pub open spec fn figures_cmds(figs: Seq<StickFigure>, n: int) -> Seq<DrawCmd>
    decreases n,
{
    if n <= 0 {
        Seq::empty()
    } else {
        figures_cmds(figs, n - 1) + figure_cmds(figs[n - 1])
    }
}

/// The whole frame: clear to black, then the cab, every floor, and every
/// figure, in draw order.
pub open spec fn scene_cmds(s: State) -> Seq<DrawCmd> {
    seq![DrawCmd::Clear { color: black() }] + elevator_cmds(s.elevator) + floors_cmds(
        s.floors@,
        s.floors@.len() as int,
    ) + figures_cmds(s.stick_figures@, s.stick_figures@.len() as int)
}

/// Append the cab's primitives.
pub fn draw_elevator(cmds: &mut Vec<DrawCmd>, e: &Elevator)
    requires
        e.wf(),
        e.in_bounds(),
    ensures
        final(cmds)@ == old(cmds)@ + elevator_cmds(*e),
{
    let pos_y = e.y;
    cmds.push(
        DrawCmd::Triangle {
            x1: 65 * PX,
            y1: pos_y + 12 * PX,
            x2: 85 * PX,
            y2: pos_y + 12 * PX,
            x3: 75 * PX,
            y3: pos_y + 4 * PX,
            color: Rgba { r: 255, g: 161, b: 0, a: 255 },
        },
    );
    cmds.push(
        DrawCmd::RectLines {
            x: 50 * PX,
            y: pos_y,
            width: 50 * PX,
            height: 80 * PX,
            thickness: 5 * PX,
            color: Rgba { r: 245, g: 245, b: 245, a: 255 },
        },
    );
    cmds.push(
        DrawCmd::Line {
            x1: 53 * PX,
            y1: pos_y + 35 * PX,
            x2: 53 * PX,
            y2: pos_y + 60 * PX,
            thickness: 2 * PX,
            color: Rgba { r: 176, g: 196, b: 222, a: 255 },
        },
    );
    cmds.push(
        DrawCmd::Line {
            x1: 97 * PX,
            y1: pos_y + 17 * PX,
            x2: 97 * PX,
            y2: pos_y + 17 * PX + 58 * e.door,
            thickness: 6 * PX,
            color: Rgba { r: 0, g: 0, b: 0, a: 255 },
        },
    );
    assert(cmds@ =~= old(cmds)@ + elevator_cmds(*e));
}

/// Append a floor's primitive.
pub fn draw_floor(cmds: &mut Vec<DrawCmd>, f: &Floor)
    ensures
        final(cmds)@ == old(cmds)@.push(floor_cmd(*f)),
{
    cmds.push(
        DrawCmd::Line {
            x1: 102 * PX,
            y1: f.y,
            x2: 768 * PX,
            y2: f.y,
            thickness: 5 * PX,
            color: Rgba { r: 255, g: 255, b: 255, a: 255 },
        },
    );
}

/// Append a figure's primitives.
pub fn draw_stick_figure(cmds: &mut Vec<DrawCmd>, f: &StickFigure)
    requires
        f.in_bounds(),
    ensures
        final(cmds)@ == old(cmds)@ + figure_cmds(*f),
{
    let x_center = f.x;
    let circle_bottom_y = f.y + 7 * PX;
    let white = Rgba { r: 255, g: 255, b: 255, a: 255 };

    let arm: i64 = match f.walking_state {
        Some(w) => if w < 7 {
            4
        } else if w < 15 {
            2
        } else {
            0
        },
        None => 0,
    };
    let leg: i64 = match f.walking_state {
        Some(w) => if w < 7 {
            2
        } else if w < 15 {
            4
        } else {
            0
        },
        None => 0,
    };

    cmds.push(
        DrawCmd::Circle { x: f.x, y: f.y, radius: 7 * PX, color: white },
    );
    cmds.push(
        DrawCmd::Circle { x: f.x, y: f.y, radius: 5 * PX, color: Rgba { r: 0, g: 0, b: 0, a: 255 } },
    );
    cmds.push(
        DrawCmd::Line {
            x1: x_center,
            y1: circle_bottom_y,
            x2: x_center,
            y2: circle_bottom_y + 15 * PX,
            thickness: 2 * PX,
            color: white,
        },
    );
    cmds.push(
        DrawCmd::Line {
            x1: x_center,
            y1: circle_bottom_y + 2 * PX,
            x2: x_center - 7 * PX + arm * PX,
            y2: circle_bottom_y + 12 * PX + arm * PX,
            thickness: 2 * PX,
            color: white,
        },
    );
    cmds.push(
        DrawCmd::Line {
            x1: x_center,
            y1: circle_bottom_y + 2 * PX,
            x2: x_center + 7 * PX - arm * PX,
            y2: circle_bottom_y + 12 * PX + arm * PX,
            thickness: 2 * PX,
            color: white,
        },
    );
    cmds.push(
        DrawCmd::Line {
            x1: x_center,
            y1: circle_bottom_y + 15 * PX,
            x2: x_center - 7 * PX + leg * PX,
            y2: circle_bottom_y + 24 * PX + leg * PX,
            thickness: 2 * PX,
            color: white,
        },
    );
    cmds.push(
        DrawCmd::Line {
            x1: x_center,
            y1: circle_bottom_y + 15 * PX,
            x2: x_center + 7 * PX - leg * PX,
            y2: circle_bottom_y + 24 * PX + leg * PX,
            thickness: 2 * PX,
            color: white,
        },
    );
    assert(cmds@ =~= old(cmds)@ + figure_cmds(*f));
}

/// Project the whole world to its frame of primitives.
#[verifier::loop_isolation(false)]
pub fn draw(state: &State) -> (cmds: Vec<DrawCmd>)
    requires
        state.wf(),
    ensures
        cmds@ == scene_cmds(*state),
{
    let mut cmds: Vec<DrawCmd> = Vec::new();
    cmds.push(DrawCmd::Clear { color: Rgba { r: 0, g: 0, b: 0, a: 255 } });
    draw_elevator(&mut cmds, &state.elevator);

    let ghost head = cmds@;
    assert(head =~= seq![DrawCmd::Clear { color: black() }] + elevator_cmds(state.elevator));

    let n_floors = state.floors.len();
    let mut i: usize = 0;
    assert(cmds@ =~= head + floors_cmds(state.floors@, 0));
    while i < n_floors
        invariant
            i <= n_floors,
            cmds@ == head + floors_cmds(state.floors@, i as int),
        decreases n_floors - i,
    {
        draw_floor(&mut cmds, &state.floors[i]);
        assert(cmds@ =~= head + floors_cmds(state.floors@, i + 1));
        i = i + 1;
    }

    let ghost mid = cmds@;
    let n_figs = state.stick_figures.len();
    let mut j: usize = 0;
    assert(cmds@ =~= mid + figures_cmds(state.stick_figures@, 0));
    while j < n_figs
        invariant
            j <= n_figs,
            cmds@ == mid + figures_cmds(state.stick_figures@, j as int),
        decreases n_figs - j,
    {
        draw_stick_figure(&mut cmds, &state.stick_figures[j]);
        assert(cmds@ =~= mid + figures_cmds(state.stick_figures@, j + 1));
        j = j + 1;
    }

    assert(cmds@ =~= scene_cmds(*state));
    cmds
}

} // verus!
