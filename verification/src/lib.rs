//! An animated elevator toy: a cab that glides between floors under a
//! hand-tuned piecewise deceleration curve, stick figures that wander the
//! floors and ride the cab, pointer-driven floor selection and dragging, and
//! a pure projection of the whole scene to drawing primitives.
//!
//! All coordinates, velocities and accelerations are fixed-point integers in
//! millionths of a pixel (see [`PX`]), so every rule of the simulation is
//! exact integer arithmetic.

pub mod animator;
pub mod input;
pub mod motion;
pub mod render;
pub mod state;
pub mod tick;
pub mod units;

pub use animator::{step_figure, FLIP_DRAW};
pub use input::{controls, find_first_floor, Pointer};
pub use motion::{step_elevator, ACCEL_BASE};
pub use render::{draw, draw_elevator, draw_floor, draw_stick_figure, DrawCmd, Rgba};
pub use state::{Elevator, Floor, Rect, State, StickFigure};
pub use tick::calculate;
pub use units::{PX, POS_LIMIT, VEL_LIMIT};
