//! The world state: the elevator cab, the fixed floors, and the stick
//! figures that wander between them.

use vstd::prelude::*;

use crate::units::{abs, PX, POS_LIMIT, VEL_LIMIT};

verus! {

/// An axis-aligned rectangle, used for the cab's bounding box when deciding
/// whether a drag started on the elevator.
#[derive(Clone, Copy, Debug)]
pub struct Rect {
    pub x: i64,
    pub y: i64,
    pub width: i64,
    pub height: i64,
}

impl Rect {
    /// Every side of the rectangle stays inside the coordinate range the
    /// simulation works with.
    pub open spec fn in_bounds(self) -> bool {
        &&& abs(self.x as int) <= POS_LIMIT
        &&& abs(self.y as int) <= POS_LIMIT
        &&& 0 <= self.width <= POS_LIMIT
        &&& 0 <= self.height <= POS_LIMIT
    }

    /// A point is inside the rectangle, borders included.
    pub open spec fn spec_contains(self, px: int, py: int) -> bool {
        &&& self.x <= px <= self.x + self.width
        &&& self.y <= py <= self.y + self.height
    }

    /// Executable point-in-rectangle test.
    pub fn contains(&self, px: i64, py: i64) -> (r: bool)
        requires
            self.in_bounds(),
        ensures
            r == self.spec_contains(px as int, py as int),
    {
        self.x <= px && px <= self.x + self.width && self.y <= py && py <= self.y + self.height
    }
}

/// The elevator cab. All coordinates are fixed-point units ([`PX`] per
/// pixel); `y` grows downward as on screen.
#[derive(Clone, Copy, Debug)]
pub struct Elevator {
    /// Position at the moment the current target was set.
    pub y_old: i64,
    /// Destination, or `None` while idle.
    pub y_target: Option<i64>,
    /// Signed vertical speed per tick, clamped to [-`VEL_LIMIT`, `VEL_LIMIT`].
    pub y_velocity: i64,
    /// Current position.
    pub y: i64,
    /// Door openness, 0 (closed) to [`PX`] (fully open).
    pub door: i64,
}

impl Elevator {
    /// The cab's invariant: the velocity is clamped, an idle cab does not
    /// move, and the door openness is a fraction.
    pub open spec fn wf(self) -> bool {
        &&& -VEL_LIMIT <= self.y_velocity <= VEL_LIMIT
        &&& self.y_target is None ==> self.y_velocity == 0
        &&& 0 <= self.door <= PX
    }

    /// Every position the cab knows of stays inside the coordinate range.
    pub open spec fn in_bounds(self) -> bool {
        &&& abs(self.y as int) <= POS_LIMIT
        &&& abs(self.y_old as int) <= POS_LIMIT
        &&& (self.y_target matches Some(t) ==> abs(t as int) <= POS_LIMIT)
    }

    /// The cab's bounding rectangle: 50 by 80 pixels, 50 pixels from the
    /// left edge, at the cab's current height.
    pub fn rectangle(&self) -> (r: Rect)
        ensures
            r == (Rect {
                x: (50 * PX) as i64,
                y: self.y,
                width: (50 * PX) as i64,
                height: (80 * PX) as i64,
            }),
    {
        Rect { x: 50 * PX, y: self.y, width: 50 * PX, height: 80 * PX }
    }

    /// Request a new destination. The start-of-travel position is captured
    /// from the cab's position *now*, so retargeting mid-flight restarts the
    /// deceleration profile from the current position, never a stale one.
    pub fn set_target(&mut self, y: i64)
        ensures
            final(self).y_old == old(self).y,
            final(self).y_target == Some(y),
            final(self).y == old(self).y,
            final(self).y_velocity == old(self).y_velocity,
            final(self).door == old(self).door,
    {
        self.y_old = self.y;
        self.y_target = Some(y);
    }
}

/// A stick figure, possibly riding the elevator.
#[derive(Clone, Copy, Debug)]
pub struct StickFigure {
    /// Horizontal position.
    pub x: i64,
    /// Vertical position.
    pub y: i64,
    /// Walking-cycle counter, 0 to 29, or `None` while standing still.
    pub walking_state: Option<i8>,
    /// Signed unit step added to `x` every tick; 1 or -1.
    pub walking_direction: i8,
    /// While true, the figure is teleported to the cab interior every tick.
    pub in_elevator: bool,
}

impl StickFigure {
    /// The figure's invariant: the walking cycle stays inside its period and
    /// the direction is a signed unit step.
    pub open spec fn wf(self) -> bool {
        &&& (self.walking_state matches Some(w) ==> 0 <= w < 30)
        &&& (self.walking_direction == 1 || self.walking_direction == -1)
    }

    /// The figure's position stays inside the coordinate range.
    pub open spec fn in_bounds(self) -> bool {
        &&& abs(self.x as int) <= POS_LIMIT
        &&& abs(self.y as int) <= POS_LIMIT
    }

    /// A standing figure at the given position, walking rightward once its
    /// walking cycle is switched on.
    pub fn new(x: i64, y: i64) -> (f: StickFigure)
        ensures
            f == (StickFigure {
                x,
                y,
                walking_state: None::<i8>,
                walking_direction: 1i8,
                in_elevator: false,
            }),
    {
        StickFigure { x, y, walking_state: None, walking_direction: 1, in_elevator: false }
    }
}

/// A floor line the elevator can be sent to.
#[derive(Clone, Copy, Debug)]
pub struct Floor {
    /// The floor line's vertical position.
    pub y: i64,
}

/// The whole world: one elevator, the fixed floors (in stored order,
/// significant for floor-click matching), and the stick figures.
#[derive(Debug)]
pub struct State {
    pub elevator: Elevator,
    pub floors: Vec<Floor>,
    pub stick_figures: Vec<StickFigure>,
}

impl State {
    /// Everything in the world satisfies its invariant and stays inside the
    /// coordinate range.
    pub open spec fn wf(self) -> bool {
        &&& self.elevator.wf()
        &&& self.elevator.in_bounds()
        &&& (forall|i: int|
            0 <= i < self.floors@.len() ==> abs((#[trigger] self.floors@[i]).y as int)
                <= POS_LIMIT)
        &&& (forall|i: int|
            0 <= i < self.stick_figures@.len() ==> (#[trigger] self.stick_figures@[i]).wf()
                && self.stick_figures@[i].in_bounds())
    }

    /// The startup world: the cab idle at 50 pixels with an open door, seven
    /// evenly spaced floors at `idx * 85 + 20` pixels for `idx` 1 through 7,
    /// and no figures yet.
    pub fn new() -> (s: State)
        ensures
            s.elevator == (Elevator {
                y_old: 0i64,
                y_target: None::<i64>,
                y_velocity: 0i64,
                y: (50 * PX) as i64,
                door: PX,
            }),
            s.floors@.len() == 7,
            forall|i: int| 0 <= i < 7 ==> (#[trigger] s.floors@[i]).y == ((i + 1) * 85 + 20) * PX,
            s.stick_figures@.len() == 0,
            s.wf(),
    {
        let mut floors: Vec<Floor> = Vec::new();
        let mut idx: i64 = 1;
        while idx < 8
            invariant
                1 <= idx <= 8,
                floors@.len() == idx - 1,
                forall|i: int|
                    0 <= i < idx - 1 ==> (#[trigger] floors@[i]).y == ((i + 1) * 85 + 20) * PX,
            decreases 8 - idx,
        {
            floors.push(Floor { y: (idx * 85 + 20) * PX });
            idx = idx + 1;
        }
        let s = State {
            elevator: Elevator {
                y_old: 0,
                y_target: None,
                y_velocity: 0,
                y: 50 * PX,
                door: PX,
            },
            floors,
            stick_figures: Vec::new(),
        };
        assert forall|i: int| 0 <= i < s.floors@.len() implies abs(
            (#[trigger] s.floors@[i]).y as int,
        ) <= POS_LIMIT by {
            assert(s.floors@[i].y == ((i + 1) * 85 + 20) * PX);
        }
        s
    }
}

} // verus!
