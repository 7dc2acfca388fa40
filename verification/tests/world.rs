use elevator_sim::{
    calculate, controls, draw, step_figure, DrawCmd, Elevator, Pointer, State, StickFigure, PX,
};

fn cab_at(y: i64) -> Elevator {
    Elevator { y_old: 0, y_target: None, y_velocity: 0, y, door: PX }
}

fn pointer(x: i64, y: i64) -> Pointer {
    Pointer { x, y, dx: 0, dy: 0, left_down: false, left_pressed: false }
}

#[test]
fn walking_cycle_wraps_at_thirty() {
    let f = StickFigure {
        x: 150 * PX,
        y: 400 * PX,
        walking_state: Some(29),
        walking_direction: 1,
        in_elevator: false,
    };
    let g = step_figure(&f, 0, 0);
    assert_eq!(g.walking_state, Some(0));
}

#[test]
fn walking_cycle_advances_by_one() {
    let f = StickFigure {
        x: 150 * PX,
        y: 400 * PX,
        walking_state: Some(7),
        walking_direction: 1,
        in_elevator: false,
    };
    let g = step_figure(&f, 0, 0);
    assert_eq!(g.walking_state, Some(8));
}

#[test]
fn standing_figure_stays_standing() {
    let f = StickFigure {
        x: 150 * PX,
        y: 400 * PX,
        walking_state: None,
        walking_direction: 1,
        in_elevator: false,
    };
    let g = step_figure(&f, 0, 0);
    assert_eq!(g.walking_state, None);
    assert_eq!(g.x, 151 * PX);
    assert_eq!(g.y, 400 * PX);
}

#[test]
fn rider_teleports_to_cab_interior() {
    // A rider is put at the cab interior (x 75 px, y cab + 44 px) whatever
    // its prior position; the unconditional walking step then shifts x by
    // one pixel.
    let f = StickFigure {
        x: 999 * PX,
        y: -3 * PX,
        walking_state: None,
        walking_direction: 1,
        in_elevator: true,
    };
    let g = step_figure(&f, 200 * PX, 0);
    assert_eq!(g.y, 200 * PX + 44 * PX);
    assert_eq!(g.x, 75 * PX + PX);
    assert!(g.in_elevator);
    assert_eq!(g.walking_direction, 1);
}

#[test]
fn rider_never_reverses_at_bounds() {
    // x after the step is 74 px, far below the lower bound, but riders skip
    // the bound check.
    let f = StickFigure {
        x: 0,
        y: 0,
        walking_state: None,
        walking_direction: -1,
        in_elevator: true,
    };
    let g = step_figure(&f, 0, 10);
    assert_eq!(g.x, 75 * PX - PX);
    assert_eq!(g.walking_direction, -1);
}

#[test]
fn lower_bound_reflects_direction() {
    // At the lower bound 105 px walking left: after the step x is 104 px,
    // at or below the bound, so the direction reverses to +1.
    let f = StickFigure {
        x: 105 * PX,
        y: 400 * PX,
        walking_state: Some(0),
        walking_direction: -1,
        in_elevator: false,
    };
    let g = step_figure(&f, 0, 0);
    assert_eq!(g.x, 104 * PX);
    assert_eq!(g.walking_direction, 1);
}

#[test]
fn upper_bound_reflects_direction() {
    let f = StickFigure {
        x: 765 * PX,
        y: 400 * PX,
        walking_state: Some(0),
        walking_direction: 1,
        in_elevator: false,
    };
    let g = step_figure(&f, 0, 0);
    assert_eq!(g.x, 766 * PX);
    assert_eq!(g.walking_direction, -1);
}

#[test]
fn lucky_draw_reverses_direction_mid_area() {
    let f = StickFigure {
        x: 400 * PX,
        y: 400 * PX,
        walking_state: None,
        walking_direction: 1,
        in_elevator: false,
    };
    let g = step_figure(&f, 0, 10);
    assert_eq!(g.walking_direction, -1);
    let h = step_figure(&f, 0, 11);
    assert_eq!(h.walking_direction, 1);
}

#[test]
fn new_figure_stands_still() {
    let f = StickFigure::new(150 * PX, 410 * PX);
    assert_eq!(f.x, 150 * PX);
    assert_eq!(f.y, 410 * PX);
    assert_eq!(f.walking_state, None);
    assert_eq!(f.walking_direction, 1);
    assert!(!f.in_elevator);
}

#[test]
fn new_world_layout() {
    let s = State::new();
    assert_eq!(s.elevator.y, 50 * PX);
    assert_eq!(s.elevator.y_velocity, 0);
    assert!(s.elevator.y_target.is_none());
    assert_eq!(s.elevator.door, PX);
    let ys: Vec<i64> = s.floors.iter().map(|f| f.y).collect();
    let expect: Vec<i64> =
        vec![105, 190, 275, 360, 445, 530, 615].into_iter().map(|p| p * PX).collect();
    assert_eq!(ys, expect);
    assert!(s.stick_figures.is_empty());
}

#[test]
fn cab_rectangle_tracks_height() {
    let e = cab_at(123 * PX);
    let r = e.rectangle();
    assert_eq!(r.x, 50 * PX);
    assert_eq!(r.y, 123 * PX);
    assert_eq!(r.width, 50 * PX);
    assert_eq!(r.height, 80 * PX);
}

#[test]
fn drag_started_on_cab_moves_it_freely() {
    let mut s = State::new();
    // Pointer over the cab (cab spans x 50..100, y 50..130), button held,
    // no delta: the cab jumps to 40 px above the pointer.
    let p = Pointer {
        x: 60 * PX,
        y: 100 * PX,
        dx: 0,
        dy: 0,
        left_down: true,
        left_pressed: false,
    };
    controls(&mut s, &p);
    assert_eq!(s.elevator.y, 60 * PX);
    assert!(s.elevator.y_target.is_none());
}

#[test]
fn drag_accounts_for_pointer_delta() {
    let mut s = State::new();
    // The pointer is far from the cab now, but position minus delta is over
    // it: the drag started on the cab and still holds.
    let p = Pointer {
        x: 300 * PX,
        y: 300 * PX,
        dx: 240 * PX,
        dy: 200 * PX,
        left_down: true,
        left_pressed: false,
    };
    controls(&mut s, &p);
    assert_eq!(s.elevator.y, 260 * PX);
}

#[test]
fn drag_wins_over_fresh_press() {
    let mut s = State::new();
    let p = Pointer {
        x: 60 * PX,
        y: 100 * PX,
        dx: 0,
        dy: 0,
        left_down: true,
        left_pressed: true,
    };
    controls(&mut s, &p);
    assert_eq!(s.elevator.y, 60 * PX);
    assert!(s.elevator.y_target.is_none());
}

#[test]
fn click_targets_first_floor_at_or_below_pointer() {
    let mut s = State::new();
    // Pointer y 300 px: floors are 105, 190, 275, 360, ... and the first
    // whose line is at or below (>=) is 360; target is 78 px above it.
    let p = Pointer { left_pressed: true, ..pointer(400 * PX, 300 * PX) };
    controls(&mut s, &p);
    assert_eq!(s.elevator.y_target, Some((360 - 78) * PX));
    assert_eq!(s.elevator.y_old, 50 * PX);
    assert_eq!(s.elevator.y, 50 * PX);
}

#[test]
fn click_exactly_on_floor_line_matches_it() {
    let mut s = State::new();
    let p = Pointer { left_pressed: true, ..pointer(400 * PX, 105 * PX) };
    controls(&mut s, &p);
    assert_eq!(s.elevator.y_target, Some((105 - 78) * PX));
}

#[test]
fn click_below_all_floors_changes_nothing() {
    let mut s = State::new();
    s.elevator.set_target(282 * PX);
    // Pointer below the lowest floor line (615 px): no floor matches, the
    // pending target stays.
    let p = Pointer { left_pressed: true, ..pointer(400 * PX, 700 * PX) };
    controls(&mut s, &p);
    assert_eq!(s.elevator.y_target, Some(282 * PX));
    assert_eq!(s.elevator.y_old, 50 * PX);
    assert_eq!(s.elevator.y, 50 * PX);
}

#[test]
fn no_input_changes_nothing() {
    let mut s = State::new();
    let p = pointer(400 * PX, 300 * PX);
    controls(&mut s, &p);
    assert_eq!(s.elevator.y, 50 * PX);
    assert!(s.elevator.y_target.is_none());
}

#[test]
fn calculate_moves_cab_then_figures_against_new_height() {
    let mut s = State::new();
    s.elevator.set_target(358 * PX);
    s.stick_figures.push(StickFigure {
        x: 0,
        y: 0,
        walking_state: None,
        walking_direction: 1,
        in_elevator: true,
    });
    s.stick_figures.push(StickFigure {
        x: 150 * PX,
        y: 410 * PX,
        walking_state: Some(0),
        walking_direction: 1,
        in_elevator: false,
    });
    calculate(&mut s, &vec![0, 0]);
    // The cab moved first (doubled base acceleration from rest)...
    assert_eq!(s.elevator.y, 50 * PX + 20_000);
    // ...and the rider tracks the *new* height.
    assert_eq!(s.stick_figures[0].y, s.elevator.y + 44 * PX);
    assert_eq!(s.stick_figures[0].x, 76 * PX);
    // The walker advances its cycle and position.
    assert_eq!(s.stick_figures[1].walking_state, Some(1));
    assert_eq!(s.stick_figures[1].x, 151 * PX);
    assert_eq!(s.stick_figures[1].y, 410 * PX);
}

#[test]
fn calculate_on_empty_world_only_moves_cab() {
    let mut s = State::new();
    calculate(&mut s, &vec![]);
    assert_eq!(s.elevator.y, 50 * PX);
    assert!(s.stick_figures.is_empty());
}

#[test]
fn scene_has_clear_cab_floors_and_figures() {
    let mut s = State::new();
    s.stick_figures.push(StickFigure {
        x: 150 * PX,
        y: 410 * PX,
        walking_state: Some(3),
        walking_direction: 1,
        in_elevator: false,
    });
    let cmds = draw(&s);
    // 1 clear + 4 cab primitives + 7 floors + 7 per figure.
    assert_eq!(cmds.len(), 1 + 4 + 7 + 7);
    match cmds[0] {
        DrawCmd::Clear { color } => {
            assert_eq!((color.r, color.g, color.b, color.a), (0, 0, 0, 255));
        }
        _ => panic!("first command must clear the frame"),
    }
    // The door blackout follows the door openness: fully open here.
    match cmds[4] {
        DrawCmd::Line { x1, y1, x2, y2, thickness, .. } => {
            assert_eq!(x1, 97 * PX);
            assert_eq!(x2, 97 * PX);
            assert_eq!(y1, 50 * PX + 17 * PX);
            assert_eq!(y2, 50 * PX + 17 * PX + 58 * PX);
            assert_eq!(thickness, 6 * PX);
        }
        _ => panic!("fifth command must be the door line"),
    }
    // The first floor line sits at 105 px.
    match cmds[5] {
        DrawCmd::Line { x1, y1, x2, y2, .. } => {
            assert_eq!((x1, x2), (102 * PX, 768 * PX));
            assert_eq!((y1, y2), (105 * PX, 105 * PX));
        }
        _ => panic!("sixth command must be a floor line"),
    }
    // The figure's head: a white circle of 7 px at its position, then the
    // black fill of 5 px.
    match (cmds[12], cmds[13]) {
        (
            DrawCmd::Circle { x, y, radius, .. },
            DrawCmd::Circle { radius: inner, .. },
        ) => {
            assert_eq!((x, y), (150 * PX, 410 * PX));
            assert_eq!(radius, 7 * PX);
            assert_eq!(inner, 5 * PX);
        }
        _ => panic!("head circles expected"),
    }
}

#[test]
fn walking_phase_swings_the_limbs() {
    // Phase 3 (< 7): arms swing 4 px, legs 2 px.
    let mut s = State::new();
    s.stick_figures.push(StickFigure {
        x: 150 * PX,
        y: 410 * PX,
        walking_state: Some(3),
        walking_direction: 1,
        in_elevator: false,
    });
    let cmds = draw(&s);
    // First arm: start at (x, cb + 2), end at (x - 7 + 4, cb + 12 + 4).
    let cb = 410 * PX + 7 * PX;
    match cmds[15] {
        DrawCmd::Line { x1, y1, x2, y2, .. } => {
            assert_eq!((x1, y1), (150 * PX, cb + 2 * PX));
            assert_eq!((x2, y2), (150 * PX - 3 * PX, cb + 16 * PX));
        }
        _ => panic!("arm line expected"),
    }
    // First leg: start at (x, cb + 15), end at (x - 7 + 2, cb + 24 + 2).
    match cmds[17] {
        DrawCmd::Line { x1, y1, x2, y2, .. } => {
            assert_eq!((x1, y1), (150 * PX, cb + 15 * PX));
            assert_eq!((x2, y2), (150 * PX - 5 * PX, cb + 26 * PX));
        }
        _ => panic!("leg line expected"),
    }
}
