//! Input handling: keyboard events set turn rates, toggle the animation and
//! request reload or quit; mouse drags accumulate yaw and pitch deltas from
//! pixel motion since the previous sample. Angles and the animation phase
//! are fixed-point accumulators; additions clip at the ends of the `i64`
//! range (far beyond any reachable state) so that no update can panic.

use vstd::prelude::*;

verus! {

/// The per-frame turn rate while an arrow key is held: pi/200 in fixed
/// point.
pub const TURN_STEP: i64 = 1029;

/// The yaw/pitch delta per pixel of mouse drag: 1/100 radian in fixed
/// point.
pub const MOUSE_STEP: i64 = 655;

/// The animation phase advance per frame while the animation runs: 0.04 in
/// fixed point.
pub const ANIM_RATE: i64 = 2621;

/// The keys the viewer reacts to.
#[derive(Clone, Copy, Debug, PartialEq, Eq)]
pub enum Key {
    Left,
    Right,
    Up,
    Down,
    A,
    R,
    F5,
    Q,
}

/// Whether a key or button event is a press or a release.
#[derive(Clone, Copy, Debug, PartialEq, Eq)]
pub enum KeyState {
    Pressed,
    Released,
}

/// What the frame loop is asked to do next, beyond updating state.
#[derive(Clone, Copy, Debug, PartialEq, Eq)]
pub enum NextAction {
    Reload,
    Quit,
}

/// A mouse button, as far as the viewer distinguishes them.
#[derive(Clone, Copy, Debug, PartialEq, Eq)]
pub enum MouseButton {
    Left,
    Other,
}

/// The drag state: whether the primary button is held, and the last sampled
/// cursor position while it is (the drag reference).
#[derive(Clone, Copy, Debug, PartialEq, Eq)]
pub struct MouseState {
    pub left_pressed: bool,
    pub position: Option<(i32, i32)>,
}

/// Addition clipped to the `i64` range.
pub open spec fn sat64(v: int) -> int {
    if v > i64::MAX as int {
        i64::MAX as int
    } else if v < i64::MIN as int {
        i64::MIN as int
    } else {
        v
    }
}

/// Add two accumulators, clipping at the ends of the `i64` range.
pub fn sat_add_i64(a: i64, b: i64) -> (r: i64)
    ensures
        r == sat64(a + b),
{
    if b >= 0 {
        if a > i64::MAX - b {
            i64::MAX
        } else {
            a + b
        }
    } else {
        if a < i64::MIN - b {
            i64::MIN
        } else {
            a + b
        }
    }
}

/// The vertical turn rate after a key event.
pub open spec fn turn_rate_y_after(cur: i64, state: KeyState, vk: Option<Key>) -> int {
    match (vk, state) {
        (Some(Key::Right), KeyState::Pressed) => TURN_STEP as int,
        (Some(Key::Left), KeyState::Pressed) => -(TURN_STEP as int),
        (Some(Key::Right), KeyState::Released) => 0,
        (Some(Key::Left), KeyState::Released) => 0,
        _ => cur as int,
    }
}

/// The horizontal turn rate after a key event.
pub open spec fn turn_rate_x_after(cur: i64, state: KeyState, vk: Option<Key>) -> int {
    match (vk, state) {
        (Some(Key::Up), KeyState::Pressed) => TURN_STEP as int,
        (Some(Key::Down), KeyState::Pressed) => -(TURN_STEP as int),
        (Some(Key::Up), KeyState::Released) => 0,
        (Some(Key::Down), KeyState::Released) => 0,
        _ => cur as int,
    }
}

/// Whether the animation runs after a key event: releasing `A` toggles it.
pub open spec fn do_anim_after(cur: bool, state: KeyState, vk: Option<Key>) -> bool {
    match (vk, state) {
        (Some(Key::A), KeyState::Released) => !cur,
        _ => cur,
    }
}

/// The animation phase after a key event: releasing `R` resets it to zero.
pub open spec fn phase_after(cur: i64, state: KeyState, vk: Option<Key>) -> int {
    match (vk, state) {
        (Some(Key::R), KeyState::Released) => 0,
        _ => cur as int,
    }
}

/// The action a key event requests: pressing `F5` asks for a skin reload,
/// releasing `Q` asks to quit; nothing else requests anything.
pub open spec fn action_after(state: KeyState, vk: Option<Key>) -> Option<NextAction> {
    match (vk, state) {
        (Some(Key::F5), KeyState::Pressed) => Some(NextAction::Reload),
        (Some(Key::Q), KeyState::Released) => Some(NextAction::Quit),
        _ => None,
    }
}

/// Apply one keyboard event to the turn rates, the animation toggle and the
/// animation phase, and report the requested action, if any.
pub fn handle_input(
    turn_rate_y: &mut i64,
    turn_rate_x: &mut i64,
    do_anim: &mut bool,
    t: &mut i64,
    state: KeyState,
    vk_opt: &Option<Key>,
) -> (r: Option<NextAction>)
    ensures
        *final(turn_rate_y) == turn_rate_y_after(*old(turn_rate_y), state, *vk_opt),
        *final(turn_rate_x) == turn_rate_x_after(*old(turn_rate_x), state, *vk_opt),
        *final(do_anim) == do_anim_after(*old(do_anim), state, *vk_opt),
        *final(t) == phase_after(*old(t), state, *vk_opt),
        r == action_after(state, *vk_opt),
{
    let mut next_action: Option<NextAction> = None;
    match (*vk_opt, state) {
        (Some(Key::Right), KeyState::Pressed) => {
            *turn_rate_y = TURN_STEP;
        },
        (Some(Key::Left), KeyState::Pressed) => {
            *turn_rate_y = -TURN_STEP;
        },
        (Some(Key::Right), KeyState::Released) => {
            *turn_rate_y = 0;
        },
        (Some(Key::Left), KeyState::Released) => {
            *turn_rate_y = 0;
        },
        (Some(Key::Up), KeyState::Pressed) => {
            *turn_rate_x = TURN_STEP;
        },
        (Some(Key::Down), KeyState::Pressed) => {
            *turn_rate_x = -TURN_STEP;
        },
        (Some(Key::Up), KeyState::Released) => {
            *turn_rate_x = 0;
        },
        (Some(Key::Down), KeyState::Released) => {
            *turn_rate_x = 0;
        },
        (Some(Key::A), KeyState::Released) => {
            *do_anim = !*do_anim;
        },
        (Some(Key::R), KeyState::Released) => {
            *t = 0;
        },
        (Some(Key::F5), KeyState::Pressed) => {
            next_action = Some(NextAction::Reload);
        },
        (Some(Key::Q), KeyState::Released) => {
            next_action = Some(NextAction::Quit);
        },
        _ => {},
    }
    next_action
}

/// The drag state after a button event: pressing the primary button begins
/// a drag; releasing it ends the drag and clears the reference position.
pub open spec fn mouse_button_step(ms: MouseState, button: MouseButton, state: KeyState) -> MouseState {
    match (button, state) {
        (MouseButton::Left, KeyState::Pressed) => MouseState { left_pressed: true, ..ms },
        (MouseButton::Left, KeyState::Released) => MouseState {
            left_pressed: false,
            position: None,
        },
        _ => ms,
    }
}

/// Apply one mouse-button event to the drag state.
pub fn handle_mouse_button(button: MouseButton, state: KeyState, mouse_state: &mut MouseState)
    ensures
        *final(mouse_state) == mouse_button_step(*old(mouse_state), button, state),
{
    match (button, state) {
        (MouseButton::Left, KeyState::Pressed) => {
            mouse_state.left_pressed = true;
        },
        (MouseButton::Left, KeyState::Released) => {
            mouse_state.left_pressed = false;
            mouse_state.position = None;
        },
        _ => {},
    }
}

/// The drag state after a motion sample: while the button is held the
/// sample becomes the new reference position; otherwise nothing changes.
pub open spec fn mouse_motion_state(pos: (i32, i32), ms: MouseState) -> MouseState {
    if ms.left_pressed {
        MouseState { left_pressed: true, position: Some(pos) }
    } else {
        ms
    }
}

/// The yaw angle after a motion sample: each pixel of horizontal motion
/// since the reference position adds `MOUSE_STEP`. The first sample of a
/// drag, and any sample outside one, moves nothing.
pub open spec fn mouse_motion_angle_y(pos: (i32, i32), ms: MouseState, angle_y: i64) -> int {
    match (ms.left_pressed, ms.position) {
        (true, Some(p)) => sat64(angle_y + (pos.0 - p.0) * (MOUSE_STEP as int)),
        _ => angle_y as int,
    }
}

/// The pitch angle after a motion sample: each pixel of vertical motion
/// since the reference position subtracts `MOUSE_STEP`.
pub open spec fn mouse_motion_angle_x(pos: (i32, i32), ms: MouseState, angle_x: i64) -> int {
    match (ms.left_pressed, ms.position) {
        (true, Some(p)) => sat64(angle_x - (pos.1 - p.1) * (MOUSE_STEP as int)),
        _ => angle_x as int,
    }
}

/// Apply one mouse-motion sample to the drag state and the orbit angles.
pub fn handle_mouse_motion(
    position: (i32, i32),
    mouse_state: &mut MouseState,
    angle_y: &mut i64,
    angle_x: &mut i64,
)
    ensures
        *final(mouse_state) == mouse_motion_state(position, *old(mouse_state)),
        *final(angle_y) == mouse_motion_angle_y(position, *old(mouse_state), *old(angle_y)),
        *final(angle_x) == mouse_motion_angle_x(position, *old(mouse_state), *old(angle_x)),
{
    let (nx, ny) = position;
    match (mouse_state.left_pressed, mouse_state.position) {
        (true, Some((x, y))) => {
            let dx: i64 = nx as i64 - x as i64;
            let dy: i64 = ny as i64 - y as i64;
            *angle_y = sat_add_i64(*angle_y, dx * MOUSE_STEP);
            *angle_x = sat_add_i64(*angle_x, -(dy * MOUSE_STEP));
            mouse_state.position = Some((nx, ny));
        },
        (true, None) => {
            mouse_state.position = Some((nx, ny));
        },
        _ => {},
    }
}

/// Advance one frame: the animation phase moves by `ANIM_RATE` while the
/// animation runs, and the orbit angles move by the current turn rates.
pub fn advance_frame(
    do_anim: bool,
    turn_rate_y: i64,
    turn_rate_x: i64,
    t: &mut i64,
    angle_y: &mut i64,
    angle_x: &mut i64,
)
    ensures
        *final(t) == if do_anim {
            sat64(*old(t) + ANIM_RATE)
        } else {
            *old(t) as int
        },
        *final(angle_y) == sat64(*old(angle_y) + turn_rate_y),
        *final(angle_x) == sat64(*old(angle_x) + turn_rate_x),
{
    if do_anim {
        *t = sat_add_i64(*t, ANIM_RATE);
    }
    *angle_y = sat_add_i64(*angle_y, turn_rate_y);
    *angle_x = sat_add_i64(*angle_x, turn_rate_x);
}

/// Dragging, releasing, and dragging again resets the drag reference: after
/// a release and a new press the reference position is cleared, so the
/// first motion sample of the new drag produces a zero angle delta and only
/// establishes the new reference.
pub proof fn lemma_redrag_first_sample_no_motion(
    ms: MouseState,
    pos: (i32, i32),
    angle_y: i64,
    angle_x: i64,
)
    ensures
        ({
            let released = mouse_button_step(ms, MouseButton::Left, KeyState::Released);
            let pressed = mouse_button_step(released, MouseButton::Left, KeyState::Pressed);
            &&& mouse_motion_angle_y(pos, pressed, angle_y) == angle_y
            &&& mouse_motion_angle_x(pos, pressed, angle_x) == angle_x
            &&& mouse_motion_state(pos, pressed).position == Some(pos)
        }),
{
}

} // verus!
