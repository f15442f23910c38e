//! Translates raw input-device events into the canonical pointer-event
//! stream the rendering engine consumes: a gesture phase (hover, down, move,
//! up), an absolute position, the pressed-button bitmask and an optional
//! scroll payload. The surrounding event loop reads device events, hands
//! them here as plain values, and performs the sends this module decides on.

use vstd::prelude::*;

use crate::mouse_button_tracker::MouseButtonTracker;
use crate::mouse_button_tracker::button_flag;

verus! {

/// Device key code of the escape key, whose press shuts the event loop down.
pub const KEY_ESC: u32 = 1;

/// The gesture stage a pointer event reports.
#[derive(Clone, Copy, PartialEq, Eq, Structural, Debug)]
pub enum PointerPhase {
    /// Pure motion with no button down.
    Hover,
    /// The transition from zero to at least one pressed button.
    Down,
    /// Motion or further button activity while at least one button stays
    /// down across the event.
    Move,
    /// The transition from at least one pressed button back to zero.
    Up,
}

/// Whether a pointer event carries a scroll payload.
#[derive(Clone, Copy, PartialEq, Eq, Structural, Debug)]
pub enum PointerSignalKind {
    NoSignal,
    Scroll,
}

/// One canonical pointer event, ready for the engine.
#[derive(Clone, Copy, PartialEq, Eq, Structural, Debug)]
pub struct PointerEventMessage {
    pub phase: PointerPhase,
    /// Monotonic timestamp in microseconds.
    pub timestamp_us: u64,
    pub x: i64,
    pub y: i64,
    pub signal_kind: PointerSignalKind,
    pub scroll_delta_x: i64,
    pub scroll_delta_y: i64,
    /// Engine bitmask of the buttons down after this event.
    pub buttons: u64,
}

/// Discrete scroll steps of both axes, in hundred-twentieths of a wheel
/// detent.
#[derive(Clone, Copy, PartialEq, Eq, Structural, Debug)]
pub struct V120Steps {
    pub horizontal: i32,
    pub vertical: i32,
}

/// The frame-based axis notification the windowing layer receives alongside
/// every scroll event, so protocol-level scroll state stays consistent with
/// what the engine is told.
#[derive(Clone, Copy, PartialEq, Eq, Structural, Debug)]
pub struct AxisFrameMessage {
    /// Event time in milliseconds.
    pub time_msec: u32,
    pub horizontal: i64,
    pub vertical: i64,
    /// Discrete scroll steps, when the device reported any.
    pub v120: Option<V120Steps>,
}

/// A keyboard event passed through unmodified to the collaborator that owns
/// keyboard focus.
#[derive(Clone, Copy, PartialEq, Eq, Structural, Debug)]
pub struct KeyboardForward {
    pub key_code: u32,
    pub pressed: bool,
    pub time_msec: u32,
}

/// A raw device event, as plain values.
#[derive(Clone, Copy, PartialEq, Eq, Structural, Debug)]
pub enum InputDeviceEvent {
    /// Relative pointer motion.
    PointerMotion { delta_x: i64, delta_y: i64 },
    /// Absolute pointer motion.
    PointerMotionAbsolute { x: i64, y: i64 },
    /// A pointer button changed state.
    PointerButton { button_code: u16, pressed: bool },
    /// Scroll activity. Continuous amounts are preferred; the
    /// hundred-twentieths step counts serve as fallback.
    PointerAxis {
        amount_horizontal: Option<i64>,
        amount_vertical: Option<i64>,
        v120_horizontal: Option<i64>,
        v120_vertical: Option<i64>,
        /// Event time in microseconds.
        time_us: u64,
    },
    /// A keyboard key changed state.
    Keyboard { key_code: u32, pressed: bool, time_msec: u32 },
    /// Gesture, touch, tablet, switch and device add/remove events, which
    /// this translator ignores.
    Unhandled,
}

/// Everything one device event asks the surrounding loop to do.
#[derive(Clone, Copy, PartialEq, Eq, Structural, Debug)]
pub struct InputResponse {
    /// Pointer event to send to the engine.
    pub pointer_event: Option<PointerEventMessage>,
    /// Axis frame to emit to the windowing layer.
    pub axis_frame: Option<AxisFrameMessage>,
    /// Keyboard event to pass through.
    pub keyboard_forward: Option<KeyboardForward>,
    /// Stop the event loop.
    pub shutdown: bool,
}

/// The single logical pointer: accumulated position and pressed buttons.
pub struct PointerState {
    pub mouse_x: i64,
    pub mouse_y: i64,
    pub mouse_button_tracker: MouseButtonTracker,
}

/// Addition clamped to the i64 range.
pub open spec fn sat_add64(a: i64, b: i64) -> i64 {
    if a + b > i64::MAX {
        i64::MAX
    } else if a + b < i64::MIN {
        i64::MIN
    } else {
        (a + b) as i64
    }
}

/// The phase of a motion event: moving while a button is held, hovering
/// otherwise.
pub open spec fn motion_phase(bitmask: u64) -> PointerPhase {
    if bitmask != 0 {
        PointerPhase::Move
    } else {
        PointerPhase::Hover
    }
}

/// The phase of a press, decided before the new button is registered: a
/// press while already dragging is continued movement, not a new Down.
pub open spec fn press_phase(bitmask_before: u64) -> PointerPhase {
    if bitmask_before != 0 {
        PointerPhase::Move
    } else {
        PointerPhase::Down
    }
}

/// The phase of a release, decided after the button is unregistered: Up only
/// when no button remains down.
pub open spec fn release_phase(bitmask_after: u64) -> PointerPhase {
    if bitmask_after != 0 {
        PointerPhase::Move
    } else {
        PointerPhase::Up
    }
}

/// The phase of a scroll event. With no button down this reports Down,
/// where a motion event reports Hover; whether that asymmetry is intended
/// is an open question, so it is preserved here rather than silently
/// corrected.
pub open spec fn axis_phase(bitmask: u64) -> PointerPhase {
    if bitmask != 0 {
        PointerPhase::Move
    } else {
        PointerPhase::Down
    }
}

/// One axis' scroll magnitude: the continuous amount when present, else the
/// discrete step count, else zero.
pub open spec fn scroll_amount(continuous: Option<i64>, discrete: Option<i64>) -> i64 {
    match continuous {
        Some(a) => a,
        None => match discrete {
            Some(d) => d,
            None => 0,
        },
    }
}

/// The discrete-step pair of an axis frame: absent when neither axis
/// reported steps, else both axes with zero for the silent one.
pub open spec fn axis_v120(horizontal: Option<i64>, vertical: Option<i64>) -> Option<V120Steps> {
    if horizontal is None && vertical is None {
        None
    } else {
        Some(
            (V120Steps {
                horizontal: (match horizontal {
                    Some(h) => h,
                    None => 0,
                }) as i32,
                vertical: (match vertical {
                    Some(v) => v,
                    None => 0,
                }) as i32,
            }),
        )
    }
}

/// The pointer event a motion through the given state produces.
pub open spec fn motion_event_message(state: PointerState, now_us: u64) -> PointerEventMessage {
    PointerEventMessage {
        phase: motion_phase(state.mouse_button_tracker.bitmask),
        timestamp_us: now_us,
        x: state.mouse_x,
        y: state.mouse_y,
        signal_kind: PointerSignalKind::NoSignal,
        scroll_delta_x: 0,
        scroll_delta_y: 0,
        buttons: state.mouse_button_tracker.bitmask,
    }
}

/// The pointer event a button change produces, with the given phase and the
/// buttons as they stand after the change.
pub open spec fn button_event_message(
    state: PointerState,
    phase: PointerPhase,
    now_us: u64,
) -> PointerEventMessage {
    PointerEventMessage {
        phase: phase,
        timestamp_us: now_us,
        x: state.mouse_x,
        y: state.mouse_y,
        signal_kind: PointerSignalKind::NoSignal,
        scroll_delta_x: 0,
        scroll_delta_y: 0,
        buttons: state.mouse_button_tracker.bitmask,
    }
}

/// The pointer event a scroll produces.
pub open spec fn axis_event_message(
    state: PointerState,
    horizontal: i64,
    vertical: i64,
    now_us: u64,
) -> PointerEventMessage {
    PointerEventMessage {
        phase: axis_phase(state.mouse_button_tracker.bitmask),
        timestamp_us: now_us,
        x: state.mouse_x,
        y: state.mouse_y,
        signal_kind: PointerSignalKind::Scroll,
        scroll_delta_x: horizontal,
        scroll_delta_y: vertical,
        buttons: state.mouse_button_tracker.bitmask,
    }
}

/// A response that asks the loop to do nothing.
pub open spec fn empty_response() -> InputResponse {
    InputResponse {
        pointer_event: None,
        axis_frame: None,
        keyboard_forward: None,
        shutdown: false,
    }
}

impl PointerState {
    /// The pointer's button bookkeeping is well formed.
    pub open spec fn wf(self) -> bool {
        self.mouse_button_tracker.wf()
    }

    /// A pointer at the origin with no buttons down.
    pub fn new() -> (s: PointerState)
        ensures
            s.wf(),
            s.mouse_x == 0,
            s.mouse_y == 0,
            s.mouse_button_tracker.bitmask == 0,
            s.mouse_button_tracker.pressed_codes@ == Set::<u16>::empty(),
    {
        PointerState { mouse_x: 0, mouse_y: 0, mouse_button_tracker: MouseButtonTracker::new() }
    }
}

/// A press reports Down only while no button is down yet: once any tracked
/// button has been registered, every further press reports Move.
pub proof fn lemma_down_only_on_first_press(bitmask: u64, code: u16)
    requires
        button_flag(code) != 0,
    ensures
        press_phase(bitmask | button_flag(code)) == PointerPhase::Move,
{
    let f = button_flag(code);
    assert(f != 0 ==> (bitmask | f) != 0) by (bit_vector);
}

/// i64 addition that clamps at the ends of the range instead of wrapping.
fn saturating_add(a: i64, b: i64) -> (r: i64)
    ensures
        r == sat_add64(a, b),
{
    match a.checked_add(b) {
        Some(v) => v,
        None => if b >= 0 {
            i64::MAX
        } else {
            i64::MIN
        },
    }
}

/// Builds the pointer event that reports the pointer's current position:
/// phase Move while a button is held, Hover otherwise.
pub fn send_motion_event(state: &PointerState, now_us: u64) -> (r: PointerEventMessage)
    requires
        state.wf(),
    ensures
        r == motion_event_message(*state, now_us),
{
    let phase = if state.mouse_button_tracker.are_any_buttons_pressed() {
        PointerPhase::Move
    } else {
        PointerPhase::Hover
    };
    PointerEventMessage {
        phase,
        timestamp_us: now_us,
        x: state.mouse_x,
        y: state.mouse_y,
        signal_kind: PointerSignalKind::NoSignal,
        scroll_delta_x: 0,
        scroll_delta_y: 0,
        buttons: state.mouse_button_tracker.get_flutter_button_bitmask(),
    }
}

/// Classifies one raw device event: updates the pointer position and the
/// pressed-button set, and says what the loop must send where. `now_us` is
/// the engine's monotonic clock at the time of the call.
pub fn handle_input(state: &mut PointerState, event: &InputDeviceEvent, now_us: u64) -> (r:
    InputResponse)
    requires
        old(state).wf(),
    ensures
        final(state).wf(),
        match *event {
            InputDeviceEvent::PointerMotion { delta_x, delta_y } => {
                &&& final(state).mouse_x == sat_add64(old(state).mouse_x, delta_x)
                &&& final(state).mouse_y == sat_add64(old(state).mouse_y, delta_y)
                &&& final(state).mouse_button_tracker == old(state).mouse_button_tracker
                &&& r == (InputResponse {
                    pointer_event: Some(motion_event_message(*final(state), now_us)),
                    axis_frame: None,
                    keyboard_forward: None,
                    shutdown: false,
                })
            },
            InputDeviceEvent::PointerMotionAbsolute { x, y } => {
                &&& final(state).mouse_x == x
                &&& final(state).mouse_y == y
                &&& final(state).mouse_button_tracker == old(state).mouse_button_tracker
                &&& r == (InputResponse {
                    pointer_event: Some(motion_event_message(*final(state), now_us)),
                    axis_frame: None,
                    keyboard_forward: None,
                    shutdown: false,
                })
            },
            InputDeviceEvent::PointerButton { button_code, pressed } => {
                &&& final(state).mouse_x == old(state).mouse_x
                &&& final(state).mouse_y == old(state).mouse_y
                &&& (if pressed {
                    let tracker = old(state).mouse_button_tracker;
                    &&& (if button_flag(button_code) != 0 {
                        &&& final(state).mouse_button_tracker.bitmask == tracker.bitmask
                            | button_flag(button_code)
                        &&& final(state).mouse_button_tracker.pressed_codes@
                            == tracker.pressed_codes@.insert(button_code)
                    } else {
                        final(state).mouse_button_tracker == tracker
                    })
                    &&& r == (InputResponse {
                        pointer_event: Some(
                            button_event_message(
                                *final(state),
                                press_phase(tracker.bitmask),
                                now_us,
                            ),
                        ),
                        axis_frame: None,
                        keyboard_forward: None,
                        shutdown: false,
                    })
                } else {
                    let tracker = old(state).mouse_button_tracker;
                    &&& (if button_flag(button_code) != 0 {
                        &&& final(state).mouse_button_tracker.bitmask == tracker.bitmask & !
                        button_flag(button_code)
                        &&& final(state).mouse_button_tracker.pressed_codes@
                            == tracker.pressed_codes@.remove(button_code)
                    } else {
                        final(state).mouse_button_tracker == tracker
                    })
                    &&& r == (InputResponse {
                        pointer_event: Some(
                            button_event_message(
                                *final(state),
                                release_phase(final(state).mouse_button_tracker.bitmask),
                                now_us,
                            ),
                        ),
                        axis_frame: None,
                        keyboard_forward: None,
                        shutdown: false,
                    })
                })
            },
            InputDeviceEvent::PointerAxis {
                amount_horizontal,
                amount_vertical,
                v120_horizontal,
                v120_vertical,
                time_us,
            } => {
                let horizontal = scroll_amount(amount_horizontal, v120_horizontal);
                let vertical = scroll_amount(amount_vertical, v120_vertical);
                &&& *final(state) == *old(state)
                &&& r == (InputResponse {
                    pointer_event: Some(
                        axis_event_message(*final(state), horizontal, vertical, now_us),
                    ),
                    axis_frame: Some(
                        (AxisFrameMessage {
                            time_msec: (time_us / 1000) as u32,
                            horizontal,
                            vertical,
                            v120: axis_v120(v120_horizontal, v120_vertical),
                        }),
                    ),
                    keyboard_forward: None,
                    shutdown: false,
                })
            },
            InputDeviceEvent::Keyboard { key_code, pressed, time_msec } => {
                &&& *final(state) == *old(state)
                &&& (if key_code == KEY_ESC && pressed {
                    r == (InputResponse {
                        pointer_event: None,
                        axis_frame: None,
                        keyboard_forward: None,
                        shutdown: true,
                    })
                } else {
                    r == (InputResponse {
                        pointer_event: None,
                        axis_frame: None,
                        keyboard_forward: Some(
                            (KeyboardForward { key_code, pressed, time_msec }),
                        ),
                        shutdown: false,
                    })
                })
            },
            InputDeviceEvent::Unhandled => {
                &&& *final(state) == *old(state)
                &&& r == empty_response()
            },
        },
{
    match *event {
        InputDeviceEvent::PointerMotion { delta_x, delta_y } => {
            state.mouse_x = saturating_add(state.mouse_x, delta_x);
            state.mouse_y = saturating_add(state.mouse_y, delta_y);
            InputResponse {
                pointer_event: Some(send_motion_event(state, now_us)),
                axis_frame: None,
                keyboard_forward: None,
                shutdown: false,
            }
        },
        InputDeviceEvent::PointerMotionAbsolute { x, y } => {
            state.mouse_x = x;
            state.mouse_y = y;
            InputResponse {
                pointer_event: Some(send_motion_event(state, now_us)),
                axis_frame: None,
                keyboard_forward: None,
                shutdown: false,
            }
        },
        InputDeviceEvent::PointerButton { button_code, pressed } => {
            let phase = if pressed {
                let are_any_buttons_pressed =
                    state.mouse_button_tracker.are_any_buttons_pressed();
                let _ = state.mouse_button_tracker.press(button_code);
                if are_any_buttons_pressed {
                    PointerPhase::Move
                } else {
                    PointerPhase::Down
                }
            } else {
                let _ = state.mouse_button_tracker.release(button_code);
                if state.mouse_button_tracker.are_any_buttons_pressed() {
                    PointerPhase::Move
                } else {
                    PointerPhase::Up
                }
            };
            InputResponse {
                pointer_event: Some(
                    PointerEventMessage {
                        phase,
                        timestamp_us: now_us,
                        x: state.mouse_x,
                        y: state.mouse_y,
                        signal_kind: PointerSignalKind::NoSignal,
                        scroll_delta_x: 0,
                        scroll_delta_y: 0,
                        buttons: state.mouse_button_tracker.get_flutter_button_bitmask(),
                    },
                ),
                axis_frame: None,
                keyboard_forward: None,
                shutdown: false,
            }
        },
        InputDeviceEvent::PointerAxis {
            amount_horizontal,
            amount_vertical,
            v120_horizontal,
            v120_vertical,
            time_us,
        } => {
            // Fall back on discrete scroll when continuous scroll is not available.
            let horizontal = match amount_horizontal {
                Some(a) => a,
                None => match v120_horizontal {
                    Some(d) => d,
                    None => 0,
                },
            };
            let vertical = match amount_vertical {
                Some(a) => a,
                None => match v120_vertical {
                    Some(d) => d,
                    None => 0,
                },
            };
            let v120: Option<V120Steps> = match (v120_horizontal, v120_vertical) {
                (None, None) => None,
                _ => {
                    let h = match v120_horizontal {
                        Some(d) => d,
                        None => 0,
                    };
                    let v = match v120_vertical {
                        Some(d) => d,
                        None => 0,
                    };
                    Some(
                        V120Steps {
                            horizontal: #[verifier::truncate] (h as i32),
                            vertical: #[verifier::truncate] (v as i32),
                        },
                    )
                },
            };
            let phase = if state.mouse_button_tracker.are_any_buttons_pressed() {
                PointerPhase::Move
            } else {
                PointerPhase::Down
            };
            InputResponse {
                pointer_event: Some(
                    PointerEventMessage {
                        phase,
                        timestamp_us: now_us,
                        x: state.mouse_x,
                        y: state.mouse_y,
                        signal_kind: PointerSignalKind::Scroll,
                        scroll_delta_x: horizontal,
                        scroll_delta_y: vertical,
                        buttons: state.mouse_button_tracker.get_flutter_button_bitmask(),
                    },
                ),
                axis_frame: Some(
                    AxisFrameMessage {
                        time_msec: #[verifier::truncate] ((time_us / 1000) as u32),
                        horizontal,
                        vertical,
                        v120,
                    },
                ),
                keyboard_forward: None,
                shutdown: false,
            }
        },
        InputDeviceEvent::Keyboard { key_code, pressed, time_msec } => {
            if key_code == KEY_ESC && pressed {
                InputResponse {
                    pointer_event: None,
                    axis_frame: None,
                    keyboard_forward: None,
                    shutdown: true,
                }
            } else {
                InputResponse {
                    pointer_event: None,
                    axis_frame: None,
                    keyboard_forward: Some(KeyboardForward { key_code, pressed, time_msec }),
                    shutdown: false,
                }
            }
        },
        InputDeviceEvent::Unhandled => InputResponse {
            pointer_event: None,
            axis_frame: None,
            keyboard_forward: None,
            shutdown: false,
        },
    }
}

} // verus!
