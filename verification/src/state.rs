//! The mode state machine: remote-active / keyboard-mode flags, long-press
//! detection for the mode-toggle button, layout selection, focus bookkeeping
//! and the commit action.
//!
//! The machine is a reducer: one function routes a drained controller event,
//! one performs the per-tick stick sampling step, and each returns the
//! injections and notifications to perform, in order. Both are exact to a
//! spec-level step function, over which the crate's laws are proved.

use std::collections::HashMap;
use vstd::prelude::*;
use vstd::string::StringExecFns;

use crate::button_mappings::{button_mapping, get_gamepad_button_mapping, Button, Key};
use crate::joystick::{focus_for, get_keyboard_focus_input};
use crate::mouse::{handle_mouse_move, handle_scroll, mouse_delta, scroll_command, ScrollAxis};
use crate::{
    keyboard_char, keyboard_left_chars, keyboard_right_chars, lower_char, to_lower_char, UiEvent,
    UiEventModel, LONG_PRESS_THRESHOLD_MS,
};

verus! {

broadcast use vstd::std_specs::hash::group_hash_axioms;

/// A raw controller event, as far as the core distinguishes them.
#[derive(Debug, Clone, Copy, PartialEq, Eq, Structural)]
pub enum RawEvent {
    /// A button's analog value changed, in thousandths: 1000 is a full press,
    /// anything else counts as a release for the digital buttons.
    ButtonChanged(Button, i32),
    /// An edge-triggered button press.
    ButtonPressed(Button),
    /// Anything else the device reports (axis changes, connects, disconnects,
    /// plain releases): the machine reacts to these only while idle.
    Other,
}

/// An injection or notification the poll loop is to perform, in order.
#[derive(Debug, Clone, PartialEq)]
pub enum Action {
    /// Press (true) or release the left mouse button.
    MouseButton(bool),
    /// Press (true) or release a logical key.
    KeyState(Key, bool),
    /// Click (press and release) a logical key.
    ClickKey(Key),
    /// Type the character as literal text.
    TypeText(char),
    /// Move the pointer by the two relative amounts.
    MouseMove(i32, i32),
    /// Scroll by the amount along the axis.
    Scroll(i32, ScrollAxis),
    /// Publish a notification to the presentation layer.
    Notify(UiEvent),
}

/// Mathematical model of an [`Action`].
pub enum ActionModel {
    MouseButton(bool),
    KeyState(Key, bool),
    ClickKey(Key),
    TypeText(char),
    MouseMove(int, int),
    Scroll(int, ScrollAxis),
    Notify(UiEventModel),
}

impl View for Action {
    type V = ActionModel;

    open spec fn view(&self) -> ActionModel {
        match self {
            Action::MouseButton(p) => ActionModel::MouseButton(*p),
            Action::KeyState(k, p) => ActionModel::KeyState(*k, *p),
            Action::ClickKey(k) => ActionModel::ClickKey(*k),
            Action::TypeText(c) => ActionModel::TypeText(*c),
            Action::MouseMove(x, y) => ActionModel::MouseMove(*x as int, *y as int),
            Action::Scroll(a, x) => ActionModel::Scroll(*a as int, *x),
            Action::Notify(e) => ActionModel::Notify(e@),
        }
    }
}

/// The models of a sequence of actions.
pub open spec fn action_views(s: Seq<Action>) -> Seq<ActionModel> {
    s.map_values(|a: Action| a@)
}

/// Identity of a button in the press-instant map.
pub open spec fn spec_button_code(b: Button) -> u64 {
    match b {
        Button::South => 0,
        Button::East => 1,
        Button::North => 2,
        Button::West => 3,
        Button::C => 4,
        Button::Z => 5,
        Button::LeftTrigger => 6,
        Button::LeftTrigger2 => 7,
        Button::RightTrigger => 8,
        Button::RightTrigger2 => 9,
        Button::Select => 10,
        Button::Start => 11,
        Button::Mode => 12,
        Button::LeftThumb => 13,
        Button::RightThumb => 14,
        Button::DPadUp => 15,
        Button::DPadDown => 16,
        Button::DPadLeft => 17,
        Button::DPadRight => 18,
        Button::Unknown => 19,
    }
}

/// Identity of a button in the press-instant map, exact to
/// [`spec_button_code`].
pub fn button_code(b: Button) -> (c: u64)
    ensures
        c == spec_button_code(b),
{
    match b {
        Button::South => 0,
        Button::East => 1,
        Button::North => 2,
        Button::West => 3,
        Button::C => 4,
        Button::Z => 5,
        Button::LeftTrigger => 6,
        Button::LeftTrigger2 => 7,
        Button::RightTrigger => 8,
        Button::RightTrigger2 => 9,
        Button::Select => 10,
        Button::Start => 11,
        Button::Mode => 12,
        Button::LeftThumb => 13,
        Button::RightThumb => 14,
        Button::DPadUp => 15,
        Button::DPadDown => 16,
        Button::DPadLeft => 17,
        Button::DPadRight => 18,
        Button::Unknown => 19,
    }
}

/// Mathematical model of a [`ModeState`].
#[verifier::ext_equal]
pub struct StateModel {
    pub remote_active: bool,
    pub keyboard_mode: bool,
    pub active_keyboard: int,
    pub last_state: (int, int),
    pub active_key: (int, int),
    pub press_times: Map<u64, u64>,
}

/// The long-lived state of the machine, owned by the poll loop.
pub struct ModeState {
    /// Whether the remote drives anything at all.
    pub remote_active: bool,
    /// Whether the sticks drive the virtual keyboard instead of the pointer.
    pub keyboard_mode: bool,
    /// Index of the active virtual keyboard layout.
    pub active_keyboard: usize,
    /// Last reported focus index per stick (left, right).
    pub last_state: (i32, i32),
    /// Which single side currently holds a committed focus; at most one side
    /// is non -1 at a time.
    pub active_key: (i32, i32),
    /// When each button, by its code, was last pressed, in milliseconds;
    /// only the mode-toggle button is recorded in this design.
    pub press_times: HashMap<u64, u64>,
}

impl View for ModeState {
    type V = StateModel;

    open spec fn view(&self) -> StateModel {
        StateModel {
            remote_active: self.remote_active,
            keyboard_mode: self.keyboard_mode,
            active_keyboard: self.active_keyboard as int,
            last_state: (self.last_state.0 as int, self.last_state.1 as int),
            active_key: (self.active_key.0 as int, self.active_key.1 as int),
            press_times: self.press_times@,
        }
    }
}

/// A focus index: one of the eight compass indices, or -1 for none.
pub open spec fn focus_index_wf(i: int) -> bool {
    -1 <= i < 8
}

/// Well-formedness of the machine's state: the layout index is valid, every
/// recorded focus index is one, and at most one side holds the active key.
pub open spec fn state_wf(s: StateModel) -> bool {
    &&& 0 <= s.active_keyboard < 2
    &&& focus_index_wf(s.last_state.0)
    &&& focus_index_wf(s.last_state.1)
    &&& focus_index_wf(s.active_key.0)
    &&& focus_index_wf(s.active_key.1)
    &&& (s.active_key.0 == -1 || s.active_key.1 == -1)
}

/// Every recorded press instant lies at or before the given instant; holds of
/// any state driven by a monotonic clock.
pub open spec fn press_times_at_or_before(s: StateModel, now_ms: u64) -> bool {
    forall|b: u64| #[trigger] s.press_times.contains_key(b) ==> s.press_times[b] <= now_ms
}

/// The state the poll loop starts in: remote inactive, keyboard mode off,
/// primary layout, no focus, no active key, no press recorded.
pub open spec fn initial_state() -> StateModel {
    StateModel {
        remote_active: false,
        keyboard_mode: false,
        active_keyboard: 0,
        last_state: (-1, -1),
        active_key: (-1, -1),
        press_times: Map::empty(),
    }
}

impl ModeState {
    /// Creates the initial state.
    pub fn new() -> (s: ModeState)
        ensures
            s@ == initial_state(),
            state_wf(s@),
    {
        let s = ModeState {
            remote_active: false,
            keyboard_mode: false,
            active_keyboard: 0,
            last_state: (-1, -1),
            active_key: (-1, -1),
            press_times: HashMap::new(),
        };
        proof {
            assert(s@ =~= initial_state());
        }
        s
    }
}

/// One toast notification.
pub open spec fn toast_model(msg: Seq<char>) -> ActionModel {
    ActionModel::Notify(UiEventModel::ShowToast(msg))
}

/// Step for an analog change of the mode-toggle button: a full press records
/// the instant; a release with a matching record toggles the remote when held
/// longer than the threshold (leaving keyboard mode first, announced only
/// when it was on), toggles keyboard mode on a short press while the remote
/// is active, and is a no-op otherwise; a release with no matching record is
/// ignored.
pub open spec fn start_button_step(s: StateModel, val: int, now_ms: u64) -> (StateModel, Seq<
    ActionModel,
>) {
    let code = spec_button_code(Button::Start);
    if val == 1000 {
        (StateModel { press_times: s.press_times.insert(code, now_ms), ..s }, seq![])
    } else if s.press_times.contains_key(code) {
        let pressed_at = s.press_times[code];
        let s1 = StateModel { press_times: s.press_times.remove(code), ..s };
        if now_ms - pressed_at > LONG_PRESS_THRESHOLD_MS {
            if s.remote_active {
                (
                    StateModel { remote_active: false, keyboard_mode: false, ..s1 },
                    if s.keyboard_mode {
                        seq![
                            ActionModel::Notify(UiEventModel::KeyboardMode(false)),
                            toast_model("Remote Deactivated"@),
                        ]
                    } else {
                        seq![toast_model("Remote Deactivated"@)]
                    },
                )
            } else {
                (
                    StateModel { remote_active: true, ..s1 },
                    seq![toast_model("Remote Activated"@)],
                )
            }
        } else if s.remote_active {
            (
                StateModel { keyboard_mode: !s.keyboard_mode, ..s1 },
                seq![
                    ActionModel::Notify(UiEventModel::KeyboardMode(!s.keyboard_mode)),
                    toast_model(
                        if !s.keyboard_mode {
                            "Keyboard mode Activated"@
                        } else {
                            "Keyboard mode Deactivated"@
                        },
                    ),
                ],
            )
        } else {
            (s1, seq![])
        }
    } else {
        (s, seq![])
    }
}

/// Actions of a commit press: with no side focused, a single modifier-key
/// click as the fallback; with one side focused, the lowercase character at
/// that side's focus index in the active layout, followed by the commit
/// notification; with both sides focused (excluded by well-formedness),
/// nothing.
pub open spec fn commit_step(s: StateModel) -> Seq<ActionModel> {
    if s.active_key.0 == -1 && s.active_key.1 == -1 {
        seq![ActionModel::ClickKey(Key::Meta)]
    } else if s.active_key.0 == -1 {
        seq![
            ActionModel::TypeText(
                lower_char(keyboard_right_chars(s.active_keyboard)[s.active_key.1]),
            ),
            ActionModel::Notify(UiEventModel::KeyPress),
        ]
    } else if s.active_key.1 == -1 {
        seq![
            ActionModel::TypeText(
                lower_char(keyboard_left_chars(s.active_keyboard)[s.active_key.0]),
            ),
            ActionModel::Notify(UiEventModel::KeyPress),
        ]
    } else {
        seq![]
    }
}

/// Step for one drained controller event. The mode-toggle button is handled
/// first; every other event while the remote is inactive only draws the
/// "Remote inactive!" warning; while active, the primary action button drives
/// the left mouse button (outside keyboard mode), the layout-select trigger
/// selects the layout (in keyboard mode), a commit press types the focused
/// character, and every other button goes through the mapping table.
pub open spec fn button_event_step(s: StateModel, ev: RawEvent, now_ms: u64) -> (StateModel, Seq<
    ActionModel,
>) {
    match ev {
        RawEvent::ButtonChanged(b, val) => {
            if b == Button::Start {
                start_button_step(s, val as int, now_ms)
            } else if !s.remote_active {
                (s, seq![toast_model("Remote inactive!"@)])
            } else if b == Button::South {
                if s.keyboard_mode {
                    (s, seq![])
                } else {
                    (s, seq![ActionModel::MouseButton(val == 1000)])
                }
            } else if b == Button::LeftTrigger2 {
                if s.keyboard_mode {
                    let idx: int = if val >= 1000 {
                        1
                    } else {
                        0
                    };
                    (
                        StateModel { active_keyboard: idx, ..s },
                        seq![ActionModel::Notify(UiEventModel::SwitchKeyboard(idx))],
                    )
                } else {
                    (s, seq![])
                }
            } else {
                match button_mapping(b, s.keyboard_mode) {
                    Some(k) => (s, seq![ActionModel::KeyState(k, val == 1000)]),
                    None => (s, seq![]),
                }
            }
        },
        RawEvent::ButtonPressed(b) => {
            if !s.remote_active {
                (s, seq![toast_model("Remote inactive!"@)])
            } else if b == Button::RightTrigger2 {
                if s.keyboard_mode && 0 <= s.active_keyboard < 2 {
                    (s, commit_step(s))
                } else {
                    (s, seq![])
                }
            } else {
                (s, seq![])
            }
        },
        RawEvent::Other => {
            if !s.remote_active {
                (s, seq![toast_model("Remote inactive!"@)])
            } else {
                (s, seq![])
            }
        },
    }
}

/// Step for the focus bookkeeping in keyboard mode, given the tick's combined
/// focus: each side whose index differs from the last reported one is
/// reported, left side first, and the whole change is consumed in one tick,
/// so an unchanged reading reports nothing. A payload names the other side as
/// -1 whenever the changed side is focused, and a changed side becomes the
/// active key — the right side last when both change at once, which keeps at
/// most one side active.
pub open spec fn keyboard_focus_step(s: StateModel, f: (int, int)) -> (StateModel, Seq<
    ActionModel,
>) {
    let changed_left = f.0 != s.last_state.0;
    let changed_right = f.1 != s.last_state.1;
    let s1 = if changed_left {
        StateModel { last_state: (f.0, s.last_state.1), active_key: (f.0, -1), ..s }
    } else {
        s
    };
    let a1: Seq<ActionModel> = if changed_left {
        seq![
            ActionModel::Notify(
                UiEventModel::KeyFocus(
                    f.0,
                    if f.0 == -1 {
                        f.1
                    } else {
                        -1
                    },
                ),
            ),
        ]
    } else {
        seq![]
    };
    let s2 = if changed_right {
        StateModel { last_state: (s1.last_state.0, f.1), active_key: (-1, f.1), ..s1 }
    } else {
        s1
    };
    let a2: Seq<ActionModel> = if changed_right {
        seq![
            ActionModel::Notify(
                UiEventModel::KeyFocus(
                    if f.1 == -1 {
                        f.0
                    } else {
                        -1
                    },
                    f.1,
                ),
            ),
        ]
    } else {
        seq![]
    };
    (s2, a1 + a2)
}

/// Actions of the pointer step: the left stick's shaped relative move, then
/// the right stick's scroll command, each only where the shaper asks for one.
pub open spec fn pointer_step_actions(lx: int, ly: int, rx: int, ry: int) -> Seq<ActionModel> {
    let mv = match mouse_delta(lx, ly) {
        Some(d) => seq![ActionModel::MouseMove(d.0, d.1)],
        None => seq![],
    };
    let sc = match scroll_command(rx, ry) {
        Some(c) => seq![ActionModel::Scroll(c.0, c.1)],
        None => seq![],
    };
    mv + sc
}

/// Step for the once-per-tick stick sampling: nothing while the remote is
/// inactive; the focus bookkeeping in keyboard mode; the pointer step
/// otherwise.
pub open spec fn axis_tick_step(s: StateModel, lx: int, ly: int, rx: int, ry: int) -> (StateModel, Seq<
    ActionModel,
>) {
    if !s.remote_active {
        (s, seq![])
    } else if s.keyboard_mode {
        keyboard_focus_step(s, focus_for(lx, ly, rx, ry))
    } else {
        (s, pointer_step_actions(lx, ly, rx, ry))
    }
}

/// Routes one drained controller event through the machine, exact to
/// [`button_event_step`], and returns the injections and notifications to
/// perform, in order.
pub fn handle_button_event(state: &mut ModeState, ev: RawEvent, now_ms: u64) -> (actions: Vec<
    Action,
>)
    requires
        state_wf(old(state)@),
        press_times_at_or_before(old(state)@, now_ms),
    ensures
        final(state)@ == button_event_step(old(state)@, ev, now_ms).0,
        action_views(actions@) == button_event_step(old(state)@, ev, now_ms).1,
        state_wf(final(state)@),
        press_times_at_or_before(final(state)@, now_ms),
{
    let mut actions: Vec<Action> = Vec::new();
    match ev {
        RawEvent::ButtonChanged(b, val) => {
            if matches!(b, Button::Start) {
                let code = button_code(Button::Start);
                if val == 1000 {
                    state.press_times.insert(code, now_ms);
                } else {
                    let removed = state.press_times.remove(&code);
                    match removed {
                        Some(pressed_at) => {
                            let elapsed = now_ms - pressed_at;
                            if elapsed > LONG_PRESS_THRESHOLD_MS {
                                if state.remote_active {
                                    if state.keyboard_mode {
                                        state.keyboard_mode = false;
                                        actions.push(Action::Notify(UiEvent::KeyboardMode(false)));
                                    }
                                    state.remote_active = false;
                                    actions.push(
                                        Action::Notify(
                                            UiEvent::ShowToast(
                                                String::from_str("Remote Deactivated"),
                                            ),
                                        ),
                                    );
                                } else {
                                    state.remote_active = true;
                                    actions.push(
                                        Action::Notify(
                                            UiEvent::ShowToast(String::from_str("Remote Activated")),
                                        ),
                                    );
                                }
                            } else if state.remote_active {
                                state.keyboard_mode = !state.keyboard_mode;
                                actions.push(
                                    Action::Notify(UiEvent::KeyboardMode(state.keyboard_mode)),
                                );
                                let msg = if state.keyboard_mode {
                                    "Keyboard mode Activated"
                                } else {
                                    "Keyboard mode Deactivated"
                                };
                                actions.push(
                                    Action::Notify(UiEvent::ShowToast(String::from_str(msg))),
                                );
                            }
                        },
                        None => {},
                    }
                }
            } else if !state.remote_active {
                actions.push(
                    Action::Notify(UiEvent::ShowToast(String::from_str("Remote inactive!"))),
                );
            } else if matches!(b, Button::South) {
                if !state.keyboard_mode {
                    actions.push(Action::MouseButton(val == 1000));
                }
            } else if matches!(b, Button::LeftTrigger2) {
                if state.keyboard_mode {
                    let idx: usize = if val >= 1000 {
                        1
                    } else {
                        0
                    };
                    state.active_keyboard = idx;
                    actions.push(Action::Notify(UiEvent::SwitchKeyboard(idx)));
                }
            } else {
                match get_gamepad_button_mapping(b, state.keyboard_mode) {
                    Some(k) => actions.push(Action::KeyState(k, val == 1000)),
                    None => {},
                }
            }
        },
        RawEvent::ButtonPressed(b) => {
            if !state.remote_active {
                actions.push(
                    Action::Notify(UiEvent::ShowToast(String::from_str("Remote inactive!"))),
                );
            } else if matches!(b, Button::RightTrigger2) {
                if state.keyboard_mode && state.active_keyboard < 2 {
                    if state.active_key.0 == -1 && state.active_key.1 == -1 {
                        actions.push(Action::ClickKey(Key::Meta));
                    } else if state.active_key.0 == -1 {
                        let c = keyboard_char(
                            state.active_keyboard,
                            true,
                            state.active_key.1 as usize,
                        );
                        actions.push(Action::TypeText(to_lower_char(c)));
                        actions.push(Action::Notify(UiEvent::KeyPress));
                    } else if state.active_key.1 == -1 {
                        let c = keyboard_char(
                            state.active_keyboard,
                            false,
                            state.active_key.0 as usize,
                        );
                        actions.push(Action::TypeText(to_lower_char(c)));
                        actions.push(Action::Notify(UiEvent::KeyPress));
                    }
                }
            }
        },
        RawEvent::Other => {
            if !state.remote_active {
                actions.push(
                    Action::Notify(UiEvent::ShowToast(String::from_str("Remote inactive!"))),
                );
            }
        },
    }
    proof {
        assert(final(state)@ =~= button_event_step(old(state)@, ev, now_ms).0);
        assert(action_views(actions@) =~= button_event_step(old(state)@, ev, now_ms).1);
    }
    actions
}

/// Performs the once-per-tick stick sampling step, exact to
/// [`axis_tick_step`]: the stick readings are in thousandths of full
/// deflection, left stick first.
pub fn handle_axis_tick(state: &mut ModeState, left: (i32, i32), right: (i32, i32)) -> (actions:
    Vec<Action>)
    requires
        state_wf(old(state)@),
        -1000 <= left.0 <= 1000,
        -1000 <= left.1 <= 1000,
        -1000 <= right.0 <= 1000,
        -1000 <= right.1 <= 1000,
    ensures
        final(state)@ == axis_tick_step(
            old(state)@,
            left.0 as int,
            left.1 as int,
            right.0 as int,
            right.1 as int,
        ).0,
        action_views(actions@) == axis_tick_step(
            old(state)@,
            left.0 as int,
            left.1 as int,
            right.0 as int,
            right.1 as int,
        ).1,
        state_wf(final(state)@),
        final(state)@.press_times == old(state)@.press_times,
{
    let ghost step = axis_tick_step(
        old(state)@,
        left.0 as int,
        left.1 as int,
        right.0 as int,
        right.1 as int,
    );
    let mut actions: Vec<Action> = Vec::new();
    if !state.remote_active {
        proof {
            assert(final(state)@ =~= step.0);
            assert(action_views(actions@) =~= step.1);
        }
        return actions;
    }
    if state.keyboard_mode {
        let focused_key = get_keyboard_focus_input(left, right);
        if focused_key.0 != state.last_state.0 {
            let other: i32 = if focused_key.0 == -1 {
                focused_key.1
            } else {
                -1
            };
            actions.push(Action::Notify(UiEvent::KeyFocus(focused_key.0, other)));
            state.last_state = (focused_key.0, state.last_state.1);
            state.active_key = (focused_key.0, -1);
        }
        if focused_key.1 != state.last_state.1 {
            let other: i32 = if focused_key.1 == -1 {
                focused_key.0
            } else {
                -1
            };
            actions.push(Action::Notify(UiEvent::KeyFocus(other, focused_key.1)));
            state.last_state = (state.last_state.0, focused_key.1);
            state.active_key = (-1, focused_key.1);
        }
    } else {
        match handle_mouse_move(left) {
            Some(d) => actions.push(Action::MouseMove(d.0, d.1)),
            None => {},
        }
        match handle_scroll(right) {
            Some(c) => actions.push(Action::Scroll(c.0, c.1)),
            None => {},
        }
    }
    proof {
        assert(final(state)@ =~= step.0);
        assert(action_views(actions@) =~= step.1);
    }
    actions
}

/// Mutual exclusion: a sampling step leaves a well-formed state behind — in
/// particular at most one side of the active key is non -1 — and every focus
/// notification it emits likewise names at most one side as focused.
pub proof fn lemma_focus_mutual_exclusion(s: StateModel, lx: int, ly: int, rx: int, ry: int)
    requires
        state_wf(s),
    ensures
        state_wf(axis_tick_step(s, lx, ly, rx, ry).0),
        forall|i: int|
            0 <= i < axis_tick_step(s, lx, ly, rx, ry).1.len()
                ==> (#[trigger] axis_tick_step(s, lx, ly, rx, ry).1[i] matches
                    ActionModel::Notify(UiEventModel::KeyFocus(l, r)) ==> l == -1 || r == -1),
{
}

/// An event step preserves well-formedness, whatever the event and instant.
pub proof fn lemma_button_event_step_wf(s: StateModel, ev: RawEvent, now_ms: u64)
    requires
        state_wf(s),
    ensures
        state_wf(button_event_step(s, ev, now_ms).0),
{
}

/// The long-press boundary: a release of the mode-toggle button whose elapsed
/// time is exactly the threshold is a short press — with the remote active it
/// toggles keyboard mode and leaves the remote flag unchanged.
pub proof fn lemma_long_press_boundary(s: StateModel, pressed_at: u64, now_ms: u64)
    requires
        state_wf(s),
        s.remote_active,
        s.press_times.contains_key(spec_button_code(Button::Start)),
        s.press_times[spec_button_code(Button::Start)] == pressed_at,
        now_ms == pressed_at + LONG_PRESS_THRESHOLD_MS,
    ensures
        button_event_step(s, RawEvent::ButtonChanged(Button::Start, 0), now_ms).0.remote_active
            == s.remote_active,
        button_event_step(s, RawEvent::ButtonChanged(Button::Start, 0), now_ms).0.keyboard_mode
            == !s.keyboard_mode,
{
}

/// Debounce and idempotence: one sampling step consumes the whole change of a
/// reading, so a second step with the unchanged reading emits nothing and
/// changes nothing — whatever the starting state.
pub proof fn lemma_focus_idempotent(s: StateModel, lx: int, ly: int, rx: int, ry: int)
    requires
        state_wf(s),
        s.remote_active,
        s.keyboard_mode,
    ensures
        ({
            let s1 = axis_tick_step(s, lx, ly, rx, ry).0;
            axis_tick_step(s1, lx, ly, rx, ry).0 == s1 && axis_tick_step(s1, lx, ly, rx, ry).1
                == Seq::<ActionModel>::empty()
        }),
{
    let s1 = axis_tick_step(s, lx, ly, rx, ry).0;
    assert(axis_tick_step(s1, lx, ly, rx, ry).0 =~= s1);
    assert(axis_tick_step(s1, lx, ly, rx, ry).1 =~= Seq::<ActionModel>::empty());
}

} // verus!
