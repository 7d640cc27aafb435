use pad_remote::button_mappings::{Button, Key};
use pad_remote::mouse::ScrollAxis;
use pad_remote::state::{handle_axis_tick, handle_button_event, Action, ModeState, RawEvent};
use pad_remote::UiEvent;

fn toast(msg: &str) -> Action {
    Action::Notify(UiEvent::ShowToast(msg.to_string()))
}

fn active_state(keyboard_mode: bool) -> ModeState {
    let mut st = ModeState::new();
    st.remote_active = true;
    st.keyboard_mode = keyboard_mode;
    st
}

#[test]
fn long_press_from_idle_activates_remote_with_one_toast() {
    let mut st = ModeState::new();

    // events other than the mode toggle draw only the warning, no injection
    let a = handle_button_event(&mut st, RawEvent::ButtonChanged(Button::South, 1000), 0);
    assert_eq!(a, vec![toast("Remote inactive!")]);
    let a = handle_button_event(&mut st, RawEvent::ButtonPressed(Button::RightTrigger2), 0);
    assert_eq!(a, vec![toast("Remote inactive!")]);
    let a = handle_button_event(&mut st, RawEvent::Other, 0);
    assert_eq!(a, vec![toast("Remote inactive!")]);

    // axis sampling while idle injects nothing
    let a = handle_axis_tick(&mut st, (1000, 1000), (1000, 1000));
    assert!(a.is_empty());

    // press, hold 600 ms, release: exactly one toast, remote is active
    let a = handle_button_event(&mut st, RawEvent::ButtonChanged(Button::Start, 1000), 0);
    assert!(a.is_empty());
    let a = handle_button_event(&mut st, RawEvent::ButtonChanged(Button::Start, 0), 600);
    assert_eq!(a, vec![toast("Remote Activated")]);
    assert!(st.remote_active);
    assert!(!st.keyboard_mode);
}

#[test]
fn long_press_while_active_leaves_keyboard_mode_then_deactivates() {
    let mut st = active_state(true);
    let a = handle_button_event(&mut st, RawEvent::ButtonChanged(Button::Start, 1000), 100);
    assert!(a.is_empty());
    let a = handle_button_event(&mut st, RawEvent::ButtonChanged(Button::Start, 0), 700);
    assert_eq!(
        a,
        vec![
            Action::Notify(UiEvent::KeyboardMode(false)),
            toast("Remote Deactivated"),
        ]
    );
    assert!(!st.remote_active);
    assert!(!st.keyboard_mode);
}

#[test]
fn release_exactly_at_threshold_is_a_short_press() {
    let mut st = active_state(false);
    handle_button_event(&mut st, RawEvent::ButtonChanged(Button::Start, 1000), 100);
    // elapsed is exactly 500 ms: keyboard-mode toggle, not remote toggle
    let a = handle_button_event(&mut st, RawEvent::ButtonChanged(Button::Start, 0), 600);
    assert_eq!(
        a,
        vec![
            Action::Notify(UiEvent::KeyboardMode(true)),
            toast("Keyboard mode Activated"),
        ]
    );
    assert!(st.remote_active);
    assert!(st.keyboard_mode);

    // and one millisecond past the threshold is a long press
    handle_button_event(&mut st, RawEvent::ButtonChanged(Button::Start, 1000), 1000);
    let a = handle_button_event(&mut st, RawEvent::ButtonChanged(Button::Start, 0), 1501);
    assert_eq!(
        a,
        vec![
            Action::Notify(UiEvent::KeyboardMode(false)),
            toast("Remote Deactivated"),
        ]
    );
    assert!(!st.remote_active);
}

#[test]
fn long_press_with_keyboard_off_deactivates_with_only_a_toast() {
    let mut st = active_state(false);
    handle_button_event(&mut st, RawEvent::ButtonChanged(Button::Start, 1000), 100);
    let a = handle_button_event(&mut st, RawEvent::ButtonChanged(Button::Start, 0), 700);
    assert_eq!(a, vec![toast("Remote Deactivated")]);
    assert!(!st.remote_active);
    assert!(!st.keyboard_mode);
}

#[test]
fn short_press_while_idle_is_a_no_op() {
    let mut st = ModeState::new();
    handle_button_event(&mut st, RawEvent::ButtonChanged(Button::Start, 1000), 0);
    let a = handle_button_event(&mut st, RawEvent::ButtonChanged(Button::Start, 0), 400);
    assert!(a.is_empty());
    assert!(!st.remote_active);
}

#[test]
fn release_without_matching_press_is_ignored() {
    let mut st = active_state(false);
    let a = handle_button_event(&mut st, RawEvent::ButtonChanged(Button::Start, 0), 900);
    assert!(a.is_empty());
    assert!(st.remote_active);
}

#[test]
fn primary_action_button_drives_left_mouse_outside_keyboard_mode() {
    let mut st = active_state(false);
    let a = handle_button_event(&mut st, RawEvent::ButtonChanged(Button::South, 1000), 0);
    assert_eq!(a, vec![Action::MouseButton(true)]);
    let a = handle_button_event(&mut st, RawEvent::ButtonChanged(Button::South, 0), 0);
    assert_eq!(a, vec![Action::MouseButton(false)]);

    let mut st = active_state(true);
    let a = handle_button_event(&mut st, RawEvent::ButtonChanged(Button::South, 1000), 0);
    assert!(a.is_empty());
}

#[test]
fn mapped_buttons_press_and_release_their_key() {
    let mut st = active_state(false);
    let a = handle_button_event(&mut st, RawEvent::ButtonChanged(Button::East, 1000), 0);
    assert_eq!(a, vec![Action::KeyState(Key::Escape, true)]);
    let a = handle_button_event(&mut st, RawEvent::ButtonChanged(Button::East, 0), 0);
    assert_eq!(a, vec![Action::KeyState(Key::Escape, false)]);

    let mut st = active_state(true);
    let a = handle_button_event(&mut st, RawEvent::ButtonChanged(Button::East, 1000), 0);
    assert_eq!(a, vec![Action::KeyState(Key::Backspace, true)]);
    // the unmapped combination is ignored
    let a = handle_button_event(&mut st, RawEvent::ButtonChanged(Button::RightTrigger2, 1000), 0);
    assert!(a.is_empty());
}

#[test]
fn layout_select_trigger_switches_keyboards_in_keyboard_mode_only() {
    let mut st = active_state(true);
    let a = handle_button_event(&mut st, RawEvent::ButtonChanged(Button::LeftTrigger2, 1000), 0);
    assert_eq!(a, vec![Action::Notify(UiEvent::SwitchKeyboard(1))]);
    assert_eq!(st.active_keyboard, 1);
    let a = handle_button_event(&mut st, RawEvent::ButtonChanged(Button::LeftTrigger2, 0), 0);
    assert_eq!(a, vec![Action::Notify(UiEvent::SwitchKeyboard(0))]);
    assert_eq!(st.active_keyboard, 0);

    let mut st = active_state(false);
    let a = handle_button_event(&mut st, RawEvent::ButtonChanged(Button::LeftTrigger2, 1000), 0);
    assert!(a.is_empty());
    assert_eq!(st.active_keyboard, 0);
}

#[test]
fn focus_then_commit_types_the_lowercase_character() {
    let mut st = active_state(true);
    // right stick due right: quantizes to (1, 0), compass index 0
    let a = handle_axis_tick(&mut st, (0, 0), (1000, 0));
    assert_eq!(a, vec![Action::Notify(UiEvent::KeyFocus(-1, 0))]);
    assert_eq!(st.active_key, (-1, 0));
    let a = handle_button_event(&mut st, RawEvent::ButtonPressed(Button::RightTrigger2), 0);
    assert_eq!(
        a,
        vec![Action::TypeText('n'), Action::Notify(UiEvent::KeyPress)]
    );
}

#[test]
fn commit_on_the_secondary_layout_uses_its_characters() {
    let mut st = active_state(true);
    handle_button_event(&mut st, RawEvent::ButtonChanged(Button::LeftTrigger2, 1000), 0);
    // left stick due up: quantizes to (0, 1), compass index 2 -> 'P'
    handle_axis_tick(&mut st, (0, 1000), (0, 0));
    assert_eq!(st.active_key, (2, -1));
    let a = handle_button_event(&mut st, RawEvent::ButtonPressed(Button::RightTrigger2), 0);
    assert_eq!(
        a,
        vec![Action::TypeText('p'), Action::Notify(UiEvent::KeyPress)]
    );
}

#[test]
fn commit_with_no_focus_clicks_the_modifier_fallback() {
    let mut st = active_state(true);
    let a = handle_button_event(&mut st, RawEvent::ButtonPressed(Button::RightTrigger2), 0);
    assert_eq!(a, vec![Action::ClickKey(Key::Meta)]);
    assert!(!a.contains(&Action::Notify(UiEvent::KeyPress)));
}

#[test]
fn commit_is_ignored_outside_keyboard_mode() {
    let mut st = active_state(false);
    let a = handle_button_event(&mut st, RawEvent::ButtonPressed(Button::RightTrigger2), 0);
    assert!(a.is_empty());
}

#[test]
fn unchanged_reading_reports_no_further_focus_changes() {
    let mut st = active_state(true);
    let a = handle_axis_tick(&mut st, (0, 0), (1000, 0));
    assert_eq!(a.len(), 1);
    for _ in 0..3 {
        let a = handle_axis_tick(&mut st, (0, 0), (1000, 0));
        assert!(a.is_empty());
    }
}

#[test]
fn reading_that_moves_both_sides_settles_in_one_tick() {
    let mut st = active_state(true);
    // left due right (index 0) and right due up (index 2) at once: both sides
    // are reported in the same tick, left first, and the right side ends up
    // holding the active key
    let a = handle_axis_tick(&mut st, (1000, 0), (0, 1000));
    assert_eq!(
        a,
        vec![
            Action::Notify(UiEvent::KeyFocus(0, -1)),
            Action::Notify(UiEvent::KeyFocus(-1, 2)),
        ]
    );
    assert_eq!(st.last_state, (0, 2));
    assert_eq!(st.active_key, (-1, 2));
    // the unchanged reading is then silent at once
    let a = handle_axis_tick(&mut st, (1000, 0), (0, 1000));
    assert!(a.is_empty());
}

#[test]
fn focus_updates_keep_at_most_one_side_active() {
    let mut st = active_state(true);
    let readings = [
        ((1000, 0), (0, 0)),
        ((1000, 0), (0, 1000)),
        ((0, 0), (0, 1000)),
        ((-1000, -1000), (600, -600)),
        ((0, 0), (0, 0)),
    ];
    for (left, right) in readings {
        // the repeated tick must stay silent and keep the invariant
        for _ in 0..2 {
            let actions = handle_axis_tick(&mut st, left, right);
            assert!(st.active_key.0 == -1 || st.active_key.1 == -1);
            for action in actions {
                if let Action::Notify(UiEvent::KeyFocus(l, r)) = action {
                    assert!(l == -1 || r == -1);
                }
            }
        }
    }
}

#[test]
fn centering_both_sticks_reports_the_sentinel() {
    let mut st = active_state(true);
    handle_axis_tick(&mut st, (1000, 0), (0, 0));
    assert_eq!(st.active_key, (0, -1));
    let a = handle_axis_tick(&mut st, (0, 0), (0, 0));
    assert_eq!(a, vec![Action::Notify(UiEvent::KeyFocus(-1, -1))]);
    assert_eq!(st.active_key, (-1, -1));
}

#[test]
fn pointer_tick_moves_and_scrolls_from_the_two_sticks() {
    let mut st = active_state(false);
    let a = handle_axis_tick(&mut st, (990, 0), (0, 0));
    assert_eq!(a, vec![Action::MouseMove(32, 0)]);
    let a = handle_axis_tick(&mut st, (0, 0), (0, 900));
    assert_eq!(a, vec![Action::Scroll(-1, ScrollAxis::Vertical)]);
    let a = handle_axis_tick(&mut st, (700, -700), (-500, 0));
    assert_eq!(
        a,
        vec![
            Action::MouseMove(4, 4),
            Action::Scroll(-1, ScrollAxis::Horizontal),
        ]
    );
    let a = handle_axis_tick(&mut st, (0, 0), (0, 0));
    assert!(a.is_empty());
}
