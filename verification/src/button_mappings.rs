//! The button mapping table: physical controller buttons to logical keys.
//!
//! Most entries are constant; two depend on whether keyboard mode is on.

use vstd::prelude::*;

verus! {

/// A physical controller button.
#[derive(Debug, Clone, Copy, PartialEq, Eq, Structural)]
pub enum Button {
    South,
    East,
    North,
    West,
    C,
    Z,
    LeftTrigger,
    LeftTrigger2,
    RightTrigger,
    RightTrigger2,
    Select,
    Start,
    Mode,
    LeftThumb,
    RightThumb,
    DPadUp,
    DPadDown,
    DPadLeft,
    DPadRight,
    Unknown,
}

/// A logical key the core can ask the injection sink to press or release.
#[derive(Debug, Clone, Copy, PartialEq, Eq, Structural)]
pub enum Key {
    DownArrow,
    UpArrow,
    LeftArrow,
    RightArrow,
    Alt,
    Control,
    Tab,
    Return,
    Space,
    Meta,
    Backspace,
    Escape,
}

/// The key a button maps to, if any: constant for most buttons, and for the
/// layout-select companion and the secondary action button dependent on
/// whether keyboard mode is on.
pub open spec fn button_mapping(button: Button, keyboard_mode: bool) -> Option<Key> {
    match button {
        Button::DPadDown => Some(Key::DownArrow),
        Button::DPadUp => Some(Key::UpArrow),
        Button::DPadLeft => Some(Key::LeftArrow),
        Button::DPadRight => Some(Key::RightArrow),
        Button::RightTrigger => Some(Key::Alt),
        Button::LeftTrigger => Some(Key::Control),
        Button::LeftThumb => Some(Key::Tab),
        Button::RightThumb => Some(Key::Return),
        Button::West => Some(Key::Space),
        Button::RightTrigger2 => if keyboard_mode {
            None
        } else {
            Some(Key::Meta)
        },
        Button::East => if keyboard_mode {
            Some(Key::Backspace)
        } else {
            Some(Key::Escape)
        },
        _ => None,
    }
}

/// Looks a button up in the mapping table, exact to [`button_mapping`].
pub fn get_gamepad_button_mapping(button: Button, keyboard_mode: bool) -> (r: Option<Key>)
    ensures
        r == button_mapping(button, keyboard_mode),
{
    match button {
        Button::DPadDown => Some(Key::DownArrow),
        Button::DPadUp => Some(Key::UpArrow),
        Button::DPadLeft => Some(Key::LeftArrow),
        Button::DPadRight => Some(Key::RightArrow),
        Button::RightTrigger => Some(Key::Alt),
        Button::LeftTrigger => Some(Key::Control),
        Button::LeftThumb => Some(Key::Tab),
        Button::RightThumb => Some(Key::Return),
        Button::West => Some(Key::Space),
        Button::RightTrigger2 => {
            if keyboard_mode {
                None
            } else {
                Some(Key::Meta)
            }
        },
        Button::East => {
            if keyboard_mode {
                Some(Key::Backspace)
            } else {
                Some(Key::Escape)
            }
        },
        _ => None,
    }
}

} // verus!
