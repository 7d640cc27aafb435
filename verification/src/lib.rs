//! Verified core of a gamepad-driven remote control for a host computer.
//!
//! The crate turns raw controller readings into synthetic input actions and
//! UI notifications. Axis deflections are carried as plain integers in
//! thousandths of full deflection (`-1000..=1000`), so that every decision the
//! core makes is over plain values; the unverified shell around the crate
//! converts the device's readings to and from that scale and performs the
//! actual injection and screen I/O.

use vstd::prelude::*;

pub mod button_mappings;
pub mod joystick;
pub mod mouse;
pub mod state;

verus! {

/// Full deflection of one axis, in the fixed-point scale used throughout.
pub const AXIS_SCALE_MILLIS: i32 = 1000;

/// A press of the mode-toggle button longer than this many milliseconds
/// toggles the remote on or off; a press at or below it toggles keyboard mode.
pub const LONG_PRESS_THRESHOLD_MS: u64 = 500;

/// Cadence of the poll loop that drives the core, in milliseconds.
pub const POLL_INTERVAL_MS: u64 = 16;

/// One virtual keyboard layout: eight characters navigated by the left stick
/// and eight by the right stick.
#[derive(Debug, Clone, PartialEq)]
pub struct KeyboardType {
    pub left: Vec<char>,
    pub right: Vec<char>,
}

/// Mathematical model of a [`KeyboardType`]: the two character rows.
pub struct KeyboardTypeModel {
    pub left: Seq<char>,
    pub right: Seq<char>,
}

impl View for KeyboardType {
    type V = KeyboardTypeModel;

    open spec fn view(&self) -> KeyboardTypeModel {
        KeyboardTypeModel { left: self.left@, right: self.right@ }
    }
}

/// Characters of the left row of the given layout (layout 0 is primary,
/// anything else selects the secondary layout).
pub open spec fn keyboard_left_chars(layout: int) -> Seq<char> {
    if layout == 0 {
        seq!['E', 'T', 'A', 'O', 'I', 'D', 'C', 'W']
    } else {
        seq!['G', 'Y', 'P', 'V', 'X', '0', '1', '2']
    }
}

/// Characters of the right row of the given layout.
pub open spec fn keyboard_right_chars(layout: int) -> Seq<char> {
    if layout == 0 {
        seq!['N', 'S', 'H', 'R', 'L', 'U', 'M', 'F']
    } else {
        seq!['B', 'K', 'J', 'Q', 'Z', '3', '4', '5']
    }
}

/// The two fixed virtual keyboard layouts, primary first.
pub fn keyboards() -> (ks: Vec<KeyboardType>)
    ensures
        ks@.len() == 2,
        forall|i: int|
            0 <= i < 2 ==> (#[trigger] ks@[i])@.left == keyboard_left_chars(i) && ks@[i]@.right
                == keyboard_right_chars(i),
{
    let k0 = KeyboardType {
        left: vec!['E', 'T', 'A', 'O', 'I', 'D', 'C', 'W'],
        right: vec!['N', 'S', 'H', 'R', 'L', 'U', 'M', 'F'],
    };
    let k1 = KeyboardType {
        left: vec!['G', 'Y', 'P', 'V', 'X', '0', '1', '2'],
        right: vec!['B', 'K', 'J', 'Q', 'Z', '3', '4', '5'],
    };
    proof {
        assert(k0@.left =~= keyboard_left_chars(0));
        assert(k0@.right =~= keyboard_right_chars(0));
        assert(k1@.left =~= keyboard_left_chars(1));
        assert(k1@.right =~= keyboard_right_chars(1));
    }
    let mut ks: Vec<KeyboardType> = Vec::new();
    ks.push(k0);
    ks.push(k1);
    ks
}

/// The character at `index` of the chosen row of the chosen layout.
pub fn keyboard_char(layout: usize, right_side: bool, index: usize) -> (c: char)
    requires
        layout < 2,
        index < 8,
    ensures
        right_side ==> c == keyboard_right_chars(layout as int)[index as int],
        !right_side ==> c == keyboard_left_chars(layout as int)[index as int],
{
    let ks = keyboards();
    let row = if right_side {
        &ks[layout].right
    } else {
        &ks[layout].left
    };
    row[index]
}

/// ASCII lowercasing: uppercase letters map to their lowercase partner,
/// everything else is unchanged.
pub open spec fn lower_char(c: char) -> char {
    if c == 'A' {
        'a'
    } else if c == 'B' {
        'b'
    } else if c == 'C' {
        'c'
    } else if c == 'D' {
        'd'
    } else if c == 'E' {
        'e'
    } else if c == 'F' {
        'f'
    } else if c == 'G' {
        'g'
    } else if c == 'H' {
        'h'
    } else if c == 'I' {
        'i'
    } else if c == 'J' {
        'j'
    } else if c == 'K' {
        'k'
    } else if c == 'L' {
        'l'
    } else if c == 'M' {
        'm'
    } else if c == 'N' {
        'n'
    } else if c == 'O' {
        'o'
    } else if c == 'P' {
        'p'
    } else if c == 'Q' {
        'q'
    } else if c == 'R' {
        'r'
    } else if c == 'S' {
        's'
    } else if c == 'T' {
        't'
    } else if c == 'U' {
        'u'
    } else if c == 'V' {
        'v'
    } else if c == 'W' {
        'w'
    } else if c == 'X' {
        'x'
    } else if c == 'Y' {
        'y'
    } else if c == 'Z' {
        'z'
    } else {
        c
    }
}

/// Executable ASCII lowercasing, exact to [`lower_char`].
pub fn to_lower_char(c: char) -> (r: char)
    ensures
        r == lower_char(c),
{
    match c {
        'A' => 'a',
        'B' => 'b',
        'C' => 'c',
        'D' => 'd',
        'E' => 'e',
        'F' => 'f',
        'G' => 'g',
        'H' => 'h',
        'I' => 'i',
        'J' => 'j',
        'K' => 'k',
        'L' => 'l',
        'M' => 'm',
        'N' => 'n',
        'O' => 'o',
        'P' => 'p',
        'Q' => 'q',
        'R' => 'r',
        'S' => 's',
        'T' => 't',
        'U' => 'u',
        'V' => 'v',
        'W' => 'w',
        'X' => 'x',
        'Y' => 'y',
        'Z' => 'z',
        _ => c,
    }
}

/// Notification sent to the presentation layer on a meaningful state change.
#[derive(Debug, Clone, PartialEq)]
pub enum UiEvent {
    ShowToast(String),
    KeyboardMode(bool),
    KeyFocus(i32, i32),
    SwitchKeyboard(usize),
    KeyPress,
    Init(Vec<KeyboardType>),
}

/// Mathematical model of a [`UiEvent`]: strings become character sequences.
pub enum UiEventModel {
    ShowToast(Seq<char>),
    KeyboardMode(bool),
    KeyFocus(int, int),
    SwitchKeyboard(int),
    KeyPress,
    Init(Seq<KeyboardTypeModel>),
}

impl View for UiEvent {
    type V = UiEventModel;

    open spec fn view(&self) -> UiEventModel {
        match self {
            UiEvent::ShowToast(s) => UiEventModel::ShowToast(s@),
            UiEvent::KeyboardMode(b) => UiEventModel::KeyboardMode(*b),
            UiEvent::KeyFocus(l, r) => UiEventModel::KeyFocus(*l as int, *r as int),
            UiEvent::SwitchKeyboard(i) => UiEventModel::SwitchKeyboard(*i as int),
            UiEvent::KeyPress => UiEventModel::KeyPress,
            UiEvent::Init(ks) => UiEventModel::Init(ks@.map_values(|k: KeyboardType| k@)),
        }
    }
}

} // verus!
