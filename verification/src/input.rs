//! Normalization of device input into abstract actions.
//!
//! Discrete device events (gamepad button presses, key presses) map 1:1 to
//! [`Action`] values through fixed tables; continuous pointer state never
//! produces an action and is instead hit-tested each frame (see `geometry`).
use vstd::prelude::*;

verus! {

/// A device-independent input action.
#[derive(Clone, Copy, Debug, PartialEq, Eq, Structural)]
pub enum Action {
    Confirm,
    Back,
    Up,
    Down,
    Left,
    Right,
    Start,
    Idle,
}

/// A gamepad button, as the front-end distinguishes them.
#[derive(Clone, Copy, Debug, PartialEq, Eq, Structural)]
pub enum PadButton {
    South,
    East,
    North,
    West,
    DPadUp,
    DPadDown,
    DPadLeft,
    DPadRight,
    Start,
    Other,
}

/// A key press, as the front-end distinguishes them.
#[derive(Clone, Copy, Debug, PartialEq, Eq, Structural)]
pub enum KeyPress {
    Escape,
    Return,
    Left,
    Right,
    Other,
}

/// The fixed gamepad mapping: south confirms, east cancels, the directional
/// pad moves, start is surfaced as its own action, anything else is idle.
pub open spec fn spec_button_action(b: PadButton) -> Action {
    match b {
        PadButton::South => Action::Confirm,
        PadButton::East => Action::Back,
        PadButton::North => Action::Up,
        PadButton::DPadUp => Action::Up,
        PadButton::DPadDown => Action::Down,
        PadButton::West => Action::Left,
        PadButton::DPadLeft => Action::Left,
        PadButton::DPadRight => Action::Right,
        PadButton::Start => Action::Start,
        PadButton::Other => Action::Idle,
    }
}

/// The fixed keyboard mapping: return confirms, escape cancels, the arrow
/// keys move, anything else is idle.
pub open spec fn spec_key_action(k: KeyPress) -> Action {
    match k {
        KeyPress::Escape => Action::Back,
        KeyPress::Return => Action::Confirm,
        KeyPress::Left => Action::Left,
        KeyPress::Right => Action::Right,
        KeyPress::Other => Action::Idle,
    }
}

/// Translates one gamepad button press into its abstract action.
pub fn action_for_button(b: PadButton) -> (a: Action)
    ensures
        a == spec_button_action(b),
{
    match b {
        PadButton::South => Action::Confirm,
        PadButton::East => Action::Back,
        PadButton::North => Action::Up,
        PadButton::DPadUp => Action::Up,
        PadButton::DPadDown => Action::Down,
        PadButton::West => Action::Left,
        PadButton::DPadLeft => Action::Left,
        PadButton::DPadRight => Action::Right,
        PadButton::Start => Action::Start,
        PadButton::Other => Action::Idle,
    }
}

/// Translates one key press into its abstract action.
pub fn action_for_key(k: KeyPress) -> (a: Action)
    ensures
        a == spec_key_action(k),
{
    match k {
        KeyPress::Escape => Action::Back,
        KeyPress::Return => Action::Confirm,
        KeyPress::Left => Action::Left,
        KeyPress::Right => Action::Right,
        KeyPress::Other => Action::Idle,
    }
}

} // verus!
