//! Brick buttons: the numbering the event dispatcher hands over, and which notice a
//! click gives.
use vstd::prelude::*;

verus! {

#[derive(Clone, Copy, Debug, PartialEq, Eq, Structural)]
pub enum Button {
    Left,
    Right,
    Up,
    Down,
    Enter,
    Back,
    /// Any number outside the six buttons.
    Unknown,
}

/// Which notice a click logs.
#[derive(Clone, Copy, Debug, PartialEq, Eq, Structural)]
pub enum ClickNotice {
    BackClicked,
    LeftClicked,
    OtherClicked,
}

pub open spec fn button_of(n: i32) -> Button {
    if n == 0 {
        Button::Left
    } else if n == 1 {
        Button::Right
    } else if n == 2 {
        Button::Up
    } else if n == 3 {
        Button::Down
    } else if n == 4 {
        Button::Enter
    } else if n == 5 {
        Button::Back
    } else {
        Button::Unknown
    }
}

/// The button with number `button`: 0 to 5 are left, right, up, down, enter and
/// back; any other number is unknown.
pub fn cast_to_button_t(button: i32) -> (r: Button)
    ensures
        r == button_of(button),
{
    match button {
        0 => Button::Left,
        1 => Button::Right,
        2 => Button::Up,
        3 => Button::Down,
        4 => Button::Enter,
        5 => Button::Back,
        _ => Button::Unknown,
    }
}

/// The notice for a click on the button with number `button`.
pub fn click_notice(button: i32) -> (r: ClickNotice)
    ensures
        r == (match button_of(button) {
            Button::Back => ClickNotice::BackClicked,
            Button::Left => ClickNotice::LeftClicked,
            _ => ClickNotice::OtherClicked,
        }),
{
    match cast_to_button_t(button) {
        Button::Back => ClickNotice::BackClicked,
        Button::Left => ClickNotice::LeftClicked,
        _ => ClickNotice::OtherClicked,
    }
}

} // verus!
