//! One module per page: its state, and how it reacts to a key.
use vstd::prelude::*;
use crate::key::Key;
use crate::text::{pop_char, popped, push_char};

pub mod confirm_page;
pub mod generate_page;
pub mod main_page;
pub mod manage_page;
pub mod new_page;
pub mod settings_page;
pub mod setup_page;
pub mod view_page;

verus! {

/// Shared focus state of the input area / the operation buttons
/// (used by the new page, the manage page and the generate page).
#[derive(Clone, Copy, PartialEq, Eq, Structural, Debug)]
pub enum NewFocus {
    Input,
    Buttons,
}

/// How an input row is shown: plain, selected (grey), or active for typing
/// (blue, with the cursor).
#[derive(Clone, Copy, PartialEq, Eq, Structural, Debug)]
pub enum Look {
    Plain,
    Selected,
    Active,
}

/// The button that has the focus, if the buttons have it.
pub open spec fn focused_button_of(focus: NewFocus, button_idx: usize) -> Option<usize> {
    if focus == NewFocus::Buttons { Some(button_idx) } else { None }
}

/// The button that has the focus, if the buttons have it.
pub fn focused_button(focus: NewFocus, button_idx: usize) -> (r: Option<usize>)
    ensures
        r == focused_button_of(focus, button_idx),
{
    if focus == NewFocus::Buttons { Some(button_idx) } else { None }
}

/// The box height of a list page: `n` rows plus `extra` rows, counted in
/// `u16` as the terminal does (the count wraps at 65536), at least 3.
pub open spec fn list_box_height(n: nat, extra: nat) -> u16 {
    let h = (n % 65536) + extra;
    if h < 3 { 3 } else { h as u16 }
}

/// The box height of a list page with `n` rows plus `extra` rows.
pub fn list_box_height_of(n: usize, extra: u16) -> (h: u16)
    requires
        (n % 65536) + extra <= u16::MAX,
    ensures
        h == list_box_height(n as nat, extra as nat),
{
    let h: u16 = (n % 65536) as u16 + extra;
    if h < 3 { 3 } else { h }
}

/// A text buffer after a key: a character is appended, Backspace removes
/// the last character, any other key leaves it as it is.
pub open spec fn edited(buf: Seq<char>, key: Key) -> Seq<char> {
    match key {
        Key::Char(c) => buf.push(c),
        Key::Backspace => popped(buf),
        _ => buf,
    }
}

/// Applies a key to a text buffer.
pub fn apply_edit(buf: &mut String, key: Key)
    ensures
        final(buf)@ == edited(old(buf)@, key),
{
    match key {
        Key::Char(c) => push_char(buf, c),
        Key::Backspace => {
            let _ = pop_char(buf);
        },
        _ => {},
    }
}

/// The button left of `b` in a row of three: `(b + 2) % 3`.
pub open spec fn left_of3(b: usize) -> usize {
    ((b + 2) % 3) as usize
}

/// The button right of `b` in a row of three: `(b + 1) % 3`.
pub open spec fn right_of3(b: usize) -> usize {
    ((b + 1) % 3) as usize
}

/// The other button of a pair: `(b + 1) % 2`.
pub open spec fn other_of2(b: usize) -> usize {
    ((b + 1) % 2) as usize
}

/// The index after a step up in a list.
pub open spec fn step_up(i: usize) -> usize {
    if i == 0 { 0 } else { (i - 1) as usize }
}

/// The index after a step down in a list whose last index is `last`.
pub open spec fn step_down(i: usize, last: usize) -> usize {
    if i >= last { last } else { (i + 1) as usize }
}

/// Moves one button left in a row of three.
pub fn move_left3(b: usize) -> (r: usize)
    ensures
        r == left_of3(b),
        r < 3,
{
    (b % 3 + 2) % 3
}

/// Moves one button right in a row of three.
pub fn move_right3(b: usize) -> (r: usize)
    ensures
        r == right_of3(b),
        r < 3,
{
    (b % 3 + 1) % 3
}

/// Switches to the other button of a pair.
pub fn switch2(b: usize) -> (r: usize)
    ensures
        r == other_of2(b),
        r < 2,
{
    (b % 2 + 1) % 2
}

/// A step up in a list: `i.saturating_sub(1)`.
pub fn move_up(i: usize) -> (r: usize)
    ensures
        r == step_up(i),
{
    if i == 0 { 0 } else { i - 1 }
}

/// A step down in a list whose last index is `last`: `(i + 1).min(last)`.
pub fn move_down(i: usize, last: usize) -> (r: usize)
    ensures
        r == step_down(i, last),
{
    if i >= last { last } else { i + 1 }
}

} // verus!
