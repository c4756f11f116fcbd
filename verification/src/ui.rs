//! Measures used to lay out the pages on the terminal.
use vstd::prelude::*;
use ratatui::layout::{Constraint, Flex, Layout, Rect};

verus! {

/// A rectangle of the terminal: x, y, width, height.
pub type Area = (u16, u16, u16, u16);

/// Columns a character takes on the terminal: ASCII takes one, anything
/// else (such as CJK) two.
pub open spec fn char_width(c: char) -> int {
    if c <= '\x7f' { 1 } else { 2 }
}

/// Columns a text takes on the terminal.
pub open spec fn text_width(s: Seq<char>) -> int
    decreases s.len(),
{
    if s.len() == 0 {
        0
    } else {
        text_width(s.drop_last()) + char_width(s.last())
    }
}

/// A prefix takes no more columns than the whole text.
pub proof fn lemma_prefix_width(s: Seq<char>, i: int, j: int)
    requires
        0 <= i <= j <= s.len(),
    ensures
        text_width(s.take(i)) <= text_width(s.take(j)),
    decreases j - i,
{
    if i < j {
        lemma_prefix_width(s, i, j - 1);
        assert(s.take(j).drop_last() =~= s.take(j - 1));
    }
}

/// Display width in terminal columns (CJK chars are double width).
pub fn width(s: &str) -> (w: u16)
    requires
        text_width(s@) <= u16::MAX,
    ensures
        w == text_width(s@),
{
    let n = s.unicode_len();
    let mut w: u16 = 0;
    let mut i: usize = 0;
    assert(s@.take(0) =~= Seq::<char>::empty());
    while i < n
        invariant
            n == s@.len(),
            i <= n,
            text_width(s@) <= u16::MAX,
            w == text_width(s@.take(i as int)),
        decreases n - i,
    {
        proof {
            lemma_prefix_width(s@, i + 1, n as int);
            assert(s@.take(n as int) =~= s@);
            assert(s@.take(i + 1).drop_last() =~= s@.take(i as int));
        }
        let c = s.get_char(i);
        if c <= '\x7f' {
            w = w + 1;
        } else {
            w = w + 2;
        }
        i = i + 1;
    }
    assert(s@.take(n as int) =~= s@);
    w
}

/// The height of a page's box in a window `height` rows high: the
/// requested height `box_h`, at least 3 and at most one row less than the
/// window (but never below 3).
pub open spec fn clamped_box_height(height: u16, box_h: u16) -> u16 {
    let max_h: u16 = if height <= 4 { 3 } else { (height - 1) as u16 };
    if box_h < 3 {
        3
    } else if box_h > max_h {
        max_h
    } else {
        box_h
    }
}

/// Where ratatui's vertical layout, centered in `area`, puts a box of
/// `box_h` rows and the one-row line below it.
pub uninterp spec fn centered_box(area: Area, box_h: u16) -> (Area, Area);

/// Trusted: calls ratatui's `Layout::split` for the vertical layout of a
/// `Length(box_h)` box and a `Length(1)` line with `Flex::Center`, on the
/// `Rect::new` of `area`. The result is a function of the two arguments,
/// named `centered_box`; nothing more of it is stated.
#[verifier::external_body]
fn split_centered(area: Area, box_h: u16) -> (r: (Area, Area))
    ensures
        r == centered_box(area, box_h),
{
    let parts = Layout::vertical([Constraint::Length(box_h), Constraint::Length(1)])
        .flex(Flex::Center)
        .split(Rect::new(area.0, area.1, area.2, area.3));
    (
        (parts[0].x, parts[0].y, parts[0].width, parts[0].height),
        (parts[1].x, parts[1].y, parts[1].width, parts[1].height),
    )
}

/// The bordered box hugs the page content: its height is `box_h` (the content
/// plus the two borders) instead of the whole window. The box and the hint
/// line below its bottom border are vertically centered in the window.
pub fn box_and_hints(area: Area, box_h: u16) -> (r: (Area, Area))
    ensures
        r == centered_box(area, clamped_box_height(area.3, box_h)),
{
    let max_h: u16 = if area.3 <= 4 { 3 } else { area.3 - 1 };
    let h: u16 = if box_h < 3 {
        3
    } else if box_h > max_h {
        max_h
    } else {
        box_h
    };
    split_centered(area, h)
}

} // verus!
