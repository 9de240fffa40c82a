use vstd::prelude::*;

use ratatui::layout::{Constraint, Direction, Layout};
use vstd::string::StringExecFns;

verus! {

/// A popup that asks the user to confirm something.
#[derive(Debug, PartialEq, Eq)]
pub struct ConfirmPopup {
    pub title: String,
    pub message: String,
}

/// A popup that reports an error.
#[derive(Debug, PartialEq, Eq)]
pub struct ErrorPopup {
    pub title: String,
    pub message: String,
}

/// The widget that dims everything behind a popup.
#[derive(Debug, Default, Clone, Copy, PartialEq, Eq, Hash, Structural)]
pub struct Dim;

impl Clone for ConfirmPopup {
    fn clone(&self) -> (p: Self)
        ensures
            p == *self,
    {
        ConfirmPopup { title: self.title.clone(), message: self.message.clone() }
    }
}

impl Clone for ErrorPopup {
    fn clone(&self) -> (p: Self)
        ensures
            p == *self,
    {
        ErrorPopup { title: self.title.clone(), message: self.message.clone() }
    }
}

impl ConfirmPopup {
    /// The key hints at the bottom of the popup.
    pub fn footer(&self) -> (f: String)
        ensures
            f@ == "[Esc] Close  [Enter] Confirm"@,
    {
        String::from_str("[Esc] Close  [Enter] Confirm")
    }
}

impl ErrorPopup {
    /// The key hints at the bottom of the popup.
    pub fn footer(&self) -> (f: String)
        ensures
            f@ == "[Esc] Close"@,
    {
        String::from_str("[Esc] Close")
    }
}

/// An area of the terminal.
#[derive(Debug, Default, Clone, Copy, PartialEq, Eq, Hash, Structural)]
pub struct Rect {
    pub x: u16,
    pub y: u16,
    pub width: u16,
    pub height: u16,
}

/// What `ratatui` lays out when it splits `area` into three parts sized by the given
/// percentages, from top to bottom (`vertical`) or from left to right.
pub uninterp spec fn layout_split(vertical: bool, first: u16, second: u16, third: u16, area: Rect) -> (Rect, Rect, Rect);

/// Splits `area` into three parts sized by percentages (`ratatui::layout::Layout::split` with
/// three `Constraint::Percentage`s). The contract ties the result to the arguments by the
/// name `layout_split`; how `ratatui` solves the constraints is left unsaid.
#[verifier::external_body]
fn split_in_three(vertical: bool, first: u16, second: u16, third: u16, area: Rect) -> (r: (Rect, Rect, Rect))
    ensures
        r == layout_split(vertical, first, second, third, area),
{
    let direction = if vertical { Direction::Vertical } else { Direction::Horizontal };
    let area = ratatui::layout::Rect { x: area.x, y: area.y, width: area.width, height: area.height };
    let p = Layout::default()
        .direction(direction)
        .constraints([Constraint::Percentage(first), Constraint::Percentage(second), Constraint::Percentage(third)])
        .split(area);
    let c = |i: usize| Rect { x: p[i].x, y: p[i].y, width: p[i].width, height: p[i].height };
    (c(0), c(1), c(2))
}

/// The percentages of a centred band that takes `percent` of the space.
pub open spec fn margins(percent: u16) -> (u16, u16, u16) {
    (((100 - percent) / 2) as u16, percent, ((100 - percent) / 2) as u16)
}

/// The area of a popup: a rectangle centred in `r` that takes `percent_x` of its width and
/// `percent_y` of its height.
pub open spec fn spec_popup_rect(percent_x: u16, percent_y: u16, r: Rect) -> Rect {
    let (top, middle, bottom) = margins(percent_y);
    let band = layout_split(true, top, middle, bottom, r).1;
    let (left, center, right) = margins(percent_x);
    layout_split(false, left, center, right, band).1
}

/// The area of a popup centred in `r`.
pub fn popup_rect(percent_x: u16, percent_y: u16, r: Rect) -> (p: Rect)
    requires
        percent_x <= 100,
        percent_y <= 100,
    ensures
        p == spec_popup_rect(percent_x, percent_y, r),
{
    let margin_y = (100 - percent_y) / 2;
    let band = split_in_three(true, margin_y, percent_y, margin_y, r).1;
    let margin_x = (100 - percent_x) / 2;
    split_in_three(false, margin_x, percent_x, margin_x, band).1
}

} // verus!
