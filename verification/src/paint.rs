//! The abstract styled-output sink: paint operations the renderers queue and a
//! compositor later submits to a real terminal in one batch.

use vstd::prelude::*;

verus! {

/// A foreground or background color of the dashboard. The caller maps these
/// onto whatever palette its terminal offers.
#[derive(Clone, Copy, Debug, PartialEq, Eq, Structural)]
pub enum TermColor {
    Reset,
    Grey,
    Green,
    Yellow,
    Red,
}

/// One operation against the styled-output sink, in terminal cell coordinates.
#[derive(Debug, PartialEq)]
pub enum PaintOp {
    ClearScreen,
    MoveTo(u16, u16),
    SetForeground(TermColor),
    SetBackground(TermColor),
    ResetStyle,
    Print(String),
}

/// The mathematical image of a paint operation: coordinates as unbounded
/// integers and printed text as a sequence of characters.
pub enum ScreenOp {
    Clear,
    Move(int, int),
    Fg(TermColor),
    Bg(TermColor),
    Reset,
    Text(Seq<char>),
}

impl View for PaintOp {
    type V = ScreenOp;

    open spec fn view(&self) -> ScreenOp {
        match self {
            PaintOp::ClearScreen => ScreenOp::Clear,
            PaintOp::MoveTo(x, y) => ScreenOp::Move(*x as int, *y as int),
            PaintOp::SetForeground(c) => ScreenOp::Fg(*c),
            PaintOp::SetBackground(c) => ScreenOp::Bg(*c),
            PaintOp::ResetStyle => ScreenOp::Reset,
            PaintOp::Print(s) => ScreenOp::Text(s@),
        }
    }
}

/// The image of a whole queue of paint operations.
pub open spec fn ops_view(s: Seq<PaintOp>) -> Seq<ScreenOp> {
    s.map_values(|p: PaintOp| p@)
}

} // verus!
