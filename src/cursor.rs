//! The mouse cursor shown over each resize handle.
use vstd::prelude::*;
use crate::handle::{Corner, Side, SideOrCorner};

verus! {

/// The kind of resize cursor that a handle shows.
#[derive(Copy, Clone, Debug, PartialEq, Eq, Structural, Hash)]
pub enum CursorIconKind {
    /// Resizing up and down
    ResizingVertically,
    /// Resizing left and right
    ResizingHorizontally,
    /// Resizing along the diagonal from bottom-left to top-right
    ResizingDiagonallyUp,
    /// Resizing along the diagonal from top-left to bottom-right
    ResizingDiagonallyDown,
}

impl SideOrCorner {
    /// Obtain the appropriate mouse cursor for the given side or corner.
    pub fn mouse_icon(self) -> (r: CursorIconKind)
        ensures
            r == CursorIconKind::ResizingVertically <==> (self == SideOrCorner::Side(Side::Top)
                || self == SideOrCorner::Side(Side::Bottom)),
            r == CursorIconKind::ResizingHorizontally <==> (self == SideOrCorner::Side(Side::Left)
                || self == SideOrCorner::Side(Side::Right)),
            r == CursorIconKind::ResizingDiagonallyDown <==> (self == SideOrCorner::Corner(
                Corner::TopLeft,
            ) || self == SideOrCorner::Corner(Corner::BottomRight)),
            r == CursorIconKind::ResizingDiagonallyUp <==> (self == SideOrCorner::Corner(
                Corner::TopRight,
            ) || self == SideOrCorner::Corner(Corner::BottomLeft)),
    {
        match self {
            SideOrCorner::Side(side) => match side {
                Side::Top | Side::Bottom => CursorIconKind::ResizingVertically,
                Side::Right | Side::Left => CursorIconKind::ResizingHorizontally,
            },
            SideOrCorner::Corner(corner) => match corner {
                Corner::TopLeft | Corner::BottomRight => CursorIconKind::ResizingDiagonallyDown,
                Corner::TopRight | Corner::BottomLeft => CursorIconKind::ResizingDiagonallyUp,
            },
        }
    }
}

} // verus!
