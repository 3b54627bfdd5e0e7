//! The resize transform: a drag of a corner or a side by a displacement,
//! keeping the opposite corner or side in place.
//!
//! The result is not normalized: dragging a corner past the opposite one
//! gives a negative width or height, which the caller normalizes once the
//! gesture ends.
use vstd::prelude::*;
use crate::geometry::{fits_i32, Rectangle};
use crate::handle::{Corner, Side};

verus! {

/// A rectangle given by unbounded integers, before it is stored.
pub struct RawRect {
    pub x: int,
    pub y: int,
    pub width: int,
    pub height: int,
}

impl RawRect {
    /// Whether every field can be stored as an `i32`.
    pub open spec fn fits(self) -> bool {
        fits_i32(self.x) && fits_i32(self.y) && fits_i32(self.width) && fits_i32(self.height)
    }

    /// The stored rectangle; exact where `fits` holds.
    pub open spec fn stored(self) -> Rectangle {
        Rectangle {
            x: self.x as i32,
            y: self.y as i32,
            width: self.width as i32,
            height: self.height as i32,
        }
    }
}

impl Corner {
    /// The corner diagonally opposite this one.
    pub open spec fn opposite(self) -> Corner {
        match self {
            Corner::TopLeft => Corner::BottomRight,
            Corner::TopRight => Corner::BottomLeft,
            Corner::BottomLeft => Corner::TopRight,
            Corner::BottomRight => Corner::TopLeft,
        }
    }

    /// `r` with this corner moved by `(dx, dy)`: only the edges that meet at
    /// this corner move.
    pub open spec fn spec_resize(self, r: Rectangle, dx: int, dy: int) -> RawRect {
        match self {
            Corner::TopLeft => RawRect {
                x: r.x + dx,
                y: r.y + dy,
                width: r.width - dx,
                height: r.height - dy,
            },
            Corner::TopRight => RawRect {
                x: r.x as int,
                y: r.y + dy,
                width: r.width + dx,
                height: r.height - dy,
            },
            Corner::BottomLeft => RawRect {
                x: r.x + dx,
                y: r.y as int,
                width: r.width - dx,
                height: r.height + dy,
            },
            Corner::BottomRight => RawRect {
                x: r.x as int,
                y: r.y as int,
                width: r.width + dx,
                height: r.height + dy,
            },
        }
    }

    /// Resizes `initial_rect`, the rectangle as it was when the drag began,
    /// by moving this corner by `(dx, dy)`, the displacement since then. The
    /// corner opposite to `self` stays in place.
    pub fn resize_rect(self, initial_rect: Rectangle, dx: i32, dy: i32) -> (r: Rectangle)
        requires
            self.spec_resize(initial_rect, dx as int, dy as int).fits(),
        ensures
            r == self.spec_resize(initial_rect, dx as int, dy as int).stored(),
    {
        match self {
            Corner::TopLeft => initial_rect
                .with_y(|y: i32| -> (v: i32)
                    requires
                        fits_i32(y + dy),
                    ensures
                        v == y + dy,
                    { y + dy })
                .with_x(|x: i32| -> (v: i32)
                    requires
                        fits_i32(x + dx),
                    ensures
                        v == x + dx,
                    { x + dx })
                .with_width(|w: i32| -> (v: i32)
                    requires
                        fits_i32(w - dx),
                    ensures
                        v == w - dx,
                    { w - dx })
                .with_height(|h: i32| -> (v: i32)
                    requires
                        fits_i32(h - dy),
                    ensures
                        v == h - dy,
                    { h - dy }),
            Corner::TopRight => initial_rect
                .with_y(|y: i32| -> (v: i32)
                    requires
                        fits_i32(y + dy),
                    ensures
                        v == y + dy,
                    { y + dy })
                .with_width(|w: i32| -> (v: i32)
                    requires
                        fits_i32(w + dx),
                    ensures
                        v == w + dx,
                    { w + dx })
                .with_height(|h: i32| -> (v: i32)
                    requires
                        fits_i32(h - dy),
                    ensures
                        v == h - dy,
                    { h - dy }),
            Corner::BottomLeft => initial_rect
                .with_x(|x: i32| -> (v: i32)
                    requires
                        fits_i32(x + dx),
                    ensures
                        v == x + dx,
                    { x + dx })
                .with_width(|w: i32| -> (v: i32)
                    requires
                        fits_i32(w - dx),
                    ensures
                        v == w - dx,
                    { w - dx })
                .with_height(|h: i32| -> (v: i32)
                    requires
                        fits_i32(h + dy),
                    ensures
                        v == h + dy,
                    { h + dy }),
            Corner::BottomRight => initial_rect
                .with_width(|w: i32| -> (v: i32)
                    requires
                        fits_i32(w + dx),
                    ensures
                        v == w + dx,
                    { w + dx })
                .with_height(|h: i32| -> (v: i32)
                    requires
                        fits_i32(h + dy),
                    ensures
                        v == h + dy,
                    { h + dy }),
        }
    }
}

impl Side {
    /// `r` with this side moved by the component of `(dx, dy)` across it;
    /// the opposite side and the other axis stay as they were.
    pub open spec fn spec_resize(self, r: Rectangle, dx: int, dy: int) -> RawRect {
        match self {
            Side::Top => RawRect {
                x: r.x as int,
                y: r.y + dy,
                width: r.width as int,
                height: r.height - dy,
            },
            Side::Right => RawRect {
                x: r.x as int,
                y: r.y as int,
                width: r.width + dx,
                height: r.height as int,
            },
            Side::Bottom => RawRect {
                x: r.x as int,
                y: r.y as int,
                width: r.width as int,
                height: r.height + dy,
            },
            Side::Left => RawRect {
                x: r.x + dx,
                y: r.y as int,
                width: r.width - dx,
                height: r.height as int,
            },
        }
    }

    /// Resizes `initial_rect` by moving this side across itself by `dx` or
    /// `dy`, the displacement since the drag began. The opposite side stays
    /// in place and the extent along the side is unchanged.
    pub fn resize_rect(self, initial_rect: Rectangle, dx: i32, dy: i32) -> (r: Rectangle)
        requires
            self.spec_resize(initial_rect, dx as int, dy as int).fits(),
        ensures
            r == self.spec_resize(initial_rect, dx as int, dy as int).stored(),
    {
        let r = initial_rect;
        match self {
            Side::Top => Rectangle { x: r.x, y: r.y + dy, width: r.width, height: r.height - dy },
            Side::Right => Rectangle { x: r.x, y: r.y, width: r.width + dx, height: r.height },
            Side::Bottom => Rectangle { x: r.x, y: r.y, width: r.width, height: r.height + dy },
            Side::Left => Rectangle { x: r.x + dx, y: r.y, width: r.width - dx, height: r.height },
        }
    }
}

/// Resizing by a corner keeps the opposite corner exactly where it was, and
/// moves the dragged corner by the displacement.
pub proof fn lemma_resize_keeps_opposite_corner(c: Corner, r: Rectangle, dx: int, dy: int)
    requires
        c.spec_resize(r, dx, dy).fits(),
        r.far_edges_fit(),
        c.spec_resize(r, dx, dy).stored().far_edges_fit(),
    ensures
        c.spec_resize(r, dx, dy).stored().spec_corners_of().at(c.opposite())
            == r.spec_corners_of().at(c.opposite()),
        c.spec_resize(r, dx, dy).stored().spec_corners_of().at(c).x == r.spec_corners_of().at(c).x
            + dx,
        c.spec_resize(r, dx, dy).stored().spec_corners_of().at(c).y == r.spec_corners_of().at(c).y
            + dy,
{
}

} // verus!
