//! The pointer-gesture state machine. A selection is idle until the left
//! button goes down; where the cursor then stands decides whether the gesture
//! resizes, moves, or drags out a new selection. Each pointer move recomputes
//! the rectangle from the one that the gesture began with, and the release
//! normalizes it and returns to idle.
//!
//! A corner dragged past the opposite one flips the rectangle to a negative
//! extent for the rest of the gesture; the grabbed handle is not re-bound
//! while the button is held, and the flip is resolved by normalizing on
//! release.
use vstd::prelude::*;
use crate::geometry::{fits_i32, Point, Rectangle};
use crate::handle::{Corner, Side, SideOrCorner};
use crate::resize::RawRect;

verus! {

/// What the pointer is doing to the selection.
#[derive(Copy, Clone, Debug, PartialEq, Eq, Structural)]
pub enum Gesture {
    /// No button is held.
    Idle,
    /// The selection follows the cursor.
    Move { initial_rect: Rectangle, initial_cursor: Point },
    /// A handle of the selection follows the cursor.
    Resize { handle: SideOrCorner, initial_rect: Rectangle, initial_cursor: Point },
    /// A new selection spans from the anchor to the cursor.
    Extend { anchor: Point },
}

/// A selected region and the gesture acting on it.
#[derive(Copy, Clone, Debug, PartialEq, Eq, Structural)]
pub struct Selection {
    pub rect: Rectangle,
    pub gesture: Gesture,
}

/// Whether `p` lies in the half-open area of the rectangle `r`.
pub open spec fn contains_point(r: Rectangle, p: Point) -> bool {
    &&& r.x <= p.x < r.x + r.width
    &&& r.y <= p.y < r.y + r.height
}

/// The empty rectangle at `p`.
pub open spec fn empty_at(p: Point) -> Rectangle {
    Rectangle { x: p.x, y: p.y, width: 0, height: 0 }
}

/// The gesture that a press of the button at `cursor` begins on the
/// selection `rect`: a handle under the cursor is resized, the interior is
/// moved, and anywhere else a new selection is started.
pub open spec fn spec_press(rect: Rectangle, cursor: Point) -> Gesture {
    let n = rect.spec_norm();
    match rect.spec_corners().spec_side_at(cursor) {
        Some(handle) => Gesture::Resize { handle, initial_rect: n, initial_cursor: cursor },
        None => if contains_point(n, cursor) {
            Gesture::Move { initial_rect: n, initial_cursor: cursor }
        } else {
            Gesture::Extend { anchor: cursor }
        },
    }
}

/// The rectangle that gesture `g` gives with the cursor at `cursor`, the
/// displacement scaled by `speed`; `None` when idle, or when a scaled
/// displacement is not an `i32`.
pub open spec fn spec_drag(g: Gesture, cursor: Point, speed: int) -> Option<RawRect> {
    match g {
        Gesture::Idle => None,
        Gesture::Move { initial_rect: r, initial_cursor: c } => {
            let dx = (cursor.x - c.x) * speed;
            let dy = (cursor.y - c.y) * speed;
            if fits_i32(dx) && fits_i32(dy) {
                Some(
                    RawRect {
                        x: r.x + dx,
                        y: r.y + dy,
                        width: r.width as int,
                        height: r.height as int,
                    },
                )
            } else {
                None
            }
        },
        Gesture::Resize { handle, initial_rect: r, initial_cursor: c } => {
            let dx = (cursor.x - c.x) * speed;
            let dy = (cursor.y - c.y) * speed;
            if fits_i32(dx) && fits_i32(dy) {
                match handle {
                    SideOrCorner::Corner(k) => Some(k.spec_resize(r, dx, dy)),
                    SideOrCorner::Side(s) => Some(s.spec_resize(r, dx, dy)),
                }
            } else {
                None
            }
        },
        Gesture::Extend { anchor: a } => Some(
            RawRect {
                x: a.x as int,
                y: a.y as int,
                width: cursor.x - a.x,
                height: cursor.y - a.y,
            },
        ),
    }
}

/// Whether `v` is an `i32`.
fn in_i32(v: i64) -> (r: bool)
    ensures
        r == fits_i32(v as int),
{
    i32::MIN as i64 <= v && v <= i32::MAX as i64
}

/// The displacement `(to - from) * speed` along one axis, where it is an `i32`.
fn scaled_delta(from: i32, to: i32, speed: i32) -> (r: Option<i32>)
    ensures
        r == (if fits_i32((to - from) * speed) {
            Some(((to - from) * speed) as i32)
        } else {
            None
        }),
{
    let d = (to as i128) - (from as i128);
    let s = speed as i128;
    assert(-0x1_0000_0000_0000_0000 <= d * s <= 0x1_0000_0000_0000_0000) by (nonlinear_arith)
        requires
            -0x1_0000_0000 <= d <= 0x1_0000_0000,
            -0x1_0000_0000 <= s <= 0x1_0000_0000,
    ;
    let v = d * s;
    if i32::MIN as i128 <= v && v <= i32::MAX as i128 {
        Some(v as i32)
    } else {
        None
    }
}

/// Whether resizing `r` by corner `k` with `(dx, dy)` stays in `i32`.
fn corner_resize_fits(k: Corner, r: Rectangle, dx: i32, dy: i32) -> (b: bool)
    ensures
        b == k.spec_resize(r, dx as int, dy as int).fits(),
{
    let (x, y, w, h) = (r.x as i64, r.y as i64, r.width as i64, r.height as i64);
    let (dx, dy) = (dx as i64, dy as i64);
    match k {
        Corner::TopLeft => in_i32(x + dx) && in_i32(y + dy) && in_i32(w - dx) && in_i32(h - dy),
        Corner::TopRight => in_i32(y + dy) && in_i32(w + dx) && in_i32(h - dy),
        Corner::BottomLeft => in_i32(x + dx) && in_i32(w - dx) && in_i32(h + dy),
        Corner::BottomRight => in_i32(w + dx) && in_i32(h + dy),
    }
}

/// Whether resizing `r` by side `s` with `(dx, dy)` stays in `i32`.
fn side_resize_fits(s: Side, r: Rectangle, dx: i32, dy: i32) -> (b: bool)
    ensures
        b == s.spec_resize(r, dx as int, dy as int).fits(),
{
    let (x, y, w, h) = (r.x as i64, r.y as i64, r.width as i64, r.height as i64);
    let (dx, dy) = (dx as i64, dy as i64);
    match s {
        Side::Top => in_i32(y + dy) && in_i32(h - dy),
        Side::Right => in_i32(w + dx),
        Side::Bottom => in_i32(h + dy),
        Side::Left => in_i32(x + dx) && in_i32(w - dx),
    }
}

impl Selection {
    /// An idle selection of `rect`.
    pub fn new(rect: Rectangle) -> (r: Selection)
        ensures
            r == (Selection { rect, gesture: Gesture::Idle }),
    {
        Selection { rect, gesture: Gesture::Idle }
    }

    /// A new, empty selection being dragged out from `cursor`, for a press
    /// where there is no selection yet.
    pub fn start_new(cursor: Point) -> (r: Selection)
        ensures
            r == (Selection { rect: empty_at(cursor), gesture: Gesture::Extend { anchor: cursor } }),
    {
        Selection {
            rect: Rectangle { x: cursor.x, y: cursor.y, width: 0, height: 0 },
            gesture: Gesture::Extend { anchor: cursor },
        }
    }

    /// The left button went down at `cursor`: begins the gesture that
    /// `spec_press` gives, on the normalized rectangle. A new selection starts
    /// empty at the cursor. Returns `false`, changing nothing, where the
    /// corners of the selection do not fit in `i32`.
    pub fn press(&mut self, cursor: Point) -> (started: bool)
        ensures
            started == old(self).rect.has_corners(),
            started ==> final(self).gesture == spec_press(old(self).rect, cursor),
            started ==> final(self).rect == (if final(self).gesture is Extend {
                empty_at(cursor)
            } else {
                old(self).rect.spec_norm()
            }),
            !started ==> *final(self) == *old(self),
    {
        match self.rect.checked_corners() {
            None => false,
            Some(corners) => {
                let n = self.rect.norm();
                match corners.side_at(cursor) {
                    Some(handle) => {
                        self.rect = n;
                        self.gesture =
                            Gesture::Resize { handle, initial_rect: n, initial_cursor: cursor };
                    },
                    None => {
                        let inside = n.x as i64 <= cursor.x as i64 && (cursor.x as i64) < (n.x as i64)
                            + (n.width as i64) && n.y as i64 <= cursor.y as i64 && (cursor.y as i64)
                            < (n.y as i64) + (n.height as i64);
                        if inside {
                            self.rect = n;
                            self.gesture = Gesture::Move { initial_rect: n, initial_cursor: cursor };
                        } else {
                            *self = Selection::start_new(cursor);
                        }
                    },
                }
                true
            },
        }
    }

    /// The pointer moved to `cursor`: recomputes the rectangle from the one
    /// the gesture began with, the displacement scaled by `speed`. Returns
    /// whether the rectangle was replaced; it is not when idle, or when the
    /// result does not fit in `i32`.
    pub fn drag(&mut self, cursor: Point, speed: i32) -> (moved: bool)
        ensures
            final(self).gesture == old(self).gesture,
            moved <==> (spec_drag(old(self).gesture, cursor, speed as int) matches Some(raw)
                && raw.fits()),
            moved ==> final(self).rect == spec_drag(
                old(self).gesture,
                cursor,
                speed as int,
            )->Some_0.stored(),
            !moved ==> final(self).rect == old(self).rect,
    {
        match self.gesture {
            Gesture::Idle => false,
            Gesture::Move { initial_rect: r, initial_cursor: c } => {
                match (scaled_delta(c.x, cursor.x, speed), scaled_delta(c.y, cursor.y, speed)) {
                    (Some(dx), Some(dy)) => {
                        let x = r.x as i64 + dx as i64;
                        let y = r.y as i64 + dy as i64;
                        if in_i32(x) && in_i32(y) {
                            self.rect = Rectangle {
                                x: x as i32,
                                y: y as i32,
                                width: r.width,
                                height: r.height,
                            };
                            true
                        } else {
                            false
                        }
                    },
                    _ => false,
                }
            },
            Gesture::Resize { handle, initial_rect: r, initial_cursor: c } => {
                match (scaled_delta(c.x, cursor.x, speed), scaled_delta(c.y, cursor.y, speed)) {
                    (Some(dx), Some(dy)) => match handle {
                        SideOrCorner::Corner(k) => {
                            if corner_resize_fits(k, r, dx, dy) {
                                self.rect = k.resize_rect(r, dx, dy);
                                true
                            } else {
                                false
                            }
                        },
                        SideOrCorner::Side(s) => {
                            if side_resize_fits(s, r, dx, dy) {
                                self.rect = s.resize_rect(r, dx, dy);
                                true
                            } else {
                                false
                            }
                        },
                    },
                    _ => false,
                }
            },
            Gesture::Extend { anchor: a } => {
                let w = cursor.x as i64 - a.x as i64;
                let h = cursor.y as i64 - a.y as i64;
                if in_i32(w) && in_i32(h) {
                    self.rect = Rectangle { x: a.x, y: a.y, width: w as i32, height: h as i32 };
                    true
                } else {
                    false
                }
            },
        }
    }

    /// Moves the corner of the normalized selection that is nearest to
    /// `cursor` onto the cursor, keeping the opposite corner in place.
    /// Returns whether the rectangle was replaced; it is not when a
    /// coordinate of the result does not fit in `i32`.
    pub fn resize_to_cursor(&mut self, cursor: Point) -> (done: bool)
        ensures
            final(self).gesture == old(self).gesture,
            done <==> old(self).rect.has_corners() && ({
                let (p, k) = old(self).rect.spec_corners().spec_nearest_corner(cursor);
                &&& fits_i32(cursor.x - p.x)
                &&& fits_i32(cursor.y - p.y)
                &&& k.spec_resize(old(self).rect.spec_norm(), cursor.x - p.x, cursor.y - p.y).fits()
            }),
            done ==> final(self).rect == ({
                let (p, k) = old(self).rect.spec_corners().spec_nearest_corner(cursor);
                k.spec_resize(old(self).rect.spec_norm(), cursor.x - p.x, cursor.y - p.y).stored()
            }),
            !done ==> final(self).rect == old(self).rect,
    {
        match self.rect.checked_corners() {
            None => false,
            Some(corners) => {
                let (p, k) = corners.nearest_corner(cursor);
                let dx = cursor.x as i64 - p.x as i64;
                let dy = cursor.y as i64 - p.y as i64;
                if in_i32(dx) && in_i32(dy) {
                    let n = self.rect.norm();
                    if corner_resize_fits(k, n, dx as i32, dy as i32) {
                        self.rect = k.resize_rect(n, dx as i32, dy as i32);
                        true
                    } else {
                        false
                    }
                } else {
                    false
                }
            },
        }
    }

    /// Sets the height to `new_height`, keeping the bottom-right corner in
    /// place and the width as it was. Returns whether the rectangle was
    /// replaced; it is not when the result does not fit in `i32`.
    pub fn resize_vertically(&mut self, new_height: u32) -> (done: bool)
        ensures
            final(self).gesture == old(self).gesture,
            done <==> fits_i32(new_height as int) && fits_i32(
                old(self).rect.y + old(self).rect.height - new_height,
            ),
            done ==> final(self).rect == (Rectangle {
                y: (old(self).rect.y + old(self).rect.height - new_height) as i32,
                height: new_height as i32,
                ..old(self).rect
            }),
            !done ==> final(self).rect == old(self).rect,
    {
        let r = self.rect;
        let y = r.y as i64 + r.height as i64 - new_height as i64;
        if new_height as i64 <= i32::MAX as i64 && in_i32(y) {
            self.rect = Rectangle { x: r.x, y: y as i32, width: r.width, height: new_height as i32 };
            true
        } else {
            false
        }
    }

    /// Sets the width to `new_width`, keeping the bottom-right corner in
    /// place and the height as it was. Returns whether the rectangle was
    /// replaced; it is not when the result does not fit in `i32`.
    pub fn resize_horizontally(&mut self, new_width: u32) -> (done: bool)
        ensures
            final(self).gesture == old(self).gesture,
            done <==> fits_i32(new_width as int) && fits_i32(
                old(self).rect.x + old(self).rect.width - new_width,
            ),
            done ==> final(self).rect == (Rectangle {
                x: (old(self).rect.x + old(self).rect.width - new_width) as i32,
                width: new_width as i32,
                ..old(self).rect
            }),
            !done ==> final(self).rect == old(self).rect,
    {
        let r = self.rect;
        let x = r.x as i64 + r.width as i64 - new_width as i64;
        if new_width as i64 <= i32::MAX as i64 && in_i32(x) {
            self.rect = Rectangle { x: x as i32, y: r.y, width: new_width as i32, height: r.height };
            true
        } else {
            false
        }
    }

    /// The button was released: the gesture ends and the rectangle is
    /// normalized, where its normal form fits in `i32`.
    pub fn release(&mut self)
        ensures
            final(self).gesture == Gesture::Idle,
            final(self).rect == (if old(self).rect.normalizable() {
                old(self).rect.spec_norm()
            } else {
                old(self).rect
            }),
    {
        let r = self.rect;
        let fits = (r.width >= 0 || (r.width > i32::MIN && in_i32(r.x as i64 + r.width as i64)))
            && (r.height >= 0 || (r.height > i32::MIN && in_i32(r.y as i64 + r.height as i64)));
        if fits {
            self.rect = r.norm();
        }
        self.gesture = Gesture::Idle;
    }
}

} // verus!
