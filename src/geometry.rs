//! Points, sizes and rectangles in integer pixel coordinates.
//!
//! A rectangle may carry a negative width or height while a drag is in
//! progress; `norm` brings it back to a non-negative extent whose position is
//! the top-left corner.
use vstd::prelude::*;

verus! {

/// Whether a mathematical integer can be stored as an `i32` coordinate.
pub open spec fn fits_i32(v: int) -> bool {
    i32::MIN <= v <= i32::MAX
}

/// A point on the screen.
#[derive(Debug, Clone, Copy, PartialEq, Eq, Structural)]
pub struct Point {
    pub x: i32,
    pub y: i32,
}

/// The extent of a rectangle.
#[derive(Debug, Clone, Copy, PartialEq, Eq, Structural)]
pub struct Size {
    pub width: i32,
    pub height: i32,
}

/// An axis-aligned rectangle given by its position and its extent.
#[derive(Debug, Clone, Copy, PartialEq, Eq, Structural)]
pub struct Rectangle {
    pub x: i32,
    pub y: i32,
    pub width: i32,
    pub height: i32,
}

/// The four corners of a rectangle.
#[derive(Debug, Clone, Copy, PartialEq, Eq, Structural)]
pub struct Corners {
    pub top_left: Point,
    pub top_right: Point,
    pub bottom_left: Point,
    pub bottom_right: Point,
}

impl Point {
    /// A point at the given coordinates.
    pub fn new(x: i32, y: i32) -> (r: Point)
        ensures
            r == (Point { x, y }),
    {
        Point { x, y }
    }

    /// The same point with its x coordinate replaced by `f(x)`.
    pub fn with_x<F: FnOnce(i32) -> i32>(self, f: F) -> (r: Point)
        requires
            f.requires((self.x,)),
        ensures
            f.ensures((self.x,), r.x),
            r.y == self.y,
    {
        Point { x: f(self.x), y: self.y }
    }

    /// The same point with its y coordinate replaced by `f(y)`.
    pub fn with_y<F: FnOnce(i32) -> i32>(self, f: F) -> (r: Point)
        requires
            f.requires((self.y,)),
        ensures
            f.ensures((self.y,), r.y),
            r.x == self.x,
    {
        Point { x: self.x, y: f(self.y) }
    }
}

impl Rectangle {
    /// Whether `norm` can represent its result: a negative extent is moved
    /// into the position, and its magnitude must fit as well.
    pub open spec fn normalizable(self) -> bool {
        &&& (self.width < 0 ==> fits_i32(self.x + self.width) && self.width > i32::MIN)
        &&& (self.height < 0 ==> fits_i32(self.y + self.height) && self.height > i32::MIN)
    }

    /// The rectangle covering the same area with a non-negative extent.
    pub open spec fn spec_norm(self) -> Rectangle {
        Rectangle {
            x: if self.width < 0 { (self.x + self.width) as i32 } else { self.x },
            y: if self.height < 0 { (self.y + self.height) as i32 } else { self.y },
            width: if self.width < 0 { (-self.width) as i32 } else { self.width },
            height: if self.height < 0 { (-self.height) as i32 } else { self.height },
        }
    }

    /// Whether the far corners `x + width` and `y + height` are coordinates.
    pub open spec fn far_edges_fit(self) -> bool {
        fits_i32(self.x + self.width) && fits_i32(self.y + self.height)
    }

    /// The corners of a rectangle, placed from its position and extent as
    /// they stand (without normalizing).
    pub open spec fn spec_corners_of(self) -> Corners {
        Corners {
            top_left: Point { x: self.x, y: self.y },
            top_right: Point { x: (self.x + self.width) as i32, y: self.y },
            bottom_left: Point { x: self.x, y: (self.y + self.height) as i32 },
            bottom_right: Point {
                x: (self.x + self.width) as i32,
                y: (self.y + self.height) as i32,
            },
        }
    }

    /// Whether `corners` can represent its result.
    pub open spec fn has_corners(self) -> bool {
        self.normalizable() && self.spec_norm().far_edges_fit()
    }

    /// The corners of the normalized rectangle.
    pub open spec fn spec_corners(self) -> Corners {
        self.spec_norm().spec_corners_of()
    }

    /// The position of the rectangle, as a point.
    pub open spec fn origin(self) -> Point {
        Point { x: self.x, y: self.y }
    }

    /// The width and height of the rectangle, as a size.
    pub open spec fn extent(self) -> Size {
        Size { width: self.width, height: self.height }
    }

    /// A rectangle at `pos` with extent `size`.
    pub fn new(pos: Point, size: Size) -> (r: Rectangle)
        ensures
            r == (Rectangle { x: pos.x, y: pos.y, width: size.width, height: size.height }),
    {
        Rectangle { x: pos.x, y: pos.y, width: size.width, height: size.height }
    }

    /// Moves a negative extent into the position, so that the position is
    /// the top-left corner and width and height are non-negative.
    pub fn norm(self) -> (r: Rectangle)
        requires
            self.normalizable(),
        ensures
            r == self.spec_norm(),
            r.width >= 0,
            r.height >= 0,
    {
        let mut r = self;
        if r.width < 0 {
            r.x = r.x + r.width;
            r.width = -r.width;
        }
        if r.height < 0 {
            r.y = r.y + r.height;
            r.height = -r.height;
        }
        r
    }

    /// The four corners of the rectangle, normalized first.
    pub fn corners(self) -> (r: Corners)
        requires
            self.has_corners(),
        ensures
            r == self.spec_corners(),
    {
        let rect = self.norm();
        let top_left = rect.position();
        Corners {
            top_left,
            top_right: Point::new(top_left.x + rect.width, top_left.y),
            bottom_left: Point::new(top_left.x, top_left.y + rect.height),
            bottom_right: Point::new(top_left.x + rect.width, top_left.y + rect.height),
        }
    }

    /// The four corners of the normalized rectangle, or `None` where a
    /// coordinate of them does not fit in an `i32`.
    pub fn checked_corners(self) -> (r: Option<Corners>)
        ensures
            r == (if self.has_corners() { Some(self.spec_corners()) } else { None }),
    {
        let x = self.x as i64;
        let y = self.y as i64;
        let w = self.width as i64;
        let h = self.height as i64;
        let (nx, nw) = if w < 0 { (x + w, -w) } else { (x, w) };
        let (ny, nh) = if h < 0 { (y + h, -h) } else { (y, h) };
        let lo = i32::MIN as i64;
        let hi = i32::MAX as i64;
        if lo <= nx && nx <= hi && nw <= hi && lo <= ny && ny <= hi && nh <= hi && nx + nw <= hi
            && ny + nh <= hi {
            Some(self.corners())
        } else {
            None
        }
    }

    /// The position of the rectangle.
    pub fn position(self) -> (r: Point)
        ensures
            r == (Point { x: self.x, y: self.y }),
    {
        Point { x: self.x, y: self.y }
    }

    /// The extent of the rectangle.
    pub fn size(self) -> (r: Size)
        ensures
            r == (Size { width: self.width, height: self.height }),
    {
        Size { width: self.width, height: self.height }
    }

    /// The position of the rectangle.
    pub fn pos(self) -> (r: Point)
        ensures
            r == (Point { x: self.x, y: self.y }),
    {
        self.position()
    }

    /// The position of the top-left corner.
    pub fn top_left(&self) -> (r: Point)
        ensures
            r == self.spec_corners_of().top_left,
    {
        self.position()
    }

    /// The position of the top-right corner.
    pub fn top_right(&self) -> (r: Point)
        requires
            fits_i32(self.x + self.width),
        ensures
            r == self.spec_corners_of().top_right,
    {
        Point { x: self.x + self.width, y: self.y }
    }

    /// The position of the bottom-right corner.
    pub fn bottom_right(&self) -> (r: Point)
        requires
            self.far_edges_fit(),
        ensures
            r == self.spec_corners_of().bottom_right,
    {
        Point { x: self.x + self.width, y: self.y + self.height }
    }

    /// The position of the bottom-left corner.
    pub fn bottom_left(&self) -> (r: Point)
        requires
            fits_i32(self.y + self.height),
        ensures
            r == self.spec_corners_of().bottom_left,
    {
        Point { x: self.x, y: self.y + self.height }
    }

    /// The rectangle with its extent replaced by `f(size)`.
    pub fn with_size<F: FnOnce(Size) -> Size>(self, f: F) -> (r: Rectangle)
        requires
            f.requires((self.extent(),)),
        ensures
            f.ensures((self.extent(),), r.extent()),
            r.origin() == self.origin(),
    {
        Self::new(self.position(), f(self.size()))
    }

    /// The rectangle with its position replaced by `f(position)`.
    pub fn with_pos<F: FnOnce(Point) -> Point>(self, f: F) -> (r: Rectangle)
        requires
            f.requires((self.origin(),)),
        ensures
            f.ensures((self.origin(),), r.origin()),
            r.extent() == self.extent(),
    {
        Self::new(f(self.position()), self.size())
    }

    /// The rectangle with its x coordinate replaced by `f(x)`.
    pub fn with_x<F: FnOnce(i32) -> i32>(self, f: F) -> (r: Rectangle)
        requires
            f.requires((self.x,)),
        ensures
            f.ensures((self.x,), r.x),
            r.y == self.y,
            r.width == self.width,
            r.height == self.height,
    {
        Rectangle { x: f(self.x), y: self.y, width: self.width, height: self.height }
    }

    /// The rectangle with its y coordinate replaced by `f(y)`.
    pub fn with_y<F: FnOnce(i32) -> i32>(self, f: F) -> (r: Rectangle)
        requires
            f.requires((self.y,)),
        ensures
            f.ensures((self.y,), r.y),
            r.x == self.x,
            r.width == self.width,
            r.height == self.height,
    {
        Rectangle { x: self.x, y: f(self.y), width: self.width, height: self.height }
    }

    /// The rectangle with its width replaced by `f(width)`.
    pub fn with_width<F: FnOnce(i32) -> i32>(self, f: F) -> (r: Rectangle)
        requires
            f.requires((self.width,)),
        ensures
            f.ensures((self.width,), r.width),
            r.x == self.x,
            r.y == self.y,
            r.height == self.height,
    {
        Rectangle { x: self.x, y: self.y, width: f(self.width), height: self.height }
    }

    /// The rectangle with its height replaced by `f(height)`.
    pub fn with_height<F: FnOnce(i32) -> i32>(self, f: F) -> (r: Rectangle)
        requires
            f.requires((self.height,)),
        ensures
            f.ensures((self.height,), r.height),
            r.x == self.x,
            r.y == self.y,
            r.width == self.width,
    {
        Rectangle { x: self.x, y: self.y, width: self.width, height: f(self.height) }
    }
}

/// Normalizing twice gives the same rectangle as normalizing once.
pub proof fn lemma_norm_idempotent(r: Rectangle)
    requires
        r.normalizable(),
    ensures
        r.spec_norm().normalizable(),
        r.spec_norm().spec_norm() == r.spec_norm(),
{
}

/// A normalized rectangle has a non-negative width and height.
pub proof fn lemma_norm_non_negative(r: Rectangle)
    requires
        r.normalizable(),
    ensures
        r.spec_norm().width >= 0,
        r.spec_norm().height >= 0,
{
}

/// In the corners of a normalized rectangle the top-left corner lies left of
/// the top-right one and above the bottom-left one.
pub proof fn lemma_corners_ordered(r: Rectangle)
    requires
        r.normalizable(),
        r.spec_norm().has_corners(),
    ensures
        r.spec_norm().spec_corners().top_left.x <= r.spec_norm().spec_corners().top_right.x,
        r.spec_norm().spec_corners().top_left.y <= r.spec_norm().spec_corners().bottom_left.y,
{
    lemma_norm_idempotent(r);
}

} // verus!
