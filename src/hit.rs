//! Hit-testing against the corners of a selection: which resize handle lies
//! under the cursor, and which corner is nearest to it.
//!
//! Each handle owns a zone `FRAME_INTERACTION_AREA` wide: a square centred on
//! each corner, and a band centred on each side. Zone edges fall on half
//! pixels, so zones are compared in doubled coordinates, where they are whole.
use vstd::prelude::*;
use crate::geometry::{Corners, Point};
use crate::handle::{Corner, Side, SideOrCorner};

verus! {

/// The width of the zone around each side and corner in which that handle
/// can be grabbed.
pub const FRAME_INTERACTION_AREA: i64 = 35;

/// Whether `2 * v` lies in the half-open span `[lo2, lo2 + len2)`: a span
/// given in doubled coordinates.
pub open spec fn in_span(lo2: int, len2: int, v: int) -> bool {
    lo2 <= 2 * v < lo2 + len2
}

/// Whether `p` lies in the square zone centred on the vertex `v`.
pub open spec fn in_corner_zone(v: Point, p: Point) -> bool {
    &&& in_span(2 * v.x - FRAME_INTERACTION_AREA, 2 * FRAME_INTERACTION_AREA, p.x as int)
    &&& in_span(2 * v.y - FRAME_INTERACTION_AREA, 2 * FRAME_INTERACTION_AREA, p.y as int)
}

/// Whether `p` lies in the band along the horizontal side from `a` to `b`.
pub open spec fn in_horizontal_zone(a: Point, b: Point, p: Point) -> bool {
    &&& in_span(2 * a.x, 2 * (b.x - a.x), p.x as int)
    &&& in_span(2 * a.y - FRAME_INTERACTION_AREA, 2 * FRAME_INTERACTION_AREA, p.y as int)
}

/// Whether `p` lies in the band along the vertical side from `a` to `b`.
pub open spec fn in_vertical_zone(a: Point, b: Point, p: Point) -> bool {
    &&& in_span(2 * a.x - FRAME_INTERACTION_AREA, 2 * FRAME_INTERACTION_AREA, p.x as int)
    &&& in_span(2 * a.y, 2 * (b.y - a.y), p.y as int)
}

/// The squared Euclidean distance between two points.
pub open spec fn spec_dist2(a: Point, b: Point) -> int {
    (a.x - b.x) * (a.x - b.x) + (a.y - b.y) * (a.y - b.y)
}

/// The position of corners in the order in which they are tried.
pub open spec fn corner_rank(c: Corner) -> int {
    match c {
        Corner::TopLeft => 0,
        Corner::TopRight => 1,
        Corner::BottomLeft => 2,
        Corner::BottomRight => 3,
    }
}

/// Tests `2 * v` against the span `[lo2, lo2 + len2)` of doubled coordinates.
fn span_contains(lo2: i64, len2: i64, v: i32) -> (r: bool)
    ensures
        r == in_span(lo2 as int, len2 as int, v as int),
{
    let v2 = 2 * (v as i128);
    (lo2 as i128) <= v2 && v2 < (lo2 as i128) + (len2 as i128)
}

/// The squared distance between two points.
fn dist2(a: Point, b: Point) -> (r: i128)
    ensures
        r == spec_dist2(a, b),
{
    let dx = (a.x as i128) - (b.x as i128);
    let dy = (a.y as i128) - (b.y as i128);
    assert(0 <= dx * dx <= 0x1_0000_0000_0000_0000) by (nonlinear_arith)
        requires
            -0x1_0000_0000 <= dx <= 0x1_0000_0000,
    ;
    assert(0 <= dy * dy <= 0x1_0000_0000_0000_0000) by (nonlinear_arith)
        requires
            -0x1_0000_0000 <= dy <= 0x1_0000_0000,
    ;
    dx * dx + dy * dy
}

impl Corners {
    /// The point of the given corner.
    pub open spec fn at(self, c: Corner) -> Point {
        match c {
            Corner::TopLeft => self.top_left,
            Corner::TopRight => self.top_right,
            Corner::BottomLeft => self.bottom_left,
            Corner::BottomRight => self.bottom_right,
        }
    }

    /// The handle whose zone holds `p`: corners first, in the order
    /// top-left, top-right, bottom-left, bottom-right, then the sides top,
    /// right, left, bottom.
    pub open spec fn spec_side_at(self, p: Point) -> Option<SideOrCorner> {
        if in_corner_zone(self.top_left, p) {
            Some(SideOrCorner::Corner(Corner::TopLeft))
        } else if in_corner_zone(self.top_right, p) {
            Some(SideOrCorner::Corner(Corner::TopRight))
        } else if in_corner_zone(self.bottom_left, p) {
            Some(SideOrCorner::Corner(Corner::BottomLeft))
        } else if in_corner_zone(self.bottom_right, p) {
            Some(SideOrCorner::Corner(Corner::BottomRight))
        } else if in_horizontal_zone(self.top_left, self.top_right, p) {
            Some(SideOrCorner::Side(Side::Top))
        } else if in_vertical_zone(self.top_right, self.bottom_right, p) {
            Some(SideOrCorner::Side(Side::Right))
        } else if in_vertical_zone(self.top_left, self.bottom_left, p) {
            Some(SideOrCorner::Side(Side::Left))
        } else if in_horizontal_zone(self.bottom_left, self.bottom_right, p) {
            Some(SideOrCorner::Side(Side::Bottom))
        } else {
            None
        }
    }

    /// The corner nearest to `p` with its point: the first in the order
    /// top-left, top-right, bottom-left, bottom-right that no other corner
    /// is strictly nearer than.
    pub open spec fn spec_nearest_corner(self, p: Point) -> (Point, Corner) {
        let tl = spec_dist2(p, self.top_left);
        let tr = spec_dist2(p, self.top_right);
        let bl = spec_dist2(p, self.bottom_left);
        let br = spec_dist2(p, self.bottom_right);
        if tl <= tr && tl <= bl && tl <= br {
            (self.top_left, Corner::TopLeft)
        } else if tr <= bl && tr <= br {
            (self.top_right, Corner::TopRight)
        } else if bl <= br {
            (self.bottom_left, Corner::BottomLeft)
        } else {
            (self.bottom_right, Corner::BottomRight)
        }
    }

    /// Finds the nearest corner to this point; of corners at the same
    /// distance the first in the order top-left, top-right, bottom-left,
    /// bottom-right is taken.
    pub fn nearest_corner(&self, point: Point) -> (r: (Point, Corner))
        ensures
            r == self.spec_nearest_corner(point),
            r.0 == self.at(r.1),
            forall|k: Corner| spec_dist2(point, r.0) <= spec_dist2(point, #[trigger] self.at(k)),
            forall|k: Corner|
                corner_rank(k) < corner_rank(r.1) ==> spec_dist2(point, r.0) < spec_dist2(
                    point,
                    #[trigger] self.at(k),
                ),
    {
        let mut best = (self.top_left, Corner::TopLeft);
        let mut best_d = dist2(point, self.top_left);
        let d = dist2(point, self.top_right);
        if d < best_d {
            best = (self.top_right, Corner::TopRight);
            best_d = d;
        }
        let d = dist2(point, self.bottom_left);
        if d < best_d {
            best = (self.bottom_left, Corner::BottomLeft);
            best_d = d;
        }
        let d = dist2(point, self.bottom_right);
        if d < best_d {
            best = (self.bottom_right, Corner::BottomRight);
        }
        best
    }

    /// The resize handle under `point`, if any. Corner zones overlap the
    /// side zones near each vertex, so they are tried first.
    pub fn side_at(&self, point: Point) -> (r: Option<SideOrCorner>)
        ensures
            r == self.spec_side_at(point),
    {
        let area = FRAME_INTERACTION_AREA;
        let tl = self.top_left;
        let tr = self.top_right;
        let bl = self.bottom_left;
        let br = self.bottom_right;
        let in_tl = span_contains(2 * (tl.x as i64) - area, 2 * area, point.x)
            && span_contains(2 * (tl.y as i64) - area, 2 * area, point.y);
        if in_tl {
            return Some(SideOrCorner::Corner(Corner::TopLeft));
        }
        let in_tr = span_contains(2 * (tr.x as i64) - area, 2 * area, point.x)
            && span_contains(2 * (tr.y as i64) - area, 2 * area, point.y);
        if in_tr {
            return Some(SideOrCorner::Corner(Corner::TopRight));
        }
        let in_bl = span_contains(2 * (bl.x as i64) - area, 2 * area, point.x)
            && span_contains(2 * (bl.y as i64) - area, 2 * area, point.y);
        if in_bl {
            return Some(SideOrCorner::Corner(Corner::BottomLeft));
        }
        let in_br = span_contains(2 * (br.x as i64) - area, 2 * area, point.x)
            && span_contains(2 * (br.y as i64) - area, 2 * area, point.y);
        if in_br {
            return Some(SideOrCorner::Corner(Corner::BottomRight));
        }
        let in_top = span_contains(2 * (tl.x as i64), 2 * ((tr.x as i64) - (tl.x as i64)), point.x)
            && span_contains(2 * (tl.y as i64) - area, 2 * area, point.y);
        if in_top {
            return Some(SideOrCorner::Side(Side::Top));
        }
        let in_right = span_contains(2 * (tr.x as i64) - area, 2 * area, point.x)
            && span_contains(2 * (tr.y as i64), 2 * ((br.y as i64) - (tr.y as i64)), point.y);
        if in_right {
            return Some(SideOrCorner::Side(Side::Right));
        }
        let in_left = span_contains(2 * (tl.x as i64) - area, 2 * area, point.x)
            && span_contains(2 * (tl.y as i64), 2 * ((bl.y as i64) - (tl.y as i64)), point.y);
        if in_left {
            return Some(SideOrCorner::Side(Side::Left));
        }
        let in_bottom = span_contains(2 * (bl.x as i64), 2 * ((br.x as i64) - (bl.x as i64)), point.x)
            && span_contains(2 * (bl.y as i64) - area, 2 * area, point.y);
        if in_bottom {
            return Some(SideOrCorner::Side(Side::Bottom));
        }
        None
    }
}

/// A point in the zone of any vertex resolves to a corner, never to a side,
/// although the side zones reach that point as well.
pub proof fn lemma_corner_zone_priority(c: Corners, p: Point, v: Corner)
    requires
        in_corner_zone(c.at(v), p),
    ensures
        c.spec_side_at(p) matches Some(SideOrCorner::Corner(_)),
{
}

} // verus!
