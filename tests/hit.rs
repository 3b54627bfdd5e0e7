use ferrishot_select::cursor::CursorIconKind;
use ferrishot_select::geometry::{Corners, Point, Rectangle};
use ferrishot_select::handle::{Corner, Side, SideOrCorner};

fn square() -> Corners {
    Corners {
        top_left: Point { x: 0, y: 0 },
        top_right: Point { x: 100, y: 0 },
        bottom_left: Point { x: 0, y: 100 },
        bottom_right: Point { x: 100, y: 100 },
    }
}

#[test]
fn nearest_corner_example() {
    assert_eq!(
        square().nearest_corner(Point { x: 10, y: 5 }),
        (Point { x: 0, y: 0 }, Corner::TopLeft)
    );
}

#[test]
fn nearest_corner_each_quadrant() {
    let c = square();
    assert_eq!(c.nearest_corner(Point { x: 90, y: 5 }).1, Corner::TopRight);
    assert_eq!(c.nearest_corner(Point { x: 5, y: 90 }).1, Corner::BottomLeft);
    assert_eq!(c.nearest_corner(Point { x: 200, y: 300 }), (Point { x: 100, y: 100 }, Corner::BottomRight));
}

#[test]
fn nearest_corner_tie_takes_first() {
    let c = square();
    assert_eq!(c.nearest_corner(Point { x: 50, y: 50 }).1, Corner::TopLeft);
    assert_eq!(c.nearest_corner(Point { x: 50, y: 100 }).1, Corner::BottomLeft);
    assert_eq!(c.nearest_corner(Point { x: 100, y: 50 }).1, Corner::TopRight);
}

#[test]
fn side_at_vertex_is_corner() {
    let c = square();
    assert_eq!(c.side_at(Point { x: 0, y: 0 }), Some(SideOrCorner::Corner(Corner::TopLeft)));
    assert_eq!(c.side_at(Point { x: 17, y: 3 }), Some(SideOrCorner::Corner(Corner::TopLeft)));
    assert_eq!(c.side_at(Point { x: 103, y: -10 }), Some(SideOrCorner::Corner(Corner::TopRight)));
    assert_eq!(c.side_at(Point { x: -17, y: 117 }), Some(SideOrCorner::Corner(Corner::BottomLeft)));
    assert_eq!(c.side_at(Point { x: 100, y: 100 }), Some(SideOrCorner::Corner(Corner::BottomRight)));
}

#[test]
fn side_at_sides() {
    let c = square();
    assert_eq!(c.side_at(Point { x: 50, y: 10 }), Some(SideOrCorner::Side(Side::Top)));
    assert_eq!(c.side_at(Point { x: 110, y: 50 }), Some(SideOrCorner::Side(Side::Right)));
    assert_eq!(c.side_at(Point { x: -5, y: 50 }), Some(SideOrCorner::Side(Side::Left)));
    assert_eq!(c.side_at(Point { x: 50, y: 117 }), Some(SideOrCorner::Side(Side::Bottom)));
}

#[test]
fn side_at_zone_edges() {
    let c = square();
    assert_eq!(c.side_at(Point { x: 18, y: 0 }), Some(SideOrCorner::Side(Side::Top)));
    assert_eq!(c.side_at(Point { x: 50, y: 18 }), None);
    assert_eq!(c.side_at(Point { x: 50, y: -18 }), None);
    assert_eq!(c.side_at(Point { x: 50, y: -17 }), Some(SideOrCorner::Side(Side::Top)));
}

#[test]
fn side_at_nothing() {
    let c = square();
    assert_eq!(c.side_at(Point { x: 50, y: 50 }), None);
    assert_eq!(c.side_at(Point { x: 500, y: 500 }), None);
}

#[test]
fn side_at_from_rectangle() {
    let c = Rectangle { x: 100, y: 100, width: -100, height: -100 }.corners();
    assert_eq!(c, square());
    assert_eq!(c.side_at(Point { x: 99, y: 1 }), Some(SideOrCorner::Corner(Corner::TopRight)));
}

#[test]
fn mouse_icon_table() {
    let cases = [
        (SideOrCorner::Side(Side::Top), CursorIconKind::ResizingVertically),
        (SideOrCorner::Side(Side::Bottom), CursorIconKind::ResizingVertically),
        (SideOrCorner::Side(Side::Left), CursorIconKind::ResizingHorizontally),
        (SideOrCorner::Side(Side::Right), CursorIconKind::ResizingHorizontally),
        (SideOrCorner::Corner(Corner::TopLeft), CursorIconKind::ResizingDiagonallyDown),
        (SideOrCorner::Corner(Corner::BottomRight), CursorIconKind::ResizingDiagonallyDown),
        (SideOrCorner::Corner(Corner::TopRight), CursorIconKind::ResizingDiagonallyUp),
        (SideOrCorner::Corner(Corner::BottomLeft), CursorIconKind::ResizingDiagonallyUp),
    ];
    for (handle, icon) in cases {
        assert_eq!(handle.mouse_icon(), icon);
    }
}
