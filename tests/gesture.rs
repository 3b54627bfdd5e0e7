use ferrishot_select::geometry::{Point, Rectangle};
use ferrishot_select::gesture::{Gesture, Selection};
use ferrishot_select::handle::{Corner, Side, SideOrCorner};

fn rect(x: i32, y: i32, width: i32, height: i32) -> Rectangle {
    Rectangle { x, y, width, height }
}

fn pt(x: i32, y: i32) -> Point {
    Point { x, y }
}

#[test]
fn press_on_corner_resizes() {
    let mut s = Selection::new(rect(100, 100, 200, 100));
    assert!(s.press(pt(305, 195)));
    assert_eq!(
        s.gesture,
        Gesture::Resize {
            handle: SideOrCorner::Corner(Corner::BottomRight),
            initial_rect: rect(100, 100, 200, 100),
            initial_cursor: pt(305, 195),
        }
    );
    assert!(s.drag(pt(315, 215), 1));
    assert_eq!(s.rect, rect(100, 100, 210, 120));
    s.release();
    assert_eq!(s.gesture, Gesture::Idle);
    assert_eq!(s.rect, rect(100, 100, 210, 120));
}

#[test]
fn press_on_side_resizes_one_axis() {
    let mut s = Selection::new(rect(100, 100, 200, 100));
    assert!(s.press(pt(200, 100)));
    assert!(matches!(s.gesture, Gesture::Resize { handle: SideOrCorner::Side(Side::Top), .. }));
    assert!(s.drag(pt(250, 90), 1));
    assert_eq!(s.rect, rect(100, 90, 200, 110));
}

#[test]
fn press_inside_moves_with_speed() {
    let mut s = Selection::new(rect(100, 100, 200, 100));
    assert!(s.press(pt(200, 150)));
    assert_eq!(s.gesture, Gesture::Move { initial_rect: rect(100, 100, 200, 100), initial_cursor: pt(200, 150) });
    assert!(s.drag(pt(210, 145), 3));
    assert_eq!(s.rect, rect(130, 85, 200, 100));
}

#[test]
fn press_outside_extends_new_selection() {
    let mut s = Selection::new(rect(100, 100, 200, 100));
    assert!(s.press(pt(10, 10)));
    assert_eq!(s.gesture, Gesture::Extend { anchor: pt(10, 10) });
    assert_eq!(s.rect, rect(10, 10, 0, 0));
    assert!(s.drag(pt(0, 40), 5));
    assert_eq!(s.rect, rect(10, 10, -10, 30));
    s.release();
    assert_eq!(s.rect, rect(0, 10, 10, 30));
}

#[test]
fn start_new_then_drag() {
    let mut s = Selection::start_new(pt(5, 5));
    assert!(s.drag(pt(25, 15), 1));
    assert_eq!(s.rect, rect(5, 5, 20, 10));
}

#[test]
fn drag_when_idle_does_nothing() {
    let mut s = Selection::new(rect(1, 1, 2, 2));
    assert!(!s.drag(pt(50, 50), 1));
    assert_eq!(s.rect, rect(1, 1, 2, 2));
}

#[test]
fn drag_refuses_overflow() {
    let mut s = Selection::new(rect(100, 100, 200, 100));
    assert!(s.press(pt(200, 150)));
    assert!(!s.drag(pt(i32::MIN, 150), 1));
    assert_eq!(s.rect, rect(100, 100, 200, 100));
}

#[test]
fn press_normalizes_flipped_selection() {
    let mut s = Selection::new(rect(300, 200, -200, -100));
    assert!(s.press(pt(200, 150)));
    assert_eq!(s.rect, rect(100, 100, 200, 100));
}

#[test]
fn press_refuses_unrepresentable_corners() {
    let mut s = Selection::new(rect(i32::MAX, 0, 10, 10));
    assert!(!s.press(pt(0, 0)));
    assert_eq!(s.gesture, Gesture::Idle);
}

#[test]
fn resize_vertically_keeps_bottom_right() {
    let mut s = Selection::new(rect(100, 100, 200, 100));
    assert!(s.resize_vertically(40));
    assert_eq!(s.rect, rect(100, 160, 200, 40));
    assert_eq!(s.rect.bottom_right(), pt(300, 200));
}

#[test]
fn resize_horizontally_keeps_bottom_right() {
    let mut s = Selection::new(rect(100, 100, 200, 100));
    assert!(s.resize_horizontally(250));
    assert_eq!(s.rect, rect(50, 100, 250, 100));
    assert!(!s.resize_horizontally(u32::MAX));
    assert_eq!(s.rect, rect(50, 100, 250, 100));
}

#[test]
fn resize_to_cursor_moves_nearest_corner() {
    let mut s = Selection::new(rect(100, 100, 200, 100));
    assert!(s.resize_to_cursor(pt(320, 90)));
    assert_eq!(s.rect, rect(100, 90, 220, 110));
    let mut flipped = Selection::new(rect(300, 200, -200, -100));
    assert!(flipped.resize_to_cursor(pt(90, 210)));
    assert_eq!(flipped.rect, rect(90, 100, 210, 110));
}
