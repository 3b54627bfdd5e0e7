//! Selection geometry for a screenshot tool: rectangles, their corners and
//! sides, hit-testing of resize handles, the resize transform and the
//! pointer-gesture state machine that drives them.
pub mod geometry;
pub mod handle;
pub mod hit;
pub mod resize;
pub mod cursor;
pub mod upload;
pub mod gesture;
