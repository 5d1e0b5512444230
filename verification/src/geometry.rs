//! Points and rectangles on the screen.
use vstd::prelude::*;

verus! {

/// A point on the screen.
#[derive(Debug, Clone, Copy, PartialEq, Eq, Structural)]
pub struct Point {
    pub x: i32,
    pub y: i32,
}

/// A rectangle on the screen.
#[derive(Debug, Clone, Copy, PartialEq, Eq, Structural)]
pub struct Rect {
    pub x: i32,
    pub y: i32,
    pub width: u32,
    pub height: u32,
}

/// The point lies in the rectangle: its left and top edges included, the
/// right and bottom edges not.
pub open spec fn inside(r: Rect, p: Point) -> bool {
    r.x <= p.x < r.x + r.width && r.y <= p.y < r.y + r.height
}

impl Rect {
    /// Whether the point lies in the rectangle.
    pub fn contains_point(&self, p: Point) -> (res: bool)
        ensures
            res == inside(*self, p),
    {
        let px = p.x as i64;
        let py = p.y as i64;
        let x = self.x as i64;
        let y = self.y as i64;
        px >= x && px < x + self.width as i64 && py >= y && py < y + self.height as i64
    }
}

} // verus!
