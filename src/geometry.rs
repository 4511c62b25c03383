use vstd::prelude::*;

verus! {

/// A detected screen rectangle: top-left corner and size, in pixels.
#[derive(Debug, Clone, Copy, PartialEq, Eq, Structural)]
pub struct Rect {
    pub x: i32,
    pub y: i32,
    pub width: i32,
    pub height: i32,
}

/// A point on screen.
#[derive(Debug, Clone, Copy, PartialEq, Eq, Structural)]
pub struct Point {
    pub x: i64,
    pub y: i64,
}

/// Half of `v`, rounded toward zero as integer division does.
pub open spec fn half_toward_zero(v: int) -> int {
    if v >= 0 {
        v / 2
    } else {
        -((-v) / 2)
    }
}

/// The center of `bbox`, where a click on it lands.
pub open spec fn center_of(bbox: Rect) -> Point {
    Point {
        x: (bbox.x + half_toward_zero(bbox.width as int)) as i64,
        y: (bbox.y + half_toward_zero(bbox.height as int)) as i64,
    }
}

fn half(v: i32) -> (r: i64)
    ensures
        r == half_toward_zero(v as int),
{
    if v >= 0 {
        (v / 2) as i64
    } else {
        let m: i64 = -(v as i64);
        -(m / 2)
    }
}

/// The point at the center of `bbox`.
pub fn bbox_click_point(bbox: Rect) -> (r: Point)
    ensures
        r == center_of(bbox),
{
    Point { x: bbox.x as i64 + half(bbox.width), y: bbox.y as i64 + half(bbox.height) }
}

} // verus!
