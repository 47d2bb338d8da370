use vstd::prelude::*;

verus! {

/// A position on the canvas, both coordinates in milli-units.
#[derive(Clone, Copy, PartialEq, Eq, Structural, Debug)]
pub struct Point {
    pub x_position: i64,
    pub y_position: i64,
}

impl Point {
    pub fn new(x_position: i64, y_position: i64) -> (p: Point)
        ensures
            p.x_position == x_position,
            p.y_position == y_position,
    {
        Point { x_position, y_position }
    }
}

} // verus!
