use vstd::prelude::*;
use crate::point::Point;

verus! {

/// An RGB color with 8-bit channels.
#[derive(Clone, Copy, PartialEq, Eq, Structural, Debug)]
pub struct Color {
    pub red: u8,
    pub green: u8,
    pub blue: u8,
}

/// One drawing primitive, in the order the host backend should paint it.
/// Coordinates and weights are in milli-units.  A `stroke_weight` of zero
/// on an ellipse means the outline is not drawn.
#[derive(Clone, Copy, PartialEq, Eq, Structural, Debug)]
pub enum DrawCmd {
    Line { start: Point, end: Point, weight: i64, color: Color },
    Ellipse {
        center: Point,
        width: i64,
        height: i64,
        fill: Color,
        stroke: Color,
        stroke_weight: i64,
    },
}

/// Weight of every line the entities draw: two world units.
pub const LINE_WEIGHT: i64 = 2000;

/// The fly's body color.
pub open spec fn spec_fly_color() -> Color {
    Color { red: 255, green: 255, blue: 0 }
}

/// The frog's body color.
pub open spec fn spec_frog_color() -> Color {
    Color { red: 46, green: 139, blue: 87 }
}

} // verus!
