use vstd::prelude::*;

verus! {

/// The fixed canvas configuration: a square grid of cells plus a margin
/// on every side.  `line_width` is in milli-units like every other
/// length.
#[derive(Clone, Copy, PartialEq, Eq, Structural, Debug)]
pub struct Config {
    pub rows: u32,
    pub cols: u32,
    pub size: u32,
    pub line_width: i64,
    pub margin: u32,
    pub width: u32,
    pub height: u32,
    pub debug_mode: bool,
}

impl Config {
    /// The one configuration the simulation runs with: a 100 by 100 grid
    /// of 10-unit cells inside a 35-unit margin, so a 1070-unit square
    /// window.
    pub fn new() -> (c: Config)
        ensures
            c.rows == 100,
            c.cols == 100,
            c.size == 10,
            c.line_width == 2000,
            c.margin == 35,
            c.width == c.cols * c.size + 2 * c.margin,
            c.height == c.rows * c.size + 2 * c.margin,
            c.width == 1070,
            c.height == 1070,
            !c.debug_mode,
    {
        let rows: u32 = 100;
        let cols: u32 = 100;
        let size: u32 = 10;
        let line_width: i64 = 2000;
        let margin: u32 = 35;
        let width = cols * size + 2 * margin;
        let height = rows * size + 2 * margin;
        let debug_mode = false;
        Config { rows, cols, size, line_width, margin, width, height, debug_mode }
    }
}

} // verus!
