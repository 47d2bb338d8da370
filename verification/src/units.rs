use vstd::prelude::*;

verus! {

/// Fixed-point steps per world unit.  Canvas coordinates are kept in
/// thousandths of a unit, angles in thousandths of a degree, and the
/// cosine/sine factors the host supplies are scaled by the same factor.
pub const MILLI: i64 = 1000;

/// Largest magnitude a canvas coordinate may have (in milli-units).
/// Keeping coordinates inside this range makes every position update and
/// every body-part placement free of overflow.
pub const COORD_LIMIT: i64 = 1_000_000_000_000;

/// Largest radius (in whole units) a frog body may be built with.
pub const SIZE_LIMIT: i64 = 1_000_000;

/// Largest magnitude a mouth angle may have (in milli-degrees).
pub const ANGLE_LIMIT: i64 = 1_000_000;

/// Largest value accepted for a fern's height cap (milli-units) or age cap
/// (ticks).
pub const CAP_LIMIT: i64 = 1_000_000_000_000;

} // verus!
