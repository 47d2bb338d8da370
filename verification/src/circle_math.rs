use vstd::prelude::*;
use crate::units::{COORD_LIMIT, MILLI, SIZE_LIMIT};

verus! {

/// Where a point at distance `radius` from `(center_x, center_y)` lands,
/// given the milli-scaled cosine and sine of the placement angle.
///
/// The center is in milli-units and the radius in whole units, so the
/// product `radius * cos_milli` is again in milli-units and the placement
/// needs no division.
pub open spec fn spec_point_on_circle(
    center_x: int,
    center_y: int,
    radius: int,
    cos_milli: int,
    sin_milli: int,
) -> (int, int) {
    (center_x + radius * cos_milli, center_y + radius * sin_milli)
}

/// Places a point on a circle from polar data.  The angle itself never
/// appears here: the host evaluates its cosine and sine once, scaled by
/// [`MILLI`], and this function does the exact fixed-point placement.
/// A zero or negative radius is accepted and flips the point through the
/// center.
pub fn get_point_on_circle(
    center_x: i64,
    center_y: i64,
    radius: i64,
    cos_milli: i64,
    sin_milli: i64,
) -> (r: (i64, i64))
    requires
        -COORD_LIMIT <= center_x <= COORD_LIMIT,
        -COORD_LIMIT <= center_y <= COORD_LIMIT,
        -SIZE_LIMIT <= radius <= SIZE_LIMIT,
        -MILLI <= cos_milli <= MILLI,
        -MILLI <= sin_milli <= MILLI,
    ensures
        (r.0 as int, r.1 as int) == spec_point_on_circle(
            center_x as int,
            center_y as int,
            radius as int,
            cos_milli as int,
            sin_milli as int,
        ),
{
    proof {
        assert((-SIZE_LIMIT * MILLI) <= radius * cos_milli <= SIZE_LIMIT * MILLI)
            by (nonlinear_arith)
            requires
                -SIZE_LIMIT <= radius <= SIZE_LIMIT,
                -MILLI <= cos_milli <= MILLI,
        ;
        assert((-SIZE_LIMIT * MILLI) <= radius * sin_milli <= SIZE_LIMIT * MILLI)
            by (nonlinear_arith)
            requires
                -SIZE_LIMIT <= radius <= SIZE_LIMIT,
                -MILLI <= sin_milli <= MILLI,
        ;
    }
    let x = center_x + radius * cos_milli;
    let y = center_y + radius * sin_milli;
    (x, y)
}

/// At angle zero the cosine factor is exactly [`MILLI`] and the sine factor
/// zero, so the placed point sits exactly `radius` units to the right of
/// the center.
pub proof fn lemma_point_on_circle_at_zero(center_x: int, center_y: int, radius: int)
    ensures
        spec_point_on_circle(center_x, center_y, radius, MILLI as int, 0)
            == (center_x + radius * (MILLI as int), center_y),
{
}

} // verus!
