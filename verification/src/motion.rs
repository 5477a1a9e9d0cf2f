//! How far something moves in one time step.
use vstd::prelude::*;

verus! {

/// The part of a time step that moves anything: a negative step counts as
/// no time at all.
pub open spec fn elapsed_part(dt: int) -> int {
    if dt > 0 {
        dt
    } else {
        0
    }
}

/// Distance covered in `dt` time units at the given rate; none when `dt` is
/// negative.
pub(crate) fn travel(rate: i64, dt: i64) -> (distance: i128)
    requires
        0 <= rate,
    ensures
        distance == rate * elapsed_part(dt as int),
        0 <= distance <= i64::MAX * i64::MAX,
{
    if dt > 0 {
        assert(0 <= rate * dt <= i64::MAX * i64::MAX) by (nonlinear_arith)
            requires
                0 <= rate <= i64::MAX,
                0 < dt <= i64::MAX,
        ;
        rate as i128 * dt as i128
    } else {
        assert(rate * 0 == 0) by (nonlinear_arith);
        0
    }
}

} // verus!
