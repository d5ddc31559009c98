//! Exact fixed-point numbers: thousandths of a unit, held in an `i64`.
//!
//! Every quantity the demo deals in — coordinates, radii, damping and
//! restitution coefficients, time steps — is a small decimal, so thousandths
//! represent all of them exactly and the arithmetic of the coordinate mapping
//! can be verified with no rounding model.

use vstd::prelude::*;

verus! {

/// Subunits per whole unit.
pub const MILLI: i64 = 1000;

/// A fixed-point number worth `milli` thousandths of a unit.
#[derive(Clone, Copy, PartialEq, Eq, Structural, Debug)]
pub struct Fixed {
    pub milli: i64,
}

/// Quotient of `a` by `b`, rounded toward zero — the quotient Rust's `/`
/// computes on machine integers. (In specifications `/` alone is Euclidean,
/// which differs on negative dividends.)
pub open spec fn div_trunc(a: int, b: int) -> int {
    if a >= 0 {
        a / b
    } else {
        -((-a) / b)
    }
}

impl Fixed {
    /// The fixed-point number worth `milli` thousandths.
    pub fn from_milli(milli: i64) -> (r: Fixed)
        ensures
            r.milli == milli,
    {
        Fixed { milli }
    }

    /// The fixed-point number worth `units` whole units.
    pub fn from_units(units: i64) -> (r: Fixed)
        requires
            -9_000_000_000_000_000 <= units <= 9_000_000_000_000_000,
        ensures
            r.milli == units * MILLI,
    {
        Fixed { milli: units * MILLI }
    }

    /// Whole units, rounded toward zero.
    pub fn to_units(self) -> (r: i64)
        requires
            self.milli != i64::MIN,
        ensures
            r == div_trunc(self.milli as int, MILLI as int),
    {
        div_pos(self.milli, MILLI)
    }
}

/// `a / b` as Rust computes it on `i64`, for a positive divisor.
pub fn div_pos(a: i64, b: i64) -> (r: i64)
    requires
        a != i64::MIN,
        b > 0,
    ensures
        r == div_trunc(a as int, b as int),
{
    if a >= 0 {
        a / b
    } else {
        -((-a) / b)
    }
}

} // verus!
