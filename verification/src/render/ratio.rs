//! Exact buffer entries.
//!
//! Every number that a draw call hands to a backend is a quotient of two
//! integers: a pixel coordinate over a frame extent, a colour channel over
//! 255, a texture coordinate 0 or 1. A `Ratio` keeps both integers, so that
//! the composition of buffers is exact; a backend rounds once, when it
//! divides.

use vstd::prelude::*;

verus! {

/// The quotient `num / den`.
///
/// A zero denominator stands for a quotient that has no finite value.
#[derive(Clone, Copy, Debug, PartialEq, Eq, Structural)]
pub struct Ratio {
    pub num: i128,
    pub den: u64,
}

impl Ratio {
    /// The quotient has a value.
    pub open spec fn is_finite(self) -> bool {
        self.den != 0
    }

    /// The number that the quotient denotes, where it is finite.
    pub open spec fn value(self) -> real
        recommends
            self.is_finite(),
    {
        self.num as real / self.den as real
    }

    /// The value lies in the closed interval from -1 to 1.
    pub open spec fn in_unit_range(self) -> bool {
        self.is_finite() && -self.den <= self.num <= self.den
    }

    /// The quotient with the opposite sign.
    pub open spec fn negated(self) -> Ratio {
        Ratio { num: (-self.num) as i128, den: self.den }
    }
}

pub proof fn lemma_unit_range_value(q: Ratio)
    requires
        q.is_finite(),
    ensures
        q.in_unit_range() <==> -1real <= q.value() <= 1real,
{
    let n = q.num as real;
    let d = q.den as real;
    assert(d > 0real);
    assert(q.num <= q.den <==> n <= d);
    assert(-q.den <= q.num <==> -d <= n);
    assert((n / d <= 1real) <==> (n <= d)) by (nonlinear_arith)
        requires d > 0real;
    assert((-1real <= n / d) <==> (-d <= n)) by (nonlinear_arith)
        requires d > 0real;
}

} // verus!
