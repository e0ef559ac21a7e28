//! The parametric curve and its fundamental period.
//!
//! The curve maps a parameter t to the position
//! `x = cos(a·t) − cos(b·t)^j`, `y = sin(c·t) − sin(d·t)^k` for six integer
//! shape coefficients. Evaluating the position takes trigonometry and is
//! left to the caller; what this module derives, and proves, is the
//! fundamental period of the curve: 2π divided by `gcd(gcd(a, b), gcd(c, d))`.
//!
//! A brute-force derivation — searching integer t for the first point with
//! `x > 0` and `y > 0`, capped at 1000 — existed as an alternative; it can
//! return a non-fundamental period, so the closed form over gcds is the one
//! implemented here.

use vstd::prelude::*;
use crate::gcd::{spec_gcd, lemma_gcd_pos, lemma_gcd_le, gcd_i32};

verus! {

/// 2π in nano-units: the parametric oscillator measures its phase — the
/// curve parameter t — in billionths.
pub const TAU_NANOS: u64 = 6_283_185_307;

/// Shape coefficients of the curve. Each is kept in [1, 100] by the
/// parameter layer; 1 as the lower bound keeps every gcd well defined.
#[derive(Clone, Copy, Debug)]
pub struct EquationA {
    pub a: i32,
    pub b: i32,
    pub c: i32,
    pub d: i32,
    pub j: i32,
    pub k: i32,
}

impl EquationA {
    /// The coefficients the parameters start at.
    pub open spec fn spec_default() -> EquationA {
        EquationA { a: 1, b: 7, c: 1, d: 7, j: 3, k: 3 }
    }

    /// The coefficients the parameters start at: a figure with a 2π period.
    pub fn default_coefficients() -> (e: EquationA)
        ensures
            e == EquationA::spec_default(),
            e.wf(),
    {
        EquationA { a: 1, b: 7, c: 1, d: 7, j: 3, k: 3 }
    }

    /// Every coefficient sits in the configured range.
    pub open spec fn wf(self) -> bool {
        &&& 1 <= self.a <= 100
        &&& 1 <= self.b <= 100
        &&& 1 <= self.c <= 100
        &&& 1 <= self.d <= 100
        &&& 1 <= self.j <= 100
        &&& 1 <= self.k <= 100
    }

    /// The number the fundamental period divides 2π by.
    pub open spec fn spec_period_divisor(self) -> nat {
        spec_gcd(
            spec_gcd(self.a as nat, self.b as nat),
            spec_gcd(self.c as nat, self.d as nat),
        )
    }

    /// The period of the curve in nano-units: 2π / divisor.
    pub open spec fn spec_period_nanos(self) -> nat {
        (TAU_NANOS as nat) / self.spec_period_divisor()
    }

    /// The divisor of 2π in the closed-form period: gcd(gcd(a, b), gcd(c, d)).
    pub fn period_divisor(&self) -> (g: u32)
        requires
            self.wf(),
        ensures
            g == self.spec_period_divisor(),
            1 <= g <= 100,
    {
        let x_gcd = gcd_i32(self.a, self.b);
        proof {
            lemma_gcd_pos(self.a as nat, self.b as nat);
            lemma_gcd_le(self.a as nat, self.b as nat);
        }
        let y_gcd = gcd_i32(self.c, self.d);
        proof {
            lemma_gcd_pos(self.c as nat, self.d as nat);
            lemma_gcd_le(self.c as nat, self.d as nat);
        }
        let g = gcd_i32(x_gcd, y_gcd);
        proof {
            lemma_gcd_pos(x_gcd as nat, y_gcd as nat);
            lemma_gcd_le(x_gcd as nat, y_gcd as nat);
        }
        g as u32
    }

    /// The fundamental period of the curve in nano-units.
    pub fn period_nanos(&self) -> (p: u64)
        requires
            self.wf(),
        ensures
            p == self.spec_period_nanos(),
            TAU_NANOS / 100 <= p <= TAU_NANOS,
    {
        let g = self.period_divisor();
        proof {
            vstd::arithmetic::div_mod::lemma_div_is_ordered_by_denominator(
                TAU_NANOS as int,
                1,
                g as int,
            );
            vstd::arithmetic::div_mod::lemma_div_is_ordered_by_denominator(
                TAU_NANOS as int,
                g as int,
                100,
            );
        }
        TAU_NANOS / (g as u64)
    }

    /// The t-grid the presentation layer samples the curve on for display:
    /// `count` values of t spread evenly over one fundamental period.
    pub fn curve_sample_times(&self, count: usize) -> (ts: Vec<u64>)
        requires
            self.wf(),
            count <= 1_000_000,
        ensures
            ts@.len() == count,
            forall|i: int|
                0 <= i < count ==> #[trigger] ts@[i] == (i * self.spec_period_nanos()) / (
                count as int),
    {
        let period = self.period_nanos();
        let mut ts: Vec<u64> = Vec::new();
        let mut i: usize = 0;
        while i < count
            invariant
                i <= count,
                count <= 1_000_000,
                period == self.spec_period_nanos(),
                period <= TAU_NANOS,
                ts@.len() == i,
                forall|k: int|
                    0 <= k < i ==> #[trigger] ts@[k] == (k * self.spec_period_nanos()) / (
                    count as int),
            decreases count - i,
        {
            proof {
                vstd::arithmetic::mul::lemma_mul_upper_bound(
                    i as int,
                    1_000_000,
                    period as int,
                    TAU_NANOS as int,
                );
            }
            ts.push(((i as u64) * period) / (count as u64));
            i = i + 1;
        }
        ts
    }
}

} // verus!
