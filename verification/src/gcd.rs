//! Greatest common divisors, used to derive the fundamental period of the
//! parametric curve oscillator.

use vstd::prelude::*;

verus! {

/// The greatest common divisor, by Euclid's recursion; `spec_gcd(a, 0) == a`.
pub open spec fn spec_gcd(a: nat, b: nat) -> nat
    decreases b,
{
    if b == 0 {
        a
    } else {
        spec_gcd(b, a % b)
    }
}

/// The gcd of two positive numbers is positive.
pub proof fn lemma_gcd_pos(a: nat, b: nat)
    requires
        a >= 1,
    ensures
        spec_gcd(a, b) >= 1,
    decreases b,
{
    if b != 0 {
        lemma_gcd_pos(b, a % b);
    }
}

/// The gcd never exceeds its second argument when that argument is positive.
pub proof fn lemma_gcd_le(a: nat, b: nat)
    requires
        b >= 1,
    ensures
        spec_gcd(a, b) <= b,
    decreases b,
{
    let r = a % b;
    if r == 0 {
        assert(spec_gcd(a, b) == spec_gcd(b, 0));
        assert(spec_gcd(b, 0) == b);
    } else {
        lemma_gcd_le(b, r);
        assert(r < b);
    }
}

/// Relies on `num::Integer::gcd` for `i32` (Stein's binary algorithm): for
/// positive arguments it returns their greatest common divisor, which is
/// always positive.
#[verifier::external_body]
pub(crate) fn gcd_i32(a: i32, b: i32) -> (r: i32)
    requires
        1 <= a,
        1 <= b,
    ensures
        r == spec_gcd(a as nat, b as nat),
{
    num::Integer::gcd(&a, &b)
}

} // verus!
