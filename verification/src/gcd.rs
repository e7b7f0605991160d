//! The greatest common divisor of two natural numbers, as a mathematical
//! function, and the facts about it that the renderers rely on.

use vstd::arithmetic::div_mod::{
    lemma_fundamental_div_mod, lemma_mod_multiples_basic, lemma_small_mod,
};
use vstd::prelude::*;

verus! {

/// `d` divides `n`. Zero divides only zero.
pub open spec fn divides(d: nat, n: nat) -> bool {
    if d == 0 {
        n == 0
    } else {
        n % d == 0
    }
}

/// The greatest common divisor, by Euclid's recurrence. `gcd(n, 0)` is `n`,
/// so `gcd(0, 0)` is `0`.
pub open spec fn gcd(a: nat, b: nat) -> nat
    decreases b,
{
    if b == 0 {
        a
    } else {
        gcd(b, a % b)
    }
}

/// Two numbers are coprime when their greatest common divisor is one.
pub open spec fn coprime(a: nat, b: nat) -> bool {
    gcd(a, b) == 1
}

/// A sum of a multiple of `x` and `y` is a multiple of whatever divides both
/// `x` and `y`.
proof fn lemma_combination_is_multiple(x: int, y: int, q: int, d: int)
    requires
        d > 0,
        x % d == 0,
        y % d == 0,
    ensures
        (q * x + y) % d == 0,
{
    lemma_fundamental_div_mod(x, d);
    lemma_fundamental_div_mod(y, d);
    let k = q * (x / d) + y / d;
    assert(q * x + y == k * d) by (nonlinear_arith)
        requires
            x == d * (x / d),
            y == d * (y / d),
            k == q * (x / d) + y / d,
    ;
    lemma_mod_multiples_basic(k, d);
}

/// With zero on either side the other argument comes back.
pub proof fn gcd_with_zero(n: nat)
    ensures
        gcd(0, n) == n,
        gcd(n, 0) == n,
{
    if n > 0 {
        assert(0nat % n == 0);
        assert(gcd(0, n) == gcd(n, 0));
    }
}

/// The order of the arguments does not matter.
pub proof fn gcd_symmetric(a: nat, b: nat)
    ensures
        gcd(a, b) == gcd(b, a),
{
    if a < b {
        lemma_small_mod(a, b);
        assert(gcd(a, b) == gcd(b, a % b));
    } else if b < a {
        lemma_small_mod(b, a);
        assert(gcd(b, a) == gcd(a, b % a));
    }
}

/// The greatest common divisor divides both arguments.
pub proof fn gcd_divides_both(a: nat, b: nat)
    ensures
        divides(gcd(a, b), a),
        divides(gcd(a, b), b),
    decreases b,
{
    if b == 0 {
        if a > 0 {
            lemma_mod_multiples_basic(1, a as int);
            assert(0nat % a == 0);
        }
    } else {
        let r = a % b;
        let g = gcd(b, r);
        gcd_divides_both(b, r);
        assert(g > 0);
        lemma_fundamental_div_mod(a as int, b as int);
        lemma_combination_is_multiple(b as int, r as int, (a / b) as int, g as int);
        assert((a / b) * b + r == a) by (nonlinear_arith)
            requires
                a == b * (a / b) + r,
        ;
    }
}

/// Whatever divides both arguments divides their greatest common divisor.
pub proof fn gcd_is_greatest(a: nat, b: nat, d: nat)
    requires
        divides(d, a),
        divides(d, b),
    ensures
        divides(d, gcd(a, b)),
    decreases b,
{
    if b > 0 {
        let r = a % b;
        lemma_fundamental_div_mod(a as int, b as int);
        lemma_combination_is_multiple(b as int, a as int, -((a / b) as int), d as int);
        assert(-((a / b) as int) * b + a == r) by (nonlinear_arith)
            requires
                a == b * (a / b) + r,
        ;
        gcd_is_greatest(b, r, d);
    }
}

/// Two numbers that divide each other are equal.
proof fn lemma_divides_antisymmetric(x: nat, y: nat)
    requires
        divides(x, y),
        divides(y, x),
    ensures
        x == y,
{
    if x > 0 && y > 0 {
        if x < y {
            lemma_small_mod(x, y);
        } else if y < x {
            lemma_small_mod(y, x);
        }
    }
}

/// Only the greatest common divisor is a common divisor that every common
/// divisor divides. Whatever computes such a number computes `gcd`.
pub proof fn gcd_unique(a: nat, b: nat, g: nat)
    requires
        divides(g, a),
        divides(g, b),
        forall|d: nat| divides(d, a) && divides(d, b) ==> #[trigger] divides(d, g),
    ensures
        g == gcd(a, b),
{
    gcd_divides_both(a, b);
    gcd_is_greatest(a, b, g);
    assert(divides(gcd(a, b), g));
    lemma_divides_antisymmetric(g, gcd(a, b));
}

/// Unless both arguments are zero, no common divisor is larger than the
/// greatest common divisor.
pub proof fn gcd_is_largest(a: nat, b: nat, d: nat)
    requires
        a > 0 || b > 0,
        divides(d, a),
        divides(d, b),
    ensures
        d <= gcd(a, b),
{
    gcd_is_greatest(a, b, d);
    gcd_bounds(a, b);
    let g = gcd(a, b);
    if d > g {
        lemma_small_mod(g, d);
    }
}

/// The greatest common divisor is zero only for `(0, 0)`, and is no larger
/// than either argument that is not zero.
pub proof fn gcd_bounds(a: nat, b: nat)
    ensures
        gcd(a, b) == 0 <==> a == 0 && b == 0,
        a > 0 ==> gcd(a, b) <= a,
        b > 0 ==> gcd(a, b) <= b,
{
    gcd_divides_both(a, b);
    let g = gcd(a, b);
    if g > 0 {
        if a > 0 && g > a {
            lemma_small_mod(a, g);
        }
        if b > 0 && g > b {
            lemma_small_mod(b, g);
        }
    }
}

} // verus!
