//! Boolean conditions settled before run time. `Assert`/`IsTrue` encode a
//! boolean as a type so that a bound can demand it at compile time; the
//! functions here decide the same conditions on values, with contracts tying
//! them to the mathematical notions.

use vstd::arithmetic::div_mod::lemma_div_denominator;
use vstd::arithmetic::div_mod::lemma_fundamental_div_mod;
use vstd::arithmetic::div_mod::lemma_mod_bound;
use vstd::arithmetic::power2::is_pow2;
use vstd::arithmetic::power2::lemma_pow2_adds;
use vstd::arithmetic::power2::lemma_pow2_pos;
use vstd::arithmetic::power2::lemma_pow2_strictly_increases;
use vstd::arithmetic::power2::lemma2_to64;
use vstd::arithmetic::power2::pow2;
use vstd::prelude::*;

verus! {

/// A boolean lifted to the type level.
pub struct Assert<const COND: bool>;

/// Implemented by `Assert<true>` alone, so a `where Assert<..>: IsTrue` bound
/// holds exactly when the condition does.
pub trait IsTrue {

}

impl IsTrue for Assert<true> {

}

/// For `x >= 1` and `y == x - 1`: clearing the lowest set bit of `x` leaves
/// nothing exactly when `x` is a power of two.
proof fn lemma_pow2_bit_trick(x: usize, y: usize)
    requires
        1 <= x,
        y == x - 1,
    ensures
        ((x & y) == 0) <==> is_pow2(x as int),
    decreases x,
{
    reveal(is_pow2);
    if x == 1 {
        assert((x & y) == 0) by (bit_vector)
            requires
                x == 1 && y == 0,
        ;
    } else if x % 2 == 1 {
        assert((x & y) != 0) by (bit_vector)
            requires
                x > 1 && x % 2 == 1 && x == y + 1,
        ;
    } else {
        let h = x / 2;
        let hy = (h - 1) as usize;
        lemma_pow2_bit_trick(h, hy);
        assert(((x & y) == 0) <==> ((h & hy) == 0)) by (bit_vector)
            requires
                x > 1 && x % 2 == 0 && x == y + 1 && h == x / 2 && h == hy + 1,
        ;
    }
}

/// Whether `n` is a power of two, decided by the classic bit trick: a power
/// of two has exactly one set bit, so `n & (n - 1)` clears it to zero.
pub fn is_power_of_two(n: usize) -> (r: bool)
    ensures
        r == is_pow2(n as int),
{
    if n > 0 {
        let masked = n & (n - 1);
        proof {
            lemma_pow2_bit_trick(n, (n - 1) as usize);
        }
        masked == 0
    } else {
        proof {
            reveal(is_pow2);
        }
        false
    }
}

/// The floor of the base-two logarithm of `n >= 1`: the result `r` satisfies
/// `pow2(r) <= n < pow2(r + 1)`.
pub fn log2(n: usize) -> (r: usize)
    requires
        n >= 1,
    ensures
        pow2(r as nat) <= n < pow2((r + 1) as nat),
{
    let mut m: usize = n;
    let mut k: usize = 0;
    proof {
        lemma2_to64();
    }
    while m > 1
        invariant
            1 <= m,
            n >= 1,
            m as nat == n as nat / pow2(k as nat),
            pow2(k as nat) <= n as nat,
        decreases m,
    {
        proof {
            lemma_pow2_pos(k as nat);
            lemma_div_denominator(n as int, pow2(k as nat) as int, 2);
            lemma_pow2_adds(k as nat, 1);
            lemma2_to64();
            if k >= 64 {
                if k > 64 {
                    lemma_pow2_strictly_increases(64, k as nat);
                }
                assert(false);
            }
            lemma_fundamental_div_mod(n as int, pow2(k as nat) as int);
            lemma_mod_bound(n as int, pow2(k as nat) as int);
            assert(pow2(k as nat) * (m as nat) >= pow2(k as nat) * 2) by (nonlinear_arith)
                requires
                    m >= 2,
                    pow2(k as nat) >= 1,
            ;
        }
        m = m / 2;
        k = k + 1;
    }
    proof {
        lemma_pow2_pos(k as nat);
        lemma_fundamental_div_mod(n as int, pow2(k as nat) as int);
        lemma_mod_bound(n as int, pow2(k as nat) as int);
        lemma_pow2_adds(k as nat, 1);
        lemma2_to64();
    }
    k
}

} // verus!
