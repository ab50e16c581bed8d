//! Integer k-th roots.
//!
//! The simulation keeps every physical quantity in fixed-point integer
//! units, so the astrophysical power laws reduce to floor k-th roots of
//! integers.  `nth_root` computes them exactly; its result is pinned down
//! by [`is_nth_root`], which has a unique solution for every argument.

use vstd::arithmetic::power::pow;
use vstd::prelude::*;

verus! {

/// `r` is the floor of the `k`-th root of `x`.
pub open spec fn is_nth_root(x: nat, k: nat, r: nat) -> bool {
    pow(r as int, k) <= x < pow((r + 1) as int, k)
}

/// One recursive unfolding of `pow`, split off as a lemma.
proof fn lemma_pow_unfold(b: int, k: nat)
    requires
        k >= 1,
    ensures
        pow(b, k) == b * pow(b, (k - 1) as nat),
{
    vstd::arithmetic::power::lemma_pow_adds(b, 1, (k - 1) as nat);
    vstd::arithmetic::power::lemma_pow1(b);
}

/// Raising both of two ordered bases to the same power keeps the order.
pub proof fn lemma_pow_base_monotone(a: nat, b: nat, k: nat)
    requires
        a <= b,
    ensures
        pow(a as int, k) <= pow(b as int, k),
    decreases k,
{
    if k == 0 {
        vstd::arithmetic::power::lemma_pow0(a as int);
        vstd::arithmetic::power::lemma_pow0(b as int);
    } else {
        lemma_pow_base_monotone(a, b, (k - 1) as nat);
        lemma_pow_unfold(a as int, k);
        lemma_pow_unfold(b as int, k);
        if a == 0 {
            vstd::arithmetic::power::lemma0_pow(k);
            if b == 0 {
                vstd::arithmetic::power::lemma0_pow(k);
            } else {
                vstd::arithmetic::power::lemma_pow_positive(b as int, k);
            }
        } else {
            vstd::arithmetic::power::lemma_pow_positive(a as int, (k - 1) as nat);
            vstd::arithmetic::power::lemma_pow_positive(b as int, (k - 1) as nat);
            assert(a * pow(a as int, (k - 1) as nat) <= b * pow(b as int, (k - 1) as nat))
                by (nonlinear_arith)
                requires
                    0 < a <= b,
                    0 < pow(a as int, (k - 1) as nat) <= pow(b as int, (k - 1) as nat),
            ;
        }
    }
}

/// A floor root is below any base whose `k`-th power exceeds `x`.
pub proof fn lemma_root_below(x: nat, k: nat, r: nat, b: nat)
    requires
        k >= 1,
        is_nth_root(x, k, r),
        x < pow(b as int, k),
    ensures
        r < b,
{
    if r >= b {
        lemma_pow_base_monotone(b, r, k);
    }
}

/// The floor `k`-th root of `x` is unique.
pub proof fn lemma_nth_root_unique(x: nat, k: nat, r1: nat, r2: nat)
    requires
        k >= 1,
        is_nth_root(x, k, r1),
        is_nth_root(x, k, r2),
    ensures
        r1 == r2,
{
    if r1 < r2 {
        lemma_pow_base_monotone((r1 + 1) as nat, r2, k);
    }
    if r2 < r1 {
        lemma_pow_base_monotone((r2 + 1) as nat, r1, k);
    }
}

/// The floor `k`-th root of `x` as a spec-level function; well defined
/// because the defining property has at most one solution.
pub open spec fn nth_root_spec(x: nat, k: nat) -> nat {
    choose|r: nat| is_nth_root(x, k, r)
}

/// Connects a computed root witness to `nth_root_spec`.
pub proof fn lemma_nth_root_spec(x: nat, k: nat, r: nat)
    requires
        k >= 1,
        is_nth_root(x, k, r),
    ensures
        nth_root_spec(x, k) == r,
{
    assert(is_nth_root(x, k, nth_root_spec(x, k)));
    lemma_nth_root_unique(x, k, nth_root_spec(x, k), r);
}

/// Floor roots are monotone in the radicand.
pub proof fn lemma_nth_root_monotone(x1: nat, x2: nat, k: nat, r1: nat, r2: nat)
    requires
        k >= 1,
        x1 <= x2,
        is_nth_root(x1, k, r1),
        is_nth_root(x2, k, r2),
    ensures
        r1 <= r2,
{
    if r1 > r2 {
        lemma_pow_base_monotone((r2 + 1) as nat, r1, k);
    }
}

/// Bounds a product of two bounded nonnegative factors.
pub proof fn lemma_mul_le(a: int, amax: int, b: int, bmax: int)
    requires
        0 <= a <= amax,
        0 <= b <= bmax,
    ensures
        0 <= a * b <= amax * bmax,
{
    vstd::arithmetic::mul::lemma_mul_upper_bound(a, amax, b, bmax);
    vstd::arithmetic::mul::lemma_mul_nonnegative(a, b);
}

/// Unfolded value of a square, used to spell contracts without `pow`.
pub proof fn lemma_pow2_val(b: int)
    ensures
        pow(b, 2) == b * b,
{
    reveal_with_fuel(pow, 3);
    assert(pow(b, 2) == b * (b * 1));
}

/// Unfolded value of a cube.
pub proof fn lemma_pow3_val(b: int)
    ensures
        pow(b, 3) == b * b * b,
{
    reveal_with_fuel(pow, 4);
    assert(pow(b, 3) == b * (b * (b * 1)));
    assert(b * (b * (b * 1)) == b * b * b) by (nonlinear_arith);
}

/// Unfolded value of a fourth power.
pub proof fn lemma_pow4_val(b: int)
    ensures
        pow(b, 4) == b * b * b * b,
{
    reveal_with_fuel(pow, 5);
    assert(pow(b, 4) == b * (b * (b * (b * 1))));
    assert(b * (b * (b * (b * 1))) == b * b * b * b) by (nonlinear_arith);
}

/// Unfolded value of a fifth power.
pub proof fn lemma_pow5_val(b: int)
    ensures
        pow(b, 5) == b * b * b * b * b,
{
    reveal_with_fuel(pow, 6);
    assert(pow(b, 5) == b * (b * (b * (b * (b * 1)))));
    assert(b * (b * (b * (b * (b * 1)))) == b * b * b * b * b) by (nonlinear_arith);
}

/// Unfolded value of a seventh power.
pub proof fn lemma_pow7_val(b: int)
    ensures
        pow(b, 7) == b * b * b * b * b * b * b,
{
    reveal_with_fuel(pow, 8);
    assert(pow(b, 7) == b * (b * (b * (b * (b * (b * (b * 1)))))));
    assert(b * (b * (b * (b * (b * (b * (b * 1)))))) == b * b * b * b * b * b * b)
        by (nonlinear_arith);
}

/// Unfolded value of a tenth power.
pub proof fn lemma_pow10_val(b: int)
    ensures
        pow(b, 10) == b * b * b * b * b * b * b * b * b * b,
{
    reveal_with_fuel(pow, 11);
    assert(pow(b, 10) == b * (b * (b * (b * (b * (b * (b * (b * (b * (b * 1))))))))));
    assert(b * (b * (b * (b * (b * (b * (b * (b * (b * (b * 1)))))))))
        == b * b * b * b * b * b * b * b * b * b) by (nonlinear_arith);
}

/// Decides whether `b^k <= x` without ever overflowing.
fn pow_fits(b: u128, k: u32, x: u128) -> (res: bool)
    ensures
        res == (pow(b as int, k as nat) <= x as int),
{
    if k == 0 {
        proof {
            vstd::arithmetic::power::lemma_pow0(b as int);
        }
        return 1 <= x;
    }
    if b == 0 {
        proof {
            vstd::arithmetic::power::lemma0_pow(k as nat);
        }
        return true;
    }
    if b == 1 {
        proof {
            vstd::arithmetic::power::lemma1_pow(k as nat);
        }
        return 1 <= x;
    }
    if x == 0 {
        proof {
            vstd::arithmetic::power::lemma_pow_positive(b as int, k as nat);
        }
        return false;
    }
    let mut acc: u128 = 1;
    let mut i: u32 = 0;
    proof {
        vstd::arithmetic::power::lemma_pow0(b as int);
    }
    while i < k
        invariant
            i <= k,
            2 <= b,
            1 <= x,
            acc as int == pow(b as int, i as nat),
            acc <= x,
        decreases k - i,
    {
        proof {
            lemma_pow_unfold(b as int, (i + 1) as nat);
        }
        if acc > x / b {
            // One more factor already pushes the power past `x`, and
            // further factors only increase it.
            proof {
                vstd::arithmetic::div_mod::lemma_fundamental_div_mod(x as int, b as int);
                assert(acc * b > x) by (nonlinear_arith)
                    requires
                        2 <= b,
                        acc > x / b,
                        x as int == b * (x / b) + x % b,
                        x % b < b,
                ;
                vstd::arithmetic::power::lemma_pow_increases(b as nat, (i + 1) as nat, k as nat);
                assert(pow(b as int, (i + 1) as nat) == b * pow(b as int, i as nat));
                assert(pow(b as int, (i + 1) as nat) > x);
                assert(pow(b as int, k as nat) >= pow(b as int, (i + 1) as nat));
            }
            return false;
        }
        proof {
            vstd::arithmetic::div_mod::lemma_fundamental_div_mod(x as int, b as int);
            assert(acc * b <= x) by (nonlinear_arith)
                requires
                    2 <= b,
                    acc <= x / b,
                    x as int == b * (x / b) + x % b,
                    0 <= x % b,
            ;
            assert(pow(b as int, (i + 1) as nat) == b * pow(b as int, i as nat));
            assert(acc as int * b as int == b as int * pow(b as int, i as nat));
        }
        acc = acc * b;
        i = i + 1;
        proof {
            assert(acc as int == pow(b as int, i as nat));
        }
    }
    acc <= x
}

/// Floor `k`-th root of `x`, by binary search on the base.
pub fn nth_root(x: u128, k: u32) -> (r: u128)
    requires
        1 <= k,
        x < u128::MAX,
    ensures
        is_nth_root(x as nat, k as nat, r as nat),
        r <= x,
{
    let mut lo: u128 = 0;
    let mut hi: u128 = x + 1;
    proof {
        vstd::arithmetic::power::lemma0_pow(k as nat);
        vstd::arithmetic::power::lemma_pow1(hi as int);
        vstd::arithmetic::power::lemma_pow_increases(hi as nat, 1, k as nat);
    }
    while lo + 1 < hi
        invariant
            lo < hi,
            hi <= x + 1,
            pow(lo as int, k as nat) <= x as int,
            (x as int) < pow(hi as int, k as nat),
        decreases hi - lo,
    {
        let mid = lo + (hi - lo) / 2;
        if pow_fits(mid, k, x) {
            lo = mid;
        } else {
            hi = mid;
        }
    }
    lo
}

/// Floor square root over `u64`-sized values.
pub fn isqrt64(x: u64) -> (r: u64)
    ensures
        is_nth_root(x as nat, 2, r as nat),
        r * r <= x,
        r <= x,
{
    let r = nth_root(x as u128, 2);
    proof {
        lemma_pow2_val(r as int);
        lemma_pow2_val((r + 1) as int);
    }
    r as u64
}

} // verus!
