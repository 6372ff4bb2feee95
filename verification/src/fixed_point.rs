//! Scaled-integer arithmetic.
//!
//! Every monetary quantity of the venue is a signed integer in units of
//! `10^-9`; prices carry their own decimal count. All divisions truncate
//! toward zero. The truncation policy is stated once, here, as [`trunc_div`],
//! and every other module divides through the functions of this module.
//!
//! Intermediate products are held in 128 bits. A product that leaves the
//! symmetric range `-i128::MAX ..= i128::MAX` is outside what the machine can
//! hold; the functions with a `requires` leave such inputs out, and their
//! `checked_` companions report them as `None`.

use vstd::prelude::*;

verus! {

/// Number of decimal places of an amount.
pub const AMOUNT_NUM_DECIMALS: u8 = 9;

/// One whole unit of an amount: `10^9`.
pub const AMOUNT_DECIMALS: i128 = 1_000_000_000;

/// Denominator of a fee rate: `10^4`.
pub const FEE_DECIMALS: i128 = 10_000;

/// Denominator of a leverage factor: `10^4`.
pub const LEVERAGE_DECIMALS: i128 = 10_000;

/// Denominator of a market weight: `10^4`.
pub const MARKET_WEIGHT_DECIMALS: i128 = 10_000;

/// Seconds in a year of 365 days.
pub const ONE_YEAR: i128 = 31_536_000;

/// Largest exponent `n` for which `10^n` fits in 128 signed bits.
pub const MAX_POW10_EXPONENT: u32 = 38;

/// `10^n`.
pub open spec fn pow10(n: nat) -> int
    decreases n,
{
    if n == 0 {
        1
    } else {
        10 * pow10((n - 1) as nat)
    }
}

/// Absolute value.
pub open spec fn abs(x: int) -> int {
    if x < 0 {
        -x
    } else {
        x
    }
}

/// The quotient of `a` by `b`, rounded toward zero. Meaningful for `b != 0`.
pub open spec fn trunc_div(a: int, b: int) -> int {
    if a >= 0 {
        a / b
    } else {
        -((-a) / b)
    }
}

/// The remainder that goes with [`trunc_div`]: it has the sign of `a`.
pub open spec fn trunc_rem(a: int, b: int) -> int {
    a - b * trunc_div(a, b)
}

/// `x` can be held in 128 signed bits together with its negation.
pub open spec fn wide(x: int) -> bool {
    -(i128::MAX as int) <= x <= i128::MAX as int
}

/// `x` can be held in 64 signed bits.
pub open spec fn fits_i64(x: int) -> bool {
    i64::MIN as int <= x <= i64::MAX as int
}

/// `a * b / 10^d`, rounded toward zero.
pub open spec fn scaled(a: int, b: int, d: nat) -> int {
    trunc_div(a * b, pow10(d))
}

/// The inputs on which `a * b / 10^d` can be computed in 128 bits.
pub open spec fn scale_defined(a: int, b: int, d: nat) -> bool {
    d <= MAX_POW10_EXPONENT && wide(a * b)
}

/// `num1 * num / denom`, rounded toward zero, and `0` for a zero denominator.
pub open spec fn ratio(num1: int, num: int, denom: int) -> int {
    if denom == 0 {
        0
    } else {
        trunc_div(num1 * num, denom)
    }
}

/// The inputs on which [`ratio`] can be computed in 128 bits: the product,
/// taken to nine further decimal places before it is divided, has to fit.
pub open spec fn ratio_defined(num1: int, num: int, denom: int) -> bool {
    denom != 0 ==> wide(num1 * num) && wide(num1 * num * AMOUNT_DECIMALS)
}

/// `pow10` is positive and grows with its argument.
pub proof fn lemma_pow10_increases(m: nat, n: nat)
    requires
        m <= n,
    ensures
        0 < pow10(m) <= pow10(n),
    decreases n,
{
    if n == 0 {
    } else if m == n {
        lemma_pow10_increases((m - 1) as nat, (n - 1) as nat);
    } else {
        lemma_pow10_increases(m, (n - 1) as nat);
    }
}

/// `10^38` is the largest power of ten below `2^127`.
pub proof fn lemma_pow10_max()
    ensures
        pow10(38) == 100_000_000_000_000_000_000_000_000_000_000_000_000int,
        pow10(38) < i128::MAX,
        pow10(9) == AMOUNT_DECIMALS,
        pow10(4) == FEE_DECIMALS,
{
    reveal_with_fuel(pow10, 40);
}

/// Rounding toward zero is symmetric: negating the dividend negates the
/// quotient, and so does negating the divisor.
pub proof fn lemma_trunc_div_symmetric(a: int, b: int)
    requires
        b != 0,
    ensures
        trunc_div(-a, b) == -trunc_div(a, b),
        trunc_div(a, -b) == -trunc_div(a, b),
        trunc_div(abs(a), abs(b)) == abs(trunc_div(a, b)),
{
    lemma_div_neg_divisor(abs(a), b);
    lemma_div_neg_divisor(abs(a), -b);
    if b > 0 {
        lemma_div_nonneg(abs(a), b);
    } else {
        lemma_div_nonneg(abs(a), -b);
    }
}

/// For a non-negative dividend, dividing by `-b` gives the negated quotient.
proof fn lemma_div_neg_divisor(a: int, b: int)
    requires
        a >= 0,
        b != 0,
    ensures
        a / (-b) == -(a / b),
{
    let q = a / b;
    let r = a % b;
    vstd::arithmetic::div_mod::lemma_fundamental_div_mod(a, b);
    assert(0 <= r < abs(b)) by {
        lemma_euclid_rem_bound(a, b);
    }
    assert(a == (-q) * (-b) + r) by (nonlinear_arith)
        requires
            a == b * q + r,
    ;
    lemma_euclid_unique(a, -b, -q, r);
}

/// The Euclidean remainder lies in `0 .. |b|`, whatever the sign of `b`.
proof fn lemma_euclid_rem_bound(a: int, b: int)
    by (nonlinear_arith)
    requires
        b != 0,
    ensures
        0 <= a % b < abs(b),
{
}

/// A quotient and remainder that satisfy the Euclidean conditions are the
/// ones that `/` and `%` give.
proof fn lemma_euclid_unique(a: int, b: int, q: int, r: int)
    by (nonlinear_arith)
    requires
        b != 0,
        a == q * b + r,
        0 <= r < abs(b),
    ensures
        a / b == q,
        a % b == r,
{
}

/// A non-negative dividend and a positive divisor give a non-negative
/// quotient, no larger than the dividend.
proof fn lemma_div_nonneg(a: int, b: int)
    by (nonlinear_arith)
    requires
        a >= 0,
        b > 0,
    ensures
        0 <= a / b <= a,
{
}

/// The quotient is no larger in magnitude than the dividend, has the sign
/// that the signs of dividend and divisor give it, and leaves a remainder
/// smaller in magnitude than the divisor.
pub proof fn lemma_trunc_div_bounds(a: int, b: int)
    requires
        b != 0,
    ensures
        abs(trunc_div(a, b)) <= abs(a),
        (a >= 0) == (b > 0) ==> trunc_div(a, b) >= 0,
        (a >= 0) != (b > 0) ==> trunc_div(a, b) <= 0,
        abs(trunc_rem(a, b)) < abs(b),
        a >= 0 ==> trunc_rem(a, b) >= 0,
        a <= 0 ==> trunc_rem(a, b) <= 0,
{
    lemma_trunc_div_symmetric(a, b);
    let x = abs(a);
    let y = abs(b);
    lemma_div_nonneg(x, y);
    vstd::arithmetic::div_mod::lemma_fundamental_div_mod(x, y);
    vstd::arithmetic::div_mod::lemma_mod_bound(x, y);
    let q = x / y;
    assert(trunc_div(x, y) == q);
    assert(abs(trunc_div(a, b)) == q);
    // a - b * trunc_div(a, b) is +-(x - y * q)
    assert(x - y * q == x % y);
    if a >= 0 {
        if b > 0 {
            assert(trunc_div(a, b) == q);
        } else {
            assert(trunc_div(a, b) == -q);
            assert(b * (-q) == y * q) by (nonlinear_arith)
                requires
                    y == -b,
            ;
        }
    } else {
        if b > 0 {
            assert(trunc_div(a, b) == -q);
            assert(b * (-q) == -(y * q)) by (nonlinear_arith)
                requires
                    y == b,
            ;
        } else {
            assert(trunc_div(a, b) == q);
            assert(b * q == -(y * q)) by (nonlinear_arith)
                requires
                    y == -b,
            ;
        }
    }
}

/// Rounding toward zero keeps the order of the dividends, for a positive
/// divisor.
pub proof fn lemma_trunc_div_monotonic(a: int, b: int, d: int)
    requires
        d > 0,
        a <= b,
    ensures
        trunc_div(a, d) <= trunc_div(b, d),
{
    if a >= 0 {
        vstd::arithmetic::div_mod::lemma_div_is_ordered(a, b, d);
    } else if b >= 0 {
        lemma_trunc_div_bounds(a, d);
        lemma_trunc_div_bounds(b, d);
    } else {
        vstd::arithmetic::div_mod::lemma_div_is_ordered(-b, -a, d);
    }
}

/// Taking a quotient to `k` further places before the division, and dropping
/// them after it, changes nothing: `(x * k / d) / k == x / d`.
pub proof fn lemma_trunc_div_rescaled(x: int, k: int, d: int)
    requires
        k > 0,
        d != 0,
    ensures
        trunc_div(trunc_div(x * k, d), k) == trunc_div(x, d),
{
    let xa = abs(x);
    let da = abs(d);
    assert(abs(x * k) == xa * k) by (nonlinear_arith)
        requires
            k > 0,
            xa == abs(x),
    ;
    lemma_trunc_div_symmetric(x * k, d);
    lemma_trunc_div_symmetric(x, d);
    // magnitudes
    let inner = (xa * k) / da;
    assert(xa * k >= 0) by (nonlinear_arith)
        requires
            xa >= 0,
            k > 0,
    ;
    lemma_div_nonneg(xa * k, da);
    assert(inner / k == xa / da) by {
        vstd::arithmetic::div_mod::lemma_div_denominator(xa * k, da, k);
        assert(da * k == k * da) by (nonlinear_arith);
        assert(xa * k == k * xa) by (nonlinear_arith);
        vstd::arithmetic::div_mod::lemma_div_multiples_vanish_quotient(k, xa, da);
    }
    assert(abs(trunc_div(x * k, d)) == inner);
    lemma_trunc_div_symmetric(trunc_div(x * k, d), k);
    assert(abs(trunc_div(trunc_div(x * k, d), k)) == inner / k);
    assert(abs(trunc_div(x, d)) == xa / da);
    lemma_trunc_div_bounds(x * k, d);
    lemma_trunc_div_bounds(x, d);
    lemma_trunc_div_bounds(trunc_div(x * k, d), k);
    if x == 0 {
        assert(x * k == 0) by (nonlinear_arith)
            requires
                x == 0,
        ;
    } else if x > 0 {
        assert(x * k > 0) by (nonlinear_arith)
            requires
                x > 0,
                k > 0,
        ;
    } else {
        assert(x * k < 0) by (nonlinear_arith)
            requires
                x < 0,
                k > 0,
        ;
    }
}

/// `10^n` for an exponent that 128 bits can hold.
pub fn pow10_i128(n: u32) -> (r: i128)
    requires
        n <= MAX_POW10_EXPONENT,
    ensures
        r == pow10(n as nat),
        r > 0,
{
    let mut r: i128 = 1;
    let mut i: u32 = 0;
    while i < n
        invariant
            i <= n <= MAX_POW10_EXPONENT,
            r == pow10(i as nat),
            r > 0,
        decreases n - i,
    {
        proof {
            lemma_pow10_increases((i + 1) as nat, 38);
            lemma_pow10_max();
        }
        r = r * 10;
        i = i + 1;
    }
    r
}

/// The quotient of `a` by `b`, rounded toward zero.
pub fn div_toward_zero(a: i128, b: i128) -> (q: i128)
    requires
        b != 0,
        wide(a as int),
    ensures
        q == trunc_div(a as int, b as int),
        wide(q as int),
{
    proof {
        lemma_trunc_div_bounds(a as int, b as int);
    }
    a / b
}

/// The absolute value of a number that has one in 128 bits.
pub fn magnitude(x: i128) -> (m: i128)
    requires
        wide(x as int),
    ensures
        m == abs(x as int),
{
    if x < 0 {
        -x
    } else {
        x
    }
}

/// The product of `a` and `b` where 128 bits hold it and its negation.
pub fn checked_product(a: i128, b: i128) -> (r: Option<i128>)
    ensures
        r is Some <==> wide(a * b),
        r matches Some(p) ==> p == a * b,
{
    match a.checked_mul(b) {
        Some(p) => {
            if p == i128::MIN {
                None
            } else {
                Some(p)
            }
        },
        None => None,
    }
}

/// `a - b` where 128 bits hold it and its negation.
pub fn checked_difference(a: i128, b: i128) -> (r: Option<i128>)
    ensures
        r is Some <==> wide(a - b),
        r matches Some(v) ==> v == a - b,
{
    match a.checked_sub(b) {
        Some(v) => {
            if v == i128::MIN {
                None
            } else {
                Some(v)
            }
        },
        None => None,
    }
}

/// `a * b / 10^denom_pow10`, rounded toward zero, through a 128-bit product.
pub fn scale_mul_div(a: i128, b: i128, denom_pow10: u32) -> (r: i128)
    requires
        scale_defined(a as int, b as int, denom_pow10 as nat),
    ensures
        r == scaled(a as int, b as int, denom_pow10 as nat),
{
    match checked_scale_mul_div(a, b, denom_pow10) {
        Some(v) => v,
        None => {
            proof {
                assert(false);
            }
            0
        },
    }
}

/// [`scale_mul_div`] for any input: `None` where the exponent or the product
/// is out of range.
pub fn checked_scale_mul_div(a: i128, b: i128, denom_pow10: u32) -> (r: Option<i128>)
    ensures
        r is Some <==> scale_defined(a as int, b as int, denom_pow10 as nat),
        r matches Some(v) ==> v == scaled(a as int, b as int, denom_pow10 as nat) && wide(v as int),
{
    if denom_pow10 > MAX_POW10_EXPONENT {
        return None;
    }
    match checked_product(a, b) {
        Some(p) => {
            let d: i128 = pow10_i128(denom_pow10);
            Some(div_toward_zero(p, d))
        },
        None => None,
    }
}

/// `num1 * num / denom`, rounded toward zero; `0` where `denom` is zero. The
/// product is first taken to nine further decimal places, which are dropped
/// after the division.
pub fn get_ratio(num1: i128, num: i128, denom: i128) -> (r: i128)
    requires
        ratio_defined(num1 as int, num as int, denom as int),
    ensures
        r == ratio(num1 as int, num as int, denom as int),
{
    match checked_get_ratio(num1, num, denom) {
        Some(v) => v,
        None => {
            proof {
                assert(false);
            }
            0
        },
    }
}

/// [`get_ratio`] for any input: `None` where a product is out of range.
pub fn checked_get_ratio(num1: i128, num: i128, denom: i128) -> (r: Option<i128>)
    ensures
        r is Some <==> ratio_defined(num1 as int, num as int, denom as int),
        r matches Some(v) ==> v == ratio(num1 as int, num as int, denom as int) && wide(v as int),
{
    if denom == 0 {
        return Some(0);
    }
    match checked_product(num1, num) {
        Some(p) => match checked_product(p, AMOUNT_DECIMALS) {
            Some(p9) => {
                let q: i128 = div_toward_zero(p9, denom);
                proof {
                    lemma_trunc_div_rescaled(num1 * num, AMOUNT_DECIMALS as int, denom as int);
                }
                Some(div_toward_zero(q, AMOUNT_DECIMALS))
            },
            None => None,
        },
        None => None,
    }
}

/// A 128-bit value as a ledger quantity, where 64 bits hold it.
pub fn narrow(x: i128) -> (r: Option<i64>)
    ensures
        r is Some <==> fits_i64(x as int),
        r matches Some(v) ==> v == x,
{
    if x < i64::MIN as i128 || x > i64::MAX as i128 {
        None
    } else {
        Some(x as i64)
    }
}

/// `acc + delta` as a ledger quantity, where 64 bits hold it.
pub fn checked_credit(acc: i64, delta: i128) -> (r: Option<i64>)
    ensures
        r is Some <==> fits_i64(acc + delta),
        r matches Some(v) ==> v == acc + delta,
{
    match (acc as i128).checked_add(delta) {
        Some(s) => narrow(s),
        None => None,
    }
}

} // verus!
