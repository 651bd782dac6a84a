//! Weights in hundredths of a kilogram, and their rounding to whole plates.
use vstd::prelude::*;

verus! {

/// The plate increment, 2.5 kg, in hundredths of a kilogram.
pub const PLATE_STEP: i64 = 250;

pub open spec fn abs(x: int) -> int {
    if x < 0 { -x } else { x }
}

/// `n / d` rounded to the nearest integer, halves away from zero.
pub open spec fn div_round_half_away(n: int, d: int) -> int
    recommends
        d > 0,
{
    if n >= 0 {
        if 2 * (n % d) >= d { n / d + 1 } else { n / d }
    } else {
        -(if 2 * ((-n) % d) >= d { (-n) / d + 1 } else { (-n) / d })
    }
}

/// `one_rm × percentage / 100`, rounded to the nearest multiple of 2.5 kg
/// (halves away from zero); all weights in hundredths of a kilogram.
pub open spec fn rounded_weight(one_rm: int, percentage: int) -> int {
    250 * div_round_half_away(one_rm * percentage, 25000)
}

/// For `n >= 0`: the quotient rounded half up is nearest to `n / d` among all
/// integers, and of two equally near ones it is the larger.
proof fn lemma_round_nonneg_nearest(n: int, d: int, k: int)
    requires
        n >= 0,
        d > 0,
    ensures
        abs(div_round_half_away(n, d) * d - n) <= abs(k * d - n),
        abs(div_round_half_away(n, d) * d - n) == abs(k * d - n) ==> k <= div_round_half_away(n, d),
        0 <= div_round_half_away(n, d),
        abs(div_round_half_away(n, d) * d - n) <= n,
{
    let q0 = n / d;
    let r = n % d;
    assert(n == q0 * d + r && 0 <= r < d) by (nonlinear_arith)
        requires
            d > 0,
            q0 == n / d,
            r == n % d,
    {
        vstd::arithmetic::div_mod::lemma_fundamental_div_mod(n, d);
    }
    assert(q0 >= 0) by (nonlinear_arith)
        requires
            n == q0 * d + r,
            0 <= r < d,
            n >= 0,
    ;
    let j = k - q0;
    assert(k * d - n == j * d - r) by (nonlinear_arith)
        requires
            n == q0 * d + r,
            j == k - q0,
    ;
    if j >= 1 {
        assert(j * d >= d) by (nonlinear_arith)
            requires
                j >= 1,
                d > 0,
        ;
        assert(j >= 2 ==> j * d >= 2 * d) by (nonlinear_arith)
            requires
                d > 0,
        ;
    } else {
        assert(j * d <= 0) by (nonlinear_arith)
            requires
                j <= 0,
                d > 0,
        ;
        assert(j <= -1 ==> j * d <= -d) by (nonlinear_arith)
            requires
                d > 0,
        ;
    }
    assert((q0 + 1) * d - n == d - r) by (nonlinear_arith)
        requires
            n == q0 * d + r,
    ;
    assert(q0 * d - n == -r) by (nonlinear_arith)
        requires
            n == q0 * d + r,
    ;
}

/// The rounded quotient is the integer nearest to `n / d`; of two equally
/// near integers it is the one farther from zero.
pub proof fn lemma_round_half_away_nearest(n: int, d: int, k: int)
    requires
        d > 0,
    ensures
        abs(div_round_half_away(n, d) * d - n) <= abs(k * d - n),
        abs(div_round_half_away(n, d) * d - n) == abs(k * d - n) ==> abs(k) <= abs(
            div_round_half_away(n, d),
        ),
{
    if n >= 0 {
        lemma_round_nonneg_nearest(n, d, k);
        if k < 0 {
            assert(k * d < 0) by (nonlinear_arith)
                requires
                    k < 0,
                    d > 0,
            ;
            assert(div_round_half_away(n, d) * d >= 0) by (nonlinear_arith)
                requires
                    div_round_half_away(n, d) >= 0,
                    d > 0,
            ;
        }
    } else {
        lemma_round_nonneg_nearest(-n, d, -k);
        let q = div_round_half_away(n, d);
        assert(q == -div_round_half_away(-n, d));
        assert(q * d - n == -(div_round_half_away(-n, d) * d - (-n))) by (nonlinear_arith)
            requires
                q == -div_round_half_away(-n, d),
        ;
        assert(k * d - n == -((-k) * d - (-n))) by (nonlinear_arith);
        if k > 0 {
            assert(k * d > 0) by (nonlinear_arith)
                requires
                    k > 0,
                    d > 0,
            ;
            assert(div_round_half_away(-n, d) * d >= 0) by (nonlinear_arith)
                requires
                    div_round_half_away(-n, d) >= 0,
                    d > 0,
            ;
        }
    }
}

/// A rounded weight is a whole number of 2.5 kg plates, and no multiple of
/// 2.5 kg (`250 * c`) lies nearer to `one_rm × percentage / 100`; where two are
/// equally near, the rounded weight is the one farther from zero.
pub proof fn lemma_rounded_weight_nearest(one_rm: int, percentage: int, c: int)
    ensures
        rounded_weight(one_rm, percentage) % 250 == 0,
        abs(100 * rounded_weight(one_rm, percentage) - one_rm * percentage) <= abs(
            100 * (250 * c) - one_rm * percentage,
        ),
        abs(100 * rounded_weight(one_rm, percentage) - one_rm * percentage) == abs(
            100 * (250 * c) - one_rm * percentage,
        ) ==> abs(250 * c) <= abs(rounded_weight(one_rm, percentage)),
{
    let n = one_rm * percentage;
    let q = div_round_half_away(n, 25000);
    lemma_round_half_away_nearest(n, 25000, c);
    assert(100 * (250 * q) == q * 25000);
    assert(100 * (250 * c) == c * 25000);
}

/// The rounded weight has the sign of the maximum: zero for zero, never
/// negative for a positive maximum, never positive for a negative one.
pub proof fn lemma_rounded_weight_sign(one_rm: int, percentage: int)
    requires
        percentage >= 0,
    ensures
        one_rm == 0 ==> rounded_weight(one_rm, percentage) == 0,
        one_rm >= 0 ==> rounded_weight(one_rm, percentage) >= 0,
        one_rm <= 0 ==> rounded_weight(one_rm, percentage) <= 0,
{
    let n = one_rm * percentage;
    assert(one_rm >= 0 ==> n >= 0) by (nonlinear_arith)
        requires
            n == one_rm * percentage,
            percentage >= 0,
    ;
    assert(one_rm <= 0 ==> n <= 0) by (nonlinear_arith)
        requires
            n == one_rm * percentage,
            percentage >= 0,
    ;
    assert(one_rm == 0 ==> n == 0);
    if n >= 0 {
        assert(n / 25000 >= 0);
    } else {
        assert((-n) / 25000 >= 0);
    }
}

} // verus!
