use vstd::prelude::*;
use vstd::arithmetic::div_mod::lemma_fundamental_div_mod;
use vstd::arithmetic::div_mod::lemma_fundamental_div_mod_converse;

verus! {

/// The share `portion / whole` of `amount`, rounded down.
pub open spec fn share_of(amount: int, portion: int, whole: int) -> int {
    (amount * portion) / whole
}

/// The protocol fee on `amount` at `fee_percent` out of `max_bps`.
pub open spec fn fee_of(amount: int, fee_percent: int, max_bps: int) -> int {
    share_of(amount, fee_percent, max_bps)
}

/// What is left of `gross_amount` once the protocol fee is taken.
pub open spec fn transfer_amount_of(gross_amount: int, fee_percent: int, max_bps: int) -> int {
    gross_amount - fee_of(gross_amount, fee_percent, max_bps)
}

/// A share never exceeds the amount when the portion does not exceed the whole,
/// it is never negative, and the full portion gives the whole amount.
pub proof fn lemma_share_bounds(amount: int, portion: int, whole: int)
    requires
        0 <= amount,
        0 <= portion <= whole,
        0 < whole,
    ensures
        0 <= share_of(amount, portion, whole) <= amount,
        portion == whole ==> share_of(amount, portion, whole) == amount,
        portion == 0 ==> share_of(amount, portion, whole) == 0,
{
    let x = amount * portion;
    let q = x / whole;
    let r = x % whole;
    lemma_fundamental_div_mod(x, whole);
    assert(0 <= r < whole) by (nonlinear_arith)
        requires
            r == x % whole,
            0 < whole,
    ;
    assert(0 <= x <= amount * whole) by (nonlinear_arith)
        requires
            x == amount * portion,
            0 <= amount,
            0 <= portion <= whole,
    ;
    assert(x == whole * q + r);
    assert(0 <= q <= amount) by (nonlinear_arith)
        requires
            x == whole * q + r,
            0 <= r < whole,
            0 <= x <= amount * whole,
            0 < whole,
            0 <= amount,
    ;
    if portion == whole {
        lemma_fundamental_div_mod_converse(x, whole, amount, 0);
    }
    if portion == 0 {
        assert(x == 0) by (nonlinear_arith)
            requires
                x == amount * portion,
                portion == 0,
        ;
        lemma_fundamental_div_mod_converse(x, whole, 0, 0);
    }
}

/// Computes `floor(amount * portion / whole)` without overflowing on the way,
/// for every input whose result fits.
pub fn mul_div_floor(amount: i128, portion: i128, whole: i128) -> (share: i128)
    requires
        0 <= amount,
        0 <= portion <= i64::MAX,
        0 < whole <= i64::MAX,
        share_of(amount as int, portion as int, whole as int) <= i128::MAX,
    ensures
        share == share_of(amount as int, portion as int, whole as int),
{
    let q: i128 = amount / whole;
    let r: i128 = amount % whole;
    proof {
        let a = amount as int;
        let n = portion as int;
        let d = whole as int;
        let x = a * n;
        lemma_fundamental_div_mod(a, d);
        assert(0 <= (a % d) < d) by (nonlinear_arith)
            requires
                0 < d,
        ;
        assert(q == a / d);
        assert(r == a % d);
        let rn = r * n;
        assert(0 <= rn <= i64::MAX * i64::MAX) by (nonlinear_arith)
            requires
                rn == r * n,
                0 <= r < d,
                d <= i64::MAX,
                0 <= n <= i64::MAX,
        ;
        lemma_fundamental_div_mod(rn, d);
        assert(0 <= (rn % d) < d) by (nonlinear_arith)
            requires
                0 < d,
        ;
        let q2 = q * n + rn / d;
        let r2 = rn % d;
        assert(x == q2 * d + r2) by (nonlinear_arith)
            requires
                x == a * n,
                a == d * q + r,
                rn == r * n,
                rn == d * (rn / d) + r2,
                q2 == q * n + rn / d,
        ;
        lemma_fundamental_div_mod_converse(x, d, q2, r2);
        assert(q2 == share_of(a, n, d));
        assert(0 <= rn / d) by (nonlinear_arith)
            requires
                0 <= rn,
                0 < d,
        ;
        assert(0 <= q * n) by (nonlinear_arith)
            requires
                0 <= q,
                0 <= n,
        ;
        assert(0 <= q) by (nonlinear_arith)
            requires
                q == a / d,
                0 <= a,
                0 < d,
        ;
    }
    let whole_part: i128 = q * portion;
    let rest: i128 = (r * portion) / whole;
    whole_part + rest
}

/// The protocol fee on `amount`: `floor(amount * fee_percent / max_bps)`.
pub fn fee(amount: i128, fee_percent: i64, max_bps: i64) -> (protocol_fee: i128)
    requires
        0 <= amount,
        0 <= fee_percent,
        0 < max_bps,
        fee_of(amount as int, fee_percent as int, max_bps as int) <= i128::MAX,
    ensures
        protocol_fee == fee_of(amount as int, fee_percent as int, max_bps as int),
{
    mul_div_floor(amount, fee_percent as i128, max_bps as i128)
}

} // verus!
