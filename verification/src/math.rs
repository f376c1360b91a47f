//! Fixed-point arithmetic: prices are integers scaled by a power of ten, and
//! every quantity derived from them is rounded toward zero.

use vstd::prelude::*;
use vstd::arithmetic::div_mod::{lemma_basic_div, lemma_div_is_ordered};
use crate::state::{DealSnapshot, MarketSnapshot};
use crate::types::{ErrorCode, BPS_DENOMINATOR};

verus! {

/// Ten to the power `p`.
pub open spec fn pow10(p: nat) -> nat
    decreases p,
{
    if p == 0 {
        1
    } else {
        10 * pow10((p - 1) as nat)
    }
}

/// The number of decimal places that a price exponent stands for.
pub open spec fn abs_exponent(exponent: int) -> nat {
    if exponent < 0 {
        (-exponent) as nat
    } else {
        exponent as nat
    }
}

/// The quote-asset value of `qty` units at price `strike`, rounded down.
pub open spec fn spec_notional(strike: nat, qty: nat, exponent: int) -> nat {
    (strike * qty) / pow10(abs_exponent(exponent))
}

/// The quotient of `a` by a positive `d`, rounded toward zero.
pub open spec fn trunc_div(a: int, d: int) -> int {
    if a >= 0 {
        a / d
    } else {
        -((-a) / d)
    }
}

/// Profit of the long side when the price moved from `strike` to
/// `final_price`: positive favours long, negative favours short.
pub open spec fn spec_pnl_long(strike: int, final_price: int, qty: int, exponent: int) -> int {
    trunc_div((final_price - strike) * qty, pow10(abs_exponent(exponent)) as int)
}

/// The margin rate in basis points: the base rate plus the volatility
/// surcharge.
pub open spec fn spec_margin_rate_bps(base_bps: nat, vol_multiplier_bps: nat, last_vol_bps: nat) -> nat {
    base_bps + (vol_multiplier_bps * last_vol_bps) / (BPS_DENOMINATOR as nat)
}

/// The initial margin that each side of a deal of value `notional` owes.
pub open spec fn spec_required_initial_margin(
    notional: nat,
    base_bps: nat,
    vol_multiplier_bps: nat,
    last_vol_bps: nat,
) -> nat {
    let rate = spec_margin_rate_bps(base_bps, vol_multiplier_bps, last_vol_bps);
    (notional * rate) / (BPS_DENOMINATOR as nat)
}

/// The fee on a profit of `profit`.
pub open spec fn spec_fee(profit: nat, fee_bps: nat) -> nat {
    (profit * fee_bps) / (BPS_DENOMINATOR as nat)
}

pub proof fn lemma_pow10_positive(p: nat)
    ensures
        pow10(p) > 0,
    decreases p,
{
    if p > 0 {
        lemma_pow10_positive((p - 1) as nat);
    }
}

pub proof fn lemma_pow10_monotonic(p: nat, q: nat)
    requires
        p <= q,
    ensures
        pow10(p) <= pow10(q),
    decreases q,
{
    if p < q {
        lemma_pow10_monotonic(p, (q - 1) as nat);
        lemma_pow10_positive((q - 1) as nat);
    }
}

/// Ten to the 38th is the largest power of ten below 2^128.
pub proof fn lemma_pow10_38()
    ensures
        pow10(38) == 100000000000000000000000000000000000000nat,
        pow10(38) <= u128::MAX,
        pow10(39) > u128::MAX,
{
    reveal_with_fuel(pow10, 20);
    assert(pow10(19) == 10000000000000000000nat);
    assert(pow10(38) == 100000000000000000000000000000000000000nat);
}

/// The required margin never falls when the notional or the last posted
/// volatility rises, the other parameters held fixed.
pub proof fn lemma_required_initial_margin_monotonic(
    notional_1: nat,
    notional_2: nat,
    base_bps: nat,
    vol_multiplier_bps: nat,
    last_vol_bps_1: nat,
    last_vol_bps_2: nat,
)
    requires
        notional_1 <= notional_2,
        last_vol_bps_1 <= last_vol_bps_2,
    ensures
        spec_required_initial_margin(notional_1, base_bps, vol_multiplier_bps, last_vol_bps_1)
            <= spec_required_initial_margin(
            notional_2,
            base_bps,
            vol_multiplier_bps,
            last_vol_bps_2,
        ),
{
    let rate_1 = spec_margin_rate_bps(base_bps, vol_multiplier_bps, last_vol_bps_1);
    let rate_2 = spec_margin_rate_bps(base_bps, vol_multiplier_bps, last_vol_bps_2);
    assert(vol_multiplier_bps * last_vol_bps_1 <= vol_multiplier_bps * last_vol_bps_2)
        by (nonlinear_arith)
        requires
            last_vol_bps_1 <= last_vol_bps_2,
    ;
    lemma_div_is_ordered(
        (vol_multiplier_bps * last_vol_bps_1) as int,
        (vol_multiplier_bps * last_vol_bps_2) as int,
        BPS_DENOMINATOR as int,
    );
    assert(rate_1 <= rate_2);
    assert(notional_1 * rate_1 <= notional_2 * rate_2) by (nonlinear_arith)
        requires
            notional_1 <= notional_2,
            rate_1 <= rate_2,
    ;
    lemma_div_is_ordered(
        (notional_1 * rate_1) as int,
        (notional_2 * rate_2) as int,
        BPS_DENOMINATOR as int,
    );
}

/// The decimal places of `exponent`, whatever its sign.
pub fn exponent_digits(exponent: i32) -> (digits: u32)
    ensures
        digits == abs_exponent(exponent as int),
{
    if exponent >= 0 {
        exponent as u32
    } else if exponent == i32::MIN {
        2147483648u32
    } else {
        (-exponent) as u32
    }
}

/// Ten to the power `p`, for the powers that fit in 128 bits.
pub fn pow10_u128(p: u32) -> (power: u128)
    requires
        p <= 38,
    ensures
        power == pow10(p as nat),
{
    let mut power: u128 = 1;
    let mut i: u32 = 0;
    while i < p
        invariant
            i <= p <= 38,
            power == pow10(i as nat),
        decreases p - i,
    {
        proof {
            lemma_pow10_monotonic((i + 1) as nat, 38);
            lemma_pow10_38();
        }
        power = power * 10;
        i = i + 1;
    }
    power
}

/// `value` with the decimal places of `exponent` cut off.
pub fn scale_down(value: u128, exponent: i32) -> (scaled: u128)
    ensures
        scaled == value as nat / pow10(abs_exponent(exponent as int)),
{
    let digits = exponent_digits(exponent);
    if digits > 38 {
        proof {
            lemma_pow10_38();
            lemma_pow10_monotonic(39, digits as nat);
            lemma_basic_div(value as int, pow10(digits as nat) as int);
        }
        0
    } else {
        proof {
            lemma_pow10_positive(digits as nat);
        }
        value / pow10_u128(digits)
    }
}

/// The product of two 64-bit amounts, which always fits in 128 bits.
pub fn wide_mul(a: u64, b: u64) -> (product: u128)
    ensures
        product == a as nat * b as nat,
{
    assert(a as nat * b as nat <= 0xffff_ffff_ffff_ffff * 0xffff_ffff_ffff_ffff)
        by (nonlinear_arith)
        requires
            a <= 0xffff_ffff_ffff_ffff,
            b <= 0xffff_ffff_ffff_ffff,
    ;
    (a as u128) * (b as u128)
}

/// What the long side pays for the snapshot's quantity at its strike.
///
/// Fails with `MathOverflow` exactly when that value does not fit in 64 bits.
pub fn notional_at_strike(ds: &DealSnapshot) -> (r: Result<u64, ErrorCode>)
    ensures
        match r {
            Ok(value) => value == spec_notional(
                ds.strike_price as nat,
                ds.qty_receipt_amount as nat,
                ds.price_exponent as int,
            ),
            Err(e) => e == ErrorCode::MathOverflow && spec_notional(
                ds.strike_price as nat,
                ds.qty_receipt_amount as nat,
                ds.price_exponent as int,
            ) > u64::MAX,
        },
{
    let n = scale_down(wide_mul(ds.strike_price, ds.qty_receipt_amount), ds.price_exponent);
    if n > u64::MAX as u128 {
        Err(ErrorCode::MathOverflow)
    } else {
        Ok(n as u64)
    }
}

/// Profit of the long side on `qty` units at the market's last price.
///
/// Fails with `MathOverflow` exactly when the profit is outside the signed
/// 128-bit range.
pub fn calc_pnl_long(ds: &DealSnapshot, ms: &MarketSnapshot, qty: u64) -> (r: Result<
    i128,
    ErrorCode,
>)
    ensures
        match r {
            Ok(pnl) => pnl == spec_pnl_long(
                ds.strike_price as int,
                ms.last_price as int,
                qty as int,
                ds.price_exponent as int,
            ),
            Err(e) => e == ErrorCode::MathOverflow && !(i128::MIN <= spec_pnl_long(
                ds.strike_price as int,
                ms.last_price as int,
                qty as int,
                ds.price_exponent as int,
            ) <= i128::MAX),
        },
{
    let strike = ds.strike_price;
    let final_price = ms.last_price;
    let ghost scale = pow10(abs_exponent(ds.price_exponent as int)) as int;
    proof {
        lemma_pow10_positive(abs_exponent(ds.price_exponent as int));
    }
    if final_price >= strike {
        let diff: u64 = final_price - strike;
        let quotient = scale_down(wide_mul(diff, qty), ds.price_exponent);
        assert((final_price - strike) * qty == diff as nat * qty as nat) by (nonlinear_arith)
            requires
                diff == final_price - strike,
        ;
        assert((final_price - strike) * qty >= 0) by (nonlinear_arith)
            requires
                final_price >= strike,
                qty >= 0,
        ;
        if quotient > i128::MAX as u128 {
            Err(ErrorCode::MathOverflow)
        } else {
            Ok(quotient as i128)
        }
    } else {
        let diff: u64 = strike - final_price;
        let quotient = scale_down(wide_mul(diff, qty), ds.price_exponent);
        assert(-((final_price - strike) * qty) == diff as nat * qty as nat) by (nonlinear_arith)
            requires
                diff == strike - final_price,
        ;
        assert((final_price - strike) * qty <= 0) by (nonlinear_arith)
            requires
                final_price < strike,
                qty >= 0,
        ;
        proof {
            if (final_price - strike) * qty == 0 {
                lemma_basic_div(0, scale);
            }
        }
        if quotient <= i128::MAX as u128 {
            Ok(-(quotient as i128))
        } else if quotient == 170141183460469231731687303715884105728u128 {
            Ok(i128::MIN)
        } else {
            Err(ErrorCode::MathOverflow)
        }
    }
}

/// The initial margin that each side owes for `qty` units at `strike_price`
/// under the market's current margin parameters.
///
/// Fails with `MathOverflow` exactly when the requirement does not fit in
/// 64 bits, so that no margin could meet it.
pub fn required_initial_margin(ms: &MarketSnapshot, strike_price: u64, qty: u64) -> (r: Result<
    u64,
    ErrorCode,
>)
    ensures
        match r {
            Ok(required) => required == spec_required_initial_margin(
                spec_notional(strike_price as nat, qty as nat, ms.price_exponent as int),
                ms.base_initial_margin_bps as nat,
                ms.vol_multiplier_bps as nat,
                ms.last_vol_bps as nat,
            ),
            Err(e) => e == ErrorCode::MathOverflow && spec_required_initial_margin(
                spec_notional(strike_price as nat, qty as nat, ms.price_exponent as int),
                ms.base_initial_margin_bps as nat,
                ms.vol_multiplier_bps as nat,
                ms.last_vol_bps as nat,
            ) > u64::MAX,
        },
{
    let notional = scale_down(wide_mul(strike_price, qty), ms.price_exponent);
    assert(ms.vol_multiplier_bps as nat * ms.last_vol_bps as nat <= 0xffff * 0xffff)
        by (nonlinear_arith)
        requires
            ms.vol_multiplier_bps <= 0xffff,
            ms.last_vol_bps <= 0xffff,
    ;
    let vol_adj_bps: u128 = ((ms.vol_multiplier_bps as u128) * (ms.last_vol_bps as u128))
        / (BPS_DENOMINATOR as u128);
    let total_bps: u128 = (ms.base_initial_margin_bps as u128) + vol_adj_bps;
    assert(total_bps == spec_margin_rate_bps(
        ms.base_initial_margin_bps as nat,
        ms.vol_multiplier_bps as nat,
        ms.last_vol_bps as nat,
    ));
    match notional.checked_mul(total_bps) {
        Some(product) => {
            let required = product / (BPS_DENOMINATOR as u128);
            if required > u64::MAX as u128 {
                Err(ErrorCode::MathOverflow)
            } else {
                Ok(required as u64)
            }
        },
        None => {
            proof {
                lemma_div_is_ordered(
                    u128::MAX as int + 1,
                    notional as int * total_bps as int,
                    BPS_DENOMINATOR as int,
                );
            }
            Err(ErrorCode::MathOverflow)
        },
    }
}

} // verus!
