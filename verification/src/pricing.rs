use vstd::prelude::*;
use vstd::arithmetic::div_mod::{
    lemma_basic_div, lemma_div_is_ordered_by_denominator, lemma_div_multiples_vanish,
    lemma_div_non_zero, lemma_div_pos_is_pos, lemma_fundamental_div_mod,
    lemma_mod_division_less_than_divisor,
};
use crate::errors::AmmError;

verus! {

/// The constant-product swap output, in mathematical integers.
///
/// With both reserves positive, the pool keeps the product
/// `reserve_in * reserve_out` invariant up to flooring: the quotient
/// `(reserve_in * reserve_out) / (reserve_in + amount_in)` is what the input
/// reserve's counterpart must still hold after the trade, and the output is
/// whatever of `reserve_out` exceeds it. An empty reserve means no
/// liquidity, so no trade: the output is zero.
pub open spec fn quote_spec(reserve_in: int, reserve_out: int, amount_in: int) -> int {
    if reserve_in <= 0 || reserve_out <= 0 {
        0
    } else {
        reserve_out - (reserve_in * reserve_out) / (reserve_in + amount_in)
    }
}

/// Exactly what `quote` returns: the swap output, or `ArithmeticOverflow`
/// where the reserve product does not fit the widest machine integer.
pub open spec fn quote_result(reserve_in: u128, reserve_out: u128, amount_in: u128) -> Result<
    u128,
    AmmError,
> {
    if reserve_in == 0 || reserve_out == 0 {
        Ok(0u128)
    } else if reserve_in * reserve_out > u128::MAX {
        Err(AmmError::ArithmeticOverflow)
    } else {
        Ok(quote_spec(reserve_in as int, reserve_out as int, amount_in as int) as u128)
    }
}

/// The output never exceeds the reserve it is paid from.
pub proof fn lemma_quote_bounds(reserve_in: int, reserve_out: int, amount_in: int)
    requires
        reserve_in >= 0,
        reserve_out >= 0,
        amount_in >= 0,
    ensures
        0 <= quote_spec(reserve_in, reserve_out, amount_in) <= reserve_out,
{
    if reserve_in > 0 && reserve_out > 0 {
        let k = reserve_in * reserve_out;
        let d = reserve_in + amount_in;
        assert(reserve_in * reserve_out > 0) by (nonlinear_arith)
            requires
                reserve_in > 0,
                reserve_out > 0,
        ;
        lemma_div_pos_is_pos(k, d);
        lemma_div_is_ordered_by_denominator(k, reserve_in, d);
        lemma_div_multiples_vanish(reserve_out, reserve_in);
    }
}

/// Constant-product pricing: the counter-asset amount owed for a deposit of
/// `amount_in`, with floor division deciding the rounding.
pub fn quote(reserve_in: u128, reserve_out: u128, amount_in: u128) -> (r: Result<u128, AmmError>)
    ensures
        r == quote_result(reserve_in, reserve_out, amount_in),
{
    if reserve_in == 0 || reserve_out == 0 {
        return Ok(0);
    }
    let k = match reserve_in.checked_mul(reserve_out) {
        Some(k) => k,
        None => {
            return Err(AmmError::ArithmeticOverflow);
        },
    };
    let quotient: u128 = match reserve_in.checked_add(amount_in) {
        Some(denominator) => k / denominator,
        None => {
            // The true denominator exceeds every representable value, so it
            // exceeds k and the quotient is zero.
            proof {
                lemma_basic_div(k as int, reserve_in as int + amount_in as int);
            }
            0
        },
    };
    proof {
        lemma_quote_bounds(reserve_in as int, reserve_out as int, amount_in as int);
    }
    Ok(reserve_out - quotient)
}

/// A trade of any positive size leaves the pool able to pay: as long as the
/// reserve product covers the post-deposit input reserve, the output stays
/// strictly below the held counter-reserve.
pub proof fn lemma_quote_lt_reserve_out(reserve_in: int, reserve_out: int, amount_in: int)
    requires
        reserve_in > 0,
        reserve_out > 0,
        amount_in > 0,
        reserve_in * reserve_out >= reserve_in + amount_in,
    ensures
        quote_spec(reserve_in, reserve_out, amount_in) < reserve_out,
{
    lemma_div_non_zero(reserve_in * reserve_out, reserve_in + amount_in);
}

/// The output is monotonically non-decreasing in the input amount.
pub proof fn lemma_quote_monotone(reserve_in: int, reserve_out: int, amount_lo: int, amount_hi: int)
    requires
        reserve_in > 0,
        reserve_out > 0,
        0 <= amount_lo <= amount_hi,
    ensures
        quote_spec(reserve_in, reserve_out, amount_lo) <= quote_spec(
            reserve_in,
            reserve_out,
            amount_hi,
        ),
{
    let k = reserve_in * reserve_out;
    assert(reserve_in * reserve_out > 0) by (nonlinear_arith)
        requires
            reserve_in > 0,
            reserve_out > 0,
    ;
    lemma_div_is_ordered_by_denominator(k, reserve_in + amount_lo, reserve_in + amount_hi);
}

/// A zero deposit buys nothing.
pub proof fn lemma_quote_zero_input(reserve_in: int, reserve_out: int)
    requires
        reserve_in >= 0,
        reserve_out >= 0,
    ensures
        quote_spec(reserve_in, reserve_out, 0) == 0,
{
    if reserve_in > 0 && reserve_out > 0 {
        lemma_div_multiples_vanish(reserve_out, reserve_in);
    }
}

/// With either reserve empty the quote is zero whatever the input.
pub proof fn lemma_quote_empty_reserve(reserve_in: int, reserve_out: int, amount_in: int)
    requires
        reserve_in == 0 || reserve_out == 0,
    ensures
        quote_spec(reserve_in, reserve_out, amount_in) == 0,
{
}

/// One priced trade keeps the reserve product within the division's
/// truncation of the invariant: the product never rises above
/// `reserve_in * reserve_out`, and falls short of it by less than the
/// post-deposit input reserve.
pub proof fn lemma_trade_product_within_truncation(
    reserve_in: int,
    reserve_out: int,
    amount_in: int,
)
    requires
        reserve_in > 0,
        reserve_out > 0,
        amount_in >= 0,
    ensures
        ({
            let paid_out = quote_spec(reserve_in, reserve_out, amount_in);
            let product_after = (reserve_in + amount_in) * (reserve_out - paid_out);
            reserve_in * reserve_out - (reserve_in + amount_in) < product_after <= reserve_in
                * reserve_out
        }),
{
    let k = reserve_in * reserve_out;
    let d = reserve_in + amount_in;
    lemma_fundamental_div_mod(k, d);
    lemma_mod_division_less_than_divisor(k, d);
    assert(reserve_out - quote_spec(reserve_in, reserve_out, amount_in) == k / d);
}

/// Round-trip law: price a deposit of `amount_in`, then price the exact
/// reverse trade of the proceeds against the post-trade reserves. Whenever
/// the reserve product divides evenly by the post-deposit input reserve, the
/// reverse trade yields no more than `amount_in` back.
pub proof fn lemma_quote_round_trip(reserve_in: int, reserve_out: int, amount_in: int)
    requires
        reserve_in > 0,
        reserve_out > 0,
        amount_in >= 0,
        (reserve_in * reserve_out) % (reserve_in + amount_in) == 0,
    ensures
        ({
            let paid_out = quote_spec(reserve_in, reserve_out, amount_in);
            quote_spec(reserve_out - paid_out, reserve_in + amount_in, paid_out) <= amount_in
        }),
{
    let k = reserve_in * reserve_out;
    let d = reserve_in + amount_in;
    let q = k / d;
    let paid_out = reserve_out - q;
    assert(reserve_in * reserve_out > 0) by (nonlinear_arith)
        requires
            reserve_in > 0,
            reserve_out > 0,
    ;
    lemma_fundamental_div_mod(k, d);
    assert(k == d * q);
    lemma_div_pos_is_pos(k, d);
    if q == 0 {
        assert(false);
    }
    // The post-trade reserves are q of the paid asset and d of the
    // deposited one, and the reverse deposit restores reserve_out.
    assert(q + paid_out == reserve_out);
    assert(q * d == reserve_out * reserve_in) by (nonlinear_arith)
        requires
            k == d * q,
            k == reserve_in * reserve_out,
    ;
    lemma_div_multiples_vanish(reserve_in, reserve_out);
    assert((q * d) / (q + paid_out) == reserve_in);
    assert(quote_spec(reserve_out - paid_out, reserve_in + amount_in, paid_out) == d - reserve_in);
}

} // verus!
