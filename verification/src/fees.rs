//! Which fee a trade pays.
//!
//! A trade that brings the market's inventory closer to zero takes the maker
//! rate; any other trade takes the taker rate. Either rate may be negative:
//! the fee is then a rebate.

use crate::fixed_point::{
    abs, checked_product, div_toward_zero, magnitude, trunc_div, wide, FEE_DECIMALS,
};
use crate::state::Market;
use vstd::prelude::*;

verus! {

/// Whether a trade of `amount` against an inventory of `market_tokens`
/// reduces the market's exposure. The market books a user's purchase as a
/// decrease of its inventory.
pub open spec fn is_maker(market_tokens: int, amount: int) -> bool {
    abs(market_tokens - amount) < abs(market_tokens) && abs(amount) <= abs(market_tokens)
}

/// The rate that a trade of `amount` pays in `market`, in units of `10^-4`.
pub open spec fn fee_rate(market: Market, amount: int) -> int {
    if is_maker(market.token_amount as int, amount) {
        market.maker_fee as int
    } else {
        market.taker_fee as int
    }
}

/// The fee on a trade of the given notional value: `|notional| * rate /
/// 10^4`, rounded toward zero. A negative fee is a rebate.
pub open spec fn fee_amount(notional: int, rate: int) -> int {
    trunc_div(abs(notional) * rate, FEE_DECIMALS as int)
}

/// Whether a trade of `amount` reduces the exposure of a market that holds
/// `market_token_amount`.
pub fn classify_maker(market_token_amount: i64, amount: i64) -> (maker: bool)
    ensures
        maker == is_maker(market_token_amount as int, amount as int),
{
    let tokens: i128 = market_token_amount as i128;
    let after: i128 = tokens - amount as i128;
    magnitude(after) < magnitude(tokens) && magnitude(amount as i128) <= magnitude(tokens)
}

/// The rate that a trade of `amount` pays in `market`.
pub fn applicable_fee_rate(market: &Market, amount: i64) -> (rate: i16)
    ensures
        rate == fee_rate(*market, amount as int),
        rate == market.maker_fee || rate == market.taker_fee,
{
    if classify_maker(market.token_amount, amount) {
        market.maker_fee
    } else {
        market.taker_fee
    }
}

/// The fee on a trade of the given notional value at the given rate, where
/// 128 bits hold the magnitude of the notional value and the product.
pub fn checked_trade_fee(notional: i128, rate: i16) -> (r: Option<i128>)
    ensures
        r is Some <==> wide(notional as int) && wide(abs(notional as int) * rate),
        r matches Some(fee) ==> fee == fee_amount(notional as int, rate as int) && wide(fee as int),
{
    if notional == i128::MIN {
        return None;
    }
    match checked_product(magnitude(notional), rate as i128) {
        Some(p) => Some(div_toward_zero(p, FEE_DECIMALS)),
        None => None,
    }
}

/// The classification of a trade depends on the market's inventory and the
/// trade's amount and on nothing else: two markets with the same inventory
/// and the same fee schedule charge the same rate for the same amount,
/// whatever else their records hold.
pub proof fn lemma_classification_is_a_function(m1: Market, m2: Market, a1: int, a2: int)
    requires
        m1.token_amount == m2.token_amount,
        m1.maker_fee == m2.maker_fee,
        m1.taker_fee == m2.taker_fee,
        a1 == a2,
    ensures
        is_maker(m1.token_amount as int, a1) == is_maker(m2.token_amount as int, a2),
        fee_rate(m1, a1) == fee_rate(m2, a2),
{
}

/// A trade is a maker trade exactly when it has the sign of the inventory
/// and is no larger than it: it then takes from the inventory without
/// turning it over.
pub proof fn lemma_maker_reduces_inventory(market_tokens: int, amount: int)
    ensures
        is_maker(market_tokens, amount) <==> (amount != 0 && abs(amount) <= abs(market_tokens)
            && (amount > 0) == (market_tokens > 0)),
        is_maker(market_tokens, amount) ==> abs(market_tokens - amount) == abs(market_tokens)
            - abs(amount),
{
}

} // verus!
