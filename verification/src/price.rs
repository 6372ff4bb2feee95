//! The price that an operation settles at.
//!
//! In production the price is the oracle's answer. In test mode it is the
//! oracle's answer moved by as many percent as the last decimal digit of the
//! current time says, so that a test sees prices change without an oracle
//! that changes. The choice is made here and nowhere else.

use crate::fixed_point::{checked_product, div_toward_zero, trunc_div, wide};
use crate::state::{DataFeed, Decimal};
use vstd::prelude::*;

verus! {

/// The last decimal digit of `now`, with the sign of `now`.
pub open spec fn last_digit(now: int) -> int {
    if now >= 0 {
        now % 10
    } else {
        -((-now) % 10)
    }
}

/// `price` moved by `last_digit(now)` percent, rounded toward zero.
pub open spec fn jittered_price(price: int, now: int) -> int {
    trunc_div(price * (100 + last_digit(now)), 100)
}

/// The price that an operation at time `now` settles at.
pub open spec fn effective_price(test_mode: bool, oracle_price: int, now: int) -> int {
    if test_mode {
        jittered_price(oracle_price, now)
    } else {
        oracle_price
    }
}

/// The inputs on which [`effective_price`] can be computed in 128 bits.
pub open spec fn price_defined(test_mode: bool, oracle_price: int, now: int) -> bool {
    test_mode ==> wide(oracle_price * (100 + last_digit(now)))
}

/// The price that an operation at time `now` settles at: the oracle's answer,
/// perturbed in test mode.
pub fn current_price(test_mode: bool, oracle_price: i128, now: i64) -> (price: i128)
    requires
        price_defined(test_mode, oracle_price as int, now as int),
    ensures
        price == effective_price(test_mode, oracle_price as int, now as int),
{
    match checked_current_price(test_mode, oracle_price, now) {
        Some(price) => price,
        None => {
            proof {
                assert(false);
            }
            oracle_price
        },
    }
}

/// [`current_price`] for any input: `None` where the perturbed price cannot
/// be computed in 128 bits.
pub fn checked_current_price(test_mode: bool, oracle_price: i128, now: i64) -> (r: Option<i128>)
    ensures
        r is Some <==> price_defined(test_mode, oracle_price as int, now as int),
        r matches Some(price) ==> price == effective_price(
            test_mode,
            oracle_price as int,
            now as int,
        ),
{
    if !test_mode {
        return Some(oracle_price);
    }
    let digit: i64 = now % 10;
    let percent: i128 = 100 + digit as i128;
    match checked_product(oracle_price, percent) {
        Some(p) => Some(div_toward_zero(p, 100)),
        None => None,
    }
}

/// In test mode the price moves by less than a tenth, and not at all at a
/// time that ends in the digit zero.
pub proof fn lemma_jitter_bounded(price: int, now: int)
    ensures
        -9 <= last_digit(now) <= 9,
        now >= 0 ==> last_digit(now) >= 0,
        last_digit(now) == 0 ==> jittered_price(price, now) == price,
{
}

/// The report of a price feed: the oracle's answer and description and the
/// number of decimal places of the answer.
pub fn get_price(round: i128, description: String, decimals: u8) -> (feed: DataFeed)
    ensures
        feed.round == round,
        feed.description == description,
        feed.decimals == decimals,
{
    DataFeed { round, description, decimals }
}

/// The oracle's answer as a fixed-point number.
pub fn price_as_decimal(feed: &DataFeed) -> (d: Decimal)
    ensures
        d.value == feed.round,
        d.decimals == feed.decimals,
{
    Decimal::new(feed.round, feed.decimals as u32)
}

} // verus!
