//! Funding between the long and the short pool of a yield market.
//!
//! Whenever a participant changes the size of a long or short holding, the
//! market is marked to the current price. The pool with the larger profit
//! receives funding from the other pool: the difference of the two profits,
//! capped at what the paying pool has booked, and scaled by the time that has
//! passed since the last update as a part of a year. The participant is
//! credited with a share of the transfer in proportion to the participant's
//! part of the receiving pool, and debited the same on the paying side.

use crate::errors::KrunchErrors;
use crate::fixed_point::{
    abs, checked_credit, checked_difference, checked_get_ratio, checked_scale_mul_div, fits_i64,
    lemma_trunc_div_bounds, lemma_trunc_div_monotonic, ratio, ratio_defined, scale_defined, scaled,
    wide, ONE_YEAR,
};
use crate::price::{checked_current_price, effective_price, price_defined};
use crate::state::{Exchange, UserYieldPosition, YieldMarket};
use anchor_lang::prelude::Pubkey;
use vstd::prelude::*;

verus! {

/// No pool of the market or of the participant is negative.
pub open spec fn pools_non_negative(market: YieldMarket, user: UserYieldPosition) -> bool {
    &&& market.long_token_amount >= 0
    &&& market.short_token_amount >= 0
    &&& user.long_token_amount >= 0
    &&& user.short_token_amount >= 0
}

/// What one funding update moves, as seen from each pool and from the
/// participant's holding in each pool. A positive amount is received.
pub struct Funding {
    pub long_market: int,
    pub short_market: int,
    pub long_user: int,
    pub short_user: int,
}

/// [`Funding`] in machine integers.
pub struct FundingAmounts {
    pub long_market: i128,
    pub short_market: i128,
    pub long_user: i128,
    pub short_user: i128,
}

impl View for FundingAmounts {
    type V = Funding;

    open spec fn view(&self) -> Funding {
        Funding {
            long_market: self.long_market as int,
            short_market: self.short_market as int,
            long_user: self.long_user as int,
            short_user: self.short_user as int,
        }
    }
}

/// Whether a change of `long_delta` and `short_delta` tokens would leave a
/// pool of the participant or of the market negative.
pub open spec fn pool_rejected(
    market: YieldMarket,
    user: UserYieldPosition,
    long_delta: int,
    short_delta: int,
) -> bool {
    long_delta + user.long_token_amount < 0 || long_delta + market.long_token_amount < 0
        || short_delta + user.short_token_amount < 0 || short_delta + market.short_token_amount
        < 0
}

/// What the long pool has booked: its basis and the funding it has taken.
pub open spec fn long_book(market: YieldMarket) -> int {
    market.long_basis + market.long_funding
}

/// What the short pool has booked.
pub open spec fn short_book(market: YieldMarket) -> int {
    market.short_basis + market.short_funding
}

/// The long pool's profit at `price`: its value less what it has booked.
pub open spec fn long_pnl(market: YieldMarket, price: int, decimals: nat) -> int {
    scaled(price, market.long_token_amount as int, decimals) - long_book(market)
}

/// The short pool's profit at `price`: what it has booked less its value.
pub open spec fn short_pnl(market: YieldMarket, price: int, decimals: nat) -> int {
    short_book(market) - scaled(price, market.short_token_amount as int, decimals)
}

/// The difference of the two profits, capped at what the paying pool has
/// booked.
pub open spec fn capped_transfer(receiving_pnl: int, paying_pnl: int, paying_book: int) -> int {
    if receiving_pnl - paying_pnl > paying_book {
        paying_book
    } else {
        receiving_pnl - paying_pnl
    }
}

/// The part of `capped` that falls due after `elapsed` seconds: linear in
/// the time, the whole after one year.
pub open spec fn decayed_transfer(capped: int, elapsed: int) -> int {
    ratio(capped, elapsed, ONE_YEAR as int)
}

/// The participant's share of `transfer`, in proportion to the
/// participant's part of the pool; nothing of an empty pool.
pub open spec fn user_share(transfer: int, user_tokens: int, market_tokens: int) -> int {
    ratio(transfer, user_tokens, market_tokens)
}

/// Nothing moves.
pub open spec fn no_funding() -> Funding {
    Funding { long_market: 0, short_market: 0, long_user: 0, short_user: 0 }
}

/// What a funding update at time `now` and at `price` moves. The pool with
/// the larger profit receives, provided that both the pool and the
/// participant's holding in it are positive; where the profits are equal the
/// short pool is the receiving one.
pub open spec fn funding(
    market: YieldMarket,
    user: UserYieldPosition,
    price: int,
    decimals: nat,
    now: int,
) -> Funding {
    let lp = long_pnl(market, price, decimals);
    let sp = short_pnl(market, price, decimals);
    let elapsed = now - market.last_claim_date;
    if lp > sp {
        if market.long_token_amount > 0 && user.long_token_amount > 0 {
            let transfer = decayed_transfer(capped_transfer(lp, sp, short_book(market)), elapsed);
            let share = user_share(
                transfer,
                user.long_token_amount as int,
                market.long_token_amount as int,
            );
            Funding {
                long_market: transfer,
                short_market: -transfer,
                long_user: share,
                short_user: -share,
            }
        } else {
            no_funding()
        }
    } else {
        if market.short_token_amount > 0 && user.short_token_amount > 0 {
            let transfer = decayed_transfer(capped_transfer(sp, lp, long_book(market)), elapsed);
            let share = user_share(
                transfer,
                user.short_token_amount as int,
                market.short_token_amount as int,
            );
            Funding {
                long_market: -transfer,
                short_market: transfer,
                long_user: -share,
                short_user: share,
            }
        } else {
            no_funding()
        }
    }
}

/// The inputs on which [`funding`] can be computed in 128 bits.
pub open spec fn funding_defined(
    market: YieldMarket,
    user: UserYieldPosition,
    price: int,
    decimals: nat,
    now: int,
) -> bool {
    let lp = long_pnl(market, price, decimals);
    let sp = short_pnl(market, price, decimals);
    let elapsed = now - market.last_claim_date;
    &&& scale_defined(price, market.long_token_amount as int, decimals)
    &&& scale_defined(price, market.short_token_amount as int, decimals)
    &&& wide(lp)
    &&& wide(sp)
    &&& wide(lp - sp)
    &&& if lp > sp {
        market.long_token_amount > 0 && user.long_token_amount > 0 ==> {
            let capped = capped_transfer(lp, sp, short_book(market));
            &&& ratio_defined(capped, elapsed, ONE_YEAR as int)
            &&& ratio_defined(
                decayed_transfer(capped, elapsed),
                user.long_token_amount as int,
                market.long_token_amount as int,
            )
        }
    } else {
        market.short_token_amount > 0 && user.short_token_amount > 0 ==> {
            let capped = capped_transfer(sp, lp, long_book(market));
            &&& ratio_defined(capped, elapsed, ONE_YEAR as int)
            &&& ratio_defined(
                decayed_transfer(capped, elapsed),
                user.short_token_amount as int,
                market.short_token_amount as int,
            )
        }
    }
}

/// The market after an update that is not rejected: funding is booked, the
/// pools grow by the deltas and by their value at `price`, the fee snapshots
/// are cleared and the time is stamped.
pub open spec fn yield_market_after(
    market: YieldMarket,
    moved: Funding,
    long_delta: int,
    short_delta: int,
    price: int,
    decimals: nat,
    now: i64,
) -> YieldMarket {
    YieldMarket {
        market_index: market.market_index,
        long_token_amount: (market.long_token_amount + long_delta) as i64,
        short_token_amount: (market.short_token_amount + short_delta) as i64,
        long_basis: (market.long_basis + scaled(price, long_delta, decimals)) as i64,
        short_basis: (market.short_basis + scaled(price, short_delta, decimals)) as i64,
        long_funding: (market.long_funding + moved.long_market) as i64,
        short_funding: (market.short_funding + moved.short_market) as i64,
        short_fees: 0,
        long_fees: 0,
        last_claim_date: now,
        chainlink_feed: market.chainlink_feed,
    }
}

/// The participant's holding after an update that is not rejected.
pub open spec fn user_yield_after(
    user: UserYieldPosition,
    market_index: u16,
    moved: Funding,
    long_delta: int,
    short_delta: int,
    price: int,
    decimals: nat,
    now: i64,
) -> UserYieldPosition {
    UserYieldPosition {
        owner: user.owner,
        market_index,
        long_token_amount: (user.long_token_amount + long_delta) as i64,
        short_token_amount: (user.short_token_amount + short_delta) as i64,
        long_basis: (user.long_basis + scaled(price, long_delta, decimals)) as i64,
        short_basis: (user.short_basis + scaled(price, short_delta, decimals)) as i64,
        long_funding: (user.long_funding + moved.long_user) as i64,
        short_funding: (user.short_funding + moved.short_user) as i64,
        short_fees: 0,
        long_fees: 0,
        last_claim_date: now,
    }
}

/// Whether every amount that an update books fits the 64 bits of its field.
pub open spec fn yield_books_fit(
    market: YieldMarket,
    user: UserYieldPosition,
    moved: Funding,
    long_delta: int,
    short_delta: int,
    price: int,
    decimals: nat,
) -> bool {
    &&& fits_i64(user.long_funding + moved.long_user)
    &&& fits_i64(user.short_funding + moved.short_user)
    &&& fits_i64(user.long_token_amount + long_delta)
    &&& fits_i64(user.short_token_amount + short_delta)
    &&& fits_i64(user.long_basis + scaled(price, long_delta, decimals))
    &&& fits_i64(user.short_basis + scaled(price, short_delta, decimals))
    &&& fits_i64(market.long_funding + moved.long_market)
    &&& fits_i64(market.short_funding + moved.short_market)
    &&& fits_i64(market.long_token_amount + long_delta)
    &&& fits_i64(market.short_token_amount + short_delta)
    &&& fits_i64(market.long_basis + scaled(price, long_delta, decimals))
    &&& fits_i64(market.short_basis + scaled(price, short_delta, decimals))
}

/// The inputs on which an update can be carried out: either it is rejected
/// before anything is computed, or every product fits 128 bits and every
/// booked amount fits its field.
pub open spec fn yield_defined(
    market: YieldMarket,
    user: UserYieldPosition,
    test_mode: bool,
    long_delta: int,
    short_delta: int,
    oracle_price: int,
    decimals: nat,
    now: int,
) -> bool {
    pool_rejected(market, user, long_delta, short_delta) || {
        let price = effective_price(test_mode, oracle_price, now);
        &&& price_defined(test_mode, oracle_price, now)
        &&& scale_defined(price, long_delta, decimals)
        &&& scale_defined(price, short_delta, decimals)
        &&& funding_defined(market, user, price, decimals, now)
        &&& yield_books_fit(
            market,
            user,
            funding(market, user, price, decimals, now),
            long_delta,
            short_delta,
            price,
            decimals,
        )
    }
}

/// The transfer to the receiving pool and the participant's share of it.
fn checked_transfer(
    receiving_pnl: i128,
    paying_pnl: i128,
    paying_book: i128,
    elapsed: i128,
    user_tokens: i64,
    market_tokens: i64,
) -> (r: Option<(i128, i128)>)
    requires
        wide(receiving_pnl - paying_pnl),
    ensures
        r is Some <==> {
            let capped = capped_transfer(
                receiving_pnl as int,
                paying_pnl as int,
                paying_book as int,
            );
            &&& ratio_defined(capped, elapsed as int, ONE_YEAR as int)
            &&& ratio_defined(
                decayed_transfer(capped, elapsed as int),
                user_tokens as int,
                market_tokens as int,
            )
        },
        r matches Some(pair) ==> {
            let capped = capped_transfer(
                receiving_pnl as int,
                paying_pnl as int,
                paying_book as int,
            );
            &&& pair.0 == decayed_transfer(capped, elapsed as int)
            &&& pair.1 == user_share(pair.0 as int, user_tokens as int, market_tokens as int)
            &&& wide(pair.0 as int)
            &&& wide(pair.1 as int)
        },
{
    let amount: i128 = receiving_pnl - paying_pnl;
    let capped: i128 = if amount > paying_book {
        paying_book
    } else {
        amount
    };
    let transfer: i128 = checked_get_ratio(capped, elapsed, ONE_YEAR)?;
    let share: i128 = checked_get_ratio(transfer, user_tokens as i128, market_tokens as i128)?;
    Some((transfer, share))
}

/// What a funding update moves, where 128 bits can hold the computation.
pub fn checked_funding(
    market: &YieldMarket,
    user: &UserYieldPosition,
    price: i128,
    decimals: u8,
    now: i64,
) -> (r: Option<FundingAmounts>)
    ensures
        r is Some <==> funding_defined(*market, *user, price as int, decimals as nat, now as int),
        r matches Some(moved) ==> moved@ == funding(
            *market,
            *user,
            price as int,
            decimals as nat,
            now as int,
        ),
{
    let d: u32 = decimals as u32;
    let long_value: i128 = checked_scale_mul_div(price, market.long_token_amount as i128, d)?;
    let short_value: i128 = checked_scale_mul_div(price, market.short_token_amount as i128, d)?;
    let long_booked: i128 = market.long_basis as i128 + market.long_funding as i128;
    let short_booked: i128 = market.short_basis as i128 + market.short_funding as i128;
    let long_profit: i128 = checked_difference(long_value, long_booked)?;
    let short_profit: i128 = checked_difference(short_booked, short_value)?;
    let elapsed: i128 = now as i128 - market.last_claim_date as i128;
    let spread: i128 = checked_difference(long_profit, short_profit)?;
    if long_profit > short_profit {
        if market.long_token_amount > 0 && user.long_token_amount > 0 {
            let (transfer, share): (i128, i128) = checked_transfer(
                long_profit,
                short_profit,
                short_booked,
                elapsed,
                user.long_token_amount,
                market.long_token_amount,
            )?;
            Some(
                FundingAmounts {
                    long_market: transfer,
                    short_market: -transfer,
                    long_user: share,
                    short_user: -share,
                },
            )
        } else {
            Some(FundingAmounts { long_market: 0, short_market: 0, long_user: 0, short_user: 0 })
        }
    } else {
        if market.short_token_amount > 0 && user.short_token_amount > 0 {
            let (transfer, share): (i128, i128) = checked_transfer(
                short_profit,
                long_profit,
                long_booked,
                elapsed,
                user.short_token_amount,
                market.short_token_amount,
            )?;
            Some(
                FundingAmounts {
                    long_market: -transfer,
                    short_market: transfer,
                    long_user: -share,
                    short_user: share,
                },
            )
        } else {
            Some(FundingAmounts { long_market: 0, short_market: 0, long_user: 0, short_user: 0 })
        }
    }
}

/// Whether a change of the given deltas would leave a pool negative.
pub fn rejects_pool_change(
    market: &YieldMarket,
    user: &UserYieldPosition,
    long_token_amount: i64,
    short_token_amount: i64,
) -> (rejected: bool)
    ensures
        rejected == pool_rejected(
            *market,
            *user,
            long_token_amount as int,
            short_token_amount as int,
        ),
{
    long_token_amount as i128 + (user.long_token_amount as i128) < 0 || long_token_amount as i128
        + (market.long_token_amount as i128) < 0 || short_token_amount as i128
        + (user.short_token_amount as i128) < 0 || short_token_amount as i128
        + (market.short_token_amount as i128) < 0
}

/// The records after an update that is not rejected, where every amount can
/// be computed and booked.
fn checked_yield_books(
    market: &YieldMarket,
    user: &UserYieldPosition,
    test_mode: bool,
    market_index: u16,
    long_token_amount: i64,
    short_token_amount: i64,
    oracle_price: i128,
    price_decimals: u8,
    now: i64,
) -> (r: Option<(YieldMarket, UserYieldPosition)>)
    requires
        !pool_rejected(*market, *user, long_token_amount as int, short_token_amount as int),
    ensures
        r is Some <==> yield_defined(
            *market,
            *user,
            test_mode,
            long_token_amount as int,
            short_token_amount as int,
            oracle_price as int,
            price_decimals as nat,
            now as int,
        ),
        r matches Some(books) ==> {
            let price = effective_price(test_mode, oracle_price as int, now as int);
            let moved = funding(*market, *user, price, price_decimals as nat, now as int);
            &&& books.0 == yield_market_after(
                *market,
                moved,
                long_token_amount as int,
                short_token_amount as int,
                price,
                price_decimals as nat,
                now,
            )
            &&& books.1 == user_yield_after(
                *user,
                market_index,
                moved,
                long_token_amount as int,
                short_token_amount as int,
                price,
                price_decimals as nat,
                now,
            )
        },
{
    let d: u32 = price_decimals as u32;
    let price: i128 = checked_current_price(test_mode, oracle_price, now)?;
    let long_basis: i128 = checked_scale_mul_div(price, long_token_amount as i128, d)?;
    let short_basis: i128 = checked_scale_mul_div(price, short_token_amount as i128, d)?;
    let moved: FundingAmounts = checked_funding(market, user, price, price_decimals, now)?;
    let user_after = UserYieldPosition {
        owner: user.owner,
        market_index,
        long_funding: checked_credit(user.long_funding, moved.long_user)?,
        short_funding: checked_credit(user.short_funding, moved.short_user)?,
        long_token_amount: checked_credit(user.long_token_amount, long_token_amount as i128)?,
        short_token_amount: checked_credit(user.short_token_amount, short_token_amount as i128)?,
        long_basis: checked_credit(user.long_basis, long_basis)?,
        short_basis: checked_credit(user.short_basis, short_basis)?,
        short_fees: 0,
        long_fees: 0,
        last_claim_date: now,
    };
    let market_after = YieldMarket {
        market_index: market.market_index,
        long_funding: checked_credit(market.long_funding, moved.long_market)?,
        short_funding: checked_credit(market.short_funding, moved.short_market)?,
        long_token_amount: checked_credit(market.long_token_amount, long_token_amount as i128)?,
        short_token_amount: checked_credit(
            market.short_token_amount,
            short_token_amount as i128,
        )?,
        long_basis: checked_credit(market.long_basis, long_basis)?,
        short_basis: checked_credit(market.short_basis, short_basis)?,
        short_fees: 0,
        long_fees: 0,
        last_claim_date: now,
        chainlink_feed: market.chainlink_feed,
    };
    Some((market_after, user_after))
}

/// Changes a participant's long and short holdings in a yield market by
/// `long_token_amount` and `short_token_amount` at time `now`, and settles
/// the funding that has fallen due since the market's last update.
///
/// The update is rejected, and nothing is changed, if it would leave a pool
/// of the participant or of the market negative. Otherwise the funding is
/// booked on both records, the holdings and their basis at the current price
/// are added, the fee snapshots are cleared and both records are stamped
/// with `now`. The price is the oracle's answer, perturbed if the exchange
/// is in test mode.
pub fn update_yield(
    yield_market: &mut YieldMarket,
    user_yield_position: &mut UserYieldPosition,
    exchange: &Exchange,
    market_index: u16,
    long_token_amount: i64,
    short_token_amount: i64,
    oracle_price: i128,
    price_decimals: u8,
    now: i64,
) -> (r: Result<(), KrunchErrors>)
    requires
        yield_defined(
            *old(yield_market),
            *old(user_yield_position),
            exchange.test_mode,
            long_token_amount as int,
            short_token_amount as int,
            oracle_price as int,
            price_decimals as nat,
            now as int,
        ),
    ensures
        yield_outcome(
            *old(yield_market),
            *old(user_yield_position),
            exchange.test_mode,
            market_index,
            long_token_amount,
            short_token_amount,
            oracle_price,
            price_decimals,
            now,
            *final(yield_market),
            *final(user_yield_position),
            r,
        ),
        r is Ok ==> pools_non_negative(*final(yield_market), *final(user_yield_position)),
{
    match try_update_yield(
        yield_market,
        user_yield_position,
        exchange,
        market_index,
        long_token_amount,
        short_token_amount,
        oracle_price,
        price_decimals,
        now,
    ) {
        Some(r) => r,
        None => {
            proof {
                assert(false);
            }
            Ok(())
        },
    }
}

/// What [`update_yield`] returns and leaves behind: a rejection and the
/// records as they were, or success and the records after the update.
pub open spec fn yield_outcome(
    market: YieldMarket,
    user: UserYieldPosition,
    test_mode: bool,
    market_index: u16,
    long_token_amount: i64,
    short_token_amount: i64,
    oracle_price: i128,
    price_decimals: u8,
    now: i64,
    market_after: YieldMarket,
    user_after: UserYieldPosition,
    r: Result<(), KrunchErrors>,
) -> bool {
    if pool_rejected(market, user, long_token_amount as int, short_token_amount as int) {
        &&& r == Err::<(), KrunchErrors>(KrunchErrors::YieldAmountInsufficient)
        &&& market_after == market
        &&& user_after == user
    } else {
        let price = effective_price(test_mode, oracle_price as int, now as int);
        let moved = funding(market, user, price, price_decimals as nat, now as int);
        &&& r == Ok::<(), KrunchErrors>(())
        &&& market_after == yield_market_after(
            market,
            moved,
            long_token_amount as int,
            short_token_amount as int,
            price,
            price_decimals as nat,
            now,
        )
        &&& user_after == user_yield_after(
            user,
            market_index,
            moved,
            long_token_amount as int,
            short_token_amount as int,
            price,
            price_decimals as nat,
            now,
        )
    }
}

/// [`update_yield`] for any input: `None`, and nothing changed, where an
/// amount cannot be computed in 128 bits or booked in 64.
pub fn try_update_yield(
    yield_market: &mut YieldMarket,
    user_yield_position: &mut UserYieldPosition,
    exchange: &Exchange,
    market_index: u16,
    long_token_amount: i64,
    short_token_amount: i64,
    oracle_price: i128,
    price_decimals: u8,
    now: i64,
) -> (r: Option<Result<(), KrunchErrors>>)
    ensures
        r is Some <==> yield_defined(
            *old(yield_market),
            *old(user_yield_position),
            exchange.test_mode,
            long_token_amount as int,
            short_token_amount as int,
            oracle_price as int,
            price_decimals as nat,
            now as int,
        ),
        r is None ==> *final(yield_market) == *old(yield_market) && *final(user_yield_position)
            == *old(user_yield_position),
        r matches Some(done) ==> yield_outcome(
            *old(yield_market),
            *old(user_yield_position),
            exchange.test_mode,
            market_index,
            long_token_amount,
            short_token_amount,
            oracle_price,
            price_decimals,
            now,
            *final(yield_market),
            *final(user_yield_position),
            done,
        ),
        r matches Some(Ok(_)) ==> pools_non_negative(
            *final(yield_market),
            *final(user_yield_position),
        ),
{
    if rejects_pool_change(
        yield_market,
        user_yield_position,
        long_token_amount,
        short_token_amount,
    ) {
        return Some(Err(KrunchErrors::YieldAmountInsufficient));
    }
    match checked_yield_books(
        yield_market,
        user_yield_position,
        exchange.test_mode,
        market_index,
        long_token_amount,
        short_token_amount,
        oracle_price,
        price_decimals,
        now,
    ) {
        Some((market_after, user_after)) => {
            *yield_market = market_after;
            *user_yield_position = user_after;
            Some(Ok(()))
        },
        None => None,
    }
}

/// Opens a yield market: empty pools, stamped with `now`.
pub fn add_yield_market(
    yield_market: &mut YieldMarket,
    market_index: u16,
    chainlink_feed: Pubkey,
    now: i64,
)
    ensures
        *final(yield_market) == (YieldMarket {
            market_index,
            long_token_amount: 0,
            short_token_amount: 0,
            long_basis: 0,
            short_basis: 0,
            long_funding: 0,
            short_funding: 0,
            short_fees: 0,
            long_fees: 0,
            last_claim_date: now,
            chainlink_feed,
        }),
{
    yield_market.market_index = market_index;
    yield_market.long_basis = 0;
    yield_market.short_basis = 0;
    yield_market.long_token_amount = 0;
    yield_market.short_token_amount = 0;
    yield_market.long_funding = 0;
    yield_market.short_funding = 0;
    yield_market.short_fees = 0;
    yield_market.long_fees = 0;
    yield_market.last_claim_date = now;
    yield_market.chainlink_feed = chainlink_feed;
}

/// Opens a participant's holding in a yield market: the record is given its
/// market and its owner, and is otherwise left as it was created.
pub fn add_yield(user_yield_position: &mut UserYieldPosition, market_index: u16, owner: Pubkey)
    ensures
        *final(user_yield_position) == (UserYieldPosition {
            market_index,
            owner,
            ..*old(user_yield_position)
        }),
{
    user_yield_position.market_index = market_index;
    user_yield_position.owner = owner;
}

/// The amount to be transferred is capped: it exceeds neither what the
/// paying pool has booked nor the difference of the two profits, whatever
/// the profits are.
pub proof fn lemma_transfer_capped(receiving_pnl: int, paying_pnl: int, paying_book: int)
    ensures
        capped_transfer(receiving_pnl, paying_pnl, paying_book) <= paying_book,
        capped_transfer(receiving_pnl, paying_pnl, paying_book) <= receiving_pnl - paying_pnl,
        capped_transfer(receiving_pnl, paying_pnl, paying_book) == paying_book || capped_transfer(
            receiving_pnl,
            paying_pnl,
            paying_book,
        ) == receiving_pnl - paying_pnl,
{
}

/// Within a year of the last update, no more than the capped amount falls
/// due, and nothing is taken back.
pub proof fn lemma_decayed_transfer_within_cap(capped: int, elapsed: int)
    requires
        0 <= capped,
        0 <= elapsed <= ONE_YEAR,
    ensures
        0 <= decayed_transfer(capped, elapsed) <= capped,
{
    lemma_part_of_whole(capped, elapsed, ONE_YEAR as int);
}

/// A participant who holds a part of a pool is credited with no more than
/// the whole transfer.
pub proof fn lemma_user_share_within_transfer(transfer: int, user_tokens: int, market_tokens: int)
    requires
        0 <= transfer,
        0 <= user_tokens <= market_tokens,
    ensures
        0 <= user_share(transfer, user_tokens, market_tokens) <= transfer,
{
    if market_tokens != 0 {
        lemma_part_of_whole(transfer, user_tokens, market_tokens);
    }
}

/// `amount * part / whole` lies between nothing and `amount`.
proof fn lemma_part_of_whole(amount: int, part: int, whole: int)
    requires
        0 <= amount,
        0 <= part <= whole,
        0 < whole,
    ensures
        0 <= ratio(amount, part, whole) <= amount,
{
    assert(0 <= amount * part <= amount * whole) by (nonlinear_arith)
        requires
            0 <= amount,
            0 <= part <= whole,
    ;
    lemma_trunc_div_monotonic(amount * part, amount * whole, whole);
    lemma_trunc_div_bounds(amount * part, whole);
    vstd::arithmetic::div_mod::lemma_div_by_multiple(amount, whole);
}

/// What one pool receives the other pays, at the level of the market and at
/// the level of the participant.
pub proof fn lemma_funding_is_zero_sum(
    market: YieldMarket,
    user: UserYieldPosition,
    price: int,
    decimals: nat,
    now: int,
)
    ensures
        funding(market, user, price, decimals, now).long_market + funding(
            market,
            user,
            price,
            decimals,
            now,
        ).short_market == 0,
        funding(market, user, price, decimals, now).long_user + funding(
            market,
            user,
            price,
            decimals,
            now,
        ).short_user == 0,
{
}

/// Funding cap. Where neither pool has booked a negative amount and no more
/// than a year has passed since the market's last update, a pool receives no
/// more than the other pool has booked, and the participant no more than
/// the pool, whatever the price and the profits are.
pub proof fn lemma_funding_within_paying_book(
    market: YieldMarket,
    user: UserYieldPosition,
    price: int,
    decimals: nat,
    now: int,
)
    requires
        0 <= now - market.last_claim_date <= ONE_YEAR,
        long_book(market) >= 0,
        short_book(market) >= 0,
        user.long_token_amount <= market.long_token_amount,
        user.short_token_amount <= market.short_token_amount,
    ensures
        funding(market, user, price, decimals, now).long_market <= short_book(market),
        funding(market, user, price, decimals, now).short_market <= long_book(market),
        funding(market, user, price, decimals, now).long_user <= abs(
            funding(market, user, price, decimals, now).long_market,
        ),
        funding(market, user, price, decimals, now).short_user <= abs(
            funding(market, user, price, decimals, now).short_market,
        ),
{
    let lp = long_pnl(market, price, decimals);
    let sp = short_pnl(market, price, decimals);
    let elapsed = now - market.last_claim_date;
    if lp > sp {
        if market.long_token_amount > 0 && user.long_token_amount > 0 {
            let capped = capped_transfer(lp, sp, short_book(market));
            lemma_decayed_transfer_within_cap(capped, elapsed);
            lemma_user_share_within_transfer(
                decayed_transfer(capped, elapsed),
                user.long_token_amount as int,
                market.long_token_amount as int,
            );
        }
    } else {
        if market.short_token_amount > 0 && user.short_token_amount > 0 {
            let capped = capped_transfer(sp, lp, long_book(market));
            lemma_decayed_transfer_within_cap(capped, elapsed);
            lemma_user_share_within_transfer(
                decayed_transfer(capped, elapsed),
                user.short_token_amount as int,
                market.short_token_amount as int,
            );
        }
    }
}

/// An update that is carried out changes the holdings and the basis of the
/// participant by what it changes those of the market: the deltas that were
/// asked for, and their value at the current price. No pool is negative
/// afterwards.
pub proof fn lemma_yield_update_conserved(
    market: YieldMarket,
    user: UserYieldPosition,
    test_mode: bool,
    market_index: u16,
    long_token_amount: i64,
    short_token_amount: i64,
    oracle_price: i128,
    price_decimals: u8,
    now: i64,
    market_after: YieldMarket,
    user_after: UserYieldPosition,
)
    requires
        !pool_rejected(market, user, long_token_amount as int, short_token_amount as int),
        yield_defined(
            market,
            user,
            test_mode,
            long_token_amount as int,
            short_token_amount as int,
            oracle_price as int,
            price_decimals as nat,
            now as int,
        ),
        yield_outcome(
            market,
            user,
            test_mode,
            market_index,
            long_token_amount,
            short_token_amount,
            oracle_price,
            price_decimals,
            now,
            market_after,
            user_after,
            Ok(()),
        ),
    ensures
        market_after.long_token_amount - market.long_token_amount == long_token_amount,
        user_after.long_token_amount - user.long_token_amount == long_token_amount,
        market_after.short_token_amount - market.short_token_amount == short_token_amount,
        user_after.short_token_amount - user.short_token_amount == short_token_amount,
        market_after.long_basis - market.long_basis == user_after.long_basis - user.long_basis,
        market_after.short_basis - market.short_basis == user_after.short_basis
            - user.short_basis,
        market_after.long_funding - market.long_funding + market_after.short_funding
            - market.short_funding == 0,
        user_after.long_funding - user.long_funding + user_after.short_funding
            - user.short_funding == 0,
        pools_non_negative(market_after, user_after),
{
}

} // verus!
