//! Settling a trade.
//!
//! A trade of `amount` tokens (positive to buy) at the current price is one
//! transition of four records: the user's position and account, the market
//! and the exchange. The part of the trade that runs against the position
//! closes it and realizes a profit or loss against the position's average
//! entry price; the rest opens new exposure at the current price. The fee is
//! charged on the whole. The position's margin is marked to the current
//! price. Everything is booked at all four scopes in one step, and the
//! result is kept only if every scope still has margin left.

use crate::errors::KrunchErrors;
use crate::fees::{applicable_fee_rate, checked_trade_fee, fee_amount, fee_rate};
use crate::fixed_point::{
    abs, checked_difference, checked_scale_mul_div, div_toward_zero, fits_i64,
    lemma_pow10_increases, lemma_trunc_div_bounds, lemma_trunc_div_monotonic, magnitude, pow10,
    ratio, scale_defined, scaled, wide,
};
use crate::price::{checked_current_price, effective_price, price_defined};
use crate::rollup::{
    account_is_rollup, booked, booking_fits, checked_book, conserved, exchange_is_rollup,
    lemma_booking_conserved, lemma_booking_keeps_rollups, market_is_rollup, same_frame, Booking,
    BookingAmounts, Ledger,
};
use crate::solvency::{
    exchange_available, market_available, solvency_gate, trade_verdict, user_available,
};
use crate::state::{Exchange, Market, UserAccount, UserPosition};
use vstd::prelude::*;

verus! {

/// The part of a trade of `amount` that closes a position of
/// `position_tokens`: the smaller of the two magnitudes where the trade runs
/// against the position, nothing where it does not.
pub open spec fn closed_amount(position_tokens: int, amount: int) -> int {
    if (position_tokens < 0 && amount > 0) || (position_tokens > 0 && amount < 0) {
        if abs(position_tokens) <= abs(amount) {
            abs(position_tokens)
        } else {
            abs(amount)
        }
    } else {
        0
    }
}

/// The cost of the closed part of a position at its average entry price:
/// `|basis| * closed / |tokens|`, rounded toward zero.
pub open spec fn released_basis(basis_before: int, tokens_before: int, closed: int) -> int {
    ratio(abs(basis_before), closed, abs(tokens_before))
}

/// The fee that a trade pays; negative for a rebate.
pub open spec fn trade_fee(market: Market, amount: int, price: int, decimals: nat) -> int {
    fee_amount(scaled(amount, price, decimals), fee_rate(market, amount))
}

/// The profit that a trade realizes: the cost of the closed part at the
/// average entry price less its value at the current price. Zero where the
/// trade closes nothing.
pub open spec fn realized_pnl(position: UserPosition, amount: int, price: int, decimals: nat)
    -> int {
    let closed = closed_amount(position.token_amount as int, amount);
    released_basis(position.basis as int, position.token_amount as int, closed) - scaled(
        closed,
        price,
        decimals,
    )
}

/// The value at the current price of the part of a trade that opens new
/// exposure.
pub open spec fn opened_value(position: UserPosition, amount: int, price: int, decimals: nat)
    -> int {
    scaled(abs(amount) - closed_amount(position.token_amount as int, amount), price, decimals)
}

/// The margin that the position needs after the trade: the magnitude of its
/// value at the current price.
pub open spec fn position_margin(position: UserPosition, amount: int, price: int, decimals: nat)
    -> int {
    abs(scaled(position.token_amount + amount, price, decimals))
}

/// What a trade changes, as the user sees it. The basis takes up the cost of
/// the closed part and gives the value of the opened part; a fee is booked
/// as a negative amount under fees, a rebate as a positive amount under
/// rebates.
pub open spec fn trade_booking(
    market: Market,
    position: UserPosition,
    amount: int,
    price: int,
    decimals: nat,
) -> Booking {
    let fee = trade_fee(market, amount, price, decimals);
    let closed = closed_amount(position.token_amount as int, amount);
    let released = released_basis(position.basis as int, position.token_amount as int, closed);
    Booking {
        tokens: amount,
        basis: released - opened_value(position, amount, price, decimals),
        pnl: realized_pnl(position, amount, price, decimals),
        fees: if fee < 0 {
            0
        } else {
            -fee
        },
        rebates: if fee < 0 {
            -fee
        } else {
            0
        },
        margin: position_margin(position, amount, price, decimals),
    }
}

/// The inputs on which the terms of a trade can be computed in 128 bits.
pub open spec fn trade_computable(
    market: Market,
    position: UserPosition,
    amount: int,
    price: int,
    decimals: nat,
) -> bool {
    let closed = closed_amount(position.token_amount as int, amount);
    &&& scale_defined(amount, price, decimals)
    &&& wide(abs(scaled(amount, price, decimals)) * fee_rate(market, amount))
    &&& scale_defined(position.token_amount + amount, price, decimals)
    &&& scale_defined(closed, price, decimals)
    &&& scale_defined(abs(amount) - closed, price, decimals)
}

/// The inputs on which a trade can be settled: the price and the terms can
/// be computed in 128 bits, and every booked amount fits its field.
pub open spec fn trade_defined(
    ledger: Ledger,
    amount: int,
    oracle_price: int,
    decimals: nat,
    now: int,
) -> bool {
    let price = effective_price(ledger.exchange.test_mode, oracle_price, now);
    &&& price_defined(ledger.exchange.test_mode, oracle_price, now)
    &&& trade_computable(ledger.market, ledger.user_position, amount, price, decimals)
    &&& booking_fits(
        ledger,
        trade_booking(ledger.market, ledger.user_position, amount, price, decimals),
    )
}

/// The four records with the trade booked, before the solvency gate is
/// asked. The price is the oracle's answer, perturbed if the exchange is in
/// test mode.
pub open spec fn settled(ledger: Ledger, amount: int, oracle_price: int, decimals: nat, now: int)
    -> Ledger {
    booked(
        ledger,
        trade_booking(
            ledger.market,
            ledger.user_position,
            amount,
            effective_price(ledger.exchange.test_mode, oracle_price, now),
            decimals,
        ),
    )
}

/// What a trade returns and leaves behind: the verdict of the solvency gate
/// on the settled records, and those records if the verdict is favourable,
/// the records as they were if it is not.
pub open spec fn trade_outcome(
    before: Ledger,
    amount: i64,
    oracle_price: i128,
    price_decimals: u8,
    now: i64,
    after: Ledger,
    r: Result<(), KrunchErrors>,
) -> bool {
    let s = settled(before, amount as int, oracle_price as int, price_decimals as nat, now as int);
    &&& r == trade_verdict(s.exchange, s.market, s.user_account)
    &&& after == if r is Ok {
        s
    } else {
        before
    }
}

/// The four records as one value.
pub open spec fn ledger_of(
    exchange: Exchange,
    market: Market,
    user_account: UserAccount,
    user_position: UserPosition,
) -> Ledger {
    Ledger { exchange, market, user_account, user_position }
}

/// Every scope of the ledger has margin left.
pub open spec fn solvent(ledger: Ledger) -> bool {
    &&& exchange_available(ledger.exchange) >= 0
    &&& market_available(ledger.exchange, ledger.market) >= 0
    &&& user_available(ledger.user_account, ledger.market.leverage as int) >= 0
}

/// The part of a trade that closes the position.
fn closing_amount(position_token_amount: i64, amount: i64) -> (closed: i128)
    ensures
        closed == closed_amount(position_token_amount as int, amount as int),
        0 <= closed <= abs(position_token_amount as int),
        closed <= abs(amount as int),
{
    if (position_token_amount < 0 && amount > 0) || (position_token_amount > 0 && amount < 0) {
        let held: i128 = magnitude(position_token_amount as i128);
        let traded: i128 = magnitude(amount as i128);
        if held <= traded {
            held
        } else {
            traded
        }
    } else {
        0
    }
}

/// The cost of the closed part of a position at its average entry price.
fn release_basis(basis_before: i64, tokens_before: i64, closed: i128) -> (released: i128)
    requires
        0 <= closed <= abs(tokens_before as int),
    ensures
        released == released_basis(basis_before as int, tokens_before as int, closed as int),
        0 <= released <= abs(basis_before as int),
{
    if tokens_before == 0 {
        return 0;
    }
    let cost: i128 = magnitude(basis_before as i128);
    let held: i128 = magnitude(tokens_before as i128);
    assert(0 <= cost * closed <= cost * held <= 0x4000_0000_0000_0000_0000_0000_0000_0000)
        by (nonlinear_arith)
        requires
            0 <= cost <= 0x8000_0000_0000_0000,
            0 <= closed <= held <= 0x8000_0000_0000_0000,
    ;
    proof {
        lemma_trunc_div_monotonic(cost * closed, cost * held, held as int);
        lemma_trunc_div_bounds(cost * closed, held as int);
        vstd::arithmetic::div_mod::lemma_div_by_multiple(cost as int, held as int);
    }
    div_toward_zero(cost * closed, held)
}

/// The terms of a trade in machine integers, where they can be computed.
/// Where they cannot, or where basis or profit would not even fit 128 bits,
/// the trade cannot be booked on the position.
fn checked_trade_booking(
    market: &Market,
    position: &UserPosition,
    amount: i64,
    price: i128,
    decimals: u8,
) -> (r: Option<BookingAmounts>)
    ensures
        r matches Some(b) ==> {
            &&& trade_computable(*market, *position, amount as int, price as int, decimals as nat)
            &&& b@ == trade_booking(
                *market,
                *position,
                amount as int,
                price as int,
                decimals as nat,
            )
            &&& b.well_formed()
        },
        r is None ==> {
            let b = trade_booking(
                *market,
                *position,
                amount as int,
                price as int,
                decimals as nat,
            );
            ||| !trade_computable(
                *market,
                *position,
                amount as int,
                price as int,
                decimals as nat,
            )
            ||| !fits_i64(position.basis + b.basis)
            ||| !fits_i64(position.pnl + b.pnl)
        },
{
    let d: u32 = decimals as u32;
    let notional: i128 = checked_scale_mul_div(amount as i128, price, d)?;
    let rate: i16 = applicable_fee_rate(market, amount);
    let fee: i128 = checked_trade_fee(notional, rate)?;
    let tokens_after: i128 = position.token_amount as i128 + amount as i128;
    let value_after: i128 = checked_scale_mul_div(tokens_after, price, d)?;
    let closed: i128 = closing_amount(position.token_amount, amount);
    let released: i128 = release_basis(position.basis, position.token_amount, closed);
    let closing_value: i128 = checked_scale_mul_div(closed, price, d)?;
    let opened: i128 = magnitude(amount as i128) - closed;
    let opening_value: i128 = checked_scale_mul_div(opened, price, d)?;
    let basis: i128 = checked_difference(released, opening_value)?;
    let pnl: i128 = checked_difference(released, closing_value)?;
    let (fees, rebates): (i128, i128) = if fee < 0 {
        (0, -fee)
    } else {
        (-fee, 0)
    };
    Some(
        BookingAmounts {
            tokens: amount as i128,
            basis,
            pnl,
            fees,
            rebates,
            margin: magnitude(value_after),
        },
    )
}

/// The four records with the trade booked, where the trade can be settled.
/// The solvency check has yet to be asked: what this returns is a proposal.
fn checked_settle(
    ledger: &Ledger,
    amount: i64,
    oracle_price: i128,
    price_decimals: u8,
    now: i64,
) -> (r: Option<Ledger>)
    ensures
        r is Some <==> trade_defined(
            *ledger,
            amount as int,
            oracle_price as int,
            price_decimals as nat,
            now as int,
        ),
        r matches Some(s) ==> s == settled(
            *ledger,
            amount as int,
            oracle_price as int,
            price_decimals as nat,
            now as int,
        ),
{
    let price: i128 = checked_current_price(ledger.exchange.test_mode, oracle_price, now)?;
    let booking: BookingAmounts = checked_trade_booking(
        &ledger.market,
        &ledger.user_position,
        amount,
        price,
        price_decimals,
    )?;
    checked_book(ledger, &booking)
}

/// Settles a trade of `amount` tokens, positive to buy, at time `now` and at
/// the oracle's price.
///
/// The fee, the realized profit, the new basis and the position's margin
/// are booked on the position and rolled up to account, market and
/// exchange. Then exchange, market and user are asked, in this order,
/// whether they have margin left. If one has not, its error is returned and
/// all four records are as they were; otherwise the records hold the settled
/// trade. A trade of nothing is settled like any other: it marks the
/// position's margin to the current price and may be refused.
pub fn execute_trade(
    exchange: &mut Exchange,
    market: &mut Market,
    user_account: &mut UserAccount,
    user_position: &mut UserPosition,
    amount: i64,
    oracle_price: i128,
    price_decimals: u8,
    now: i64,
) -> (r: Result<(), KrunchErrors>)
    requires
        trade_defined(
            ledger_of(*old(exchange), *old(market), *old(user_account), *old(user_position)),
            amount as int,
            oracle_price as int,
            price_decimals as nat,
            now as int,
        ),
    ensures
        trade_outcome(
            ledger_of(*old(exchange), *old(market), *old(user_account), *old(user_position)),
            amount,
            oracle_price,
            price_decimals,
            now,
            ledger_of(
                *final(exchange),
                *final(market),
                *final(user_account),
                *final(user_position),
            ),
            r,
        ),
        conserved(
            ledger_of(*old(exchange), *old(market), *old(user_account), *old(user_position)),
            ledger_of(
                *final(exchange),
                *final(market),
                *final(user_account),
                *final(user_position),
            ),
        ),
        r is Ok ==> solvent(
            ledger_of(
                *final(exchange),
                *final(market),
                *final(user_account),
                *final(user_position),
            ),
        ),
{
    match try_execute_trade(
        exchange,
        market,
        user_account,
        user_position,
        amount,
        oracle_price,
        price_decimals,
        now,
    ) {
        Some(r) => r,
        None => {
            proof {
                assert(false);
            }
            Ok(())
        },
    }
}

/// [`execute_trade`] for any input: `None`, and nothing changed, where an
/// amount cannot be computed in 128 bits or booked in 64.
pub fn try_execute_trade(
    exchange: &mut Exchange,
    market: &mut Market,
    user_account: &mut UserAccount,
    user_position: &mut UserPosition,
    amount: i64,
    oracle_price: i128,
    price_decimals: u8,
    now: i64,
) -> (r: Option<Result<(), KrunchErrors>>)
    ensures
        r is Some <==> trade_defined(
            ledger_of(*old(exchange), *old(market), *old(user_account), *old(user_position)),
            amount as int,
            oracle_price as int,
            price_decimals as nat,
            now as int,
        ),
        r is None ==> ledger_of(
            *final(exchange),
            *final(market),
            *final(user_account),
            *final(user_position),
        ) == ledger_of(*old(exchange), *old(market), *old(user_account), *old(user_position)),
        r matches Some(verdict) ==> trade_outcome(
            ledger_of(*old(exchange), *old(market), *old(user_account), *old(user_position)),
            amount,
            oracle_price,
            price_decimals,
            now,
            ledger_of(
                *final(exchange),
                *final(market),
                *final(user_account),
                *final(user_position),
            ),
            verdict,
        ),
        conserved(
            ledger_of(*old(exchange), *old(market), *old(user_account), *old(user_position)),
            ledger_of(
                *final(exchange),
                *final(market),
                *final(user_account),
                *final(user_position),
            ),
        ),
        r matches Some(Ok(_)) ==> solvent(
            ledger_of(
                *final(exchange),
                *final(market),
                *final(user_account),
                *final(user_position),
            ),
        ),
{
    let ledger = Ledger {
        exchange: *exchange,
        market: *market,
        user_account: *user_account,
        user_position: *user_position,
    };
    match checked_settle(&ledger, amount, oracle_price, price_decimals, now) {
        Some(s) => {
            let verdict = solvency_gate(&s.exchange, &s.market, &s.user_account);
            if verdict.is_ok() {
                proof {
                    lemma_trade_conserved(
                        ledger,
                        amount as int,
                        oracle_price as int,
                        price_decimals as nat,
                        now as int,
                    );
                }
                *exchange = s.exchange;
                *market = s.market;
                *user_account = s.user_account;
                *user_position = s.user_position;
            }
            Some(verdict)
        },
        None => None,
    }
}

/// Rollup conservation. A settled trade changes the account by what it
/// changes the position, and market and exchange by the mirror image; all
/// three take up the margin that the position releases; and nothing but
/// tokens, basis, profit, fees, rebates and margin is touched.
pub proof fn lemma_trade_conserved(
    ledger: Ledger,
    amount: int,
    oracle_price: int,
    decimals: nat,
    now: int,
)
    requires
        trade_defined(ledger, amount, oracle_price, decimals, now),
    ensures
        conserved(ledger, settled(ledger, amount, oracle_price, decimals, now)),
        same_frame(ledger, settled(ledger, amount, oracle_price, decimals, now)),
        settled(ledger, amount, oracle_price, decimals, now).user_position.margin_used <= 0,
{
    let price = effective_price(ledger.exchange.test_mode, oracle_price, now);
    lemma_booking_conserved(
        ledger,
        trade_booking(ledger.market, ledger.user_position, amount, price, decimals),
    );
}

/// The central invariant. Where the user's positions add up to the user's
/// account, the positions in the market to the market, and the markets to
/// the exchange, they still do once a trade is settled on one of the
/// positions, given that the position's margin was not booked as a positive
/// number.
pub proof fn lemma_trade_keeps_rollups(
    ledger: Ledger,
    amount: int,
    oracle_price: int,
    decimals: nat,
    now: int,
    of_user: Seq<UserPosition>,
    i: int,
    in_market: Seq<UserPosition>,
    j: int,
    markets: Seq<Market>,
    k: int,
)
    requires
        trade_defined(ledger, amount, oracle_price, decimals, now),
        ledger.user_position.margin_used <= 0,
        0 <= i < of_user.len(),
        of_user[i] == ledger.user_position,
        0 <= j < in_market.len(),
        in_market[j] == ledger.user_position,
        0 <= k < markets.len(),
        markets[k] == ledger.market,
        account_is_rollup(ledger.user_account, of_user),
        market_is_rollup(ledger.market, in_market),
        exchange_is_rollup(ledger.exchange, markets),
    ensures
        account_is_rollup(
            settled(ledger, amount, oracle_price, decimals, now).user_account,
            of_user.update(i, settled(ledger, amount, oracle_price, decimals, now).user_position),
        ),
        market_is_rollup(
            settled(ledger, amount, oracle_price, decimals, now).market,
            in_market.update(
                j,
                settled(ledger, amount, oracle_price, decimals, now).user_position,
            ),
        ),
        exchange_is_rollup(
            settled(ledger, amount, oracle_price, decimals, now).exchange,
            markets.update(k, settled(ledger, amount, oracle_price, decimals, now).market),
        ),
{
    let price = effective_price(ledger.exchange.test_mode, oracle_price, now);
    lemma_booking_keeps_rollups(
        ledger,
        trade_booking(ledger.market, ledger.user_position, amount, price, decimals),
        of_user,
        i,
        in_market,
        j,
        markets,
        k,
    );
}

/// A trade of nothing books no tokens, no basis, no profit and no fee. What
/// it does is to mark the margin of the position to the current price.
pub proof fn lemma_trade_of_nothing(
    market: Market,
    position: UserPosition,
    price: int,
    decimals: nat,
)
    ensures
        trade_booking(market, position, 0, price, decimals) == (Booking {
            tokens: 0,
            basis: 0,
            pnl: 0,
            fees: 0,
            rebates: 0,
            margin: abs(scaled(position.token_amount as int, price, decimals)),
        }),
{
    lemma_nothing_scaled(price, decimals);
}

/// Nothing, at any price, is worth nothing.
proof fn lemma_nothing_scaled(price: int, decimals: nat)
    ensures
        scaled(0, price, decimals) == 0,
{
    lemma_pow10_increases(0, decimals);
    let p = pow10(decimals);
    assert(0 * price == 0);
    assert(0int / p == 0) by (nonlinear_arith)
        requires
            p > 0,
    ;
}

/// A trade that does not run against the position realizes nothing: the
/// whole of it opens new exposure at the current price.
pub proof fn lemma_opening_trade_realizes_nothing(
    market: Market,
    position: UserPosition,
    amount: int,
    price: int,
    decimals: nat,
)
    requires
        position.token_amount == 0 || (position.token_amount > 0) == (amount > 0),
    ensures
        closed_amount(position.token_amount as int, amount) == 0,
        trade_booking(market, position, amount, price, decimals).pnl == 0,
        trade_booking(market, position, amount, price, decimals).basis == -scaled(
            abs(amount),
            price,
            decimals,
        ),
{
    lemma_nothing_scaled(price, decimals);
}

/// A trade that runs against the position and is no larger than it opens
/// nothing: the basis takes up the cost of the closed part at the average
/// entry price, which is no more than the whole cost of the position, and
/// the profit is that cost less the value of the closed part.
pub proof fn lemma_closing_trade_opens_nothing(
    market: Market,
    position: UserPosition,
    amount: int,
    price: int,
    decimals: nat,
)
    requires
        amount != 0,
        position.token_amount != 0,
        (position.token_amount > 0) != (amount > 0),
        abs(amount) <= abs(position.token_amount as int),
    ensures
        closed_amount(position.token_amount as int, amount) == abs(amount),
        0 <= trade_booking(market, position, amount, price, decimals).basis <= abs(
            position.basis as int,
        ),
        trade_booking(market, position, amount, price, decimals).pnl == trade_booking(
            market,
            position,
            amount,
            price,
            decimals,
        ).basis - scaled(abs(amount), price, decimals),
        abs(amount) == abs(position.token_amount as int) ==> trade_booking(
            market,
            position,
            amount,
            price,
            decimals,
        ).basis == abs(position.basis as int),
{
    lemma_nothing_scaled(price, decimals);
    let cost = abs(position.basis as int);
    let held = abs(position.token_amount as int);
    let closed = abs(amount);
    assert(0 <= cost * closed <= cost * held) by (nonlinear_arith)
        requires
            0 <= cost,
            0 <= closed <= held,
    ;
    lemma_trunc_div_monotonic(cost * closed, cost * held, held);
    lemma_trunc_div_bounds(cost * closed, held);
    vstd::arithmetic::div_mod::lemma_div_by_multiple(cost, held);
}

} // verus!
