//! Booking one change at all four scopes at once.
//!
//! Whatever changes a position changes the account that owns it, the market
//! it is in and the exchange. The user-side scopes (position, account) take
//! the change as it is; the venue-side scopes (market, exchange) take its
//! mirror image, since the venue is the counterparty. Margin is the
//! exception: the position is set to its new margin, and the difference to
//! its old margin is added, with the same sign, to account, market and
//! exchange.
//!
//! The one routine of this module is the only place where what a trade
//! changes is spread over the scopes, so that no scope can be missed and no
//! sign can drift.

use crate::fixed_point::{abs, checked_credit, fits_i64, magnitude, wide};
use crate::state::{Exchange, Market, UserAccount, UserPosition};
use vstd::prelude::*;

verus! {

/// The four records that one trade touches.
#[derive(Clone, Copy, Debug, PartialEq, Eq)]
pub struct Ledger {
    pub exchange: Exchange,
    pub market: Market,
    pub user_account: UserAccount,
    pub user_position: UserPosition,
}

/// One change, as the user sees it: what is added to the position's tokens,
/// basis, profit, fees and rebates, and the margin that the position needs
/// from now on.
pub struct Booking {
    pub tokens: int,
    pub basis: int,
    pub pnl: int,
    pub fees: int,
    pub rebates: int,
    pub margin: int,
}

/// [`Booking`] in machine integers.
pub struct BookingAmounts {
    pub tokens: i128,
    pub basis: i128,
    pub pnl: i128,
    pub fees: i128,
    pub rebates: i128,
    pub margin: i128,
}

impl View for BookingAmounts {
    type V = Booking;

    open spec fn view(&self) -> Booking {
        Booking {
            tokens: self.tokens as int,
            basis: self.basis as int,
            pnl: self.pnl as int,
            fees: self.fees as int,
            rebates: self.rebates as int,
            margin: self.margin as int,
        }
    }
}

impl BookingAmounts {
    /// Every amount can be negated in 128 bits, and the margin is a
    /// magnitude.
    pub open spec fn well_formed(&self) -> bool {
        &&& 0 <= self.margin
        &&& wide(self.tokens as int)
        &&& wide(self.basis as int)
        &&& wide(self.pnl as int)
        &&& wide(self.fees as int)
        &&& wide(self.rebates as int)
        &&& wide(self.margin as int)
    }
}

/// What a position that goes over to a margin of `margin` releases: the
/// magnitude of its old margin less the new one. Negative where the position
/// needs more margin than before.
pub open spec fn margin_released(position: UserPosition, margin: int) -> int {
    abs(position.margin_used as int) - margin
}

/// The position after a booking: the change is added, the margin is set.
pub open spec fn position_booked(position: UserPosition, booking: Booking) -> UserPosition {
    UserPosition {
        token_amount: (position.token_amount + booking.tokens) as i64,
        basis: (position.basis + booking.basis) as i64,
        pnl: (position.pnl + booking.pnl) as i64,
        fees: (position.fees + booking.fees) as i64,
        rebates: (position.rebates + booking.rebates) as i64,
        margin_used: (-booking.margin) as i64,
        ..position
    }
}

/// The account after a booking: the change and the released margin are
/// added.
pub open spec fn account_booked(account: UserAccount, booking: Booking, released: int)
    -> UserAccount {
    UserAccount {
        basis: (account.basis + booking.basis) as i64,
        pnl: (account.pnl + booking.pnl) as i64,
        fees: (account.fees + booking.fees) as i64,
        rebates: (account.rebates + booking.rebates) as i64,
        margin_used: (account.margin_used + released) as i64,
        ..account
    }
}

/// The market after a booking: the mirror image of the change is added, and
/// the released margin as it is.
pub open spec fn market_booked(market: Market, booking: Booking, released: int) -> Market {
    Market {
        token_amount: (market.token_amount - booking.tokens) as i64,
        basis: (market.basis - booking.basis) as i64,
        pnl: (market.pnl - booking.pnl) as i64,
        fees: (market.fees - booking.fees) as i64,
        rebates: (market.rebates - booking.rebates) as i64,
        margin_used: (market.margin_used + released) as i64,
        ..market
    }
}

/// The exchange after a booking: as the market, without an inventory.
pub open spec fn exchange_booked(exchange: Exchange, booking: Booking, released: int)
    -> Exchange {
    Exchange {
        basis: (exchange.basis - booking.basis) as i64,
        pnl: (exchange.pnl - booking.pnl) as i64,
        fees: (exchange.fees - booking.fees) as i64,
        rebates: (exchange.rebates - booking.rebates) as i64,
        margin_used: (exchange.margin_used + released) as i64,
        ..exchange
    }
}

/// The four records after a booking.
pub open spec fn booked(ledger: Ledger, booking: Booking) -> Ledger {
    let released = margin_released(ledger.user_position, booking.margin);
    Ledger {
        exchange: exchange_booked(ledger.exchange, booking, released),
        market: market_booked(ledger.market, booking, released),
        user_account: account_booked(ledger.user_account, booking, released),
        user_position: position_booked(ledger.user_position, booking),
    }
}

/// Whether every amount that a booking writes fits the 64 bits of its field.
pub open spec fn booking_fits(ledger: Ledger, booking: Booking) -> bool {
    let released = margin_released(ledger.user_position, booking.margin);
    let p = ledger.user_position;
    let a = ledger.user_account;
    let m = ledger.market;
    let e = ledger.exchange;
    &&& fits_i64(p.token_amount + booking.tokens)
    &&& fits_i64(p.basis + booking.basis)
    &&& fits_i64(p.pnl + booking.pnl)
    &&& fits_i64(p.fees + booking.fees)
    &&& fits_i64(p.rebates + booking.rebates)
    &&& fits_i64(-booking.margin)
    &&& fits_i64(a.basis + booking.basis)
    &&& fits_i64(a.pnl + booking.pnl)
    &&& fits_i64(a.fees + booking.fees)
    &&& fits_i64(a.rebates + booking.rebates)
    &&& fits_i64(a.margin_used + released)
    &&& fits_i64(m.token_amount - booking.tokens)
    &&& fits_i64(m.basis - booking.basis)
    &&& fits_i64(m.pnl - booking.pnl)
    &&& fits_i64(m.fees - booking.fees)
    &&& fits_i64(m.rebates - booking.rebates)
    &&& fits_i64(m.margin_used + released)
    &&& fits_i64(e.basis - booking.basis)
    &&& fits_i64(e.pnl - booking.pnl)
    &&& fits_i64(e.fees - booking.fees)
    &&& fits_i64(e.rebates - booking.rebates)
    &&& fits_i64(e.margin_used + released)
}

/// What the change of one scope is to the change of the position beneath
/// it. Between `before` and `after`, the account has changed as the
/// position has, market and exchange have changed by the mirror image, and
/// all three have taken up the margin that the position released.
pub open spec fn conserved(before: Ledger, after: Ledger) -> bool {
    let tokens = after.user_position.token_amount - before.user_position.token_amount;
    let basis = after.user_position.basis - before.user_position.basis;
    let pnl = after.user_position.pnl - before.user_position.pnl;
    let fees = after.user_position.fees - before.user_position.fees;
    let rebates = after.user_position.rebates - before.user_position.rebates;
    let released = abs(before.user_position.margin_used as int) - abs(
        after.user_position.margin_used as int,
    );
    &&& after.user_account.basis - before.user_account.basis == basis
    &&& after.user_account.pnl - before.user_account.pnl == pnl
    &&& after.user_account.fees - before.user_account.fees == fees
    &&& after.user_account.rebates - before.user_account.rebates == rebates
    &&& after.user_account.margin_used - before.user_account.margin_used == released
    &&& after.market.token_amount - before.market.token_amount == -tokens
    &&& after.market.basis - before.market.basis == -basis
    &&& after.market.pnl - before.market.pnl == -pnl
    &&& after.market.fees - before.market.fees == -fees
    &&& after.market.rebates - before.market.rebates == -rebates
    &&& after.market.margin_used - before.market.margin_used == released
    &&& after.exchange.basis - before.exchange.basis == -basis
    &&& after.exchange.pnl - before.exchange.pnl == -pnl
    &&& after.exchange.fees - before.exchange.fees == -fees
    &&& after.exchange.rebates - before.exchange.rebates == -rebates
    &&& after.exchange.margin_used - before.exchange.margin_used == released
}

/// Whether two ledgers differ in nothing but the amounts that a booking
/// writes: owners, indices, parameters, collateral, rewards and time stamps
/// are the same.
pub open spec fn same_frame(before: Ledger, after: Ledger) -> bool {
    &&& after.user_position == (UserPosition {
        token_amount: after.user_position.token_amount,
        basis: after.user_position.basis,
        pnl: after.user_position.pnl,
        fees: after.user_position.fees,
        rebates: after.user_position.rebates,
        margin_used: after.user_position.margin_used,
        ..before.user_position
    })
    &&& after.user_account == (UserAccount {
        basis: after.user_account.basis,
        pnl: after.user_account.pnl,
        fees: after.user_account.fees,
        rebates: after.user_account.rebates,
        margin_used: after.user_account.margin_used,
        ..before.user_account
    })
    &&& after.market == (Market {
        token_amount: after.market.token_amount,
        basis: after.market.basis,
        pnl: after.market.pnl,
        fees: after.market.fees,
        rebates: after.market.rebates,
        margin_used: after.market.margin_used,
        ..before.market
    })
    &&& after.exchange == (Exchange {
        basis: after.exchange.basis,
        pnl: after.exchange.pnl,
        fees: after.exchange.fees,
        rebates: after.exchange.rebates,
        margin_used: after.exchange.margin_used,
        ..before.exchange
    })
}

/// Rollup conservation. A booking that fits changes the account by what it
/// changes the position, market and exchange by the mirror image, and adds
/// the margin that the position releases to all three; it touches nothing
/// else.
pub proof fn lemma_booking_conserved(ledger: Ledger, booking: Booking)
    requires
        booking_fits(ledger, booking),
        booking.margin >= 0,
    ensures
        conserved(ledger, booked(ledger, booking)),
        same_frame(ledger, booked(ledger, booking)),
        booked(ledger, booking).user_position.margin_used <= 0,
{
}

/// Conservation carries over a sequence of bookings: what two bookings in a
/// row change at one scope is what they change at the position, or its
/// mirror image.
pub proof fn lemma_conserved_composes(first: Ledger, second: Ledger, third: Ledger)
    requires
        conserved(first, second),
        conserved(second, third),
    ensures
        conserved(first, third),
{
}

/// What a number of records add up to.
pub struct Totals {
    pub tokens: int,
    pub basis: int,
    pub pnl: int,
    pub fees: int,
    pub rebates: int,
    pub margin_used: int,
}

impl Totals {
    pub open spec fn zero() -> Totals {
        Totals { tokens: 0, basis: 0, pnl: 0, fees: 0, rebates: 0, margin_used: 0 }
    }

    pub open spec fn plus(self, other: Totals) -> Totals {
        Totals {
            tokens: self.tokens + other.tokens,
            basis: self.basis + other.basis,
            pnl: self.pnl + other.pnl,
            fees: self.fees + other.fees,
            rebates: self.rebates + other.rebates,
            margin_used: self.margin_used + other.margin_used,
        }
    }

    pub open spec fn minus(self, other: Totals) -> Totals {
        Totals {
            tokens: self.tokens - other.tokens,
            basis: self.basis - other.basis,
            pnl: self.pnl - other.pnl,
            fees: self.fees - other.fees,
            rebates: self.rebates - other.rebates,
            margin_used: self.margin_used - other.margin_used,
        }
    }
}

/// The sum of a sequence of entries.
pub open spec fn total(entries: Seq<Totals>) -> Totals
    decreases entries.len(),
{
    if entries.len() == 0 {
        Totals::zero()
    } else {
        total(entries.drop_last()).plus(entries.last())
    }
}

/// What a position adds to the books of its account and of its market.
pub open spec fn position_entry(position: UserPosition) -> Totals {
    Totals {
        tokens: position.token_amount as int,
        basis: position.basis as int,
        pnl: position.pnl as int,
        fees: position.fees as int,
        rebates: position.rebates as int,
        margin_used: position.margin_used as int,
    }
}

/// What a market adds to the books of the exchange.
pub open spec fn market_entry(market: Market) -> Totals {
    Totals {
        tokens: market.token_amount as int,
        basis: market.basis as int,
        pnl: market.pnl as int,
        fees: market.fees as int,
        rebates: market.rebates as int,
        margin_used: market.margin_used as int,
    }
}

/// The positions of one user add up to the user's account.
pub open spec fn account_is_rollup(account: UserAccount, positions: Seq<UserPosition>) -> bool {
    let sum = total(positions.map_values(|p: UserPosition| position_entry(p)));
    &&& account.basis == sum.basis
    &&& account.pnl == sum.pnl
    &&& account.fees == sum.fees
    &&& account.rebates == sum.rebates
    &&& account.margin_used == sum.margin_used
}

/// The positions in one market add up to the mirror image of the market,
/// and their margin to the market's margin.
pub open spec fn market_is_rollup(market: Market, positions: Seq<UserPosition>) -> bool {
    let sum = total(positions.map_values(|p: UserPosition| position_entry(p)));
    &&& market.token_amount == -sum.tokens
    &&& market.basis == -sum.basis
    &&& market.pnl == -sum.pnl
    &&& market.fees == -sum.fees
    &&& market.rebates == -sum.rebates
    &&& market.margin_used == sum.margin_used
}

/// The markets add up to the exchange.
pub open spec fn exchange_is_rollup(exchange: Exchange, markets: Seq<Market>) -> bool {
    let sum = total(markets.map_values(|m: Market| market_entry(m)));
    &&& exchange.basis == sum.basis
    &&& exchange.pnl == sum.pnl
    &&& exchange.fees == sum.fees
    &&& exchange.rebates == sum.rebates
    &&& exchange.margin_used == sum.margin_used
}

/// Replacing one entry changes the sum by the difference of the two.
pub proof fn lemma_total_update(entries: Seq<Totals>, i: int, entry: Totals)
    requires
        0 <= i < entries.len(),
    ensures
        total(entries.update(i, entry)) == total(entries).minus(entries[i]).plus(entry),
    decreases entries.len(),
{
    let updated = entries.update(i, entry);
    if i == entries.len() - 1 {
        assert(updated.drop_last() =~= entries.drop_last());
    } else {
        lemma_total_update(entries.drop_last(), i, entry);
        assert(updated.drop_last() =~= entries.drop_last().update(i, entry));
    }
}

/// The central invariant. Where the positions of the user add up to the
/// user's account, the positions in the market to the market, and the
/// markets to the exchange, they still do after a booking on one of the
/// positions, given that no position's margin is booked as a positive
/// number.
pub proof fn lemma_booking_keeps_rollups(
    ledger: Ledger,
    booking: Booking,
    of_user: Seq<UserPosition>,
    i: int,
    in_market: Seq<UserPosition>,
    j: int,
    markets: Seq<Market>,
    k: int,
)
    requires
        booking_fits(ledger, booking),
        booking.margin >= 0,
        ledger.user_position.margin_used <= 0,
        0 <= i < of_user.len(),
        of_user[i] == ledger.user_position,
        0 <= j < in_market.len(),
        in_market[j] == ledger.user_position,
        0 <= k < markets.len(),
        markets[k] == ledger.market,
        account_is_rollup(ledger.user_account, of_user),
        market_is_rollup(ledger.market, in_market),
        exchange_is_rollup(ledger.exchange, markets),
    ensures
        account_is_rollup(
            booked(ledger, booking).user_account,
            of_user.update(i, booked(ledger, booking).user_position),
        ),
        market_is_rollup(
            booked(ledger, booking).market,
            in_market.update(j, booked(ledger, booking).user_position),
        ),
        exchange_is_rollup(
            booked(ledger, booking).exchange,
            markets.update(k, booked(ledger, booking).market),
        ),
{
    let after = booked(ledger, booking);
    let entry = |p: UserPosition| position_entry(p);
    let venue = |m: Market| market_entry(m);
    lemma_total_update(of_user.map_values(entry), i, position_entry(after.user_position));
    assert(of_user.update(i, after.user_position).map_values(entry) =~= of_user.map_values(
        entry,
    ).update(i, position_entry(after.user_position)));
    lemma_total_update(in_market.map_values(entry), j, position_entry(after.user_position));
    assert(in_market.update(j, after.user_position).map_values(entry) =~= in_market.map_values(
        entry,
    ).update(j, position_entry(after.user_position)));
    lemma_total_update(markets.map_values(venue), k, market_entry(after.market));
    assert(markets.update(k, after.market).map_values(venue) =~= markets.map_values(venue).update(
        k,
        market_entry(after.market),
    ));
}

/// Books `booking` on the four records, where every amount fits its field.
pub(crate) fn checked_book(ledger: &Ledger, booking: &BookingAmounts) -> (r: Option<Ledger>)
    requires
        booking.well_formed(),
    ensures
        r is Some <==> booking_fits(*ledger, booking@),
        r matches Some(after) ==> after == booked(*ledger, booking@),
{
    let p = &ledger.user_position;
    let a = &ledger.user_account;
    let m = &ledger.market;
    let e = &ledger.exchange;
    let released: i128 = magnitude(p.margin_used as i128) - booking.margin;
    let user_position = UserPosition {
        owner: p.owner,
        market_index: p.market_index,
        token_amount: checked_credit(p.token_amount, booking.tokens)?,
        basis: checked_credit(p.basis, booking.basis)?,
        pnl: checked_credit(p.pnl, booking.pnl)?,
        fees: checked_credit(p.fees, booking.fees)?,
        margin_used: checked_credit(0, -booking.margin)?,
        rebates: checked_credit(p.rebates, booking.rebates)?,
    };
    let user_account = UserAccount {
        owner: a.owner,
        collateral_value: a.collateral_value,
        margin_used: checked_credit(a.margin_used, released)?,
        basis: checked_credit(a.basis, booking.basis)?,
        pnl: checked_credit(a.pnl, booking.pnl)?,
        fees: checked_credit(a.fees, booking.fees)?,
        rebates: checked_credit(a.rebates, booking.rebates)?,
        rewards: a.rewards,
        last_rewards_claim: a.last_rewards_claim,
    };
    let market = Market {
        market_index: m.market_index,
        market_weight: m.market_weight,
        token_amount: checked_credit(m.token_amount, -booking.tokens)?,
        basis: checked_credit(m.basis, -booking.basis)?,
        pnl: checked_credit(m.pnl, -booking.pnl)?,
        fees: checked_credit(m.fees, -booking.fees)?,
        taker_fee: m.taker_fee,
        maker_fee: m.maker_fee,
        leverage: m.leverage,
        margin_used: checked_credit(m.margin_used, released)?,
        feed_address: m.feed_address,
        rebates: checked_credit(m.rebates, -booking.rebates)?,
    };
    let exchange = Exchange {
        admin: e.admin,
        margin_used: checked_credit(e.margin_used, released)?,
        number_of_markets: e.number_of_markets,
        market_weight: e.market_weight,
        basis: checked_credit(e.basis, -booking.basis)?,
        pnl: checked_credit(e.pnl, -booking.pnl)?,
        fees: checked_credit(e.fees, -booking.fees)?,
        collateral_value: e.collateral_value,
        leverage: e.leverage,
        rebates: checked_credit(e.rebates, -booking.rebates)?,
        rewards: e.rewards,
        last_rewards_claim: e.last_rewards_claim,
        reward_frequency: e.reward_frequency,
        reward_rate: e.reward_rate,
        test_mode: e.test_mode,
        chainlink_program: e.chainlink_program,
    };
    Some(Ledger { exchange, market, user_account, user_position })
}

} // verus!
