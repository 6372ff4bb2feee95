//! The records that the venue keeps: one exchange, its markets and treasury
//! positions, and each user's account and positions.
//!
//! Amounts are signed integers in units of `10^-9`. A user-side record
//! (account, position) and a venue-side record (market, exchange) book the
//! same trade with opposite signs: the venue is the counterparty of every
//! user.

use anchor_lang::prelude::Pubkey;
use vstd::prelude::*;

verus! {

/// `solana_program::pubkey::Pubkey`, as `anchor_lang` hands it on: an address
/// of the host chain, be it of an account, a program or an oracle feed. The
/// ledger stores addresses and hands them back; it never looks inside, and
/// nothing is claimed of what is inside.
#[verifier::external_type_specification]
#[verifier::external_body]
pub struct ExPubkey(Pubkey);

/// The venue as a whole: the aggregate of all its markets.
#[derive(Clone, Copy, Debug, PartialEq, Eq)]
pub struct Exchange {
    /// Who may administer the venue.
    pub admin: Pubkey,
    /// Sum of the margin deltas of all trades; never positive while every
    /// position's margin is booked through a trade.
    pub margin_used: i64,
    pub number_of_markets: u16,
    /// Share of the leveraged collateral that open exposure may use, in
    /// units of `10^-4`.
    pub market_weight: u16,
    pub basis: i64,
    pub pnl: i64,
    pub fees: i64,
    /// Value of all collateral deposited with the venue.
    pub collateral_value: i64,
    /// Leverage factor in units of `10^-4`.
    pub leverage: u32,
    pub rebates: i64,
    pub rewards: i64,
    /// Time of the last reward claim, in seconds.
    pub last_rewards_claim: i64,
    /// Seconds that have to pass between two reward claims of one user.
    pub reward_frequency: u64,
    /// Share of the exchange's earnings that is paid out as rewards, in
    /// units of `10^-9`.
    pub reward_rate: u64,
    /// Whether prices are perturbed by the clock for testing.
    pub test_mode: bool,
    /// The oracle program that price feeds have to belong to.
    pub chainlink_program: Pubkey,
}

/// A token that the venue's treasury accepts as collateral.
#[derive(Clone, Copy, Debug, PartialEq, Eq)]
pub struct ExchangeTreasuryPosition {
    pub token_mint: Pubkey,
    pub active: bool,
    pub treasury_weight: u16,
    /// Decimal places of the token.
    pub decimals: u8,
    /// The oracle feed that prices the token.
    pub feed_address: Pubkey,
}

/// One tradable instrument.
#[derive(Clone, Copy, Debug, PartialEq, Eq)]
pub struct Market {
    pub market_index: u16,
    /// Share of the exchange's leveraged collateral that this market may
    /// use, in units of `10^-4`.
    pub market_weight: u16,
    /// The market's inventory: the negated sum of its users' positions.
    pub token_amount: i64,
    pub basis: i64,
    pub pnl: i64,
    pub fees: i64,
    /// Fee rate of a trade that adds to the market's exposure, in units of
    /// `10^-4`; negative for a rebate.
    pub taker_fee: i16,
    /// Fee rate of a trade that reduces the market's exposure.
    pub maker_fee: i16,
    /// Leverage factor for the users of this market, in units of `10^-4`.
    pub leverage: u32,
    pub margin_used: i64,
    /// The oracle feed that prices the instrument.
    pub feed_address: Pubkey,
    pub rebates: i64,
}

/// One trader: the aggregate of the trader's positions in all markets.
#[derive(Clone, Copy, Debug, PartialEq, Eq)]
pub struct UserAccount {
    pub owner: Pubkey,
    pub collateral_value: i64,
    pub margin_used: i64,
    pub basis: i64,
    pub pnl: i64,
    pub fees: i64,
    pub rebates: i64,
    pub rewards: i64,
    /// Time of the user's last reward claim, in seconds.
    pub last_rewards_claim: i64,
}

/// One trader's position in one market.
#[derive(Clone, Copy, Debug, PartialEq, Eq)]
pub struct UserPosition {
    pub owner: Pubkey,
    pub market_index: u16,
    /// Positive for a long position, negative for a short one.
    pub token_amount: i64,
    /// Cost of the open position; negative for a long position.
    pub basis: i64,
    pub pnl: i64,
    pub fees: i64,
    /// The negated value of the position at the price of its last trade.
    pub margin_used: i64,
    pub rebates: i64,
}

/// The long and the short pool of one yield market.
#[derive(Clone, Copy, Debug, PartialEq, Eq)]
pub struct YieldMarket {
    pub market_index: u16,
    pub long_token_amount: i64,
    pub short_token_amount: i64,
    pub long_basis: i64,
    pub short_basis: i64,
    pub long_funding: i64,
    pub short_funding: i64,
    pub short_fees: i64,
    pub long_fees: i64,
    /// Time of the last funding update, in seconds.
    pub last_claim_date: i64,
    /// The oracle feed that prices the instrument.
    pub chainlink_feed: Pubkey,
}

/// One user's share of the pools of one yield market.
#[derive(Clone, Copy, Debug, PartialEq, Eq)]
pub struct UserYieldPosition {
    pub owner: Pubkey,
    pub market_index: u16,
    pub long_token_amount: i64,
    pub short_token_amount: i64,
    pub long_basis: i64,
    pub short_basis: i64,
    pub long_funding: i64,
    pub short_funding: i64,
    pub short_fees: i64,
    pub long_fees: i64,
    /// Time of the user's last funding update, in seconds.
    pub last_claim_date: i64,
}

} // verus!
