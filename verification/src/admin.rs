//! Setting up the venue: the exchange, its markets, and the records of a
//! user.
//!
//! A record comes into being with every field zero. The functions of this
//! module give it its terms and leave the rest as they find it.

use crate::state::{Exchange, Market, UserAccount, UserPosition};
use anchor_lang::prelude::Pubkey;
use vstd::prelude::*;

verus! {

/// Sets up the exchange: the administrator, the terms, and empty books.
/// The time of the last reward claim is left as it was.
pub fn initialize_exchange(
    exchange: &mut Exchange,
    admin: Pubkey,
    leverage: u32,
    reward_frequency: u64,
    reward_rate: u64,
    test_mode: bool,
    market_weight: u16,
    chainlink_program: Pubkey,
)
    ensures
        *final(exchange) == (Exchange {
            admin,
            margin_used: 0,
            number_of_markets: 0,
            market_weight,
            basis: 0,
            pnl: 0,
            fees: 0,
            collateral_value: 0,
            leverage,
            rebates: 0,
            rewards: 0,
            last_rewards_claim: old(exchange).last_rewards_claim,
            reward_frequency,
            reward_rate,
            test_mode,
            chainlink_program,
        }),
{
    exchange.admin = admin;
    exchange.margin_used = 0;
    exchange.number_of_markets = 0;
    exchange.market_weight = market_weight;
    exchange.basis = 0;
    exchange.pnl = 0;
    exchange.fees = 0;
    exchange.rebates = 0;
    exchange.rewards = 0;
    exchange.leverage = leverage;
    exchange.collateral_value = 0;
    exchange.reward_frequency = reward_frequency;
    exchange.reward_rate = reward_rate;
    exchange.test_mode = test_mode;
    exchange.chainlink_program = chainlink_program;
}

/// Changes the terms of the exchange; the books stay as they are.
pub fn update_exchange(
    exchange: &mut Exchange,
    test_mode: bool,
    reward_frequency: u64,
    reward_rate: u64,
    leverage: u32,
    market_weight: u16,
)
    ensures
        *final(exchange) == (Exchange {
            test_mode,
            reward_frequency,
            reward_rate,
            leverage,
            market_weight,
            ..*old(exchange)
        }),
{
    exchange.test_mode = test_mode;
    exchange.reward_frequency = reward_frequency;
    exchange.reward_rate = reward_rate;
    exchange.leverage = leverage;
    exchange.market_weight = market_weight;
}

/// Opens a user's account: the owner is entered, the collateral is nothing.
pub fn create_user_account(user_account: &mut UserAccount, owner: Pubkey)
    ensures
        *final(user_account) == (UserAccount { owner, collateral_value: 0, ..*old(user_account) }),
{
    user_account.owner = owner;
    user_account.collateral_value = 0;
}

/// Opens a market: its index, its terms and its price feed are entered, its
/// inventory is nothing.
pub fn add_market(
    market: &mut Market,
    market_index: u16,
    taker_fee: i16,
    maker_fee: i16,
    leverage: u32,
    market_weight: u16,
    feed_address: Pubkey,
)
    ensures
        *final(market) == (Market {
            market_index,
            token_amount: 0,
            maker_fee,
            taker_fee,
            leverage,
            market_weight,
            feed_address,
            ..*old(market)
        }),
{
    market.market_index = market_index;
    market.token_amount = 0;
    market.maker_fee = maker_fee;
    market.taker_fee = taker_fee;
    market.leverage = leverage;
    market.market_weight = market_weight;
    market.feed_address = feed_address;
}

/// Changes the terms of a market; the books stay as they are.
pub fn update_market(
    market: &mut Market,
    maker_fee: i16,
    taker_fee: i16,
    leverage: u32,
    market_weight: u16,
)
    ensures
        *final(market) == (Market {
            taker_fee,
            maker_fee,
            leverage,
            market_weight,
            ..*old(market)
        }),
{
    market.taker_fee = taker_fee;
    market.maker_fee = maker_fee;
    market.leverage = leverage;
    market.market_weight = market_weight;
}

/// Opens a user's position in a market: the market is entered, the position
/// holds nothing.
pub fn add_user_position(user_position: &mut UserPosition, market_index: u16)
    ensures
        *final(user_position) == (UserPosition {
            market_index,
            token_amount: 0,
            ..*old(user_position)
        }),
{
    user_position.market_index = market_index;
    user_position.token_amount = 0;
}

} // verus!
