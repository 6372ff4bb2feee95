//! The margin that each scope has left, and the check that refuses an
//! operation which would leave a scope without margin.
//!
//! A scope's available margin is its hard balance, scaled by a leverage or a
//! weight, plus its margin in use. Margin in use is booked as a negative
//! number, so the sum is what is left.

use crate::errors::KrunchErrors;
use crate::fixed_point::{
    div_toward_zero, trunc_div, LEVERAGE_DECIMALS, MARKET_WEIGHT_DECIMALS,
};
use crate::state::{Exchange, Market, UserAccount};
use vstd::prelude::*;

verus! {

/// The exchange's capacity: its collateral times its leverage.
pub open spec fn exchange_total(exchange: Exchange) -> int {
    trunc_div(exchange.collateral_value * exchange.leverage, LEVERAGE_DECIMALS as int)
}

/// What the exchange has left: the weighted capacity plus the margin in use.
pub open spec fn exchange_available(exchange: Exchange) -> int {
    trunc_div(exchange_total(exchange) * exchange.market_weight, MARKET_WEIGHT_DECIMALS as int)
        + exchange.margin_used
}

/// What a market has left: its share of the exchange's capacity plus its
/// margin in use.
pub open spec fn market_available(exchange: Exchange, market: Market) -> int {
    trunc_div(exchange_total(exchange) * market.market_weight, MARKET_WEIGHT_DECIMALS as int)
        + market.margin_used
}

/// A user's hard balance: collateral and everything earned or paid.
pub open spec fn user_hard_amount(user_account: UserAccount) -> int {
    user_account.pnl + user_account.fees + user_account.rebates + user_account.rewards
        + user_account.collateral_value
}

/// What a user has left at a given leverage: the leveraged hard balance plus
/// the margin in use.
pub open spec fn user_available(user_account: UserAccount, leverage: int) -> int {
    trunc_div(user_hard_amount(user_account) * leverage, LEVERAGE_DECIMALS as int)
        + user_account.margin_used
}

/// The verdict on a trade: the exchange is looked at first, then the market,
/// then the user at the market's leverage. The first scope without margin
/// decides.
pub open spec fn trade_verdict(exchange: Exchange, market: Market, user_account: UserAccount)
    -> Result<(), KrunchErrors> {
    if exchange_available(exchange) < 0 {
        Err(KrunchErrors::ExchangeMarginInsufficient)
    } else if market_available(exchange, market) < 0 {
        Err(KrunchErrors::MarketMarginInsufficient)
    } else if user_available(user_account, market.leverage as int) < 0 {
        Err(KrunchErrors::UserMarginInsufficient)
    } else {
        Ok(())
    }
}

/// The verdict on a withdrawal: the exchange is looked at first, then the
/// user at the exchange's leverage.
pub open spec fn withdrawal_verdict(exchange: Exchange, user_account: UserAccount) -> Result<
    (),
    KrunchErrors,
> {
    if exchange_available(exchange) < 0 {
        Err(KrunchErrors::ExchangeMarginInsufficient)
    } else if user_available(user_account, exchange.leverage as int) < 0 {
        Err(KrunchErrors::UserMarginInsufficient)
    } else {
        Ok(())
    }
}

/// The exchange's capacity.
pub fn calculate_exchange_total(exchange: &Exchange) -> (total: i128)
    ensures
        total == exchange_total(*exchange),
        -0x8000_0000_0000_0000_0000_0000 <= total <= 0x8000_0000_0000_0000_0000_0000,
{
    let collateral: i128 = exchange.collateral_value as i128;
    let leverage: i128 = exchange.leverage as i128;
    assert(-0x8000_0000_0000_0000_0000_0000 <= collateral * leverage
        <= 0x8000_0000_0000_0000_0000_0000) by (nonlinear_arith)
        requires
            -0x8000_0000_0000_0000 <= collateral <= 0x8000_0000_0000_0000,
            0 <= leverage <= 0x1_0000_0000,
    ;
    let product: i128 = collateral * leverage;
    proof {
        crate::fixed_point::lemma_trunc_div_bounds(product as int, LEVERAGE_DECIMALS as int);
    }
    div_toward_zero(product, LEVERAGE_DECIMALS)
}

/// A share of the exchange's capacity: `total * weight / 10^4`.
fn weighted_share(total: i128, weight: u16) -> (share: i128)
    requires
        -0x8000_0000_0000_0000_0000_0000 <= total <= 0x8000_0000_0000_0000_0000_0000,
    ensures
        share == trunc_div(total * weight, MARKET_WEIGHT_DECIMALS as int),
        -0x1_0000_8000_0000_0000_0000_0000_0000 <= share <= 0x1_0000_8000_0000_0000_0000_0000_0000,
{
    let w: i128 = weight as i128;
    assert(-0x1_0000_8000_0000_0000_0000_0000_0000 <= total * w
        <= 0x1_0000_8000_0000_0000_0000_0000_0000) by (nonlinear_arith)
        requires
            -0x8000_0000_0000_0000_0000_0000 <= total <= 0x8000_0000_0000_0000_0000_0000,
            0 <= w <= 0x1_0000,
    ;
    let product: i128 = total * w;
    proof {
        crate::fixed_point::lemma_trunc_div_bounds(product as int, MARKET_WEIGHT_DECIMALS as int);
    }
    div_toward_zero(product, MARKET_WEIGHT_DECIMALS)
}

/// What the exchange has left.
pub fn calculate_exchange_balance_available(exchange: &Exchange) -> (available: i128)
    ensures
        available == exchange_available(*exchange),
{
    let total: i128 = calculate_exchange_total(exchange);
    weighted_share(total, exchange.market_weight) + exchange.margin_used as i128
}

/// What a market has left.
pub fn calculate_market_total(exchange: &Exchange, market: &Market) -> (available: i128)
    ensures
        available == market_available(*exchange, *market),
{
    let total: i128 = calculate_exchange_total(exchange);
    weighted_share(total, market.market_weight) + market.margin_used as i128
}

/// What a user has left at a given leverage.
pub fn calculate_user_total(user_account: &UserAccount, leverage: u32) -> (available: i128)
    ensures
        available == user_available(*user_account, leverage as int),
        -0x8_0000_0000_0000_0000_0000_0000 <= available <= 0x8_0000_0000_0000_0000_0000_0000,
{
    let hard: i128 = user_account.pnl as i128 + user_account.fees as i128
        + user_account.rebates as i128 + user_account.rewards as i128
        + user_account.collateral_value as i128;
    let lev: i128 = leverage as i128;
    assert(-0x4_0000_0000_0000_0000_0000_0000 <= hard * lev <= 0x4_0000_0000_0000_0000_0000_0000)
        by (nonlinear_arith)
        requires
            -0x4_0000_0000_0000_0000 <= hard <= 0x4_0000_0000_0000_0000,
            0 <= lev <= 0x1_0000_0000,
    ;
    let product: i128 = hard * lev;
    proof {
        crate::fixed_point::lemma_trunc_div_bounds(product as int, LEVERAGE_DECIMALS as int);
    }
    div_toward_zero(product, LEVERAGE_DECIMALS) + user_account.margin_used as i128
}

/// The check that a trade has to pass once it is booked: every scope must
/// have margin left.
pub fn solvency_gate(exchange: &Exchange, market: &Market, user_account: &UserAccount) -> (r:
    Result<(), KrunchErrors>)
    ensures
        r == trade_verdict(*exchange, *market, *user_account),
        r is Ok <==> exchange_available(*exchange) >= 0 && market_available(*exchange, *market)
            >= 0 && user_available(*user_account, market.leverage as int) >= 0,
{
    if calculate_exchange_balance_available(exchange) < 0 {
        return Err(KrunchErrors::ExchangeMarginInsufficient);
    }
    if calculate_market_total(exchange, market) < 0 {
        return Err(KrunchErrors::MarketMarginInsufficient);
    }
    if calculate_user_total(user_account, market.leverage) < 0 {
        return Err(KrunchErrors::UserMarginInsufficient);
    }
    Ok(())
}

/// The check that a withdrawal has to pass once it is booked.
pub fn withdrawal_gate(exchange: &Exchange, user_account: &UserAccount) -> (r: Result<
    (),
    KrunchErrors,
>)
    ensures
        r == withdrawal_verdict(*exchange, *user_account),
        r is Ok <==> exchange_available(*exchange) >= 0 && user_available(
            *user_account,
            exchange.leverage as int,
        ) >= 0,
{
    if calculate_exchange_balance_available(exchange) < 0 {
        return Err(KrunchErrors::ExchangeMarginInsufficient);
    }
    if calculate_user_total(user_account, exchange.leverage) < 0 {
        return Err(KrunchErrors::UserMarginInsufficient);
    }
    Ok(())
}

} // verus!
