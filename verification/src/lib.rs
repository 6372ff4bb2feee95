//! Accounting core of a leveraged multi-asset trading venue.
//!
//! The venue has no order book: every trade is made against the inventory of
//! a market, at the price that an oracle reports. This library keeps the
//! books. It turns a trade, a price and the records of four scopes (the
//! user's position, the user's account, the market, the exchange) into the
//! records after the trade, and decides whether the trade may stand.
//!
//! - [`fixed_point`]: scaled-integer arithmetic that rounds toward zero.
//! - [`price`]: the price that an operation settles at.
//! - [`fees`]: maker or taker, and the fee.
//! - [`rollup`]: booking one change at all four scopes.
//! - [`solvency`]: the margin that each scope has left, and the solvency check.
//! - [`trade`]: settling a trade.
//! - [`funding`]: funding between the long and short pool of a yield market.
//! - [`rewards`]: a user's share of what the exchange has earned.
//! - [`treasury`]: deposits and withdrawals of collateral.
//! - [`admin`]: setting up exchange, markets and user records.
//!
//! An operation that cannot be carried out within the limits of the machine
//! (a product that does not fit 128 bits, an amount that does not fit the 64
//! bits of its field, a division by nothing) is excluded by the `requires`
//! of the function that performs it. Every operation on the records has a
//! companion whose name begins with `try_`, which accepts every input and
//! returns `None`, with nothing changed, on those that are excluded; the
//! arithmetic and the price have companions that begin with `checked_`.
//!
//! An operation that is refused (a scope without margin, a pool that would
//! go negative, a claim during the cooldown) returns its error and leaves
//! every record as it found it.

pub mod admin;
pub mod errors;
pub mod fees;
pub mod fixed_point;
pub mod funding;
pub mod price;
pub mod rewards;
pub mod rollup;
pub mod solvency;
pub mod state;
pub mod trade;
pub mod treasury;

pub use admin::{
    add_market, add_user_position, create_user_account, initialize_exchange, update_exchange,
    update_market,
};
pub use errors::KrunchErrors;
pub use fixed_point::{get_ratio, scale_mul_div};
pub use funding::{add_yield, add_yield_market, try_update_yield, update_yield};
pub use price::{current_price, get_price};
pub use rewards::{
    claim_rewards, exchange_rewards_available, execute_claim, try_claim_rewards,
    try_execute_claim,
};
pub use rollup::Ledger;
pub use solvency::{
    calculate_exchange_balance_available, calculate_exchange_total, calculate_market_total,
    calculate_user_total, solvency_gate, withdrawal_gate,
};
pub use state::{
    DataFeed, Decimal, Exchange, ExchangeTreasuryPosition, Market, UserAccount, UserPosition,
    UserYieldPosition, YieldMarket,
};
pub use trade::{execute_trade, try_execute_trade};
pub use treasury::{
    add_exchange_position, deposit, try_deposit, try_withdraw, update_exchange_position, withdraw,
};
