//! The records of the ledger.

pub mod chainlink_state;
pub mod exchange_state;

pub use chainlink_state::{DataFeed, Decimal};
pub use exchange_state::{
    Exchange, ExchangeTreasuryPosition, Market, UserAccount, UserPosition, UserYieldPosition,
    YieldMarket,
};
