//! The errors that a ledger operation reports.

use vstd::prelude::*;
use vstd::string::StringExecFns;

verus! {

/// Why an operation was refused. A refused operation leaves every record as
/// it found it.
#[derive(Clone, Copy, Debug, PartialEq, Eq, Structural, Hash)]
pub enum KrunchErrors {
    /// The user's leveraged balance does not cover the user's margin.
    UserMarginInsufficient,
    /// The market's share of the exchange's capacity does not cover the
    /// market's margin.
    MarketMarginInsufficient,
    /// The market's margin limit is exceeded.
    MaxMarketMarginExceeded,
    /// The exchange's capacity does not cover the exchange's margin.
    ExchangeMarginInsufficient,
    /// The exchange's value is insufficient.
    ExchangeValueInsufficient,
    /// The user account's value is insufficient.
    UserAccountValueInsufficient,
    /// The reward cooldown has not elapsed since the last claim.
    RewardsClaimUnavailable,
    /// The computed reward share is negative.
    NoRewardsAvailable,
    /// A yield update would leave a long or short pool negative.
    YieldAmountInsufficient,
}

impl KrunchErrors {
    /// The text of the message that goes with the error.
    pub open spec fn message_text(self) -> Seq<char> {
        match self {
            KrunchErrors::UserMarginInsufficient => "User margin is insufficient"@,
            KrunchErrors::MarketMarginInsufficient => "Market margin is insufficient"@,
            KrunchErrors::MaxMarketMarginExceeded => "Market margin is Exceeded"@,
            KrunchErrors::ExchangeMarginInsufficient => "Exchange margin is insufficient"@,
            KrunchErrors::ExchangeValueInsufficient => "Exchange value is insufficient"@,
            KrunchErrors::UserAccountValueInsufficient => "User Account value is insufficient"@,
            KrunchErrors::RewardsClaimUnavailable => "Rewards Claim Unavailable"@,
            KrunchErrors::NoRewardsAvailable => "No Rewards Available"@,
            KrunchErrors::YieldAmountInsufficient => "Yield Amount Insufficient"@,
        }
    }

    /// The message that goes with the error.
    pub fn message(&self) -> (s: String)
        ensures
            s@ == self.message_text(),
    {
        match self {
            KrunchErrors::UserMarginInsufficient => String::from_str("User margin is insufficient"),
            KrunchErrors::MarketMarginInsufficient => String::from_str(
                "Market margin is insufficient",
            ),
            KrunchErrors::MaxMarketMarginExceeded => String::from_str("Market margin is Exceeded"),
            KrunchErrors::ExchangeMarginInsufficient => String::from_str(
                "Exchange margin is insufficient",
            ),
            KrunchErrors::ExchangeValueInsufficient => String::from_str(
                "Exchange value is insufficient",
            ),
            KrunchErrors::UserAccountValueInsufficient => String::from_str(
                "User Account value is insufficient",
            ),
            KrunchErrors::RewardsClaimUnavailable => String::from_str("Rewards Claim Unavailable"),
            KrunchErrors::NoRewardsAvailable => String::from_str("No Rewards Available"),
            KrunchErrors::YieldAmountInsufficient => String::from_str("Yield Amount Insufficient"),
        }
    }
}

} // verus!
