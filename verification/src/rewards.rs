//! Rewards: a user's share of what the exchange has earned.
//!
//! A part of the exchange's earnings, fixed by the reward rate, is open to
//! distribution. A user may claim the part of it that the user's leveraged
//! balance is of the exchange's capacity, but no more often than the reward
//! frequency allows. A claim during the cooldown is refused, or, for a caller
//! that only probes, answered with nothing.

use crate::errors::KrunchErrors;
use crate::fixed_point::{
    checked_credit, checked_product, div_toward_zero, fits_i64, trunc_div, wide, AMOUNT_DECIMALS,
};
use crate::solvency::{
    calculate_exchange_total, calculate_user_total, exchange_total, user_available,
};
use crate::state::{Exchange, UserAccount};
use vstd::prelude::*;

verus! {

/// Whether the user's last claim is less than the reward frequency ago.
pub open spec fn cooldown_active(user_account: UserAccount, exchange: Exchange, now: int) -> bool {
    user_account.last_rewards_claim + exchange.reward_frequency > now
}

/// What the exchange has earned: profit, rewards, fees and rebates.
pub open spec fn exchange_earnings(exchange: Exchange) -> int {
    exchange.pnl + exchange.rewards + exchange.fees + exchange.rebates
}

/// The part of the exchange's earnings that is open to distribution:
/// `earnings * reward_rate / 10^9`, and nothing of negative earnings.
pub open spec fn reward_pool(exchange: Exchange) -> int {
    if exchange_earnings(exchange) < 0 {
        0
    } else {
        trunc_div(exchange_earnings(exchange) * exchange.reward_rate, AMOUNT_DECIMALS as int)
    }
}

/// What a user's share is measured by: the margin that the user has left at
/// the exchange's leverage, less the rewards already received.
pub open spec fn user_stake(user_account: UserAccount, exchange: Exchange) -> int {
    user_available(user_account, exchange.leverage as int) - user_account.rewards
}

/// The user's share of the reward pool: `pool * stake / capacity`, rounded
/// toward zero. Meaningful for an exchange with a capacity other than zero.
pub open spec fn reward_share(user_account: UserAccount, exchange: Exchange) -> int {
    trunc_div(
        reward_pool(exchange) * user_stake(user_account, exchange),
        exchange_total(exchange),
    )
}

/// The inputs on which a claim can be carried out: either the cooldown
/// decides, or the exchange has a capacity to divide by, the products fit
/// 128 bits, and a share that is paid fits the rewards of both records.
pub open spec fn claim_defined(user_account: UserAccount, exchange: Exchange, now: int) -> bool {
    cooldown_active(user_account, exchange, now) || {
        let share = reward_share(user_account, exchange);
        &&& exchange_earnings(exchange) >= 0 ==> wide(
            exchange_earnings(exchange) * exchange.reward_rate,
        )
        &&& exchange_total(exchange) != 0
        &&& wide(reward_pool(exchange) * user_stake(user_account, exchange))
        &&& share >= 0 ==> fits_i64(exchange.rewards - share) && fits_i64(
            user_account.rewards + share,
        )
    }
}

/// Whether a claim pays: the cooldown has passed and the share is not
/// negative.
pub open spec fn claim_pays(user_account: UserAccount, exchange: Exchange, now: int) -> bool {
    !cooldown_active(user_account, exchange, now) && reward_share(user_account, exchange) >= 0
}

/// What a claim returns: the share that is paid; or, where nothing is paid,
/// the reason for a caller that asks for it and zero for a caller that only
/// probes.
pub open spec fn claim_result(
    user_account: UserAccount,
    exchange: Exchange,
    now: int,
    throw_error: bool,
) -> Result<i128, KrunchErrors> {
    if cooldown_active(user_account, exchange, now) {
        if throw_error {
            Err(KrunchErrors::RewardsClaimUnavailable)
        } else {
            Ok(0i128)
        }
    } else if reward_share(user_account, exchange) < 0 {
        if throw_error {
            Err(KrunchErrors::NoRewardsAvailable)
        } else {
            Ok(0i128)
        }
    } else {
        Ok(reward_share(user_account, exchange) as i128)
    }
}

/// The user's account after a claim: credited and stamped if the claim
/// pays, as it was if not.
pub open spec fn account_after_claim(user_account: UserAccount, exchange: Exchange, now: i64)
    -> UserAccount {
    if claim_pays(user_account, exchange, now as int) {
        UserAccount {
            rewards: (user_account.rewards + reward_share(user_account, exchange)) as i64,
            last_rewards_claim: now,
            ..user_account
        }
    } else {
        user_account
    }
}

/// The exchange after a claim: debited and stamped if the claim pays, as it
/// was if not.
pub open spec fn exchange_after_claim(user_account: UserAccount, exchange: Exchange, now: i64)
    -> Exchange {
    if claim_pays(user_account, exchange, now as int) {
        Exchange {
            rewards: (exchange.rewards - reward_share(user_account, exchange)) as i64,
            last_rewards_claim: now,
            ..exchange
        }
    } else {
        exchange
    }
}

/// The part of the exchange's earnings that is open to distribution, where
/// 128 bits hold the product.
pub fn exchange_rewards_available(exchange: &Exchange) -> (r: Option<i128>)
    ensures
        r is Some <==> (exchange_earnings(*exchange) >= 0 ==> wide(
            exchange_earnings(*exchange) * exchange.reward_rate,
        )),
        r matches Some(pool) ==> pool == reward_pool(*exchange) && wide(pool as int),
{
    let earnings: i128 = exchange.pnl as i128 + exchange.rewards as i128 + exchange.fees as i128
        + exchange.rebates as i128;
    if earnings < 0 {
        Some(0)
    } else {
        let product: i128 = checked_product(earnings, exchange.reward_rate as i128)?;
        Some(div_toward_zero(product, AMOUNT_DECIMALS))
    }
}

/// The records after a claim and what the claim returns, where the claim can
/// be carried out.
fn checked_claim(user_account: &UserAccount, exchange: &Exchange, now: i64, throw_error: bool)
    -> (r: Option<(Result<i128, KrunchErrors>, UserAccount, Exchange)>)
    ensures
        r is Some <==> claim_defined(*user_account, *exchange, now as int),
        r matches Some(done) ==> {
            &&& done.0 == claim_result(*user_account, *exchange, now as int, throw_error)
            &&& done.1 == account_after_claim(*user_account, *exchange, now)
            &&& done.2 == exchange_after_claim(*user_account, *exchange, now)
        },
{
    if user_account.last_rewards_claim as i128 + exchange.reward_frequency as i128 > now as i128 {
        if throw_error {
            return Some((Err(KrunchErrors::RewardsClaimUnavailable), *user_account, *exchange));
        } else {
            return Some((Ok(0), *user_account, *exchange));
        }
    }
    let stake: i128 = calculate_user_total(user_account, exchange.leverage)
        - user_account.rewards as i128;
    let capacity: i128 = calculate_exchange_total(exchange);
    let pool: i128 = exchange_rewards_available(exchange)?;
    if capacity == 0 {
        return None;
    }
    let product: i128 = checked_product(pool, stake)?;
    let share: i128 = div_toward_zero(product, capacity);
    if share < 0 {
        if throw_error {
            return Some((Err(KrunchErrors::NoRewardsAvailable), *user_account, *exchange));
        } else {
            return Some((Ok(0), *user_account, *exchange));
        }
    }
    let exchange_rewards: i64 = checked_credit(exchange.rewards, -share)?;
    let user_rewards: i64 = checked_credit(user_account.rewards, share)?;
    let user_after = UserAccount {
        owner: user_account.owner,
        collateral_value: user_account.collateral_value,
        margin_used: user_account.margin_used,
        basis: user_account.basis,
        pnl: user_account.pnl,
        fees: user_account.fees,
        rebates: user_account.rebates,
        rewards: user_rewards,
        last_rewards_claim: now,
    };
    let exchange_after = Exchange {
        admin: exchange.admin,
        margin_used: exchange.margin_used,
        number_of_markets: exchange.number_of_markets,
        market_weight: exchange.market_weight,
        basis: exchange.basis,
        pnl: exchange.pnl,
        fees: exchange.fees,
        collateral_value: exchange.collateral_value,
        leverage: exchange.leverage,
        rebates: exchange.rebates,
        rewards: exchange_rewards,
        last_rewards_claim: now,
        reward_frequency: exchange.reward_frequency,
        reward_rate: exchange.reward_rate,
        test_mode: exchange.test_mode,
        chainlink_program: exchange.chainlink_program,
    };
    Some((Ok(share), user_after, exchange_after))
}

/// Pays the user's share of the reward pool at time `now`.
///
/// During the cooldown nothing is paid, and nothing is paid of a negative
/// share: with `throw_error` the reason is returned as an error, without it
/// the answer is zero; the records are as they were. Otherwise the share is
/// taken from the exchange's rewards and added to the user's, both records
/// are stamped with `now`, and the share is returned.
pub fn execute_claim(
    user_account: &mut UserAccount,
    exchange: &mut Exchange,
    now: i64,
    throw_error: bool,
) -> (r: Result<i128, KrunchErrors>)
    requires
        claim_defined(*old(user_account), *old(exchange), now as int),
    ensures
        r == claim_result(*old(user_account), *old(exchange), now as int, throw_error),
        *final(user_account) == account_after_claim(*old(user_account), *old(exchange), now),
        *final(exchange) == exchange_after_claim(*old(user_account), *old(exchange), now),
{
    match try_execute_claim(user_account, exchange, now, throw_error) {
        Some(r) => r,
        None => {
            proof {
                assert(false);
            }
            Ok(0)
        },
    }
}

/// [`execute_claim`] for any input: `None`, and nothing changed, where the
/// exchange has no capacity to divide by or an amount does not fit.
pub fn try_execute_claim(
    user_account: &mut UserAccount,
    exchange: &mut Exchange,
    now: i64,
    throw_error: bool,
) -> (r: Option<Result<i128, KrunchErrors>>)
    ensures
        r is Some <==> claim_defined(*old(user_account), *old(exchange), now as int),
        r is None ==> *final(user_account) == *old(user_account) && *final(exchange) == *old(
            exchange,
        ),
        r matches Some(paid) ==> {
            &&& paid == claim_result(*old(user_account), *old(exchange), now as int, throw_error)
            &&& *final(user_account) == account_after_claim(
                *old(user_account),
                *old(exchange),
                now,
            )
            &&& *final(exchange) == exchange_after_claim(*old(user_account), *old(exchange), now)
        },
{
    match checked_claim(user_account, exchange, now, throw_error) {
        Some((paid, user_after, exchange_after)) => {
            *user_account = user_after;
            *exchange = exchange_after;
            Some(paid)
        },
        None => None,
    }
}

/// A user's claim: [`execute_claim`] for a caller that wants to know why
/// nothing was paid.
pub fn claim_rewards(user_account: &mut UserAccount, exchange: &mut Exchange, now: i64) -> (r:
    Result<(), KrunchErrors>)
    requires
        claim_defined(*old(user_account), *old(exchange), now as int),
    ensures
        r is Ok <==> claim_pays(*old(user_account), *old(exchange), now as int),
        r is Err ==> r == Err::<(), KrunchErrors>(
            if cooldown_active(*old(user_account), *old(exchange), now as int) {
                KrunchErrors::RewardsClaimUnavailable
            } else {
                KrunchErrors::NoRewardsAvailable
            },
        ),
        *final(user_account) == account_after_claim(*old(user_account), *old(exchange), now),
        *final(exchange) == exchange_after_claim(*old(user_account), *old(exchange), now),
{
    match execute_claim(user_account, exchange, now, true) {
        Ok(_) => Ok(()),
        Err(e) => Err(e),
    }
}

/// [`claim_rewards`] for any input: `None`, and nothing changed, where the
/// claim cannot be carried out.
pub fn try_claim_rewards(user_account: &mut UserAccount, exchange: &mut Exchange, now: i64) -> (r:
    Option<Result<(), KrunchErrors>>)
    ensures
        r is Some <==> claim_defined(*old(user_account), *old(exchange), now as int),
        r is None ==> *final(user_account) == *old(user_account) && *final(exchange) == *old(
            exchange,
        ),
        r matches Some(done) ==> {
            &&& done is Ok <==> claim_pays(*old(user_account), *old(exchange), now as int)
            &&& done is Err ==> done == Err::<(), KrunchErrors>(
                if cooldown_active(*old(user_account), *old(exchange), now as int) {
                    KrunchErrors::RewardsClaimUnavailable
                } else {
                    KrunchErrors::NoRewardsAvailable
                },
            )
            &&& *final(user_account) == account_after_claim(
                *old(user_account),
                *old(exchange),
                now,
            )
            &&& *final(exchange) == exchange_after_claim(*old(user_account), *old(exchange), now)
        },
{
    match try_execute_claim(user_account, exchange, now, true) {
        Some(Ok(_)) => Some(Ok(())),
        Some(Err(e)) => Some(Err(e)),
        None => None,
    }
}

/// A claim that pays stamps the user's account with the time of the claim,
/// and touches nothing but rewards and time stamps.
pub proof fn lemma_paid_claim_is_stamped(user_account: UserAccount, exchange: Exchange, now: i64)
    requires
        claim_pays(user_account, exchange, now as int),
    ensures
        account_after_claim(user_account, exchange, now).last_rewards_claim == now,
        exchange_after_claim(user_account, exchange, now).last_rewards_claim == now,
        exchange_after_claim(user_account, exchange, now).reward_frequency
            == exchange.reward_frequency,
{
}

/// Reward cooldown. Once a claim has paid at time `first`, a claim of the
/// same user at any time before `first + reward_frequency` pays nothing: it
/// is refused as unavailable, or answered with zero for a caller that only
/// probes, and it changes nothing. This holds whatever has happened to the
/// two records in between, trades at any price included, as long as the
/// reward frequency and the user's time stamp are what the first claim left.
pub proof fn lemma_second_claim_within_cooldown(
    user_account: UserAccount,
    exchange: Exchange,
    first: i64,
    later_account: UserAccount,
    later_exchange: Exchange,
    second: i64,
    throw_error: bool,
)
    requires
        claim_pays(user_account, exchange, first as int),
        later_account.last_rewards_claim == account_after_claim(
            user_account,
            exchange,
            first,
        ).last_rewards_claim,
        later_exchange.reward_frequency == exchange_after_claim(
            user_account,
            exchange,
            first,
        ).reward_frequency,
        second < first + exchange.reward_frequency,
    ensures
        claim_defined(later_account, later_exchange, second as int),
        claim_result(later_account, later_exchange, second as int, throw_error) == if throw_error {
            Err::<i128, KrunchErrors>(KrunchErrors::RewardsClaimUnavailable)
        } else {
            Ok::<i128, KrunchErrors>(0i128)
        },
        account_after_claim(later_account, later_exchange, second) == later_account,
        exchange_after_claim(later_account, later_exchange, second) == later_exchange,
{
}

/// What a claim adds to the user's rewards it takes from the exchange's
/// rewards, and it changes nothing else but the time stamps.
pub proof fn lemma_claim_conserved(user_account: UserAccount, exchange: Exchange, now: i64)
    requires
        claim_defined(user_account, exchange, now as int),
    ensures
        account_after_claim(user_account, exchange, now).rewards - user_account.rewards
            == exchange.rewards - exchange_after_claim(user_account, exchange, now).rewards,
        account_after_claim(user_account, exchange, now).rewards >= user_account.rewards,
        account_after_claim(user_account, exchange, now) == (UserAccount {
            rewards: account_after_claim(user_account, exchange, now).rewards,
            last_rewards_claim: account_after_claim(user_account, exchange, now).last_rewards_claim,
            ..user_account
        }),
        exchange_after_claim(user_account, exchange, now) == (Exchange {
            rewards: exchange_after_claim(user_account, exchange, now).rewards,
            last_rewards_claim: exchange_after_claim(
                user_account,
                exchange,
                now,
            ).last_rewards_claim,
            ..exchange
        }),
{
}

} // verus!
