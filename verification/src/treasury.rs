//! Collateral: what users pay in and take out.
//!
//! A deposit is valued at the oracle's price and added to the collateral of
//! the user and of the exchange. A withdrawal is taken from both and has to
//! leave exchange and user with margin. Either way the ledger only keeps the
//! books and says how many tokens are to change hands; moving them is the
//! caller's business, after the books are kept.

use crate::errors::KrunchErrors;
use crate::fixed_point::{
    checked_credit, checked_product, checked_scale_mul_div, div_toward_zero, fits_i64, pow10,
    pow10_i128, scale_defined, scaled, trunc_div, wide, AMOUNT_NUM_DECIMALS, MAX_POW10_EXPONENT,
};
use crate::rewards::{
    account_after_claim, claim_defined, exchange_after_claim, try_execute_claim,
};
use crate::solvency::{exchange_available, user_available, withdrawal_gate, withdrawal_verdict};
use crate::state::{Exchange, ExchangeTreasuryPosition, UserAccount};
use anchor_lang::prelude::Pubkey;
use vstd::prelude::*;

verus! {

/// An amount of nine decimal places in the units of a token of
/// `token_decimals` places: `amount / 10^(9 - token_decimals)`, rounded
/// toward zero. Meaningful for a token of at most nine places.
pub open spec fn token_units(amount: int, token_decimals: nat) -> int {
    trunc_div(amount, pow10((AMOUNT_NUM_DECIMALS - token_decimals) as nat))
}

/// The value of a deposit at the oracle's price.
pub open spec fn deposit_value(amount: int, price: int, price_decimals: nat) -> int {
    scaled(amount, price, price_decimals)
}

/// The inputs on which a deposit can be booked: the token has at most nine
/// decimal places, the price is not negative, the value can be computed,
/// the reward claim that goes before the deposit can be carried out, and the
/// new collateral fits both records.
pub open spec fn deposit_defined(
    user_account: UserAccount,
    exchange: Exchange,
    position: ExchangeTreasuryPosition,
    amount: int,
    price: int,
    price_decimals: nat,
    now: int,
) -> bool {
    &&& position.decimals <= AMOUNT_NUM_DECIMALS
    &&& price >= 0
    &&& scale_defined(amount, price, price_decimals)
    &&& claim_defined(user_account, exchange, now)
    &&& fits_i64(user_account.collateral_value + deposit_value(amount, price, price_decimals))
    &&& fits_i64(exchange.collateral_value + deposit_value(amount, price, price_decimals))
}

/// The user's account after a deposit: rewards that were due are paid, the
/// value of the deposit is added to the collateral.
pub open spec fn account_after_deposit(
    user_account: UserAccount,
    exchange: Exchange,
    amount: int,
    price: int,
    price_decimals: nat,
    now: i64,
) -> UserAccount {
    UserAccount {
        collateral_value: (user_account.collateral_value + deposit_value(
            amount,
            price,
            price_decimals,
        )) as i64,
        ..account_after_claim(user_account, exchange, now)
    }
}

/// The exchange after a deposit.
pub open spec fn exchange_after_deposit(
    user_account: UserAccount,
    exchange: Exchange,
    amount: int,
    price: int,
    price_decimals: nat,
    now: i64,
) -> Exchange {
    Exchange {
        collateral_value: (exchange.collateral_value + deposit_value(
            amount,
            price,
            price_decimals,
        )) as i64,
        ..exchange_after_claim(user_account, exchange, now)
    }
}

/// The user's account with a withdrawal booked.
pub open spec fn account_after_withdrawal(user_account: UserAccount, amount: int) -> UserAccount {
    UserAccount { collateral_value: (user_account.collateral_value - amount) as i64, ..user_account }
}

/// The exchange with a withdrawal booked.
pub open spec fn exchange_after_withdrawal(exchange: Exchange, amount: int) -> Exchange {
    Exchange { collateral_value: (exchange.collateral_value - amount) as i64, ..exchange }
}

/// The tokens that a withdrawal of `amount` pays out at the oracle's price:
/// the amount in the token's units, divided by the price.
pub open spec fn withdrawn_tokens(
    amount: int,
    token_decimals: nat,
    price: int,
    price_decimals: nat,
) -> int {
    trunc_div(token_units(amount, token_decimals) * pow10(price_decimals), price)
}

/// The inputs on which the tokens of a withdrawal can be computed: the token
/// has at most nine decimal places, the price is positive, the product fits
/// 128 bits and the tokens fit 64.
pub open spec fn payout_defined(
    amount: int,
    token_decimals: nat,
    price: int,
    price_decimals: nat,
) -> bool {
    &&& token_decimals <= AMOUNT_NUM_DECIMALS
    &&& price_decimals <= MAX_POW10_EXPONENT
    &&& price > 0
    &&& wide(token_units(amount, token_decimals) * pow10(price_decimals))
    &&& withdrawn_tokens(amount, token_decimals, price, price_decimals) <= u64::MAX
}

/// The verdict on a withdrawal of `amount`: that of the solvency gate on the
/// records with the withdrawal booked.
pub open spec fn withdrawal_result(user_account: UserAccount, exchange: Exchange, amount: int)
    -> Result<(), KrunchErrors> {
    withdrawal_verdict(
        exchange_after_withdrawal(exchange, amount),
        account_after_withdrawal(user_account, amount),
    )
}

/// The inputs on which a withdrawal can be carried out: the reduced
/// collateral fits both records, and, if the withdrawal is granted, the
/// tokens to pay out can be computed.
pub open spec fn withdraw_defined(
    user_account: UserAccount,
    exchange: Exchange,
    position: ExchangeTreasuryPosition,
    amount: int,
    price: int,
    price_decimals: nat,
) -> bool {
    &&& fits_i64(user_account.collateral_value - amount)
    &&& fits_i64(exchange.collateral_value - amount)
    &&& withdrawal_result(user_account, exchange, amount) is Ok ==> payout_defined(
        amount,
        position.decimals as nat,
        price,
        price_decimals,
    )
}

/// What a withdrawal returns and leaves behind: the tokens to pay out and
/// the records with the withdrawal booked, or the error of the scope that
/// lacks margin and the records as they were.
pub open spec fn withdrawal_outcome(
    user_account: UserAccount,
    exchange: Exchange,
    position: ExchangeTreasuryPosition,
    amount: u64,
    price: i128,
    price_decimals: u8,
    account_after: UserAccount,
    exchange_after: Exchange,
    r: Result<u64, KrunchErrors>,
) -> bool {
    match withdrawal_result(user_account, exchange, amount as int) {
        Ok(_) => {
            &&& r == Ok::<u64, KrunchErrors>(
                withdrawn_tokens(
                    amount as int,
                    position.decimals as nat,
                    price as int,
                    price_decimals as nat,
                ) as u64,
            )
            &&& account_after == account_after_withdrawal(user_account, amount as int)
            &&& exchange_after == exchange_after_withdrawal(exchange, amount as int)
        },
        Err(e) => {
            &&& r == Err::<u64, KrunchErrors>(e)
            &&& account_after == user_account
            &&& exchange_after == exchange
        },
    }
}

/// An amount of nine decimal places in the units of a token.
fn to_token_units(amount: u64, token_decimals: u8) -> (units: u64)
    requires
        token_decimals <= AMOUNT_NUM_DECIMALS,
    ensures
        units == token_units(amount as int, token_decimals as nat),
        units <= amount,
{
    let divisor: i128 = pow10_i128((AMOUNT_NUM_DECIMALS - token_decimals) as u32);
    proof {
        crate::fixed_point::lemma_trunc_div_bounds(amount as int, divisor as int);
    }
    let units: i128 = div_toward_zero(amount as i128, divisor);
    units as u64
}

/// Books a deposit of `amount` tokens, counted in units of `10^-9`, at time
/// `now`, and returns the number of token units that the user has to hand
/// over.
///
/// Rewards that are due to the user are paid first; a claim that pays
/// nothing is no obstacle. Then the value of the deposit at the oracle's
/// price is added to the collateral of the user and of the exchange.
pub fn deposit(
    user_account: &mut UserAccount,
    exchange: &mut Exchange,
    exchange_treasury_position: &ExchangeTreasuryPosition,
    amount: u64,
    oracle_price: i128,
    price_decimals: u8,
    now: i64,
) -> (tokens: u64)
    requires
        deposit_defined(
            *old(user_account),
            *old(exchange),
            *exchange_treasury_position,
            amount as int,
            oracle_price as int,
            price_decimals as nat,
            now as int,
        ),
    ensures
        tokens == token_units(amount as int, exchange_treasury_position.decimals as nat),
        *final(user_account) == account_after_deposit(
            *old(user_account),
            *old(exchange),
            amount as int,
            oracle_price as int,
            price_decimals as nat,
            now,
        ),
        *final(exchange) == exchange_after_deposit(
            *old(user_account),
            *old(exchange),
            amount as int,
            oracle_price as int,
            price_decimals as nat,
            now,
        ),
{
    match try_deposit(
        user_account,
        exchange,
        exchange_treasury_position,
        amount,
        oracle_price,
        price_decimals,
        now,
    ) {
        Some(tokens) => tokens,
        None => {
            proof {
                assert(false);
            }
            0
        },
    }
}

/// [`deposit`] for any input: `None`, and nothing changed, where the deposit
/// cannot be booked.
pub fn try_deposit(
    user_account: &mut UserAccount,
    exchange: &mut Exchange,
    exchange_treasury_position: &ExchangeTreasuryPosition,
    amount: u64,
    oracle_price: i128,
    price_decimals: u8,
    now: i64,
) -> (r: Option<u64>)
    ensures
        r is Some <==> deposit_defined(
            *old(user_account),
            *old(exchange),
            *exchange_treasury_position,
            amount as int,
            oracle_price as int,
            price_decimals as nat,
            now as int,
        ),
        r is None ==> *final(user_account) == *old(user_account) && *final(exchange) == *old(
            exchange,
        ),
        r matches Some(tokens) ==> {
            &&& tokens == token_units(amount as int, exchange_treasury_position.decimals as nat)
            &&& *final(user_account) == account_after_deposit(
                *old(user_account),
                *old(exchange),
                amount as int,
                oracle_price as int,
                price_decimals as nat,
                now,
            )
            &&& *final(exchange) == exchange_after_deposit(
                *old(user_account),
                *old(exchange),
                amount as int,
                oracle_price as int,
                price_decimals as nat,
                now,
            )
        },
{
    if exchange_treasury_position.decimals > AMOUNT_NUM_DECIMALS || oracle_price < 0 {
        return None;
    }
    let value: i128 = checked_scale_mul_div(amount as i128, oracle_price, price_decimals as u32)?;
    let mut account: UserAccount = *user_account;
    let mut venue: Exchange = *exchange;
    let _: Result<i128, KrunchErrors> = try_execute_claim(&mut account, &mut venue, now, false)?;
    account.collateral_value = checked_credit(account.collateral_value, value)?;
    venue.collateral_value = checked_credit(venue.collateral_value, value)?;
    *user_account = account;
    *exchange = venue;
    Some(to_token_units(amount, exchange_treasury_position.decimals))
}

/// The tokens that a withdrawal pays out, where they can be computed.
fn checked_payout(amount: u64, token_decimals: u8, price: i128, price_decimals: u8) -> (r: Option<
    u64,
>)
    ensures
        r is Some <==> payout_defined(
            amount as int,
            token_decimals as nat,
            price as int,
            price_decimals as nat,
        ),
        r matches Some(tokens) ==> tokens == withdrawn_tokens(
            amount as int,
            token_decimals as nat,
            price as int,
            price_decimals as nat,
        ),
{
    if token_decimals > AMOUNT_NUM_DECIMALS || price_decimals as u32 > MAX_POW10_EXPONENT || price
        <= 0 {
        return None;
    }
    let units: u64 = to_token_units(amount, token_decimals);
    let scale: i128 = pow10_i128(price_decimals as u32);
    let product: i128 = checked_product(units as i128, scale)?;
    assert(product >= 0) by (nonlinear_arith)
        requires
            product == units * scale,
            units >= 0,
            scale > 0,
    ;
    proof {
        crate::fixed_point::lemma_trunc_div_bounds(product as int, price as int);
    }
    let tokens: i128 = div_toward_zero(product, price);
    if tokens > u64::MAX as i128 {
        None
    } else {
        Some(tokens as u64)
    }
}

/// Books a withdrawal of collateral worth `amount` and returns the number of
/// token units that the user is to receive at the oracle's price.
///
/// The amount is taken from the collateral of the user and of the exchange.
/// If that leaves the exchange, or else the user at the exchange's leverage,
/// without margin, the error of that scope is returned and the records are
/// as they were.
pub fn withdraw(
    user_account: &mut UserAccount,
    exchange: &mut Exchange,
    exchange_treasury_position: &ExchangeTreasuryPosition,
    amount: u64,
    oracle_price: i128,
    price_decimals: u8,
) -> (r: Result<u64, KrunchErrors>)
    requires
        withdraw_defined(
            *old(user_account),
            *old(exchange),
            *exchange_treasury_position,
            amount as int,
            oracle_price as int,
            price_decimals as nat,
        ),
    ensures
        withdrawal_outcome(
            *old(user_account),
            *old(exchange),
            *exchange_treasury_position,
            amount,
            oracle_price,
            price_decimals,
            *final(user_account),
            *final(exchange),
            r,
        ),
{
    match try_withdraw(
        user_account,
        exchange,
        exchange_treasury_position,
        amount,
        oracle_price,
        price_decimals,
    ) {
        Some(r) => r,
        None => {
            proof {
                assert(false);
            }
            Ok(0)
        },
    }
}

/// [`withdraw`] for any input: `None`, and nothing changed, where the
/// withdrawal cannot be booked or its tokens cannot be computed.
pub fn try_withdraw(
    user_account: &mut UserAccount,
    exchange: &mut Exchange,
    exchange_treasury_position: &ExchangeTreasuryPosition,
    amount: u64,
    oracle_price: i128,
    price_decimals: u8,
) -> (r: Option<Result<u64, KrunchErrors>>)
    ensures
        r is Some <==> withdraw_defined(
            *old(user_account),
            *old(exchange),
            *exchange_treasury_position,
            amount as int,
            oracle_price as int,
            price_decimals as nat,
        ),
        r is None ==> *final(user_account) == *old(user_account) && *final(exchange) == *old(
            exchange,
        ),
        r matches Some(done) ==> withdrawal_outcome(
            *old(user_account),
            *old(exchange),
            *exchange_treasury_position,
            amount,
            oracle_price,
            price_decimals,
            *final(user_account),
            *final(exchange),
            done,
        ),
{
    let mut account: UserAccount = *user_account;
    let mut venue: Exchange = *exchange;
    account.collateral_value = checked_credit(account.collateral_value, -(amount as i128))?;
    venue.collateral_value = checked_credit(venue.collateral_value, -(amount as i128))?;
    match withdrawal_gate(&venue, &account) {
        Ok(_) => {
            let tokens: u64 = checked_payout(
                amount,
                exchange_treasury_position.decimals,
                oracle_price,
                price_decimals,
            )?;
            *user_account = account;
            *exchange = venue;
            Some(Ok(tokens))
        },
        Err(e) => Some(Err(e)),
    }
}

/// Admits a token to the treasury.
pub fn add_exchange_position(
    exchange_treasury_position: &mut ExchangeTreasuryPosition,
    token_mint: Pubkey,
    active: bool,
    treasury_weight: u16,
    decimals: u8,
    feed_address: Pubkey,
)
    ensures
        *final(exchange_treasury_position) == (ExchangeTreasuryPosition {
            token_mint,
            active,
            treasury_weight,
            decimals,
            feed_address,
        }),
{
    exchange_treasury_position.token_mint = token_mint;
    exchange_treasury_position.active = active;
    exchange_treasury_position.treasury_weight = treasury_weight;
    exchange_treasury_position.decimals = decimals;
    exchange_treasury_position.feed_address = feed_address;
}

/// Changes the terms of a token of the treasury; the token stays the same.
pub fn update_exchange_position(
    exchange_treasury_position: &mut ExchangeTreasuryPosition,
    active: bool,
    treasury_weight: u16,
    decimals: u8,
    feed_address: Pubkey,
)
    ensures
        *final(exchange_treasury_position) == (ExchangeTreasuryPosition {
            token_mint: old(exchange_treasury_position).token_mint,
            active,
            treasury_weight,
            decimals,
            feed_address,
        }),
{
    exchange_treasury_position.active = active;
    exchange_treasury_position.treasury_weight = treasury_weight;
    exchange_treasury_position.decimals = decimals;
    exchange_treasury_position.feed_address = feed_address;
}

/// A deposit adds to the collateral of the user what it adds to the
/// collateral of the exchange, and moves rewards from the exchange to the
/// user, if any: the two records change by the same collateral and by
/// opposite rewards.
pub proof fn lemma_deposit_conserved(
    user_account: UserAccount,
    exchange: Exchange,
    position: ExchangeTreasuryPosition,
    amount: int,
    price: int,
    price_decimals: nat,
    now: i64,
)
    requires
        deposit_defined(
            user_account,
            exchange,
            position,
            amount,
            price,
            price_decimals,
            now as int,
        ),
        amount >= 0,
    ensures
        account_after_deposit(
            user_account,
            exchange,
            amount,
            price,
            price_decimals,
            now,
        ).collateral_value - user_account.collateral_value == exchange_after_deposit(
            user_account,
            exchange,
            amount,
            price,
            price_decimals,
            now,
        ).collateral_value - exchange.collateral_value,
        account_after_deposit(user_account, exchange, amount, price, price_decimals, now).rewards
            - user_account.rewards == exchange.rewards - exchange_after_deposit(
            user_account,
            exchange,
            amount,
            price,
            price_decimals,
            now,
        ).rewards,
        account_after_deposit(
            user_account,
            exchange,
            amount,
            price,
            price_decimals,
            now,
        ).collateral_value >= user_account.collateral_value,
{
    crate::fixed_point::lemma_pow10_increases(0, price_decimals);
    assert(amount * price >= 0) by (nonlinear_arith)
        requires
            amount >= 0,
            price >= 0,
    ;
    crate::fixed_point::lemma_trunc_div_bounds(amount * price, pow10(price_decimals));
}

/// A withdrawal that is granted takes the same amount from the collateral
/// of the user and of the exchange, and leaves both with margin; one that is
/// refused takes nothing.
pub proof fn lemma_withdrawal_conserved(
    user_account: UserAccount,
    exchange: Exchange,
    position: ExchangeTreasuryPosition,
    amount: u64,
    price: i128,
    price_decimals: u8,
    account_after: UserAccount,
    exchange_after: Exchange,
    r: Result<u64, KrunchErrors>,
)
    requires
        withdraw_defined(
            user_account,
            exchange,
            position,
            amount as int,
            price as int,
            price_decimals as nat,
        ),
        withdrawal_outcome(
            user_account,
            exchange,
            position,
            amount,
            price,
            price_decimals,
            account_after,
            exchange_after,
            r,
        ),
    ensures
        account_after.collateral_value - user_account.collateral_value
            == exchange_after.collateral_value - exchange.collateral_value,
        r is Ok ==> user_account.collateral_value - account_after.collateral_value == amount,
        r is Ok ==> exchange_available(exchange_after) >= 0 && user_available(
            account_after,
            exchange_after.leverage as int,
        ) >= 0,
        r is Err ==> account_after == user_account && exchange_after == exchange,
{
}

} // verus!
