use anchor_lang::prelude::Pubkey;
use krunch::funding::{checked_funding, rejects_pool_change};
use krunch::{
    add_yield, add_yield_market, try_update_yield, update_yield, Exchange, KrunchErrors,
    UserYieldPosition, YieldMarket,
};

const UNIT: i64 = 1_000_000_000;
const TENTH_OF_A_YEAR: i64 = 3_153_600;

fn key(b: u8) -> Pubkey {
    Pubkey::new_from_array([b; 32])
}

fn exchange(test_mode: bool) -> Exchange {
    Exchange {
        admin: key(1),
        margin_used: 0,
        number_of_markets: 0,
        market_weight: 10_000,
        basis: 0,
        pnl: 0,
        fees: 0,
        collateral_value: 0,
        leverage: 10_000,
        rebates: 0,
        rewards: 0,
        last_rewards_claim: 0,
        reward_frequency: 0,
        reward_rate: 0,
        test_mode,
        chainlink_program: key(2),
    }
}

fn pools() -> YieldMarket {
    YieldMarket {
        market_index: 3,
        long_token_amount: 10 * UNIT,
        short_token_amount: 5 * UNIT,
        long_basis: 1_000 * UNIT,
        short_basis: 600 * UNIT,
        long_funding: 0,
        short_funding: 0,
        short_fees: 11,
        long_fees: 12,
        last_claim_date: 1_000,
        chainlink_feed: key(5),
    }
}

fn holding() -> UserYieldPosition {
    UserYieldPosition {
        owner: key(6),
        market_index: 0,
        long_token_amount: 2 * UNIT,
        short_token_amount: UNIT,
        long_basis: 200 * UNIT,
        short_basis: 120 * UNIT,
        long_funding: 0,
        short_funding: 0,
        short_fees: 13,
        long_fees: 14,
        last_claim_date: 500,
    }
}

#[test]
fn long_pool_with_the_larger_profit_receives() {
    let mut y = pools();
    let mut u = holding();
    let now = 1_000 + TENTH_OF_A_YEAR;
    // long: 1100 - 1000 = 100; short: 600 - 550 = 50; difference 50, a tenth of a year: 5
    let r = update_yield(&mut y, &mut u, &exchange(false), 3, UNIT, 0, 110 * UNIT as i128, 9, now);
    assert_eq!(r, Ok(()));
    assert_eq!(y.long_funding, 5 * UNIT);
    assert_eq!(y.short_funding, -5 * UNIT);
    // the user holds 2 of the 10 long tokens
    assert_eq!(u.long_funding, UNIT);
    assert_eq!(u.short_funding, -UNIT);
    // holdings and their basis at the current price
    assert_eq!(u.long_token_amount, 3 * UNIT);
    assert_eq!(u.short_token_amount, UNIT);
    assert_eq!(y.long_token_amount, 11 * UNIT);
    assert_eq!(y.short_token_amount, 5 * UNIT);
    assert_eq!(u.long_basis, 310 * UNIT);
    assert_eq!(u.short_basis, 120 * UNIT);
    assert_eq!(y.long_basis, 1_110 * UNIT);
    assert_eq!(y.short_basis, 600 * UNIT);
    // snapshots cleared, time stamped, index entered
    assert_eq!((u.long_fees, u.short_fees, y.long_fees, y.short_fees), (0, 0, 0, 0));
    assert_eq!(u.last_claim_date, now);
    assert_eq!(y.last_claim_date, now);
    assert_eq!(u.market_index, 3);
    assert_eq!(y.market_index, 3);
    assert_eq!(u.owner, key(6));
    assert_eq!(y.chainlink_feed, key(5));
}

#[test]
fn short_pool_with_the_larger_profit_receives() {
    let mut y = pools();
    let mut u = holding();
    let now = 1_000 + TENTH_OF_A_YEAR;
    // long: 900 - 1000 = -100; short: 600 - 450 = 150; difference 250
    update_yield(&mut y, &mut u, &exchange(false), 3, 0, 0, 90 * UNIT as i128, 9, now).unwrap();
    assert_eq!(y.short_funding, 25 * UNIT);
    assert_eq!(y.long_funding, -25 * UNIT);
    // the user holds 1 of the 5 short tokens
    assert_eq!(u.short_funding, 5 * UNIT);
    assert_eq!(u.long_funding, -5 * UNIT);
}

#[test]
fn equal_profits_move_nothing() {
    let mut y = pools();
    y.short_basis = 650 * UNIT;
    let mut u = holding();
    // long: 1100 - 1000 = 100; short: 650 - 550 = 100
    let now = 1_000 + TENTH_OF_A_YEAR;
    update_yield(&mut y, &mut u, &exchange(false), 3, 0, 0, 110 * UNIT as i128, 9, now).unwrap();
    assert_eq!((y.long_funding, y.short_funding), (0, 0));
    assert_eq!((u.long_funding, u.short_funding), (0, 0));
}

#[test]
fn transfer_is_capped_at_what_the_paying_pool_has_booked() {
    let mut y = pools();
    y.short_token_amount = 0;
    y.short_basis = 15 * UNIT;
    y.short_funding = 5 * UNIT;
    let mut u = holding();
    u.short_token_amount = 0;
    // long 100, short 20 - 0 = 20: difference 80, capped at 20; after a whole year
    let now = 1_000 + 10 * TENTH_OF_A_YEAR;
    update_yield(&mut y, &mut u, &exchange(false), 3, 0, 0, 110 * UNIT as i128, 9, now).unwrap();
    assert_eq!(y.long_funding, 20 * UNIT);
    assert_eq!(y.short_funding, 5 * UNIT - 20 * UNIT);
    assert_eq!(u.long_funding, 4 * UNIT);
    let moved = checked_funding(&pools(), &holding(), 110 * UNIT as i128, 9, now).unwrap();
    assert!(moved.long_market <= 600 * UNIT as i128);
    assert_eq!(moved.long_market, 50 * UNIT as i128);
    assert_eq!(moved.long_market + moved.short_market, 0);
    assert_eq!(moved.long_user + moved.short_user, 0);
}

#[test]
fn nothing_falls_due_at_the_time_of_the_last_update() {
    let mut y = pools();
    let mut u = holding();
    update_yield(&mut y, &mut u, &exchange(false), 3, 0, 0, 110 * UNIT as i128, 9, 1_000)
        .unwrap();
    assert_eq!((y.long_funding, y.short_funding), (0, 0));
    assert_eq!((u.long_funding, u.short_funding), (0, 0));
}

#[test]
fn empty_receiving_pool_pays_nothing() {
    let mut y = pools();
    y.long_token_amount = 0;
    y.long_basis = -100 * UNIT;
    let mut u = holding();
    u.long_token_amount = 0;
    // long: 0 + 100 = 100 > short 50, but nobody is in the long pool
    let now = 1_000 + TENTH_OF_A_YEAR;
    update_yield(&mut y, &mut u, &exchange(false), 3, UNIT, 0, 110 * UNIT as i128, 9, now)
        .unwrap();
    assert_eq!((y.long_funding, y.short_funding), (0, 0));
    assert_eq!((u.long_funding, u.short_funding), (0, 0));
    assert_eq!(y.long_token_amount, UNIT);
}

#[test]
fn user_outside_the_receiving_pool_gets_nothing_and_the_market_neither() {
    let mut y = pools();
    let mut u = holding();
    u.long_token_amount = 0;
    let now = 1_000 + TENTH_OF_A_YEAR;
    update_yield(&mut y, &mut u, &exchange(false), 3, 0, 0, 110 * UNIT as i128, 9, now).unwrap();
    assert_eq!((y.long_funding, y.short_funding), (0, 0));
    assert_eq!((u.long_funding, u.short_funding), (0, 0));
}

#[test]
fn update_that_would_leave_a_pool_negative_is_rejected() {
    let e = exchange(false);
    let cases: [(i64, i64); 4] =
        [(-2 * UNIT - 1, 0), (0, -UNIT - 1), (-11 * UNIT, 0), (0, -6 * UNIT)];
    for (long, short) in cases {
        let mut y = pools();
        let mut u = holding();
        assert!(rejects_pool_change(&y, &u, long, short));
        let r = update_yield(&mut y, &mut u, &e, 9, long, short, 110 * UNIT as i128, 9, 2_000);
        assert_eq!(r, Err(KrunchErrors::YieldAmountInsufficient));
        assert_eq!(y, pools());
        assert_eq!(u, holding());
    }
}

#[test]
fn market_pool_is_checked_as_well_as_the_user_s() {
    let mut y = pools();
    y.long_token_amount = UNIT;
    let mut u = holding();
    // the user holds 2, the market only 1
    assert!(rejects_pool_change(&y, &u, -2 * UNIT, 0));
    let r =
        update_yield(&mut y, &mut u, &exchange(false), 3, -2 * UNIT, 0, 110 * UNIT as i128, 9, 0);
    assert_eq!(r, Err(KrunchErrors::YieldAmountInsufficient));
}

#[test]
fn rejection_comes_before_anything_is_computed() {
    let mut y = pools();
    let mut u = holding();
    // 39 decimal places cannot be computed, but the update is rejected first
    let r = try_update_yield(&mut y, &mut u, &exchange(false), 3, -3 * UNIT, 0, 1, 39, 0);
    assert_eq!(r, Some(Err(KrunchErrors::YieldAmountInsufficient)));
}

#[test]
fn reducing_a_holding_to_nothing_is_accepted() {
    let mut y = pools();
    let mut u = holding();
    let r = update_yield(
        &mut y,
        &mut u,
        &exchange(false),
        3,
        -2 * UNIT,
        -UNIT,
        110 * UNIT as i128,
        9,
        1_000,
    );
    assert_eq!(r, Ok(()));
    assert_eq!((u.long_token_amount, u.short_token_amount), (0, 0));
    assert_eq!((y.long_token_amount, y.short_token_amount), (8 * UNIT, 4 * UNIT));
    assert_eq!(u.long_basis, 200 * UNIT - 220 * UNIT);
    assert_eq!(u.short_basis, 120 * UNIT - 110 * UNIT);
}

#[test]
fn test_mode_perturbs_the_price_of_a_yield_update() {
    let mut y = pools();
    let mut u = holding();
    // time ends in 9: price 100 becomes 109
    update_yield(&mut y, &mut u, &exchange(true), 3, UNIT, 0, 100 * UNIT as i128, 9, 1_009)
        .unwrap();
    assert_eq!(u.long_basis, 200 * UNIT + 109 * UNIT);
}

#[test]
fn try_update_yield_reports_what_the_machine_cannot_hold() {
    let mut y = pools();
    let mut u = holding();
    let e = exchange(false);
    assert_eq!(try_update_yield(&mut y, &mut u, &e, 3, 0, 0, 1, 39, 0), None);
    assert_eq!(try_update_yield(&mut y, &mut u, &e, 3, 0, 0, i128::MAX, 9, 0), None);
    u.long_basis = i64::MAX;
    let before = u;
    assert_eq!(try_update_yield(&mut y, &mut u, &e, 3, UNIT, 0, 110 * UNIT as i128, 9, 0), None);
    assert_eq!(u, before);
    assert_eq!(y, pools());
}

#[test]
fn yield_market_is_opened_empty() {
    let mut y = pools();
    add_yield_market(&mut y, 8, key(9), 12_345);
    assert_eq!(
        y,
        YieldMarket {
            market_index: 8,
            long_token_amount: 0,
            short_token_amount: 0,
            long_basis: 0,
            short_basis: 0,
            long_funding: 0,
            short_funding: 0,
            short_fees: 0,
            long_fees: 0,
            last_claim_date: 12_345,
            chainlink_feed: key(9),
        }
    );
}

#[test]
fn holding_is_given_its_market_and_owner() {
    let mut u = holding();
    add_yield(&mut u, 8, key(10));
    let mut expected = holding();
    expected.market_index = 8;
    expected.owner = key(10);
    assert_eq!(u, expected);
}
