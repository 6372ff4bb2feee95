use anchor_lang::prelude::Pubkey;
use krunch::rollup::Ledger;
use krunch::{
    calculate_exchange_balance_available, calculate_market_total, calculate_user_total,
    execute_trade, try_execute_trade, Exchange, KrunchErrors, Market, UserAccount, UserPosition,
};

const UNIT: i64 = 1_000_000_000;

fn key(b: u8) -> Pubkey {
    Pubkey::new_from_array([b; 32])
}

fn exchange(collateral_value: i64) -> Exchange {
    Exchange {
        admin: key(1),
        margin_used: 0,
        number_of_markets: 1,
        market_weight: 10_000,
        basis: 0,
        pnl: 0,
        fees: 0,
        collateral_value,
        leverage: 100_000,
        rebates: 0,
        rewards: 0,
        last_rewards_claim: 0,
        reward_frequency: 3_600,
        reward_rate: 0,
        test_mode: false,
        chainlink_program: key(2),
    }
}

fn market() -> Market {
    Market {
        market_index: 1,
        market_weight: 5_000,
        token_amount: 0,
        basis: 0,
        pnl: 0,
        fees: 0,
        taker_fee: 10,
        maker_fee: -5,
        leverage: 100_000,
        margin_used: 0,
        feed_address: key(3),
        rebates: 0,
    }
}

fn account(collateral_value: i64) -> UserAccount {
    UserAccount {
        owner: key(4),
        collateral_value,
        margin_used: 0,
        basis: 0,
        pnl: 0,
        fees: 0,
        rebates: 0,
        rewards: 0,
        last_rewards_claim: 0,
    }
}

fn position() -> UserPosition {
    UserPosition {
        owner: key(4),
        market_index: 1,
        token_amount: 0,
        basis: 0,
        pnl: 0,
        fees: 0,
        margin_used: 0,
        rebates: 0,
    }
}

fn fresh() -> (Exchange, Market, UserAccount, UserPosition) {
    (exchange(1_000 * UNIT), market(), account(1_000 * UNIT), position())
}

fn assert_conserved(before: &Ledger, after: &Ledger) {
    let p = |f: fn(&UserPosition) -> i64| {
        f(&after.user_position) as i128 - f(&before.user_position) as i128
    };
    let basis = p(|x| x.basis);
    let pnl = p(|x| x.pnl);
    let fees = p(|x| x.fees);
    let rebates = p(|x| x.rebates);
    let tokens = p(|x| x.token_amount);
    let released = (before.user_position.margin_used as i128).abs()
        - (after.user_position.margin_used as i128).abs();
    let a = |f: fn(&UserAccount) -> i64| {
        f(&after.user_account) as i128 - f(&before.user_account) as i128
    };
    let m = |f: fn(&Market) -> i64| f(&after.market) as i128 - f(&before.market) as i128;
    let e = |f: fn(&Exchange) -> i64| f(&after.exchange) as i128 - f(&before.exchange) as i128;
    assert_eq!(a(|x| x.basis), basis);
    assert_eq!(a(|x| x.pnl), pnl);
    assert_eq!(a(|x| x.fees), fees);
    assert_eq!(a(|x| x.rebates), rebates);
    assert_eq!(a(|x| x.margin_used), released);
    assert_eq!(m(|x| x.token_amount), -tokens);
    assert_eq!(m(|x| x.basis), -basis);
    assert_eq!(m(|x| x.pnl), -pnl);
    assert_eq!(m(|x| x.fees), -fees);
    assert_eq!(m(|x| x.rebates), -rebates);
    assert_eq!(m(|x| x.margin_used), released);
    assert_eq!(e(|x| x.basis), -basis);
    assert_eq!(e(|x| x.pnl), -pnl);
    assert_eq!(e(|x| x.fees), -fees);
    assert_eq!(e(|x| x.rebates), -rebates);
    assert_eq!(e(|x| x.margin_used), released);
}

fn ledger(e: &Exchange, m: &Market, a: &UserAccount, p: &UserPosition) -> Ledger {
    Ledger { exchange: *e, market: *m, user_account: *a, user_position: *p }
}

#[test]
fn opening_one_unit_at_100_is_a_taker_trade() {
    let (mut e, mut m, mut a, mut p) = fresh();
    let before = ledger(&e, &m, &a, &p);
    let r = execute_trade(&mut e, &mut m, &mut a, &mut p, UNIT, 100 * UNIT as i128, 9, 1_000);
    assert_eq!(r, Ok(()));
    // taker fee of 0.1 % on a notional of 100
    assert_eq!(e.fees, 100_000_000);
    assert_eq!(m.fees, 100_000_000);
    assert_eq!(a.fees, -100_000_000);
    assert_eq!(p.fees, -100_000_000);
    assert_eq!(e.rebates, 0);
    assert_eq!(p.rebates, 0);
    // inventory
    assert_eq!(p.token_amount, UNIT);
    assert_eq!(m.token_amount, -UNIT);
    // basis decreases by one unit times the price on the user's side
    assert_eq!(p.basis, -100 * UNIT);
    assert_eq!(a.basis, -100 * UNIT);
    assert_eq!(m.basis, 100 * UNIT);
    assert_eq!(e.basis, 100 * UNIT);
    // nothing was closed, nothing is realized
    assert_eq!(p.pnl, 0);
    assert_eq!(a.pnl, 0);
    assert_eq!(m.pnl, 0);
    assert_eq!(e.pnl, 0);
    // margin
    assert_eq!(p.margin_used, -100 * UNIT);
    assert_eq!(a.margin_used, -100 * UNIT);
    assert_eq!(m.margin_used, -100 * UNIT);
    assert_eq!(e.margin_used, -100 * UNIT);
    assert_conserved(&before, &ledger(&e, &m, &a, &p));
}

#[test]
fn closing_the_unit_at_110_realizes_ten() {
    let (mut e, mut m, mut a, mut p) = fresh();
    execute_trade(&mut e, &mut m, &mut a, &mut p, UNIT, 100 * UNIT as i128, 9, 1_000).unwrap();
    let before = ledger(&e, &m, &a, &p);
    let r = execute_trade(&mut e, &mut m, &mut a, &mut p, -UNIT, 110 * UNIT as i128, 9, 2_000);
    assert_eq!(r, Ok(()));
    // full closure
    assert_eq!(p.token_amount, 0);
    assert_eq!(m.token_amount, 0);
    // (100 - 110) * 1 unit
    assert_eq!(p.pnl, -10 * UNIT);
    assert_eq!(a.pnl, -10 * UNIT);
    assert_eq!(m.pnl, 10 * UNIT);
    assert_eq!(e.pnl, 10 * UNIT);
    assert_eq!(p.basis, 0);
    assert_eq!(a.basis, 0);
    assert_eq!(m.basis, 0);
    assert_eq!(e.basis, 0);
    // the closing trade reduces the market's exposure: maker rebate of 0.05 % of 110
    assert_eq!(p.rebates, 55_000_000);
    assert_eq!(a.rebates, 55_000_000);
    assert_eq!(m.rebates, -55_000_000);
    assert_eq!(e.rebates, -55_000_000);
    // the fee of the first trade stays
    assert_eq!(p.fees, -100_000_000);
    assert_eq!(e.fees, 100_000_000);
    assert_eq!(p.margin_used, 0);
    assert_eq!(a.margin_used, 0);
    assert_eq!(m.margin_used, 0);
    assert_eq!(e.margin_used, 0);
    assert_conserved(&before, &ledger(&e, &m, &a, &p));
}

#[test]
fn partial_close_releases_a_proportional_part_of_the_basis() {
    let (mut e, mut m, mut a, mut p) = fresh();
    execute_trade(&mut e, &mut m, &mut a, &mut p, 4 * UNIT, 100 * UNIT as i128, 9, 0).unwrap();
    assert_eq!(p.basis, -400 * UNIT);
    let before = ledger(&e, &m, &a, &p);
    execute_trade(&mut e, &mut m, &mut a, &mut p, -UNIT, 90 * UNIT as i128, 9, 0).unwrap();
    assert_eq!(p.token_amount, 3 * UNIT);
    // a quarter of the basis is released, at the entry price of 100
    assert_eq!(p.basis, -300 * UNIT);
    assert_eq!(p.pnl, 10 * UNIT);
    assert_eq!(m.pnl, -10 * UNIT);
    // margin is marked to the new price
    assert_eq!(p.margin_used, -270 * UNIT);
    assert_eq!(a.margin_used, -270 * UNIT);
    assert_conserved(&before, &ledger(&e, &m, &a, &p));
}

#[test]
fn trade_larger_than_the_position_turns_it_over() {
    let (mut e, mut m, mut a, mut p) = fresh();
    execute_trade(&mut e, &mut m, &mut a, &mut p, UNIT, 100 * UNIT as i128, 9, 0).unwrap();
    let before = ledger(&e, &m, &a, &p);
    execute_trade(&mut e, &mut m, &mut a, &mut p, -3 * UNIT, 110 * UNIT as i128, 9, 0).unwrap();
    assert_eq!(p.token_amount, -2 * UNIT);
    assert_eq!(m.token_amount, 2 * UNIT);
    assert_eq!(p.pnl, -10 * UNIT);
    // 100 released, 220 taken up by the two units that open the short position
    assert_eq!(p.basis, -220 * UNIT);
    assert_eq!(m.basis, 220 * UNIT);
    assert_eq!(p.margin_used, -220 * UNIT);
    // the trade is larger than the inventory: taker
    assert_eq!(p.fees, -100_000_000 - 330_000_000);
    assert_eq!(p.rebates, 0);
    assert_conserved(&before, &ledger(&e, &m, &a, &p));
}

#[test]
fn short_position_is_closed_by_a_purchase() {
    let (mut e, mut m, mut a, mut p) = fresh();
    execute_trade(&mut e, &mut m, &mut a, &mut p, -2 * UNIT, 50 * UNIT as i128, 9, 0).unwrap();
    assert_eq!(p.token_amount, -2 * UNIT);
    assert_eq!(p.basis, -100 * UNIT);
    let before = ledger(&e, &m, &a, &p);
    execute_trade(&mut e, &mut m, &mut a, &mut p, 2 * UNIT, 40 * UNIT as i128, 9, 0).unwrap();
    assert_eq!(p.token_amount, 0);
    assert_eq!(p.basis, 0);
    assert_eq!(p.pnl, 20 * UNIT);
    assert_eq!(e.pnl, -20 * UNIT);
    assert_conserved(&before, &ledger(&e, &m, &a, &p));
}

#[test]
fn trade_of_nothing_only_marks_the_margin() {
    let (mut e, mut m, mut a, mut p) = fresh();
    execute_trade(&mut e, &mut m, &mut a, &mut p, UNIT, 100 * UNIT as i128, 9, 0).unwrap();
    let before = ledger(&e, &m, &a, &p);
    let r = execute_trade(&mut e, &mut m, &mut a, &mut p, 0, 120 * UNIT as i128, 9, 0);
    assert_eq!(r, Ok(()));
    assert_eq!(p.token_amount, before.user_position.token_amount);
    assert_eq!(p.basis, before.user_position.basis);
    assert_eq!(p.pnl, before.user_position.pnl);
    assert_eq!(p.fees, before.user_position.fees);
    assert_eq!(p.rebates, before.user_position.rebates);
    assert_eq!(p.margin_used, -120 * UNIT);
    assert_eq!(a.margin_used, -120 * UNIT);
    assert_eq!(m.margin_used, -120 * UNIT);
    assert_eq!(e.margin_used, -120 * UNIT);
    assert_conserved(&before, &ledger(&e, &m, &a, &p));
}

#[test]
fn trade_of_nothing_can_be_refused() {
    let (mut e, mut m, mut a, mut p) = fresh();
    execute_trade(&mut e, &mut m, &mut a, &mut p, 50 * UNIT, 100 * UNIT as i128, 9, 0).unwrap();
    let before = ledger(&e, &m, &a, &p);
    // the market may use 5000 units; at a price of 101 the position needs 5050
    let r = execute_trade(&mut e, &mut m, &mut a, &mut p, 0, 101 * UNIT as i128, 9, 0);
    assert_eq!(r, Err(KrunchErrors::MarketMarginInsufficient));
    assert_eq!(ledger(&e, &m, &a, &p), before);
}

#[test]
fn exchange_without_margin_refuses_first() {
    let (mut e, mut m, mut a, mut p) = fresh();
    e.market_weight = 50;
    // exchange: 10000 * 0.5 % = 50 units of margin; the trade needs 100
    let before = ledger(&e, &m, &a, &p);
    let r = execute_trade(&mut e, &mut m, &mut a, &mut p, UNIT, 100 * UNIT as i128, 9, 0);
    assert_eq!(r, Err(KrunchErrors::ExchangeMarginInsufficient));
    assert_eq!(ledger(&e, &m, &a, &p), before);
}

#[test]
fn market_without_margin_refuses_second() {
    let (mut e, mut m, mut a, mut p) = fresh();
    m.market_weight = 50;
    a.collateral_value = 0;
    let before = ledger(&e, &m, &a, &p);
    // market and user both lack margin: the market is looked at first
    let r = execute_trade(&mut e, &mut m, &mut a, &mut p, UNIT, 100 * UNIT as i128, 9, 0);
    assert_eq!(r, Err(KrunchErrors::MarketMarginInsufficient));
    assert_eq!(ledger(&e, &m, &a, &p), before);
}

#[test]
fn user_without_margin_is_refused_last() {
    let (mut e, mut m, mut a, mut p) = fresh();
    a.collateral_value = 9 * UNIT;
    let before = ledger(&e, &m, &a, &p);
    // (9 - 0.1 fee) * 10 = 89 < 100
    let r = execute_trade(&mut e, &mut m, &mut a, &mut p, UNIT, 100 * UNIT as i128, 9, 0);
    assert_eq!(r, Err(KrunchErrors::UserMarginInsufficient));
    assert_eq!(ledger(&e, &m, &a, &p), before);
}

#[test]
fn user_margin_uses_the_leverage_of_the_market() {
    let (mut e, mut m, mut a, mut p) = fresh();
    a.collateral_value = 11 * UNIT;
    m.leverage = 100_000;
    e.leverage = 100_000;
    // (11 - 0.1) * 10 = 109 >= 100
    assert_eq!(
        execute_trade(&mut e, &mut m, &mut a, &mut p, UNIT, 100 * UNIT as i128, 9, 0),
        Ok(())
    );
    let (mut e, mut m, mut a, mut p) = fresh();
    a.collateral_value = 11 * UNIT;
    m.leverage = 50_000;
    // (11 - 0.1) * 5 = 54.5 < 100
    assert_eq!(
        execute_trade(&mut e, &mut m, &mut a, &mut p, UNIT, 100 * UNIT as i128, 9, 0),
        Err(KrunchErrors::UserMarginInsufficient)
    );
}

#[test]
fn accepted_trade_leaves_every_scope_with_margin() {
    let (mut e, mut m, mut a, mut p) = fresh();
    let r = execute_trade(&mut e, &mut m, &mut a, &mut p, 7 * UNIT, 100 * UNIT as i128, 9, 0);
    assert_eq!(r, Ok(()));
    assert!(calculate_exchange_balance_available(&e) >= 0);
    assert!(calculate_market_total(&e, &m) >= 0);
    assert!(calculate_user_total(&a, m.leverage) >= 0);
    assert_eq!(calculate_exchange_balance_available(&e), (10_000 - 700) * UNIT as i128);
    assert_eq!(calculate_market_total(&e, &m), (5_000 - 700) * UNIT as i128);
    assert_eq!(
        calculate_user_total(&a, m.leverage),
        (10_000 - 700) * UNIT as i128 - 7 * UNIT as i128
    );
}

#[test]
fn notional_rounds_toward_zero() {
    let (mut e, mut m, mut a, mut p) = fresh();
    m.taker_fee = 0;
    // -7 * 5 / 10 = -3.5
    execute_trade(&mut e, &mut m, &mut a, &mut p, -7, 5, 1, 0).unwrap();
    assert_eq!(p.token_amount, -7);
    assert_eq!(p.basis, -3);
    assert_eq!(p.margin_used, -3);
    assert_eq!(m.basis, 3);
}

#[test]
fn released_basis_rounds_toward_zero() {
    let (mut e, mut m, mut a, mut p) = fresh();
    m.taker_fee = 0;
    m.maker_fee = 0;
    p.token_amount = 3;
    p.basis = -10;
    m.token_amount = -3;
    execute_trade(&mut e, &mut m, &mut a, &mut p, -2, 4, 0, 0).unwrap();
    // 10 * 2 / 3 = 6.66 -> 6 released; value of the closed part 8
    assert_eq!(p.basis, -4);
    assert_eq!(p.pnl, -2);
    assert_eq!(p.token_amount, 1);
}

#[test]
fn test_mode_moves_the_price_by_the_last_digit_of_the_time() {
    let (mut e, mut m, mut a, mut p) = fresh();
    e.test_mode = true;
    execute_trade(&mut e, &mut m, &mut a, &mut p, UNIT, 100 * UNIT as i128, 9, 1_007).unwrap();
    assert_eq!(p.basis, -107 * UNIT);
    assert_eq!(p.margin_used, -107 * UNIT);
    let (mut e, mut m, mut a, mut p) = fresh();
    e.test_mode = true;
    execute_trade(&mut e, &mut m, &mut a, &mut p, UNIT, 100 * UNIT as i128, 9, 1_000).unwrap();
    assert_eq!(p.basis, -100 * UNIT);
    let (mut e, mut m, mut a, mut p) = fresh();
    execute_trade(&mut e, &mut m, &mut a, &mut p, UNIT, 100 * UNIT as i128, 9, 1_007).unwrap();
    assert_eq!(p.basis, -100 * UNIT);
}

#[test]
fn try_execute_trade_agrees_with_execute_trade() {
    let (mut e, mut m, mut a, mut p) = fresh();
    let (mut e_b, mut m_b, mut a_b, mut p_b) = fresh();
    let r = try_execute_trade(&mut e, &mut m, &mut a, &mut p, UNIT, 100 * UNIT as i128, 9, 5);
    let r_b = execute_trade(&mut e_b, &mut m_b, &mut a_b, &mut p_b, UNIT, 100 * UNIT as i128, 9, 5);
    assert_eq!(r, Some(r_b));
    assert_eq!(ledger(&e, &m, &a, &p), ledger(&e_b, &m_b, &a_b, &p_b));
}

#[test]
fn try_execute_trade_reports_what_the_machine_cannot_hold() {
    let (mut e, mut m, mut a, mut p) = fresh();
    let before = ledger(&e, &m, &a, &p);
    // more decimal places than 128 bits have
    assert_eq!(try_execute_trade(&mut e, &mut m, &mut a, &mut p, UNIT, 100, 39, 0), None);
    assert_eq!(ledger(&e, &m, &a, &p), before);
    // a product beyond 128 bits
    assert_eq!(try_execute_trade(&mut e, &mut m, &mut a, &mut p, UNIT, i128::MAX, 9, 0), None);
    assert_eq!(ledger(&e, &m, &a, &p), before);
    // an inventory beyond 64 bits
    p.token_amount = i64::MAX;
    let before = ledger(&e, &m, &a, &p);
    assert_eq!(try_execute_trade(&mut e, &mut m, &mut a, &mut p, 1, 1, 0, 0), None);
    assert_eq!(ledger(&e, &m, &a, &p), before);
    // a basis beyond 64 bits
    let (mut e, mut m, mut a, mut p) = fresh();
    assert_eq!(
        try_execute_trade(&mut e, &mut m, &mut a, &mut p, i64::MAX, 100 * UNIT as i128, 9, 0),
        None
    );
}

#[test]
fn settled_trade_touches_nothing_but_the_books() {
    let (mut e, mut m, mut a, mut p) = fresh();
    let before = ledger(&e, &m, &a, &p);
    execute_trade(&mut e, &mut m, &mut a, &mut p, UNIT, 100 * UNIT as i128, 9, 0).unwrap();
    let mut expected = before;
    expected.exchange.basis = e.basis;
    expected.exchange.fees = e.fees;
    expected.exchange.margin_used = e.margin_used;
    expected.market.token_amount = m.token_amount;
    expected.market.basis = m.basis;
    expected.market.fees = m.fees;
    expected.market.margin_used = m.margin_used;
    expected.user_account.basis = a.basis;
    expected.user_account.fees = a.fees;
    expected.user_account.margin_used = a.margin_used;
    expected.user_position.token_amount = p.token_amount;
    expected.user_position.basis = p.basis;
    expected.user_position.fees = p.fees;
    expected.user_position.margin_used = p.margin_used;
    // owners, indices, terms, collateral, rewards and time stamps are as they were
    assert_eq!(ledger(&e, &m, &a, &p), expected);
}

#[test]
fn books_of_every_scope_add_up_after_many_trades() {
    let mut e = exchange(1_000_000 * UNIT);
    let mut markets = [market(), market()];
    markets[1].market_index = 2;
    markets[1].taker_fee = 25;
    markets[1].maker_fee = 3;
    let mut accounts = [account(100_000 * UNIT), account(100_000 * UNIT)];
    // positions[user][market]
    let mut positions = [[position(), position()], [position(), position()]];
    let trades: [(usize, usize, i64, i128); 9] = [
        (0, 0, 3 * UNIT, 100 * UNIT as i128),
        (1, 0, -2 * UNIT, 101 * UNIT as i128),
        (0, 1, -7 * UNIT, 13 * UNIT as i128 + 7),
        (1, 1, 7 * UNIT + 1, 12 * UNIT as i128),
        (0, 0, -5 * UNIT, 97 * UNIT as i128 + 3),
        (1, 0, 2 * UNIT, 99 * UNIT as i128),
        (1, 1, -3 * UNIT, 14 * UNIT as i128),
        (0, 1, 0, 15 * UNIT as i128),
        (0, 0, 2 * UNIT, 103 * UNIT as i128),
    ];
    for (u, k, amount, price) in trades {
        let before = ledger(&e, &markets[k], &accounts[u], &positions[u][k]);
        let r = execute_trade(
            &mut e,
            &mut markets[k],
            &mut accounts[u],
            &mut positions[u][k],
            amount,
            price,
            9,
            0,
        );
        assert_eq!(r, Ok(()));
        assert_conserved(&before, &ledger(&e, &markets[k], &accounts[u], &positions[u][k]));

        // the exchange is the sum of its markets
        assert_eq!(e.basis, markets[0].basis + markets[1].basis);
        assert_eq!(e.pnl, markets[0].pnl + markets[1].pnl);
        assert_eq!(e.fees, markets[0].fees + markets[1].fees);
        assert_eq!(e.rebates, markets[0].rebates + markets[1].rebates);
        assert_eq!(e.margin_used, markets[0].margin_used + markets[1].margin_used);
        for user in 0..2 {
            // an account is the sum of its positions
            let (p0, p1) = (&positions[user][0], &positions[user][1]);
            assert_eq!(accounts[user].basis, p0.basis + p1.basis);
            assert_eq!(accounts[user].pnl, p0.pnl + p1.pnl);
            assert_eq!(accounts[user].fees, p0.fees + p1.fees);
            assert_eq!(accounts[user].rebates, p0.rebates + p1.rebates);
            assert_eq!(accounts[user].margin_used, p0.margin_used + p1.margin_used);
        }
        for m in 0..2 {
            // a market is the mirror image of the positions in it
            let (p0, p1) = (&positions[0][m], &positions[1][m]);
            assert_eq!(markets[m].token_amount, -(p0.token_amount + p1.token_amount));
            assert_eq!(markets[m].basis, -(p0.basis + p1.basis));
            assert_eq!(markets[m].pnl, -(p0.pnl + p1.pnl));
            assert_eq!(markets[m].fees, -(p0.fees + p1.fees));
            assert_eq!(markets[m].rebates, -(p0.rebates + p1.rebates));
            assert_eq!(markets[m].margin_used, p0.margin_used + p1.margin_used);
        }
    }
    assert_eq!(positions[0][0].token_amount, 0);
    assert_eq!(positions[1][1].token_amount, 4 * UNIT + 1);
}
