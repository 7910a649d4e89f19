use bet_ledger::pool::{
    invest_in_etf, redeem_from_etf, redemption_amount, ETFStatus, InvestmentStatus, ETF,
};
use bet_ledger::predict::{SportPredictError, User};

fn active_user(balance: u64) -> User {
    User {
        authority: 7,
        username: "alice".to_string(),
        balance,
        total_bets: 0,
        total_wins: 0,
        total_volume: 0,
        is_active: true,
    }
}

fn open_pool(min_investment: u64, max_investment: u64) -> ETF {
    ETF {
        manager: 9,
        name: "growth".to_string(),
        description: "steady".to_string(),
        strategy: "balanced".to_string(),
        risk_level: 2,
        min_investment,
        max_investment,
        annual_return: 750,
        management_fee: 100,
        performance_fee: 200,
        status: ETFStatus::Active,
        total_value: 0,
        total_investors: 0,
        current_return: 0,
        created_at: 50,
    }
}

#[test]
fn scenario_redemption_formula() {
    // total_value 1000 over 2 investors prices one share at 500, so 100
    // shares redeem for exactly 50000 — the head-count formula, verbatim.
    assert_eq!(redemption_amount(100, 1000, 2), Some(50000));
}

#[test]
fn redemption_truncates_toward_zero() {
    assert_eq!(redemption_amount(1, 5, 2), Some(2));
    assert_eq!(redemption_amount(3, 10, 4), Some(7));
    assert_eq!(redemption_amount(0, 1000, 3), Some(0));
}

#[test]
fn redemption_without_investors_has_no_price() {
    assert_eq!(redemption_amount(100, 1000, 0), None);
}

#[test]
fn invest_moves_amount_into_pool() {
    let mut user = active_user(1000);
    let mut etf = open_pool(100, 500);
    let investment = invest_in_etf(&mut user, &mut etf, 3, 300, 60).unwrap();
    assert_eq!(user.balance, 700);
    assert_eq!(etf.total_value, 300);
    assert_eq!(etf.total_investors, 1);
    assert_eq!(investment.user, 7);
    assert_eq!(investment.etf, 3);
    assert_eq!(investment.amount, 300);
    assert_eq!(investment.shares, 300);
    assert_eq!(investment.status, InvestmentStatus::Active);
    assert_eq!(investment.created_at, 60);
}

#[test]
fn invest_below_minimum_rejected() {
    let mut user = active_user(1000);
    let mut etf = open_pool(100, 500);
    let r = invest_in_etf(&mut user, &mut etf, 3, 99, 60);
    assert_eq!(r.unwrap_err(), SportPredictError::InvestmentTooSmall);
    assert_eq!(user.balance, 1000);
    assert_eq!(etf.total_value, 0);
    assert_eq!(etf.total_investors, 0);
}

#[test]
fn invest_above_maximum_rejected() {
    let mut user = active_user(1000);
    let mut etf = open_pool(100, 500);
    let r = invest_in_etf(&mut user, &mut etf, 3, 501, 60);
    assert_eq!(r.unwrap_err(), SportPredictError::InvestmentTooLarge);
    assert_eq!(user.balance, 1000);
    assert_eq!(etf.total_value, 0);
    assert_eq!(etf.total_investors, 0);
}

#[test]
fn invest_in_paused_pool_rejected() {
    let mut user = active_user(1000);
    let mut etf = open_pool(100, 500);
    etf.status = ETFStatus::Paused;
    let r = invest_in_etf(&mut user, &mut etf, 3, 300, 60);
    assert_eq!(r.unwrap_err(), SportPredictError::ETFInactive);
    assert_eq!(user.balance, 1000);
}

#[test]
fn invest_insufficient_balance_rejected() {
    let mut user = active_user(200);
    let mut etf = open_pool(100, 500);
    let r = invest_in_etf(&mut user, &mut etf, 3, 300, 60);
    assert_eq!(r.unwrap_err(), SportPredictError::InsufficientBalance);
}

#[test]
fn redeem_partial_keeps_investment_active() {
    let mut user = active_user(200);
    let mut etf = open_pool(100, 500);
    let mut investment = invest_in_etf(&mut user, &mut etf, 3, 200, 60).unwrap();
    // One investor: 50 shares redeem for 50 * (200 / 1) = 10000, which the
    // pool cannot cover; use a second investor to keep the numbers small.
    let mut other = active_user(200);
    other.authority = 8;
    invest_in_etf(&mut other, &mut etf, 3, 200, 61).unwrap();
    assert_eq!(etf.total_value, 400);
    assert_eq!(etf.total_investors, 2);
    // 1 share redeems for floor(1 * 400 / 2) = 200.
    assert_eq!(redeem_from_etf(&mut user, &mut etf, &mut investment, 1), Ok(()));
    assert_eq!(user.balance, 200);
    assert_eq!(etf.total_value, 200);
    assert_eq!(etf.total_investors, 2);
    assert_eq!(investment.shares, 199);
    assert_eq!(investment.status, InvestmentStatus::Active);
}

#[test]
fn redeem_all_shares_closes_investment() {
    let mut user = active_user(2);
    let mut etf = open_pool(1, 500);
    let mut investment = invest_in_etf(&mut user, &mut etf, 3, 2, 60).unwrap();
    let mut other = active_user(500);
    other.authority = 8;
    invest_in_etf(&mut other, &mut etf, 3, 500, 61).unwrap();
    // 2 shares redeem for floor(2 * 502 / 2) = 502.
    assert_eq!(redeem_from_etf(&mut user, &mut etf, &mut investment, 2), Ok(()));
    assert_eq!(user.balance, 502);
    assert_eq!(etf.total_value, 0);
    assert_eq!(etf.total_investors, 1);
    assert_eq!(investment.shares, 0);
    assert_eq!(investment.status, InvestmentStatus::Redeemed);
}

#[test]
fn redeem_value_beyond_pool_rejected() {
    // The head-count price can value shares far beyond the pool's worth;
    // the pool then refuses to go below zero rather than pay.
    let mut user = active_user(1000);
    let mut etf = open_pool(100, 1000);
    let mut investment = invest_in_etf(&mut user, &mut etf, 3, 1000, 60).unwrap();
    etf.total_investors = 2;
    // 100 shares priced at floor(100 * 1000 / 2) = 50000 > 1000.
    let r = redeem_from_etf(&mut user, &mut etf, &mut investment, 100);
    assert_eq!(r.unwrap_err(), SportPredictError::Underflow);
    assert_eq!(etf.total_value, 1000);
    assert_eq!(investment.shares, 1000);
    assert_eq!(investment.status, InvestmentStatus::Active);
}

#[test]
fn redeem_more_shares_than_held_rejected() {
    let mut user = active_user(200);
    let mut etf = open_pool(100, 500);
    let mut investment = invest_in_etf(&mut user, &mut etf, 3, 200, 60).unwrap();
    let r = redeem_from_etf(&mut user, &mut etf, &mut investment, 201);
    assert_eq!(r.unwrap_err(), SportPredictError::InsufficientShares);
    assert_eq!(investment.shares, 200);
}

#[test]
fn redeem_from_closed_investment_rejected() {
    let mut user = active_user(200);
    let mut etf = open_pool(100, 500);
    let mut investment = invest_in_etf(&mut user, &mut etf, 3, 200, 60).unwrap();
    investment.status = InvestmentStatus::Cancelled;
    let r = redeem_from_etf(&mut user, &mut etf, &mut investment, 1);
    assert_eq!(r.unwrap_err(), SportPredictError::InvestmentInactive);
}

#[test]
fn redeem_from_empty_headcount_rejected() {
    let mut user = active_user(0);
    let mut etf = open_pool(100, 500);
    let investment = invest_in_etf(&mut user, &mut etf, 3, 0, 60);
    // An investment cannot be placed below the minimum; craft the record.
    assert!(investment.is_err());
    let mut held = bet_ledger::pool::Investment {
        user: 7,
        etf: 3,
        amount: 100,
        shares: 100,
        status: InvestmentStatus::Active,
        created_at: 60,
    };
    etf.total_investors = 0;
    let r = redeem_from_etf(&mut user, &mut etf, &mut held, 10);
    assert_eq!(r.unwrap_err(), SportPredictError::Overflow);
    assert_eq!(held.shares, 100);
}
