use bet_ledger::vault::{
    collect_fees, deposit, execute_bet, initialize_vault, settle_bet, withdraw, BetResult,
    BetStatus, UserAccount, VaultError, COOLDOWN_SECONDS,
};

fn fresh_account() -> UserAccount {
    UserAccount {
        user: 0,
        total_deposited: 0,
        current_balance: 0,
        total_earnings: 0,
        last_deposit: 0,
        last_withdrawal: 0,
    }
}

#[test]
fn initialize_vault_zeroes_totals() {
    let v = initialize_vault(5, "main".to_string(), "MV".to_string());
    assert_eq!(v.authority, 5);
    assert_eq!(v.name, "main");
    assert_eq!(v.symbol, "MV");
    assert_eq!(v.total_deposits, 0);
    assert_eq!(v.total_withdrawals, 0);
    assert_eq!(v.total_earnings, 0);
    assert_eq!(v.total_fees, 0);
    assert!(v.is_active);
}

#[test]
fn first_deposit_claims_the_account() {
    let mut vault = initialize_vault(5, "main".to_string(), "MV".to_string());
    let mut account = fresh_account();
    assert_eq!(deposit(&mut vault, &mut account, 7, 400, 1000), Ok(()));
    assert_eq!(account.user, 7);
    assert_eq!(account.total_deposited, 400);
    assert_eq!(account.current_balance, 400);
    assert_eq!(account.last_deposit, 1000);
    assert_eq!(vault.total_deposits, 400);
}

#[test]
fn second_deposit_accumulates() {
    let mut vault = initialize_vault(5, "main".to_string(), "MV".to_string());
    let mut account = fresh_account();
    deposit(&mut vault, &mut account, 7, 400, 1000).unwrap();
    assert_eq!(deposit(&mut vault, &mut account, 7, 100, 2000), Ok(()));
    assert_eq!(account.total_deposited, 500);
    assert_eq!(account.current_balance, 500);
    assert_eq!(account.last_deposit, 2000);
    assert_eq!(vault.total_deposits, 500);
}

#[test]
fn vault_deposit_overflow_changes_nothing() {
    let mut vault = initialize_vault(5, "main".to_string(), "MV".to_string());
    let mut account = fresh_account();
    deposit(&mut vault, &mut account, 7, u64::MAX, 1000).unwrap();
    assert_eq!(
        deposit(&mut vault, &mut account, 7, 1, 2000),
        Err(VaultError::Overflow)
    );
    assert_eq!(account.current_balance, u64::MAX);
    assert_eq!(account.last_deposit, 1000);
    assert_eq!(vault.total_deposits, u64::MAX);
}

#[test]
fn cooldown_rejects_second_withdrawal_within_window() {
    let mut vault = initialize_vault(5, "main".to_string(), "MV".to_string());
    let mut account = fresh_account();
    let t0 = 10 * COOLDOWN_SECONDS;
    deposit(&mut vault, &mut account, 7, 1000, t0).unwrap();
    assert_eq!(withdraw(&mut vault, &mut account, 100, t0), Ok(()));
    assert_eq!(account.current_balance, 900);
    assert_eq!(account.last_withdrawal, t0);
    let r = withdraw(&mut vault, &mut account, 100, t0 + COOLDOWN_SECONDS - 1);
    assert_eq!(r, Err(VaultError::WithdrawalCooldown));
    assert_eq!(account.current_balance, 900);
    assert_eq!(account.last_withdrawal, t0);
    assert_eq!(vault.total_withdrawals, 100);
}

#[test]
fn withdrawal_allowed_once_window_elapses() {
    let mut vault = initialize_vault(5, "main".to_string(), "MV".to_string());
    let mut account = fresh_account();
    let t0 = 10 * COOLDOWN_SECONDS;
    deposit(&mut vault, &mut account, 7, 1000, t0).unwrap();
    withdraw(&mut vault, &mut account, 100, t0).unwrap();
    let t1 = t0 + COOLDOWN_SECONDS;
    assert_eq!(withdraw(&mut vault, &mut account, 100, t1), Ok(()));
    assert_eq!(account.current_balance, 800);
    assert_eq!(account.last_withdrawal, t1);
    assert_eq!(vault.total_withdrawals, 200);
}

#[test]
fn vault_withdraw_insufficient_balance_rejected() {
    let mut vault = initialize_vault(5, "main".to_string(), "MV".to_string());
    let mut account = fresh_account();
    deposit(&mut vault, &mut account, 7, 50, 10 * COOLDOWN_SECONDS).unwrap();
    assert_eq!(
        withdraw(&mut vault, &mut account, 51, 10 * COOLDOWN_SECONDS),
        Err(VaultError::InsufficientBalance)
    );
    assert_eq!(account.current_balance, 50);
}

#[test]
fn execute_bet_debits_stake_and_opens_record() {
    let mut vault = initialize_vault(5, "main".to_string(), "MV".to_string());
    let mut account = fresh_account();
    deposit(&mut vault, &mut account, 7, 500, 1000).unwrap();
    let record = execute_bet(
        &mut account,
        7,
        "bet-1".to_string(),
        200,
        "momentum".to_string(),
        1500,
    )
    .unwrap();
    assert_eq!(account.current_balance, 300);
    assert_eq!(record.bet_id, "bet-1");
    assert_eq!(record.user, 7);
    assert_eq!(record.strategy_id, "momentum");
    assert_eq!(record.amount, 200);
    assert_eq!(record.status, BetStatus::Pending);
    assert_eq!(record.result, BetResult::Void);
    assert_eq!(record.profit, 0);
    assert_eq!(record.created_at, 1500);
}

#[test]
fn execute_bet_insufficient_balance_rejected() {
    let mut vault = initialize_vault(5, "main".to_string(), "MV".to_string());
    let mut account = fresh_account();
    deposit(&mut vault, &mut account, 7, 100, 1000).unwrap();
    let r = execute_bet(
        &mut account,
        7,
        "bet-1".to_string(),
        101,
        "momentum".to_string(),
        1500,
    );
    assert_eq!(r.unwrap_err(), VaultError::InsufficientBalance);
    assert_eq!(account.current_balance, 100);
}

#[test]
fn settle_with_positive_profit_credits_user() {
    let mut vault = initialize_vault(5, "main".to_string(), "MV".to_string());
    let mut account = fresh_account();
    deposit(&mut vault, &mut account, 7, 500, 1000).unwrap();
    let mut record = execute_bet(
        &mut account,
        7,
        "bet-1".to_string(),
        200,
        "momentum".to_string(),
        1500,
    )
    .unwrap();
    assert_eq!(
        settle_bet(&mut record, &mut account, &mut vault, BetResult::Win, 250, 2000),
        Ok(())
    );
    assert_eq!(account.current_balance, 550);
    assert_eq!(account.total_earnings, 250);
    assert_eq!(vault.total_earnings, 250);
    assert_eq!(record.status, BetStatus::Settled);
    assert_eq!(record.result, BetResult::Win);
    assert_eq!(record.profit, 250);
    assert_eq!(record.settled_at, 2000);
}

#[test]
fn settle_with_negative_profit_charges_nothing() {
    let mut vault = initialize_vault(5, "main".to_string(), "MV".to_string());
    let mut account = fresh_account();
    deposit(&mut vault, &mut account, 7, 500, 1000).unwrap();
    let mut record = execute_bet(
        &mut account,
        7,
        "bet-1".to_string(),
        200,
        "momentum".to_string(),
        1500,
    )
    .unwrap();
    assert_eq!(
        settle_bet(&mut record, &mut account, &mut vault, BetResult::Loss, -300, 2000),
        Ok(())
    );
    assert_eq!(account.current_balance, 300);
    assert_eq!(account.total_earnings, 0);
    assert_eq!(vault.total_earnings, 0);
    assert_eq!(record.status, BetStatus::Settled);
    assert_eq!(record.profit, -300);
}

#[test]
fn settle_twice_rejected() {
    let mut vault = initialize_vault(5, "main".to_string(), "MV".to_string());
    let mut account = fresh_account();
    deposit(&mut vault, &mut account, 7, 500, 1000).unwrap();
    let mut record = execute_bet(
        &mut account,
        7,
        "bet-1".to_string(),
        200,
        "momentum".to_string(),
        1500,
    )
    .unwrap();
    settle_bet(&mut record, &mut account, &mut vault, BetResult::Win, 50, 2000).unwrap();
    let r = settle_bet(&mut record, &mut account, &mut vault, BetResult::Win, 50, 2100);
    assert_eq!(r, Err(VaultError::BetAlreadySettled));
    assert_eq!(account.current_balance, 350);
    assert_eq!(record.settled_at, 2000);
}

#[test]
fn settle_overflow_rejected() {
    let mut vault = initialize_vault(5, "main".to_string(), "MV".to_string());
    let mut account = fresh_account();
    deposit(&mut vault, &mut account, 7, u64::MAX, 1000).unwrap();
    let mut record = execute_bet(
        &mut account,
        7,
        "bet-1".to_string(),
        0,
        "momentum".to_string(),
        1500,
    )
    .unwrap();
    let r = settle_bet(&mut record, &mut account, &mut vault, BetResult::Win, 1, 2000);
    assert_eq!(r, Err(VaultError::Overflow));
    assert_eq!(record.status, BetStatus::Pending);
    assert_eq!(account.current_balance, u64::MAX);
}

#[test]
fn collect_fees_requires_the_authority() {
    let mut vault = initialize_vault(5, "main".to_string(), "MV".to_string());
    assert_eq!(collect_fees(&mut vault, 6, 100), Err(VaultError::Unauthorized));
    assert_eq!(vault.total_fees, 0);
    assert_eq!(collect_fees(&mut vault, 5, 100), Ok(()));
    assert_eq!(vault.total_fees, 100);
}
