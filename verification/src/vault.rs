//! The vault engine: a parallel ledger with deposit/withdrawal cooldowns,
//! strategy-tagged bets and fee extraction.
//!
//! The vault keeps aggregate totals, one account record per user, and one
//! record per executed bet.  A withdrawal is permitted only after a full
//! cooldown period has elapsed since the user's last withdrawal.  Bet
//! settlement credits a positive profit and records — but never charges —
//! a non-positive one: the stake was already removed when the bet was
//! executed, and losses beyond it are never charged to the user.
//!
//! A user account is created lazily by the first deposit; an account whose
//! `user` key is still the default zero identity counts as not yet created.

use vstd::prelude::*;
use crate::ledger;

verus! {

/// Seconds that must elapse between two withdrawals by the same user.
pub const COOLDOWN_SECONDS: i64 = 86400;

/// Outcome of a settled vault bet; `Void` also stands in until settlement.
#[derive(Clone, Copy, PartialEq, Eq, Structural, Debug)]
pub enum BetResult {
    Win,
    Loss,
    Draw,
    Void,
}

/// Settlement state of a vault bet.
#[derive(Clone, Copy, PartialEq, Eq, Structural, Debug)]
pub enum BetStatus {
    Pending,
    Settled,
    Cancelled,
}

/// Validation failures of the vault's transitions.  Every error is
/// detected before any record is mutated.
#[derive(Clone, Copy, PartialEq, Eq, Structural, Debug)]
pub enum VaultError {
    InsufficientBalance,
    WithdrawalCooldown,
    BetAlreadySettled,
    Unauthorized,
    /// An addition would exceed the representable range of a counter.
    Overflow,
}

/// The vault's aggregate ledger.
#[derive(Clone, Debug)]
pub struct Vault {
    /// Identity allowed to collect fees.
    pub authority: u64,
    pub name: String,
    pub symbol: String,
    /// Sum of all deposits ever made.
    pub total_deposits: u64,
    /// Sum of all withdrawals ever paid out.
    pub total_withdrawals: u64,
    /// Sum of all positive settlement profits ever credited.
    pub total_earnings: u64,
    /// Sum of all fees ever collected by the authority.
    pub total_fees: u64,
    pub is_active: bool,
}

/// One user's position in the vault.
#[derive(Clone, Copy, PartialEq, Eq, Structural, Debug)]
pub struct UserAccount {
    /// Identity of the owner; zero means the record is not yet created.
    pub user: u64,
    pub total_deposited: u64,
    pub current_balance: u64,
    pub total_earnings: u64,
    pub last_deposit: i64,
    pub last_withdrawal: i64,
}

/// One vault-originated bet.  Created `Pending` by `execute_bet` and
/// closed exactly once by `settle_bet`, which fills `result`, `profit`
/// and `settled_at`.
#[derive(Clone, Debug)]
pub struct BetRecord {
    /// Caller-supplied key; the host's registry keeps it unique.
    pub bet_id: String,
    /// Identity of the betting user.
    pub user: u64,
    pub strategy_id: String,
    /// The stake, debited from the user at execution.
    pub amount: u64,
    pub result: BetResult,
    /// Signed settlement profit, recorded verbatim.
    pub profit: i64,
    pub status: BetStatus,
    pub created_at: i64,
    pub settled_at: i64,
}

/// Creates the vault record with every total at zero.
pub fn initialize_vault(authority: u64, vault_name: String, vault_symbol: String) -> (v: Vault)
    ensures
        v == (Vault {
            authority,
            name: vault_name,
            symbol: vault_symbol,
            total_deposits: 0,
            total_withdrawals: 0,
            total_earnings: 0,
            total_fees: 0,
            is_active: true,
        }),
{
    Vault {
        authority,
        name: vault_name,
        symbol: vault_symbol,
        total_deposits: 0,
        total_withdrawals: 0,
        total_earnings: 0,
        total_fees: 0,
        is_active: true,
    }
}

/// An account record that has not been created yet.
pub open spec fn empty_account() -> UserAccount {
    UserAccount {
        user: 0,
        total_deposited: 0,
        current_balance: 0,
        total_earnings: 0,
        last_deposit: 0,
        last_withdrawal: 0,
    }
}

/// The vault deposit transition.  A first deposit claims the account
/// record for `user`; later deposits add to its totals.  The deposit
/// fails only with `Overflow`, exactly when a counter would not fit, and
/// then changes nothing.
pub open spec fn deposit_spec(vault: Vault, account: UserAccount, user: u64, amount: u64, now: i64) -> (
    Vault,
    UserAccount,
    Result<(), VaultError>,
) {
    let fresh = account.user == 0;
    if vault.total_deposits + amount > u64::MAX || (!fresh && (account.total_deposited + amount
        > u64::MAX || account.current_balance + amount > u64::MAX)) {
        (vault, account, Err(VaultError::Overflow))
    } else {
        (
            Vault { total_deposits: (vault.total_deposits + amount) as u64, ..vault },
            if fresh {
                UserAccount {
                    user,
                    total_deposited: amount,
                    current_balance: amount,
                    last_deposit: now,
                    ..account
                }
            } else {
                UserAccount {
                    total_deposited: (account.total_deposited + amount) as u64,
                    current_balance: (account.current_balance + amount) as u64,
                    last_deposit: now,
                    ..account
                }
            },
            Ok(()),
        )
    }
}

/// Credits a deposit of `amount` into `user`'s vault account, creating
/// the account on first use.  The host calls this only after the matching
/// custodial transfer into vault custody has succeeded; `now` is the
/// transition's single clock reading.
pub fn deposit(vault: &mut Vault, account: &mut UserAccount, user: u64, amount: u64, now: i64) -> (r:
    Result<(), VaultError>)
    ensures
        (*final(vault), *final(account), r) == deposit_spec(
            *old(vault),
            *old(account),
            user,
            amount,
            now,
        ),
{
    let fresh = account.user == 0;
    if amount > u64::MAX - vault.total_deposits {
        return Err(VaultError::Overflow);
    }
    if !fresh && (amount > u64::MAX - account.total_deposited || amount > u64::MAX
        - account.current_balance) {
        return Err(VaultError::Overflow);
    }
    ledger::apply_credit(&mut vault.total_deposits, amount);
    if fresh {
        account.user = user;
        account.total_deposited = amount;
        account.current_balance = amount;
    } else {
        ledger::apply_credit(&mut account.total_deposited, amount);
        ledger::apply_credit(&mut account.current_balance, amount);
    }
    account.last_deposit = now;
    Ok(())
}

/// The vault withdrawal transition.  It fails, changing nothing, with
/// `InsufficientBalance` when the balance does not cover `amount`, else
/// with `WithdrawalCooldown` when less than a full cooldown period has
/// elapsed since the user's last withdrawal, else with `Overflow` when
/// the withdrawal total would not fit.  On success the balance is
/// debited, the total credited, and the withdrawal time recorded.
pub open spec fn withdraw_spec(vault: Vault, account: UserAccount, amount: u64, now: i64) -> (
    Vault,
    UserAccount,
    Result<(), VaultError>,
) {
    if account.current_balance < amount {
        (vault, account, Err(VaultError::InsufficientBalance))
    } else if now - account.last_withdrawal < COOLDOWN_SECONDS {
        (vault, account, Err(VaultError::WithdrawalCooldown))
    } else if vault.total_withdrawals + amount > u64::MAX {
        (vault, account, Err(VaultError::Overflow))
    } else {
        (
            Vault { total_withdrawals: (vault.total_withdrawals + amount) as u64, ..vault },
            UserAccount {
                current_balance: (account.current_balance - amount) as u64,
                last_withdrawal: now,
                ..account
            },
            Ok(()),
        )
    }
}

/// Debits a withdrawal of `amount` from the user's vault account.  The
/// host performs the matching custodial transfer out of vault custody and
/// aborts the whole transition if that transfer fails.
pub fn withdraw(vault: &mut Vault, account: &mut UserAccount, amount: u64, now: i64) -> (r: Result<
    (),
    VaultError,
>)
    ensures
        (*final(vault), *final(account), r) == withdraw_spec(
            *old(vault),
            *old(account),
            amount,
            now,
        ),
{
    if account.current_balance < amount {
        return Err(VaultError::InsufficientBalance);
    }
    if (now as i128) - (account.last_withdrawal as i128) < COOLDOWN_SECONDS as i128 {
        return Err(VaultError::WithdrawalCooldown);
    }
    if amount > u64::MAX - vault.total_withdrawals {
        return Err(VaultError::Overflow);
    }
    ledger::apply_credit(&mut vault.total_withdrawals, amount);
    ledger::apply_debit(&mut account.current_balance, amount);
    account.last_withdrawal = now;
    Ok(())
}

/// The bet-execution transition.  It fails with `InsufficientBalance`,
/// changing nothing, when the stake exceeds the balance; otherwise the
/// stake is debited immediately and a `Pending` record opens, carrying
/// `Void` as its result until settlement.
pub open spec fn execute_bet_spec(
    account: UserAccount,
    user: u64,
    bet_id: String,
    amount: u64,
    strategy_id: String,
    now: i64,
) -> (UserAccount, Result<BetRecord, VaultError>) {
    if account.current_balance < amount {
        (account, Err(VaultError::InsufficientBalance))
    } else {
        (
            UserAccount { current_balance: (account.current_balance - amount) as u64, ..account },
            Ok(
                BetRecord {
                    bet_id,
                    user,
                    strategy_id,
                    amount,
                    result: BetResult::Void,
                    profit: 0,
                    status: BetStatus::Pending,
                    created_at: now,
                    settled_at: 0,
                },
            ),
        )
    }
}

/// Executes a bet of `amount` under `strategy_id` for `user`, debiting
/// the stake and returning the new `Pending` record keyed by the
/// caller-supplied `bet_id` (whose uniqueness the host's registry
/// enforces).
pub fn execute_bet(
    account: &mut UserAccount,
    user: u64,
    bet_id: String,
    amount: u64,
    strategy_id: String,
    now: i64,
) -> (r: Result<BetRecord, VaultError>)
    ensures
        (*final(account), r) == execute_bet_spec(
            *old(account),
            user,
            bet_id,
            amount,
            strategy_id,
            now,
        ),
{
    if account.current_balance < amount {
        return Err(VaultError::InsufficientBalance);
    }
    ledger::apply_debit(&mut account.current_balance, amount);
    Ok(
        BetRecord {
            bet_id,
            user,
            strategy_id,
            amount,
            result: BetResult::Void,
            profit: 0,
            status: BetStatus::Pending,
            created_at: now,
            settled_at: 0,
        },
    )
}

/// The vault settlement transition.  A record that is not `Pending` is
/// rejected with `BetAlreadySettled` and nothing changes; `Overflow`
/// rejects a credit that would not fit.  Otherwise the record becomes
/// `Settled` with `result` and `profit` recorded, and a positive profit —
/// and only a positive one — is credited to the user and counted in both
/// earnings totals.
pub open spec fn settle_bet_spec(
    record: BetRecord,
    account: UserAccount,
    vault: Vault,
    result: BetResult,
    profit: i64,
    now: i64,
) -> (BetRecord, UserAccount, Vault, Result<(), VaultError>) {
    if record.status != BetStatus::Pending {
        (record, account, vault, Err(VaultError::BetAlreadySettled))
    } else if profit > 0 && (account.current_balance + profit > u64::MAX
        || account.total_earnings + profit > u64::MAX || vault.total_earnings + profit
        > u64::MAX) {
        (record, account, vault, Err(VaultError::Overflow))
    } else {
        (
            BetRecord { result, profit, status: BetStatus::Settled, settled_at: now, ..record },
            if profit > 0 {
                UserAccount {
                    current_balance: (account.current_balance + profit) as u64,
                    total_earnings: (account.total_earnings + profit) as u64,
                    ..account
                }
            } else {
                account
            },
            if profit > 0 {
                Vault { total_earnings: (vault.total_earnings + profit) as u64, ..vault }
            } else {
                vault
            },
            Ok(()),
        )
    }
}

/// Settles a `Pending` vault bet with the given outcome and signed
/// profit, supplied verbatim by the settlement authority the host has
/// already checked.  `now` becomes the settlement time.
pub fn settle_bet(
    record: &mut BetRecord,
    account: &mut UserAccount,
    vault: &mut Vault,
    result: BetResult,
    profit: i64,
    now: i64,
) -> (r: Result<(), VaultError>)
    ensures
        (*final(record), *final(account), *final(vault), r) == settle_bet_spec(
            *old(record),
            *old(account),
            *old(vault),
            result,
            profit,
            now,
        ),
{
    if record.status != BetStatus::Pending {
        return Err(VaultError::BetAlreadySettled);
    }
    if profit > 0 {
        let gain = profit as u64;
        if gain > u64::MAX - account.current_balance || gain > u64::MAX - account.total_earnings
            || gain > u64::MAX - vault.total_earnings {
            return Err(VaultError::Overflow);
        }
        ledger::apply_credit(&mut account.current_balance, gain);
        ledger::apply_credit(&mut account.total_earnings, gain);
        ledger::apply_credit(&mut vault.total_earnings, gain);
    }
    record.result = result;
    record.profit = profit;
    record.status = BetStatus::Settled;
    record.settled_at = now;
    Ok(())
}

/// The fee-collection transition.  It fails, changing nothing, with
/// `Unauthorized` when the caller is not the vault's configured
/// authority, else with `Overflow` when the fee total would not fit;
/// otherwise the collected amount is added to the fee total.
pub open spec fn collect_fees_spec(vault: Vault, authority: u64, amount: u64) -> (
    Vault,
    Result<(), VaultError>,
) {
    if authority != vault.authority {
        (vault, Err(VaultError::Unauthorized))
    } else if vault.total_fees + amount > u64::MAX {
        (vault, Err(VaultError::Overflow))
    } else {
        (Vault { total_fees: (vault.total_fees + amount) as u64, ..vault }, Ok(()))
    }
}

/// Records a fee collection of `amount` by `authority`.  The host
/// performs the matching custodial transfer from vault custody to the
/// authority and aborts the whole transition if that transfer fails.
pub fn collect_fees(vault: &mut Vault, authority: u64, amount: u64) -> (r: Result<(), VaultError>)
    ensures
        (*final(vault), r) == collect_fees_spec(*old(vault), authority, amount),
{
    if authority != vault.authority {
        return Err(VaultError::Unauthorized);
    }
    if amount > u64::MAX - vault.total_fees {
        return Err(VaultError::Overflow);
    }
    ledger::apply_credit(&mut vault.total_fees, amount);
    Ok(())
}

/// Cooldown enforcement, first half: after a successful withdrawal, a
/// second withdrawal strictly within the cooldown window is rejected and
/// changes nothing; whenever the balance covers it, the rejection is
/// `WithdrawalCooldown` itself.
pub proof fn lemma_withdrawal_cooldown_rejected(
    vault: Vault,
    account: UserAccount,
    first_amount: u64,
    second_amount: u64,
    t1: i64,
    t2: i64,
)
    requires
        withdraw_spec(vault, account, first_amount, t1).2 is Ok,
        t2 - t1 < COOLDOWN_SECONDS,
    ensures
        ({
            let (vault1, account1, _) = withdraw_spec(vault, account, first_amount, t1);
            let (vault2, account2, second) = withdraw_spec(vault1, account1, second_amount, t2);
            vault2 == vault1 && account2 == account1 && second is Err && (second_amount
                <= account1.current_balance ==> second == Err::<(), VaultError>(
                VaultError::WithdrawalCooldown,
            ))
        }),
{
}

/// Cooldown enforcement, second half: after a successful withdrawal, a
/// second withdrawal at or past the end of the cooldown window succeeds,
/// provided the remaining balance covers it and the withdrawal total
/// still fits.
pub proof fn lemma_withdrawal_after_cooldown_accepted(
    vault: Vault,
    account: UserAccount,
    first_amount: u64,
    second_amount: u64,
    t1: i64,
    t2: i64,
)
    requires
        withdraw_spec(vault, account, first_amount, t1).2 is Ok,
        t2 - t1 >= COOLDOWN_SECONDS,
        second_amount <= withdraw_spec(vault, account, first_amount, t1).1.current_balance,
        withdraw_spec(vault, account, first_amount, t1).0.total_withdrawals + second_amount
            <= u64::MAX,
    ensures
        ({
            let (vault1, account1, _) = withdraw_spec(vault, account, first_amount, t1);
            withdraw_spec(vault1, account1, second_amount, t2).2 is Ok
        }),
{
}

} // verus!
