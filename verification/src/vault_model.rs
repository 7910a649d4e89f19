//! A whole-system model of the vault and the conservation laws that hold
//! over it.
//!
//! The executable transitions act on the two or three records a single
//! call touches.  To state what a whole *sequence* of calls does to the
//! vault, this module models the complete system — the vault totals, every
//! user account and every bet record — as one value, applies the very same
//! transition functions to it, and proves two laws by induction:
//!
//! * an accounting identity that holds for every admissible sequence of
//!   operations: balances plus the stakes of all bets ever executed equal
//!   deposits minus withdrawals plus credited earnings; and
//! * conservation in the narrower bookkeeping sense — balances plus
//!   pending stakes equal deposits minus withdrawals minus fees — which
//!   holds as long as every settlement credits back exactly its stake and
//!   no value is removed as fees.  A settlement whose profit differs from
//!   its stake (a loss, or a win above the stake) deliberately creates or
//!   destroys user-facing value against vault custody and is exactly the
//!   case the narrow equation excludes.
//!
//! Operations name their records by position; an out-of-range or
//! mismatched operation is a no-op, as the host would never have loaded
//! such a record set.  A failed transition leaves the state unchanged, so
//! both laws hold after failed calls too.

use vstd::prelude::*;
use crate::vault::{
    BetRecord, BetResult, BetStatus, UserAccount, Vault, VaultError, collect_fees_spec,
    deposit_spec, empty_account, execute_bet_spec, settle_bet_spec, withdraw_spec,
};

verus! {

/// The complete state of one vault subsystem.
pub struct VaultHistory {
    pub vault: Vault,
    /// Every user account, in creation order.
    pub users: Seq<UserAccount>,
    /// Every bet record ever executed, in creation order.
    pub bets: Seq<BetRecord>,
}

/// One invocation of a vault transition, naming its records by position.
/// A `Deposit` aimed one past the end of the accounts creates the account,
/// as the host's lazy account initialization does.
pub enum VaultOp {
    Deposit { account: int, user: u64, amount: u64, now: i64 },
    Withdraw { account: int, amount: u64, now: i64 },
    ExecuteBet { account: int, user: u64, bet_id: String, amount: u64, strategy_id: String, now: i64 },
    SettleBet { bet: int, account: int, result: BetResult, profit: i64, now: i64 },
    CollectFees { authority: u64, amount: u64 },
}

/// Sum of `f` over a sequence.
pub open spec fn sum_by<T>(s: Seq<T>, f: spec_fn(T) -> int) -> int
    decreases s.len(),
{
    if s.len() == 0 {
        0
    } else {
        sum_by(s.drop_last(), f) + f(s.last())
    }
}

pub proof fn lemma_sum_by_push<T>(s: Seq<T>, f: spec_fn(T) -> int, x: T)
    ensures
        sum_by(s.push(x), f) == sum_by(s, f) + f(x),
{
    assert(s.push(x).drop_last() =~= s);
}

pub proof fn lemma_sum_by_update<T>(s: Seq<T>, f: spec_fn(T) -> int, i: int, x: T)
    requires
        0 <= i < s.len(),
    ensures
        sum_by(s.update(i, x), f) == sum_by(s, f) - f(s[i]) + f(x),
    decreases s.len(),
{
    if i == s.len() - 1 {
        assert(s.update(i, x).drop_last() =~= s.drop_last());
        assert(s.update(i, x).last() == x);
    } else {
        assert(s.update(i, x).drop_last() =~= s.drop_last().update(i, x));
        assert(s.update(i, x).last() == s.last());
        lemma_sum_by_update(s.drop_last(), f, i, x);
    }
}

/// The spendable balance of one account.
pub open spec fn account_balance(a: UserAccount) -> int {
    a.current_balance as int
}

/// The stake of a bet while it awaits settlement, zero afterwards.
pub open spec fn stake_if_pending(b: BetRecord) -> int {
    if b.status == BetStatus::Pending {
        b.amount as int
    } else {
        0
    }
}

/// The stake of a bet once settled, zero before.
pub open spec fn stake_if_settled(b: BetRecord) -> int {
    if b.status == BetStatus::Settled {
        b.amount as int
    } else {
        0
    }
}

/// Sum of all user balances.
pub open spec fn balance_total(s: VaultHistory) -> int {
    sum_by(s.users, |a: UserAccount| account_balance(a))
}

/// Sum of the stakes held in pending bets.
pub open spec fn pending_stakes(s: VaultHistory) -> int {
    sum_by(s.bets, |b: BetRecord| stake_if_pending(b))
}

/// Sum of the stakes of settled bets.
pub open spec fn settled_stakes(s: VaultHistory) -> int {
    sum_by(s.bets, |b: BetRecord| stake_if_settled(b))
}

/// The accounting identity: user-facing value — balances plus the stakes
/// of every bet ever executed, pending or settled — equals deposits minus
/// withdrawals plus credited earnings.
pub open spec fn accounted(s: VaultHistory) -> bool {
    balance_total(s) + pending_stakes(s) + settled_stakes(s) == s.vault.total_deposits
        - s.vault.total_withdrawals + s.vault.total_earnings
}

/// Conservation in the narrow sense: balances plus pending stakes equal
/// deposits minus withdrawals minus fees.
pub open spec fn conserved(s: VaultHistory) -> bool {
    balance_total(s) + pending_stakes(s) == s.vault.total_deposits - s.vault.total_withdrawals
        - s.vault.total_fees
}

/// Structural facts the transitions maintain: an unclaimed account (key
/// zero) holds no balance, and every bet names a real user.
pub open spec fn accounts_wf(s: VaultHistory) -> bool {
    &&& forall|i: int|
        0 <= i < s.users.len() ==> (s.users[i].user == 0 ==> s.users[i].current_balance == 0)
    &&& forall|b: int| 0 <= b < s.bets.len() ==> s.bets[b].user != 0
}

/// An operation the host could issue: callers are authenticated, so the
/// zero (unset) identity never signs a deposit or a bet.
pub open spec fn op_wf(op: VaultOp) -> bool {
    match op {
        VaultOp::Deposit { user, .. } => user != 0,
        VaultOp::ExecuteBet { user, .. } => user != 0,
        _ => true,
    }
}

/// A fresh vault subsystem: zero totals and no records yet.
pub open spec fn is_initial(s: VaultHistory) -> bool {
    &&& s.vault.total_deposits == 0
    &&& s.vault.total_withdrawals == 0
    &&& s.vault.total_earnings == 0
    &&& s.vault.total_fees == 0
    &&& s.users.len() == 0
    &&& s.bets.len() == 0
}

/// A deposit applied to the account at `i`.
pub open spec fn apply_deposit(s: VaultHistory, i: int, user: u64, amount: u64, now: i64) -> VaultHistory
    recommends
        0 <= i < s.users.len(),
{
    let (vault2, account2, r) = deposit_spec(s.vault, s.users[i], user, amount, now);
    VaultHistory { vault: vault2, users: s.users.update(i, account2), ..s }
}

/// One transition of the whole system.  Failed transitions, like
/// out-of-range operations, leave the state unchanged.
pub open spec fn apply_op(s: VaultHistory, op: VaultOp) -> VaultHistory {
    match op {
        VaultOp::Deposit { account, user, amount, now } => {
            if account == s.users.len() {
                apply_deposit(
                    VaultHistory { users: s.users.push(empty_account()), ..s },
                    account,
                    user,
                    amount,
                    now,
                )
            } else if 0 <= account < s.users.len() {
                apply_deposit(s, account, user, amount, now)
            } else {
                s
            }
        },
        VaultOp::Withdraw { account, amount, now } => {
            if 0 <= account < s.users.len() {
                let (vault2, account2, r) = withdraw_spec(s.vault, s.users[account], amount, now);
                VaultHistory { vault: vault2, users: s.users.update(account, account2), ..s }
            } else {
                s
            }
        },
        VaultOp::ExecuteBet { account, user, bet_id, amount, strategy_id, now } => {
            if 0 <= account < s.users.len() {
                let (account2, r) = execute_bet_spec(
                    s.users[account],
                    user,
                    bet_id,
                    amount,
                    strategy_id,
                    now,
                );
                if r is Ok {
                    VaultHistory {
                        users: s.users.update(account, account2),
                        bets: s.bets.push(r->Ok_0),
                        ..s
                    }
                } else {
                    s
                }
            } else {
                s
            }
        },
        VaultOp::SettleBet { bet, account, result, profit, now } => {
            if 0 <= bet < s.bets.len() && 0 <= account < s.users.len() && s.users[account].user
                == s.bets[bet].user {
                let (record2, account2, vault2, r) = settle_bet_spec(
                    s.bets[bet],
                    s.users[account],
                    s.vault,
                    result,
                    profit,
                    now,
                );
                VaultHistory {
                    vault: vault2,
                    users: s.users.update(account, account2),
                    bets: s.bets.update(bet, record2),
                }
            } else {
                s
            }
        },
        VaultOp::CollectFees { authority, amount } => {
            let (vault2, r) = collect_fees_spec(s.vault, authority, amount);
            VaultHistory { vault: vault2, ..s }
        },
    }
}

/// A sequence of transitions, applied first to last.
pub open spec fn apply_ops(s: VaultHistory, ops: Seq<VaultOp>) -> VaultHistory
    decreases ops.len(),
{
    if ops.len() == 0 {
        s
    } else {
        apply_ops(apply_op(s, ops[0]), ops.drop_first())
    }
}

/// Every operation in the sequence is one the host could issue.
pub open spec fn ops_wf(ops: Seq<VaultOp>) -> bool {
    forall|k: int| 0 <= k < ops.len() ==> op_wf(ops[k])
}

/// One step preserves the accounting identity and the structural facts.
pub proof fn lemma_accounting_preserved(s: VaultHistory, op: VaultOp)
    requires
        accounted(s),
        accounts_wf(s),
        op_wf(op),
    ensures
        accounted(apply_op(s, op)),
        accounts_wf(apply_op(s, op)),
{
    let bal = |a: UserAccount| account_balance(a);
    let pend = |b: BetRecord| stake_if_pending(b);
    let sett = |b: BetRecord| stake_if_settled(b);
    match op {
        VaultOp::Deposit { account, user, amount, now } => {
            if account == s.users.len() {
                let grown = VaultHistory { users: s.users.push(empty_account()), ..s };
                lemma_sum_by_push(s.users, bal, empty_account());
                let (vault2, account2, r) = deposit_spec(
                    grown.vault,
                    grown.users[account],
                    user,
                    amount,
                    now,
                );
                lemma_sum_by_update(grown.users, bal, account, account2);
            } else if 0 <= account < s.users.len() {
                let (vault2, account2, r) = deposit_spec(
                    s.vault,
                    s.users[account],
                    user,
                    amount,
                    now,
                );
                lemma_sum_by_update(s.users, bal, account, account2);
            }
        },
        VaultOp::Withdraw { account, amount, now } => {
            if 0 <= account < s.users.len() {
                let (vault2, account2, r) = withdraw_spec(s.vault, s.users[account], amount, now);
                lemma_sum_by_update(s.users, bal, account, account2);
            }
        },
        VaultOp::ExecuteBet { account, user, bet_id, amount, strategy_id, now } => {
            if 0 <= account < s.users.len() {
                let (account2, r) = execute_bet_spec(
                    s.users[account],
                    user,
                    bet_id,
                    amount,
                    strategy_id,
                    now,
                );
                if r is Ok {
                    lemma_sum_by_update(s.users, bal, account, account2);
                    lemma_sum_by_push(s.bets, pend, r->Ok_0);
                    lemma_sum_by_push(s.bets, sett, r->Ok_0);
                }
            }
        },
        VaultOp::SettleBet { bet, account, result, profit, now } => {
            if 0 <= bet < s.bets.len() && 0 <= account < s.users.len() && s.users[account].user
                == s.bets[bet].user {
                let (record2, account2, vault2, r) = settle_bet_spec(
                    s.bets[bet],
                    s.users[account],
                    s.vault,
                    result,
                    profit,
                    now,
                );
                lemma_sum_by_update(s.users, bal, account, account2);
                lemma_sum_by_update(s.bets, pend, bet, record2);
                lemma_sum_by_update(s.bets, sett, bet, record2);
            }
        },
        VaultOp::CollectFees { authority, amount } => {},
    }
}

/// The accounting identity holds after any admissible sequence of
/// operations from a state in which it holds — in particular from a
/// freshly initialized vault.
pub proof fn lemma_accounting_over_sequence(s: VaultHistory, ops: Seq<VaultOp>)
    requires
        accounted(s),
        accounts_wf(s),
        ops_wf(ops),
    ensures
        accounted(apply_ops(s, ops)),
        accounts_wf(apply_ops(s, ops)),
    decreases ops.len(),
{
    if ops.len() > 0 {
        lemma_accounting_preserved(s, ops[0]);
        assert(forall|k: int| 0 <= k < ops.drop_first().len() ==> op_wf(#[trigger] ops.drop_first()[k]));
        lemma_accounting_over_sequence(apply_op(s, ops[0]), ops.drop_first());
    }
}

/// A freshly initialized vault satisfies both laws and the structural
/// facts.
pub proof fn lemma_initial_state(s: VaultHistory)
    requires
        is_initial(s),
    ensures
        accounted(s),
        conserved(s),
        accounts_wf(s),
{
}

/// Whether `op`, applied to `s`, keeps the narrow conservation equation:
/// a settlement that goes through must credit back exactly its stake, and
/// a fee collection that goes through must remove nothing.
pub open spec fn op_refunding(s: VaultHistory, op: VaultOp) -> bool {
    match op {
        VaultOp::SettleBet { bet, account, result, profit, now } => {
            (0 <= bet < s.bets.len() && 0 <= account < s.users.len() && s.users[account].user
                == s.bets[bet].user && settle_bet_spec(
                s.bets[bet],
                s.users[account],
                s.vault,
                result,
                profit,
                now,
            ).3 is Ok) ==> profit == s.bets[bet].amount
        },
        VaultOp::CollectFees { authority, amount } => {
            authority == s.vault.authority ==> amount == 0
        },
        _ => true,
    }
}

/// One step preserves narrow conservation, provided the step refunds.
pub proof fn lemma_conservation_preserved(s: VaultHistory, op: VaultOp)
    requires
        conserved(s),
        accounts_wf(s),
        op_wf(op),
        op_refunding(s, op),
    ensures
        conserved(apply_op(s, op)),
        accounts_wf(apply_op(s, op)),
{
    let bal = |a: UserAccount| account_balance(a);
    let pend = |b: BetRecord| stake_if_pending(b);
    match op {
        VaultOp::Deposit { account, user, amount, now } => {
            if account == s.users.len() {
                let grown = VaultHistory { users: s.users.push(empty_account()), ..s };
                lemma_sum_by_push(s.users, bal, empty_account());
                let (vault2, account2, r) = deposit_spec(
                    grown.vault,
                    grown.users[account],
                    user,
                    amount,
                    now,
                );
                lemma_sum_by_update(grown.users, bal, account, account2);
            } else if 0 <= account < s.users.len() {
                let (vault2, account2, r) = deposit_spec(
                    s.vault,
                    s.users[account],
                    user,
                    amount,
                    now,
                );
                lemma_sum_by_update(s.users, bal, account, account2);
            }
        },
        VaultOp::Withdraw { account, amount, now } => {
            if 0 <= account < s.users.len() {
                let (vault2, account2, r) = withdraw_spec(s.vault, s.users[account], amount, now);
                lemma_sum_by_update(s.users, bal, account, account2);
            }
        },
        VaultOp::ExecuteBet { account, user, bet_id, amount, strategy_id, now } => {
            if 0 <= account < s.users.len() {
                let (account2, r) = execute_bet_spec(
                    s.users[account],
                    user,
                    bet_id,
                    amount,
                    strategy_id,
                    now,
                );
                if r is Ok {
                    lemma_sum_by_update(s.users, bal, account, account2);
                    lemma_sum_by_push(s.bets, pend, r->Ok_0);
                }
            }
        },
        VaultOp::SettleBet { bet, account, result, profit, now } => {
            if 0 <= bet < s.bets.len() && 0 <= account < s.users.len() && s.users[account].user
                == s.bets[bet].user {
                let (record2, account2, vault2, r) = settle_bet_spec(
                    s.bets[bet],
                    s.users[account],
                    s.vault,
                    result,
                    profit,
                    now,
                );
                lemma_sum_by_update(s.users, bal, account, account2);
                lemma_sum_by_update(s.bets, pend, bet, record2);
            }
        },
        VaultOp::CollectFees { authority, amount } => {},
    }
}

/// Every operation in the sequence refunds, judged in the state it
/// actually executes in.
pub open spec fn ops_refunding(s: VaultHistory, ops: Seq<VaultOp>) -> bool
    decreases ops.len(),
{
    ops.len() == 0 || (op_refunding(s, ops[0]) && ops_refunding(
        apply_op(s, ops[0]),
        ops.drop_first(),
    ))
}

/// Conservation: for any admissible sequence of deposit, withdrawal,
/// bet-execution, refunding settlement and zero-fee collection
/// operations, the sum of all user balances plus the sum of pending
/// stakes equals deposits minus withdrawals minus fees at every point —
/// here, after the whole sequence; the induction steps through every
/// intermediate point.
pub proof fn lemma_conservation_over_sequence(s: VaultHistory, ops: Seq<VaultOp>)
    requires
        conserved(s),
        accounts_wf(s),
        ops_wf(ops),
        ops_refunding(s, ops),
    ensures
        conserved(apply_ops(s, ops)),
        accounts_wf(apply_ops(s, ops)),
    decreases ops.len(),
{
    if ops.len() > 0 {
        lemma_conservation_preserved(s, ops[0]);
        assert(forall|k: int| 0 <= k < ops.drop_first().len() ==> op_wf(#[trigger] ops.drop_first()[k]));
        lemma_conservation_over_sequence(apply_op(s, ops[0]), ops.drop_first());
    }
}

} // verus!
