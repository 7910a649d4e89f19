//! The balance ledger: the single enforcement point for the rule that no
//! balance is ever negative and no counter ever wraps.
//!
//! Every other component mutates a balance only through `credit` and
//! `debit`, so the non-negativity and no-overflow invariants are
//! established here once and inherited everywhere else.

use vstd::prelude::*;

verus! {

/// Errors of the balance ledger.  Every credit and debit either applies
/// exactly or fails without touching the balance.
#[derive(Clone, Copy, PartialEq, Eq, Structural, Debug)]
pub enum LedgerError {
    /// A debit asked for more than the current balance holds.
    InsufficientBalance,
    /// A credit would push the balance past the representable range.
    Overflow,
    /// The custodial transfer collaborator refused to move the value, so
    /// the whole transition aborted with no ledger mutation.
    TransferFailed,
}

/// Which way value moved through the custodial transfer collaborator.
#[derive(Clone, Copy, PartialEq, Eq, Structural, Debug)]
pub enum TransferDirection {
    /// Value arrived in custody: the matching ledger move is a credit.
    Incoming,
    /// Value left custody: the matching ledger move is a debit.
    Outgoing,
}

/// Adds `amount` to a balance whose room for it has already been checked.
/// The engines validate a whole transition first and only then mutate, so
/// they establish this precondition before calling.
pub fn apply_credit(balance: &mut u64, amount: u64)
    requires
        *old(balance) + amount <= u64::MAX,
    ensures
        *final(balance) == *old(balance) + amount,
{
    *balance = *balance + amount;
}

/// Subtracts `amount` from a balance already known to cover it.
pub fn apply_debit(balance: &mut u64, amount: u64)
    requires
        amount <= *old(balance),
    ensures
        *final(balance) == *old(balance) - amount,
{
    *balance = *balance - amount;
}

/// Adds `amount` to a balance.  Fails with `Overflow`, and changes
/// nothing, exactly when the sum does not fit in a `u64`.
pub fn credit(balance: &mut u64, amount: u64) -> (r: Result<(), LedgerError>)
    ensures
        r is Ok <==> *old(balance) + amount <= u64::MAX,
        r is Ok ==> *final(balance) == *old(balance) + amount,
        r is Err ==> *final(balance) == *old(balance)
            && r == Err::<(), LedgerError>(LedgerError::Overflow),
{
    if amount <= u64::MAX - *balance {
        apply_credit(balance, amount);
        Ok(())
    } else {
        Err(LedgerError::Overflow)
    }
}

/// Subtracts `amount` from a balance.  Fails with `InsufficientBalance`,
/// and changes nothing, exactly when `amount` exceeds the current balance.
pub fn debit(balance: &mut u64, amount: u64) -> (r: Result<(), LedgerError>)
    ensures
        r is Ok <==> amount <= *old(balance),
        r is Ok ==> *final(balance) == *old(balance) - amount,
        r is Err ==> *final(balance) == *old(balance)
            && r == Err::<(), LedgerError>(LedgerError::InsufficientBalance),
{
    if amount <= *balance {
        apply_debit(balance, amount);
        Ok(())
    } else {
        Err(LedgerError::InsufficientBalance)
    }
}

/// A custodial transfer and its matching ledger move, as one unit.  The
/// host performs the external transfer and reports its outcome as
/// `transfer_ok`; a refused transfer aborts with `TransferFailed` and no
/// mutation, and a ledger failure likewise leaves the balance untouched —
/// the host then returns the value it moved, so neither side ever applies
/// without the other.
pub fn transfer_external(
    direction: TransferDirection,
    balance: &mut u64,
    amount: u64,
    transfer_ok: bool,
) -> (r: Result<(), LedgerError>)
    ensures
        !transfer_ok ==> *final(balance) == *old(balance)
            && r == Err::<(), LedgerError>(LedgerError::TransferFailed),
        transfer_ok && direction == TransferDirection::Incoming ==> (r is Ok <==> *old(balance)
            + amount <= u64::MAX),
        transfer_ok && direction == TransferDirection::Outgoing ==> (r is Ok <==> amount <= *old(
            balance,
        )),
        transfer_ok && r is Ok ==> *final(balance) == if direction == TransferDirection::Incoming {
            *old(balance) + amount
        } else {
            *old(balance) - amount
        },
        transfer_ok && r is Err ==> *final(balance) == *old(balance) && r == Err::<
            (),
            LedgerError,
        >(
            if direction == TransferDirection::Incoming {
                LedgerError::Overflow
            } else {
                LedgerError::InsufficientBalance
            },
        ),
{
    if !transfer_ok {
        return Err(LedgerError::TransferFailed);
    }
    match direction {
        TransferDirection::Incoming => credit(balance, amount),
        TransferDirection::Outgoing => debit(balance, amount),
    }
}

} // verus!
