//! Core records of the sport-prediction platform — the global counters and
//! the per-user ledger — together with the deposit and withdrawal
//! transitions that move value into and out of a user's spendable balance.
//!
//! Each transition is specified by a spec function that maps the records it
//! touches, plus the caller-supplied arguments, to the records after the
//! call and the returned result.  The executable function's contract states
//! that it computes exactly that transition, so a failed call provably
//! leaves every record unchanged.
//!
//! The custodial token transfer that accompanies a deposit or withdrawal is
//! the host's job; the host performs it and commits or aborts the whole
//! transition atomically, so these functions see only the ledger side.

use vstd::prelude::*;
use crate::ledger;

verus! {

/// The process-wide aggregate counters.  Advisory rollups: they are kept
/// exactly, but no other component's correctness rests on them.
#[derive(Clone, PartialEq, Eq, Structural, Debug)]
pub struct Platform {
    /// Identity of the platform authority.
    pub authority: u64,
    pub total_users: u64,
    pub total_bets: u64,
    pub total_volume: u64,
}

/// One user's spendable funds and betting history.
#[derive(Clone, Debug)]
pub struct User {
    /// The identity this record was created for; unique per user.
    pub authority: u64,
    pub username: String,
    pub balance: u64,
    pub total_bets: u64,
    pub total_wins: u64,
    pub total_volume: u64,
    pub is_active: bool,
}

/// Validation failures of the platform's transitions.  Every error is
/// detected before any record is mutated.
#[derive(Clone, Copy, PartialEq, Eq, Structural, Debug)]
pub enum SportPredictError {
    InsufficientBalance,
    UserInactive,
    BetAlreadySettled,
    ETFInactive,
    InvestmentTooSmall,
    InvestmentTooLarge,
    InsufficientShares,
    InvestmentInactive,
    /// A record for the same key already exists in the registry.
    AlreadyExists,
    /// An addition would exceed the representable range of a counter.
    Overflow,
    /// A subtraction would take a counter below zero.
    Underflow,
}

/// Creates the platform record with every counter at zero.
pub fn initialize(authority: u64) -> (p: Platform)
    ensures
        p == (Platform { authority, total_users: 0, total_bets: 0, total_volume: 0 }),
{
    Platform { authority, total_users: 0, total_bets: 0, total_volume: 0 }
}

/// The deposit transition.  A deposit credits the user's balance and both
/// volume counters unconditionally; it fails only with `Overflow`, exactly
/// when one of the three additions would not fit, and then changes nothing.
pub open spec fn deposit_spec(user: User, platform: Platform, amount: u64) -> (
    User,
    Platform,
    Result<(), SportPredictError>,
) {
    if user.balance + amount > u64::MAX || user.total_volume + amount > u64::MAX
        || platform.total_volume + amount > u64::MAX {
        (user, platform, Err(SportPredictError::Overflow))
    } else {
        (
            User {
                balance: (user.balance + amount) as u64,
                total_volume: (user.total_volume + amount) as u64,
                ..user
            },
            Platform { total_volume: (platform.total_volume + amount) as u64, ..platform },
            Ok(()),
        )
    }
}

/// Credits a deposit of `amount` to `user`, recording it in both volume
/// counters.  The host calls this only after the matching custodial
/// transfer into platform custody has succeeded.
pub fn deposit(user: &mut User, platform: &mut Platform, amount: u64) -> (r: Result<
    (),
    SportPredictError,
>)
    ensures
        (*final(user), *final(platform), r) == deposit_spec(*old(user), *old(platform), amount),
{
    if amount > u64::MAX - user.balance || amount > u64::MAX - user.total_volume
        || amount > u64::MAX - platform.total_volume {
        return Err(SportPredictError::Overflow);
    }
    ledger::apply_credit(&mut user.balance, amount);
    ledger::apply_credit(&mut user.total_volume, amount);
    ledger::apply_credit(&mut platform.total_volume, amount);
    Ok(())
}

/// The withdrawal transition.  A withdrawal debits the user's balance and
/// the platform volume counter.  It fails, changing nothing, with
/// `InsufficientBalance` when the balance does not cover `amount`, else
/// with `UserInactive` when the account is inactive, else with `Underflow`
/// when the platform volume counter does not cover `amount`.
pub open spec fn withdraw_spec(user: User, platform: Platform, amount: u64) -> (
    User,
    Platform,
    Result<(), SportPredictError>,
) {
    if user.balance < amount {
        (user, platform, Err(SportPredictError::InsufficientBalance))
    } else if !user.is_active {
        (user, platform, Err(SportPredictError::UserInactive))
    } else if platform.total_volume < amount {
        (user, platform, Err(SportPredictError::Underflow))
    } else {
        (
            User { balance: (user.balance - amount) as u64, ..user },
            Platform { total_volume: (platform.total_volume - amount) as u64, ..platform },
            Ok(()),
        )
    }
}

/// Debits a withdrawal of `amount` from `user`.  The host performs the
/// matching custodial transfer out of platform custody and aborts the
/// whole transition if that transfer fails.
pub fn withdraw(user: &mut User, platform: &mut Platform, amount: u64) -> (r: Result<
    (),
    SportPredictError,
>)
    ensures
        (*final(user), *final(platform), r) == withdraw_spec(*old(user), *old(platform), amount),
{
    if user.balance < amount {
        return Err(SportPredictError::InsufficientBalance);
    }
    if !user.is_active {
        return Err(SportPredictError::UserInactive);
    }
    if platform.total_volume < amount {
        return Err(SportPredictError::Underflow);
    }
    ledger::apply_debit(&mut user.balance, amount);
    ledger::apply_debit(&mut platform.total_volume, amount);
    Ok(())
}

} // verus!
