//! The wager engine: placing a bet and settling it.
//!
//! A wager moves through exactly one transition, `Pending` to `Settled`,
//! and never back.  Placement debits the stake from the bettor's balance;
//! settlement credits back `potential_winnings` on a win, the original
//! stake on a draw, and nothing on a loss.
//!
//! Odds are carried as a fixed-point number of hundredths (so `250` stands
//! for a factor of 2.5), and the potential winnings are the stake times the
//! odds, truncated toward zero — the truncation is load-bearing, since it
//! fixes the exact payout amount.

use vstd::prelude::*;
use crate::ledger;
use crate::predict::{Platform, SportPredictError, User};

verus! {

/// Settlement state of a wager.
#[derive(Clone, Copy, PartialEq, Eq, Structural, Debug)]
pub enum BetStatus {
    Pending,
    Settled,
}

/// Outcome of a settled wager.
#[derive(Clone, Copy, PartialEq, Eq, Structural, Debug)]
pub enum BetResult {
    Win,
    Loss,
    Draw,
}

/// One wager.  Created by `place_bet` in the `Pending` state and mutated
/// only by `settle_bet`, which fills `result`, `winnings` and `settled_at`.
#[derive(Clone, Debug)]
pub struct Bet {
    /// Identity of the bettor this wager belongs to.
    pub user: u64,
    pub match_id: String,
    pub prediction: String,
    /// The stake, debited from the bettor at placement.
    pub amount: u64,
    /// Caller-supplied odds in hundredths; trusted verbatim.
    pub odds: u64,
    pub potential_winnings: u64,
    /// Amount credited at settlement: `potential_winnings` on a win, the
    /// stake on a draw, zero on a loss.
    pub winnings: Option<u64>,
    pub status: BetStatus,
    pub result: Option<BetResult>,
    pub created_at: i64,
    pub settled_at: Option<i64>,
}

/// The stake times the odds-in-hundredths, truncated toward zero.
pub open spec fn potential_winnings_spec(amount: u64, odds: u64) -> int {
    (amount * odds) / 100
}

/// Computes the potential winnings of a stake at the given odds, or `None`
/// exactly when the truncated product does not fit in a `u64`.
pub fn potential_winnings(amount: u64, odds: u64) -> (r: Option<u64>)
    ensures
        r is Some <==> potential_winnings_spec(amount, odds) <= u64::MAX,
        r is Some ==> r == Some(potential_winnings_spec(amount, odds) as u64),
{
    proof {
        assert((amount as int) * (odds as int) <= u128::MAX) by (nonlinear_arith)
            requires
                amount <= u64::MAX,
                odds <= u64::MAX,
        ;
    }
    let product: u128 = (amount as u128) * (odds as u128);
    let quotient: u128 = product / 100;
    if quotient > u64::MAX as u128 {
        None
    } else {
        Some(quotient as u64)
    }
}

/// The bet-placement transition.  It fails, changing nothing, with
/// `InsufficientBalance` when the stake exceeds the balance, else with
/// `UserInactive` when the account is inactive, else with `Overflow` when
/// the potential winnings or a bet counter would not fit.  On success the
/// stake is debited, both bet counters grow by one, and the returned wager
/// is `Pending` with its potential winnings fixed.
pub open spec fn place_bet_spec(
    user: User,
    platform: Platform,
    match_id: String,
    prediction: String,
    amount: u64,
    odds: u64,
    now: i64,
) -> (User, Platform, Result<Bet, SportPredictError>) {
    if user.balance < amount {
        (user, platform, Err(SportPredictError::InsufficientBalance))
    } else if !user.is_active {
        (user, platform, Err(SportPredictError::UserInactive))
    } else if potential_winnings_spec(amount, odds) > u64::MAX || user.total_bets + 1 > u64::MAX
        || platform.total_bets + 1 > u64::MAX {
        (user, platform, Err(SportPredictError::Overflow))
    } else {
        (
            User {
                balance: (user.balance - amount) as u64,
                total_bets: (user.total_bets + 1) as u64,
                ..user
            },
            Platform { total_bets: (platform.total_bets + 1) as u64, ..platform },
            Ok(
                Bet {
                    user: user.authority,
                    match_id,
                    prediction,
                    amount,
                    odds,
                    potential_winnings: potential_winnings_spec(amount, odds) as u64,
                    winnings: None,
                    status: BetStatus::Pending,
                    result: None,
                    created_at: now,
                    settled_at: None,
                },
            ),
        )
    }
}

/// Places a wager of `amount` at the given odds for `user`, returning the
/// new `Pending` record.  `now` is the single clock reading of the
/// transition and becomes the record's creation time.
pub fn place_bet(
    user: &mut User,
    platform: &mut Platform,
    match_id: String,
    prediction: String,
    amount: u64,
    odds: u64,
    now: i64,
) -> (r: Result<Bet, SportPredictError>)
    ensures
        (*final(user), *final(platform), r) == place_bet_spec(
            *old(user),
            *old(platform),
            match_id,
            prediction,
            amount,
            odds,
            now,
        ),
{
    if user.balance < amount {
        return Err(SportPredictError::InsufficientBalance);
    }
    if !user.is_active {
        return Err(SportPredictError::UserInactive);
    }
    let winnings = potential_winnings(amount, odds);
    let potential = match winnings {
        Some(w) => w,
        None => {
            return Err(SportPredictError::Overflow);
        },
    };
    if user.total_bets == u64::MAX || platform.total_bets == u64::MAX {
        return Err(SportPredictError::Overflow);
    }
    ledger::apply_debit(&mut user.balance, amount);
    ledger::apply_credit(&mut user.total_bets, 1);
    ledger::apply_credit(&mut platform.total_bets, 1);
    Ok(
        Bet {
            user: user.authority,
            match_id,
            prediction,
            amount,
            odds,
            potential_winnings: potential,
            winnings: None,
            status: BetStatus::Pending,
            result: None,
            created_at: now,
            settled_at: None,
        },
    )
}

/// The settlement transition.  A wager that is not `Pending` is rejected
/// with `BetAlreadySettled` and nothing changes; `Overflow` rejects a
/// credit or counter that would not fit.  Otherwise the wager becomes
/// `Settled` with `result`, `winnings` and `settled_at` recorded, and the
/// bettor is credited the potential winnings on `Win` (with one more win
/// counted), the stake on `Draw`, and nothing on `Loss`.
pub open spec fn settle_bet_spec(bet: Bet, user: User, result: BetResult, now: i64) -> (
    Bet,
    User,
    Result<(), SportPredictError>,
) {
    if bet.status != BetStatus::Pending {
        (bet, user, Err(SportPredictError::BetAlreadySettled))
    } else {
        let credit: int = match result {
            BetResult::Win => bet.potential_winnings as int,
            BetResult::Loss => 0,
            BetResult::Draw => bet.amount as int,
        };
        if user.balance + credit > u64::MAX || (result == BetResult::Win && user.total_wins + 1
            > u64::MAX) {
            (bet, user, Err(SportPredictError::Overflow))
        } else {
            (
                Bet {
                    winnings: Some(credit as u64),
                    status: BetStatus::Settled,
                    result: Some(result),
                    settled_at: Some(now),
                    ..bet
                },
                User {
                    balance: (user.balance + credit) as u64,
                    total_wins: if result == BetResult::Win {
                        (user.total_wins + 1) as u64
                    } else {
                        user.total_wins
                    },
                    ..user
                },
                Ok(()),
            )
        }
    }
}

/// Settles a `Pending` wager with the given outcome, crediting the bettor
/// as the outcome dictates.  The host has already checked that the caller
/// holds settlement authority; `now` becomes the settlement time.
pub fn settle_bet(bet: &mut Bet, user: &mut User, result: BetResult, now: i64) -> (r: Result<
    (),
    SportPredictError,
>)
    ensures
        (*final(bet), *final(user), r) == settle_bet_spec(*old(bet), *old(user), result, now),
{
    if bet.status != BetStatus::Pending {
        return Err(SportPredictError::BetAlreadySettled);
    }
    let credit: u64 = match result {
        BetResult::Win => bet.potential_winnings,
        BetResult::Loss => 0,
        BetResult::Draw => bet.amount,
    };
    if credit > u64::MAX - user.balance {
        return Err(SportPredictError::Overflow);
    }
    if result == BetResult::Win && user.total_wins == u64::MAX {
        return Err(SportPredictError::Overflow);
    }
    bet.winnings = Some(credit);
    bet.status = BetStatus::Settled;
    bet.result = Some(result);
    bet.settled_at = Some(now);
    ledger::apply_credit(&mut user.balance, credit);
    if result == BetResult::Win {
        ledger::apply_credit(&mut user.total_wins, 1);
    }
    Ok(())
}

/// No double settlement: once a settlement has succeeded, settling the
/// same wager again — with any outcome, at any time — fails with
/// `BetAlreadySettled` and leaves both the wager and the bettor's ledger
/// exactly as the first settlement left them.
pub proof fn lemma_no_double_settlement(
    bet: Bet,
    user: User,
    first: BetResult,
    second: BetResult,
    t1: i64,
    t2: i64,
)
    requires
        settle_bet_spec(bet, user, first, t1).2 is Ok,
    ensures
        ({
            let (bet1, user1, _) = settle_bet_spec(bet, user, first, t1);
            settle_bet_spec(bet1, user1, second, t2) == (
                bet1,
                user1,
                Err::<(), SportPredictError>(SportPredictError::BetAlreadySettled),
            )
        }),
{
}

} // verus!
