//! The investment pool engine: proportional-share investment into a pooled
//! strategy and redemption out of it.
//!
//! Shares are issued one-to-one against the invested amount.  Redemption
//! values `shares` at the pool's per-investor price, `total_value` divided
//! by `total_investors` (a head-count, not an outstanding-share count —
//! the division is reproduced exactly as the platform defines it, even
//! though it is not a proportional net-asset-value calculation), and the
//! product is truncated toward zero.
//!
//! Fee and return figures on a pool are carried as fixed-point hundredths
//! of a percent; they are recorded verbatim and never enter the arithmetic
//! of any transition.

use vstd::prelude::*;
use crate::ledger;
use crate::predict::{SportPredictError, User};

verus! {

/// Whether a pool accepts new investment.
#[derive(Clone, Copy, PartialEq, Eq, Structural, Debug)]
pub enum ETFStatus {
    Active,
    Paused,
    Closed,
}

/// Lifecycle of one user's stake in a pool.
#[derive(Clone, Copy, PartialEq, Eq, Structural, Debug)]
pub enum InvestmentStatus {
    Active,
    Redeemed,
    Cancelled,
}

/// A pooled investment strategy.
#[derive(Clone, Debug)]
pub struct ETF {
    /// Identity of the managing user.
    pub manager: u64,
    pub name: String,
    pub description: String,
    pub strategy: String,
    pub risk_level: u8,
    pub min_investment: u64,
    pub max_investment: u64,
    /// Advertised annual return, in hundredths of a percent.
    pub annual_return: u64,
    /// Management fee, in hundredths of a percent.
    pub management_fee: u64,
    /// Performance fee, in hundredths of a percent.
    pub performance_fee: u64,
    pub status: ETFStatus,
    /// Sum of value currently held by the pool.
    pub total_value: u64,
    /// Head-count of investors with a live investment record.
    pub total_investors: u64,
    /// Realized return so far, in hundredths of a percent.
    pub current_return: u64,
    pub created_at: i64,
}

/// One user's stake in one pool.  Created by `invest_in_etf`, drawn down
/// by `redeem_from_etf`, and marked `Redeemed` when its shares reach zero.
#[derive(Clone, Copy, PartialEq, Eq, Structural, Debug)]
pub struct Investment {
    /// Identity of the investing user.
    pub user: u64,
    /// Host-assigned key of the pool record invested in.
    pub etf: u64,
    /// The amount originally invested.
    pub amount: u64,
    /// Shares still outstanding; issued one-to-one against `amount`.
    pub shares: u64,
    pub status: InvestmentStatus,
    pub created_at: i64,
}

/// The value redeemed for `shares` at a per-investor price of
/// `total_value / total_investors`, truncated toward zero.
pub open spec fn redemption_amount_spec(shares: u64, total_value: u64, total_investors: u64) -> int
    recommends
        total_investors > 0,
{
    (shares * total_value) / (total_investors as int)
}

/// Computes the redemption value of `shares` against a pool, or `None`
/// exactly when the pool has no investors to price against or the
/// truncated value does not fit in a `u64`.
pub fn redemption_amount(shares: u64, total_value: u64, total_investors: u64) -> (r: Option<u64>)
    ensures
        r is Some <==> total_investors > 0 && redemption_amount_spec(
            shares,
            total_value,
            total_investors,
        ) <= u64::MAX,
        r is Some ==> r == Some(
            redemption_amount_spec(shares, total_value, total_investors) as u64,
        ),
{
    if total_investors == 0 {
        return None;
    }
    proof {
        assert((shares as int) * (total_value as int) <= u128::MAX) by (nonlinear_arith)
            requires
                shares <= u64::MAX,
                total_value <= u64::MAX,
        ;
    }
    let product: u128 = (shares as u128) * (total_value as u128);
    let quotient: u128 = product / (total_investors as u128);
    if quotient > u64::MAX as u128 {
        None
    } else {
        Some(quotient as u64)
    }
}

/// The investment transition.  It fails, changing nothing, with
/// `InsufficientBalance` when the amount exceeds the user's balance, else
/// `UserInactive` when the account is inactive, else `ETFInactive` when
/// the pool is not `Active`, else `InvestmentTooSmall` / `InvestmentTooLarge`
/// when the amount falls outside the pool's bounds, else `Overflow` when a
/// pool counter would not fit.  On success the amount moves from the
/// user's balance into the pool's value, the head-count grows by one, and
/// a new `Active` investment record carries `amount` shares.
pub open spec fn invest_spec(
    user: User,
    etf: ETF,
    etf_key: u64,
    amount: u64,
    now: i64,
) -> (User, ETF, Result<Investment, SportPredictError>) {
    if user.balance < amount {
        (user, etf, Err(SportPredictError::InsufficientBalance))
    } else if !user.is_active {
        (user, etf, Err(SportPredictError::UserInactive))
    } else if etf.status != ETFStatus::Active {
        (user, etf, Err(SportPredictError::ETFInactive))
    } else if amount < etf.min_investment {
        (user, etf, Err(SportPredictError::InvestmentTooSmall))
    } else if amount > etf.max_investment {
        (user, etf, Err(SportPredictError::InvestmentTooLarge))
    } else if etf.total_value + amount > u64::MAX || etf.total_investors + 1 > u64::MAX {
        (user, etf, Err(SportPredictError::Overflow))
    } else {
        (
            User { balance: (user.balance - amount) as u64, ..user },
            ETF {
                total_value: (etf.total_value + amount) as u64,
                total_investors: (etf.total_investors + 1) as u64,
                ..etf
            },
            Ok(
                Investment {
                    user: user.authority,
                    etf: etf_key,
                    amount,
                    shares: amount,
                    status: InvestmentStatus::Active,
                    created_at: now,
                },
            ),
        )
    }
}

/// Invests `amount` from `user` into the pool, returning the new `Active`
/// investment record.  `etf_key` is the host's key for the pool record and
/// `now` becomes the record's creation time.
pub fn invest_in_etf(user: &mut User, etf: &mut ETF, etf_key: u64, amount: u64, now: i64) -> (r:
    Result<Investment, SportPredictError>)
    ensures
        (*final(user), *final(etf), r) == invest_spec(*old(user), *old(etf), etf_key, amount, now),
{
    if user.balance < amount {
        return Err(SportPredictError::InsufficientBalance);
    }
    if !user.is_active {
        return Err(SportPredictError::UserInactive);
    }
    if etf.status != ETFStatus::Active {
        return Err(SportPredictError::ETFInactive);
    }
    if amount < etf.min_investment {
        return Err(SportPredictError::InvestmentTooSmall);
    }
    if amount > etf.max_investment {
        return Err(SportPredictError::InvestmentTooLarge);
    }
    if amount > u64::MAX - etf.total_value || etf.total_investors == u64::MAX {
        return Err(SportPredictError::Overflow);
    }
    ledger::apply_debit(&mut user.balance, amount);
    ledger::apply_credit(&mut etf.total_value, amount);
    ledger::apply_credit(&mut etf.total_investors, 1);
    Ok(
        Investment {
            user: user.authority,
            etf: etf_key,
            amount,
            shares: amount,
            status: InvestmentStatus::Active,
            created_at: now,
        },
    )
}

/// The redemption transition.  It fails, changing nothing, with
/// `InsufficientShares` when `shares` exceeds the investment's holding,
/// else `InvestmentInactive` when the investment is not `Active`, else
/// `Overflow` when the pool has no investors to price against or the
/// redemption value or credited balance would not fit, else `Underflow`
/// when the pool's value does not cover the redemption.  On success the
/// shares are drawn down — a holding that reaches zero is marked
/// `Redeemed` and leaves the head-count — and the redemption value moves
/// from the pool to the user's balance.
pub open spec fn redeem_spec(user: User, etf: ETF, investment: Investment, shares: u64) -> (
    User,
    ETF,
    Investment,
    Result<(), SportPredictError>,
) {
    if investment.shares < shares {
        (user, etf, investment, Err(SportPredictError::InsufficientShares))
    } else if investment.status != InvestmentStatus::Active {
        (user, etf, investment, Err(SportPredictError::InvestmentInactive))
    } else if etf.total_investors == 0 || redemption_amount_spec(
        shares,
        etf.total_value,
        etf.total_investors,
    ) > u64::MAX {
        (user, etf, investment, Err(SportPredictError::Overflow))
    } else {
        let value = redemption_amount_spec(shares, etf.total_value, etf.total_investors);
        if user.balance + value > u64::MAX {
            (user, etf, investment, Err(SportPredictError::Overflow))
        } else if etf.total_value < value {
            (user, etf, investment, Err(SportPredictError::Underflow))
        } else {
            let emptied = investment.shares == shares;
            (
                User { balance: (user.balance + value) as u64, ..user },
                ETF {
                    total_value: (etf.total_value - value) as u64,
                    total_investors: if emptied {
                        (etf.total_investors - 1) as u64
                    } else {
                        etf.total_investors
                    },
                    ..etf
                },
                Investment {
                    shares: (investment.shares - shares) as u64,
                    status: if emptied {
                        InvestmentStatus::Redeemed
                    } else {
                        InvestmentStatus::Active
                    },
                    ..investment
                },
                Ok(()),
            )
        }
    }
}

/// Redeems `shares` from an active investment, crediting the user with
/// their value at the pool's current per-investor price.
pub fn redeem_from_etf(
    user: &mut User,
    etf: &mut ETF,
    investment: &mut Investment,
    shares: u64,
) -> (r: Result<(), SportPredictError>)
    ensures
        (*final(user), *final(etf), *final(investment), r) == redeem_spec(
            *old(user),
            *old(etf),
            *old(investment),
            shares,
        ),
{
    if investment.shares < shares {
        return Err(SportPredictError::InsufficientShares);
    }
    if investment.status != InvestmentStatus::Active {
        return Err(SportPredictError::InvestmentInactive);
    }
    let priced = redemption_amount(shares, etf.total_value, etf.total_investors);
    let value = match priced {
        Some(v) => v,
        None => {
            return Err(SportPredictError::Overflow);
        },
    };
    if value > u64::MAX - user.balance {
        return Err(SportPredictError::Overflow);
    }
    if etf.total_value < value {
        return Err(SportPredictError::Underflow);
    }
    let emptied = investment.shares == shares;
    ledger::apply_debit(&mut investment.shares, shares);
    if emptied {
        investment.status = InvestmentStatus::Redeemed;
        ledger::apply_debit(&mut etf.total_investors, 1);
    }
    ledger::apply_credit(&mut user.balance, value);
    ledger::apply_debit(&mut etf.total_value, value);
    Ok(())
}

/// Bounds enforcement: an investment below `min_investment` or above
/// `max_investment` is rejected — `InvestmentTooSmall` below the minimum,
/// `InvestmentTooLarge` above the maximum, once the balance, account and
/// pool checks ahead of the bounds have passed — and leaves the pool's
/// value and head-count, and the user, exactly unchanged.
pub proof fn lemma_investment_bounds_enforced(
    user: User,
    etf: ETF,
    etf_key: u64,
    amount: u64,
    now: i64,
)
    requires
        amount < etf.min_investment || amount > etf.max_investment,
    ensures
        ({
            let (user2, etf2, r) = invest_spec(user, etf, etf_key, amount, now);
            user2 == user && etf2 == etf && r is Err
        }),
        (amount <= user.balance && user.is_active && etf.status == ETFStatus::Active)
            ==> invest_spec(user, etf, etf_key, amount, now).2 == Err::<
            Investment,
            SportPredictError,
        >(
            if amount < etf.min_investment {
                SportPredictError::InvestmentTooSmall
            } else {
                SportPredictError::InvestmentTooLarge
            },
        ),
{
}

} // verus!
