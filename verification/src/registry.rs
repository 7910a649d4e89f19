//! The account registry: creation and identification of per-user and
//! per-pool records.
//!
//! The registry enforces exactly one record per logical entity — users are
//! keyed by their identity, pools by their manager together with their
//! creation time — and rejects a second creation for the same key with
//! `AlreadyExists`, leaving the first record untouched.  Beyond uniqueness
//! and default initialization it performs no validation.
//!
//! A transition engine works on a record borrowed out of the registry; the
//! host reads a record with `user` / `etf`, runs the transition, and
//! commits the result with `set_user` / `set_etf`, which preserve the
//! record's key and therefore the registry's uniqueness invariant.

use vstd::prelude::*;
use vstd::pervasive::VecAdditionalExecFns;
use crate::pool::{ETF, ETFStatus};
use crate::predict::{Platform, SportPredictError, User};

verus! {

/// Whether some user record in `users` carries `authority` as its key.
pub open spec fn user_exists(users: Seq<User>, authority: u64) -> bool {
    exists|i: int| 0 <= i < users.len() && users[i].authority == authority
}

/// Whether some pool record in `etfs` carries the key `(manager, created_at)`.
pub open spec fn etf_exists(etfs: Seq<ETF>, manager: u64, created_at: i64) -> bool {
    exists|i: int|
        0 <= i < etfs.len() && etfs[i].manager == manager && etfs[i].created_at == created_at
}

/// A fresh user record: zero balance and history, active.
pub open spec fn new_user(authority: u64, username: String) -> User {
    User {
        authority,
        username,
        balance: 0,
        total_bets: 0,
        total_wins: 0,
        total_volume: 0,
        is_active: true,
    }
}

/// The user-creation transition.  It fails with `AlreadyExists` when a
/// record for `authority` is present, else with `Overflow` when the global
/// user counter would not fit; either failure changes nothing.  On success
/// a fresh record is appended and the user counter grows by one.
pub open spec fn create_user_spec(
    users: Seq<User>,
    platform: Platform,
    authority: u64,
    username: String,
) -> (Seq<User>, Platform, Result<(), SportPredictError>) {
    if user_exists(users, authority) {
        (users, platform, Err(SportPredictError::AlreadyExists))
    } else if platform.total_users + 1 > u64::MAX {
        (users, platform, Err(SportPredictError::Overflow))
    } else {
        (
            users.push(new_user(authority, username)),
            Platform { total_users: (platform.total_users + 1) as u64, ..platform },
            Ok(()),
        )
    }
}

/// A fresh pool record: `Active`, empty, with the caller's parameters
/// recorded verbatim.
pub open spec fn new_etf(
    manager: u64,
    name: String,
    description: String,
    strategy: String,
    risk_level: u8,
    min_investment: u64,
    max_investment: u64,
    annual_return: u64,
    management_fee: u64,
    performance_fee: u64,
    now: i64,
) -> ETF {
    ETF {
        manager,
        name,
        description,
        strategy,
        risk_level,
        min_investment,
        max_investment,
        annual_return,
        management_fee,
        performance_fee,
        status: ETFStatus::Active,
        total_value: 0,
        total_investors: 0,
        current_return: 0,
        created_at: now,
    }
}

/// The pool-creation transition: fails with `AlreadyExists` when a pool
/// with the key `(manager, now)` is present, changing nothing; otherwise
/// appends a fresh pool record created at `now`.
pub open spec fn create_etf_spec(etfs: Seq<ETF>, fresh: ETF) -> (
    Seq<ETF>,
    Result<(), SportPredictError>,
) {
    if etf_exists(etfs, fresh.manager, fresh.created_at) {
        (etfs, Err(SportPredictError::AlreadyExists))
    } else {
        (etfs.push(fresh), Ok(()))
    }
}

/// Finds the index of the user record keyed by `authority`, if any.
fn find_user_index(users: &Vec<User>, authority: u64) -> (r: Option<usize>)
    ensures
        match r {
            Some(i) => i < users.len() && users[i as int].authority == authority,
            None => !user_exists(users@, authority),
        },
{
    let mut i: usize = 0;
    while i < users.len()
        invariant
            i <= users.len(),
            forall|j: int| 0 <= j < i ==> users[j].authority != authority,
        decreases users.len() - i,
    {
        if users[i].authority == authority {
            return Some(i);
        }
        i = i + 1;
    }
    None
}

/// Finds the index of the pool record keyed by `(manager, created_at)`,
/// if any.
fn find_etf_index(etfs: &Vec<ETF>, manager: u64, created_at: i64) -> (r: Option<usize>)
    ensures
        match r {
            Some(i) => i < etfs.len() && etfs[i as int].manager == manager && etfs[
                i as int
            ].created_at == created_at,
            None => !etf_exists(etfs@, manager, created_at),
        },
{
    let mut i: usize = 0;
    while i < etfs.len()
        invariant
            i <= etfs.len(),
            forall|j: int|
                0 <= j < i ==> !(etfs[j].manager == manager && etfs[j].created_at == created_at),
        decreases etfs.len() - i,
    {
        if etfs[i].manager == manager && etfs[i].created_at == created_at {
            return Some(i);
        }
        i = i + 1;
    }
    None
}

/// The record store.  Its invariant — one record per key — is established
/// at creation and preserved by every method.
pub struct Registry {
    users: Vec<User>,
    etfs: Vec<ETF>,
}

impl Registry {
    /// The user records, in creation order.
    pub closed spec fn users_view(self) -> Seq<User> {
        self.users@
    }

    /// The pool records, in creation order.
    pub closed spec fn etfs_view(self) -> Seq<ETF> {
        self.etfs@
    }

    /// One record per key: user identities are pairwise distinct, and so
    /// are the pools' `(manager, created_at)` pairs.
    pub open spec fn wf(self) -> bool {
        &&& forall|i: int, j: int|
            0 <= i < j < self.users_view().len() ==> self.users_view()[i].authority
                != self.users_view()[j].authority
        &&& forall|i: int, j: int|
            0 <= i < j < self.etfs_view().len() ==> !(self.etfs_view()[i].manager
                == self.etfs_view()[j].manager && self.etfs_view()[i].created_at
                == self.etfs_view()[j].created_at)
    }

    /// An empty registry.
    pub fn new() -> (r: Registry)
        ensures
            r.users_view() == Seq::<User>::empty(),
            r.etfs_view() == Seq::<ETF>::empty(),
            r.wf(),
    {
        let r = Registry { users: Vec::new(), etfs: Vec::new() };
        proof {
            assert(r.users@ =~= Seq::<User>::empty());
            assert(r.etfs@ =~= Seq::<ETF>::empty());
        }
        r
    }

    /// Creates a user record for `authority`, counting it on the
    /// platform.  A second creation for the same identity fails with
    /// `AlreadyExists` and mutates nothing.
    pub fn create_user(
        &mut self,
        platform: &mut Platform,
        authority: u64,
        username: String,
    ) -> (r: Result<(), SportPredictError>)
        requires
            old(self).wf(),
        ensures
            (final(self).users_view(), *final(platform), r) == create_user_spec(
                old(self).users_view(),
                *old(platform),
                authority,
                username,
            ),
            final(self).etfs_view() == old(self).etfs_view(),
            final(self).wf(),
    {
        match find_user_index(&self.users, authority) {
            Some(_) => Err(SportPredictError::AlreadyExists),
            None => {
                if platform.total_users == u64::MAX {
                    return Err(SportPredictError::Overflow);
                }
                self.users.push(
                    User {
                        authority,
                        username,
                        balance: 0,
                        total_bets: 0,
                        total_wins: 0,
                        total_volume: 0,
                        is_active: true,
                    },
                );
                platform.total_users = platform.total_users + 1;
                Ok(())
            },
        }
    }

    /// Creates a pool record managed by `manager` at time `now`.  A second
    /// creation for the same `(manager, now)` key fails with
    /// `AlreadyExists` and mutates nothing.
    pub fn create_etf(
        &mut self,
        manager: u64,
        name: String,
        description: String,
        strategy: String,
        risk_level: u8,
        min_investment: u64,
        max_investment: u64,
        annual_return: u64,
        management_fee: u64,
        performance_fee: u64,
        now: i64,
    ) -> (r: Result<(), SportPredictError>)
        requires
            old(self).wf(),
        ensures
            (final(self).etfs_view(), r) == create_etf_spec(
                old(self).etfs_view(),
                new_etf(
                    manager,
                    name,
                    description,
                    strategy,
                    risk_level,
                    min_investment,
                    max_investment,
                    annual_return,
                    management_fee,
                    performance_fee,
                    now,
                ),
            ),
            final(self).users_view() == old(self).users_view(),
            final(self).wf(),
    {
        match find_etf_index(&self.etfs, manager, now) {
            Some(_) => Err(SportPredictError::AlreadyExists),
            None => {
                self.etfs.push(
                    ETF {
                        manager,
                        name,
                        description,
                        strategy,
                        risk_level,
                        min_investment,
                        max_investment,
                        annual_return,
                        management_fee,
                        performance_fee,
                        status: ETFStatus::Active,
                        total_value: 0,
                        total_investors: 0,
                        current_return: 0,
                        created_at: now,
                    },
                );
                Ok(())
            },
        }
    }

    /// Number of user records.
    pub fn user_count(&self) -> (r: usize)
        ensures
            r == self.users_view().len(),
    {
        self.users.len()
    }

    /// Number of pool records.
    pub fn etf_count(&self) -> (r: usize)
        ensures
            r == self.etfs_view().len(),
    {
        self.etfs.len()
    }

    /// The user record at `i`.
    pub fn user(&self, i: usize) -> (r: &User)
        requires
            i < self.users_view().len(),
        ensures
            *r == self.users_view()[i as int],
    {
        &self.users[i]
    }

    /// The pool record at `i`.
    pub fn etf(&self, i: usize) -> (r: &ETF)
        requires
            i < self.etfs_view().len(),
        ensures
            *r == self.etfs_view()[i as int],
    {
        &self.etfs[i]
    }

    /// Index of the user record keyed by `authority`, if any.
    pub fn find_user(&self, authority: u64) -> (r: Option<usize>)
        ensures
            match r {
                Some(i) => i < self.users_view().len() && self.users_view()[i as int].authority
                    == authority,
                None => !user_exists(self.users_view(), authority),
            },
    {
        find_user_index(&self.users, authority)
    }

    /// Index of the pool record keyed by `(manager, created_at)`, if any.
    pub fn find_etf(&self, manager: u64, created_at: i64) -> (r: Option<usize>)
        ensures
            match r {
                Some(i) => i < self.etfs_view().len() && self.etfs_view()[i as int].manager
                    == manager && self.etfs_view()[i as int].created_at == created_at,
                None => !etf_exists(self.etfs_view(), manager, created_at),
            },
    {
        find_etf_index(&self.etfs, manager, created_at)
    }

    /// Commits a mutated user record back to its slot.  The record's key
    /// may not change, so uniqueness is preserved.
    pub fn set_user(&mut self, i: usize, user: User)
        requires
            old(self).wf(),
            i < old(self).users_view().len(),
            user.authority == old(self).users_view()[i as int].authority,
        ensures
            final(self).users_view() == old(self).users_view().update(i as int, user),
            final(self).etfs_view() == old(self).etfs_view(),
            final(self).wf(),
    {
        self.users.set(i, user);
    }

    /// Commits a mutated pool record back to its slot.  The record's key
    /// may not change, so uniqueness is preserved.
    pub fn set_etf(&mut self, i: usize, etf: ETF)
        requires
            old(self).wf(),
            i < old(self).etfs_view().len(),
            etf.manager == old(self).etfs_view()[i as int].manager,
            etf.created_at == old(self).etfs_view()[i as int].created_at,
        ensures
            final(self).etfs_view() == old(self).etfs_view().update(i as int, etf),
            final(self).users_view() == old(self).users_view(),
            final(self).wf(),
    {
        self.etfs.set(i, etf);
    }
}

/// Idempotence of registry creation: once a user record for `authority`
/// has been created, creating one for the same identity again — whatever
/// the username — fails with `AlreadyExists` and leaves every record,
/// the first one included, and the platform counters unchanged.
pub proof fn lemma_create_user_idempotent(
    users: Seq<User>,
    platform: Platform,
    authority: u64,
    first_name: String,
    second_name: String,
)
    requires
        create_user_spec(users, platform, authority, first_name).2 is Ok,
    ensures
        ({
            let (users1, platform1, _) = create_user_spec(users, platform, authority, first_name);
            create_user_spec(users1, platform1, authority, second_name) == (
                users1,
                platform1,
                Err::<(), SportPredictError>(SportPredictError::AlreadyExists),
            )
        }),
{
    let (users1, platform1, _) = create_user_spec(users, platform, authority, first_name);
    assert(users1[users.len() as int].authority == authority);
}

} // verus!
