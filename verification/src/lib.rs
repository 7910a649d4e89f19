//! An accounting engine for a betting-and-investment platform.
//!
//! The crate tracks user balances, wager records and their settlement,
//! pooled-investment shares, and a parallel token vault with withdrawal
//! cooldowns, strategy-tagged bets and fee collection.  Every public
//! operation is a single atomic transition: it validates all of its
//! preconditions against the records it was handed, and only then mutates
//! them, so a failed call leaves every record exactly as it was.
//!
//! The host that embeds this engine is responsible for loading records,
//! authenticating callers, moving tokens between custodial accounts and
//! reading the clock; each transition receives the caller identity and the
//! current time as plain values and never performs I/O itself.

pub mod ledger;
pub mod predict;
pub mod pool;
pub mod registry;
pub mod vault;
pub mod vault_model;
pub mod wager;
