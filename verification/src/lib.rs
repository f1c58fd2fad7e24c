//! A badge-issuance and reward-claim ledger.
//!
//! Badges are achievements a badge owner defines; rewards are payouts tied to
//! a badge. Per-user issuance records prove that a badge was granted, and
//! per-user claim records guarantee at most one payout per (user, reward)
//! pair. All four record kinds live in a [`ledger::BadgeLedger`], a keyed
//! store in which every record occupies exactly one slot named by its
//! identity and creation is an atomic insert-if-absent.
//!
//! The surrounding runtime is expected to verify signatures, derive record
//! identities, supply the clock reading and the derivation nonce for new
//! records, and execute the payout actions that a successful claim returns;
//! the ledger itself only validates, decides, and records.

pub mod constants;
pub mod error;
pub mod state;
pub mod ledger;
pub mod badges;
pub mod rewards;
pub mod staking;
pub mod claims;
pub mod queries;
