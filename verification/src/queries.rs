use vstd::prelude::*;
use crate::error::BadgeRewardsError;
use crate::ledger::BadgeLedger;

verus! {

impl BadgeLedger {
    /// Enumerating the badges a user holds is left to an external indexer
    /// that scans the store for issuance records with a matching user
    /// field; this operation is a placeholder that always succeeds.
    pub fn get_user_badges(&self, user: u64) -> (result: Result<(), BadgeRewardsError>)
        ensures
            result == Ok::<(), BadgeRewardsError>(()),
    {
        let _ = user;
        Ok(())
    }

    /// Enumerating the rewards a user has claimed is left to an external
    /// indexer that scans the store for claim records with a matching user
    /// field; this operation is a placeholder that always succeeds.
    pub fn get_user_rewards(&self, user: u64) -> (result: Result<(), BadgeRewardsError>)
        ensures
            result == Ok::<(), BadgeRewardsError>(()),
    {
        let _ = user;
        Ok(())
    }
}

} // verus!
