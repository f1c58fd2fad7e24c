use vstd::prelude::*;
use crate::constants::{REWARD_TYPE_TOKEN, REWARD_TYPE_NFT, REWARD_TYPE_OTHER};
use crate::error::BadgeRewardsError;
use crate::ledger::{BadgeLedger, ledger_unchanged};
use crate::state::{
    UserReward, badge_key_matches, reward_key_matches, user_badge_key_matches,
    user_reward_key_matches,
};

verus! {

/// What the runtime must do after a successful claim. The ledger decides
/// and records; moving balances is the runtime's work.
#[derive(Clone, Copy, Debug, PartialEq, Eq, Structural)]
pub enum PayoutAction {
    /// Move `amount` units of `mint` from the reward-held balance to the
    /// user, with the badge record acting as transfer authority.
    TokenTransfer { mint: u64, amount: u64 },
    /// The claim was recorded and the asset's presence verified; the
    /// non-fungible transfer itself is not performed in scope.
    NftPending { mint: u64 },
    /// Nothing to move.
    NoTransfer,
}

/// The claim record a successful claim stores.
pub open spec fn new_user_reward(user: u64, reward_id: u64, now: i64, bump: u8) -> UserReward {
    UserReward { user, reward_id, claimed_at: now, bump }
}

/// The decision `claim_reward` makes, in check order: the badge, the
/// reward, and the claimer's issuance record must stand at their
/// identities; the reward must be active and its stored type and value
/// must equal the passed-in ones (a defense against stale or forged
/// parameters); no claim record may already occupy (user, reward_id); and
/// the mint the stored type calls for must be present; for a token reward
/// it must also equal the supplied mint reference. The owner, id and
/// holder comparisons of the stored records are subsumed by the identity
/// lookups. The final arm rejecting an unknown type is defensive: a stored
/// type is always a known kind, and the passed-in type must equal it.
pub open spec fn claim_reward_result(
    s: BadgeLedger,
    user: u64,
    owner: u64,
    badge_id: u64,
    reward_id: u64,
    reward_type: u8,
    reward_value: u64,
    supplied_mint: u64,
) -> Result<PayoutAction, BadgeRewardsError> {
    if !s.has_badge(owner, badge_id) {
        Err(BadgeRewardsError::BadgeNotFound)
    } else if !s.has_reward(owner, badge_id, reward_id) {
        Err(BadgeRewardsError::RewardNotFound)
    } else if !s.reward_at(owner, badge_id, reward_id).is_active {
        Err(BadgeRewardsError::RewardNotActive)
    } else if s.reward_at(owner, badge_id, reward_id).reward_type != reward_type {
        Err(BadgeRewardsError::InvalidRewardType)
    } else if s.reward_at(owner, badge_id, reward_id).reward_value != reward_value {
        Err(BadgeRewardsError::InvalidRewardValue)
    } else if !s.has_user_badge(user, badge_id) {
        Err(BadgeRewardsError::UserBadgeNotFound)
    } else if s.has_user_reward(user, reward_id) {
        Err(BadgeRewardsError::RewardAlreadyClaimed)
    } else if reward_type == REWARD_TYPE_TOKEN {
        match s.reward_at(owner, badge_id, reward_id).token_mint {
            None => Err(BadgeRewardsError::MissingTokenMint),
            Some(m) => if m != supplied_mint {
                Err(BadgeRewardsError::InvalidTokenMint)
            } else {
                Ok(PayoutAction::TokenTransfer { mint: supplied_mint, amount: reward_value })
            },
        }
    } else if reward_type == REWARD_TYPE_NFT {
        match s.reward_at(owner, badge_id, reward_id).nft_mint {
            None => Err(BadgeRewardsError::MissingNftMint),
            Some(m) => Ok(PayoutAction::NftPending { mint: m }),
        }
    } else if reward_type == REWARD_TYPE_OTHER {
        Ok(PayoutAction::NoTransfer)
    } else {
        Err(BadgeRewardsError::InvalidRewardType)
    }
}

/// How a successful claim changes the ledger: a fresh claim record is
/// appended and nothing else moves.
pub open spec fn claim_recorded(
    pre: BadgeLedger,
    post: BadgeLedger,
    user: u64,
    reward_id: u64,
    now: i64,
    bump: u8,
) -> bool {
    &&& post.user_rewards@ == pre.user_rewards@.push(new_user_reward(user, reward_id, now, bump))
    &&& post.badges@ == pre.badges@
    &&& post.rewards@ == pre.rewards@
    &&& post.user_badges@ == pre.user_badges@
}

impl BadgeLedger {
    /// Claim a reward: validate the badge/reward/issuance linkage, decide
    /// the payout, and durably record the claim at (user, reward_id).
    ///
    /// The caller must hold the user's signature capability; `owner`,
    /// `reward_type` and `reward_value` are passed in and checked against
    /// the stored records; `supplied_mint` is the mint reference the
    /// caller's transfer accounts were built for; `now` is the runtime's
    /// clock reading and `bump` the derivation nonce for the new record.
    /// The recorded claim is what blocks a repeat: the identity
    /// (user, reward_id) can be created only once. Any failure leaves the
    /// ledger unchanged, and a successful payout action is returned for
    /// the runtime to execute within the same transaction.
    pub fn claim_reward(
        &mut self,
        user: u64,
        owner: u64,
        badge_id: u64,
        reward_id: u64,
        reward_type: u8,
        reward_value: u64,
        supplied_mint: u64,
        now: i64,
        bump: u8,
    ) -> (result: Result<PayoutAction, BadgeRewardsError>)
        requires
            old(self).wf(),
        ensures
            final(self).wf(),
            result == claim_reward_result(
                *old(self), user, owner, badge_id, reward_id, reward_type, reward_value,
                supplied_mint,
            ),
            result is Ok ==> {
                &&& claim_recorded(*old(self), *final(self), user, reward_id, now, bump)
                &&& final(self).has_user_reward(user, reward_id)
                &&& final(self).user_reward_at(user, reward_id) == new_user_reward(user, reward_id, now, bump)
            },
            result is Err ==> ledger_unchanged(*old(self), *final(self)),
    {
        if self.find_badge(owner, badge_id).is_none() {
            return Err(BadgeRewardsError::BadgeNotFound);
        }
        let ri = match self.find_reward(owner, badge_id, reward_id) {
            Some(i) => i,
            None => {
                return Err(BadgeRewardsError::RewardNotFound);
            }
        };
        proof {
            self.lemma_reward_at_index(ri as int, owner, badge_id, reward_id);
        }
        if !self.rewards[ri].is_active {
            return Err(BadgeRewardsError::RewardNotActive);
        }
        if self.rewards[ri].reward_type != reward_type {
            return Err(BadgeRewardsError::InvalidRewardType);
        }
        if self.rewards[ri].reward_value != reward_value {
            return Err(BadgeRewardsError::InvalidRewardValue);
        }
        if self.find_user_badge(user, badge_id).is_none() {
            return Err(BadgeRewardsError::UserBadgeNotFound);
        }
        if let Some(_) = self.find_user_reward(user, reward_id) {
            return Err(BadgeRewardsError::RewardAlreadyClaimed);
        }
        let action: PayoutAction;
        if reward_type == REWARD_TYPE_TOKEN {
            match self.rewards[ri].token_mint {
                None => {
                    return Err(BadgeRewardsError::MissingTokenMint);
                }
                Some(m) => {
                    if m != supplied_mint {
                        return Err(BadgeRewardsError::InvalidTokenMint);
                    }
                    action = PayoutAction::TokenTransfer { mint: supplied_mint, amount: reward_value };
                }
            }
        } else if reward_type == REWARD_TYPE_NFT {
            match self.rewards[ri].nft_mint {
                None => {
                    return Err(BadgeRewardsError::MissingNftMint);
                }
                Some(m) => {
                    action = PayoutAction::NftPending { mint: m };
                }
            }
        } else if reward_type == REWARD_TYPE_OTHER {
            action = PayoutAction::NoTransfer;
        } else {
            return Err(BadgeRewardsError::InvalidRewardType);
        }
        self.user_rewards.push(UserReward { user, reward_id, claimed_at: now, bump });
        proof {
            BadgeLedger::lemma_push_user_reward_wf(
                *old(self), *self, new_user_reward(user, reward_id, now, bump),
            );
            self.lemma_user_reward_at_index(
                old(self).user_rewards@.len() as int, user, reward_id,
            );
        }
        Ok(action)
    }
}

/// While a claim record occupies (user, reward_id), any claim naming that
/// user and reward fails as already claimed, whatever the other arguments,
/// provided the badge/reward linkage it names exists and still checks out.
/// Together with `claim_reward` recording exactly that identity on
/// success, a claim can pay out at most once per (user, reward_id).
pub proof fn lemma_claim_at_most_once(
    pre: BadgeLedger,
    post: BadgeLedger,
    user: u64,
    owner: u64,
    badge_id: u64,
    reward_id: u64,
    reward_type: u8,
    reward_value: u64,
    supplied_mint: u64,
    now: i64,
    bump: u8,
)
    requires
        pre.wf(),
        claim_reward_result(
            pre, user, owner, badge_id, reward_id, reward_type, reward_value, supplied_mint,
        ) is Ok,
        claim_recorded(pre, post, user, reward_id, now, bump),
    ensures
        claim_reward_result(
            post, user, owner, badge_id, reward_id, reward_type, reward_value, supplied_mint,
        ) == Err::<PayoutAction, BadgeRewardsError>(BadgeRewardsError::RewardAlreadyClaimed),
{
    BadgeLedger::lemma_push_user_reward_wf(pre, post, new_user_reward(user, reward_id, now, bump));
    let bi = pre.badge_index(owner, badge_id);
    pre.lemma_badge_at_index(bi, owner, badge_id);
    assert(badge_key_matches(post.badges@[bi], owner, badge_id));
    let ri = pre.reward_index(owner, badge_id, reward_id);
    pre.lemma_reward_at_index(ri, owner, badge_id, reward_id);
    assert(reward_key_matches(post.rewards@[ri], owner, badge_id, reward_id));
    post.lemma_reward_at_index(ri, owner, badge_id, reward_id);
    let ui = pre.user_badge_index(user, badge_id);
    pre.lemma_user_badge_at_index(ui, user, badge_id);
    assert(user_badge_key_matches(post.user_badges@[ui], user, badge_id));
    let ci = pre.user_rewards@.len() as int;
    assert(user_reward_key_matches(post.user_rewards@[ci], user, reward_id));
}

} // verus!
