use vstd::prelude::*;
use crate::constants::{
    MAX_NAME_LEN, MAX_DESCRIPTION_LEN, REWARD_TYPE_TOKEN, REWARD_TYPE_NFT, REWARD_TYPE_OTHER,
};
use crate::error::BadgeRewardsError;
use crate::ledger::{BadgeLedger, ledger_unchanged};
use crate::state::{Reward, reward_key_matches};

verus! {

/// The reward record a successful creation stores: all supplied fields
/// verbatim, including whichever mint fields were supplied, with no
/// cross-clearing at creation time.
pub open spec fn new_reward(
    owner: u64,
    badge_id: u64,
    reward_id: u64,
    name: Vec<u8>,
    description: Vec<u8>,
    reward_type: u8,
    reward_value: u64,
    token_mint: Option<u64>,
    nft_mint: Option<u64>,
    is_active: bool,
    bump: u8,
) -> Reward {
    Reward {
        owner,
        badge_id,
        reward_id,
        name,
        description,
        reward_type,
        reward_value,
        token_mint,
        nft_mint,
        is_active,
        bump,
    }
}

/// The decision `initialize_reward` makes, in check order: the store
/// refuses a second record at an occupied identity, the reward type must be
/// a known kind, the value positive, the strings within their ceilings, and
/// the mint matching the declared type must be present.
pub open spec fn initialize_reward_result(
    s: BadgeLedger,
    owner: u64,
    badge_id: u64,
    reward_id: u64,
    name: Vec<u8>,
    description: Vec<u8>,
    reward_type: u8,
    reward_value: u64,
    token_mint: Option<u64>,
    nft_mint: Option<u64>,
) -> Result<(), BadgeRewardsError> {
    if s.has_reward(owner, badge_id, reward_id) {
        Err(BadgeRewardsError::RewardAlreadyExists)
    } else if reward_type > REWARD_TYPE_OTHER {
        Err(BadgeRewardsError::InvalidRewardType)
    } else if reward_value == 0 {
        Err(BadgeRewardsError::InvalidRewardValue)
    } else if name@.len() > MAX_NAME_LEN {
        Err(BadgeRewardsError::NameTooLong)
    } else if description@.len() > MAX_DESCRIPTION_LEN {
        Err(BadgeRewardsError::DescriptionTooLong)
    } else if reward_type == REWARD_TYPE_TOKEN && token_mint is None {
        Err(BadgeRewardsError::MissingTokenMint)
    } else if reward_type == REWARD_TYPE_NFT && nft_mint is None {
        Err(BadgeRewardsError::MissingNftMint)
    } else {
        Ok(())
    }
}

/// The reward record after an update. The reward type is applied first;
/// each supplied mint is then judged against the now-current type: a
/// supplied token mint is kept only if that type is token, otherwise the
/// stored token mint is cleared to absent, and symmetrically for the
/// non-fungible mint. An absent mint argument leaves the stored mint
/// untouched. The identity (owner, badge id, reward id) is never patchable.
pub open spec fn updated_reward(
    r: Reward,
    name: Option<Vec<u8>>,
    description: Option<Vec<u8>>,
    reward_type: Option<u8>,
    reward_value: Option<u64>,
    token_mint: Option<u64>,
    nft_mint: Option<u64>,
    is_active: Option<bool>,
) -> Reward {
    let new_type = match reward_type { Some(t) => t, None => r.reward_type };
    Reward {
        owner: r.owner,
        badge_id: r.badge_id,
        reward_id: r.reward_id,
        name: match name { Some(n) => n, None => r.name },
        description: match description { Some(d) => d, None => r.description },
        reward_type: new_type,
        reward_value: match reward_value { Some(v) => v, None => r.reward_value },
        token_mint: match token_mint {
            Some(m) => if new_type == REWARD_TYPE_TOKEN { Some(m) } else { None },
            None => r.token_mint,
        },
        nft_mint: match nft_mint {
            Some(m) => if new_type == REWARD_TYPE_NFT { Some(m) } else { None },
            None => r.nft_mint,
        },
        is_active: match is_active { Some(a) => a, None => r.is_active },
        bump: r.bump,
    }
}

/// The decision `update_reward` makes, in check order: the reward must
/// stand at (owner, badge_id, reward_id), then each supplied field is
/// validated with the same bound as creation. Mint arguments are never
/// rejected; they are kept or cleared by the type policy. The signature and
/// id comparisons of the stored record are subsumed by the identity lookup:
/// a record found at (owner, badge_id, reward_id) carries exactly those
/// fields.
pub open spec fn update_reward_result(
    s: BadgeLedger,
    owner: u64,
    badge_id: u64,
    reward_id: u64,
    name: Option<Vec<u8>>,
    description: Option<Vec<u8>>,
    reward_type: Option<u8>,
    reward_value: Option<u64>,
) -> Result<(), BadgeRewardsError> {
    if !s.has_reward(owner, badge_id, reward_id) {
        Err(BadgeRewardsError::RewardNotFound)
    } else if name matches Some(n) && n@.len() > MAX_NAME_LEN {
        Err(BadgeRewardsError::NameTooLong)
    } else if description matches Some(d) && d@.len() > MAX_DESCRIPTION_LEN {
        Err(BadgeRewardsError::DescriptionTooLong)
    } else if reward_type matches Some(t) && t > REWARD_TYPE_OTHER {
        Err(BadgeRewardsError::InvalidRewardType)
    } else if reward_value matches Some(v) && v == 0 {
        Err(BadgeRewardsError::InvalidRewardValue)
    } else {
        Ok(())
    }
}

/// A reward patched to the plain kind while supplying a token mint ends
/// with no stored token mint, whatever mint value was supplied: the mint
/// policy judges the supplied mint against the new type and clears it.
pub proof fn lemma_patch_to_other_clears_token_mint(
    pre: BadgeLedger,
    post: BadgeLedger,
    owner: u64,
    badge_id: u64,
    reward_id: u64,
    name: Option<Vec<u8>>,
    description: Option<Vec<u8>>,
    reward_value: Option<u64>,
    token_mint: u64,
    nft_mint: Option<u64>,
    is_active: Option<bool>,
)
    requires
        pre.wf(),
        update_reward_result(
            pre, owner, badge_id, reward_id, name, description, Some(REWARD_TYPE_OTHER),
            reward_value,
        ) is Ok,
        post.rewards@ == pre.rewards@.update(
            pre.reward_index(owner, badge_id, reward_id),
            updated_reward(
                pre.reward_at(owner, badge_id, reward_id), name, description,
                Some(REWARD_TYPE_OTHER), reward_value, Some(token_mint), nft_mint, is_active,
            ),
        ),
        post.badges@ == pre.badges@,
        post.user_badges@ == pre.user_badges@,
        post.user_rewards@ == pre.user_rewards@,
    ensures
        post.has_reward(owner, badge_id, reward_id),
        post.reward_at(owner, badge_id, reward_id).token_mint is None,
{
    let ri = pre.reward_index(owner, badge_id, reward_id);
    pre.lemma_reward_at_index(ri, owner, badge_id, reward_id);
    let r2 = updated_reward(
        pre.reward_at(owner, badge_id, reward_id), name, description, Some(REWARD_TYPE_OTHER),
        reward_value, Some(token_mint), nft_mint, is_active,
    );
    BadgeLedger::lemma_set_reward_wf(pre, post, ri, r2);
    assert(reward_key_matches(post.rewards@[ri], owner, badge_id, reward_id));
    post.lemma_reward_at_index(ri, owner, badge_id, reward_id);
}

impl BadgeLedger {
    /// Create a reward definition at the identity
    /// (owner, badge_id, reward_id), attached to the badge of that owner
    /// and badge id.
    ///
    /// The caller must hold the owner's signature capability; `bump` is the
    /// derivation nonce the runtime produced for the new identity. A token
    /// reward must supply its token mint and a non-fungible reward its
    /// asset mint; all supplied fields, mints included, are stored
    /// verbatim. Any failure leaves the ledger unchanged.
    pub fn initialize_reward(
        &mut self,
        owner: u64,
        badge_id: u64,
        reward_id: u64,
        name: Vec<u8>,
        description: Vec<u8>,
        reward_type: u8,
        reward_value: u64,
        token_mint: Option<u64>,
        nft_mint: Option<u64>,
        is_active: bool,
        bump: u8,
    ) -> (result: Result<(), BadgeRewardsError>)
        requires
            old(self).wf(),
        ensures
            final(self).wf(),
            result == initialize_reward_result(
                *old(self), owner, badge_id, reward_id, name, description, reward_type,
                reward_value, token_mint, nft_mint,
            ),
            result is Ok ==> {
                &&& final(self).rewards@ == old(self).rewards@.push(
                    new_reward(
                        owner, badge_id, reward_id, name, description, reward_type,
                        reward_value, token_mint, nft_mint, is_active, bump,
                    ),
                )
                &&& final(self).has_reward(owner, badge_id, reward_id)
                &&& final(self).reward_at(owner, badge_id, reward_id) == new_reward(
                    owner, badge_id, reward_id, name, description, reward_type,
                    reward_value, token_mint, nft_mint, is_active, bump,
                )
                &&& final(self).badges@ == old(self).badges@
                &&& final(self).user_badges@ == old(self).user_badges@
                &&& final(self).user_rewards@ == old(self).user_rewards@
            },
            result is Err ==> ledger_unchanged(*old(self), *final(self)),
    {
        if let Some(_) = self.find_reward(owner, badge_id, reward_id) {
            return Err(BadgeRewardsError::RewardAlreadyExists);
        }
        if reward_type > REWARD_TYPE_OTHER {
            return Err(BadgeRewardsError::InvalidRewardType);
        }
        if reward_value == 0 {
            return Err(BadgeRewardsError::InvalidRewardValue);
        }
        if name.len() > MAX_NAME_LEN {
            return Err(BadgeRewardsError::NameTooLong);
        }
        if description.len() > MAX_DESCRIPTION_LEN {
            return Err(BadgeRewardsError::DescriptionTooLong);
        }
        if reward_type == REWARD_TYPE_TOKEN && token_mint.is_none() {
            return Err(BadgeRewardsError::MissingTokenMint);
        }
        if reward_type == REWARD_TYPE_NFT && nft_mint.is_none() {
            return Err(BadgeRewardsError::MissingNftMint);
        }
        let ghost r = new_reward(
            owner, badge_id, reward_id, name, description, reward_type, reward_value,
            token_mint, nft_mint, is_active, bump,
        );
        self.rewards.push(
            Reward {
                owner,
                badge_id,
                reward_id,
                name,
                description,
                reward_type,
                reward_value,
                token_mint,
                nft_mint,
                is_active,
                bump,
            },
        );
        proof {
            BadgeLedger::lemma_push_reward_wf(*old(self), *self, r);
            self.lemma_reward_at_index(old(self).rewards@.len() as int, owner, badge_id, reward_id);
        }
        Ok(())
    }

    /// Patch a reward definition field by field.
    ///
    /// The caller must hold the owner's signature capability, which with
    /// the badge and reward ids names the identity. A supplied reward type
    /// is applied first; each supplied mint is then kept or cleared against
    /// the now-current type, so changing type and mint in the same call is
    /// judged by the new type, not the old one. Any failure leaves the
    /// ledger unchanged.
    pub fn update_reward(
        &mut self,
        owner: u64,
        badge_id: u64,
        reward_id: u64,
        name: Option<Vec<u8>>,
        description: Option<Vec<u8>>,
        reward_type: Option<u8>,
        reward_value: Option<u64>,
        token_mint: Option<u64>,
        nft_mint: Option<u64>,
        is_active: Option<bool>,
    ) -> (result: Result<(), BadgeRewardsError>)
        requires
            old(self).wf(),
        ensures
            final(self).wf(),
            result == update_reward_result(
                *old(self), owner, badge_id, reward_id, name, description, reward_type,
                reward_value,
            ),
            result is Ok ==> {
                &&& final(self).rewards@ == old(self).rewards@.update(
                    old(self).reward_index(owner, badge_id, reward_id),
                    updated_reward(
                        old(self).reward_at(owner, badge_id, reward_id), name, description,
                        reward_type, reward_value, token_mint, nft_mint, is_active,
                    ),
                )
                &&& final(self).has_reward(owner, badge_id, reward_id)
                &&& final(self).reward_at(owner, badge_id, reward_id) == updated_reward(
                    old(self).reward_at(owner, badge_id, reward_id), name, description,
                    reward_type, reward_value, token_mint, nft_mint, is_active,
                )
                &&& final(self).badges@ == old(self).badges@
                &&& final(self).user_badges@ == old(self).user_badges@
                &&& final(self).user_rewards@ == old(self).user_rewards@
            },
            result is Err ==> ledger_unchanged(*old(self), *final(self)),
    {
        let i = match self.find_reward(owner, badge_id, reward_id) {
            Some(i) => i,
            None => {
                return Err(BadgeRewardsError::RewardNotFound);
            }
        };
        if let Some(n) = &name {
            if n.len() > MAX_NAME_LEN {
                return Err(BadgeRewardsError::NameTooLong);
            }
        }
        if let Some(d) = &description {
            if d.len() > MAX_DESCRIPTION_LEN {
                return Err(BadgeRewardsError::DescriptionTooLong);
            }
        }
        if let Some(t) = &reward_type {
            if *t > REWARD_TYPE_OTHER {
                return Err(BadgeRewardsError::InvalidRewardType);
            }
        }
        if let Some(v) = &reward_value {
            if *v == 0 {
                return Err(BadgeRewardsError::InvalidRewardValue);
            }
        }
        let ghost r = updated_reward(
            old(self).rewards@[i as int], name, description, reward_type, reward_value,
            token_mint, nft_mint, is_active,
        );
        let reward = &mut self.rewards[i];
        if let Some(n) = name {
            reward.name = n;
        }
        if let Some(d) = description {
            reward.description = d;
        }
        if let Some(t) = reward_type {
            reward.reward_type = t;
        }
        if let Some(v) = reward_value {
            reward.reward_value = v;
        }
        if let Some(m) = token_mint {
            if reward.reward_type == REWARD_TYPE_TOKEN {
                reward.token_mint = Some(m);
            } else {
                reward.token_mint = None;
            }
        }
        if let Some(m) = nft_mint {
            if reward.reward_type == REWARD_TYPE_NFT {
                reward.nft_mint = Some(m);
            } else {
                reward.nft_mint = None;
            }
        }
        if let Some(a) = is_active {
            reward.is_active = a;
        }
        proof {
            assert(self.rewards@[i as int] == r);
            old(self).lemma_reward_at_index(i as int, owner, badge_id, reward_id);
            BadgeLedger::lemma_set_reward_wf(*old(self), *self, i as int, r);
            self.lemma_reward_at_index(i as int, owner, badge_id, reward_id);
        }
        Ok(())
    }
}

} // verus!
