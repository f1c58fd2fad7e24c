use vstd::prelude::*;
use crate::error::BadgeRewardsError;
use crate::ledger::{BadgeLedger, ledger_unchanged};
use crate::state::{Badge, UserBadge, badge_key_matches, user_badge_key_matches};

verus! {

/// A saturating increment: the counter sticks at the largest representable
/// value instead of wrapping.
pub open spec fn saturating_incremented(x: u64) -> u64 {
    if x == u64::MAX { u64::MAX } else { (x + 1) as u64 }
}

/// A saturating decrement: the counter sticks at zero instead of wrapping.
pub open spec fn saturating_decremented(x: u64) -> u64 {
    if x == 0 { 0 } else { (x - 1) as u64 }
}

/// The badge record after a stake: the same badge with its earn counter
/// incremented, saturating.
pub open spec fn staked_badge(b: Badge) -> Badge {
    Badge {
        owner: b.owner,
        badge_id: b.badge_id,
        name: b.name,
        description: b.description,
        icon_uri: b.icon_uri,
        required_points: b.required_points,
        max_earnings: b.max_earnings,
        total_earned: saturating_incremented(b.total_earned),
        is_active: b.is_active,
        bump: b.bump,
    }
}

/// The badge record after an unstake: the same badge with its earn counter
/// decremented, saturating at zero.
pub open spec fn unstaked_badge(b: Badge) -> Badge {
    Badge {
        owner: b.owner,
        badge_id: b.badge_id,
        name: b.name,
        description: b.description,
        icon_uri: b.icon_uri,
        required_points: b.required_points,
        max_earnings: b.max_earnings,
        total_earned: saturating_decremented(b.total_earned),
        is_active: b.is_active,
        bump: b.bump,
    }
}

/// The issuance record a successful stake stores.
pub open spec fn new_user_badge(user: u64, badge_id: u64, now: i64, bump: u8) -> UserBadge {
    UserBadge { user, badge_id, earned_at: now, bump }
}

/// The decision `stake_badge` makes, in check order: the badge must stand
/// at (owner, badge_id); the store refuses a second issuance record at an
/// occupied (user, badge_id) identity; the badge must be active. The
/// stored earnings cap (`max_earnings`) is not enforced here: the counter
/// saturates instead. The signature comparison of the stored owner is
/// subsumed by the identity lookup.
pub open spec fn stake_badge_result(s: BadgeLedger, owner: u64, badge_id: u64, user: u64) -> Result<
    (),
    BadgeRewardsError,
> {
    if !s.has_badge(owner, badge_id) {
        Err(BadgeRewardsError::BadgeNotFound)
    } else if s.has_user_badge(user, badge_id) {
        Err(BadgeRewardsError::BadgeAlreadyEarned)
    } else if !s.badge_at(owner, badge_id).is_active {
        Err(BadgeRewardsError::BadgeNotActive)
    } else {
        Ok(())
    }
}

/// How a successful stake changes the ledger: the badge's earn counter is
/// incremented (saturating) and a fresh issuance record is appended;
/// nothing else moves.
pub open spec fn stake_recorded(
    pre: BadgeLedger,
    post: BadgeLedger,
    owner: u64,
    badge_id: u64,
    user: u64,
    now: i64,
    bump: u8,
) -> bool {
    &&& post.badges@ == pre.badges@.update(
        pre.badge_index(owner, badge_id),
        staked_badge(pre.badge_at(owner, badge_id)),
    )
    &&& post.user_badges@ == pre.user_badges@.push(new_user_badge(user, badge_id, now, bump))
    &&& post.rewards@ == pre.rewards@
    &&& post.user_rewards@ == pre.user_rewards@
}

/// The decision `unstake_badge` makes, in check order: the badge must
/// stand at (owner, badge_id) and the issuance record at (user, badge_id).
/// The signature and id comparisons of the stored records are subsumed by
/// the identity lookups.
pub open spec fn unstake_badge_result(s: BadgeLedger, owner: u64, badge_id: u64, user: u64) -> Result<
    (),
    BadgeRewardsError,
> {
    if !s.has_badge(owner, badge_id) {
        Err(BadgeRewardsError::BadgeNotFound)
    } else if !s.has_user_badge(user, badge_id) {
        Err(BadgeRewardsError::UserBadgeNotFound)
    } else {
        Ok(())
    }
}

/// How a successful unstake changes the ledger: the badge's earn counter
/// is decremented (saturating at zero) and nothing else moves. In
/// particular the issuance record is kept, which is why a later stake for
/// the same (user, badge_id) still finds the identity occupied.
pub open spec fn unstake_recorded(
    pre: BadgeLedger,
    post: BadgeLedger,
    owner: u64,
    badge_id: u64,
) -> bool {
    &&& post.badges@ == pre.badges@.update(
        pre.badge_index(owner, badge_id),
        unstaked_badge(pre.badge_at(owner, badge_id)),
    )
    &&& post.user_badges@ == pre.user_badges@
    &&& post.rewards@ == pre.rewards@
    &&& post.user_rewards@ == pre.user_rewards@
}

impl BadgeLedger {
    /// Grant a badge to a user: create the issuance record at
    /// (user, badge_id) and count the earning on the badge.
    ///
    /// The caller must hold the badge owner's signature capability, which
    /// also names the badge identity; `now` is the runtime's clock reading
    /// and `bump` the derivation nonce for the new record. Creation is
    /// one-shot: if an issuance record already occupies (user, badge_id),
    /// even one left behind by an unstake, the stake fails. Any failure
    /// leaves the ledger unchanged.
    pub fn stake_badge(
        &mut self,
        owner: u64,
        badge_id: u64,
        user: u64,
        now: i64,
        bump: u8,
    ) -> (result: Result<(), BadgeRewardsError>)
        requires
            old(self).wf(),
        ensures
            final(self).wf(),
            result == stake_badge_result(*old(self), owner, badge_id, user),
            result is Ok ==> {
                &&& stake_recorded(*old(self), *final(self), owner, badge_id, user, now, bump)
                &&& final(self).has_user_badge(user, badge_id)
                &&& final(self).user_badge_at(user, badge_id) == new_user_badge(user, badge_id, now, bump)
                &&& final(self).has_badge(owner, badge_id)
                &&& final(self).badge_at(owner, badge_id) == staked_badge(old(self).badge_at(owner, badge_id))
            },
            result is Err ==> ledger_unchanged(*old(self), *final(self)),
    {
        let i = match self.find_badge(owner, badge_id) {
            Some(i) => i,
            None => {
                return Err(BadgeRewardsError::BadgeNotFound);
            }
        };
        proof {
            self.lemma_badge_at_index(i as int, owner, badge_id);
        }
        if let Some(_) = self.find_user_badge(user, badge_id) {
            return Err(BadgeRewardsError::BadgeAlreadyEarned);
        }
        if !self.badges[i].is_active {
            return Err(BadgeRewardsError::BadgeNotActive);
        }
        self.user_badges.push(UserBadge { user, badge_id, earned_at: now, bump });
        proof {
            BadgeLedger::lemma_push_user_badge_wf(
                *old(self), *self, new_user_badge(user, badge_id, now, bump),
            );
        }
        let ghost mid = *self;
        let ghost b = staked_badge(old(self).badges@[i as int]);
        let badge = &mut self.badges[i];
        badge.total_earned = badge.total_earned.saturating_add(1);
        proof {
            assert(self.badges@[i as int] == b);
            BadgeLedger::lemma_set_badge_wf(mid, *self, i as int, b);
            self.lemma_badge_at_index(i as int, owner, badge_id);
            self.lemma_user_badge_at_index(
                old(self).user_badges@.len() as int, user, badge_id,
            );
        }
        Ok(())
    }

    /// Record that a user no longer actively holds a badge: the badge's
    /// earn counter is decremented, saturating at zero.
    ///
    /// The caller must hold the badge owner's signature capability. The
    /// issuance record itself is not removed, so the same badge can never
    /// be staked to the same user again; there is no re-stake path in
    /// scope. Any failure leaves the ledger unchanged.
    pub fn unstake_badge(&mut self, owner: u64, badge_id: u64, user: u64) -> (result: Result<
        (),
        BadgeRewardsError,
    >)
        requires
            old(self).wf(),
        ensures
            final(self).wf(),
            result == unstake_badge_result(*old(self), owner, badge_id, user),
            result is Ok ==> {
                &&& unstake_recorded(*old(self), *final(self), owner, badge_id)
                &&& final(self).has_badge(owner, badge_id)
                &&& final(self).badge_at(owner, badge_id) == unstaked_badge(old(self).badge_at(owner, badge_id))
                &&& final(self).has_user_badge(user, badge_id)
                &&& final(self).user_badge_at(user, badge_id) == old(self).user_badge_at(user, badge_id)
            },
            result is Err ==> ledger_unchanged(*old(self), *final(self)),
    {
        let i = match self.find_badge(owner, badge_id) {
            Some(i) => i,
            None => {
                return Err(BadgeRewardsError::BadgeNotFound);
            }
        };
        let j = match self.find_user_badge(user, badge_id) {
            Some(j) => j,
            None => {
                return Err(BadgeRewardsError::UserBadgeNotFound);
            }
        };
        proof {
            old(self).lemma_badge_at_index(i as int, owner, badge_id);
            old(self).lemma_user_badge_at_index(j as int, user, badge_id);
        }
        let ghost b = unstaked_badge(old(self).badges@[i as int]);
        let badge = &mut self.badges[i];
        if badge.total_earned > 0 {
            badge.total_earned = badge.total_earned - 1;
        }
        proof {
            assert(self.badges@[i as int] == b);
            BadgeLedger::lemma_set_badge_wf(*old(self), *self, i as int, b);
            self.lemma_badge_at_index(i as int, owner, badge_id);
            self.lemma_user_badge_at_index(j as int, user, badge_id);
        }
        Ok(())
    }
}

/// While an issuance record occupies (user, badge_id), any stake of that
/// badge identity for that user fails as already earned: the one-shot
/// creation is what bounds issuance to once per identity.
pub proof fn lemma_stake_blocked_while_issued(s: BadgeLedger, owner: u64, badge_id: u64, user: u64)
    requires
        s.has_badge(owner, badge_id),
        s.has_user_badge(user, badge_id),
    ensures
        stake_badge_result(s, owner, badge_id, user) == Err::<(), BadgeRewardsError>(
            BadgeRewardsError::BadgeAlreadyEarned,
        ),
{
}

/// A stake for (user, badge_id) after a prior successful stake of the same
/// identity fails as already earned, even when an unstake of that identity
/// lies between: unstaking keeps the issuance record, so the identity
/// stays occupied forever.
pub proof fn lemma_no_restake_after_unstake(
    pre: BadgeLedger,
    mid: BadgeLedger,
    post: BadgeLedger,
    owner: u64,
    badge_id: u64,
    user: u64,
    now: i64,
    bump: u8,
)
    requires
        pre.wf(),
        stake_badge_result(pre, owner, badge_id, user) is Ok,
        stake_recorded(pre, mid, owner, badge_id, user, now, bump),
        unstake_badge_result(mid, owner, badge_id, user) is Ok,
        unstake_recorded(mid, post, owner, badge_id),
    ensures
        stake_badge_result(post, owner, badge_id, user) == Err::<(), BadgeRewardsError>(
            BadgeRewardsError::BadgeAlreadyEarned,
        ),
{
    let bi = pre.badge_index(owner, badge_id);
    pre.lemma_badge_at_index(bi, owner, badge_id);
    let step = BadgeLedger {
        badges: mid.badges,
        rewards: pre.rewards,
        user_badges: pre.user_badges,
        user_rewards: pre.user_rewards,
    };
    BadgeLedger::lemma_set_badge_wf(pre, step, bi, staked_badge(pre.badge_at(owner, badge_id)));
    BadgeLedger::lemma_push_user_badge_wf(step, mid, new_user_badge(user, badge_id, now, bump));
    assert(badge_key_matches(mid.badges@[bi], owner, badge_id));
    mid.lemma_badge_at_index(bi, owner, badge_id);
    BadgeLedger::lemma_set_badge_wf(mid, post, bi, unstaked_badge(mid.badge_at(owner, badge_id)));
    assert(badge_key_matches(post.badges@[bi], owner, badge_id));
    post.lemma_badge_at_index(bi, owner, badge_id);
    let ui = pre.user_badges@.len() as int;
    assert(user_badge_key_matches(post.user_badges@[ui], user, badge_id));
    lemma_stake_blocked_while_issued(post, owner, badge_id, user);
}

} // verus!
