use vstd::prelude::*;
use crate::state::{
    Badge, Reward, UserBadge, UserReward, badge_valid, reward_valid, badge_key_matches,
    same_badge_key, reward_key_matches, same_reward_key, user_badge_key_matches,
    same_user_badge_key, user_reward_key_matches, same_user_reward_key,
};

verus! {

/// The keyed store holding all four record kinds.
///
/// Each record occupies exactly one slot named by its identity: badges by
/// (owner, badge_id), rewards by (owner, badge_id, reward_id), issuances by
/// (user, badge_id), claims by (user, reward_id). Creation is an atomic
/// insert-if-absent, which is the structural guarantee behind "at most one
/// issuance" and "at most one claim" per identity. Records are never
/// removed in scope.
pub struct BadgeLedger {
    /// Badge definitions.
    pub badges: Vec<Badge>,
    /// Reward definitions.
    pub rewards: Vec<Reward>,
    /// Per-user badge issuance records.
    pub user_badges: Vec<UserBadge>,
    /// Per-user reward claim records.
    pub user_rewards: Vec<UserReward>,
}

/// Whether two ledgers hold exactly the same records; a failing operation
/// leaves its ledger in this relation to the starting one.
pub open spec fn ledger_unchanged(pre: BadgeLedger, post: BadgeLedger) -> bool {
    &&& post.badges@ == pre.badges@
    &&& post.rewards@ == pre.rewards@
    &&& post.user_badges@ == pre.user_badges@
    &&& post.user_rewards@ == pre.user_rewards@
}

impl BadgeLedger {
    /// Well-formedness: within each record kind no two records share an
    /// identity, and every stored badge and reward satisfies its field
    /// bounds. Constructors establish it and every operation preserves it.
    pub open spec fn wf(self) -> bool {
        &&& forall|i: int, j: int|
            0 <= i < self.badges@.len() && 0 <= j < self.badges@.len()
                && same_badge_key(self.badges@[i], self.badges@[j]) ==> i == j
        &&& forall|i: int, j: int|
            0 <= i < self.rewards@.len() && 0 <= j < self.rewards@.len()
                && same_reward_key(self.rewards@[i], self.rewards@[j]) ==> i == j
        &&& forall|i: int, j: int|
            0 <= i < self.user_badges@.len() && 0 <= j < self.user_badges@.len()
                && same_user_badge_key(self.user_badges@[i], self.user_badges@[j]) ==> i == j
        &&& forall|i: int, j: int|
            0 <= i < self.user_rewards@.len() && 0 <= j < self.user_rewards@.len()
                && same_user_reward_key(self.user_rewards@[i], self.user_rewards@[j]) ==> i == j
        &&& forall|i: int| 0 <= i < self.badges@.len() ==> badge_valid(#[trigger] self.badges@[i])
        &&& forall|i: int| 0 <= i < self.rewards@.len() ==> reward_valid(#[trigger] self.rewards@[i])
    }

    /// Whether a badge record stands at (owner, badge_id).
    pub open spec fn has_badge(self, owner: u64, badge_id: u64) -> bool {
        exists|i: int|
            0 <= i < self.badges@.len() && badge_key_matches(#[trigger] self.badges@[i], owner, badge_id)
    }

    /// Index of the badge record at (owner, badge_id).
    pub open spec fn badge_index(self, owner: u64, badge_id: u64) -> int {
        choose|i: int|
            0 <= i < self.badges@.len() && badge_key_matches(#[trigger] self.badges@[i], owner, badge_id)
    }

    /// The badge record at (owner, badge_id); meaningful when `has_badge`.
    pub open spec fn badge_at(self, owner: u64, badge_id: u64) -> Badge {
        self.badges@[self.badge_index(owner, badge_id)]
    }

    /// Whether a reward record stands at (owner, badge_id, reward_id).
    pub open spec fn has_reward(self, owner: u64, badge_id: u64, reward_id: u64) -> bool {
        exists|i: int|
            0 <= i < self.rewards@.len()
                && reward_key_matches(#[trigger] self.rewards@[i], owner, badge_id, reward_id)
    }

    /// Index of the reward record at (owner, badge_id, reward_id).
    pub open spec fn reward_index(self, owner: u64, badge_id: u64, reward_id: u64) -> int {
        choose|i: int|
            0 <= i < self.rewards@.len()
                && reward_key_matches(#[trigger] self.rewards@[i], owner, badge_id, reward_id)
    }

    /// The reward record at (owner, badge_id, reward_id); meaningful when
    /// `has_reward`.
    pub open spec fn reward_at(self, owner: u64, badge_id: u64, reward_id: u64) -> Reward {
        self.rewards@[self.reward_index(owner, badge_id, reward_id)]
    }

    /// Whether an issuance record stands at (user, badge_id).
    pub open spec fn has_user_badge(self, user: u64, badge_id: u64) -> bool {
        exists|i: int|
            0 <= i < self.user_badges@.len()
                && user_badge_key_matches(#[trigger] self.user_badges@[i], user, badge_id)
    }

    /// Index of the issuance record at (user, badge_id).
    pub open spec fn user_badge_index(self, user: u64, badge_id: u64) -> int {
        choose|i: int|
            0 <= i < self.user_badges@.len()
                && user_badge_key_matches(#[trigger] self.user_badges@[i], user, badge_id)
    }

    /// The issuance record at (user, badge_id); meaningful when
    /// `has_user_badge`.
    pub open spec fn user_badge_at(self, user: u64, badge_id: u64) -> UserBadge {
        self.user_badges@[self.user_badge_index(user, badge_id)]
    }

    /// Whether a claim record stands at (user, reward_id).
    pub open spec fn has_user_reward(self, user: u64, reward_id: u64) -> bool {
        exists|i: int|
            0 <= i < self.user_rewards@.len()
                && user_reward_key_matches(#[trigger] self.user_rewards@[i], user, reward_id)
    }

    /// Index of the claim record at (user, reward_id).
    pub open spec fn user_reward_index(self, user: u64, reward_id: u64) -> int {
        choose|i: int|
            0 <= i < self.user_rewards@.len()
                && user_reward_key_matches(#[trigger] self.user_rewards@[i], user, reward_id)
    }

    /// The claim record at (user, reward_id); meaningful when
    /// `has_user_reward`.
    pub open spec fn user_reward_at(self, user: u64, reward_id: u64) -> UserReward {
        self.user_rewards@[self.user_reward_index(user, reward_id)]
    }

    /// An empty, well-formed ledger.
    pub fn new() -> (r: BadgeLedger)
        ensures
            r.wf(),
            r.badges@.len() == 0,
            r.rewards@.len() == 0,
            r.user_badges@.len() == 0,
            r.user_rewards@.len() == 0,
    {
        BadgeLedger { badges: Vec::new(), rewards: Vec::new(), user_badges: Vec::new(), user_rewards: Vec::new() }
    }

    /// Position of the badge record at (owner, badge_id), if one stands
    /// there.
    pub fn find_badge(&self, owner: u64, badge_id: u64) -> (r: Option<usize>)
        ensures
            match r {
                Some(i) => i < self.badges@.len()
                    && badge_key_matches(self.badges@[i as int], owner, badge_id)
                    && self.has_badge(owner, badge_id),
                None => !self.has_badge(owner, badge_id),
            },
    {
        let mut i: usize = 0;
        while i < self.badges.len()
            invariant
                i <= self.badges@.len(),
                forall|j: int| 0 <= j < i ==> !badge_key_matches(#[trigger] self.badges@[j], owner, badge_id),
            decreases self.badges@.len() - i,
        {
            if self.badges[i].owner == owner && self.badges[i].badge_id == badge_id {
                return Some(i);
            }
            i += 1;
        }
        None
    }

    /// Position of the reward record at (owner, badge_id, reward_id), if
    /// one stands there.
    pub fn find_reward(&self, owner: u64, badge_id: u64, reward_id: u64) -> (r: Option<usize>)
        ensures
            match r {
                Some(i) => i < self.rewards@.len()
                    && reward_key_matches(self.rewards@[i as int], owner, badge_id, reward_id)
                    && self.has_reward(owner, badge_id, reward_id),
                None => !self.has_reward(owner, badge_id, reward_id),
            },
    {
        let mut i: usize = 0;
        while i < self.rewards.len()
            invariant
                i <= self.rewards@.len(),
                forall|j: int|
                    0 <= j < i ==> !reward_key_matches(#[trigger] self.rewards@[j], owner, badge_id, reward_id),
            decreases self.rewards@.len() - i,
        {
            if self.rewards[i].owner == owner && self.rewards[i].badge_id == badge_id
                && self.rewards[i].reward_id == reward_id {
                return Some(i);
            }
            i += 1;
        }
        None
    }

    /// Position of the issuance record at (user, badge_id), if one stands
    /// there.
    pub fn find_user_badge(&self, user: u64, badge_id: u64) -> (r: Option<usize>)
        ensures
            match r {
                Some(i) => i < self.user_badges@.len()
                    && user_badge_key_matches(self.user_badges@[i as int], user, badge_id)
                    && self.has_user_badge(user, badge_id),
                None => !self.has_user_badge(user, badge_id),
            },
    {
        let mut i: usize = 0;
        while i < self.user_badges.len()
            invariant
                i <= self.user_badges@.len(),
                forall|j: int|
                    0 <= j < i ==> !user_badge_key_matches(#[trigger] self.user_badges@[j], user, badge_id),
            decreases self.user_badges@.len() - i,
        {
            if self.user_badges[i].user == user && self.user_badges[i].badge_id == badge_id {
                return Some(i);
            }
            i += 1;
        }
        None
    }

    /// Position of the claim record at (user, reward_id), if one stands
    /// there.
    pub fn find_user_reward(&self, user: u64, reward_id: u64) -> (r: Option<usize>)
        ensures
            match r {
                Some(i) => i < self.user_rewards@.len()
                    && user_reward_key_matches(self.user_rewards@[i as int], user, reward_id)
                    && self.has_user_reward(user, reward_id),
                None => !self.has_user_reward(user, reward_id),
            },
    {
        let mut i: usize = 0;
        while i < self.user_rewards.len()
            invariant
                i <= self.user_rewards@.len(),
                forall|j: int|
                    0 <= j < i ==> !user_reward_key_matches(#[trigger] self.user_rewards@[j], user, reward_id),
            decreases self.user_rewards@.len() - i,
        {
            if self.user_rewards[i].user == user && self.user_rewards[i].reward_id == reward_id {
                return Some(i);
            }
            i += 1;
        }
        None
    }

    /// In a well-formed ledger, an index whose badge record carries the
    /// identity (owner, badge_id) is the index the lookup names.
    pub proof fn lemma_badge_at_index(self, i: int, owner: u64, badge_id: u64)
        requires
            self.wf(),
            0 <= i < self.badges@.len(),
            badge_key_matches(self.badges@[i], owner, badge_id),
        ensures
            self.has_badge(owner, badge_id),
            self.badge_index(owner, badge_id) == i,
            self.badge_at(owner, badge_id) == self.badges@[i],
    {
        assert(self.has_badge(owner, badge_id));
        let j = self.badge_index(owner, badge_id);
        assert(same_badge_key(self.badges@[i], self.badges@[j]));
    }

    /// In a well-formed ledger, an index whose reward record carries the
    /// identity (owner, badge_id, reward_id) is the index the lookup names.
    pub proof fn lemma_reward_at_index(self, i: int, owner: u64, badge_id: u64, reward_id: u64)
        requires
            self.wf(),
            0 <= i < self.rewards@.len(),
            reward_key_matches(self.rewards@[i], owner, badge_id, reward_id),
        ensures
            self.has_reward(owner, badge_id, reward_id),
            self.reward_index(owner, badge_id, reward_id) == i,
            self.reward_at(owner, badge_id, reward_id) == self.rewards@[i],
    {
        assert(self.has_reward(owner, badge_id, reward_id));
        let j = self.reward_index(owner, badge_id, reward_id);
        assert(same_reward_key(self.rewards@[i], self.rewards@[j]));
    }

    /// In a well-formed ledger, an index whose issuance record carries the
    /// identity (user, badge_id) is the index the lookup names.
    pub proof fn lemma_user_badge_at_index(self, i: int, user: u64, badge_id: u64)
        requires
            self.wf(),
            0 <= i < self.user_badges@.len(),
            user_badge_key_matches(self.user_badges@[i], user, badge_id),
        ensures
            self.has_user_badge(user, badge_id),
            self.user_badge_index(user, badge_id) == i,
            self.user_badge_at(user, badge_id) == self.user_badges@[i],
    {
        assert(self.has_user_badge(user, badge_id));
        let j = self.user_badge_index(user, badge_id);
        assert(same_user_badge_key(self.user_badges@[i], self.user_badges@[j]));
    }

    /// In a well-formed ledger, an index whose claim record carries the
    /// identity (user, reward_id) is the index the lookup names.
    pub proof fn lemma_user_reward_at_index(self, i: int, user: u64, reward_id: u64)
        requires
            self.wf(),
            0 <= i < self.user_rewards@.len(),
            user_reward_key_matches(self.user_rewards@[i], user, reward_id),
        ensures
            self.has_user_reward(user, reward_id),
            self.user_reward_index(user, reward_id) == i,
            self.user_reward_at(user, reward_id) == self.user_rewards@[i],
    {
        assert(self.has_user_reward(user, reward_id));
        let j = self.user_reward_index(user, reward_id);
        assert(same_user_reward_key(self.user_rewards@[i], self.user_rewards@[j]));
    }

    /// The badge record at (owner, badge_id), if one stands there.
    pub fn get_badge(&self, owner: u64, badge_id: u64) -> (r: Option<&Badge>)
        requires
            self.wf(),
        ensures
            match r {
                Some(b) => self.has_badge(owner, badge_id) && *b == self.badge_at(owner, badge_id),
                None => !self.has_badge(owner, badge_id),
            },
    {
        match self.find_badge(owner, badge_id) {
            Some(i) => {
                proof { self.lemma_badge_at_index(i as int, owner, badge_id); }
                Some(&self.badges[i])
            }
            None => None,
        }
    }

    /// The reward record at (owner, badge_id, reward_id), if one stands
    /// there.
    pub fn get_reward(&self, owner: u64, badge_id: u64, reward_id: u64) -> (r: Option<&Reward>)
        requires
            self.wf(),
        ensures
            match r {
                Some(w) => self.has_reward(owner, badge_id, reward_id)
                    && *w == self.reward_at(owner, badge_id, reward_id),
                None => !self.has_reward(owner, badge_id, reward_id),
            },
    {
        match self.find_reward(owner, badge_id, reward_id) {
            Some(i) => {
                proof { self.lemma_reward_at_index(i as int, owner, badge_id, reward_id); }
                Some(&self.rewards[i])
            }
            None => None,
        }
    }

    /// The issuance record at (user, badge_id), if one stands there.
    pub fn get_user_badge(&self, user: u64, badge_id: u64) -> (r: Option<&UserBadge>)
        requires
            self.wf(),
        ensures
            match r {
                Some(ub) => self.has_user_badge(user, badge_id)
                    && *ub == self.user_badge_at(user, badge_id),
                None => !self.has_user_badge(user, badge_id),
            },
    {
        match self.find_user_badge(user, badge_id) {
            Some(i) => {
                proof { self.lemma_user_badge_at_index(i as int, user, badge_id); }
                Some(&self.user_badges[i])
            }
            None => None,
        }
    }

    /// Appending a badge at a free identity keeps the ledger well-formed.
    pub proof fn lemma_push_badge_wf(pre: BadgeLedger, post: BadgeLedger, b: Badge)
        requires
            pre.wf(),
            !pre.has_badge(b.owner, b.badge_id),
            badge_valid(b),
            post.badges@ == pre.badges@.push(b),
            post.rewards@ == pre.rewards@,
            post.user_badges@ == pre.user_badges@,
            post.user_rewards@ == pre.user_rewards@,
        ensures
            post.wf(),
    {
        let n = pre.badges@.len() as int;
        assert forall|i: int, j: int|
            0 <= i < post.badges@.len() && 0 <= j < post.badges@.len()
                && same_badge_key(post.badges@[i], post.badges@[j]) implies i == j by {
            if i < n && j < n {
                assert(same_badge_key(pre.badges@[i], pre.badges@[j]));
            } else if i == n && j < n {
                assert(badge_key_matches(pre.badges@[j], b.owner, b.badge_id));
            } else if j == n && i < n {
                assert(badge_key_matches(pre.badges@[i], b.owner, b.badge_id));
            }
        }
        assert forall|i: int| 0 <= i < post.badges@.len() implies badge_valid(#[trigger] post.badges@[i]) by {
            if i < n {
                assert(post.badges@[i] == pre.badges@[i]);
            } else {
                assert(post.badges@[i] == b);
            }
        }
    }

    /// Replacing a badge with one of the same identity and valid fields
    /// keeps the ledger well-formed.
    pub proof fn lemma_set_badge_wf(pre: BadgeLedger, post: BadgeLedger, i: int, b: Badge)
        requires
            pre.wf(),
            0 <= i < pre.badges@.len(),
            same_badge_key(b, pre.badges@[i]),
            badge_valid(b),
            post.badges@ == pre.badges@.update(i, b),
            post.rewards@ == pre.rewards@,
            post.user_badges@ == pre.user_badges@,
            post.user_rewards@ == pre.user_rewards@,
        ensures
            post.wf(),
    {
        assert forall|p: int, q: int|
            0 <= p < post.badges@.len() && 0 <= q < post.badges@.len()
                && same_badge_key(post.badges@[p], post.badges@[q]) implies p == q by {
            assert(same_badge_key(pre.badges@[p], pre.badges@[q]));
        }
        assert forall|p: int| 0 <= p < post.badges@.len() implies badge_valid(#[trigger] post.badges@[p]) by {
            if p != i {
                assert(post.badges@[p] == pre.badges@[p]);
            }
        }
    }

    /// Appending a reward at a free identity keeps the ledger well-formed.
    pub proof fn lemma_push_reward_wf(pre: BadgeLedger, post: BadgeLedger, r: Reward)
        requires
            pre.wf(),
            !pre.has_reward(r.owner, r.badge_id, r.reward_id),
            reward_valid(r),
            post.rewards@ == pre.rewards@.push(r),
            post.badges@ == pre.badges@,
            post.user_badges@ == pre.user_badges@,
            post.user_rewards@ == pre.user_rewards@,
        ensures
            post.wf(),
    {
        let n = pre.rewards@.len() as int;
        assert forall|i: int, j: int|
            0 <= i < post.rewards@.len() && 0 <= j < post.rewards@.len()
                && same_reward_key(post.rewards@[i], post.rewards@[j]) implies i == j by {
            if i < n && j < n {
                assert(same_reward_key(pre.rewards@[i], pre.rewards@[j]));
            } else if i == n && j < n {
                assert(reward_key_matches(pre.rewards@[j], r.owner, r.badge_id, r.reward_id));
            } else if j == n && i < n {
                assert(reward_key_matches(pre.rewards@[i], r.owner, r.badge_id, r.reward_id));
            }
        }
        assert forall|i: int| 0 <= i < post.rewards@.len() implies reward_valid(#[trigger] post.rewards@[i]) by {
            if i < n {
                assert(post.rewards@[i] == pre.rewards@[i]);
            } else {
                assert(post.rewards@[i] == r);
            }
        }
    }

    /// Replacing a reward with one of the same identity and valid fields
    /// keeps the ledger well-formed.
    pub proof fn lemma_set_reward_wf(pre: BadgeLedger, post: BadgeLedger, i: int, r: Reward)
        requires
            pre.wf(),
            0 <= i < pre.rewards@.len(),
            same_reward_key(r, pre.rewards@[i]),
            reward_valid(r),
            post.rewards@ == pre.rewards@.update(i, r),
            post.badges@ == pre.badges@,
            post.user_badges@ == pre.user_badges@,
            post.user_rewards@ == pre.user_rewards@,
        ensures
            post.wf(),
    {
        assert forall|p: int, q: int|
            0 <= p < post.rewards@.len() && 0 <= q < post.rewards@.len()
                && same_reward_key(post.rewards@[p], post.rewards@[q]) implies p == q by {
            assert(same_reward_key(pre.rewards@[p], pre.rewards@[q]));
        }
        assert forall|p: int| 0 <= p < post.rewards@.len() implies reward_valid(#[trigger] post.rewards@[p]) by {
            if p != i {
                assert(post.rewards@[p] == pre.rewards@[p]);
            }
        }
    }

    /// Appending an issuance record at a free identity keeps the ledger
    /// well-formed.
    pub proof fn lemma_push_user_badge_wf(pre: BadgeLedger, post: BadgeLedger, ub: UserBadge)
        requires
            pre.wf(),
            !pre.has_user_badge(ub.user, ub.badge_id),
            post.user_badges@ == pre.user_badges@.push(ub),
            post.badges@ == pre.badges@,
            post.rewards@ == pre.rewards@,
            post.user_rewards@ == pre.user_rewards@,
        ensures
            post.wf(),
    {
        let n = pre.user_badges@.len() as int;
        assert forall|i: int, j: int|
            0 <= i < post.user_badges@.len() && 0 <= j < post.user_badges@.len()
                && same_user_badge_key(post.user_badges@[i], post.user_badges@[j]) implies i == j by {
            if i < n && j < n {
                assert(same_user_badge_key(pre.user_badges@[i], pre.user_badges@[j]));
            } else if i == n && j < n {
                assert(user_badge_key_matches(pre.user_badges@[j], ub.user, ub.badge_id));
            } else if j == n && i < n {
                assert(user_badge_key_matches(pre.user_badges@[i], ub.user, ub.badge_id));
            }
        }
    }

    /// Appending a claim record at a free identity keeps the ledger
    /// well-formed.
    pub proof fn lemma_push_user_reward_wf(pre: BadgeLedger, post: BadgeLedger, ur: UserReward)
        requires
            pre.wf(),
            !pre.has_user_reward(ur.user, ur.reward_id),
            post.user_rewards@ == pre.user_rewards@.push(ur),
            post.badges@ == pre.badges@,
            post.rewards@ == pre.rewards@,
            post.user_badges@ == pre.user_badges@,
        ensures
            post.wf(),
    {
        let n = pre.user_rewards@.len() as int;
        assert forall|i: int, j: int|
            0 <= i < post.user_rewards@.len() && 0 <= j < post.user_rewards@.len()
                && same_user_reward_key(post.user_rewards@[i], post.user_rewards@[j]) implies i == j by {
            if i < n && j < n {
                assert(same_user_reward_key(pre.user_rewards@[i], pre.user_rewards@[j]));
            } else if i == n && j < n {
                assert(user_reward_key_matches(pre.user_rewards@[j], ur.user, ur.reward_id));
            } else if j == n && i < n {
                assert(user_reward_key_matches(pre.user_rewards@[i], ur.user, ur.reward_id));
            }
        }
    }

    /// The claim record at (user, reward_id), if one stands there.
    pub fn get_user_reward(&self, user: u64, reward_id: u64) -> (r: Option<&UserReward>)
        requires
            self.wf(),
        ensures
            match r {
                Some(ur) => self.has_user_reward(user, reward_id)
                    && *ur == self.user_reward_at(user, reward_id),
                None => !self.has_user_reward(user, reward_id),
            },
    {
        match self.find_user_reward(user, reward_id) {
            Some(i) => {
                proof { self.lemma_user_reward_at_index(i as int, user, reward_id); }
                Some(&self.user_rewards[i])
            }
            None => None,
        }
    }
}

} // verus!
