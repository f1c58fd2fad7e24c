use vstd::prelude::*;
use crate::constants::{MAX_NAME_LEN, MAX_DESCRIPTION_LEN, MAX_ICON_URI_LEN};
use crate::error::BadgeRewardsError;
use crate::ledger::{BadgeLedger, ledger_unchanged};
use crate::state::{Badge, badge_key_matches};

verus! {

/// The badge record a successful creation stores: the supplied fields
/// verbatim, with the earn counter starting at zero.
pub open spec fn new_badge(
    owner: u64,
    badge_id: u64,
    name: Vec<u8>,
    description: Vec<u8>,
    icon_uri: Vec<u8>,
    required_points: u64,
    max_earnings: u64,
    is_active: bool,
    bump: u8,
) -> Badge {
    Badge {
        owner,
        badge_id,
        name,
        description,
        icon_uri,
        required_points,
        max_earnings,
        total_earned: 0,
        is_active,
        bump,
    }
}

/// The decision `initialize_badge` makes, in check order: the store refuses
/// a second record at an occupied identity, then the numeric parameters
/// must be positive and the strings within their ceilings.
pub open spec fn initialize_badge_result(
    s: BadgeLedger,
    owner: u64,
    badge_id: u64,
    name: Vec<u8>,
    description: Vec<u8>,
    icon_uri: Vec<u8>,
    required_points: u64,
    max_earnings: u64,
) -> Result<(), BadgeRewardsError> {
    if s.has_badge(owner, badge_id) {
        Err(BadgeRewardsError::BadgeAlreadyExists)
    } else if required_points == 0 {
        Err(BadgeRewardsError::InvalidRequiredPoints)
    } else if max_earnings == 0 {
        Err(BadgeRewardsError::InvalidMaxEarnings)
    } else if name@.len() > MAX_NAME_LEN {
        Err(BadgeRewardsError::NameTooLong)
    } else if description@.len() > MAX_DESCRIPTION_LEN {
        Err(BadgeRewardsError::DescriptionTooLong)
    } else if icon_uri@.len() > MAX_ICON_URI_LEN {
        Err(BadgeRewardsError::IconUriTooLong)
    } else {
        Ok(())
    }
}

/// The badge record after an update: each supplied field overwrites the
/// stored value, absent fields are untouched, and the identity (owner and
/// badge id) is never patchable.
pub open spec fn updated_badge(
    b: Badge,
    name: Option<Vec<u8>>,
    description: Option<Vec<u8>>,
    icon_uri: Option<Vec<u8>>,
    required_points: Option<u64>,
    max_earnings: Option<u64>,
    is_active: Option<bool>,
) -> Badge {
    Badge {
        owner: b.owner,
        badge_id: b.badge_id,
        name: match name { Some(n) => n, None => b.name },
        description: match description { Some(d) => d, None => b.description },
        icon_uri: match icon_uri { Some(u) => u, None => b.icon_uri },
        required_points: match required_points { Some(p) => p, None => b.required_points },
        max_earnings: match max_earnings { Some(m) => m, None => b.max_earnings },
        total_earned: b.total_earned,
        is_active: match is_active { Some(a) => a, None => b.is_active },
        bump: b.bump,
    }
}

/// The decision `update_badge` makes, in check order: the badge must stand
/// at (owner, badge_id), then each supplied field is validated with the
/// same bound as creation. The signature and badge-id comparisons of the
/// stored record are subsumed by the identity lookup: a record found at
/// (owner, badge_id) carries exactly that owner and id.
pub open spec fn update_badge_result(
    s: BadgeLedger,
    owner: u64,
    badge_id: u64,
    name: Option<Vec<u8>>,
    description: Option<Vec<u8>>,
    icon_uri: Option<Vec<u8>>,
    required_points: Option<u64>,
    max_earnings: Option<u64>,
) -> Result<(), BadgeRewardsError> {
    if !s.has_badge(owner, badge_id) {
        Err(BadgeRewardsError::BadgeNotFound)
    } else if name matches Some(n) && n@.len() > MAX_NAME_LEN {
        Err(BadgeRewardsError::NameTooLong)
    } else if description matches Some(d) && d@.len() > MAX_DESCRIPTION_LEN {
        Err(BadgeRewardsError::DescriptionTooLong)
    } else if icon_uri matches Some(u) && u@.len() > MAX_ICON_URI_LEN {
        Err(BadgeRewardsError::IconUriTooLong)
    } else if required_points matches Some(p) && p == 0 {
        Err(BadgeRewardsError::InvalidRequiredPoints)
    } else if max_earnings matches Some(m) && m == 0 {
        Err(BadgeRewardsError::InvalidMaxEarnings)
    } else {
        Ok(())
    }
}

/// The badge record after a freeze: the same badge, no longer active.
pub open spec fn deactivated_badge(b: Badge) -> Badge {
    Badge {
        owner: b.owner,
        badge_id: b.badge_id,
        name: b.name,
        description: b.description,
        icon_uri: b.icon_uri,
        required_points: b.required_points,
        max_earnings: b.max_earnings,
        total_earned: b.total_earned,
        is_active: false,
        bump: b.bump,
    }
}

/// The decision `freeze_badge` makes: the badge must stand at
/// (owner, badge_id); freezing is otherwise unconditional.
pub open spec fn freeze_badge_result(s: BadgeLedger, owner: u64, badge_id: u64) -> Result<
    (),
    BadgeRewardsError,
> {
    if !s.has_badge(owner, badge_id) {
        Err(BadgeRewardsError::BadgeNotFound)
    } else {
        Ok(())
    }
}

/// Every badge a successful `initialize_badge` stores starts with a zero
/// earn counter and exactly the activity flag the caller supplied.
pub proof fn lemma_created_badge_initial_state(
    pre: BadgeLedger,
    post: BadgeLedger,
    owner: u64,
    badge_id: u64,
    name: Vec<u8>,
    description: Vec<u8>,
    icon_uri: Vec<u8>,
    required_points: u64,
    max_earnings: u64,
    is_active: bool,
    bump: u8,
)
    requires
        pre.wf(),
        initialize_badge_result(
            pre, owner, badge_id, name, description, icon_uri, required_points, max_earnings,
        ) is Ok,
        post.badges@ == pre.badges@.push(
            new_badge(
                owner, badge_id, name, description, icon_uri, required_points, max_earnings,
                is_active, bump,
            ),
        ),
        post.rewards@ == pre.rewards@,
        post.user_badges@ == pre.user_badges@,
        post.user_rewards@ == pre.user_rewards@,
    ensures
        post.has_badge(owner, badge_id),
        post.badge_at(owner, badge_id).total_earned == 0,
        post.badge_at(owner, badge_id).is_active == is_active,
{
    let b = new_badge(
        owner, badge_id, name, description, icon_uri, required_points, max_earnings, is_active,
        bump,
    );
    BadgeLedger::lemma_push_badge_wf(pre, post, b);
    assert(badge_key_matches(post.badges@[pre.badges@.len() as int], owner, badge_id));
    post.lemma_badge_at_index(pre.badges@.len() as int, owner, badge_id);
}

impl BadgeLedger {
    /// Create a badge definition at the identity (owner, badge_id).
    ///
    /// The caller must hold the owner's signature capability; `bump` is the
    /// derivation nonce the runtime produced for the new identity. On
    /// success the stored record holds the supplied fields verbatim and a
    /// `total_earned` of zero. Any failure leaves the ledger unchanged.
    pub fn initialize_badge(
        &mut self,
        owner: u64,
        badge_id: u64,
        name: Vec<u8>,
        description: Vec<u8>,
        icon_uri: Vec<u8>,
        required_points: u64,
        max_earnings: u64,
        is_active: bool,
        bump: u8,
    ) -> (result: Result<(), BadgeRewardsError>)
        requires
            old(self).wf(),
        ensures
            final(self).wf(),
            result == initialize_badge_result(
                *old(self), owner, badge_id, name, description, icon_uri,
                required_points, max_earnings,
            ),
            result is Ok ==> {
                &&& final(self).badges@ == old(self).badges@.push(
                    new_badge(
                        owner, badge_id, name, description, icon_uri, required_points,
                        max_earnings, is_active, bump,
                    ),
                )
                &&& final(self).has_badge(owner, badge_id)
                &&& final(self).badge_at(owner, badge_id) == new_badge(
                    owner, badge_id, name, description, icon_uri, required_points,
                    max_earnings, is_active, bump,
                )
                &&& final(self).rewards@ == old(self).rewards@
                &&& final(self).user_badges@ == old(self).user_badges@
                &&& final(self).user_rewards@ == old(self).user_rewards@
            },
            result is Err ==> ledger_unchanged(*old(self), *final(self)),
    {
        if let Some(_) = self.find_badge(owner, badge_id) {
            return Err(BadgeRewardsError::BadgeAlreadyExists);
        }
        if required_points == 0 {
            return Err(BadgeRewardsError::InvalidRequiredPoints);
        }
        if max_earnings == 0 {
            return Err(BadgeRewardsError::InvalidMaxEarnings);
        }
        if name.len() > MAX_NAME_LEN {
            return Err(BadgeRewardsError::NameTooLong);
        }
        if description.len() > MAX_DESCRIPTION_LEN {
            return Err(BadgeRewardsError::DescriptionTooLong);
        }
        if icon_uri.len() > MAX_ICON_URI_LEN {
            return Err(BadgeRewardsError::IconUriTooLong);
        }
        let ghost b = new_badge(
            owner, badge_id, name, description, icon_uri, required_points, max_earnings,
            is_active, bump,
        );
        self.badges.push(
            Badge {
                owner,
                badge_id,
                name,
                description,
                icon_uri,
                required_points,
                max_earnings,
                total_earned: 0,
                is_active,
                bump,
            },
        );
        proof {
            BadgeLedger::lemma_push_badge_wf(*old(self), *self, b);
            self.lemma_badge_at_index(old(self).badges@.len() as int, owner, badge_id);
        }
        Ok(())
    }

    /// Patch a badge definition field by field.
    ///
    /// The caller must hold the owner's signature capability, which is also
    /// what names the identity (owner, badge_id). Each present field is
    /// validated with the same bound as creation and then overwrites the
    /// stored value; absent fields are untouched; the badge id itself is
    /// never patchable. Any failure leaves the ledger unchanged.
    pub fn update_badge(
        &mut self,
        owner: u64,
        badge_id: u64,
        name: Option<Vec<u8>>,
        description: Option<Vec<u8>>,
        icon_uri: Option<Vec<u8>>,
        required_points: Option<u64>,
        max_earnings: Option<u64>,
        is_active: Option<bool>,
    ) -> (result: Result<(), BadgeRewardsError>)
        requires
            old(self).wf(),
        ensures
            final(self).wf(),
            result == update_badge_result(
                *old(self), owner, badge_id, name, description, icon_uri,
                required_points, max_earnings,
            ),
            result is Ok ==> {
                &&& final(self).badges@ == old(self).badges@.update(
                    old(self).badge_index(owner, badge_id),
                    updated_badge(
                        old(self).badge_at(owner, badge_id), name, description, icon_uri,
                        required_points, max_earnings, is_active,
                    ),
                )
                &&& final(self).has_badge(owner, badge_id)
                &&& final(self).badge_at(owner, badge_id) == updated_badge(
                    old(self).badge_at(owner, badge_id), name, description, icon_uri,
                    required_points, max_earnings, is_active,
                )
                &&& final(self).rewards@ == old(self).rewards@
                &&& final(self).user_badges@ == old(self).user_badges@
                &&& final(self).user_rewards@ == old(self).user_rewards@
            },
            result is Err ==> ledger_unchanged(*old(self), *final(self)),
    {
        let i = match self.find_badge(owner, badge_id) {
            Some(i) => i,
            None => {
                return Err(BadgeRewardsError::BadgeNotFound);
            }
        };
        if let Some(n) = &name {
            if n.len() > MAX_NAME_LEN {
                return Err(BadgeRewardsError::NameTooLong);
            }
        }
        if let Some(d) = &description {
            if d.len() > MAX_DESCRIPTION_LEN {
                return Err(BadgeRewardsError::DescriptionTooLong);
            }
        }
        if let Some(u) = &icon_uri {
            if u.len() > MAX_ICON_URI_LEN {
                return Err(BadgeRewardsError::IconUriTooLong);
            }
        }
        if let Some(p) = &required_points {
            if *p == 0 {
                return Err(BadgeRewardsError::InvalidRequiredPoints);
            }
        }
        if let Some(m) = &max_earnings {
            if *m == 0 {
                return Err(BadgeRewardsError::InvalidMaxEarnings);
            }
        }
        let ghost b = updated_badge(
            old(self).badges@[i as int], name, description, icon_uri, required_points,
            max_earnings, is_active,
        );
        let badge = &mut self.badges[i];
        if let Some(n) = name {
            badge.name = n;
        }
        if let Some(d) = description {
            badge.description = d;
        }
        if let Some(u) = icon_uri {
            badge.icon_uri = u;
        }
        if let Some(p) = required_points {
            badge.required_points = p;
        }
        if let Some(m) = max_earnings {
            badge.max_earnings = m;
        }
        if let Some(a) = is_active {
            badge.is_active = a;
        }
        proof {
            assert(self.badges@[i as int] == b);
            old(self).lemma_badge_at_index(i as int, owner, badge_id);
            BadgeLedger::lemma_set_badge_wf(*old(self), *self, i as int, b);
            self.lemma_badge_at_index(i as int, owner, badge_id);
        }
        Ok(())
    }

    /// Make a badge inactive.
    ///
    /// The caller must hold the owner's signature capability, which is also
    /// what names the identity (owner, badge_id). Freezing is unconditional
    /// once the badge is found; `update_badge` with an active flag of true
    /// is the only way back. Any failure leaves the ledger unchanged.
    pub fn freeze_badge(&mut self, owner: u64, badge_id: u64) -> (result: Result<
        (),
        BadgeRewardsError,
    >)
        requires
            old(self).wf(),
        ensures
            final(self).wf(),
            result == freeze_badge_result(*old(self), owner, badge_id),
            result is Ok ==> {
                &&& final(self).badges@ == old(self).badges@.update(
                    old(self).badge_index(owner, badge_id),
                    deactivated_badge(old(self).badge_at(owner, badge_id)),
                )
                &&& final(self).has_badge(owner, badge_id)
                &&& final(self).badge_at(owner, badge_id) == deactivated_badge(
                    old(self).badge_at(owner, badge_id),
                )
                &&& final(self).rewards@ == old(self).rewards@
                &&& final(self).user_badges@ == old(self).user_badges@
                &&& final(self).user_rewards@ == old(self).user_rewards@
            },
            result is Err ==> ledger_unchanged(*old(self), *final(self)),
    {
        let i = match self.find_badge(owner, badge_id) {
            Some(i) => i,
            None => {
                return Err(BadgeRewardsError::BadgeNotFound);
            }
        };
        let ghost b = deactivated_badge(old(self).badges@[i as int]);
        let badge = &mut self.badges[i];
        badge.is_active = false;
        proof {
            assert(self.badges@[i as int] == b);
            old(self).lemma_badge_at_index(i as int, owner, badge_id);
            BadgeLedger::lemma_set_badge_wf(*old(self), *self, i as int, b);
            self.lemma_badge_at_index(i as int, owner, badge_id);
        }
        Ok(())
    }
}

} // verus!
