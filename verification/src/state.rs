use vstd::prelude::*;
use crate::constants::{
    MAX_NAME_LEN, MAX_DESCRIPTION_LEN, MAX_ICON_URI_LEN, REWARD_TYPE_OTHER,
};

verus! {

/// A badge definition, stored at the identity (owner, badge_id).
///
/// Account identifiers (owners, users, mints) are the runtime's identities,
/// carried here as plain 64-bit values. Strings are byte strings with fixed
/// capacity ceilings, reserved in full at creation time.
#[derive(Debug)]
pub struct Badge {
    /// Identity of the account that created and administers the badge.
    pub owner: u64,
    /// Badge identifier, immutable after creation.
    pub badge_id: u64,
    /// Display name, at most [`MAX_NAME_LEN`] bytes.
    pub name: Vec<u8>,
    /// Description, at most [`MAX_DESCRIPTION_LEN`] bytes.
    pub description: Vec<u8>,
    /// Icon URI, at most [`MAX_ICON_URI_LEN`] bytes.
    pub icon_uri: Vec<u8>,
    /// Points required to earn the badge; always positive. Informational:
    /// no operation in scope checks a user's points.
    pub required_points: u64,
    /// Cap on how often the badge may be earned; always positive.
    /// Informational: no operation in scope enforces it.
    pub max_earnings: u64,
    /// Saturating count of live issuances of this badge.
    pub total_earned: u64,
    /// Whether the badge can currently be staked.
    pub is_active: bool,
    /// Derivation nonce the runtime produced for this record's identity.
    pub bump: u8,
}

/// A reward definition attached to a badge, stored at the identity
/// (owner, badge_id, reward_id).
#[derive(Debug)]
pub struct Reward {
    /// Identity of the account that created and administers the reward.
    pub owner: u64,
    /// The badge this reward is attached to.
    pub badge_id: u64,
    /// Reward identifier, immutable after creation.
    pub reward_id: u64,
    /// Display name, at most [`MAX_NAME_LEN`] bytes.
    pub name: Vec<u8>,
    /// Description, at most [`MAX_DESCRIPTION_LEN`] bytes.
    pub description: Vec<u8>,
    /// Payout kind: token, non-fungible asset, or other.
    pub reward_type: u8,
    /// Payout size; always positive.
    pub reward_value: u64,
    /// Mint for token payouts. Required when the reward is created as a
    /// token reward; a later type change can leave it absent.
    pub token_mint: Option<u64>,
    /// Mint for non-fungible payouts. Required when the reward is created
    /// as a non-fungible reward; a later type change can leave it absent.
    pub nft_mint: Option<u64>,
    /// Whether the reward can currently be claimed.
    pub is_active: bool,
    /// Derivation nonce the runtime produced for this record's identity.
    pub bump: u8,
}

/// Proof that a badge was granted to a user, stored at the identity
/// (user, badge_id). Created at most once per identity and never removed,
/// so a badge can be staked to a given user at most once ever.
#[derive(Debug)]
pub struct UserBadge {
    /// The user holding the badge.
    pub user: u64,
    /// The badge held.
    pub badge_id: u64,
    /// Clock reading the runtime supplied when the badge was granted.
    pub earned_at: i64,
    /// Derivation nonce the runtime produced for this record's identity.
    pub bump: u8,
}

/// Proof that a reward was paid out to a user, stored at the identity
/// (user, reward_id). Created at most once per identity and never mutated,
/// which is what blocks a repeated claim.
#[derive(Debug)]
pub struct UserReward {
    /// The user the reward was paid to.
    pub user: u64,
    /// The reward claimed.
    pub reward_id: u64,
    /// Clock reading the runtime supplied when the claim was recorded.
    pub claimed_at: i64,
    /// Derivation nonce the runtime produced for this record's identity.
    pub bump: u8,
}

/// The field bounds every stored badge satisfies: positive numeric
/// parameters and strings within their ceilings.
pub open spec fn badge_valid(b: Badge) -> bool {
    &&& b.required_points > 0
    &&& b.max_earnings > 0
    &&& b.name@.len() <= MAX_NAME_LEN
    &&& b.description@.len() <= MAX_DESCRIPTION_LEN
    &&& b.icon_uri@.len() <= MAX_ICON_URI_LEN
}

/// The field bounds every stored reward satisfies: a known reward type, a
/// positive value, and strings within their ceilings. Mint presence is not
/// invariant: an update that changes the type can leave the matching mint
/// absent, and a claim then fails with a missing-mint error.
pub open spec fn reward_valid(r: Reward) -> bool {
    &&& r.reward_type <= REWARD_TYPE_OTHER
    &&& r.reward_value > 0
    &&& r.name@.len() <= MAX_NAME_LEN
    &&& r.description@.len() <= MAX_DESCRIPTION_LEN
}

/// Whether a badge record stands at the identity (owner, badge_id).
pub open spec fn badge_key_matches(b: Badge, owner: u64, badge_id: u64) -> bool {
    b.owner == owner && b.badge_id == badge_id
}

/// Whether two badge records share their identity.
pub open spec fn same_badge_key(a: Badge, b: Badge) -> bool {
    a.owner == b.owner && a.badge_id == b.badge_id
}

/// Whether a reward record stands at the identity (owner, badge_id, reward_id).
pub open spec fn reward_key_matches(r: Reward, owner: u64, badge_id: u64, reward_id: u64) -> bool {
    r.owner == owner && r.badge_id == badge_id && r.reward_id == reward_id
}

/// Whether two reward records share their identity.
pub open spec fn same_reward_key(a: Reward, b: Reward) -> bool {
    a.owner == b.owner && a.badge_id == b.badge_id && a.reward_id == b.reward_id
}

/// Whether an issuance record stands at the identity (user, badge_id).
pub open spec fn user_badge_key_matches(ub: UserBadge, user: u64, badge_id: u64) -> bool {
    ub.user == user && ub.badge_id == badge_id
}

/// Whether two issuance records share their identity.
pub open spec fn same_user_badge_key(a: UserBadge, b: UserBadge) -> bool {
    a.user == b.user && a.badge_id == b.badge_id
}

/// Whether a claim record stands at the identity (user, reward_id).
pub open spec fn user_reward_key_matches(ur: UserReward, user: u64, reward_id: u64) -> bool {
    ur.user == user && ur.reward_id == reward_id
}

/// Whether two claim records share their identity.
pub open spec fn same_user_reward_key(a: UserReward, b: UserReward) -> bool {
    a.user == b.user && a.reward_id == b.reward_id
}

} // verus!
