use vstd::prelude::*;

verus! {

/// Every failure an operation can surface. A failing operation aborts with
/// one of these and leaves the ledger unchanged; resubmission with corrected
/// inputs is the only recovery path.
#[derive(Clone, Copy, Debug, PartialEq, Eq, Structural)]
pub enum BadgeRewardsError {
    /// No badge record stands at the expected (owner, badge_id) identity.
    BadgeNotFound,
    /// No reward record stands at the expected (owner, badge_id, reward_id)
    /// identity.
    RewardNotFound,
    /// The caller lacks the points a badge requires. Declared for callers;
    /// no operation in scope checks points.
    InsufficientPoints,
    /// An issuance record already occupies the (user, badge_id) identity, so
    /// the badge cannot be staked to that user again.
    BadgeAlreadyEarned,
    /// A claim record already occupies the (user, reward_id) identity, so
    /// the reward cannot be paid out to that user again.
    RewardAlreadyClaimed,
    /// A reward type outside the known kinds, or one that does not match the
    /// stored reward.
    InvalidRewardType,
    /// The signer does not equal the stored owner or holder. Declared for
    /// callers; in this store a record is looked up by an identity built
    /// from the signer, so the stored owner always matches and no
    /// operation in scope raises this.
    Unauthorized,
    /// The badge is not active.
    BadgeNotActive,
    /// The reward is not active.
    RewardNotActive,
    /// The badge has reached its earnings cap. Declared for callers; no
    /// operation in scope enforces the cap.
    MaxEarningsReached,
    /// The badge id does not match the stored record. Declared for
    /// callers; the id is part of the identity a record is looked up by,
    /// so no operation in scope raises this.
    InvalidBadgeId,
    /// The reward id does not match the stored record. Declared for
    /// callers; the id is part of the identity a record is looked up by,
    /// so no operation in scope raises this.
    InvalidRewardId,
    /// A required-points value of zero.
    InvalidRequiredPoints,
    /// A maximum-earnings value of zero.
    InvalidMaxEarnings,
    /// A name longer than the accepted bound.
    NameTooLong,
    /// A description longer than the accepted bound.
    DescriptionTooLong,
    /// An icon URI longer than the accepted bound.
    IconUriTooLong,
    /// A reward value of zero, or one that does not match the stored reward.
    InvalidRewardValue,
    /// A token reward without a token mint.
    MissingTokenMint,
    /// A non-fungible reward without its asset mint.
    MissingNftMint,
    /// A supplied token mint that does not equal the stored one.
    InvalidTokenMint,
    /// A badge record already occupies the (owner, badge_id) identity; the
    /// store refuses to create a second one there.
    BadgeAlreadyExists,
    /// A reward record already occupies the (owner, badge_id, reward_id)
    /// identity; the store refuses to create a second one there.
    RewardAlreadyExists,
    /// No issuance record stands at the expected (user, badge_id) identity.
    UserBadgeNotFound,
}

} // verus!
