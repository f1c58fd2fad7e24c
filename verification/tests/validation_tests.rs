use badge_rewards::error::BadgeRewardsError;
use badge_rewards::ledger::BadgeLedger;

const OWNER: u64 = 3;

fn create_badge(ledger: &mut BadgeLedger, name: Vec<u8>) -> Result<(), BadgeRewardsError> {
    ledger.initialize_badge(OWNER, 1, name, b"d".to_vec(), b"u".to_vec(), 1, 1, true, 0)
}

#[test]
fn name_of_exactly_one_hundred_bytes_is_accepted() {
    let mut ledger = BadgeLedger::new();
    assert_eq!(create_badge(&mut ledger, vec![b'a'; 100]), Ok(()));
    assert_eq!(ledger.get_badge(OWNER, 1).unwrap().name.len(), 100);
}

#[test]
fn name_of_one_hundred_one_bytes_is_rejected() {
    let mut ledger = BadgeLedger::new();
    assert_eq!(
        create_badge(&mut ledger, vec![b'a'; 101]),
        Err(BadgeRewardsError::NameTooLong)
    );
    assert!(ledger.get_badge(OWNER, 1).is_none());
}

#[test]
fn description_boundary_is_five_hundred_bytes() {
    let mut ledger = BadgeLedger::new();
    assert_eq!(
        ledger.initialize_badge(OWNER, 1, b"n".to_vec(), vec![b'd'; 500], b"u".to_vec(), 1, 1, true, 0),
        Ok(())
    );
    assert_eq!(
        ledger.initialize_badge(OWNER, 2, b"n".to_vec(), vec![b'd'; 501], b"u".to_vec(), 1, 1, true, 0),
        Err(BadgeRewardsError::DescriptionTooLong)
    );
}

#[test]
fn icon_uri_boundary_is_two_hundred_bytes() {
    let mut ledger = BadgeLedger::new();
    assert_eq!(
        ledger.initialize_badge(OWNER, 1, b"n".to_vec(), b"d".to_vec(), vec![b'u'; 200], 1, 1, true, 0),
        Ok(())
    );
    assert_eq!(
        ledger.initialize_badge(OWNER, 2, b"n".to_vec(), b"d".to_vec(), vec![b'u'; 201], 1, 1, true, 0),
        Err(BadgeRewardsError::IconUriTooLong)
    );
}

#[test]
fn zero_required_points_is_rejected() {
    let mut ledger = BadgeLedger::new();
    assert_eq!(
        ledger.initialize_badge(OWNER, 1, b"n".to_vec(), b"d".to_vec(), b"u".to_vec(), 0, 1, true, 0),
        Err(BadgeRewardsError::InvalidRequiredPoints)
    );
}

#[test]
fn zero_max_earnings_is_rejected() {
    let mut ledger = BadgeLedger::new();
    assert_eq!(
        ledger.initialize_badge(OWNER, 1, b"n".to_vec(), b"d".to_vec(), b"u".to_vec(), 1, 0, true, 0),
        Err(BadgeRewardsError::InvalidMaxEarnings)
    );
}

#[test]
fn second_badge_at_same_identity_is_refused() {
    let mut ledger = BadgeLedger::new();
    assert_eq!(create_badge(&mut ledger, b"first".to_vec()), Ok(()));
    assert_eq!(
        create_badge(&mut ledger, b"second".to_vec()),
        Err(BadgeRewardsError::BadgeAlreadyExists)
    );
    assert_eq!(ledger.get_badge(OWNER, 1).unwrap().name, b"first".to_vec());
}

#[test]
fn badge_update_applies_only_supplied_fields() {
    let mut ledger = BadgeLedger::new();
    assert_eq!(create_badge(&mut ledger, b"old name".to_vec()), Ok(()));
    assert_eq!(
        ledger.update_badge(OWNER, 1, Some(b"new name".to_vec()), None, None, Some(9), None, Some(false)),
        Ok(())
    );
    let badge = ledger.get_badge(OWNER, 1).unwrap();
    assert_eq!(badge.name, b"new name".to_vec());
    assert_eq!(badge.description, b"d".to_vec());
    assert_eq!(badge.icon_uri, b"u".to_vec());
    assert_eq!(badge.required_points, 9);
    assert_eq!(badge.max_earnings, 1);
    assert!(!badge.is_active);
}

#[test]
fn badge_update_validates_like_creation() {
    let mut ledger = BadgeLedger::new();
    assert_eq!(create_badge(&mut ledger, b"n".to_vec()), Ok(()));
    assert_eq!(
        ledger.update_badge(OWNER, 1, Some(vec![b'a'; 101]), None, None, None, None, None),
        Err(BadgeRewardsError::NameTooLong)
    );
    assert_eq!(
        ledger.update_badge(OWNER, 1, None, Some(vec![b'a'; 501]), None, None, None, None),
        Err(BadgeRewardsError::DescriptionTooLong)
    );
    assert_eq!(
        ledger.update_badge(OWNER, 1, None, None, Some(vec![b'a'; 201]), None, None, None),
        Err(BadgeRewardsError::IconUriTooLong)
    );
    assert_eq!(
        ledger.update_badge(OWNER, 1, None, None, None, Some(0), None, None),
        Err(BadgeRewardsError::InvalidRequiredPoints)
    );
    assert_eq!(
        ledger.update_badge(OWNER, 1, None, None, None, None, Some(0), None),
        Err(BadgeRewardsError::InvalidMaxEarnings)
    );
    let badge = ledger.get_badge(OWNER, 1).unwrap();
    assert_eq!(badge.name, b"n".to_vec());
    assert_eq!(badge.required_points, 1);
}

#[test]
fn another_signer_cannot_reach_the_badge() {
    let mut ledger = BadgeLedger::new();
    assert_eq!(create_badge(&mut ledger, b"n".to_vec()), Ok(()));
    let other_signer: u64 = OWNER + 1;
    assert_eq!(
        ledger.update_badge(other_signer, 1, None, None, None, None, None, Some(false)),
        Err(BadgeRewardsError::BadgeNotFound)
    );
    assert_eq!(ledger.freeze_badge(other_signer, 1), Err(BadgeRewardsError::BadgeNotFound));
    assert!(ledger.get_badge(OWNER, 1).unwrap().is_active);
}

#[test]
fn badge_update_without_record_fails() {
    let mut ledger = BadgeLedger::new();
    assert_eq!(
        ledger.update_badge(OWNER, 1, None, None, None, None, None, None),
        Err(BadgeRewardsError::BadgeNotFound)
    );
}

#[test]
fn freeze_without_record_fails() {
    let mut ledger = BadgeLedger::new();
    assert_eq!(ledger.freeze_badge(OWNER, 1), Err(BadgeRewardsError::BadgeNotFound));
}

#[test]
fn reward_requires_known_type() {
    let mut ledger = BadgeLedger::new();
    assert_eq!(
        ledger.initialize_reward(OWNER, 1, 1, b"n".to_vec(), b"d".to_vec(), 3, 10, None, None, true, 0),
        Err(BadgeRewardsError::InvalidRewardType)
    );
}

#[test]
fn reward_requires_positive_value() {
    let mut ledger = BadgeLedger::new();
    assert_eq!(
        ledger.initialize_reward(OWNER, 1, 1, b"n".to_vec(), b"d".to_vec(), 2, 0, None, None, true, 0),
        Err(BadgeRewardsError::InvalidRewardValue)
    );
}

#[test]
fn reward_name_and_description_boundaries() {
    let mut ledger = BadgeLedger::new();
    assert_eq!(
        ledger.initialize_reward(OWNER, 1, 1, vec![b'n'; 100], vec![b'd'; 500], 2, 10, None, None, true, 0),
        Ok(())
    );
    assert_eq!(
        ledger.initialize_reward(OWNER, 1, 2, vec![b'n'; 101], b"d".to_vec(), 2, 10, None, None, true, 0),
        Err(BadgeRewardsError::NameTooLong)
    );
    assert_eq!(
        ledger.initialize_reward(OWNER, 1, 3, b"n".to_vec(), vec![b'd'; 501], 2, 10, None, None, true, 0),
        Err(BadgeRewardsError::DescriptionTooLong)
    );
}

#[test]
fn token_reward_requires_token_mint() {
    let mut ledger = BadgeLedger::new();
    assert_eq!(
        ledger.initialize_reward(OWNER, 1, 1, b"n".to_vec(), b"d".to_vec(), 0, 10, None, None, true, 0),
        Err(BadgeRewardsError::MissingTokenMint)
    );
}

#[test]
fn nft_reward_requires_nft_mint() {
    let mut ledger = BadgeLedger::new();
    assert_eq!(
        ledger.initialize_reward(OWNER, 1, 1, b"n".to_vec(), b"d".to_vec(), 1, 10, None, None, true, 0),
        Err(BadgeRewardsError::MissingNftMint)
    );
}

#[test]
fn second_reward_at_same_identity_is_refused() {
    let mut ledger = BadgeLedger::new();
    assert_eq!(
        ledger.initialize_reward(OWNER, 1, 1, b"n".to_vec(), b"d".to_vec(), 2, 10, None, None, true, 0),
        Ok(())
    );
    assert_eq!(
        ledger.initialize_reward(OWNER, 1, 1, b"n".to_vec(), b"d".to_vec(), 2, 20, None, None, true, 0),
        Err(BadgeRewardsError::RewardAlreadyExists)
    );
    assert_eq!(ledger.get_reward(OWNER, 1, 1).unwrap().reward_value, 10);
}

#[test]
fn reward_created_verbatim_keeps_both_mints() {
    let mut ledger = BadgeLedger::new();
    assert_eq!(
        ledger.initialize_reward(
            OWNER, 1, 1, b"n".to_vec(), b"d".to_vec(), 2, 10, Some(8), Some(9), true, 4,
        ),
        Ok(())
    );
    let reward = ledger.get_reward(OWNER, 1, 1).unwrap();
    assert_eq!(reward.token_mint, Some(8));
    assert_eq!(reward.nft_mint, Some(9));
    assert_eq!(reward.bump, 4);
}

#[test]
fn reward_update_without_record_fails() {
    let mut ledger = BadgeLedger::new();
    assert_eq!(
        ledger.update_reward(OWNER, 1, 1, None, None, None, None, None, None, None),
        Err(BadgeRewardsError::RewardNotFound)
    );
}

#[test]
fn reward_update_validates_like_creation() {
    let mut ledger = BadgeLedger::new();
    assert_eq!(
        ledger.initialize_reward(OWNER, 1, 1, b"n".to_vec(), b"d".to_vec(), 2, 10, None, None, true, 0),
        Ok(())
    );
    assert_eq!(
        ledger.update_reward(OWNER, 1, 1, Some(vec![b'n'; 101]), None, None, None, None, None, None),
        Err(BadgeRewardsError::NameTooLong)
    );
    assert_eq!(
        ledger.update_reward(OWNER, 1, 1, None, Some(vec![b'd'; 501]), None, None, None, None, None),
        Err(BadgeRewardsError::DescriptionTooLong)
    );
    assert_eq!(
        ledger.update_reward(OWNER, 1, 1, None, None, Some(3), None, None, None, None),
        Err(BadgeRewardsError::InvalidRewardType)
    );
    assert_eq!(
        ledger.update_reward(OWNER, 1, 1, None, None, None, Some(0), None, None, None),
        Err(BadgeRewardsError::InvalidRewardValue)
    );
    assert_eq!(ledger.get_reward(OWNER, 1, 1).unwrap().reward_value, 10);
}
