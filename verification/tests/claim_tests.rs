use badge_rewards::claims::PayoutAction;
use badge_rewards::error::BadgeRewardsError;
use badge_rewards::ledger::BadgeLedger;

const OWNER: u64 = 5;
const USER: u64 = 6;
const MINT: u64 = 77;

fn ledger_with_staked_badge() -> BadgeLedger {
    let mut ledger = BadgeLedger::new();
    assert_eq!(
        ledger.initialize_badge(
            OWNER, 1, b"Explorer".to_vec(), b"d".to_vec(), b"u".to_vec(), 10, 5, true, 0,
        ),
        Ok(())
    );
    assert_eq!(ledger.stake_badge(OWNER, 1, USER, 500, 0), Ok(()));
    ledger
}

fn add_token_reward(ledger: &mut BadgeLedger) {
    assert_eq!(
        ledger.initialize_reward(
            OWNER, 1, 1, b"Payout".to_vec(), b"d".to_vec(), 0, 100, Some(MINT), None, true, 0,
        ),
        Ok(())
    );
}

#[test]
fn token_claim_pays_once_and_only_once() {
    let mut ledger = ledger_with_staked_badge();
    add_token_reward(&mut ledger);
    assert_eq!(
        ledger.claim_reward(USER, OWNER, 1, 1, 0, 100, MINT, 900, 3),
        Ok(PayoutAction::TokenTransfer { mint: MINT, amount: 100 })
    );
    assert_eq!(ledger.user_rewards.len(), 1);
    let claim = ledger.get_user_reward(USER, 1).expect("claim should be recorded");
    assert_eq!(claim.user, USER);
    assert_eq!(claim.reward_id, 1);
    assert_eq!(claim.claimed_at, 900);
    assert_eq!(claim.bump, 3);
    assert_eq!(
        ledger.claim_reward(USER, OWNER, 1, 1, 0, 100, MINT, 901, 3),
        Err(BadgeRewardsError::RewardAlreadyClaimed)
    );
    assert_eq!(ledger.user_rewards.len(), 1);
}

#[test]
fn claim_is_per_user_and_reward() {
    let mut ledger = ledger_with_staked_badge();
    add_token_reward(&mut ledger);
    let second_user: u64 = 42;
    assert_eq!(ledger.stake_badge(OWNER, 1, second_user, 600, 0), Ok(()));
    assert_eq!(
        ledger.claim_reward(USER, OWNER, 1, 1, 0, 100, MINT, 900, 3),
        Ok(PayoutAction::TokenTransfer { mint: MINT, amount: 100 })
    );
    assert_eq!(
        ledger.claim_reward(second_user, OWNER, 1, 1, 0, 100, MINT, 901, 3),
        Ok(PayoutAction::TokenTransfer { mint: MINT, amount: 100 })
    );
    assert_eq!(ledger.user_rewards.len(), 2);
}

#[test]
fn nft_claim_verifies_presence_only() {
    let mut ledger = ledger_with_staked_badge();
    assert_eq!(
        ledger.initialize_reward(
            OWNER, 1, 1, b"Trophy".to_vec(), b"d".to_vec(), 1, 1, None, Some(88), true, 0,
        ),
        Ok(())
    );
    assert_eq!(
        ledger.claim_reward(USER, OWNER, 1, 1, 1, 1, 0, 900, 3),
        Ok(PayoutAction::NftPending { mint: 88 })
    );
}

#[test]
fn plain_claim_moves_nothing() {
    let mut ledger = ledger_with_staked_badge();
    assert_eq!(
        ledger.initialize_reward(
            OWNER, 1, 1, b"Honor".to_vec(), b"d".to_vec(), 2, 1, None, None, true, 0,
        ),
        Ok(())
    );
    assert_eq!(
        ledger.claim_reward(USER, OWNER, 1, 1, 2, 1, 0, 900, 3),
        Ok(PayoutAction::NoTransfer)
    );
}

#[test]
fn claim_without_badge_fails() {
    let mut ledger = BadgeLedger::new();
    assert_eq!(
        ledger.claim_reward(USER, OWNER, 1, 1, 0, 100, MINT, 900, 3),
        Err(BadgeRewardsError::BadgeNotFound)
    );
}

#[test]
fn claim_naming_the_wrong_owner_fails() {
    let mut ledger = ledger_with_staked_badge();
    add_token_reward(&mut ledger);
    assert_eq!(
        ledger.claim_reward(USER, OWNER + 1, 1, 1, 0, 100, MINT, 900, 3),
        Err(BadgeRewardsError::BadgeNotFound)
    );
}

#[test]
fn claim_without_reward_fails() {
    let mut ledger = ledger_with_staked_badge();
    assert_eq!(
        ledger.claim_reward(USER, OWNER, 1, 1, 0, 100, MINT, 900, 3),
        Err(BadgeRewardsError::RewardNotFound)
    );
}

#[test]
fn claim_without_holding_the_badge_fails() {
    let mut ledger = BadgeLedger::new();
    assert_eq!(
        ledger.initialize_badge(
            OWNER, 1, b"Explorer".to_vec(), b"d".to_vec(), b"u".to_vec(), 10, 5, true, 0,
        ),
        Ok(())
    );
    add_token_reward(&mut ledger);
    assert_eq!(
        ledger.claim_reward(USER, OWNER, 1, 1, 0, 100, MINT, 900, 3),
        Err(BadgeRewardsError::UserBadgeNotFound)
    );
}

#[test]
fn claim_on_inactive_reward_fails() {
    let mut ledger = ledger_with_staked_badge();
    assert_eq!(
        ledger.initialize_reward(
            OWNER, 1, 1, b"Payout".to_vec(), b"d".to_vec(), 0, 100, Some(MINT), None, false, 0,
        ),
        Ok(())
    );
    assert_eq!(
        ledger.claim_reward(USER, OWNER, 1, 1, 0, 100, MINT, 900, 3),
        Err(BadgeRewardsError::RewardNotActive)
    );
}

#[test]
fn claim_with_mismatched_type_fails() {
    let mut ledger = ledger_with_staked_badge();
    add_token_reward(&mut ledger);
    assert_eq!(
        ledger.claim_reward(USER, OWNER, 1, 1, 2, 100, MINT, 900, 3),
        Err(BadgeRewardsError::InvalidRewardType)
    );
}

#[test]
fn claim_with_mismatched_value_fails() {
    let mut ledger = ledger_with_staked_badge();
    add_token_reward(&mut ledger);
    assert_eq!(
        ledger.claim_reward(USER, OWNER, 1, 1, 0, 99, MINT, 900, 3),
        Err(BadgeRewardsError::InvalidRewardValue)
    );
}

#[test]
fn claim_with_wrong_mint_fails() {
    let mut ledger = ledger_with_staked_badge();
    add_token_reward(&mut ledger);
    assert_eq!(
        ledger.claim_reward(USER, OWNER, 1, 1, 0, 100, MINT + 1, 900, 3),
        Err(BadgeRewardsError::InvalidTokenMint)
    );
    assert!(ledger.get_user_reward(USER, 1).is_none());
}

#[test]
fn patch_to_other_clears_supplied_token_mint() {
    let mut ledger = ledger_with_staked_badge();
    add_token_reward(&mut ledger);
    assert_eq!(
        ledger.update_reward(OWNER, 1, 1, None, None, Some(2), None, Some(123), None, None),
        Ok(())
    );
    let reward = ledger.get_reward(OWNER, 1, 1).unwrap();
    assert_eq!(reward.reward_type, 2);
    assert_eq!(reward.token_mint, None);
}

#[test]
fn patch_keeps_stored_mint_when_no_mint_supplied() {
    let mut ledger = ledger_with_staked_badge();
    add_token_reward(&mut ledger);
    assert_eq!(
        ledger.update_reward(OWNER, 1, 1, None, None, Some(2), None, None, None, None),
        Ok(())
    );
    let reward = ledger.get_reward(OWNER, 1, 1).unwrap();
    assert_eq!(reward.reward_type, 2);
    assert_eq!(reward.token_mint, Some(MINT));
}

#[test]
fn patch_mint_is_judged_against_the_new_type() {
    let mut ledger = ledger_with_staked_badge();
    assert_eq!(
        ledger.initialize_reward(
            OWNER, 1, 1, b"Honor".to_vec(), b"d".to_vec(), 2, 1, None, None, true, 0,
        ),
        Ok(())
    );
    assert_eq!(
        ledger.update_reward(OWNER, 1, 1, None, None, Some(0), None, Some(MINT), None, None),
        Ok(())
    );
    let reward = ledger.get_reward(OWNER, 1, 1).unwrap();
    assert_eq!(reward.reward_type, 0);
    assert_eq!(reward.token_mint, Some(MINT));
}

#[test]
fn type_switch_can_leave_mint_absent_and_claim_then_fails() {
    let mut ledger = ledger_with_staked_badge();
    assert_eq!(
        ledger.initialize_reward(
            OWNER, 1, 1, b"Honor".to_vec(), b"d".to_vec(), 2, 1, None, None, true, 0,
        ),
        Ok(())
    );
    assert_eq!(
        ledger.update_reward(OWNER, 1, 1, None, None, Some(0), None, None, None, None),
        Ok(())
    );
    assert_eq!(
        ledger.claim_reward(USER, OWNER, 1, 1, 0, 1, MINT, 900, 3),
        Err(BadgeRewardsError::MissingTokenMint)
    );
    assert_eq!(
        ledger.update_reward(OWNER, 1, 1, None, None, Some(1), None, None, None, None),
        Ok(())
    );
    assert_eq!(
        ledger.claim_reward(USER, OWNER, 1, 1, 1, 1, 0, 900, 3),
        Err(BadgeRewardsError::MissingNftMint)
    );
}
