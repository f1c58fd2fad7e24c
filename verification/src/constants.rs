use vstd::prelude::*;

verus! {

/// Reward kind dispatched as a token balance transfer.
pub const REWARD_TYPE_TOKEN: u8 = 0;

/// Reward kind backed by a non-fungible asset; only its presence is checked.
pub const REWARD_TYPE_NFT: u8 = 1;

/// Reward kind with no transfer attached.
pub const REWARD_TYPE_OTHER: u8 = 2;

/// Largest byte length accepted for a badge or reward name.
pub const MAX_NAME_LEN: usize = 100;

/// Largest byte length accepted for a badge or reward description.
pub const MAX_DESCRIPTION_LEN: usize = 500;

/// Largest byte length accepted for a badge icon URI.
pub const MAX_ICON_URI_LEN: usize = 200;

/// A badge or reward that can currently be earned or claimed.
pub const BADGE_ACTIVE: bool = true;

/// A badge or reward withdrawn from circulation.
pub const BADGE_INACTIVE: bool = false;

/// A reward that can currently be claimed.
pub const REWARD_ACTIVE: bool = true;

/// A reward withdrawn from circulation.
pub const REWARD_INACTIVE: bool = false;

} // verus!
