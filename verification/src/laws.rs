//! What holds of the contracts whatever is called, proved from the
//! descriptions of their entry points.

pub mod eco_token;
pub mod game_rewards;
pub mod tree_nft;
pub mod tree_registry;
