//! Accounting and state-machine core of a small suite of ledger contracts:
//! a fungible reward token, a game-session ledger that pays rewards in that
//! token, and two registries of tree certificates.
//!
//! Every contract is a value of its own type. An entry point is a method that
//! either commits a complete state change and returns `Ok`, or returns an
//! [`Error`] and leaves the state exactly as it was.

pub mod address;
pub mod eco_token;
pub mod entries;
pub mod error;
pub mod game_rewards;
pub mod laws;
pub mod sums;
pub mod tree_nft;
pub mod tree_registry;

pub use address::{Address, Auth};
pub use eco_token::{EcoToken, TokenEvent, TokenState};
pub use error::Error;
pub use game_rewards::{
    GameConfig, GameEvent, GameRewards, GameSession, GameState, PlayerStats, SessionResult,
};
pub use tree_nft::{Collection, NftState, TreeMetadata, TreeNFT, TreeNftEvent};
pub use tree_registry::{RegistryState, TreeCertificate, TreeEvent, TreeRegistry};
