//! Core logic of an on-chain NFT launch platform: collection creation and
//! candy-store initialization, with account validation, a conditional
//! platform fee, and delegation of update authority to the new store record.

pub mod address;
pub mod error;
pub mod initialize_candy_store;
pub mod initialize_collection;
pub mod pda;
pub mod state;

pub use address::Address;
