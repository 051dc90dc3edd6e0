//! Funding wallet: signing, broadcasting and asset locks.

pub mod asset_lock;
pub mod broadcaster;
pub mod error;
pub mod fixtures;
pub mod signer;
pub mod text;
pub mod types;
