//! Asset locks: funding, building and following a lock to its proof.

pub mod accounts;
pub mod builder;
pub mod inputs;
pub mod lifecycle;
pub mod topup;
pub mod transaction;
