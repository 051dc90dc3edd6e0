//! Verified core of a document platform and its funding wallet.
//!
//! `time_range` buckets timestamps into overlapping ranges for an index.
//! `drive` dispatches document insertion by version. `wallet` signs,
//! broadcasts, and builds and follows asset locks.

pub mod drive;
pub mod time_range;
pub mod wallet;
