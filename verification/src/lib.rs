//! A reward-distribution pool that custodies a token balance and releases it
//! to NFT holders on a time-gated vesting schedule.
//!
//! A `Pool` record holds the schedule, the claim period and the identifier of
//! the eligible collection; one `NftData` record per tracked NFT remembers the
//! time of its last successful claim. The library validates every externally
//! supplied account snapshot, matches the schedule against the current time,
//! and decides the amount to transfer; the host performs the actual token
//! movement and storage.

pub mod error;
pub mod types;
pub mod schedule;
pub mod ops;
pub mod accounts;
pub mod laws;
pub mod codec;
