//! Treasury governance: proposals with several voting options, one vote per
//! account and proposal, quorum and plurality rules, and delayed execution.
//!
//! The governance state and every rule that decides over it are verified here.
//! The contract environment (the caller's account, the current block number,
//! persistent storage and event emission) is supplied by the embedding runtime:
//! each operation takes the caller and the block number as arguments and hands
//! back the event that the runtime should emit.

pub mod enums;
pub mod errors;
pub mod storage;
pub mod tally;
pub mod events;
pub mod model;
pub mod contract;
pub mod laws;
