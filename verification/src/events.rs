use vstd::prelude::*;
use crate::enums::ProposalStatus;
use crate::storage::Address;

verus! {

/// Emitted when a proposal is created.
#[derive(Debug)]
pub struct ProposalCreated {
    pub proposal_id: u32,
    pub proposer: Address,
    pub title: String,
}

/// Emitted when a passed proposal is executed.
#[derive(Clone, Copy, Debug, PartialEq, Eq, Structural)]
pub struct ProposalExecuted {
    pub proposal_id: u32,
    pub status: ProposalStatus,
}

/// Emitted when an account registers as a voter for the first time.
#[derive(Clone, Copy, Debug)]
pub struct VoterRegistered {
    pub voter: Address,
    pub total_voters: u32,
}

/// Emitted when a vote is cast.
#[derive(Debug)]
pub struct VoteCast {
    pub voter: Address,
    pub proposal_id: u32,
    pub option_index: u32,
    pub weight: u32,
    pub option_text: String,
}

} // verus!
