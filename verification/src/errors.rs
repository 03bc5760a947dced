use vstd::prelude::*;

verus! {

/// Why a governance operation was refused.
#[derive(Clone, Copy, Debug, PartialEq, Eq, Structural)]
pub enum Error {
    InvalidProposal,
    ProposalNotFound,
    ProposalNotReadyForExecution,
    ProposalNotActive,
    VotingPeriodEnded,
    AlreadyVoted,
}

} // verus!
