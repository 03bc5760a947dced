use vstd::prelude::*;

verus! {

/// The kind of a proposal.
#[derive(Clone, Copy, Debug, PartialEq, Eq, Structural)]
pub enum ProposalType {
    Treasury,
    Governance,
    Technical,
    Other,
}

/// How long a proposal stays open for voting.
#[derive(Clone, Copy, Debug, PartialEq, Eq, Structural)]
pub enum VotingPeriod {
    ThreeDays,
    SevenDays,
    FourteenDays,
    ThirtyDays,
}

impl VotingPeriod {
    /// Length of the voting period in blocks (six-second block time).
    pub open spec fn spec_to_blocks(&self) -> u32 {
        match self {
            VotingPeriod::ThreeDays => 43_200,
            VotingPeriod::SevenDays => 100_800,
            VotingPeriod::FourteenDays => 201_600,
            VotingPeriod::ThirtyDays => 432_000,
        }
    }

    /// Convert voting period to blocks (6-second block time).
    #[verifier::when_used_as_spec(spec_to_blocks)]
    pub fn to_blocks(&self) -> (r: u32)
        ensures
            r == self.spec_to_blocks(),
    {
        match self {
            VotingPeriod::ThreeDays => 43_200,
            VotingPeriod::SevenDays => 100_800,
            VotingPeriod::FourteenDays => 201_600,
            VotingPeriod::ThirtyDays => 432_000,
        }
    }
}

/// Share of the registered voters that must take part for a proposal to count.
#[derive(Clone, Copy, Debug, PartialEq, Eq, Structural)]
pub enum QuorumThreshold {
    Five,
    Ten,
    Twenty,
    TwentyFive,
}

impl QuorumThreshold {
    /// The threshold as a percentage.
    pub open spec fn spec_to_percentage(&self) -> u32 {
        match self {
            QuorumThreshold::Five => 5,
            QuorumThreshold::Ten => 10,
            QuorumThreshold::Twenty => 20,
            QuorumThreshold::TwentyFive => 25,
        }
    }

    /// Convert to percentage value.
    #[verifier::when_used_as_spec(spec_to_percentage)]
    pub fn to_percentage(&self) -> (r: u32)
        ensures
            r == self.spec_to_percentage(),
    {
        match self {
            QuorumThreshold::Five => 5,
            QuorumThreshold::Ten => 10,
            QuorumThreshold::Twenty => 20,
            QuorumThreshold::TwentyFive => 25,
        }
    }
}

/// How long a passed proposal waits, after its voting period, before it can be executed.
#[derive(Clone, Copy, Debug, PartialEq, Eq, Structural)]
pub enum ExecutionDelay {
    Immediately,
    OneDay,
    TwoDays,
    SevenDays,
}

impl ExecutionDelay {
    /// Length of the delay in blocks (six-second block time).
    pub open spec fn spec_to_blocks(&self) -> u32 {
        match self {
            ExecutionDelay::Immediately => 0,
            ExecutionDelay::OneDay => 14_400,
            ExecutionDelay::TwoDays => 28_800,
            ExecutionDelay::SevenDays => 100_800,
        }
    }

    /// Convert to blocks (6-second block time).
    #[verifier::when_used_as_spec(spec_to_blocks)]
    pub fn to_blocks(&self) -> (r: u32)
        ensures
            r == self.spec_to_blocks(),
    {
        match self {
            ExecutionDelay::Immediately => 0,
            ExecutionDelay::OneDay => 14_400,
            ExecutionDelay::TwoDays => 28_800,
            ExecutionDelay::SevenDays => 100_800,
        }
    }
}

/// Where a proposal stands in its life.
#[derive(Clone, Copy, Debug, PartialEq, Eq, Structural)]
pub enum ProposalStatus {
    Active,
    Passed,
    Rejected,
    Executed,
    Expired,
}

} // verus!
