use vstd::prelude::*;
use crate::enums::{ExecutionDelay, ProposalStatus, ProposalType, QuorumThreshold, VotingPeriod};

verus! {

/// A 20-byte account address.
#[derive(Clone, Copy, Debug, PartialEq, Eq, Hash)]
pub struct Address {
    pub bytes: [u8; 20],
}

impl View for Address {
    type V = Seq<u8>;

    open spec fn view(&self) -> Seq<u8> {
        self.bytes@
    }
}

impl Address {
    /// Whether two addresses are the same account.
    pub fn same_as(&self, other: &Address) -> (r: bool)
        ensures
            r == (self@ == other@),
    {
        let mut i: usize = 0;
        while i < 20
            invariant
                i <= 20,
                self.bytes@.len() == 20,
                other.bytes@.len() == 20,
                forall|j: int| 0 <= j < i ==> self.bytes@[j] == other.bytes@[j],
            decreases 20 - i,
        {
            if self.bytes[i] != other.bytes[i] {
                return false;
            }
            i = i + 1;
        }
        assert(self.bytes@ =~= other.bytes@);
        true
    }
}

/// The parameters chosen for a proposal when it is created.
#[derive(Clone, Copy, Debug, PartialEq, Eq, Structural)]
pub struct GovernanceParameters {
    pub voting_period: VotingPeriod,
    pub quorum_threshold: QuorumThreshold,
    pub execution_delay: ExecutionDelay,
}

/// The texts of the options a proposal offers to vote on.
#[derive(Debug)]
pub struct VotingOptions {
    pub options: Vec<String>,
}

impl VotingOptions {
    /// The option texts, each as a sequence of characters.
    pub open spec fn texts(&self) -> Seq<Seq<char>> {
        self.options@.map_values(|s: String| s@)
    }
}

impl Clone for VotingOptions {
    fn clone(&self) -> (r: Self)
        ensures
            r.options@ == self.options@,
    {
        let options = self.options.clone();
        assert(options@ =~= self.options@);
        VotingOptions { options }
    }
}

/// The option a vote was cast for.
#[derive(Debug)]
pub struct VoteChoice {
    pub option_index: u32,
    pub option_text: String,
}

impl Clone for VoteChoice {
    fn clone(&self) -> (r: Self)
        ensures
            r.option_index == self.option_index,
            r.option_text == self.option_text,
    {
        VoteChoice { option_index: self.option_index, option_text: self.option_text.clone() }
    }
}

/// What a vote looks like in the model.
pub struct VoteView {
    pub voter: Seq<u8>,
    pub option_index: u32,
    pub option_text: Seq<char>,
    pub timestamp: u32,
    pub weight: u128,
}

/// A vote cast by an account on a proposal.
#[derive(Debug)]
pub struct Vote {
    pub voter: Address,
    pub choice: VoteChoice,
    pub timestamp: u32,
    pub weight: u128,
}

impl View for Vote {
    type V = VoteView;

    open spec fn view(&self) -> VoteView {
        VoteView {
            voter: self.voter@,
            option_index: self.choice.option_index,
            option_text: self.choice.option_text@,
            timestamp: self.timestamp,
            weight: self.weight,
        }
    }
}

impl Clone for Vote {
    fn clone(&self) -> (r: Self)
        ensures
            r@ == self@,
    {
        Vote {
            voter: self.voter,
            choice: self.choice.clone(),
            timestamp: self.timestamp,
            weight: self.weight,
        }
    }
}

/// What a proposal looks like in the model.
#[verifier::ext_equal]
pub struct ProposalView {
    pub id: u32,
    pub title: Seq<char>,
    pub description: Seq<char>,
    pub proposal_type: ProposalType,
    pub governance_params: GovernanceParameters,
    pub options: Seq<Seq<char>>,
    pub proposer: Seq<u8>,
    pub created_at: u32,
    pub voting_end: u32,
    pub execution_time: u32,
    pub status: ProposalStatus,
    pub vote_counts: Seq<u128>,
    pub total_voters: u32,
}

/// A proposal and its running tally.
#[derive(Debug)]
pub struct Proposal {
    pub id: u32,
    pub title: String,
    pub description: String,
    pub proposal_type: ProposalType,
    pub governance_params: GovernanceParameters,
    pub voting_options: VotingOptions,
    pub proposer: Address,
    pub created_at: u32,
    pub voting_end: u32,
    pub execution_time: u32,
    pub status: ProposalStatus,
    pub vote_counts: Vec<u128>,
    pub total_voters: u32,
}

impl View for Proposal {
    type V = ProposalView;

    open spec fn view(&self) -> ProposalView {
        ProposalView {
            id: self.id,
            title: self.title@,
            description: self.description@,
            proposal_type: self.proposal_type,
            governance_params: self.governance_params,
            options: self.voting_options.texts(),
            proposer: self.proposer@,
            created_at: self.created_at,
            voting_end: self.voting_end,
            execution_time: self.execution_time,
            status: self.status,
            vote_counts: self.vote_counts@,
            total_voters: self.total_voters,
        }
    }
}

impl Clone for Proposal {
    fn clone(&self) -> (r: Self)
        ensures
            r@ == self@,
            r.voting_options.options@ == self.voting_options.options@,
    {
        let vote_counts = self.vote_counts.clone();
        assert(vote_counts@ =~= self.vote_counts@);
        let voting_options = self.voting_options.clone();
        Proposal {
            id: self.id,
            title: self.title.clone(),
            description: self.description.clone(),
            proposal_type: self.proposal_type,
            governance_params: self.governance_params,
            voting_options,
            proposer: self.proposer,
            created_at: self.created_at,
            voting_end: self.voting_end,
            execution_time: self.execution_time,
            status: self.status,
            vote_counts,
            total_voters: self.total_voters,
        }
    }
}

} // verus!
