use vstd::prelude::*;
use crate::enums::{ProposalStatus, ProposalType};
use crate::errors::Error;
use crate::storage::{GovernanceParameters, ProposalView, VoteView};
use crate::tally::{quorum_reached, sum_of, tally_outcome};

verus! {

/// A vote as the ledger records it: the proposal it was cast on, and the vote.
#[verifier::ext_equal]
pub struct Ballot {
    pub proposal_id: u32,
    pub vote: VoteView,
}

/// The whole governance state, as the contracts speak of it.
///
/// Proposal `id` is `proposals[id - 1]`; `ballots` lists the votes in the order
/// they were cast; `registered` lists the registered voters in the order they
/// registered.
#[verifier::ext_equal]
pub struct GovernanceView {
    pub next_proposal_id: u32,
    pub proposals: Seq<ProposalView>,
    pub ballots: Seq<Ballot>,
    pub proposal_ids: Seq<u32>,
    pub total_voters: u32,
    pub owner: Seq<u8>,
    pub registered: Seq<Seq<u8>>,
}

/// The vote that `voter` cast on proposal `id` according to `ballots`: the last
/// ballot with that key, if any.
pub open spec fn ballot_lookup(ballots: Seq<Ballot>, id: u32, voter: Seq<u8>) -> Option<VoteView>
    decreases ballots.len(),
{
    if ballots.len() == 0 {
        None
    } else if ballots.last().proposal_id == id && ballots.last().vote.voter == voter {
        Some(ballots.last().vote)
    } else {
        ballot_lookup(ballots.drop_last(), id, voter)
    }
}

/// How many ballots were cast on proposal `id`.
pub open spec fn ballots_on(ballots: Seq<Ballot>, id: u32) -> nat
    decreases ballots.len(),
{
    if ballots.len() == 0 {
        0
    } else {
        ballots_on(ballots.drop_last(), id) + if ballots.last().proposal_id == id { 1nat } else { 0nat }
    }
}

/// How many ballots were cast on proposal `id` for option `option`.
pub open spec fn ballots_for_option(ballots: Seq<Ballot>, id: u32, option: int) -> nat
    decreases ballots.len(),
{
    if ballots.len() == 0 {
        0
    } else {
        ballots_for_option(ballots.drop_last(), id, option) + if ballots.last().proposal_id == id
            && ballots.last().vote.option_index == option {
            1nat
        } else {
            0nat
        }
    }
}

/// How many of the listed proposals exist and have status `status`.
pub open spec fn count_with_status(g: GovernanceView, ids: Seq<u32>, status: ProposalStatus) -> nat
    decreases ids.len(),
{
    if ids.len() == 0 {
        0
    } else {
        count_with_status(g, ids.drop_last(), status) + match g.proposal(ids.last()) {
            Some(p) => if p.status == status { 1nat } else { 0nat },
            None => 0nat,
        }
    }
}

/// Whether a proposal may offer `n` options.
pub open spec fn valid_option_count(n: int) -> bool {
    1 <= n <= 10
}

/// The invariant every proposal keeps.
pub open spec fn proposal_wf(p: ProposalView) -> bool {
    &&& valid_option_count(p.options.len() as int)
    &&& p.vote_counts.len() == p.options.len()
    &&& sum_of(p.vote_counts) == p.total_voters
    &&& p.created_at <= p.voting_end <= p.execution_time
    &&& p.status != ProposalStatus::Expired
}

impl GovernanceView {
    /// Proposal `id`, if it exists.
    pub open spec fn proposal(self, id: u32) -> Option<ProposalView> {
        if 1 <= id && id <= self.proposals.len() {
            Some(self.proposals[id - 1])
        } else {
            None
        }
    }

    /// The vote `voter` cast on proposal `id`, if any.
    pub open spec fn vote_of(self, id: u32, voter: Seq<u8>) -> Option<VoteView> {
        ballot_lookup(self.ballots, id, voter)
    }

    /// The state with proposal `id` replaced by `p`.
    pub open spec fn with_proposal(self, id: u32, p: ProposalView) -> GovernanceView {
        GovernanceView { proposals: self.proposals.update(id - 1, p), ..self }
    }

    /// The state with the status of proposal `id` set to `status`.
    pub open spec fn with_status(self, id: u32, status: ProposalStatus) -> GovernanceView {
        self.with_proposal(id, ProposalView { status, ..self.proposals[id - 1] })
    }

    // ---- registration ----

    /// The state after `caller` asks to register as a voter.
    pub open spec fn after_register(self, caller: Seq<u8>) -> GovernanceView {
        if self.registered.contains(caller) {
            self
        } else {
            GovernanceView {
                registered: self.registered.push(caller),
                total_voters: (self.total_voters + 1) as u32,
                ..self
            }
        }
    }

    // ---- proposal creation ----

    /// The proposal that `create_proposal` stores.
    pub open spec fn new_proposal(
        self,
        caller: Seq<u8>,
        block: u32,
        title: Seq<char>,
        description: Seq<char>,
        proposal_type: ProposalType,
        params: GovernanceParameters,
        options: Seq<Seq<char>>,
    ) -> ProposalView {
        let voting_end = block.saturating_add(params.voting_period.to_blocks());
        ProposalView {
            id: self.next_proposal_id,
            title,
            description,
            proposal_type,
            governance_params: params,
            options,
            proposer: caller,
            created_at: block,
            voting_end,
            execution_time: voting_end.saturating_add(params.execution_delay.to_blocks()),
            status: ProposalStatus::Active,
            vote_counts: Seq::new(options.len(), |i: int| 0u128),
            total_voters: 0,
        }
    }

    /// The state after proposal `p` is stored under the next id.
    pub open spec fn after_create(self, p: ProposalView) -> GovernanceView {
        GovernanceView {
            next_proposal_id: (self.next_proposal_id + 1) as u32,
            proposals: self.proposals.push(p),
            proposal_ids: self.proposal_ids.push(self.next_proposal_id),
            ..self
        }
    }

    // ---- voting ----

    /// Why `caller` may not vote for `option` on proposal `id` at `block`, checked in order.
    pub open spec fn vote_error(self, caller: Seq<u8>, block: u32, id: u32, option: u32) -> Option<Error> {
        match self.proposal(id) {
            None => Some(Error::ProposalNotFound),
            Some(p) => if p.status != ProposalStatus::Active {
                Some(Error::ProposalNotActive)
            } else if block >= p.voting_end {
                Some(Error::VotingPeriodEnded)
            } else if self.vote_of(id, caller) is Some {
                Some(Error::AlreadyVoted)
            } else if option >= p.options.len() {
                Some(Error::InvalidProposal)
            } else {
                None
            },
        }
    }

    /// The vote recorded when `caller` votes for `option` on proposal `id` at `block`.
    pub open spec fn cast_vote(self, caller: Seq<u8>, block: u32, id: u32, option: u32) -> VoteView {
        VoteView {
            voter: caller,
            option_index: option,
            option_text: self.proposals[id - 1].options[option as int],
            timestamp: block,
            weight: 1,
        }
    }

    /// The state after that vote is counted and recorded.
    pub open spec fn after_vote(self, caller: Seq<u8>, block: u32, id: u32, option: u32) -> GovernanceView {
        let p = self.proposals[id - 1];
        let counted = ProposalView {
            vote_counts: p.vote_counts.update(option as int, (p.vote_counts[option as int] + 1) as u128),
            total_voters: (p.total_voters + 1) as u32,
            ..p
        };
        GovernanceView {
            ballots: self.ballots.push(Ballot { proposal_id: id, vote: self.cast_vote(caller, block, id, option) }),
            ..self.with_proposal(id, counted)
        }
    }

    // ---- closing and execution ----

    /// Whether proposal `p` reaches quorum among the current registered voters.
    pub open spec fn reaches_quorum(self, p: ProposalView) -> bool {
        quorum_reached(p.vote_counts, self.total_voters, p.governance_params.quorum_threshold)
    }

    /// The status of an existing proposal `id` after a status update at `block`:
    /// an active proposal whose voting period has ended gets the tally's verdict,
    /// any other keeps its status.
    pub open spec fn status_after_update(self, block: u32, id: u32) -> ProposalStatus {
        let p = self.proposals[id - 1];
        if p.status != ProposalStatus::Active || block < p.voting_end {
            p.status
        } else {
            tally_outcome(p.vote_counts, self.total_voters, p.governance_params.quorum_threshold)
        }
    }

    /// Why proposal `id` may not be executed at `block`, checked in order.
    pub open spec fn execute_error(self, block: u32, id: u32) -> Option<Error> {
        match self.proposal(id) {
            None => Some(Error::ProposalNotFound),
            Some(p) => if p.status != ProposalStatus::Passed {
                Some(Error::ProposalNotReadyForExecution)
            } else if block < p.execution_time {
                Some(Error::ProposalNotReadyForExecution)
            } else {
                None
            },
        }
    }

    // ---- invariant ----

    /// The invariant of the governance state.
    pub open spec fn wf(self) -> bool {
        &&& self.proposals.len() + 1 == self.next_proposal_id
        &&& self.proposal_ids == Seq::new(self.proposals.len(), |i: int| (i + 1) as u32)
        &&& forall|i: int| 0 <= i < self.proposals.len() ==> (#[trigger] self.proposals[i]).id == i + 1
        &&& forall|i: int| 0 <= i < self.proposals.len() ==> proposal_wf(#[trigger] self.proposals[i])
        &&& forall|i: int, o: int|
            0 <= i < self.proposals.len() && 0 <= o < self.proposals[i].vote_counts.len()
            ==> #[trigger] self.proposals[i].vote_counts[o] == ballots_for_option(self.ballots, (i + 1) as u32, o)
        &&& forall|i: int| 0 <= i < self.proposals.len()
            ==> (#[trigger] self.proposals[i]).total_voters == ballots_on(self.ballots, (i + 1) as u32)
        &&& forall|k: int| 0 <= k < self.ballots.len() ==> self.ballot_wf(#[trigger] self.ballots[k])
        &&& forall|k: int, l: int| 0 <= k < l < self.ballots.len()
            ==> !(#[trigger] self.ballots[k].proposal_id == #[trigger] self.ballots[l].proposal_id
                && self.ballots[k].vote.voter == self.ballots[l].vote.voter)
        &&& self.registered.no_duplicates()
        &&& self.total_voters == self.registered.len()
    }

    /// A recorded vote names an existing proposal and one of its options.
    pub open spec fn ballot_wf(self, b: Ballot) -> bool {
        &&& 1 <= b.proposal_id <= self.proposals.len()
        &&& b.vote.option_index < self.proposals[b.proposal_id - 1].options.len()
        &&& b.vote.option_text == self.proposals[b.proposal_id - 1].options[b.vote.option_index as int]
        &&& b.vote.weight == 1
    }
}


/// With no ballot on proposal `id`, nothing is counted for it.
pub proof fn lemma_no_ballots_on(ballots: Seq<Ballot>, id: u32, option: int)
    requires
        forall|k: int| 0 <= k < ballots.len() ==> (#[trigger] ballots[k]).proposal_id != id,
    ensures
        ballots_on(ballots, id) == 0,
        ballots_for_option(ballots, id, option) == 0,
    decreases ballots.len(),
{
    if ballots.len() > 0 {
        assert forall|k: int| 0 <= k < ballots.drop_last().len() implies (#[trigger] ballots.drop_last()[k]).proposal_id != id by {
            assert(ballots.drop_last()[k] == ballots[k]);
        }
        lemma_no_ballots_on(ballots.drop_last(), id, option);
    }
}

/// Fresh counts sum to zero.
pub proof fn lemma_sum_zeros(n: nat)
    ensures
        sum_of(Seq::new(n, |i: int| 0u128)) == 0,
    decreases n,
{
    if n > 0 {
        assert(Seq::new(n, |i: int| 0u128).drop_last() =~= Seq::new((n - 1) as nat, |i: int| 0u128));
        lemma_sum_zeros((n - 1) as nat);
    }
}

/// Appending a ballot counts it once, for its own proposal and option.
pub proof fn lemma_push_ballot(ballots: Seq<Ballot>, b: Ballot, id: u32, option: int)
    ensures
        ballots_on(ballots.push(b), id) == ballots_on(ballots, id) + if b.proposal_id == id { 1nat } else { 0nat },
        ballots_for_option(ballots.push(b), id, option) == ballots_for_option(ballots, id, option)
            + if b.proposal_id == id && b.vote.option_index == option { 1nat } else { 0nat },
        ballot_lookup(ballots.push(b), id, b.vote.voter) == if b.proposal_id == id { Some(b.vote) } else { ballot_lookup(ballots, id, b.vote.voter) },
{
    assert(ballots.push(b).drop_last() =~= ballots);
}


/// When no vote of `voter` on proposal `id` is found, no ballot has that key.
pub proof fn lemma_lookup_none(ballots: Seq<Ballot>, id: u32, voter: Seq<u8>)
    requires
        ballot_lookup(ballots, id, voter) is None,
    ensures
        forall|k: int| 0 <= k < ballots.len()
            ==> !((#[trigger] ballots[k]).proposal_id == id && ballots[k].vote.voter == voter),
    decreases ballots.len(),
{
    if ballots.len() > 0 {
        lemma_lookup_none(ballots.drop_last(), id, voter);
        assert forall|k: int| 0 <= k < ballots.len()
            implies !((#[trigger] ballots[k]).proposal_id == id && ballots[k].vote.voter == voter) by {
            if k < ballots.len() - 1 {
                assert(ballots[k] == ballots.drop_last()[k]);
            }
        }
    }
}


/// When no ballot has the key, no vote of `voter` on proposal `id` is found.
pub proof fn lemma_lookup_absent(ballots: Seq<Ballot>, id: u32, voter: Seq<u8>)
    requires
        forall|k: int| 0 <= k < ballots.len()
            ==> !((#[trigger] ballots[k]).proposal_id == id && ballots[k].vote.voter == voter),
    ensures
        ballot_lookup(ballots, id, voter) is None,
    decreases ballots.len(),
{
    if ballots.len() > 0 {
        assert(ballots[ballots.len() - 1] == ballots.last());
        assert forall|k: int| 0 <= k < ballots.drop_last().len()
            implies !((#[trigger] ballots.drop_last()[k]).proposal_id == id && ballots.drop_last()[k].vote.voter == voter) by {
            assert(ballots.drop_last()[k] == ballots[k]);
        }
        lemma_lookup_absent(ballots.drop_last(), id, voter);
    }
}

/// Over a prefix of the proposal ids, the status count is the number of
/// proposals in the matching prefix that have that status.
pub proof fn lemma_count_with_status_prefix(g: GovernanceView, status: ProposalStatus, k: int)
    requires
        g.wf(),
        0 <= k <= g.proposals.len(),
    ensures
        count_with_status(g, g.proposal_ids.take(k), status)
            == g.proposals.take(k).filter(|p: ProposalView| p.status == status).len(),
    decreases k,
{
    reveal(Seq::filter);
    let pred = |p: ProposalView| p.status == status;
    if k == 0 {
        assert(g.proposal_ids.take(0) =~= Seq::<u32>::empty());
        assert(g.proposals.take(0) =~= Seq::<ProposalView>::empty());
    } else {
        lemma_count_with_status_prefix(g, status, k - 1);
        assert(g.proposal_ids.take(k).drop_last() =~= g.proposal_ids.take(k - 1));
        assert(g.proposals.take(k).drop_last() =~= g.proposals.take(k - 1));
        assert(g.proposal_ids.take(k).last() == g.proposal_ids[k - 1]);
        assert(g.proposal_ids[k - 1] == k);
        assert(g.proposals.take(k).last() == g.proposals[k - 1]);
        assert(g.proposal((k) as u32) == Some(g.proposals[k - 1]));
    }
}

} // verus!
