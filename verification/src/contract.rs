use vstd::prelude::*;
use crate::enums::{ProposalStatus, ProposalType};
use crate::errors::Error;
use crate::events::{ProposalCreated, ProposalExecuted, VoteCast, VoterRegistered};
use crate::model::{
    Ballot, GovernanceView, ballot_lookup, ballots_for_option, ballots_on, count_with_status, lemma_lookup_none,
    lemma_no_ballots_on, lemma_push_ballot, lemma_sum_zeros, proposal_wf, valid_option_count,
};
use crate::storage::{Address, GovernanceParameters, Proposal, Vote, VoteChoice, VotingOptions};
use crate::tally::{
    compute_required_votes, decide_tally, first_index_of, first_position, lemma_entry_le_sum, lemma_first_index_le,
    lemma_max_of, lemma_sum_increment, max_of, max_votes, total_votes,
};

verus! {

/// A vote together with the proposal it was cast on.
#[derive(Debug)]
pub struct VoteRecord {
    pub proposal_id: u32,
    pub vote: Vote,
}

impl View for VoteRecord {
    type V = Ballot;

    open spec fn view(&self) -> Ballot {
        Ballot { proposal_id: self.proposal_id, vote: self.vote@ }
    }
}

/// The treasury governance state: proposals, votes and registered voters.
///
/// Proposal `id` is stored at position `id - 1` of `proposals`; `votes` lists
/// the votes in the order they were cast; `registered_voters` lists the
/// registered accounts in the order they registered. Every operation keeps
/// the invariant `wf`.
pub struct TreasuryGovernance {
    /// Next proposal ID
    pub next_proposal_id: u32,
    /// All proposals
    pub proposals: Vec<Proposal>,
    /// User votes on proposals
    pub votes: Vec<VoteRecord>,
    /// List of all proposal IDs
    pub proposal_ids: Vec<u32>,
    /// Total number of registered voters (for quorum calculation)
    pub total_voters: u32,
    /// Contract owner
    pub owner: Address,
    /// Registered voters
    pub registered_voters: Vec<Address>,
}

impl View for TreasuryGovernance {
    type V = GovernanceView;

    open spec fn view(&self) -> GovernanceView {
        GovernanceView {
            next_proposal_id: self.next_proposal_id,
            proposals: self.proposals@.map_values(|p: Proposal| p@),
            ballots: self.votes@.map_values(|r: VoteRecord| r@),
            proposal_ids: self.proposal_ids@,
            total_voters: self.total_voters,
            owner: self.owner@,
            registered: self.registered_voters@.map_values(|a: Address| a@),
        }
    }
}

impl TreasuryGovernance {
    /// The invariant of the state.
    pub open spec fn wf(&self) -> bool {
        self@.wf()
    }

    /// A fresh governance owned by `caller`: no proposals, no votes, no voters,
    /// and the first proposal will get id 1.
    pub fn new(caller: Address) -> (r: Self)
        ensures
            r.wf(),
            r@.next_proposal_id == 1,
            r@.proposals.len() == 0,
            r@.ballots.len() == 0,
            r@.proposal_ids.len() == 0,
            r@.total_voters == 0,
            r@.owner == caller@,
            r@.registered.len() == 0,
    {
        let r = TreasuryGovernance {
            next_proposal_id: 1,
            proposals: Vec::new(),
            votes: Vec::new(),
            proposal_ids: Vec::new(),
            total_voters: 0,
            owner: caller,
            registered_voters: Vec::new(),
        };
        assert(r@.proposal_ids =~= Seq::new(0, |i: int| (i + 1) as u32));
        assert(r@.registered =~= Seq::empty());
        r
    }

    /// Number of registered voters.
    pub fn get_total_voters(&self) -> (r: u32)
        ensures
            r == self@.total_voters,
    {
        self.total_voters
    }

    /// The ids of all proposals, in order of creation.
    pub fn get_all_proposal_ids(&self) -> (r: Vec<u32>)
        ensures
            r@ == self@.proposal_ids,
    {
        let r = self.proposal_ids.clone();
        assert(r@ =~= self.proposal_ids@);
        r
    }

    /// The position of proposal `proposal_id` in storage, if it exists.
    fn index_of(&self, proposal_id: u32) -> (r: Option<usize>)
        requires
            self.wf(),
        ensures
            match self@.proposal(proposal_id) {
                None => r is None,
                Some(p) => r == Some((proposal_id - 1) as usize) && r->0 < self.proposals@.len(),
            },
    {
        if proposal_id == 0 || proposal_id >= self.next_proposal_id {
            None
        } else {
            Some((proposal_id - 1) as usize)
        }
    }

    /// A copy of proposal `proposal_id`, if it exists.
    pub fn get_proposal(&self, proposal_id: u32) -> (r: Option<Proposal>)
        requires
            self.wf(),
        ensures
            match self@.proposal(proposal_id) {
                None => r is None,
                Some(p) => r matches Some(q) && q@ == p,
            },
    {
        match self.index_of(proposal_id) {
            None => None,
            Some(i) => Some(self.proposals[i].clone()),
        }
    }

    /// Whether `voter` is registered.
    pub fn is_registered(&self, voter: &Address) -> (r: bool)
        ensures
            r == self@.registered.contains(voter@),
    {
        let mut i: usize = 0;
        while i < self.registered_voters.len()
            invariant
                i <= self.registered_voters@.len(),
                forall|j: int| 0 <= j < i ==> self.registered_voters@[j]@ != voter@,
            decreases self.registered_voters@.len() - i,
        {
            if self.registered_voters[i].same_as(voter) {
                assert(self@.registered[i as int] == voter@);
                return true;
            }
            i = i + 1;
        }
        assert(!self@.registered.contains(voter@)) by {
            if self@.registered.contains(voter@) {
                let j = choose|j: int| 0 <= j < self@.registered.len() && self@.registered[j] == voter@;
                assert(self.registered_voters@[j]@ == voter@);
            }
        }
        false
    }

    /// Registers `caller` as a voter. An account registers at most once: a
    /// second request changes nothing and emits nothing.
    pub fn register_voter(&mut self, caller: Address) -> (r: Option<VoterRegistered>)
        requires
            old(self).wf(),
            !old(self)@.registered.contains(caller@) ==> old(self)@.total_voters < u32::MAX,
        ensures
            final(self).wf(),
            final(self)@ == old(self)@.after_register(caller@),
            r is Some <==> !old(self)@.registered.contains(caller@),
            r matches Some(e) ==> e.voter@ == caller@ && e.total_voters == final(self)@.total_voters,
    {
        if self.is_registered(&caller) {
            return None;
        }
        let ghost old_view = self@;
        self.registered_voters.push(caller);
        self.total_voters = self.total_voters + 1;
        assert(self@.registered =~= old_view.registered.push(caller@));
        assert(self@ =~= old_view.after_register(caller@));
        Some(VoterRegistered { voter: caller, total_voters: self.total_voters })
    }

    /// Creates a proposal offering `voting_options` to vote on, open from
    /// `current_block` for the chosen voting period. A proposal must offer
    /// between one and ten options; otherwise nothing changes and the request
    /// fails with `InvalidProposal`. On success the proposal gets the next id,
    /// which is returned with the event to emit.
    pub fn create_proposal(
        &mut self,
        caller: Address,
        current_block: u32,
        title: String,
        description: String,
        proposal_type: ProposalType,
        governance_params: GovernanceParameters,
        voting_options: VotingOptions,
    ) -> (r: Result<(u32, ProposalCreated), Error>)
        requires
            old(self).wf(),
            valid_option_count(voting_options.options@.len() as int) ==> old(self)@.next_proposal_id < u32::MAX,
        ensures
            final(self).wf(),
            !valid_option_count(voting_options.options@.len() as int) ==> r is Err && r->Err_0 == Error::InvalidProposal
                && final(self)@ == old(self)@,
            valid_option_count(voting_options.options@.len() as int) ==> r is Ok && final(self)@ == old(self)@.after_create(
                old(self)@.new_proposal(caller@, current_block, title@, description@, proposal_type, governance_params,
                    voting_options.texts()),
            ),
            r matches Ok((id, e)) ==> id == old(self)@.next_proposal_id && e.proposal_id == id && e.proposer@ == caller@
                && e.title@ == title@,
    {
        let n = voting_options.options.len();
        if n == 0 || n > 10 {
            return Err(Error::InvalidProposal);
        }
        let ghost old_view = self@;
        let proposal_id = self.next_proposal_id;
        let voting_blocks = governance_params.voting_period.to_blocks();
        let voting_end = current_block.saturating_add(voting_blocks);
        let execution_delay = governance_params.execution_delay.to_blocks();
        let execution_time = voting_end.saturating_add(execution_delay);
        let vote_counts: Vec<u128> = vec![0u128; n];
        assert(vote_counts@ =~= Seq::new(n as nat, |i: int| 0u128));
        let event_title = title.clone();
        let proposal = Proposal {
            id: proposal_id,
            title,
            description,
            proposal_type,
            governance_params,
            voting_options,
            proposer: caller,
            created_at: current_block,
            voting_end,
            execution_time,
            status: ProposalStatus::Active,
            vote_counts,
            total_voters: 0,
        };
        let ghost pv = proposal@;
        self.proposals.push(proposal);
        self.proposal_ids.push(proposal_id);
        self.next_proposal_id = self.next_proposal_id + 1;
        proof {
            assert(self@.proposals =~= old_view.proposals.push(pv));
            assert(self@ =~= old_view.after_create(pv));
            let v = self@;
            assert(v.proposal_ids =~= Seq::new(v.proposals.len(), |i: int| (i + 1) as u32));
            lemma_sum_zeros(n as nat);
            assert(proposal_wf(pv));
            assert forall|k: int| 0 <= k < v.ballots.len() implies (#[trigger] v.ballots[k]).proposal_id != proposal_id by {
                assert(old_view.ballot_wf(old_view.ballots[k]));
            }
            assert forall|i: int, o: int|
                0 <= i < v.proposals.len() && 0 <= o < v.proposals[i].vote_counts.len()
                implies #[trigger] v.proposals[i].vote_counts[o] == ballots_for_option(v.ballots, (i + 1) as u32, o) by {
                if i == v.proposals.len() - 1 {
                    lemma_no_ballots_on(v.ballots, proposal_id, o);
                }
            }
            assert forall|i: int| 0 <= i < v.proposals.len()
                implies (#[trigger] v.proposals[i]).total_voters == ballots_on(v.ballots, (i + 1) as u32) by {
                if i == v.proposals.len() - 1 {
                    lemma_no_ballots_on(v.ballots, proposal_id, 0);
                }
            }
            assert forall|k: int| 0 <= k < v.ballots.len() implies v.ballot_wf(#[trigger] v.ballots[k]) by {
                assert(old_view.ballot_wf(old_view.ballots[k]));
            }
        }
        Ok((proposal_id, ProposalCreated { proposal_id, proposer: caller, title: event_title }))
    }

    /// The position of the vote `voter` cast on proposal `proposal_id`, if any.
    fn find_vote(&self, proposal_id: u32, voter: &Address) -> (r: Option<usize>)
        ensures
            match ballot_lookup(self@.ballots, proposal_id, voter@) {
                None => r is None,
                Some(v) => r matches Some(k) && k < self.votes@.len() && self.votes@[k as int].vote@ == v,
            },
    {
        let ghost ballots = self@.ballots;
        let mut i: usize = self.votes.len();
        assert(ballots.take(i as int) =~= ballots);
        while i > 0
            invariant
                i <= self.votes@.len(),
                ballots == self@.ballots,
                ballot_lookup(ballots, proposal_id, voter@) == ballot_lookup(ballots.take(i as int), proposal_id, voter@),
            decreases i,
        {
            let k = i - 1;
            assert(ballots.take(i as int).drop_last() =~= ballots.take(k as int));
            assert(ballots.take(i as int).last() == ballots[k as int]);
            if self.votes[k].proposal_id == proposal_id && self.votes[k].vote.voter.same_as(voter) {
                return Some(k);
            }
            i = k;
        }
        assert(ballots.take(0) =~= Seq::<Ballot>::empty());
        None
    }

    /// The vote `user` cast on proposal `proposal_id`, if any.
    pub fn get_user_vote(&self, proposal_id: u32, user: Address) -> (r: Option<Vote>)
        ensures
            match self@.vote_of(proposal_id, user@) {
                None => r is None,
                Some(v) => r matches Some(w) && w@ == v,
            },
    {
        match self.find_vote(proposal_id, &user) {
            None => None,
            Some(k) => Some(self.votes[k].vote.clone()),
        }
    }

    /// Why `caller` may not vote for `option_index` on proposal `proposal_id`
    /// at `current_block`, if there is a reason: the first of the checks that
    /// `vote` makes that fails.
    pub fn check_vote(&self, caller: &Address, current_block: u32, proposal_id: u32, option_index: u32) -> (r: Option<Error>)
        requires
            self.wf(),
        ensures
            r == self@.vote_error(caller@, current_block, proposal_id, option_index),
    {
        let idx = match self.index_of(proposal_id) {
            None => return Some(Error::ProposalNotFound),
            Some(i) => i,
        };
        assert(self@.proposals[idx as int] == self.proposals@[idx as int]@);
        assert(proposal_wf(self@.proposals[idx as int]));
        let p = &self.proposals[idx];
        if p.status != ProposalStatus::Active {
            return Some(Error::ProposalNotActive);
        }
        if current_block >= p.voting_end {
            return Some(Error::VotingPeriodEnded);
        }
        if self.find_vote(proposal_id, caller).is_some() {
            return Some(Error::AlreadyVoted);
        }
        if option_index >= p.voting_options.options.len() as u32 {
            return Some(Error::InvalidProposal);
        }
        None
    }

    /// Casts `caller`'s vote for option `option_index` on proposal
    /// `proposal_id` at `current_block`. The request fails, changing nothing,
    /// when the proposal does not exist, is not active, its voting period has
    /// ended, `caller` already voted on it, or the option does not exist,
    /// checked in that order. On success the option's count and the
    /// proposal's voter count each grow by one, the vote is recorded with
    /// weight one, and the event to emit is returned.
    pub fn vote(&mut self, caller: Address, current_block: u32, proposal_id: u32, option_index: u32) -> (r: Result<
        VoteCast,
        Error,
    >)
        requires
            old(self).wf(),
            old(self)@.vote_error(caller@, current_block, proposal_id, option_index) is None
                ==> old(self)@.proposals[proposal_id - 1].total_voters < u32::MAX,
        ensures
            final(self).wf(),
            match old(self)@.vote_error(caller@, current_block, proposal_id, option_index) {
                Some(e) => r is Err && r->Err_0 == e && final(self)@ == old(self)@,
                None => r is Ok && final(self)@ == old(self)@.after_vote(
                    caller@,
                    current_block,
                    proposal_id,
                    option_index,
                ),
            },
            r matches Ok(e) ==> e.voter@ == caller@ && e.proposal_id == proposal_id && e.option_index
                == option_index && e.weight == 1 && e.option_text@ == old(
                self,
            )@.proposals[proposal_id - 1].options[option_index as int],
    {
        if let Some(e) = self.check_vote(&caller, current_block, proposal_id, option_index) {
            return Err(e);
        }
        let idx = (proposal_id - 1) as usize;
        let ghost old_view = self@;
        assert(old_view.proposals[idx as int] == self.proposals@[idx as int]@);
        assert(proposal_wf(old_view.proposals[idx as int]));
        let oi = option_index as usize;
        let option_text = self.proposals[idx].voting_options.options[oi].clone();
        let count = self.proposals[idx].vote_counts[oi];
        proof {
            lemma_entry_le_sum(old_view.proposals[idx as int].vote_counts, oi as int);
        }
        let new_total = self.proposals[idx].total_voters + 1;
        let vote = Vote {
            voter: caller,
            choice: VoteChoice { option_index, option_text: option_text.clone() },
            timestamp: current_block,
            weight: 1,
        };
        self.proposals[idx].vote_counts.set(oi, count + 1);
        self.proposals[idx].total_voters = new_total;
        self.votes.push(VoteRecord { proposal_id, vote });
        proof {
            let v = self@;
            let b = Ballot { proposal_id, vote: old_view.cast_vote(caller@, current_block, proposal_id, option_index) };
            assert(v.ballots =~= old_view.ballots.push(b));
            assert(v =~= old_view.after_vote(caller@, current_block, proposal_id, option_index));
            lemma_sum_increment(old_view.proposals[idx as int].vote_counts, oi as int);
            lemma_lookup_none(old_view.ballots, proposal_id, caller@);
            assert(proposal_wf(v.proposals[idx as int]));
            assert forall|i: int, o: int|
                0 <= i < v.proposals.len() && 0 <= o < v.proposals[i].vote_counts.len()
                implies #[trigger] v.proposals[i].vote_counts[o] == ballots_for_option(v.ballots, (i + 1) as u32, o) by {
                lemma_push_ballot(old_view.ballots, b, (i + 1) as u32, o);
            }
            assert forall|i: int| 0 <= i < v.proposals.len()
                implies (#[trigger] v.proposals[i]).total_voters == ballots_on(v.ballots, (i + 1) as u32) by {
                lemma_push_ballot(old_view.ballots, b, (i + 1) as u32, 0);
            }
            assert forall|k: int| 0 <= k < v.ballots.len() implies v.ballot_wf(#[trigger] v.ballots[k]) by {
                if k < old_view.ballots.len() {
                    assert(old_view.ballot_wf(old_view.ballots[k]));
                }
            }
        }
        Ok(VoteCast { voter: caller, proposal_id, option_index, weight: 1, option_text })
    }

    /// Closes the vote on proposal `proposal_id` once its voting period has
    /// ended at `current_block`. An active proposal whose period is over is
    /// rejected without quorum, rejected on a tie for the highest count, and
    /// passed otherwise; any other proposal is left as it is. Fails with
    /// `ProposalNotFound`, changing nothing, when the proposal does not exist.
    pub fn update_proposal_status(&mut self, current_block: u32, proposal_id: u32) -> (r: Result<(), Error>)
        requires
            old(self).wf(),
        ensures
            final(self).wf(),
            match old(self)@.proposal(proposal_id) {
                None => r is Err && r->Err_0 == Error::ProposalNotFound && final(self)@ == old(self)@,
                Some(p) => r is Ok && final(self)@ == old(self)@.with_status(
                    proposal_id,
                    old(self)@.status_after_update(current_block, proposal_id),
                ),
            },
    {
        let idx = match self.index_of(proposal_id) {
            None => return Err(Error::ProposalNotFound),
            Some(i) => i,
        };
        let ghost old_view = self@;
        assert(old_view.proposals[idx as int] == self.proposals@[idx as int]@);
        assert(proposal_wf(old_view.proposals[idx as int]));
        if self.proposals[idx].status != ProposalStatus::Active || current_block < self.proposals[idx].voting_end {
            assert(old_view.proposals.update(idx as int, old_view.proposals[idx as int]) =~= old_view.proposals);
            assert(old_view =~= old_view.with_status(proposal_id, old_view.status_after_update(current_block, proposal_id)));
            return Ok(());
        }
        let status = decide_tally(
            &self.proposals[idx].vote_counts,
            self.total_voters,
            self.proposals[idx].governance_params.quorum_threshold,
        );
        self.proposals[idx].status = status;
        proof {
            let v = self@;
            assert(v =~= old_view.with_status(proposal_id, status));
            assert forall|k: int| 0 <= k < v.ballots.len() implies v.ballot_wf(#[trigger] v.ballots[k]) by {
                assert(old_view.ballot_wf(old_view.ballots[k]));
            }
        }
        Ok(())
    }

    /// Executes passed proposal `proposal_id` once its execution time has come
    /// at `current_block`, marking it executed and returning the event to
    /// emit. Fails, changing nothing, with `ProposalNotFound` when it does not
    /// exist, and with `ProposalNotReadyForExecution` when it has not passed or
    /// its execution time is still ahead.
    pub fn execute_proposal(&mut self, current_block: u32, proposal_id: u32) -> (r: Result<ProposalExecuted, Error>)
        requires
            old(self).wf(),
        ensures
            final(self).wf(),
            match old(self)@.execute_error(current_block, proposal_id) {
                Some(e) => r is Err && r->Err_0 == e && final(self)@ == old(self)@,
                None => r is Ok && final(self)@ == old(self)@.with_status(proposal_id, ProposalStatus::Executed),
            },
            r matches Ok(e) ==> e.proposal_id == proposal_id && e.status == ProposalStatus::Executed,
    {
        let idx = match self.index_of(proposal_id) {
            None => return Err(Error::ProposalNotFound),
            Some(i) => i,
        };
        let ghost old_view = self@;
        assert(old_view.proposals[idx as int] == self.proposals@[idx as int]@);
        if self.proposals[idx].status != ProposalStatus::Passed {
            return Err(Error::ProposalNotReadyForExecution);
        }
        if current_block < self.proposals[idx].execution_time {
            return Err(Error::ProposalNotReadyForExecution);
        }
        self.proposals[idx].status = ProposalStatus::Executed;
        proof {
            let v = self@;
            assert(v =~= old_view.with_status(proposal_id, ProposalStatus::Executed));
            assert forall|k: int| 0 <= k < v.ballots.len() implies v.ballot_wf(#[trigger] v.ballots[k]) by {
                assert(old_view.ballot_wf(old_view.ballots[k]));
            }
        }
        Ok(ProposalExecuted { proposal_id, status: ProposalStatus::Executed })
    }

    /// Counts over all proposal ids: how many there are, how many of them are
    /// active, and how many are executed.
    pub fn get_stats(&self) -> (r: (u32, u32, u32))
        requires
            self.wf(),
        ensures
            r.0 == self@.proposal_ids.len(),
            r.1 == count_with_status(self@, self@.proposal_ids, ProposalStatus::Active),
            r.2 == count_with_status(self@, self@.proposal_ids, ProposalStatus::Executed),
    {
        let ghost ids = self@.proposal_ids;
        let total = self.proposal_ids.len() as u32;
        let mut active: u32 = 0;
        let mut executed: u32 = 0;
        let mut i: usize = 0;
        while i < self.proposal_ids.len()
            invariant
                self.wf(),
                ids == self@.proposal_ids,
                i <= ids.len(),
                active == count_with_status(self@, ids.take(i as int), ProposalStatus::Active),
                executed == count_with_status(self@, ids.take(i as int), ProposalStatus::Executed),
                active <= i,
                executed <= i,
            decreases ids.len() - i,
        {
            assert(ids.take(i + 1).drop_last() =~= ids.take(i as int));
            assert(ids.take(i + 1).last() == ids[i as int]);
            let id = self.proposal_ids[i];
            match self.index_of(id) {
                Some(k) => {
                    assert(self@.proposals[k as int] == self.proposals@[k as int]@);
                    match self.proposals[k].status {
                        ProposalStatus::Active => active = active + 1,
                        ProposalStatus::Executed => executed = executed + 1,
                        _ => {},
                    }
                },
                None => {},
            }
            i = i + 1;
        }
        assert(ids.take(i as int) =~= ids);
        (total, active, executed)
    }

    /// Whether the votes cast on proposal `proposal_id` reach its quorum among
    /// the registered voters; false when the proposal does not exist.
    pub fn has_reached_quorum(&self, proposal_id: u32) -> (r: bool)
        requires
            self.wf(),
        ensures
            r == match self@.proposal(proposal_id) {
                None => false,
                Some(p) => self@.reaches_quorum(p),
            },
    {
        match self.index_of(proposal_id) {
            None => false,
            Some(idx) => {
                assert(self@.proposals[idx as int] == self.proposals@[idx as int]@);
                assert(proposal_wf(self@.proposals[idx as int]));
                let p = &self.proposals[idx];
                let required = compute_required_votes(self.total_voters, p.governance_params.quorum_threshold);
                let total = total_votes(&p.vote_counts);
                total >= required
            },
        }
    }

    /// The counts of proposal `proposal_id` and whether they reach quorum.
    pub fn get_proposal_results(&self, proposal_id: u32) -> (r: Option<(Vec<u128>, bool)>)
        requires
            self.wf(),
        ensures
            match self@.proposal(proposal_id) {
                None => r is None,
                Some(p) => r matches Some((counts, reached)) && counts@ == p.vote_counts && reached
                    == self@.reaches_quorum(p),
            },
    {
        match self.index_of(proposal_id) {
            None => None,
            Some(idx) => {
                assert(self@.proposals[idx as int] == self.proposals@[idx as int]@);
                let reached = self.has_reached_quorum(proposal_id);
                let counts = self.proposals[idx].vote_counts.clone();
                assert(counts@ =~= self.proposals@[idx as int].vote_counts@);
                Some((counts, reached))
            },
        }
    }

    /// The option texts of proposal `proposal_id`.
    pub fn get_voting_options(&self, proposal_id: u32) -> (r: Option<Vec<String>>)
        requires
            self.wf(),
        ensures
            match self@.proposal(proposal_id) {
                None => r is None,
                Some(p) => r matches Some(v) && v@.map_values(|s: String| s@) == p.options,
            },
    {
        match self.index_of(proposal_id) {
            None => None,
            Some(idx) => {
                assert(self@.proposals[idx as int] == self.proposals@[idx as int]@);
                let options = self.proposals[idx].voting_options.clone();
                assert(options.options@.map_values(|s: String| s@) =~= self@.proposals[idx as int].options);
                Some(options.options)
            },
        }
    }

    /// Each option text of proposal `proposal_id` paired with its count.
    pub fn get_detailed_results(&self, proposal_id: u32) -> (r: Option<Vec<(String, u128)>>)
        requires
            self.wf(),
        ensures
            match self@.proposal(proposal_id) {
                None => r is None,
                Some(p) => r matches Some(v) && v@.len() == p.options.len() && forall|i: int|
                    0 <= i < v@.len() ==> (#[trigger] v@[i]).0@ == p.options[i] && v@[i].1 == p.vote_counts[i],
            },
    {
        match self.index_of(proposal_id) {
            None => None,
            Some(idx) => {
                let ghost pv = self@.proposals[idx as int];
                assert(pv == self.proposals@[idx as int]@);
                assert(proposal_wf(pv));
                let p = &self.proposals[idx];
                let n = p.voting_options.options.len();
                let mut results: Vec<(String, u128)> = Vec::new();
                let mut i: usize = 0;
                while i < n
                    invariant
                        pv == p@,
                        n == pv.options.len(),
                        pv.vote_counts.len() == n,
                        i <= n,
                        results@.len() == i,
                        forall|j: int|
                            0 <= j < i ==> (#[trigger] results@[j]).0@ == pv.options[j] && results@[j].1
                                == pv.vote_counts[j],
                    decreases n - i,
                {
                    let text = p.voting_options.options[i].clone();
                    results.push((text, p.vote_counts[i]));
                    i = i + 1;
                }
                Some(results)
            },
        }
    }

    /// The winning option of proposal `proposal_id`: the first option with the
    /// highest count, with that count.
    pub fn get_winning_option(&self, proposal_id: u32) -> (r: Option<(String, u128)>)
        requires
            self.wf(),
        ensures
            match self@.proposal(proposal_id) {
                None => r is None,
                Some(p) => r matches Some((text, votes)) && votes == max_of(p.vote_counts) && text@
                    == p.options[first_index_of(p.vote_counts, votes) as int],
            },
    {
        match self.index_of(proposal_id) {
            None => None,
            Some(idx) => {
                let ghost pv = self@.proposals[idx as int];
                assert(pv == self.proposals@[idx as int]@);
                assert(proposal_wf(pv));
                let p = &self.proposals[idx];
                if p.vote_counts.len() == 0 {
                    return None;
                }
                let max = max_votes(&p.vote_counts);
                let pos = first_position(&p.vote_counts, max);
                proof {
                    lemma_max_of(pv.vote_counts);
                    let j = choose|j: int| 0 <= j < pv.vote_counts.len() && pv.vote_counts[j] == max_of(pv.vote_counts);
                    lemma_first_index_le(pv.vote_counts, max, j);
                }
                if pos >= p.voting_options.options.len() {
                    return None;
                }
                Some((p.voting_options.options[pos].clone(), max))
            },
        }
    }
}

} // verus!
