use vstd::prelude::*;
use crate::enums::{ExecutionDelay, ProposalStatus, ProposalType, QuorumThreshold, VotingPeriod};
use crate::errors::Error;
use crate::model::{
    Ballot, GovernanceView, ballots_for_option, ballots_on, count_with_status, lemma_count_with_status_prefix,
    lemma_lookup_absent, lemma_lookup_none, lemma_push_ballot, proposal_wf,
};
use crate::storage::{GovernanceParameters, ProposalView};
use crate::tally::{
    count_of, first_index_of, lemma_count_member, lemma_count_two, lemma_entry_le_sum, lemma_count_unique, lemma_first_index_le,
    lemma_floor_hundredth, lemma_max_at, lemma_max_of, max_of, required_votes, sum_of,
};

verus! {

/// Every count is the number of recorded votes for that option, every
/// proposal's voter count is the number of recorded votes on it, and the
/// counts of a proposal add up to its voter count.
pub proof fn law_tally_matches_ballots(g: GovernanceView, id: u32, option: int)
    requires
        g.wf(),
        g.proposal(id) is Some,
        0 <= option < g.proposal(id)->0.options.len(),
    ensures
        g.proposal(id)->0.vote_counts[option] == ballots_for_option(g.ballots, id, option),
        g.proposal(id)->0.total_voters == ballots_on(g.ballots, id),
        sum_of(g.proposal(id)->0.vote_counts) == g.proposal(id)->0.total_voters,
{
    let i = id - 1;
    assert(proposal_wf(g.proposals[i]));
    assert(g.proposals[i].vote_counts[option] == ballots_for_option(g.ballots, (i + 1) as u32, option));
    assert(g.proposals[i].total_voters == ballots_on(g.ballots, (i + 1) as u32));
}

/// An account has at most one recorded vote per proposal.
pub proof fn law_one_vote_per_account(g: GovernanceView, k: int, l: int)
    requires
        g.wf(),
        0 <= k < g.ballots.len(),
        0 <= l < g.ballots.len(),
        g.ballots[k].proposal_id == g.ballots[l].proposal_id,
        g.ballots[k].vote.voter == g.ballots[l].vote.voter,
    ensures
        k == l,
{
    if k < l {
        assert(!(g.ballots[k].proposal_id == g.ballots[l].proposal_id && g.ballots[k].vote.voter == g.ballots[l].vote.voter));
    } else if l < k {
        assert(!(g.ballots[l].proposal_id == g.ballots[k].proposal_id && g.ballots[l].vote.voter == g.ballots[k].vote.voter));
    }
}

/// The number of registered voters is the number of distinct accounts that registered.
pub proof fn law_voter_count(g: GovernanceView)
    requires
        g.wf(),
    ensures
        g.total_voters == g.registered.len(),
        g.registered.no_duplicates(),
{
}

/// Registering twice is the same as registering once.
pub proof fn law_register_idempotent(g: GovernanceView, caller: Seq<u8>)
    requires
        g.wf(),
    ensures
        g.after_register(caller).after_register(caller) == g.after_register(caller),
        g.after_register(caller).registered.contains(caller),
{
    if !g.registered.contains(caller) {
        assert(g.after_register(caller).registered[g.registered.len() as int] == caller);
    }
}

/// Proposal ids are handed out in order from one, and the ids listed are
/// exactly the ids of the proposals.
pub proof fn law_ids_are_sequential(g: GovernanceView, id: u32)
    requires
        g.wf(),
    ensures
        g.proposal(id) is Some <==> 1 <= id < g.next_proposal_id,
        g.proposal(id) is Some ==> g.proposal(id)->0.id == id,
        g.proposal_ids.len() == g.proposals.len(),
        g.proposal_ids.contains(id) <==> g.proposal(id) is Some,
{
    if g.proposal(id) is Some {
        assert(g.proposals[id - 1].id == (id - 1) + 1);
        assert(g.proposal_ids[id - 1] == id);
    }
    if g.proposal_ids.contains(id) {
        let k = choose|k: int| 0 <= k < g.proposal_ids.len() && g.proposal_ids[k] == id;
        assert(g.proposal_ids[k] == (k + 1) as u32);
    }
}

/// A created proposal is stored under the id it was given, as it was created.
pub proof fn law_create_then_read(g: GovernanceView, p: ProposalView, id: u32)
    requires
        g.wf(),
        g.next_proposal_id < u32::MAX,
    ensures
        g.after_create(p).proposal(g.next_proposal_id) == Some(p),
        id != g.next_proposal_id ==> g.after_create(p).proposal(id) == g.proposal(id),
{
}

/// After a vote is accepted, reading that account's vote on that proposal
/// gives it back, and a second vote by the same account on the same proposal
/// is refused as a repeat, whatever option it names.
pub proof fn law_vote_then_read(
    g: GovernanceView,
    caller: Seq<u8>,
    block: u32,
    id: u32,
    option: u32,
    other_option: u32,
)
    requires
        g.wf(),
        g.vote_error(caller, block, id, option) is None,
    ensures
        g.after_vote(caller, block, id, option).vote_of(id, caller) == Some(g.cast_vote(caller, block, id, option)),
        g.after_vote(caller, block, id, option).vote_error(caller, block, id, other_option) == Some(
            Error::AlreadyVoted,
        ),
{
    let b = Ballot { proposal_id: id, vote: g.cast_vote(caller, block, id, option) };
    lemma_push_ballot(g.ballots, b, id, 0);
}

/// A vote leaves every other account's recorded vote, and every other
/// proposal, as it was.
pub proof fn law_vote_is_local(
    g: GovernanceView,
    caller: Seq<u8>,
    block: u32,
    id: u32,
    option: u32,
    other_id: u32,
    other_voter: Seq<u8>,
)
    requires
        g.wf(),
        g.vote_error(caller, block, id, option) is None,
        other_id != id || other_voter != caller,
    ensures
        g.after_vote(caller, block, id, option).vote_of(other_id, other_voter) == g.vote_of(other_id, other_voter),
        other_id != id ==> g.after_vote(caller, block, id, option).proposal(other_id) == g.proposal(other_id),
{
    let b = Ballot { proposal_id: id, vote: g.cast_vote(caller, block, id, option) };
    assert(g.ballots.push(b).drop_last() =~= g.ballots);
}

/// A status update only ever settles an active proposal whose voting period
/// is over, into passed or rejected; any other proposal keeps its status.
pub proof fn law_update_settles_only_ended_votes(g: GovernanceView, block: u32, id: u32)
    requires
        g.wf(),
        g.proposal(id) is Some,
    ensures
        g.proposal(id)->0.status != ProposalStatus::Active ==> g.status_after_update(block, id) == g.proposal(id)->0.status,
        block < g.proposal(id)->0.voting_end ==> g.status_after_update(block, id) == g.proposal(id)->0.status,
        g.proposal(id)->0.status == ProposalStatus::Active && block >= g.proposal(id)->0.voting_end ==> (
        g.status_after_update(block, id) == ProposalStatus::Passed || g.status_after_update(block, id)
            == ProposalStatus::Rejected),
{
}

/// A vote that misses quorum is rejected; a vote that passes reached quorum
/// and has exactly one option with the highest count.
pub proof fn law_passed_means_quorum_and_single_winner(g: GovernanceView, block: u32, id: u32)
    requires
        g.wf(),
        g.proposal(id) is Some,
        g.proposal(id)->0.status == ProposalStatus::Active,
        block >= g.proposal(id)->0.voting_end,
    ensures
        !g.reaches_quorum(g.proposal(id)->0) ==> g.status_after_update(block, id) == ProposalStatus::Rejected,
        g.status_after_update(block, id) == ProposalStatus::Passed ==> g.reaches_quorum(g.proposal(id)->0) && count_of(
            g.proposal(id)->0.vote_counts,
            max_of(g.proposal(id)->0.vote_counts),
        ) == 1,
{
    let p = g.proposals[id - 1];
    assert(proposal_wf(p));
    lemma_max_of(p.vote_counts);
    let j = choose|j: int| 0 <= j < p.vote_counts.len() && p.vote_counts[j] == max_of(p.vote_counts);
    lemma_count_member(p.vote_counts, max_of(p.vote_counts), j);
}

/// An executed proposal stays executed: updating it changes nothing, and it
/// can be neither executed again nor voted on.
pub proof fn law_executed_is_final(g: GovernanceView, block: u32, id: u32, caller: Seq<u8>, option: u32)
    requires
        g.wf(),
        g.proposal(id) is Some,
        g.proposal(id)->0.status == ProposalStatus::Executed,
    ensures
        g.status_after_update(block, id) == ProposalStatus::Executed,
        g.execute_error(block, id) == Some(Error::ProposalNotReadyForExecution),
        g.vote_error(caller, block, id, option) == Some(Error::ProposalNotActive),
{
}

/// A proposal can only be executed after it passed and its voting period is over.
pub proof fn law_execution_after_voting(g: GovernanceView, block: u32, id: u32)
    requires
        g.wf(),
        g.execute_error(block, id) is None,
    ensures
        g.proposal(id) is Some,
        g.proposal(id)->0.status == ProposalStatus::Passed,
        block >= g.proposal(id)->0.execution_time >= g.proposal(id)->0.voting_end,
{
    assert(proposal_wf(g.proposals[id - 1]));
}

/// Voting is open only during the voting period of an active proposal.
pub proof fn law_votes_only_while_open(g: GovernanceView, caller: Seq<u8>, block: u32, id: u32, option: u32)
    requires
        g.wf(),
        g.vote_error(caller, block, id, option) is None,
    ensures
        g.proposal(id) is Some,
        g.proposal(id)->0.status == ProposalStatus::Active,
        block < g.proposal(id)->0.voting_end,
        option < g.proposal(id)->0.options.len(),
        g.vote_of(id, caller) is None,
{
}


/// Each quorum threshold is the percentage its name says.
pub proof fn law_threshold_percentages(t: QuorumThreshold)
    ensures
        t == QuorumThreshold::Five ==> t.to_percentage() == 5,
        t == QuorumThreshold::Ten ==> t.to_percentage() == 10,
        t == QuorumThreshold::Twenty ==> t.to_percentage() == 20,
        t == QuorumThreshold::TwentyFive ==> t.to_percentage() == 25,
{
}

/// The votes needed for quorum are the threshold's percentage of the
/// registered voters, rounded down.
pub proof fn law_required_votes(total_voters: u32, t: QuorumThreshold)
    ensures
        100 * required_votes(total_voters, t) <= total_voters * t.to_percentage()
            < 100 * required_votes(total_voters, t) + 100,
{
}

/// A proposal reaches quorum exactly when its voters are at least the
/// threshold's percentage of the registered voters, rounded down.
pub proof fn law_quorum_reached_iff(g: GovernanceView, id: u32)
    requires
        g.wf(),
        1 <= id < g.next_proposal_id,
    ensures
        g.reaches_quorum(g.proposals[id - 1]) <==> 100 * g.proposals[id - 1].total_voters + 100
            > g.total_voters * g.proposals[id - 1].governance_params.quorum_threshold.to_percentage(),
{
    let p = g.proposals[id - 1];
    assert(proposal_wf(p));
    lemma_floor_hundredth(
        p.total_voters as int,
        g.total_voters * p.governance_params.quorum_threshold.to_percentage(),
    );
}

/// A vote closed after its period without quorum is rejected.
pub proof fn law_no_quorum_rejects(g: GovernanceView, block: u32, id: u32)
    requires
        g.wf(),
        1 <= id < g.next_proposal_id,
        g.proposals[id - 1].status == ProposalStatus::Active,
        block >= g.proposals[id - 1].voting_end,
        100 * g.proposals[id - 1].total_voters + 100
            <= g.total_voters * g.proposals[id - 1].governance_params.quorum_threshold.to_percentage(),
    ensures
        g.status_after_update(block, id) == ProposalStatus::Rejected,
{
    law_quorum_reached_iff(g, id);
}

/// A vote closed after its period with quorum, where one option has more
/// votes than every other, is passed.
pub proof fn law_single_top_option_passes(g: GovernanceView, block: u32, id: u32, i: int)
    requires
        g.wf(),
        1 <= id < g.next_proposal_id,
        g.proposals[id - 1].status == ProposalStatus::Active,
        block >= g.proposals[id - 1].voting_end,
        100 * g.proposals[id - 1].total_voters + 100
            > g.total_voters * g.proposals[id - 1].governance_params.quorum_threshold.to_percentage(),
        0 <= i < g.proposals[id - 1].vote_counts.len(),
        forall|j: int|
            0 <= j < g.proposals[id - 1].vote_counts.len() && j != i ==> #[trigger] g.proposals[id
                - 1].vote_counts[j] < g.proposals[id - 1].vote_counts[i],
    ensures
        g.status_after_update(block, id) == ProposalStatus::Passed,
{
    let c = g.proposals[id - 1].vote_counts;
    law_quorum_reached_iff(g, id);
    lemma_max_at(c, i);
    lemma_count_unique(c, c[i], i);
}

/// A vote closed after its period where two options tie for the highest
/// count is rejected, quorum or not.
pub proof fn law_tie_for_top_rejects(g: GovernanceView, block: u32, id: u32, i: int, j: int)
    requires
        g.wf(),
        1 <= id < g.next_proposal_id,
        g.proposals[id - 1].status == ProposalStatus::Active,
        block >= g.proposals[id - 1].voting_end,
        0 <= i < j < g.proposals[id - 1].vote_counts.len(),
        g.proposals[id - 1].vote_counts[i] == g.proposals[id - 1].vote_counts[j],
        forall|k: int|
            0 <= k < g.proposals[id - 1].vote_counts.len() ==> #[trigger] g.proposals[id
                - 1].vote_counts[k] <= g.proposals[id - 1].vote_counts[i],
    ensures
        g.status_after_update(block, id) == ProposalStatus::Rejected,
{
    let c = g.proposals[id - 1].vote_counts;
    lemma_max_at(c, i);
    lemma_count_two(c, c[i], i, j);
}

/// The winning option is the first option with the highest count: no option
/// has more votes, and every earlier option has fewer.
pub proof fn law_winning_option(g: GovernanceView, id: u32)
    requires
        g.wf(),
        1 <= id < g.next_proposal_id,
    ensures
        ({
            let c = g.proposals[id - 1].vote_counts;
            let w = first_index_of(c, max_of(c)) as int;
            &&& 0 <= w < c.len()
            &&& c[w] == max_of(c)
            &&& forall|k: int| 0 <= k < c.len() ==> c[k] <= c[w]
            &&& forall|k: int| 0 <= k < w ==> c[k] < c[w]
        }),
{
    let c = g.proposals[id - 1].vote_counts;
    assert(proposal_wf(g.proposals[id - 1]));
    lemma_max_of(c);
    let j = choose|j: int| 0 <= j < c.len() && c[j] == max_of(c);
    lemma_first_index_le(c, max_of(c), j);
}

/// A vote is accepted exactly when the proposal exists, is active, its
/// voting period has not ended, the account has not voted on it yet, and the
/// option exists; the creation block itself is inside the voting period.
pub proof fn law_vote_accepted_iff(g: GovernanceView, caller: Seq<u8>, block: u32, id: u32, option: u32)
    requires
        g.wf(),
    ensures
        g.vote_error(caller, block, id, option) is None <==> {
            &&& 1 <= id < g.next_proposal_id
            &&& g.proposals[id - 1].status == ProposalStatus::Active
            &&& block < g.proposals[id - 1].voting_end
            &&& option < g.proposals[id - 1].options.len()
            &&& forall|k: int|
                0 <= k < g.ballots.len() ==> !((#[trigger] g.ballots[k]).proposal_id == id && g.ballots[k].vote.voter
                    == caller)
        },
        1 <= id < g.next_proposal_id ==> g.proposals[id - 1].created_at <= g.proposals[id - 1].voting_end,
{
    if 1 <= id < g.next_proposal_id {
        assert(proposal_wf(g.proposals[id - 1]));
    }
    if g.vote_of(id, caller) is None {
        lemma_lookup_none(g.ballots, id, caller);
    }
    if forall|k: int|
        0 <= k < g.ballots.len() ==> !((#[trigger] g.ballots[k]).proposal_id == id && g.ballots[k].vote.voter == caller) {
        lemma_lookup_absent(g.ballots, id, caller);
    }
}

/// Which error a refused vote gets, by the first condition that fails.
pub proof fn law_vote_refusals(g: GovernanceView, caller: Seq<u8>, block: u32, id: u32, option: u32)
    requires
        g.wf(),
    ensures
        !(1 <= id < g.next_proposal_id) ==> g.vote_error(caller, block, id, option) == Some(Error::ProposalNotFound),
        1 <= id < g.next_proposal_id && g.proposals[id - 1].status != ProposalStatus::Active ==> g.vote_error(
            caller,
            block,
            id,
            option,
        ) == Some(Error::ProposalNotActive),
        1 <= id < g.next_proposal_id && g.proposals[id - 1].status == ProposalStatus::Active && block
            >= g.proposals[id - 1].voting_end ==> g.vote_error(caller, block, id, option) == Some(
            Error::VotingPeriodEnded,
        ),
        forall|k: int|
            0 <= k < g.ballots.len() && (#[trigger] g.ballots[k]).proposal_id == id && g.ballots[k].vote.voter == caller
                && g.proposals[id - 1].status == ProposalStatus::Active && block < g.proposals[id - 1].voting_end
                ==> g.vote_error(caller, block, id, option) == Some(Error::AlreadyVoted),
{
    assert forall|k: int|
        0 <= k < g.ballots.len() && (#[trigger] g.ballots[k]).proposal_id == id && g.ballots[k].vote.voter == caller
            && g.proposals[id - 1].status == ProposalStatus::Active && block < g.proposals[id - 1].voting_end
        implies g.vote_error(caller, block, id, option) == Some(Error::AlreadyVoted) by {
        assert(g.ballot_wf(g.ballots[k]));
        if g.vote_of(id, caller) is None {
            lemma_lookup_none(g.ballots, id, caller);
        }
    }
}

/// A proposal is executed exactly when it exists, has passed, and its
/// execution time has come; otherwise the refusal says why.
pub proof fn law_execute_accepted_iff(g: GovernanceView, block: u32, id: u32)
    requires
        g.wf(),
    ensures
        g.execute_error(block, id) is None <==> {
            &&& 1 <= id < g.next_proposal_id
            &&& g.proposals[id - 1].status == ProposalStatus::Passed
            &&& block >= g.proposals[id - 1].execution_time
        },
        !(1 <= id < g.next_proposal_id) ==> g.execute_error(block, id) == Some(Error::ProposalNotFound),
        1 <= id < g.next_proposal_id && !(g.proposals[id - 1].status == ProposalStatus::Passed && block
            >= g.proposals[id - 1].execution_time) ==> g.execute_error(block, id) == Some(
            Error::ProposalNotReadyForExecution,
        ),
{
}

/// The count of proposals with a status, as `get_stats` reports it, is the
/// number of proposals that have exactly that status.
pub proof fn law_stats_count(g: GovernanceView, status: ProposalStatus)
    requires
        g.wf(),
    ensures
        count_with_status(g, g.proposal_ids, status) == g.proposals.filter(|p: ProposalView| p.status == status).len(),
{
    lemma_count_with_status_prefix(g, status, g.proposals.len() as int);
    assert(g.proposal_ids.take(g.proposals.len() as int) =~= g.proposal_ids);
    assert(g.proposals.take(g.proposals.len() as int) =~= g.proposals);
}


/// Voting periods and execution delays last the number of days their names
/// say, at 14 400 blocks (six-second blocks) per day.
pub proof fn law_block_lengths(v: VotingPeriod, d: ExecutionDelay)
    ensures
        v == VotingPeriod::ThreeDays ==> v.to_blocks() == 3 * 14_400,
        v == VotingPeriod::SevenDays ==> v.to_blocks() == 7 * 14_400,
        v == VotingPeriod::FourteenDays ==> v.to_blocks() == 14 * 14_400,
        v == VotingPeriod::ThirtyDays ==> v.to_blocks() == 30 * 14_400,
        d == ExecutionDelay::Immediately ==> d.to_blocks() == 0,
        d == ExecutionDelay::OneDay ==> d.to_blocks() == 14_400,
        d == ExecutionDelay::TwoDays ==> d.to_blocks() == 2 * 14_400,
        d == ExecutionDelay::SevenDays ==> d.to_blocks() == 7 * 14_400,
{
}

/// A new proposal gets the next id, opens at the creation block, closes its
/// voting period that many blocks later and becomes executable the delay
/// after that (both capped at the largest block number), starts active with
/// every count at zero, and records what it was created with.
pub proof fn law_new_proposal(
    g: GovernanceView,
    caller: Seq<u8>,
    block: u32,
    title: Seq<char>,
    description: Seq<char>,
    proposal_type: ProposalType,
    params: GovernanceParameters,
    options: Seq<Seq<char>>,
)
    ensures
        ({
            let p = g.new_proposal(caller, block, title, description, proposal_type, params, options);
            let end = block + params.voting_period.to_blocks();
            &&& p.id == g.next_proposal_id
            &&& p.created_at == block
            &&& p.voting_end == if end > u32::MAX { u32::MAX as int } else { end }
            &&& p.execution_time == if p.voting_end + params.execution_delay.to_blocks() > u32::MAX {
                u32::MAX as int
            } else {
                p.voting_end + params.execution_delay.to_blocks()
            }
            &&& p.status == ProposalStatus::Active
            &&& p.vote_counts.len() == options.len()
            &&& forall|o: int| 0 <= o < options.len() ==> p.vote_counts[o] == 0
            &&& p.total_voters == 0
            &&& p.title == title && p.description == description && p.proposal_type == proposal_type
            &&& p.governance_params == params && p.options == options && p.proposer == caller
        }),
{
}

/// An accepted vote adds exactly one to the chosen option's count and to the
/// proposal's voter count, leaves every other count and proposal as it was,
/// and records who voted, for which option, when, and with weight one.
pub proof fn law_vote_effect(g: GovernanceView, caller: Seq<u8>, block: u32, id: u32, option: u32, o: int)
    requires
        g.wf(),
        g.vote_error(caller, block, id, option) is None,
        g.proposals[id - 1].total_voters < u32::MAX,
        0 <= o < g.proposals[id - 1].vote_counts.len(),
    ensures
        ({
            let h = g.after_vote(caller, block, id, option);
            let before = g.proposals[id - 1];
            let after = h.proposals[id - 1];
            &&& h.proposals.len() == g.proposals.len()
            &&& after.vote_counts.len() == before.vote_counts.len()
            &&& after.vote_counts[o] == before.vote_counts[o] + if o == option { 1int } else { 0int }
            &&& after.total_voters == before.total_voters + 1
            &&& after.status == before.status && after.options == before.options
            &&& forall|k: int| 0 <= k < g.proposals.len() && k != id - 1 ==> h.proposals[k] == g.proposals[k]
            &&& h.vote_of(id, caller) matches Some(v) && v.voter == caller && v.option_index == option
                && v.timestamp == block && v.weight == 1 && v.option_text == before.options[option as int]
            &&& h.total_voters == g.total_voters && h.registered == g.registered
        }),
{
    let b = Ballot { proposal_id: id, vote: g.cast_vote(caller, block, id, option) };
    lemma_push_ballot(g.ballots, b, id, 0);
    assert(proposal_wf(g.proposals[id - 1]));
    lemma_entry_le_sum(g.proposals[id - 1].vote_counts, option as int);
}

/// Changing the status of a proposal changes that status and nothing else.
pub proof fn law_status_change_effect(g: GovernanceView, id: u32, status: ProposalStatus)
    requires
        g.wf(),
        1 <= id < g.next_proposal_id,
    ensures
        ({
            let h = g.with_status(id, status);
            &&& h.proposals.len() == g.proposals.len()
            &&& h.proposals[id - 1].status == status
            &&& h.proposals[id - 1] == ProposalView { status, ..g.proposals[id - 1] }
            &&& forall|k: int| 0 <= k < g.proposals.len() && k != id - 1 ==> h.proposals[k] == g.proposals[k]
            &&& h.ballots == g.ballots && h.registered == g.registered && h.total_voters == g.total_voters
            &&& h.proposal_ids == g.proposal_ids && h.next_proposal_id == g.next_proposal_id
        }),
{
}

} // verus!
