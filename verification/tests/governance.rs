use treasury_governance::contract::TreasuryGovernance;
use treasury_governance::enums::{ExecutionDelay, ProposalStatus, ProposalType, QuorumThreshold, VotingPeriod};
use treasury_governance::errors::Error;
use treasury_governance::storage::{Address, GovernanceParameters, VotingOptions};

fn account(n: u8) -> Address {
    Address { bytes: [n; 20] }
}

fn params(period: VotingPeriod, quorum: QuorumThreshold, delay: ExecutionDelay) -> GovernanceParameters {
    GovernanceParameters { voting_period: period, quorum_threshold: quorum, execution_delay: delay }
}

fn options(texts: &[&str]) -> VotingOptions {
    VotingOptions { options: texts.iter().map(|s| String::from(*s)).collect() }
}

fn create(
    contract: &mut TreasuryGovernance,
    caller: Address,
    block: u32,
    gp: GovernanceParameters,
    texts: &[&str],
) -> Result<u32, Error> {
    contract
        .create_proposal(
            caller,
            block,
            String::from("Proposal"),
            String::from("A proposal"),
            ProposalType::Treasury,
            gp,
            options(texts),
        )
        .map(|(id, _)| id)
}

#[test]
fn test_initialization() {
    let contract = TreasuryGovernance::new(account(1));
    assert_eq!(contract.next_proposal_id, 1);
    assert_eq!(contract.get_total_voters(), 0);
    assert_eq!(contract.get_all_proposal_ids().len(), 0);
    assert_eq!(contract.owner, account(1));
    assert_eq!(contract.get_stats(), (0, 0, 0));
}

#[test]
fn test_create_proposal() {
    let mut contract = TreasuryGovernance::new(account(1));
    let gp = params(VotingPeriod::SevenDays, QuorumThreshold::Ten, ExecutionDelay::OneDay);
    let result = contract.create_proposal(
        account(2),
        100,
        String::from("Test Proposal"),
        String::from("A test proposal"),
        ProposalType::Treasury,
        gp,
        options(&["Approve", "Reject"]),
    );
    assert!(result.is_ok());
    let (id, event) = result.unwrap();
    assert_eq!(id, 1);
    assert_eq!(event.proposal_id, 1);
    assert_eq!(event.proposer, account(2));
    assert_eq!(event.title, "Test Proposal");
    assert_eq!(contract.get_all_proposal_ids().len(), 1);
    let p = contract.get_proposal(1).unwrap();
    assert_eq!(p.id, 1);
    assert_eq!(p.title, "Test Proposal");
    assert_eq!(p.description, "A test proposal");
    assert_eq!(p.proposal_type, ProposalType::Treasury);
    assert_eq!(p.proposer, account(2));
    assert_eq!(p.created_at, 100);
    assert_eq!(p.voting_end, 100 + 100_800);
    assert_eq!(p.execution_time, 100 + 100_800 + 14_400);
    assert_eq!(p.status, ProposalStatus::Active);
    assert_eq!(p.vote_counts, vec![0u128, 0]);
    assert_eq!(p.total_voters, 0);
    assert_eq!(contract.next_proposal_id, 2);
}

#[test]
fn test_invalid_proposal_empty_options() {
    let mut contract = TreasuryGovernance::new(account(1));
    let gp = params(VotingPeriod::ThreeDays, QuorumThreshold::Five, ExecutionDelay::Immediately);
    let result = contract.create_proposal(
        account(1),
        0,
        String::from("Invalid Proposal"),
        String::from("No options"),
        ProposalType::Other,
        gp,
        VotingOptions { options: Vec::new() },
    );
    assert_eq!(result.map(|(id, _)| id), Err(Error::InvalidProposal));
    assert_eq!(contract.next_proposal_id, 1);
    assert_eq!(contract.get_all_proposal_ids().len(), 0);
}

#[test]
fn test_invalid_proposal_too_many_options() {
    let mut contract = TreasuryGovernance::new(account(1));
    let gp = params(VotingPeriod::ThreeDays, QuorumThreshold::Five, ExecutionDelay::Immediately);
    let eleven = ["a", "b", "c", "d", "e", "f", "g", "h", "i", "j", "k"];
    assert_eq!(create(&mut contract, account(1), 0, gp, &eleven), Err(Error::InvalidProposal));
    assert_eq!(create(&mut contract, account(1), 0, gp, &eleven[..10]), Ok(1));
    assert_eq!(create(&mut contract, account(1), 0, gp, &eleven[..1]), Ok(2));
}

#[test]
fn test_voting() {
    let mut contract = TreasuryGovernance::new(account(1));
    let registered = contract.register_voter(account(1));
    assert!(registered.is_some());
    let gp = params(VotingPeriod::SevenDays, QuorumThreshold::Ten, ExecutionDelay::OneDay);
    let proposal_id = create(&mut contract, account(1), 0, gp, &["Yes", "No"]).unwrap();
    let result = contract.vote(account(1), 1, proposal_id, 0);
    assert!(result.is_ok());
    let event = result.unwrap();
    assert_eq!(event.voter, account(1));
    assert_eq!(event.proposal_id, proposal_id);
    assert_eq!(event.option_index, 0);
    assert_eq!(event.weight, 1);
    assert_eq!(event.option_text, "Yes");
    let proposal = contract.get_proposal(proposal_id).unwrap();
    assert_eq!(proposal.vote_counts[0], 1);
    assert_eq!(proposal.total_voters, 1);
}

#[test]
fn test_vote_is_recorded_and_second_vote_refused() {
    let mut contract = TreasuryGovernance::new(account(1));
    let gp = params(VotingPeriod::ThreeDays, QuorumThreshold::Five, ExecutionDelay::Immediately);
    let id = create(&mut contract, account(1), 10, gp, &["A", "B", "C"]).unwrap();
    assert!(contract.get_user_vote(id, account(7)).is_none());
    assert!(contract.vote(account(7), 20, id, 2).is_ok());
    let v = contract.get_user_vote(id, account(7)).unwrap();
    assert_eq!(v.voter, account(7));
    assert_eq!(v.choice.option_index, 2);
    assert_eq!(v.choice.option_text, "C");
    assert_eq!(v.timestamp, 20);
    assert_eq!(v.weight, 1);
    assert_eq!(contract.vote(account(7), 21, id, 0).map(|_| ()), Err(Error::AlreadyVoted));
    assert_eq!(contract.vote(account(7), 21, id, 2).map(|_| ()), Err(Error::AlreadyVoted));
    assert_eq!(contract.get_proposal(id).unwrap().vote_counts, vec![0u128, 0, 1]);
    assert!(contract.get_user_vote(id, account(8)).is_none());
}

#[test]
fn test_vote_errors_in_order() {
    let mut contract = TreasuryGovernance::new(account(1));
    let gp = params(VotingPeriod::ThreeDays, QuorumThreshold::Five, ExecutionDelay::Immediately);
    let id = create(&mut contract, account(1), 0, gp, &["A", "B"]).unwrap();
    assert_eq!(contract.vote(account(2), 5, 0, 0).map(|_| ()), Err(Error::ProposalNotFound));
    assert_eq!(contract.vote(account(2), 5, 2, 0).map(|_| ()), Err(Error::ProposalNotFound));
    assert_eq!(contract.vote(account(2), 5, id, 2).map(|_| ()), Err(Error::InvalidProposal));
    assert_eq!(contract.vote(account(2), 43_200, id, 0).map(|_| ()), Err(Error::VotingPeriodEnded));
    assert_eq!(contract.vote(account(2), 43_199, id, 0).map(|_| ()), Ok(()));
    // A closed vote is no longer active.
    assert_eq!(contract.update_proposal_status(43_200, id), Ok(()));
    assert_eq!(contract.vote(account(3), 5, id, 0).map(|_| ()), Err(Error::ProposalNotActive));
}

#[test]
fn test_register_voter_is_idempotent() {
    let mut contract = TreasuryGovernance::new(account(1));
    let first = contract.register_voter(account(4)).unwrap();
    assert_eq!(first.voter, account(4));
    assert_eq!(first.total_voters, 1);
    assert!(contract.register_voter(account(4)).is_none());
    assert_eq!(contract.get_total_voters(), 1);
    assert!(contract.is_registered(&account(4)));
    assert!(!contract.is_registered(&account(5)));
    let second = contract.register_voter(account(5)).unwrap();
    assert_eq!(second.total_voters, 2);
    assert_eq!(contract.get_total_voters(), 2);
}

#[test]
fn test_update_status_passes_with_single_winner() {
    let mut contract = TreasuryGovernance::new(account(1));
    for n in 1..=10 {
        contract.register_voter(account(n));
    }
    let gp = params(VotingPeriod::ThreeDays, QuorumThreshold::Twenty, ExecutionDelay::OneDay);
    let id = create(&mut contract, account(1), 0, gp, &["Yes", "No"]).unwrap();
    contract.vote(account(1), 1, id, 0).unwrap();
    contract.vote(account(2), 1, id, 0).unwrap();
    contract.vote(account(3), 1, id, 1).unwrap();
    // Still open: nothing changes.
    assert_eq!(contract.update_proposal_status(43_199, id), Ok(()));
    assert_eq!(contract.get_proposal(id).unwrap().status, ProposalStatus::Active);
    assert!(contract.has_reached_quorum(id));
    assert_eq!(contract.update_proposal_status(43_200, id), Ok(()));
    assert_eq!(contract.get_proposal(id).unwrap().status, ProposalStatus::Passed);
    assert_eq!(contract.get_winning_option(id), Some((String::from("Yes"), 2)));
}

#[test]
fn test_update_status_rejects_without_quorum() {
    let mut contract = TreasuryGovernance::new(account(1));
    for n in 1..=20 {
        contract.register_voter(account(n));
    }
    // 25% of 20 voters is 5 votes.
    let gp = params(VotingPeriod::ThreeDays, QuorumThreshold::TwentyFive, ExecutionDelay::OneDay);
    let id = create(&mut contract, account(1), 0, gp, &["Yes", "No"]).unwrap();
    for n in 1..=4 {
        contract.vote(account(n), 1, id, 0).unwrap();
    }
    assert!(!contract.has_reached_quorum(id));
    assert_eq!(contract.get_proposal_results(id), Some((vec![4u128, 0], false)));
    contract.vote(account(5), 1, id, 1).unwrap();
    assert!(contract.has_reached_quorum(id));
    let id2 = create(&mut contract, account(1), 0, gp, &["Yes", "No"]).unwrap();
    contract.vote(account(1), 1, id2, 0).unwrap();
    assert_eq!(contract.update_proposal_status(50_000, id2), Ok(()));
    assert_eq!(contract.get_proposal(id2).unwrap().status, ProposalStatus::Rejected);
}

#[test]
fn test_update_status_rejects_on_tie() {
    let mut contract = TreasuryGovernance::new(account(1));
    let gp = params(VotingPeriod::ThreeDays, QuorumThreshold::Five, ExecutionDelay::Immediately);
    let id = create(&mut contract, account(1), 0, gp, &["A", "B", "C"]).unwrap();
    contract.vote(account(1), 1, id, 0).unwrap();
    contract.vote(account(2), 1, id, 2).unwrap();
    assert_eq!(contract.update_proposal_status(43_200, id), Ok(()));
    assert_eq!(contract.get_proposal(id).unwrap().status, ProposalStatus::Rejected);
    // The winning option is the first of the tied ones.
    assert_eq!(contract.get_winning_option(id), Some((String::from("A"), 1)));
}

#[test]
fn test_no_votes_single_option_passes_and_two_options_tie() {
    let mut contract = TreasuryGovernance::new(account(1));
    let gp = params(VotingPeriod::ThreeDays, QuorumThreshold::Five, ExecutionDelay::Immediately);
    let one = create(&mut contract, account(1), 0, gp, &["Only"]).unwrap();
    let two = create(&mut contract, account(1), 0, gp, &["A", "B"]).unwrap();
    assert_eq!(contract.update_proposal_status(43_200, one), Ok(()));
    assert_eq!(contract.update_proposal_status(43_200, two), Ok(()));
    assert_eq!(contract.get_proposal(one).unwrap().status, ProposalStatus::Passed);
    assert_eq!(contract.get_proposal(two).unwrap().status, ProposalStatus::Rejected);
}

#[test]
fn test_update_status_unknown_proposal() {
    let mut contract = TreasuryGovernance::new(account(1));
    assert_eq!(contract.update_proposal_status(0, 1), Err(Error::ProposalNotFound));
    assert_eq!(contract.update_proposal_status(0, 0), Err(Error::ProposalNotFound));
}

#[test]
fn test_execute_proposal() {
    let mut contract = TreasuryGovernance::new(account(1));
    contract.register_voter(account(1));
    let gp = params(VotingPeriod::ThreeDays, QuorumThreshold::Ten, ExecutionDelay::TwoDays);
    let id = create(&mut contract, account(1), 0, gp, &["Yes", "No"]).unwrap();
    assert_eq!(contract.execute_proposal(0, 9), Err(Error::ProposalNotFound));
    assert_eq!(contract.execute_proposal(100_000, id), Err(Error::ProposalNotReadyForExecution));
    contract.vote(account(1), 1, id, 1).unwrap();
    assert_eq!(contract.update_proposal_status(43_200, id), Ok(()));
    assert_eq!(contract.get_proposal(id).unwrap().status, ProposalStatus::Passed);
    assert_eq!(contract.execute_proposal(43_200 + 28_799, id), Err(Error::ProposalNotReadyForExecution));
    let event = contract.execute_proposal(43_200 + 28_800, id).unwrap();
    assert_eq!(event.proposal_id, id);
    assert_eq!(event.status, ProposalStatus::Executed);
    assert_eq!(contract.get_proposal(id).unwrap().status, ProposalStatus::Executed);
    // Executed is final.
    assert_eq!(contract.execute_proposal(200_000, id), Err(Error::ProposalNotReadyForExecution));
    assert_eq!(contract.update_proposal_status(200_000, id), Ok(()));
    assert_eq!(contract.get_proposal(id).unwrap().status, ProposalStatus::Executed);
    assert_eq!(contract.get_stats(), (1, 0, 1));
}

#[test]
fn test_stats_and_ids() {
    let mut contract = TreasuryGovernance::new(account(1));
    let gp = params(VotingPeriod::ThreeDays, QuorumThreshold::Five, ExecutionDelay::Immediately);
    for _ in 0..3 {
        create(&mut contract, account(1), 0, gp, &["A"]).unwrap();
    }
    assert_eq!(contract.get_all_proposal_ids(), vec![1u32, 2, 3]);
    assert_eq!(contract.get_stats(), (3, 3, 0));
    contract.update_proposal_status(43_200, 2).unwrap();
    assert_eq!(contract.get_stats(), (3, 2, 0));
    contract.execute_proposal(43_200, 2).unwrap();
    assert_eq!(contract.get_stats(), (3, 2, 1));
}

#[test]
fn test_results_queries() {
    let mut contract = TreasuryGovernance::new(account(1));
    let gp = params(VotingPeriod::FourteenDays, QuorumThreshold::Five, ExecutionDelay::SevenDays);
    let id = create(&mut contract, account(1), 7, gp, &["Red", "Green", "Blue"]).unwrap();
    contract.vote(account(2), 8, id, 1).unwrap();
    contract.vote(account(3), 8, id, 1).unwrap();
    contract.vote(account(4), 8, id, 2).unwrap();
    assert_eq!(
        contract.get_voting_options(id),
        Some(vec![String::from("Red"), String::from("Green"), String::from("Blue")])
    );
    assert_eq!(
        contract.get_detailed_results(id),
        Some(vec![(String::from("Red"), 0u128), (String::from("Green"), 2), (String::from("Blue"), 1)])
    );
    assert_eq!(contract.get_proposal_results(id), Some((vec![0u128, 2, 1], true)));
    assert_eq!(contract.get_winning_option(id), Some((String::from("Green"), 2)));
    let p = contract.get_proposal(id).unwrap();
    assert_eq!(p.voting_end, 7 + 201_600);
    assert_eq!(p.execution_time, 7 + 201_600 + 100_800);
    assert_eq!(contract.get_voting_options(5), None);
    assert_eq!(contract.get_detailed_results(5), None);
    assert_eq!(contract.get_proposal_results(5), None);
    assert_eq!(contract.get_winning_option(5), None);
    assert!(contract.get_proposal(5).is_none());
    assert!(!contract.has_reached_quorum(5));
}

#[test]
fn test_voting_end_saturates() {
    let mut contract = TreasuryGovernance::new(account(1));
    let gp = params(VotingPeriod::ThirtyDays, QuorumThreshold::Five, ExecutionDelay::SevenDays);
    let id = create(&mut contract, account(1), u32::MAX - 10, gp, &["A"]).unwrap();
    let p = contract.get_proposal(id).unwrap();
    assert_eq!(p.voting_end, u32::MAX);
    assert_eq!(p.execution_time, u32::MAX);
}

#[test]
fn test_block_conversions() {
    assert_eq!(VotingPeriod::ThreeDays.to_blocks(), 43_200);
    assert_eq!(VotingPeriod::SevenDays.to_blocks(), 100_800);
    assert_eq!(VotingPeriod::FourteenDays.to_blocks(), 201_600);
    assert_eq!(VotingPeriod::ThirtyDays.to_blocks(), 432_000);
    assert_eq!(ExecutionDelay::Immediately.to_blocks(), 0);
    assert_eq!(ExecutionDelay::OneDay.to_blocks(), 14_400);
    assert_eq!(ExecutionDelay::TwoDays.to_blocks(), 28_800);
    assert_eq!(ExecutionDelay::SevenDays.to_blocks(), 100_800);
    assert_eq!(QuorumThreshold::Five.to_percentage(), 5);
    assert_eq!(QuorumThreshold::Ten.to_percentage(), 10);
    assert_eq!(QuorumThreshold::Twenty.to_percentage(), 20);
    assert_eq!(QuorumThreshold::TwentyFive.to_percentage(), 25);
}

#[test]
fn test_address_comparison() {
    let a = account(3);
    let mut b = account(3);
    assert!(a.same_as(&b));
    b.bytes[19] = 4;
    assert!(!a.same_as(&b));
}
