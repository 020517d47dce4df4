use stellar_insured::governance::{GovernanceContract, GovernanceError, ProposalStatus};

#[test]
fn test_quorum() {
    assert_eq!(GovernanceContract::quorum_needed(5), 1);
    assert_eq!(GovernanceContract::quorum_needed(10), 2);
    assert_eq!(GovernanceContract::quorum_needed(15), 3);
}

#[test]
fn test_approval_threshold() {
    assert!(GovernanceContract::is_approved(3, 5));
    assert!(!GovernanceContract::is_approved(2, 5));
    assert!(GovernanceContract::is_approved(5, 10));
}

#[test]
fn test_voting_window() {
    let created: u64 = 1_000_000;
    let voting_end = GovernanceContract::voting_end(created);
    assert_eq!(voting_end, created + 7 * 24 * 3600);
    assert!(GovernanceContract::voting_open(created + 1, voting_end));
    assert!(!GovernanceContract::voting_open(voting_end + 1, voting_end));
}

#[test]
fn finalize_outcomes() {
    assert_eq!(GovernanceContract::finalize_outcome(0, 0, 10), ProposalStatus::Rejected);
    assert_eq!(GovernanceContract::finalize_outcome(1, 0, 10), ProposalStatus::Rejected);
    assert_eq!(GovernanceContract::finalize_outcome(1, 1, 10), ProposalStatus::Approved);
    assert_eq!(GovernanceContract::finalize_outcome(1, 2, 10), ProposalStatus::Rejected);
    assert!(!GovernanceContract::is_approved(0, 0));
}

const ADMIN: u64 = 1;
const ALICE: u64 = 10;
const BOB: u64 = 11;
const CAROL: u64 = 12;
const T0: u64 = 1_000_000;

fn council() -> GovernanceContract {
    let mut g = GovernanceContract::new();
    g.initialize(ADMIN, vec![ALICE, BOB, CAROL]).unwrap();
    g
}

#[test]
fn test_double_vote_guard() {
    let mut g = council();
    let id = g.propose_upgrade(ALICE, 99, [7u8; 32], 1, 2, 3, T0).unwrap();
    assert_eq!(g.vote(ALICE, id, true, T0 + 1), Ok(()));
    assert_eq!(g.vote(ALICE, id, true, T0 + 2), Err(GovernanceError::AlreadyVoted));
    assert_eq!(g.get_vote(id, ALICE), Some(true));
    assert_eq!(g.get_vote(id, BOB), None);
}

#[test]
fn proposal_lifecycle() {
    let mut g = council();
    let id = g.propose_upgrade(BOB, 99, [7u8; 32], 2, 0, 1, T0).unwrap();
    assert_eq!(id, 0);
    assert_eq!(g.proposal_count(), 1);
    let p = g.get_proposal(id).unwrap();
    assert_eq!(p.voting_end, T0 + 604_800);
    assert_eq!(p.total_voters, 3);
    assert_eq!(p.status, ProposalStatus::Active);
    g.vote(ALICE, id, true, T0 + 10).unwrap();
    g.vote(BOB, id, false, T0 + 10).unwrap();
    g.vote(CAROL, id, true, T0 + 10).unwrap();
    assert_eq!(g.finalize(id, T0 + 604_800), Err(GovernanceError::VotingOpen));
    assert_eq!(g.vote(ADMIN, id, true, T0 + 10), Err(GovernanceError::NotCouncilMember));
    assert_eq!(g.execute(ALICE, id), Err(GovernanceError::NotApproved));
    g.finalize(id, T0 + 604_801).unwrap();
    assert_eq!(g.get_proposal(id).unwrap().status, ProposalStatus::Approved);
    assert_eq!(g.vote(ALICE, id, true, T0 + 604_802), Err(GovernanceError::NotActive));
    let call = g.execute(CAROL, id).unwrap();
    assert_eq!(call.target, 99);
    assert_eq!(call.new_major, 2);
    assert_eq!(call.new_patch, 1);
    assert_eq!(g.get_proposal(id).unwrap().status, ProposalStatus::Executed);
}

#[test]
fn proposal_without_quorum_is_rejected() {
    let mut g = council();
    let id = g.propose_upgrade(ALICE, 99, [0u8; 32], 1, 0, 0, T0).unwrap();
    g.finalize(id, T0 + 700_000).unwrap();
    assert_eq!(g.get_proposal(id).unwrap().status, ProposalStatus::Rejected);
    assert_eq!(g.finalize(id, T0 + 700_001), Err(GovernanceError::NotActive));
}

#[test]
fn council_and_cancellation() {
    let mut g = council();
    assert_eq!(g.add_member(ALICE, 20), Err(GovernanceError::Unauthorized));
    assert_eq!(g.add_member(ADMIN, BOB), Err(GovernanceError::AlreadyMember));
    g.add_member(ADMIN, 20).unwrap();
    g.remove_member(ADMIN, BOB).unwrap();
    assert_eq!(g.get_council(), vec![ALICE, CAROL, 20]);
    assert_eq!(g.propose_upgrade(BOB, 1, [0u8; 32], 1, 0, 0, T0), Err(GovernanceError::NotCouncilMember));
    let id = g.propose_upgrade(20, 1, [0u8; 32], 1, 0, 0, T0).unwrap();
    assert_eq!(g.cancel(ALICE, id), Err(GovernanceError::Unauthorized));
    g.cancel(ADMIN, id).unwrap();
    assert_eq!(g.get_proposal(id).unwrap().status, ProposalStatus::Cancelled);
    assert_eq!(g.get_proposal(5), Err(GovernanceError::ProposalNotFound));
    assert_eq!(g.initialize(ADMIN, vec![]), Err(GovernanceError::AlreadyInitialized));
}
