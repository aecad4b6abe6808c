use beebotos_agents::collaboration::council::{
    ConflictResolution, Proposal, RoundTableConfig, RoundTableCouncil, RoundTableParticipant,
};
use beebotos_agents::collaboration::round_table::{
    ConflictType, ProposalType, ResolutionMethod, RoundTableRole, Vote,
};
use beebotos_agents::error::AgentError;

fn council() -> RoundTableCouncil {
    RoundTableCouncil::new(RoundTableConfig::default())
}

fn proposal(id: u128, proposer: u128, expires_at: Option<i64>) -> Proposal {
    Proposal {
        id,
        title: "Test Proposal".to_string(),
        description: "A test proposal".to_string(),
        proposer_id: proposer,
        proposal_type: ProposalType::Content,
        content: "Test content".to_string(),
        created_at: 0,
        expires_at,
    }
}

#[test]
fn test_round_table_join_leave() {
    let mut council = council();
    let participant = RoundTableParticipant::new(1, "Test Agent", RoundTableRole::Analyst);
    council.join(participant).unwrap();
    assert_eq!(council.get_participants().len(), 1);
    assert!(council.leave(1));
    assert_eq!(council.get_participants().len(), 0);
}

#[test]
fn test_round_table_voting() {
    let mut council = council();
    council.join(RoundTableParticipant::new(1, "Agent 1", RoundTableRole::Scout)).unwrap();
    council.join(RoundTableParticipant::new(2, "Agent 2", RoundTableRole::Quill)).unwrap();
    council.join(RoundTableParticipant::new(3, "Agent 3", RoundTableRole::Observer)).unwrap();

    let proposal_id = council.propose(proposal(10, 1, None)).unwrap();
    council.vote(1, proposal_id, Vote::Approve, None).unwrap();
    council.vote(2, proposal_id, Vote::Approve, None).unwrap();
    council.vote(3, proposal_id, Vote::Reject, None).unwrap();

    let tally = council.tally(proposal_id).unwrap();
    assert_eq!(tally.approve_count, 2);
    assert_eq!(tally.reject_count, 1);
}

#[test]
fn test_shared_facts() {
    let mut council = council();
    council.update_shared_fact("key1".to_string(), "value1".to_string());
    council.update_shared_fact("key2".to_string(), "value2".to_string());
    assert_eq!(council.get_shared_fact("key1"), Some("value1".to_string()));
    assert_eq!(council.get_shared_fact("key2"), Some("value2".to_string()));
    assert_eq!(council.get_shared_fact("missing"), None);
}

#[test]
fn council_refuses_members_past_the_limit() {
    let mut council = RoundTableCouncil::new(RoundTableConfig {
        max_participants: 2,
        ..RoundTableConfig::default()
    });
    council.join(RoundTableParticipant::new_at(1, "a", RoundTableRole::Muse, 0)).unwrap();
    council.join(RoundTableParticipant::new_at(2, "b", RoundTableRole::Muse, 0)).unwrap();
    assert_eq!(
        council.join(RoundTableParticipant::new_at(3, "c", RoundTableRole::Muse, 0)),
        Err(AgentError::Platform("Round table is full".to_string()))
    );
    assert_eq!(council.participant_count(), 2);
    assert!(!council.leave(3));
}

#[test]
fn council_revote_replaces_the_earlier_vote() {
    let mut council = council();
    council.join(RoundTableParticipant::new_at(1, "a", RoundTableRole::Scout, 0)).unwrap();
    council.join(RoundTableParticipant::new_at(2, "b", RoundTableRole::Scout, 0)).unwrap();
    let id = council.propose_at(proposal(7, 1, None), 1_000);
    council.vote_at(1, id, Vote::Approve, None, 2_000).unwrap();
    council.vote_at(2, id, Vote::Abstain, None, 2_000).unwrap();
    council.vote_at(1, id, Vote::Reject, Some("changed".to_string()), 3_000).unwrap();
    let tally = council.tally(id).unwrap();
    assert_eq!((tally.approve_count, tally.reject_count, tally.abstain_count), (0, 1, 1));
    assert_eq!(tally.votes.len(), 2);
    assert_eq!(tally.votes[1].participant_id, 1);
    assert_eq!(tally.votes[1].timestamp, 3_000);
    assert_eq!(tally.total_participants, 2);
    assert_eq!(tally.proposer_id, 1);
}

#[test]
fn council_vote_refusals() {
    let mut council = council();
    council.join(RoundTableParticipant::new_at(1, "a", RoundTableRole::Scout, 0)).unwrap();
    assert_eq!(
        council.vote_at(9, 5, Vote::Approve, None, 0),
        Err(AgentError::NotFound("Participant not in round table".to_string()))
    );
    assert_eq!(
        council.vote_at(1, 5, Vote::Approve, None, 0),
        Err(AgentError::NotFound("Proposal not found".to_string()))
    );
    let id = council.propose_at(proposal(5, 1, None), 1_000);
    assert_eq!(council.get_active_proposals_at(60_999).len(), 1);
    assert_eq!(council.get_active_proposals_at(61_000).len(), 0);
    assert_eq!(council.vote_at(1, id, Vote::Approve, None, 61_000), Ok(()));
    assert_eq!(
        council.vote_at(1, id, Vote::Approve, None, 61_001),
        Err(AgentError::Platform("Voting period has expired".to_string()))
    );
    assert!(council.tally(99).is_err());
}

#[test]
fn council_conflicts() {
    let mut council = council();
    council.propose_at(proposal(5, 1, Some(10)), 0);
    let cid = council.open_tie_conflict_at(5, 77, 3).unwrap();
    assert_eq!(cid, 77);
    assert_eq!(council.open_tie_conflict_at(6, 78, 3), None);
    council.join_conflict(77, 2);
    council.join_conflict(77, 2);
    council.propose_resolution(77, proposal(8, 2, None));
    let active = council.get_active_conflicts();
    assert_eq!(active.len(), 1);
    assert_eq!(active[0].description, "Tied vote on proposal: Test Proposal");
    assert_eq!(active[0].participant_ids, vec![1, 2]);
    assert_eq!(active[0].conflict_type, ConflictType::Approach);
    assert_eq!(active[0].proposals.len(), 1);
    let resolution = ConflictResolution {
        method: ResolutionMethod::Compromise,
        winning_proposal_id: Some(8),
        explanation: "both".to_string(),
        human_arbitrated: false,
    };
    assert!(council.resolve_conflict_at(77, resolution, 9));
    assert_eq!(council.get_active_conflicts().len(), 0);
    let other = council.create_conflict(4, "other".to_string(), ConflictType::Goal);
    assert_ne!(other, 77);
    assert_eq!(council.get_active_conflicts().len(), 1);
}

#[test]
fn council_supporters_and_arbitration() {
    let mut council = council();
    for id in 1..=3u128 {
        council.join(RoundTableParticipant::new_at(id, "m", RoundTableRole::Analyst, 0)).unwrap();
    }
    council.propose_at(proposal(10, 1, None), 0);
    council.propose_at(proposal(11, 1, None), 0);
    council.vote_at(2, 10, Vote::Approve, None, 1).unwrap();
    council.vote_at(1, 11, Vote::Approve, None, 1).unwrap();
    council.vote_at(2, 11, Vote::Approve, None, 1).unwrap();
    council.vote_at(3, 11, Vote::Reject, None, 1).unwrap();
    assert_eq!(council.supporters(&vec![10, 11, 12]), vec![2, 1]);
    assert!(council.request_human_arbitration(1).is_ok());
    let strict = RoundTableCouncil::new(RoundTableConfig {
        enable_human_arbitration: false,
        ..RoundTableConfig::default()
    });
    assert_eq!(
        strict.request_human_arbitration(1),
        Err(AgentError::Platform("Human arbitration is disabled".to_string()))
    );
}

#[test]
fn council_participant_defaults() {
    let p = RoundTableParticipant::new_at(4, "x", RoundTableRole::Coordinator, 12);
    assert_eq!(p.capabilities, vec!["facilitate".to_string(), "mediate".to_string()]);
    assert_eq!(p.joined_at, 12);
    let config = RoundTableConfig::default();
    assert_eq!(config.max_participants, 10);
    assert_eq!(config.voting_timeout_secs, 60);
    assert_eq!(config.shared_fact_source, "AGENTS.md");
}

#[test]
fn proposals_refused_only_when_the_deadline_does_not_fit() {
    let mut c = council();
    match c.propose_checked_at(proposal(1, 1, None), i64::MAX - 10) {
        Err(AgentError::Platform(m)) => assert_eq!(m, "Voting deadline out of range"),
        _ => panic!("expected the deadline to be refused"),
    }
    assert_eq!(c.propose_checked_at(proposal(2, 1, Some(5)), i64::MAX - 10), Ok(2));
    assert_eq!(c.propose_checked_at(proposal(3, 1, None), 1_000), Ok(3));
    assert!(c.propose(proposal(4, 1, Some(5))).is_ok());
}
