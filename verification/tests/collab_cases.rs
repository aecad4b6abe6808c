use beebotos_agents::collaboration::debate::{DebateSession, DebateSide};

#[test]
fn test_debate_session() {
    let mut session = DebateSession::new(
        "AI Safety".to_string(),
        "AI should be regulated".to_string(),
        "AI should not be regulated".to_string(),
    );

    session.submit_argument(DebateSide::Proposition, "Regulation ensures safety".to_string());
    session.submit_argument(DebateSide::Opposition, "Regulation stifles innovation".to_string());

    assert!(session.rounds[0].proposition_argument.is_some());
    assert!(session.rounds[0].opposition_argument.is_some());
}

#[test]
fn debate_rounds_are_numbered_in_order() {
    let mut session = DebateSession::new("t".to_string(), "p".to_string(), "o".to_string());
    assert_eq!(session.rounds.len(), 1);
    assert_eq!(session.rounds[0].round_number, 1);
    session.add_cross_examination(7, "why?".to_string());
    session.next_round();
    session.submit_argument(DebateSide::Opposition, "no".to_string());
    assert_eq!(session.current_round, 1);
    assert_eq!(session.rounds.len(), 2);
    assert_eq!(session.rounds[1].round_number, 2);
    assert_eq!(session.rounds[1].opposition_argument, Some("no".to_string()));
    assert_eq!(session.rounds[1].proposition_argument, None);
    assert_eq!(session.rounds[0].cross_examination, vec![(7u128, "why?".to_string())]);
    assert!(session.rounds[1].cross_examination.is_empty());
}
