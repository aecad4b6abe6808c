use beebotos_agents::a2a::negotiation::{NegotiationEngine, Proposal as Offer};
use beebotos_agents::channel::dingtalk::{DingTalkContent, DingTalkContentParser, DingTalkFileContent, DingTalkMsgKind};
use beebotos_agents::channel::matrix::{MatrixLoginResponse, MatrixSession};
use beebotos_agents::channel::session_manager::SessionManager;
use beebotos_agents::channel::signal::{SignalContent, SignalContentParser, SignalFileContent, SignalKind};
use beebotos_agents::channel::teams::TeamsContentParser;
use beebotos_agents::collaboration::debate::RoundTableStepType;
use beebotos_agents::collaboration::integration::proposal_workflow;
use beebotos_agents::collaboration::round_table::ProposalType;
use beebotos_agents::collaboration::workflow::StepStatus;
use beebotos_agents::content::PlatformType;
use beebotos_agents::error::AgentError;

#[test]
fn escaped_html_reads_back() {
    let text = "<a href=\"x\">Tom's & Jerry's</a> &amp;";
    let e = TeamsContentParser::escape_html(text);
    assert!(!e.contains('<') && !e.contains('>') && !e.contains('"') && !e.contains('\''));
    let back = e
        .replace("&#x27;", "'")
        .replace("&quot;", "\"")
        .replace("&gt;", ">")
        .replace("&lt;", "<")
        .replace("&amp;", "&");
    assert_eq!(back, text);
}

#[test]
fn signal_kind_reports_its_type() {
    assert_eq!(SignalContentParser::content_kind("document").unwrap(), SignalKind::File);
    let file = SignalContent::File(SignalFileContent::default());
    assert_eq!(SignalContentParser::get_content_type(&file), "file");
    match SignalContentParser::content_kind("hologram") {
        Err(AgentError::Platform(m)) => assert_eq!(m, "Unknown content type: hologram"),
        _ => panic!("expected an unknown content type"),
    }
}

#[test]
fn dingtalk_kind_reports_its_type() {
    assert_eq!(DingTalkContentParser::msg_kind("file").unwrap(), DingTalkMsgKind::File);
    let file = DingTalkContent::File(DingTalkFileContent::default());
    assert_eq!(DingTalkContentParser::get_msg_type(&file), "file");
}

#[test]
fn proposal_workflow_chains_its_phases() {
    let (p, w) = proposal_workflow("Roadmap", "Plan Q3".to_string(), 7, 100, 200, [1, 2, 3, 4], 1_000);
    assert_eq!(p.id, 100);
    assert_eq!(p.title, "Roadmap");
    assert_eq!(p.proposal_type, ProposalType::Strategy);
    assert_eq!(p.expires_at, Some(1_801_000));
    assert_eq!(w.current_proposal.as_ref().unwrap().id, 100);
    assert_eq!(w.step_types, vec![
        RoundTableStepType::Proposal,
        RoundTableStepType::Debate,
        RoundTableStepType::Voting,
        RoundTableStepType::Execution,
    ]);
    assert_eq!(w.inner.steps.len(), 4);
    assert!(w.inner.steps[0].dependencies.is_empty());
    assert_eq!(w.inner.steps[2].dependencies, vec![2]);
    assert_eq!(w.inner.steps[1].task, "Debate phase for Roadmap");
    assert_eq!(w.inner.steps[3].status, StepStatus::Pending);
    assert_eq!(w.debate_arguments.len(), 0);
}

#[test]
fn matrix_session_after_login() {
    let mut s = MatrixSession::new();
    assert!(matches!(s.access_token(), Err(AgentError::Authentication(_))));
    s.start_token_login("tok");
    match s.finish_token_login(None) {
        Err(AgentError::Authentication(m)) => assert_eq!(m, "Invalid token"),
        _ => panic!("expected an invalid token"),
    }
    assert_eq!(s.access_token().unwrap(), "tok");
    s.finish_token_login(Some("@bot:example.org")).unwrap();
    assert_eq!(s.user_id.as_deref(), Some("@bot:example.org"));
    s.finish_password_login(MatrixLoginResponse {
        access_token: "t2".to_string(),
        device_id: "DEV".to_string(),
        home_server: "example.org".to_string(),
        user_id: "@u:example.org".to_string(),
    });
    assert_eq!(s.device_id.as_deref(), Some("DEV"));
    assert_eq!(s.access_token().unwrap(), "t2");
}

#[test]
fn added_messages_are_stored_and_metadata_set() {
    let mut m = SessionManager::new(60, 2);
    let s = m.get_or_create_session(PlatformType::Telegram, "c", "u");
    m.add_message(&s.id, "user", "one", false, vec![]).unwrap();
    m.add_message(&s.id, "user", "two", false, vec![]).unwrap();
    m.add_message(&s.id, "assistant", "three", false, vec![]).unwrap();
    let h = m.get_history_for_llm(&s.id, 10).unwrap();
    assert_eq!(h.len(), 2);
    assert_eq!(h[1].content, "three");
    assert_eq!(h[1].role, "assistant");
    m.update_metadata(&s.id, "lang", "en").unwrap();
    assert!(m.update_metadata("missing", "lang", "en").is_err());
}

#[test]
fn negotiation_window_must_fit() {
    let mut e: NegotiationEngine<u32> = NegotiationEngine::new();
    let p = |id: &str| Offer { id: id.to_string(), proposer: "a".to_string(), terms: 1u32, timestamp: 0 };
    assert!(e.create_negotiation_checked_at("a".into(), "b".into(), p("p1"), "n1".into(), u64::MAX).is_none());
    assert_eq!(e.create_negotiation_checked_at("a".into(), "b".into(), p("p2"), "n2".into(), 10).as_deref(), Some("n2"));
    assert!(e.create_negotiation("a".into(), "b".into(), p("p3")).is_some());
}
