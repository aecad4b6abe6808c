//! Round-table workflows: a proposal together with the chain of phases
//! (proposal, debate, voting, execution) that carries it through.

use vstd::prelude::*;

use crate::collaboration::council::Proposal;
use crate::collaboration::debate::RoundTableStepType;
use crate::collaboration::round_table::ProposalType;
use crate::collaboration::workflow::{CollaborationWorkflow, StepStatus, WorkflowStep};
use crate::idmap::IdMap;
use crate::text::{push_str, to_owned_string};

verus! {

/// How long a workflow's proposal stays open for votes, in milliseconds.
pub const PROPOSAL_WINDOW_MS: i64 = 1_800_000;

/// An argument made in a workflow's debate.
#[derive(Debug)]
pub struct DebateArgument {
    pub participant_id: u128,
    pub argument: String,
    pub timestamp: i64,
}

/// A workflow run by the round table: its steps, the topic, the proposal
/// under discussion, the phase of each step, and the debate arguments by
/// participant.
#[derive(Debug)]
pub struct RoundTableWorkflow {
    pub inner: CollaborationWorkflow,
    pub topic: String,
    pub current_proposal: Option<Proposal>,
    pub step_types: Vec<RoundTableStepType>,
    pub debate_arguments: IdMap<Vec<DebateArgument>>,
}

/// The name a phase is written under.
pub open spec fn step_type_name(t: RoundTableStepType) -> Seq<char> {
    match t {
        RoundTableStepType::Proposal => "Proposal"@,
        RoundTableStepType::Debate => "Debate"@,
        RoundTableStepType::Voting => "Voting"@,
        RoundTableStepType::ConflictResolution => "ConflictResolution"@,
        RoundTableStepType::Execution => "Execution"@,
    }
}

/// The phases of a proposal workflow, in order.
pub open spec fn workflow_phases() -> Seq<RoundTableStepType> {
    seq![
        RoundTableStepType::Proposal,
        RoundTableStepType::Debate,
        RoundTableStepType::Voting,
        RoundTableStepType::Execution,
    ]
}

/// Whether `s` is the pending step `id` of phase `t` on `topic`, assigned
/// to `agent`, that depends on `prev` when there is one.
pub open spec fn phase_step_is(
    s: WorkflowStep,
    t: RoundTableStepType,
    id: u128,
    agent: u128,
    topic: Seq<char>,
    prev: Option<u128>,
) -> bool {
    &&& s.id == id
    &&& s.agent_id == agent
    &&& s.task@ == step_type_name(t) + " phase for "@ + topic
    &&& s.status == StepStatus::Pending
    &&& s.dependencies@ == match prev {
        Some(p) => seq![p],
        None => Seq::<u128>::empty(),
    }
}

/// Whether two proposals hold the same values.
pub open spec fn same_proposal(a: Proposal, b: Proposal) -> bool {
    &&& a.id == b.id && a.title@ == b.title@ && a.description@ == b.description@
    &&& a.proposer_id == b.proposer_id && a.proposal_type == b.proposal_type && a.content@ == b.content@
    &&& a.created_at == b.created_at && a.expires_at == b.expires_at
}

fn step_type_label(t: RoundTableStepType) -> (s: &'static str)
    ensures
        s@ == step_type_name(t),
{
    match t {
        RoundTableStepType::Proposal => "Proposal",
        RoundTableStepType::Debate => "Debate",
        RoundTableStepType::Voting => "Voting",
        RoundTableStepType::ConflictResolution => "ConflictResolution",
        RoundTableStepType::Execution => "Execution",
    }
}

fn phase_step(t: RoundTableStepType, id: u128, agent: u128, topic: &str, prev: Option<u128>) -> (s: WorkflowStep)
    ensures
        phase_step_is(s, t, id, agent, topic@, prev),
{
    let mut task = to_owned_string(step_type_label(t));
    push_str(&mut task, " phase for ");
    push_str(&mut task, topic);
    let mut dependencies: Vec<u128> = Vec::new();
    match prev {
        Some(p) => {
            dependencies.push(p);
        },
        None => {},
    }
    assert(dependencies@ =~= match prev {
        Some(p) => seq![p],
        None => Seq::<u128>::empty(),
    });
    WorkflowStep { id, agent_id: agent, task, dependencies, status: StepStatus::Pending }
}

fn strategy_proposal(id: u128, topic: &str, description: String, proposer_id: u128, now: i64) -> (p: Proposal)
    requires
        now + PROPOSAL_WINDOW_MS <= i64::MAX,
    ensures
        p.id == id && p.title@ == topic@ && p.description@ == description@ && p.proposer_id == proposer_id,
        p.proposal_type == ProposalType::Strategy && p.content@.len() == 0,
        p.created_at == now && p.expires_at == Some((now + PROPOSAL_WINDOW_MS) as i64),
{
    Proposal {
        id,
        title: to_owned_string(topic),
        description,
        proposer_id,
        proposal_type: ProposalType::Strategy,
        content: String::new(),
        created_at: now,
        expires_at: Some(now + PROPOSAL_WINDOW_MS),
    }
}

/// A strategy proposal on `topic` by `proposer_id` made at `now` (open for
/// thirty minutes), and the workflow that carries it: the phases proposal,
/// debate, voting and execution as pending steps assigned to the proposer,
/// each depending on the one before, with the proposal as the current one
/// and no debate arguments yet.
pub fn proposal_workflow(
    topic: &str,
    description: String,
    proposer_id: u128,
    proposal_id: u128,
    workflow_id: u128,
    step_ids: [u128; 4],
    now: i64,
) -> (r: (Proposal, RoundTableWorkflow))
    requires
        now + PROPOSAL_WINDOW_MS <= i64::MAX,
    ensures
        r.0.id == proposal_id && r.0.title@ == topic@ && r.0.description@ == description@,
        r.0.proposer_id == proposer_id && r.0.proposal_type == ProposalType::Strategy && r.0.content@.len() == 0,
        r.0.created_at == now && r.0.expires_at == Some((now + PROPOSAL_WINDOW_MS) as i64),
        r.1.current_proposal matches Some(p) && same_proposal(p, r.0),
        r.1.topic@ == topic@,
        r.1.step_types@ == workflow_phases(),
        r.1.inner.id == workflow_id && r.1.inner.current_step == 0,
        r.1.inner.steps@.len() == 4,
        forall|i: int|
            0 <= i < 4 ==> phase_step_is(
                #[trigger] r.1.inner.steps@[i],
                workflow_phases()[i],
                step_ids@[i],
                proposer_id,
                topic@,
                if i == 0 { None } else { Some(step_ids@[i - 1]) },
            ),
        r.1.debate_arguments@.len() == 0,
{
    let proposal = strategy_proposal(proposal_id, topic, to_owned_string(description.as_str()), proposer_id, now);
    let current = strategy_proposal(proposal_id, topic, description, proposer_id, now);
    let mut steps: Vec<WorkflowStep> = Vec::new();
    steps.push(phase_step(RoundTableStepType::Proposal, step_ids[0], proposer_id, topic, None));
    steps.push(phase_step(RoundTableStepType::Debate, step_ids[1], proposer_id, topic, Some(step_ids[0])));
    steps.push(phase_step(RoundTableStepType::Voting, step_ids[2], proposer_id, topic, Some(step_ids[1])));
    steps.push(phase_step(RoundTableStepType::Execution, step_ids[3], proposer_id, topic, Some(step_ids[2])));
    let mut step_types: Vec<RoundTableStepType> = Vec::new();
    step_types.push(RoundTableStepType::Proposal);
    step_types.push(RoundTableStepType::Debate);
    step_types.push(RoundTableStepType::Voting);
    step_types.push(RoundTableStepType::Execution);
    assert(step_types@ =~= workflow_phases());
    assert(current.description@ == proposal.description@);
    assert(current.content@ == proposal.content@);
    assert(current.expires_at == proposal.expires_at);
    assert(same_proposal(current, proposal));
    let workflow = RoundTableWorkflow {
        inner: CollaborationWorkflow { id: workflow_id, steps, current_step: 0 },
        topic: to_owned_string(topic),
        current_proposal: Some(current),
        step_types,
        debate_arguments: IdMap::new(),
    };
    (proposal, workflow)
}

} // verus!
