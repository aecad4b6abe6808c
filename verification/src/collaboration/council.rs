//! The round-table council: who sits at it, the proposals before it and
//! the votes on them, its conflicts, and the facts its members share.
//! Times are milliseconds since the epoch. Voting weights and the consensus
//! threshold are fractions and stay with the caller: the council counts.

use vstd::prelude::*;

use crate::clock::{new_uuid, now_millis};
use crate::collaboration::round_table::{
    add_participant, after_vote, count_votes, is_vote, lemma_one_vote_per_participant, record_vote,
    one_vote_each, role_capabilities, ConflictType, ParticipantStatus, ProposalType,
    ResolutionMethod, RoundTableRole, Vote, VoteRecord, DEFAULT_MAX_PARTICIPANTS,
    DEFAULT_VOTING_TIMEOUT_SECS,
};
use crate::error::AgentError;
use crate::idmap::IdMap;
use crate::strmap::{has_key, inserted, lemma_position_of, lookup, position_of, removed, StrMap};
use crate::text::to_owned_string;

verus! {

/// A member of the round table.
#[derive(Debug)]
pub struct RoundTableParticipant {
    pub id: u128,
    pub name: String,
    pub role: RoundTableRole,
    pub capabilities: Vec<String>,
    pub status: ParticipantStatus,
    pub joined_at: i64,
}

impl RoundTableParticipant {
    /// An active member with the role's default capabilities, joined at
    /// `now`.
    pub fn new_at(id: u128, name: &str, role: RoundTableRole, now: i64) -> (p: Self)
        ensures
            p.id == id,
            p.name@ == name@,
            p.role == role,
            p.capabilities@.map_values(|s: String| s@) == role_capabilities(role),
            p.status == ParticipantStatus::Active,
            p.joined_at == now,
    {
        let capabilities = role.default_capabilities();
        RoundTableParticipant {
            id,
            name: to_owned_string(name),
            role,
            capabilities,
            status: ParticipantStatus::Active,
            joined_at: now,
        }
    }

    /// An active member with the role's default capabilities, joined now.
    pub fn new(id: u128, name: &str, role: RoundTableRole) -> (p: Self)
        ensures
            p.id == id,
            p.name@ == name@,
            p.role == role,
            p.capabilities@.map_values(|s: String| s@) == role_capabilities(role),
            p.status == ParticipantStatus::Active,
    {
        Self::new_at(id, name, role, now_millis())
    }
}

/// A proposal put to the round table.
#[derive(Debug)]
pub struct Proposal {
    pub id: u128,
    pub title: String,
    pub description: String,
    pub proposer_id: u128,
    pub proposal_type: ProposalType,
    pub content: String,
    pub created_at: i64,
    pub expires_at: Option<i64>,
}

/// How a conflict was settled.
#[derive(Debug)]
pub struct ConflictResolution {
    pub method: ResolutionMethod,
    pub winning_proposal_id: Option<u128>,
    pub explanation: String,
    pub human_arbitrated: bool,
}

/// A conflict among members, with the solutions proposed for it.
#[derive(Debug)]
pub struct Conflict {
    pub id: u128,
    pub participant_ids: Vec<u128>,
    pub description: String,
    pub proposals: Vec<Proposal>,
    pub conflict_type: ConflictType,
    pub created_at: i64,
    pub resolved_at: Option<i64>,
    pub resolution: Option<ConflictResolution>,
}

/// Round-table settings (the consensus threshold, a fraction, is kept by
/// the caller).
#[derive(Debug)]
pub struct RoundTableConfig {
    pub max_participants: usize,
    pub voting_timeout_secs: u64,
    pub enable_human_arbitration: bool,
    pub auto_resolve_conflicts: bool,
    pub shared_fact_source: String,
}

impl Default for RoundTableConfig {
    fn default() -> (c: Self)
        ensures
            c.max_participants == DEFAULT_MAX_PARTICIPANTS,
            c.voting_timeout_secs == DEFAULT_VOTING_TIMEOUT_SECS,
            c.enable_human_arbitration,
            c.auto_resolve_conflicts,
            c.shared_fact_source@ == "AGENTS.md"@,
    {
        RoundTableConfig {
            max_participants: DEFAULT_MAX_PARTICIPANTS,
            voting_timeout_secs: DEFAULT_VOTING_TIMEOUT_SECS,
            enable_human_arbitration: true,
            auto_resolve_conflicts: true,
            shared_fact_source: to_owned_string("AGENTS.md"),
        }
    }
}

/// The counts of the votes on a proposal when voting closes, with the
/// votes themselves, for the caller to weigh.
#[derive(Debug)]
pub struct VoteTally {
    pub proposal_id: u128,
    pub proposer_id: u128,
    pub approve_count: usize,
    pub reject_count: usize,
    pub abstain_count: usize,
    pub total_participants: usize,
    pub votes: Vec<VoteRecord>,
}

/// A council as plain values: members, proposals with their votes,
/// conflicts and shared facts, each under its key in insertion order.
pub struct CouncilView {
    pub config: RoundTableConfig,
    pub participants: Seq<(u128, RoundTableParticipant)>,
    pub proposals: Seq<(u128, (Proposal, Vec<VoteRecord>))>,
    pub conflicts: Seq<(u128, Conflict)>,
    pub facts: Seq<(Seq<char>, Seq<char>)>,
}

/// The round-table council.
#[derive(Debug)]
pub struct RoundTableCouncil {
    config: RoundTableConfig,
    participants: IdMap<RoundTableParticipant>,
    proposals: IdMap<(Proposal, Vec<VoteRecord>)>,
    conflicts: IdMap<Conflict>,
    shared_facts: StrMap<String>,
}

impl View for RoundTableCouncil {
    type V = CouncilView;

    closed spec fn view(&self) -> CouncilView {
        CouncilView {
            config: self.config,
            participants: self.participants@,
            proposals: self.proposals@,
            conflicts: self.conflicts@,
            facts: self.shared_facts@,
        }
    }
}

/// No member has two votes on any proposal.
pub open spec fn votes_one_each(proposals: Seq<(u128, (Proposal, Vec<VoteRecord>))>) -> bool {
    forall|i: int| 0 <= i < proposals.len() ==> #[trigger] one_vote_each(proposals[i].1.1@)
}

/// Whether a deadline for `p` fits in a timestamp at `now`: it has one
/// already, or `now` plus the timeout does.
pub open spec fn deadline_fits(p: Proposal, now: i64, timeout_secs: u64) -> bool {
    p.expires_at is Some || (timeout_secs * 1000 <= i64::MAX && now + timeout_secs * 1000 <= i64::MAX)
}

/// What proposing `p` at `now` does to the table (`before`, `after`) and
/// returns: refused with "Voting deadline out of range", changing nothing,
/// exactly when the deadline does not fit; otherwise `p` with its deadline
/// and no votes is stored under its ID, which is returned.
pub open spec fn proposed(
    before: CouncilView,
    after: CouncilView,
    p: Proposal,
    now: i64,
    r: Result<u128, AgentError>,
) -> bool {
    &&& r is Err <==> !deadline_fits(p, now, before.config.voting_timeout_secs)
    &&& r matches Err(e) ==> (e matches AgentError::Platform(m) && m@ == "Voting deadline out of range"@)
        && after == before
    &&& r matches Ok(id) ==> id == p.id && exists|none: Vec<VoteRecord>|
        #![trigger none@]
        none@.len() == 0 && after.proposals == inserted(
            before.proposals,
            id,
            (with_deadline(p, now, before.config.voting_timeout_secs), none),
        )
}

/// `p` with its deadline set to `now` plus the voting timeout where it
/// had none.
pub open spec fn with_deadline(p: Proposal, now: i64, timeout_secs: u64) -> Proposal {
    if p.expires_at is None {
        Proposal { expires_at: Some((now + timeout_secs * 1000) as i64), ..p }
    } else {
        p
    }
}

/// Whether a proposal can still be voted on at `now`.
pub open spec fn open_at(p: Proposal, now: i64) -> bool {
    match p.expires_at {
        Some(e) => now <= e,
        None => true,
    }
}

impl RoundTableCouncil {
    /// Every proposal's votes hold at most one per member.
    pub open spec fn wf(&self) -> bool {
        votes_one_each(self@.proposals)
    }

    /// An empty council with the given settings.
    pub fn new(config: RoundTableConfig) -> (c: Self)
        ensures
            c.wf(),
            c@.config == config,
            c@.participants.len() == 0,
            c@.proposals.len() == 0,
            c@.conflicts.len() == 0,
            c@.facts.len() == 0,
    {
        RoundTableCouncil {
            config,
            participants: IdMap::new(),
            proposals: IdMap::new(),
            conflicts: IdMap::new(),
            shared_facts: StrMap::new(),
        }
    }

    /// The council's settings.
    pub fn config(&self) -> (c: &RoundTableConfig)
        ensures
            *c == self@.config,
    {
        &self.config
    }

    /// The number of members.
    pub fn participant_count(&self) -> (n: usize)
        ensures
            n == self@.participants.len(),
    {
        self.participants.len()
    }

    /// Seats a member, in place of one with the same ID; refused with
    /// "Round table is full" when the table already has its maximum of
    /// members.
    pub fn join(&mut self, participant: RoundTableParticipant) -> (r: Result<(), AgentError>)
        requires
            old(self).wf(),
        ensures
            final(self).wf(),
            final(self)@.config == old(self)@.config,
            final(self)@.proposals == old(self)@.proposals,
            final(self)@.conflicts == old(self)@.conflicts,
            final(self)@.facts == old(self)@.facts,
            old(self)@.participants.len() >= old(self)@.config.max_participants ==> (r matches Err(
                AgentError::Platform(m),
            ) && m@ == "Round table is full"@ && final(self)@.participants == old(self)@.participants),
            old(self)@.participants.len() < old(self)@.config.max_participants ==> (r is Ok
                && final(self)@.participants == inserted(old(self)@.participants, participant.id, participant)),
    {
        if self.participants.len() >= self.config.max_participants {
            return Err(AgentError::Platform(to_owned_string("Round table is full")));
        }
        let id = participant.id;
        self.participants.insert(id, participant);
        Ok(())
    }

    /// Unseats the member with ID `id`; whether one was seated.
    pub fn leave(&mut self, id: u128) -> (left: bool)
        requires
            old(self).wf(),
        ensures
            final(self).wf(),
            final(self)@.config == old(self)@.config,
            final(self)@.proposals == old(self)@.proposals,
            final(self)@.conflicts == old(self)@.conflicts,
            final(self)@.facts == old(self)@.facts,
            left == has_key(old(self)@.participants, id),
            final(self)@.participants == removed(old(self)@.participants, id),
    {
        let r = self.participants.remove(id);
        proof {
            if has_key(old(self)@.participants, id) {
                lemma_position_of(old(self)@.participants, id);
            }
        }
        r.is_some()
    }

    /// Puts a proposal to the table at `now`, with a deadline of the voting
    /// timeout from now where it has none, and no votes (in place of a
    /// proposal with the same ID and its votes). Returns its ID.
    pub fn propose_at(&mut self, proposal: Proposal, now: i64) -> (id: u128)
        requires
            old(self).wf(),
            proposal.expires_at is None ==> old(self)@.config.voting_timeout_secs * 1000 <= i64::MAX
                && now + old(self)@.config.voting_timeout_secs * 1000 <= i64::MAX,
        ensures
            final(self).wf(),
            final(self)@.config == old(self)@.config,
            final(self)@.participants == old(self)@.participants,
            final(self)@.conflicts == old(self)@.conflicts,
            final(self)@.facts == old(self)@.facts,
            id == proposal.id,
            exists|none: Vec<VoteRecord>| #![trigger none@] none@.len() == 0
                && final(self)@.proposals == inserted(
                    old(self)@.proposals,
                    id,
                    (with_deadline(proposal, now, old(self)@.config.voting_timeout_secs), none),
                ),
    {
        let ghost original = proposal;
        let mut proposal = proposal;
        if proposal.expires_at.is_none() {
            let timeout: i64 = (self.config.voting_timeout_secs * 1000) as i64;
            proposal.expires_at = Some(now + timeout);
        }
        let id = proposal.id;
        let none: Vec<VoteRecord> = Vec::new();
        let ghost entry = (proposal, none);
        assert(proposal == with_deadline(original, now, self@.config.voting_timeout_secs));
        self.proposals.insert(id, (proposal, none));
        proof {
            assert(none@.len() == 0);
            assert(final(self)@.proposals == inserted(old(self)@.proposals, id, entry));
            let ps = final(self)@.proposals;
            let old_ps = old(self)@.proposals;
            assert forall|i: int| 0 <= i < ps.len() implies #[trigger] one_vote_each(ps[i].1.1@) by {
                if has_key(old_ps, id) {
                    lemma_position_of(old_ps, id);
                    if i != position_of(old_ps, id) {
                        assert(ps[i] == old_ps[i]);
                    }
                } else if i < old_ps.len() {
                    assert(ps[i] == old_ps[i]);
                }
            }
        }
        id
    }

    /// Casts `participant_id`'s vote on `proposal_id` at `now`, in place of
    /// the member's earlier vote on it. Refused with "Participant not in
    /// round table" (not found) for someone not seated, "Proposal not found"
    /// for an unknown proposal, and "Voting period has expired" (platform)
    /// after the proposal's deadline; a refusal changes nothing.
    pub fn vote_at(
        &mut self,
        participant_id: u128,
        proposal_id: u128,
        vote: Vote,
        reason: Option<String>,
        now: i64,
    ) -> (r: Result<(), AgentError>)
        requires
            old(self).wf(),
        ensures
            final(self).wf(),
            final(self)@.config == old(self)@.config,
            final(self)@.participants == old(self)@.participants,
            final(self)@.conflicts == old(self)@.conflicts,
            final(self)@.facts == old(self)@.facts,
            !has_key(old(self)@.participants, participant_id) ==> (r matches Err(AgentError::NotFound(m))
                && m@ == "Participant not in round table"@ && final(self)@ == old(self)@),
            has_key(old(self)@.participants, participant_id) && !has_key(old(self)@.proposals, proposal_id)
                ==> (r matches Err(AgentError::NotFound(m)) && m@ == "Proposal not found"@
                && final(self)@ == old(self)@),
            has_key(old(self)@.participants, participant_id) ==> (lookup(old(self)@.proposals, proposal_id)
                matches Some(entry) ==> (!open_at(entry.0, now) ==> (r matches Err(AgentError::Platform(m))
                && m@ == "Voting period has expired"@ && final(self)@ == old(self)@))),
            has_key(old(self)@.participants, participant_id) ==> (lookup(old(self)@.proposals, proposal_id)
                matches Some(entry) ==> (open_at(entry.0, now) ==> (r is Ok && exists|after: Vec<VoteRecord>|
                #![trigger after@] after@ == after_vote(
                    entry.1@,
                    VoteRecord { participant_id, vote, reason, timestamp: now },
                ) && final(self)@.proposals == inserted(old(self)@.proposals, proposal_id, (entry.0, after))))),
    {
        if !self.participants.contains_key(participant_id) {
            return Err(AgentError::NotFound(to_owned_string("Participant not in round table")));
        }
        let i = match self.proposals.index_of(proposal_id) {
            Some(i) => i,
            None => {
                return Err(AgentError::NotFound(to_owned_string("Proposal not found")));
            },
        };
        proof {
            lemma_position_of(self@.proposals, proposal_id);
        }
        let expired = match self.proposals.value_at(i).0.expires_at {
            Some(e) => now > e,
            None => false,
        };
        if expired {
            return Err(AgentError::Platform(to_owned_string("Voting period has expired")));
        }
        let (k, entry) = self.proposals.take_at(i);
        let (proposal, mut votes) = entry;
        let ghost before = votes@;
        let record = VoteRecord { participant_id, vote, reason, timestamp: now };
        let ghost rec = record;
        record_vote(&mut votes, record);
        let ghost after = votes;
        self.proposals.put_at(i, k, (proposal, votes));
        proof {
            let old_ps = old(self)@.proposals;
            let ps = final(self)@.proposals;
            assert(ps =~= old_ps.update(i as int, (proposal_id, (proposal, after))));
            assert(old_ps[i as int].1.1@ == before);
            assert(one_vote_each(before));
            lemma_one_vote_per_participant(before, rec);
            assert forall|j: int| 0 <= j < ps.len() implies #[trigger] one_vote_each(ps[j].1.1@) by {
                if j != i {
                    assert(ps[j] == old_ps[j]);
                }
            }
            assert(after@ == after_vote(before, rec));
        }
        Ok(())
    }

    /// Puts a proposal to the table at `now`, as `propose_at` does, where
    /// its deadline fits in a timestamp; otherwise nothing changes and the
    /// proposal is refused with "Voting deadline out of range".
    pub fn propose_checked_at(&mut self, proposal: Proposal, now: i64) -> (r: Result<u128, AgentError>)
        requires
            old(self).wf(),
        ensures
            final(self).wf(),
            final(self)@.config == old(self)@.config,
            final(self)@.participants == old(self)@.participants,
            final(self)@.conflicts == old(self)@.conflicts,
            final(self)@.facts == old(self)@.facts,
            proposed(old(self)@, final(self)@, proposal, now, r),
    {
        if proposal.expires_at.is_none() {
            let t = self.config.voting_timeout_secs;
            if t > 9_223_372_036_854_775 || now > 9_223_372_036_854_775_807i64 - (t * 1000) as i64 {
                return Err(AgentError::Platform(to_owned_string("Voting deadline out of range")));
            }
        }
        let id = self.propose_at(proposal, now);
        Ok(id)
    }

    /// Puts a proposal to the table now, as `propose_checked_at` does at
    /// the time the clock gives.
    pub fn propose(&mut self, proposal: Proposal) -> (r: Result<u128, AgentError>)
        requires
            old(self).wf(),
        ensures
            final(self).wf(),
            final(self)@.config == old(self)@.config,
            final(self)@.participants == old(self)@.participants,
            final(self)@.conflicts == old(self)@.conflicts,
            final(self)@.facts == old(self)@.facts,
            proposal.expires_at is Some ==> r is Ok,
            exists|now: i64| #[trigger] proposed(old(self)@, final(self)@, proposal, now, r),
    {
        let now = now_millis();
        let r = self.propose_checked_at(proposal, now);
        proof {
            assert(proposed(old(self)@, final(self)@, proposal, now, r));
        }
        r
    }

    /// Casts a vote now, as `vote_at` does.
    pub fn vote(&mut self, participant_id: u128, proposal_id: u128, vote: Vote, reason: Option<String>) -> (r: Result<(), AgentError>)
        requires
            old(self).wf(),
        ensures
            final(self).wf(),
            final(self)@.config == old(self)@.config,
            final(self)@.participants == old(self)@.participants,
            final(self)@.conflicts == old(self)@.conflicts,
            final(self)@.facts == old(self)@.facts,
            !has_key(old(self)@.participants, participant_id) ==> (r matches Err(AgentError::NotFound(m))
                && m@ == "Participant not in round table"@ && final(self)@ == old(self)@),
            has_key(old(self)@.participants, participant_id) && !has_key(old(self)@.proposals, proposal_id)
                ==> (r matches Err(AgentError::NotFound(m)) && m@ == "Proposal not found"@
                && final(self)@ == old(self)@),
            has_key(old(self)@.participants, participant_id) && has_key(old(self)@.proposals, proposal_id)
                && r is Err ==> (r matches Err(AgentError::Platform(m)) && m@ == "Voting period has expired"@
                && final(self)@ == old(self)@),
            has_key(old(self)@.participants, participant_id) && (lookup(old(self)@.proposals, proposal_id) matches Some(
                entry,
            ) && entry.0.expires_at is None) ==> r is Ok,
            r is Ok ==> exists|now: i64, after: Vec<VoteRecord>| #![trigger after@, cast(participant_id, vote, reason, now)]
                lookup(old(self)@.proposals, proposal_id) matches Some(entry) && open_at(entry.0, now)
                && after@ == after_vote(entry.1@, cast(participant_id, vote, reason, now))
                && final(self)@.proposals == inserted(old(self)@.proposals, proposal_id, (entry.0, after)),
    {
        let now = now_millis();
        let ghost record = cast(participant_id, vote, reason, now);
        let r = self.vote_at(participant_id, proposal_id, vote, reason, now);
        proof {
            if r is Ok {
                let entry = lookup(old(self)@.proposals, proposal_id).unwrap();
                let after = choose|after: Vec<VoteRecord>| #![trigger after@] after@ == after_vote(entry.1@, record)
                    && self@.proposals == inserted(old(self)@.proposals, proposal_id, (entry.0, after));
                assert(after@ == after_vote(entry.1@, cast(participant_id, vote, reason, now)));
            }
        }
        r
    }

    /// The tally of a proposal's votes: how many of each kind, the number of
    /// members, and the votes themselves; "Proposal not found" for an
    /// unknown proposal.
    pub fn tally(&self, proposal_id: u128) -> (r: Result<VoteTally, AgentError>)
        ensures
            lookup(self@.proposals, proposal_id) is None ==> (r matches Err(AgentError::NotFound(m))
                && m@ == "Proposal not found"@),
            lookup(self@.proposals, proposal_id) matches Some(entry) ==> (r matches Ok(t)
                && t.proposal_id == proposal_id
                && t.proposer_id == entry.0.proposer_id
                && t.approve_count == entry.1@.filter(is_vote(Vote::Approve)).len()
                && t.reject_count == entry.1@.filter(is_vote(Vote::Reject)).len()
                && t.abstain_count == entry.1@.filter(is_vote(Vote::Abstain)).len()
                && t.total_participants == self@.participants.len()
                && t.votes@ == entry.1@),
    {
        match self.proposals.get(proposal_id) {
            None => Err(AgentError::NotFound(to_owned_string("Proposal not found"))),
            Some(entry) => {
                let votes = &entry.1;
                let mut copies: Vec<VoteRecord> = Vec::new();
                let mut i: usize = 0;
                while i < votes.len()
                    invariant
                        i <= votes@.len(),
                        copies@ == votes@.subrange(0, i as int),
                    decreases votes.len() - i,
                {
                    copies.push(copy_vote(&votes[i]));
                    assert(copies@ =~= votes@.subrange(0, i + 1));
                    i = i + 1;
                }
                assert(votes@.subrange(0, votes@.len() as int) =~= votes@);
                Ok(VoteTally {
                    proposal_id,
                    proposer_id: entry.0.proposer_id,
                    approve_count: count_votes(votes, Vote::Approve),
                    reject_count: count_votes(votes, Vote::Reject),
                    abstain_count: count_votes(votes, Vote::Abstain),
                    total_participants: self.participants.len(),
                    votes: copies,
                })
            },
        }
    }

    /// Opens a conflict with ID `id`, started by `initiator` at `now`, with
    /// no proposals and unresolved. Returns its ID.
    pub fn create_conflict_at(
        &mut self,
        id: u128,
        initiator: u128,
        description: String,
        conflict_type: ConflictType,
        now: i64,
    ) -> (r: u128)
        requires
            old(self).wf(),
        ensures
            final(self).wf(),
            final(self)@.config == old(self)@.config,
            final(self)@.participants == old(self)@.participants,
            final(self)@.proposals == old(self)@.proposals,
            final(self)@.facts == old(self)@.facts,
            r == id,
            exists|c: Conflict| #![trigger c.id]
                c.id == id && c.participant_ids@ == seq![initiator] && c.description == description
                && c.proposals@.len() == 0 && c.conflict_type == conflict_type && c.created_at == now
                && c.resolved_at is None && c.resolution is None
                && final(self)@.conflicts == inserted(old(self)@.conflicts, id, c),
    {
        let mut ids: Vec<u128> = Vec::new();
        ids.push(initiator);
        let conflict = Conflict {
            id,
            participant_ids: ids,
            description,
            proposals: Vec::new(),
            conflict_type,
            created_at: now,
            resolved_at: None,
            resolution: None,
        };
        let ghost c = conflict;
        assert(c.participant_ids@ =~= seq![initiator]);
        self.conflicts.insert(id, conflict);
        assert(c.id == id);
        assert(final(self)@.conflicts == inserted(old(self)@.conflicts, id, c));
        id
    }

    /// Opens a conflict with a fresh ID, started by `initiator` now.
    pub fn create_conflict(&mut self, initiator: u128, description: String, conflict_type: ConflictType) -> (r: u128)
        requires
            old(self).wf(),
        ensures
            final(self).wf(),
            final(self)@.config == old(self)@.config,
            final(self)@.participants == old(self)@.participants,
            final(self)@.proposals == old(self)@.proposals,
            final(self)@.facts == old(self)@.facts,
            exists|c: Conflict| #![trigger c.id]
                c.id == r && c.participant_ids@ == seq![initiator] && c.description == description
                && c.proposals@.len() == 0 && c.conflict_type == conflict_type
                && c.resolved_at is None && c.resolution is None
                && final(self)@.conflicts == inserted(old(self)@.conflicts, r, c),
    {
        let id = new_uuid();
        let now = now_millis();
        self.create_conflict_at(id, initiator, description, conflict_type, now)
    }

    /// Opens the conflict over a tied vote on `proposal_id`: started by its
    /// proposer, about "Tied vote on proposal: " and its title, over the
    /// approach. Returns `None`, changing nothing, for an unknown proposal.
    pub fn open_tie_conflict_at(&mut self, proposal_id: u128, conflict_id: u128, now: i64) -> (r: Option<u128>)
        requires
            old(self).wf(),
        ensures
            final(self).wf(),
            final(self)@.config == old(self)@.config,
            final(self)@.participants == old(self)@.participants,
            final(self)@.proposals == old(self)@.proposals,
            final(self)@.facts == old(self)@.facts,
            lookup(old(self)@.proposals, proposal_id) is None ==> r is None && final(self)@ == old(self)@,
            lookup(old(self)@.proposals, proposal_id) matches Some(entry) ==> (r == Some(conflict_id)
                && exists|c: Conflict| #![trigger c.id]
                c.id == conflict_id && c.participant_ids@ == seq![entry.0.proposer_id]
                && c.description@ == "Tied vote on proposal: "@ + entry.0.title@
                && c.proposals@.len() == 0 && c.conflict_type == ConflictType::Approach
                && c.created_at == now && c.resolved_at is None && c.resolution is None
                && final(self)@.conflicts == inserted(old(self)@.conflicts, conflict_id, c)),
    {
        let (proposer, description) = match self.proposals.get(proposal_id) {
            None => return None,
            Some(entry) => {
                let mut d = to_owned_string("Tied vote on proposal: ");
                crate::text::push_str(&mut d, entry.0.title.as_str());
                (entry.0.proposer_id, d)
            },
        };
        Some(self.create_conflict_at(conflict_id, proposer, description, ConflictType::Approach, now))
    }

    /// Settles conflict `conflict_id` at `now` with `resolution`; whether
    /// the conflict exists (nothing changes where it does not).
    pub fn resolve_conflict_at(&mut self, conflict_id: u128, resolution: ConflictResolution, now: i64) -> (found: bool)
        requires
            old(self).wf(),
        ensures
            final(self).wf(),
            final(self)@.config == old(self)@.config,
            final(self)@.participants == old(self)@.participants,
            final(self)@.proposals == old(self)@.proposals,
            final(self)@.facts == old(self)@.facts,
            found == has_key(old(self)@.conflicts, conflict_id),
            !found ==> final(self)@.conflicts == old(self)@.conflicts,
            lookup(old(self)@.conflicts, conflict_id) matches Some(c) ==> final(self)@.conflicts == inserted(
                old(self)@.conflicts,
                conflict_id,
                Conflict { resolved_at: Some(now), resolution: Some(resolution), ..c },
            ),
    {
        match self.conflicts.index_of(conflict_id) {
            None => false,
            Some(i) => {
                proof {
                    lemma_position_of(self@.conflicts, conflict_id);
                }
                let (k, mut c) = self.conflicts.take_at(i);
                c.resolved_at = Some(now);
                c.resolution = Some(resolution);
                self.conflicts.put_at(i, k, c);
                assert(final(self)@.conflicts =~= old(self)@.conflicts.update(i as int, (k, c)));
                true
            },
        }
    }

    /// Adds a member to conflict `conflict_id` unless already in it;
    /// nothing changes for an unknown conflict.
    pub fn join_conflict(&mut self, conflict_id: u128, participant_id: u128)
        requires
            old(self).wf(),
        ensures
            final(self).wf(),
            final(self)@.config == old(self)@.config,
            final(self)@.participants == old(self)@.participants,
            final(self)@.proposals == old(self)@.proposals,
            final(self)@.facts == old(self)@.facts,
            !has_key(old(self)@.conflicts, conflict_id) ==> final(self)@.conflicts == old(self)@.conflicts,
            lookup(old(self)@.conflicts, conflict_id) matches Some(c) ==> exists|ids: Vec<u128>|
                #![trigger ids@]
                (if c.participant_ids@.contains(participant_id) { ids@ == c.participant_ids@ } else {
                    ids@ == c.participant_ids@.push(participant_id)
                }) && final(self)@.conflicts == inserted(
                    old(self)@.conflicts,
                    conflict_id,
                    Conflict { participant_ids: ids, ..c },
                ),
    {
        match self.conflicts.index_of(conflict_id) {
            None => {},
            Some(i) => {
                proof {
                    lemma_position_of(self@.conflicts, conflict_id);
                }
                let (k, mut c) = self.conflicts.take_at(i);
                add_participant(&mut c.participant_ids, participant_id);
                self.conflicts.put_at(i, k, c);
                assert(final(self)@.conflicts =~= old(self)@.conflicts.update(i as int, (k, c)));
            },
        }
    }

    /// Adds a proposed solution to conflict `conflict_id`; nothing changes
    /// for an unknown conflict.
    pub fn propose_resolution(&mut self, conflict_id: u128, proposal: Proposal)
        requires
            old(self).wf(),
        ensures
            final(self).wf(),
            final(self)@.config == old(self)@.config,
            final(self)@.participants == old(self)@.participants,
            final(self)@.proposals == old(self)@.proposals,
            final(self)@.facts == old(self)@.facts,
            !has_key(old(self)@.conflicts, conflict_id) ==> final(self)@.conflicts == old(self)@.conflicts,
            lookup(old(self)@.conflicts, conflict_id) matches Some(c) ==> exists|ps: Vec<Proposal>|
                #![trigger ps@]
                ps@ == c.proposals@.push(proposal) && final(self)@.conflicts == inserted(
                    old(self)@.conflicts,
                    conflict_id,
                    Conflict { proposals: ps, ..c },
                ),
    {
        match self.conflicts.index_of(conflict_id) {
            None => {},
            Some(i) => {
                proof {
                    lemma_position_of(self@.conflicts, conflict_id);
                }
                let (k, mut c) = self.conflicts.take_at(i);
                c.proposals.push(proposal);
                self.conflicts.put_at(i, k, c);
                assert(final(self)@.conflicts =~= old(self)@.conflicts.update(i as int, (k, c)));
            },
        }
    }

    /// Records a shared fact, in place of an earlier value under the key.
    pub fn update_shared_fact(&mut self, key: String, value: String)
        requires
            old(self).wf(),
        ensures
            final(self).wf(),
            final(self)@.config == old(self)@.config,
            final(self)@.participants == old(self)@.participants,
            final(self)@.proposals == old(self)@.proposals,
            final(self)@.conflicts == old(self)@.conflicts,
            final(self)@.facts == inserted(old(self)@.facts, key@, value@),
    {
        self.shared_facts.insert(key, value);
    }

    /// The shared fact under a key.
    pub fn get_shared_fact(&self, key: &str) -> (r: Option<String>)
        ensures
            match lookup(self@.facts, key@) {
                Some(v) => r matches Some(s) && s@ == v,
                None => r is None,
            },
    {
        match self.shared_facts.get(key) {
            Some(v) => Some(v.clone()),
            None => None,
        }
    }

    /// The members, in the order they were first seated.
    pub fn get_participants(&self) -> (v: Vec<&RoundTableParticipant>)
        ensures
            v@.map_values(|p: &RoundTableParticipant| *p) == self@.participants.map_values(
                |e: (u128, RoundTableParticipant)| e.1,
            ),
    {
        let mut v: Vec<&RoundTableParticipant> = Vec::new();
        let mut i: usize = 0;
        while i < self.participants.len()
            invariant
                i <= self@.participants.len(),
                v@.map_values(|p: &RoundTableParticipant| *p) =~= self@.participants.subrange(0, i as int).map_values(
                    |e: (u128, RoundTableParticipant)| e.1,
                ),
            decreases self@.participants.len() - i,
        {
            let ghost before = v@;
            v.push(self.participants.value_at(i));
            assert(v@.map_values(|p: &RoundTableParticipant| *p) =~= before.map_values(
                |p: &RoundTableParticipant| *p,
            ).push(self@.participants[i as int].1));
            i = i + 1;
        }
        v
    }

    /// The proposals still open at `now` (no deadline, or a deadline after
    /// `now`), in the order they were first put.
    pub fn get_active_proposals_at(&self, now: i64) -> (v: Vec<&Proposal>)
        ensures
            v@.map_values(|p: &Proposal| *p) == self@.proposals.map_values(
                |e: (u128, (Proposal, Vec<VoteRecord>))| e.1.0,
            ).filter(active_at(now)),
    {
        let ghost all = self@.proposals.map_values(|e: (u128, (Proposal, Vec<VoteRecord>))| e.1.0);
        let mut v: Vec<&Proposal> = Vec::new();
        let mut i: usize = 0;
        while i < self.proposals.len()
            invariant
                i <= self@.proposals.len(),
                all == self@.proposals.map_values(|e: (u128, (Proposal, Vec<VoteRecord>))| e.1.0),
                v@.map_values(|p: &Proposal| *p) == all.subrange(0, i as int).filter(active_at(now)),
            decreases self@.proposals.len() - i,
        {
            proof {
                reveal(Seq::filter);
                assert(all.subrange(0, i + 1).drop_last() =~= all.subrange(0, i as int));
            }
            let p = &self.proposals.value_at(i).0;
            let active = match p.expires_at {
                Some(e) => now < e,
                None => true,
            };
            let ghost before = v@;
            if active {
                v.push(p);
                assert(v@.map_values(|q: &Proposal| *q) =~= before.map_values(|q: &Proposal| *q).push(all[i as int]));
            }
            i = i + 1;
        }
        assert(all.subrange(0, all.len() as int) =~= all);
        v
    }

    /// The conflicts not yet resolved, in the order they were opened.
    pub fn get_active_conflicts(&self) -> (v: Vec<&Conflict>)
        ensures
            v@.map_values(|c: &Conflict| *c) == self@.conflicts.map_values(|e: (u128, Conflict)| e.1).filter(
                unresolved(),
            ),
    {
        let ghost all = self@.conflicts.map_values(|e: (u128, Conflict)| e.1);
        let mut v: Vec<&Conflict> = Vec::new();
        let mut i: usize = 0;
        while i < self.conflicts.len()
            invariant
                i <= self@.conflicts.len(),
                all == self@.conflicts.map_values(|e: (u128, Conflict)| e.1),
                v@.map_values(|c: &Conflict| *c) == all.subrange(0, i as int).filter(unresolved()),
            decreases self@.conflicts.len() - i,
        {
            proof {
                reveal(Seq::filter);
                assert(all.subrange(0, i + 1).drop_last() =~= all.subrange(0, i as int));
            }
            let c = self.conflicts.value_at(i);
            let ghost before = v@;
            if c.resolved_at.is_none() {
                v.push(c);
                assert(v@.map_values(|q: &Conflict| *q) =~= before.map_values(|q: &Conflict| *q).push(all[i as int]));
            }
            i = i + 1;
        }
        assert(all.subrange(0, all.len() as int) =~= all);
        v
    }

    /// Asks for a person to arbitrate a conflict: refused with "Human
    /// arbitration is disabled" (platform) where the settings disable it.
    pub fn request_human_arbitration(&self, conflict_id: u128) -> (r: Result<(), AgentError>)
        ensures
            self@.config.enable_human_arbitration ==> r is Ok,
            !self@.config.enable_human_arbitration ==> (r matches Err(AgentError::Platform(m))
                && m@ == "Human arbitration is disabled"@),
    {
        if !self.config.enable_human_arbitration {
            return Err(AgentError::Platform(to_owned_string("Human arbitration is disabled")));
        }
        Ok(())
    }

    /// The members who approved at least one of the given proposals, each
    /// once, in the order first found (proposals in the order given, votes
    /// in the order cast); unknown proposals count for nothing.
    pub fn supporters(&self, proposal_ids: &Vec<u128>) -> (v: Vec<u128>)
        ensures
            v@.no_duplicates(),
            forall|id: u128| v@.contains(id) <==> approved_any(self@.proposals, proposal_ids@, id),
    {
        let mut v: Vec<u128> = Vec::new();
        let mut k: usize = 0;
        while k < proposal_ids.len()
            invariant
                k <= proposal_ids@.len(),
                v@.no_duplicates(),
                forall|id: u128| v@.contains(id) <==> approved_any(self@.proposals, proposal_ids@.subrange(0, k as int), id),
            decreases proposal_ids.len() - k,
        {
            let pid = proposal_ids[k];
            assert(proposal_ids@.subrange(0, k + 1) =~= proposal_ids@.subrange(0, k as int).push(pid));
            match self.proposals.get(pid) {
                None => {
                    assert forall|id: u128| v@.contains(id) <==> approved_any(self@.proposals, proposal_ids@.subrange(0, k + 1), id) by {
                        if approved_any(self@.proposals, proposal_ids@.subrange(0, k + 1), id) {
                            let j = choose|j: int| 0 <= j < k + 1 && #[trigger] approved_in(self@.proposals, proposal_ids@.subrange(0, k + 1)[j], id);
                            if j < k {
                                assert(proposal_ids@.subrange(0, k as int)[j] == proposal_ids@.subrange(0, k + 1)[j]);
                                assert(approved_in(self@.proposals, proposal_ids@.subrange(0, k as int)[j], id));
                            }
                        }
                        if approved_any(self@.proposals, proposal_ids@.subrange(0, k as int), id) {
                            let j = choose|j: int| 0 <= j < k && #[trigger] approved_in(self@.proposals, proposal_ids@.subrange(0, k as int)[j], id);
                            assert(proposal_ids@.subrange(0, k as int)[j] == proposal_ids@.subrange(0, k + 1)[j]);
                            assert(approved_in(self@.proposals, proposal_ids@.subrange(0, k + 1)[j], id));
                        }
                    }
                },
                Some(entry) => {
                    let votes = &entry.1;
                    let ghost vs = votes@;
                    let ghost v0 = v@;
                    let mut i: usize = 0;
                    while i < votes.len()
                        invariant
                            i <= votes@.len(),
                            vs == votes@,
                            v@.no_duplicates(),
                            forall|id: u128| #[trigger] v@.contains(id) <==> (v0.contains(id) || approver_before(vs, i as int, id)),
                        decreases votes.len() - i,
                    {
                        let rec = &votes[i];
                        let ghost vb = v@;
                        proof {
                            assert(forall|x: u128| vb.contains(x) <==> (v0.contains(x) || approver_before(vs, i as int, x)));
                            assert forall|x: u128| approver_before(vs, i + 1, x) <==> (approver_before(vs, i as int, x)
                                || (vs[i as int].participant_id == x && vs[i as int].vote == Vote::Approve)) by {
                                lemma_approver_step(vs, i as int, x);
                            }
                        }
                        if rec.vote == Vote::Approve {
                            let id = rec.participant_id;
                            let mut seen = false;
                            let mut m: usize = 0;
                            while m < v.len()
                                invariant
                                    m <= v@.len(),
                                    seen <==> exists|q: int| 0 <= q < m && v@[q] == id,
                                decreases v.len() - m,
                            {
                                if v[m] == id {
                                    seen = true;
                                }
                                m = m + 1;
                            }
                            if !seen {
                                v.push(id);
                                proof {
                                    assert forall|x: u128| v@.contains(x) <==> (vb.contains(x) || x == id) by {
                                        if v@.contains(x) {
                                            let q = choose|q: int| 0 <= q < v@.len() && v@[q] == x;
                                            if q < vb.len() {
                                                assert(vb[q] == x);
                                            }
                                        }
                                        if vb.contains(x) {
                                            let q = choose|q: int| 0 <= q < vb.len() && vb[q] == x;
                                            assert(v@[q] == x);
                                        }
                                        if x == id {
                                            assert(v@[vb.len() as int] == x);
                                        }
                                    }
                                }
                            } else {
                                proof {
                                    let q = choose|q: int| 0 <= q < v@.len() && v@[q] == id;
                                    assert(v@.contains(id));
                                    assert forall|x: u128| v@.contains(x) <==> (vb.contains(x) || x == id) by {}
                                }
                            }
                            proof {
                                assert(vs[i as int].participant_id == id && vs[i as int].vote == Vote::Approve);
                                assert forall|x: u128| v@.contains(x) <==> (v0.contains(x) || approver_before(vs, i + 1, x)) by {
                                    lemma_approver_step(vs, i as int, x);
                                    assert(v@.contains(x) <==> (vb.contains(x) || x == id));
                                    assert(vb.contains(x) <==> (v0.contains(x) || approver_before(vs, i as int, x)));
                                }
                            }
                        } else {
                            proof {
                                assert(vs[i as int].vote != Vote::Approve);
                                assert forall|x: u128| v@.contains(x) <==> (v0.contains(x) || approver_before(vs, i + 1, x)) by {
                                    lemma_approver_step(vs, i as int, x);
                                }
                            }
                        }
                        assert(v@.no_duplicates());
                        assert(forall|x: u128| #[trigger] v@.contains(x) <==> (v0.contains(x) || approver_before(vs, i + 1, x)));
                        i = i + 1;
                    }
                    proof {
                        assert forall|id: u128| v@.contains(id) <==> approved_any(self@.proposals, proposal_ids@.subrange(0, k + 1), id) by {
                            let ids1 = proposal_ids@.subrange(0, k + 1);
                            let ids0 = proposal_ids@.subrange(0, k as int);
                            assert(ids1[k as int] == pid);
                            assert(lookup(self@.proposals, pid) == Some(*entry));
                            if v@.contains(id) && !v0.contains(id) {
                                assert(approver_before(vs, vs.len() as int, id));
                                let j = choose|j: int| 0 <= j < vs.len() && #[trigger] vs[j].participant_id == id && vs[j].vote == Vote::Approve;
                                assert(approved_in(self@.proposals, ids1[k as int], id));
                            }
                            if v0.contains(id) {
                                let j = choose|j: int| 0 <= j < k && #[trigger] approved_in(self@.proposals, ids0[j], id);
                                assert(ids0[j] == ids1[j]);
                                assert(approved_in(self@.proposals, ids1[j], id));
                            }
                            if approved_any(self@.proposals, ids1, id) {
                                let j = choose|j: int| 0 <= j < k + 1 && #[trigger] approved_in(self@.proposals, ids1[j], id);
                                if j < k {
                                    assert(ids0[j] == ids1[j]);
                                    assert(approved_in(self@.proposals, ids0[j], id));
                                } else {
                                    let q = choose|q: int| 0 <= q < vs.len() && #[trigger] vs[q].participant_id == id && vs[q].vote == Vote::Approve;
                                    assert(vs[q].participant_id == id);
                                    assert(approver_before(vs, vs.len() as int, id));
                                }
                            }
                        }
                    }
                },
            }
            k = k + 1;
        }
        assert(proposal_ids@.subrange(0, proposal_ids@.len() as int) =~= proposal_ids@);
        v
    }
}

/// Joining never takes the table past its maximum: a member is seated only
/// while there is room, and seating one adds at most one member.
pub proof fn lemma_join_within_limit(participants: Seq<(u128, RoundTableParticipant)>, p: RoundTableParticipant, max: usize)
    requires
        participants.len() < max,
    ensures
        inserted(participants, p.id, p).len() <= max,
{
    if has_key(participants, p.id) {
        lemma_position_of(participants, p.id);
    }
}

/// The record of a vote cast at `now`.
pub open spec fn cast(participant_id: u128, vote: Vote, reason: Option<String>, now: i64) -> VoteRecord {
    VoteRecord { participant_id, vote, reason, timestamp: now }
}

/// Whether a proposal is still open at `now`.
pub open spec fn active_at(now: i64) -> spec_fn(Proposal) -> bool {
    |p: Proposal| match p.expires_at {
        Some(e) => now < e,
        None => true,
    }
}

/// Whether a conflict is unresolved.
pub open spec fn unresolved() -> spec_fn(Conflict) -> bool {
    |c: Conflict| c.resolved_at is None
}

/// Whether member `id` approved proposal `pid`.
pub open spec fn approved_in(proposals: Seq<(u128, (Proposal, Vec<VoteRecord>))>, pid: u128, id: u128) -> bool {
    lookup(proposals, pid) matches Some(entry) && exists|j: int|
        0 <= j < entry.1@.len() && #[trigger] entry.1@[j].participant_id == id && entry.1@[j].vote == Vote::Approve
}

/// Whether member `id` approved one of the proposals `pids`.
pub open spec fn approved_any(proposals: Seq<(u128, (Proposal, Vec<VoteRecord>))>, pids: Seq<u128>, id: u128) -> bool {
    exists|j: int| 0 <= j < pids.len() && #[trigger] approved_in(proposals, pids[j], id)
}

/// Whether one of the first `i` votes is an approval by `id`.
pub open spec fn approver_before(vs: Seq<VoteRecord>, i: int, id: u128) -> bool {
    exists|j: int| 0 <= j < i && #[trigger] vs[j].participant_id == id && vs[j].vote == Vote::Approve
}

proof fn lemma_approver_step(vs: Seq<VoteRecord>, i: int, id: u128)
    requires
        0 <= i < vs.len(),
    ensures
        approver_before(vs, i + 1, id) <==> (approver_before(vs, i, id) || (vs[i].participant_id == id
            && vs[i].vote == Vote::Approve)),
{
    if approver_before(vs, i + 1, id) {
        let j = choose|j: int| 0 <= j < i + 1 && #[trigger] vs[j].participant_id == id && vs[j].vote == Vote::Approve;
        if j < i {
            assert(approver_before(vs, i, id));
        }
    }
    if approver_before(vs, i, id) {
        let j = choose|j: int| 0 <= j < i && #[trigger] vs[j].participant_id == id && vs[j].vote == Vote::Approve;
        assert(approver_before(vs, i + 1, id));
    }
    if vs[i].participant_id == id && vs[i].vote == Vote::Approve {
        assert(vs[i].participant_id == id);
        assert(approver_before(vs, i + 1, id));
    }
}

/// A copy of a vote.
fn copy_vote(v: &VoteRecord) -> (c: VoteRecord)
    ensures
        c == *v,
{
    VoteRecord {
        participant_id: v.participant_id,
        vote: v.vote,
        reason: match &v.reason {
            Some(s) => Some(s.clone()),
            None => None,
        },
        timestamp: v.timestamp,
    }
}

} // verus!
