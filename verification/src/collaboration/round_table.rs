//! The round table: roles, proposals, votes and conflicts among agents
//! with equal voting rights.

use vstd::prelude::*;

use crate::text::to_owned_string;

verus! {

/// Default voting timeout in seconds.
pub const DEFAULT_VOTING_TIMEOUT_SECS: u64 = 60;

/// Default limit on the number of participants.
pub const DEFAULT_MAX_PARTICIPANTS: usize = 10;

/// An agent's role at the round table.
#[derive(Debug, Clone, PartialEq, Eq)]
pub enum RoundTableRole {
    /// Research and information gathering.
    Scout,
    /// Content creation and writing.
    Quill,
    /// Review and verification.
    Observer,
    /// Data analysis.
    Analyst,
    /// Creative ideation.
    Muse,
    /// Strategic planning.
    Strategist,
    /// Facilitates, with an equal vote.
    Coordinator,
    /// A custom role.
    Custom(String),
}

/// The description of a role.
pub open spec fn role_description(r: RoundTableRole) -> Seq<char> {
    match r {
        RoundTableRole::Scout => "Researches and gathers information"@,
        RoundTableRole::Quill => "Creates and refines content"@,
        RoundTableRole::Observer => "Reviews and verifies accuracy"@,
        RoundTableRole::Analyst => "Analyzes data and patterns"@,
        RoundTableRole::Muse => "Generates creative ideas"@,
        RoundTableRole::Strategist => "Plans and coordinates strategy"@,
        RoundTableRole::Coordinator => "Facilitates discussion without bias"@,
        RoundTableRole::Custom(_) => "Specialized custom role"@,
    }
}

/// The capabilities a role starts with.
pub open spec fn role_capabilities(r: RoundTableRole) -> Seq<Seq<char>> {
    match r {
        RoundTableRole::Scout => seq!["research"@, "search"@],
        RoundTableRole::Quill => seq!["write"@, "edit"@],
        RoundTableRole::Observer => seq!["review"@, "verify"@],
        RoundTableRole::Analyst => seq!["analyze"@, "calculate"@],
        RoundTableRole::Muse => seq!["create"@, "brainstorm"@],
        RoundTableRole::Strategist => seq!["plan"@, "coordinate"@],
        RoundTableRole::Coordinator => seq!["facilitate"@, "mediate"@],
        RoundTableRole::Custom(_) => seq!["specialize"@],
    }
}

fn pair(a: &str, b: &str) -> (v: Vec<String>)
    ensures
        v@.len() == 2,
        v@[0]@ == a@,
        v@[1]@ == b@,
{
    let mut v: Vec<String> = Vec::new();
    v.push(to_owned_string(a));
    v.push(to_owned_string(b));
    v
}

impl RoundTableRole {
    /// What the role does.
    pub fn description(&self) -> (s: &'static str)
        ensures
            s@ == role_description(*self),
    {
        match self {
            RoundTableRole::Scout => "Researches and gathers information",
            RoundTableRole::Quill => "Creates and refines content",
            RoundTableRole::Observer => "Reviews and verifies accuracy",
            RoundTableRole::Analyst => "Analyzes data and patterns",
            RoundTableRole::Muse => "Generates creative ideas",
            RoundTableRole::Strategist => "Plans and coordinates strategy",
            RoundTableRole::Coordinator => "Facilitates discussion without bias",
            RoundTableRole::Custom(_) => "Specialized custom role",
        }
    }

    /// The capabilities the role starts with.
    pub fn default_capabilities(&self) -> (v: Vec<String>)
        ensures
            v@.map_values(|s: String| s@) == role_capabilities(*self),
    {
        let v = match self {
            RoundTableRole::Scout => pair("research", "search"),
            RoundTableRole::Quill => pair("write", "edit"),
            RoundTableRole::Observer => pair("review", "verify"),
            RoundTableRole::Analyst => pair("analyze", "calculate"),
            RoundTableRole::Muse => pair("create", "brainstorm"),
            RoundTableRole::Strategist => pair("plan", "coordinate"),
            RoundTableRole::Coordinator => pair("facilitate", "mediate"),
            RoundTableRole::Custom(_) => {
                let mut v: Vec<String> = Vec::new();
                v.push(to_owned_string("specialize"));
                v
            },
        };
        assert(v@.map_values(|s: String| s@) =~= role_capabilities(*self));
        v
    }
}

/// A participant's availability.
#[derive(Debug, Clone, Copy, PartialEq, Eq, Structural)]
pub enum ParticipantStatus {
    Active,
    Away,
    Busy,
    Offline,
}

/// What a proposal is about.
#[derive(Debug, Clone, Copy, PartialEq, Eq, Structural)]
pub enum ProposalType {
    Content,
    Strategy,
    Resource,
    Process,
    ConflictResolution,
}

/// A vote on a proposal.
#[derive(Debug, Clone, Copy, PartialEq, Eq, Structural)]
pub enum Vote {
    Approve,
    Reject,
    Abstain,
}

/// The outcome of a vote.
#[derive(Debug, Clone, Copy, PartialEq, Eq, Structural)]
pub enum VotingStatus {
    Pending,
    Approved,
    Rejected,
    Tied,
    Expired,
    Cancelled,
}

/// What a conflict is about.
#[derive(Debug, Clone, Copy, PartialEq, Eq, Structural)]
pub enum ConflictType {
    Approach,
    Resource,
    Priority,
    Interpretation,
    Goal,
}

/// How a conflict was resolved.
#[derive(Debug, Clone, Copy, PartialEq, Eq, Structural)]
pub enum ResolutionMethod {
    MajorityVote,
    WeightedVote,
    Consensus,
    Compromise,
    RotatingPriority,
    HumanArbitration,
    ExpertDelegation,
}

/// A vote cast by a participant, identified by its 128-bit ID, at a time
/// in milliseconds since the epoch.
#[derive(Debug, Clone)]
pub struct VoteRecord {
    pub participant_id: u128,
    pub vote: Vote,
    pub reason: Option<String>,
    pub timestamp: i64,
}

/// Whether a vote was cast by someone other than `id`.
pub open spec fn not_by(id: u128) -> spec_fn(VoteRecord) -> bool {
    |r: VoteRecord| r.participant_id != id
}

/// Whether a vote is of the given kind.
pub open spec fn is_vote(v: Vote) -> spec_fn(VoteRecord) -> bool {
    |r: VoteRecord| r.vote == v
}

/// Whether some vote in `s` was cast by `id`.
pub open spec fn has_voter(s: Seq<VoteRecord>, id: u128) -> bool {
    exists|i: int| 0 <= i < s.len() && s[i].participant_id == id
}

/// Whether no participant has cast two of the votes in `s`.
pub open spec fn one_vote_each(s: Seq<VoteRecord>) -> bool {
    forall|i: int, j: int| 0 <= i < j < s.len() ==> s[i].participant_id != s[j].participant_id
}

/// The votes after `record` is cast: any earlier vote by the same
/// participant is withdrawn and the new vote goes last.
pub open spec fn after_vote(s: Seq<VoteRecord>, record: VoteRecord) -> Seq<VoteRecord> {
    s.filter(not_by(record.participant_id)).push(record)
}

/// Records a vote, replacing the participant's earlier vote if there is
/// one.
pub fn record_vote(votes: &mut Vec<VoteRecord>, record: VoteRecord)
    ensures
        final(votes)@ == after_vote(old(votes)@, record),
{
    let id = record.participant_id;
    let ghost orig = old(votes)@;
    let ghost p = not_by(id);
    let ghost mut j: int = 0;
    let mut i: usize = 0;
    while i < votes.len()
        invariant
            0 <= j <= orig.len(),
            p == not_by(id),
            i == orig.subrange(0, j).filter(p).len(),
            votes@ =~= orig.subrange(0, j).filter(p) + orig.subrange(j, orig.len() as int),
        decreases votes.len() - i,
    {
        proof {
            reveal(Seq::filter);
            assert(orig.subrange(0, j + 1).drop_last() =~= orig.subrange(0, j));
            assert(votes@[i as int] == orig[j]);
        }
        if votes[i].participant_id == id {
            let ghost before = votes@;
            votes.remove(i);
            proof {
                assert(orig.subrange(0, j + 1).filter(p) == orig.subrange(0, j).filter(p));
                assert(votes@ =~= orig.subrange(0, j + 1).filter(p) + orig.subrange(j + 1, orig.len() as int));
                j = j + 1;
            }
        } else {
            proof {
                assert(orig.subrange(0, j + 1).filter(p) == orig.subrange(0, j).filter(p).push(orig[j]));
                assert(votes@ =~= orig.subrange(0, j + 1).filter(p) + orig.subrange(j + 1, orig.len() as int));
                j = j + 1;
            }
            i = i + 1;
        }
    }
    assert(orig.subrange(0, orig.len() as int) =~= orig);
    votes.push(record);
}

/// The number of votes of a kind.
pub fn count_votes(votes: &Vec<VoteRecord>, kind: Vote) -> (n: usize)
    ensures
        n == votes@.filter(is_vote(kind)).len(),
{
    let ghost p = is_vote(kind);
    let mut n: usize = 0;
    let mut i: usize = 0;
    while i < votes.len()
        invariant
            i <= votes.len(),
            p == is_vote(kind),
            n == votes@.subrange(0, i as int).filter(p).len(),
        decreases votes.len() - i,
    {
        proof {
            reveal(Seq::filter);
            assert(votes@.subrange(0, i + 1).drop_last() =~= votes@.subrange(0, i as int));
            votes@.subrange(0, i as int).lemma_filter_len(p);
        }
        if votes[i].vote == kind {
            n = n + 1;
        }
        i = i + 1;
    }
    assert(votes@.subrange(0, votes.len() as int) =~= votes@);
    n
}

proof fn lemma_filter_voters(s: Seq<VoteRecord>, p: spec_fn(VoteRecord) -> bool)
    requires
        one_vote_each(s),
    ensures
        one_vote_each(s.filter(p)),
        forall|id: u128| has_voter(s.filter(p), id) ==> has_voter(s, id),
    decreases s.len(),
{
    reveal(Seq::filter);
    if s.len() > 0 {
        let d = s.drop_last();
        assert(one_vote_each(d));
        lemma_filter_voters(d, p);
        let f = d.filter(p);
        if p(s.last()) {
            let g = f.push(s.last());
            assert forall|i: int, j: int| 0 <= i < j < g.len() implies g[i].participant_id
                != g[j].participant_id by {
                if j == g.len() - 1 {
                    if g[i].participant_id == s.last().participant_id {
                        assert(f[i] == g[i]);
                        assert(has_voter(f, g[i].participant_id));
                        assert(has_voter(d, g[i].participant_id));
                        let k = choose|k: int| 0 <= k < d.len() && d[k].participant_id == g[i].participant_id;
                        assert(s[k] == d[k]);
                    }
                }
            }
            assert forall|id: u128| has_voter(g, id) implies has_voter(s, id) by {
                let k = choose|k: int| 0 <= k < g.len() && g[k].participant_id == id;
                if k == g.len() - 1 {
                    assert(s[s.len() - 1].participant_id == id);
                } else {
                    assert(f[k] == g[k]);
                    assert(has_voter(f, id));
                    assert(has_voter(d, id));
                    let m = choose|m: int| 0 <= m < d.len() && d[m].participant_id == id;
                    assert(s[m] == d[m]);
                }
            }
        } else {
            assert forall|id: u128| has_voter(f, id) implies has_voter(s, id) by {
                assert(has_voter(d, id));
                let m = choose|m: int| 0 <= m < d.len() && d[m].participant_id == id;
                assert(s[m] == d[m]);
            }
        }
    }
}

/// Each participant has at most one vote on a proposal: casting a vote
/// keeps that so, and the participant's vote is then the one just cast.
pub proof fn lemma_one_vote_per_participant(votes: Seq<VoteRecord>, record: VoteRecord)
    requires
        one_vote_each(votes),
    ensures
        one_vote_each(after_vote(votes, record)),
        after_vote(votes, record).last() == record,
        forall|i: int|
            0 <= i < after_vote(votes, record).len() - 1 ==> after_vote(votes, record)[i].participant_id
                != record.participant_id,
{
    let p = not_by(record.participant_id);
    lemma_filter_voters(votes, p);
    let f = votes.filter(p);
    broadcast use Seq::lemma_filter_pred;

    assert forall|i: int| 0 <= i < f.len() implies f[i].participant_id != record.participant_id by {
        assert(p(f[i]));
    }
}

/// Adds a participant to a list of participant IDs unless already there.
pub fn add_participant(ids: &mut Vec<u128>, id: u128)
    ensures
        old(ids)@.contains(id) ==> final(ids)@ == old(ids)@,
        !old(ids)@.contains(id) ==> final(ids)@ == old(ids)@.push(id),
{
    let mut i: usize = 0;
    while i < ids.len()
        invariant
            i <= ids.len(),
            ids@ == old(ids)@,
            forall|k: int| 0 <= k < i ==> ids@[k] != id,
        decreases ids.len() - i,
    {
        if ids[i] == id {
            return;
        }
        i = i + 1;
    }
    ids.push(id);
}

} // verus!
