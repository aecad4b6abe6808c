//! Negotiations between agents: rounds of proposals until one side
//! accepts. The terms proposed are kept as they are given.

use vstd::prelude::*;

use crate::clock::{new_uuid, now_seconds, uuid_string};
use crate::strmap::{has_key, inserted, lookup, position_of, StrMap};
use crate::text::to_owned_string;

verus! {

/// A negotiation between an initiator and a responder. Times are seconds
/// since the epoch.
#[derive(Debug)]
pub struct Negotiation<T> {
    pub id: String,
    pub initiator: String,
    pub responder: String,
    pub status: NegotiationStatus,
    pub proposals: Vec<Proposal<T>>,
    pub created_at: u64,
    pub expires_at: u64,
}

impl<T> View for Negotiation<T> {
    type V = Negotiation<T>;

    open spec fn view(&self) -> Negotiation<T> {
        *self
    }
}

/// The stages of a negotiation.
#[derive(Debug, Clone, Copy, PartialEq, Eq, Structural)]
pub enum NegotiationStatus {
    Pending,
    InProgress,
    Accepted,
    Rejected,
    Expired,
}

/// A proposal of terms.
#[derive(Debug, Clone)]
pub struct Proposal<T> {
    pub id: String,
    pub proposer: String,
    pub terms: T,
    pub timestamp: u64,
}

/// A duration in some unit.
#[derive(Debug, Clone, Copy, PartialEq, Eq, Structural)]
pub struct Duration {
    pub value: u32,
    pub unit: TimeUnit,
}

/// Units of time.
#[derive(Debug, Clone, Copy, PartialEq, Eq, Structural)]
pub enum TimeUnit {
    Minutes,
    Hours,
    Days,
    Weeks,
    Months,
}

/// Levels of quality of service.
#[derive(Debug, Clone, Copy, PartialEq, Eq, Structural)]
pub enum QoSLevel {
    Basic,
    Standard,
    Premium,
    Enterprise,
}

/// A condition of an agreement.
#[derive(Debug, Clone)]
pub struct Condition {
    pub condition_type: ConditionType,
    pub description: String,
    pub required: bool,
}

/// The kinds of condition.
#[derive(Debug, Clone, PartialEq, Eq)]
pub enum ConditionType {
    NonDisclosure,
    Exclusivity,
    MinimumCommitment,
    PerformanceGuarantee,
    Custom(String),
}

/// Negotiations by ID.
#[derive(Debug)]
pub struct NegotiationEngine<T> {
    negotiations: StrMap<Negotiation<T>>,
}

/// How long a negotiation stays open, in seconds.
pub const NEGOTIATION_WINDOW_SECS: u64 = 86400;

impl<T> View for NegotiationEngine<T> {
    type V = Seq<(Seq<char>, Negotiation<T>)>;

    closed spec fn view(&self) -> Seq<(Seq<char>, Negotiation<T>)> {
        self.negotiations@
    }
}

/// Whether the negotiations differ only in the one at position `i`.
pub open spec fn others_same<T>(a: Seq<(Seq<char>, Negotiation<T>)>, b: Seq<(Seq<char>, Negotiation<T>)>, i: int) -> bool {
    &&& a.len() == b.len()
    &&& b[i].0 == a[i].0
    &&& forall|j: int| 0 <= j < a.len() && j != i ==> b[j] == a[j]
}

/// What opening a negotiation with ID `id` at `now` does to the engine
/// (`before`, `after`) and returns: `None`, changing nothing, exactly when
/// the day-long window would pass the largest time; otherwise the ID, with a
/// pending negotiation between the two parties holding the one proposal,
/// created at `now`, stored under it.
pub open spec fn opened<T>(
    before: Seq<(Seq<char>, Negotiation<T>)>,
    after: Seq<(Seq<char>, Negotiation<T>)>,
    initiator: String,
    responder: String,
    initial_proposal: Proposal<T>,
    id: Seq<char>,
    now: u64,
    r: Option<String>,
) -> bool {
    &&& r is None <==> now + NEGOTIATION_WINDOW_SECS > u64::MAX
    &&& r is None ==> after == before
    &&& r matches Some(rid) ==> rid@ == id && (lookup(after, id) matches Some(n) && n.id@ == id
        && n.initiator == initiator && n.responder == responder && n.status == NegotiationStatus::Pending
        && n.proposals@ == seq![initial_proposal] && n.created_at == now
        && n.expires_at == now + NEGOTIATION_WINDOW_SECS && after == inserted(before, id, n))
}

impl<T> NegotiationEngine<T> {
    /// An engine with no negotiations.
    pub fn new() -> (e: Self)
        ensures
            e@.len() == 0,
    {
        NegotiationEngine { negotiations: StrMap::new() }
    }

    /// Opens a negotiation with ID `id` at time `now`, pending, with the
    /// initial proposal and a window of a day; returns the ID.
    pub fn create_negotiation_at(
        &mut self,
        initiator: String,
        responder: String,
        initial_proposal: Proposal<T>,
        id: String,
        now: u64,
    ) -> (r: String)
        requires
            now + NEGOTIATION_WINDOW_SECS <= u64::MAX,
        ensures
            r@ == id@,
            lookup(final(self)@, id@) matches Some(n) && n.id@ == id@ && n.initiator == initiator
                && n.responder == responder && n.status == NegotiationStatus::Pending
                && n.proposals@ == seq![initial_proposal] && n.created_at == now
                && n.expires_at == now + NEGOTIATION_WINDOW_SECS && final(self)@ == inserted(
                old(self)@,
                id@,
                n,
            ),
    {
        let mut proposals: Vec<Proposal<T>> = Vec::new();
        proposals.push(initial_proposal);
        let negotiation = Negotiation {
            id: id.clone(),
            initiator,
            responder,
            status: NegotiationStatus::Pending,
            proposals,
            created_at: now,
            expires_at: now + NEGOTIATION_WINDOW_SECS,
        };
        let ghost n = negotiation;
        let key = id.clone();
        self.negotiations.insert(key, negotiation);
        proof {
            crate::strmap::lemma_lookup_inserted(old(self)@, id@, n, id@);
        }
        id
    }

    /// Opens a negotiation with ID `id` at `now`, as `create_negotiation_at`
    /// does, where the window fits in a time stamp; otherwise `None`, and
    /// nothing changes.
    pub fn create_negotiation_checked_at(
        &mut self,
        initiator: String,
        responder: String,
        initial_proposal: Proposal<T>,
        id: String,
        now: u64,
    ) -> (r: Option<String>)
        ensures
            opened(old(self)@, final(self)@, initiator, responder, initial_proposal, id@, now, r),
    {
        if now > u64::MAX - NEGOTIATION_WINDOW_SECS {
            return None;
        }
        Some(self.create_negotiation_at(initiator, responder, initial_proposal, id, now))
    }

    /// Opens a negotiation with a fresh ID at the current time (seconds
    /// since the epoch), as `create_negotiation_checked_at` does.
    pub fn create_negotiation(&mut self, initiator: String, responder: String, initial_proposal: Proposal<T>) -> (r:
        Option<String>)
        ensures
            exists|now: u64, id: Seq<char>|
                #[trigger] opened(old(self)@, final(self)@, initiator, responder, initial_proposal, id, now, r),
    {
        let now = now_seconds() as u64;
        let id = uuid_string(new_uuid());
        let ghost idv = id@;
        let r = self.create_negotiation_checked_at(initiator, responder, initial_proposal, id, now);
        proof {
            assert(opened(old(self)@, final(self)@, initiator, responder, initial_proposal, idv, now, r));
        }
        r
    }

    /// Adds a counter-proposal; the negotiation is then in progress. An
    /// unknown negotiation is an error.
    pub fn counter_proposal(&mut self, negotiation_id: &str, proposal: Proposal<T>) -> (r: Result<(), String>)
        ensures
            r is Ok <==> has_key(old(self)@, negotiation_id@),
            r matches Err(m) ==> final(self)@ == old(self)@ && m@ == "Negotiation not found"@,
            r is Ok ==> ({
                let i = position_of(old(self)@, negotiation_id@);
                let a = old(self)@[i].1;
                let b = final(self)@[i].1;
                &&& others_same(old(self)@, final(self)@, i)
                &&& b.id == a.id && b.initiator == a.initiator && b.responder == a.responder
                &&& b.created_at == a.created_at && b.expires_at == a.expires_at
                &&& b.status == NegotiationStatus::InProgress
                &&& b.proposals@ == a.proposals@.push(proposal)
            }),
    {
        match self.negotiations.index_of(negotiation_id) {
            Some(i) => {
                proof {
                    crate::strmap::lemma_position_of(self@, negotiation_id@);
                }
                let (k, mut n) = self.negotiations.take_at(i);
                n.proposals.push(proposal);
                n.status = NegotiationStatus::InProgress;
                self.negotiations.put_at(i, k, n);
                proof {
                    assert(self@ =~= old(self)@.remove(i as int).insert(i as int, (negotiation_id@, n)));
                }
                Ok(())
            },
            None => Err(to_owned_string("Negotiation not found")),
        }
    }

    /// Accepts a negotiation and returns the terms of its latest proposal.
    /// An unknown negotiation is an error; one without proposals is marked
    /// accepted and reported as having none.
    pub fn accept(&mut self, negotiation_id: &str) -> (r: Result<T, String>)
        where
            T: Clone,
        ensures
            !has_key(old(self)@, negotiation_id@) ==> final(self)@ == old(self)@ && (r matches Err(m)
                && m@ == "Negotiation not found"@),
            has_key(old(self)@, negotiation_id@) ==> ({
                let i = position_of(old(self)@, negotiation_id@);
                let a = old(self)@[i].1;
                let b = final(self)@[i].1;
                &&& others_same(old(self)@, final(self)@, i)
                &&& b == Negotiation { status: NegotiationStatus::Accepted, ..a }
                &&& a.proposals@.len() == 0 ==> (r matches Err(m) && m@ == "No proposals"@)
                &&& a.proposals@.len() > 0 ==> (r matches Ok(t) && cloned(a.proposals@.last().terms, t))
            }),
    {
        match self.negotiations.index_of(negotiation_id) {
            Some(i) => {
                proof {
                    crate::strmap::lemma_position_of(self@, negotiation_id@);
                }
                let (k, mut n) = self.negotiations.take_at(i);
                n.status = NegotiationStatus::Accepted;
                let r = if n.proposals.len() > 0 {
                    let last = n.proposals.len() - 1;
                    Ok(n.proposals[last].terms.clone())
                } else {
                    Err(to_owned_string("No proposals"))
                };
                self.negotiations.put_at(i, k, n);
                proof {
                    assert(self@ =~= old(self)@.remove(i as int).insert(i as int, (negotiation_id@, n)));
                }
                r
            },
            None => Err(to_owned_string("Negotiation not found")),
        }
    }
}

} // verus!
