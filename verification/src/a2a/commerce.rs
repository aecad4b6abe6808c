//! Agent-to-agent commerce: deals between buyers and sellers.

use vstd::prelude::*;

use crate::clock::{new_uuid, uuid_text};
use crate::error::{message_with_id, AgentError};
use crate::text::to_owned_string;

verus! {

/// A deal for a service at a price, between agents with 128-bit IDs.
#[derive(Debug, Clone)]
pub struct Deal {
    pub id: u128,
    pub buyer: u128,
    pub seller: u128,
    pub service: String,
    pub price: u64,
    pub status: DealStatus,
}

/// The state of a deal.
#[derive(Debug, Clone, Copy, PartialEq, Eq, Structural)]
pub enum DealStatus {
    Proposed,
    Accepted,
    InProgress,
    Completed,
    Disputed,
    Cancelled,
}

/// The deals made, oldest first.
#[derive(Debug)]
pub struct CommerceManager {
    deals: Vec<Deal>,
}

/// Whether `i` is the position of the first deal with an ID.
pub open spec fn first_deal(deals: Seq<Deal>, id: u128, i: int) -> bool {
    0 <= i < deals.len() && deals[i].id == id && forall|j: int| 0 <= j < i ==> deals[j].id != id
}

impl View for CommerceManager {
    type V = Seq<Deal>;

    closed spec fn view(&self) -> Seq<Deal> {
        self.deals@
    }
}

impl CommerceManager {
    /// A manager with no deals.
    pub fn new() -> (m: Self)
        ensures
            m@.len() == 0,
    {
        CommerceManager { deals: Vec::new() }
    }

    /// Records a proposed deal with the given ID; returns the ID.
    pub fn create_deal_with_id(&mut self, id: u128, buyer: u128, seller: u128, service: &str, price: u64) -> (r: u128)
        ensures
            r == id,
            final(self)@.drop_last() == old(self)@,
            final(self)@.len() == old(self)@.len() + 1,
            final(self)@.last().id == id && final(self)@.last().buyer == buyer
                && final(self)@.last().seller == seller && final(self)@.last().service@ == service@
                && final(self)@.last().price == price && final(self)@.last().status == DealStatus::Proposed,
    {
        let deal = Deal { id, buyer, seller, service: to_owned_string(service), price, status: DealStatus::Proposed };
        self.deals.push(deal);
        assert(self@.drop_last() =~= old(self)@);
        id
    }

    /// Records a proposed deal with a fresh ID; returns the ID.
    pub fn create_deal(&mut self, buyer: u128, seller: u128, service: &str, price: u64) -> (r: u128)
        ensures
            final(self)@.drop_last() == old(self)@,
            final(self)@.len() == old(self)@.len() + 1,
            final(self)@.last().id == r && final(self)@.last().buyer == buyer
                && final(self)@.last().seller == seller && final(self)@.last().service@ == service@
                && final(self)@.last().price == price && final(self)@.last().status == DealStatus::Proposed,
    {
        self.create_deal_with_id(new_uuid(), buyer, seller, service, price)
    }

    fn find(&self, id: u128) -> (r: Option<usize>)
        ensures
            r matches Some(i) ==> first_deal(self@, id, i as int),
            r is None ==> forall|j: int| 0 <= j < self@.len() ==> self@[j].id != id,
    {
        let mut i: usize = 0;
        while i < self.deals.len()
            invariant
                i <= self.deals.len(),
                forall|j: int| 0 <= j < i ==> self@[j].id != id,
            decreases self.deals.len() - i,
        {
            if self.deals[i].id == id {
                return Some(i);
            }
            i = i + 1;
        }
        None
    }

    /// The first deal with an ID.
    pub fn get_deal(&self, id: u128) -> (r: Option<&Deal>)
        ensures
            r matches Some(d) ==> exists|i: int| first_deal(self@, id, i) && self@[i] == *d,
            r is None ==> forall|j: int| 0 <= j < self@.len() ==> self@[j].id != id,
    {
        match self.find(id) {
            Some(i) => Some(&self.deals[i]),
            None => None,
        }
    }

    fn set_status(&mut self, id: u128, status: DealStatus) -> (r: Result<(), AgentError>)
        ensures
            r is Ok ==> exists|i: int|
                first_deal(old(self)@, id, i) && final(self)@ == old(self)@.update(
                    i,
                    Deal { status, ..old(self)@[i] },
                ),
            r is Err ==> final(self)@ == old(self)@ && (forall|j: int| 0 <= j < old(self)@.len() ==> old(self)@[j].id
                != id),
            r matches Err(e) ==> e == AgentError::NotFound(e->NotFound_0) && e->NotFound_0@ == "Deal "@
                + uuid_text(id),
    {
        match self.find(id) {
            Some(i) => {
                let mut d = self.deals.remove(i);
                d.status = status;
                self.deals.insert(i, d);
                assert(self@ =~= old(self)@.update(i as int, Deal { status, ..old(self)@[i as int] }));
                Ok(())
            },
            None => Err(AgentError::NotFound(message_with_id("Deal ", id))),
        }
    }

    /// Marks the first deal with an ID as accepted; an unknown ID is an
    /// error.
    pub fn accept_deal(&mut self, id: u128) -> (r: Result<(), AgentError>)
        ensures
            r is Ok ==> exists|i: int|
                first_deal(old(self)@, id, i) && final(self)@ == old(self)@.update(
                    i,
                    Deal { status: DealStatus::Accepted, ..old(self)@[i] },
                ),
            r is Err ==> final(self)@ == old(self)@ && (forall|j: int| 0 <= j < old(self)@.len() ==> old(self)@[j].id
                != id),
            r matches Err(e) ==> e == AgentError::NotFound(e->NotFound_0) && e->NotFound_0@ == "Deal "@
                + uuid_text(id),
    {
        self.set_status(id, DealStatus::Accepted)
    }

    /// Marks the first deal with an ID as completed; an unknown ID is an
    /// error.
    pub fn complete_deal(&mut self, id: u128) -> (r: Result<(), AgentError>)
        ensures
            r is Ok ==> exists|i: int|
                first_deal(old(self)@, id, i) && final(self)@ == old(self)@.update(
                    i,
                    Deal { status: DealStatus::Completed, ..old(self)@[i] },
                ),
            r is Err ==> final(self)@ == old(self)@ && (forall|j: int| 0 <= j < old(self)@.len() ==> old(self)@[j].id
                != id),
            r matches Err(e) ==> e == AgentError::NotFound(e->NotFound_0) && e->NotFound_0@ == "Deal "@
                + uuid_text(id),
    {
        self.set_status(id, DealStatus::Completed)
    }
}

impl Default for CommerceManager {
    fn default() -> (m: Self)
        ensures
            m@.len() == 0,
    {
        CommerceManager::new()
    }
}

} // verus!
