//! Capabilities that agents advertise, and a registry of them keyed by ID.

use vstd::prelude::*;

use crate::strmap::{inserted, lookup, StrMap};
use crate::text::{contains_seq, str_contains};

verus! {

/// A capability an agent offers.
#[derive(Debug)]
pub struct AgentCapability {
    pub id: String,
    pub name: String,
    pub description: String,
    pub parameters: Vec<CapabilityParameter>,
    pub returns: CapabilityReturn,
    pub examples: Vec<String>,
}

impl View for AgentCapability {
    type V = AgentCapability;

    open spec fn view(&self) -> AgentCapability {
        *self
    }
}

/// A parameter of a capability.
#[derive(Debug)]
pub struct CapabilityParameter {
    pub name: String,
    pub param_type: ParameterType,
    pub required: bool,
    pub description: String,
    pub default_value: Option<String>,
}

/// The type of a parameter or result.
#[derive(Debug)]
pub enum ParameterType {
    String,
    Integer,
    Float,
    Boolean,
    Array(Box<ParameterType>),
    /// An object, with the type of each named field.
    Object(Vec<ObjectField>),
}

/// A named field of an object type.
#[derive(Debug)]
pub struct ObjectField {
    pub name: String,
    pub field_type: ParameterType,
}

/// What a capability returns.
#[derive(Debug)]
pub struct CapabilityReturn {
    pub return_type: ParameterType,
    pub description: String,
}

/// Capabilities by ID, in registration order.
#[derive(Debug)]
pub struct CapabilityRegistry {
    capabilities: StrMap<AgentCapability>,
}

/// Whether a capability's name or description contains `tag`.
pub open spec fn matches_tag(c: AgentCapability, tag: Seq<char>) -> bool {
    contains_seq(c.name@, tag) || contains_seq(c.description@, tag)
}

/// The capabilities of a registry's entries, in order.
pub open spec fn capability_values(es: Seq<(Seq<char>, AgentCapability)>) -> Seq<AgentCapability> {
    es.map_values(|e: (Seq<char>, AgentCapability)| e.1)
}

impl View for CapabilityRegistry {
    type V = Seq<(Seq<char>, AgentCapability)>;

    closed spec fn view(&self) -> Seq<(Seq<char>, AgentCapability)> {
        self.capabilities@
    }
}

impl CapabilityRegistry {
    /// An empty registry.
    pub fn new() -> (r: Self)
        ensures
            r@ == Seq::<(Seq<char>, AgentCapability)>::empty(),
    {
        CapabilityRegistry { capabilities: StrMap::new() }
    }

    /// Registers a capability under its ID, replacing one registered under
    /// the same ID.
    pub fn register(&mut self, capability: AgentCapability)
        ensures
            final(self)@ == inserted(old(self)@, capability.id@, capability),
    {
        let id = capability.id.clone();
        self.capabilities.insert(id, capability);
    }

    /// The capability registered under an ID.
    pub fn get(&self, id: &str) -> (r: Option<&AgentCapability>)
        ensures
            r matches Some(c) ==> lookup(self@, id@) == Some(*c),
            r is None ==> lookup(self@, id@) is None,
    {
        self.capabilities.get(id)
    }

    /// All registered capabilities.
    pub fn list_all(&self) -> (v: Vec<&AgentCapability>)
        ensures
            v@.map_values(|c: &AgentCapability| *c) == capability_values(self@),
    {
        let mut v: Vec<&AgentCapability> = Vec::new();
        let mut i: usize = 0;
        while i < self.capabilities.len()
            invariant
                i <= self@.len(),
                self@ == self.capabilities@,
                v@.map_values(|c: &AgentCapability| *c) =~= capability_values(self@).subrange(0, i as int),
            decreases self@.len() - i,
        {
            let c = self.capabilities.value_at(i);
            let ghost before = v@;
            v.push(c);
            assert(v@.map_values(|c: &AgentCapability| *c) =~= before.map_values(|c: &AgentCapability| *c).push(*c));
            i = i + 1;
        }
        v
    }

    /// The capabilities whose name or description contains `tag`, in
    /// registration order.
    pub fn find_by_tag(&self, tag: &str) -> (v: Vec<&AgentCapability>)
        ensures
            v@.map_values(|c: &AgentCapability| *c) == capability_values(self@).filter(
                |c: AgentCapability| matches_tag(c, tag@),
            ),
    {
        let ghost pred = |c: AgentCapability| matches_tag(c, tag@);
        let ghost all = capability_values(self@);
        let mut v: Vec<&AgentCapability> = Vec::new();
        let mut i: usize = 0;
        while i < self.capabilities.len()
            invariant
                i <= self@.len(),
                self@ == self.capabilities@,
                all == capability_values(self@),
                pred == (|c: AgentCapability| matches_tag(c, tag@)),
                v@.map_values(|c: &AgentCapability| *c) =~= all.subrange(0, i as int).filter(pred),
            decreases self@.len() - i,
        {
            let c = self.capabilities.value_at(i);
            let ghost before = v@;
            proof {
                reveal(Seq::filter);
                assert(all.subrange(0, i + 1).drop_last() =~= all.subrange(0, i as int));
                assert(all.subrange(0, i + 1).last() == *c);
            }
            if str_contains(c.name.as_str(), tag) || str_contains(c.description.as_str(), tag) {
                v.push(c);
                assert(v@.map_values(|c: &AgentCapability| *c) =~= before.map_values(|c: &AgentCapability| *c).push(*c));
            }
            i = i + 1;
        }
        assert(all.subrange(0, all.len() as int) =~= all);
        v
    }
}

} // verus!
