//! The collaboration hub: the agents taking part, by ID.

use vstd::prelude::*;

use crate::collaboration::CollabMessage;
use crate::text::str_eq;

verus! {

/// An agent known to the hub.
#[derive(Debug, Clone)]
pub struct AgentInfo {
    pub id: u128,
    pub name: String,
    pub capabilities: Vec<String>,
}

/// Central hub for agent collaboration; at most one agent per ID, in
/// registration order.
#[derive(Debug)]
pub struct CollaborationHub {
    agents: Vec<AgentInfo>,
}

/// The agents after registering `a`: an agent with the same ID is
/// replaced in place, otherwise `a` goes last.
pub open spec fn registered(agents: Seq<AgentInfo>, a: AgentInfo) -> Seq<AgentInfo>
    decreases agents.len(),
{
    if agents.len() == 0 {
        seq![a]
    } else if agents[0].id == a.id {
        seq![a] + agents.subrange(1, agents.len() as int)
    } else {
        seq![agents[0]] + registered(agents.subrange(1, agents.len() as int), a)
    }
}

/// Whether no two agents share an ID.
pub open spec fn distinct_ids(agents: Seq<AgentInfo>) -> bool {
    forall|i: int, j: int| 0 <= i < j < agents.len() ==> agents[i].id != agents[j].id
}

/// Every agent after registering `a` is `a` or was there before, and
/// registering keeps the IDs distinct.
pub proof fn lemma_registered_distinct(agents: Seq<AgentInfo>, a: AgentInfo)
    ensures
        forall|k: int| 0 <= k < registered(agents, a).len() ==> (#[trigger] registered(agents, a)[k]).id == a.id
            || exists|j: int| 0 <= j < agents.len() && agents[j].id == registered(agents, a)[k].id,
        distinct_ids(agents) ==> distinct_ids(registered(agents, a)),
    decreases agents.len(),
{
    let r = registered(agents, a);
    if agents.len() > 0 {
        let rest = agents.subrange(1, agents.len() as int);
        lemma_registered_distinct(rest, a);
        if agents[0].id == a.id {
            assert forall|k: int| 0 <= k < r.len() implies (#[trigger] r[k]).id == a.id
                || exists|j: int| 0 <= j < agents.len() && agents[j].id == r[k].id by {
                if k > 0 {
                    assert(r[k] == agents[k]);
                }
            }
            if distinct_ids(agents) {
                assert forall|i: int, j: int| 0 <= i < j < r.len() implies r[i].id != r[j].id by {
                    assert(r[j] == agents[j]);
                    if i > 0 {
                        assert(r[i] == agents[i]);
                    }
                }
            }
        } else {
            let t = registered(rest, a);
            assert(r =~= seq![agents[0]] + t);
            assert forall|k: int| 0 <= k < r.len() implies (#[trigger] r[k]).id == a.id
                || exists|j: int| 0 <= j < agents.len() && agents[j].id == r[k].id by {
                if k == 0 {
                    assert(agents[0].id == r[0].id);
                } else {
                    assert(r[k] == t[k - 1]);
                    if t[k - 1].id != a.id {
                        let j = choose|j: int| 0 <= j < rest.len() && rest[j].id == t[k - 1].id;
                        assert(agents[j + 1] == rest[j]);
                    }
                }
            }
            if distinct_ids(agents) {
                assert forall|i: int, j: int| 0 <= i < j < rest.len() implies rest[i].id != rest[j].id by {
                    assert(rest[i] == agents[i + 1] && rest[j] == agents[j + 1]);
                }
                assert forall|i: int, j: int| 0 <= i < j < r.len() implies r[i].id != r[j].id by {
                    assert(r[j] == t[j - 1]);
                    if i > 0 {
                        assert(r[i] == t[i - 1]);
                    } else {
                        if t[j - 1].id != a.id {
                            let m = choose|m: int| 0 <= m < rest.len() && rest[m].id == t[j - 1].id;
                            assert(agents[m + 1] == rest[m]);
                        }
                    }
                }
            }
        }
    }
}

/// Whether an agent lists a capability.
pub open spec fn has_capability(a: AgentInfo, capability: Seq<char>) -> bool {
    exists|i: int| 0 <= i < a.capabilities@.len() && #[trigger] a.capabilities@[i]@ == capability
}

/// The IDs of the agents other than `to`.
pub open spec fn targets(agents: Seq<AgentInfo>, to: Option<u128>) -> Seq<u128>
    decreases agents.len(),
{
    if agents.len() == 0 {
        Seq::empty()
    } else if Some(agents.last().id) == to {
        targets(agents.drop_last(), to)
    } else {
        targets(agents.drop_last(), to).push(agents.last().id)
    }
}

impl View for CollaborationHub {
    type V = Seq<AgentInfo>;

    closed spec fn view(&self) -> Seq<AgentInfo> {
        self.agents@
    }
}

fn lists(a: &AgentInfo, capability: &str) -> (b: bool)
    ensures
        b == has_capability(*a, capability@),
{
    let mut i: usize = 0;
    while i < a.capabilities.len()
        invariant
            i <= a.capabilities.len(),
            forall|j: int| 0 <= j < i ==> a.capabilities@[j]@ != capability@,
        decreases a.capabilities.len() - i,
    {
        if str_eq(a.capabilities[i].as_str(), capability) {
            return true;
        }
        i = i + 1;
    }
    false
}

impl CollaborationHub {
    /// No two agents share an ID.
    #[verifier::type_invariant]
    spec fn ids_distinct(self) -> bool {
        distinct_ids(self.agents@)
    }

    /// A hub with no agents.
    pub fn new() -> (h: Self)
        ensures
            h@.len() == 0,
    {
        CollaborationHub { agents: Vec::new() }
    }

    /// Registers an agent, replacing the one with the same ID.
    pub fn register(&mut self, info: AgentInfo)
        ensures
            final(self)@ == registered(old(self)@, info),
    {
        proof {
            use_type_invariant(&*self);
            lemma_registered_distinct(self.agents@, info);
        }
        let mut agents: Vec<AgentInfo> = Vec::new();
        std::mem::swap(&mut agents, &mut self.agents);
        let ghost vs = agents@;
        let mut i: usize = 0;
        assert(vs.subrange(0, vs.len() as int) =~= vs);
        assert(vs.subrange(0, 0) + registered(vs, info) =~= registered(vs, info));
        while i < agents.len()
            invariant
                agents@ == vs,
                distinct_ids(registered(vs, info)),
                vs == old(self)@,
                i <= vs.len(),
                registered(vs, info) == vs.subrange(0, i as int) + registered(
                    vs.subrange(i as int, vs.len() as int),
                    info,
                ),
            decreases vs.len() - i,
        {
            let ghost rest = vs.subrange(i as int, vs.len() as int);
            assert(rest.subrange(1, rest.len() as int) =~= vs.subrange(i + 1, vs.len() as int));
            if agents[i].id == info.id {
                agents.set(i, info);
                assert(registered(rest, info) == seq![info] + rest.subrange(1, rest.len() as int));
                assert(agents@ =~= registered(vs, info));
                self.agents = agents;
                return;
            }
            assert(vs.subrange(0, i + 1) =~= vs.subrange(0, i as int).push(vs[i as int]));
            assert(registered(rest, info) == seq![rest[0]] + registered(vs.subrange(i + 1, vs.len() as int), info));
            assert(vs.subrange(0, i as int) + registered(rest, info) =~= vs.subrange(0, i + 1) + registered(
                vs.subrange(i + 1, vs.len() as int),
                info,
            ));
            i = i + 1;
        }
        agents.push(info);
        assert(registered(vs.subrange(vs.len() as int, vs.len() as int), info) == seq![info]);
        assert(agents@ =~= registered(vs, info));
        self.agents = agents;
    }

    /// Removes the agent with the given ID, if registered.
    pub fn unregister(&mut self, id: u128)
        ensures
            forall|i: int| 0 <= i < old(self)@.len() && old(self)@[i].id == id ==> (forall|j: int|
                0 <= j < i ==> old(self)@[j].id != id) ==> final(self)@ == old(self)@.remove(i),
            (forall|i: int| 0 <= i < old(self)@.len() ==> old(self)@[i].id != id) ==> final(self)@ == old(self)@,
    {
        proof {
            use_type_invariant(&*self);
        }
        let mut i: usize = 0;
        while i < self.agents.len()
            invariant
                i <= self.agents.len(),
                self.agents@ == old(self)@,
                distinct_ids(self.agents@),
                forall|j: int| 0 <= j < i ==> self.agents@[j].id != id,
            decreases self.agents.len() - i,
        {
            if self.agents[i].id == id {
                let mut agents: Vec<AgentInfo> = Vec::new();
                std::mem::swap(&mut agents, &mut self.agents);
                let ghost before = agents@;
                agents.remove(i);
                assert forall|a: int, b: int| 0 <= a < b < agents@.len() implies agents@[a].id != agents@[b].id by {
                    let a2 = if a < i { a } else { a + 1 };
                    let b2 = if b < i { b } else { b + 1 };
                    assert(agents@[a] == before[a2] && agents@[b] == before[b2]);
                }
                self.agents = agents;
                return;
            }
            i = i + 1;
        }
    }

    /// The IDs a broadcast reaches: every agent but the message's
    /// recipient, in registration order.
    pub fn broadcast_targets(&self, message: &CollabMessage) -> (v: Vec<u128>)
        ensures
            v@ == targets(self@, message.to),
    {
        let mut v: Vec<u128> = Vec::new();
        let mut i: usize = 0;
        while i < self.agents.len()
            invariant
                i <= self.agents.len(),
                v@ == targets(self@.subrange(0, i as int), message.to),
            decreases self.agents.len() - i,
        {
            assert(self@.subrange(0, i + 1).drop_last() =~= self@.subrange(0, i as int));
            let id = self.agents[i].id;
            let is_recipient = match message.to {
                Some(t) => t == id,
                None => false,
            };
            if !is_recipient {
                v.push(id);
            }
            i = i + 1;
        }
        assert(self@.subrange(0, self@.len() as int) =~= self@);
        v
    }

    /// The agents that list a capability, in registration order.
    pub fn find_by_capability(&self, capability: &str) -> (v: Vec<&AgentInfo>)
        ensures
            v@.map_values(|a: &AgentInfo| *a) == self@.filter(|a: AgentInfo| has_capability(a, capability@)),
    {
        let ghost pred = |a: AgentInfo| has_capability(a, capability@);
        let mut v: Vec<&AgentInfo> = Vec::new();
        let mut i: usize = 0;
        while i < self.agents.len()
            invariant
                i <= self.agents.len(),
                pred == (|a: AgentInfo| has_capability(a, capability@)),
                v@.map_values(|a: &AgentInfo| *a) =~= self@.subrange(0, i as int).filter(pred),
            decreases self.agents.len() - i,
        {
            proof {
                reveal(Seq::filter);
                assert(self@.subrange(0, i + 1).drop_last() =~= self@.subrange(0, i as int));
            }
            let a = &self.agents[i];
            if lists(a, capability) {
                let ghost before = v@;
                v.push(a);
                assert(v@.map_values(|a: &AgentInfo| *a) =~= before.map_values(|a: &AgentInfo| *a).push(*a));
            }
            i = i + 1;
        }
        assert(self@.subrange(0, self@.len() as int) =~= self@);
        v
    }
}

impl Default for CollaborationHub {
    fn default() -> (h: Self)
        ensures
            h@.len() == 0,
    {
        CollaborationHub::new()
    }
}

} // verus!
