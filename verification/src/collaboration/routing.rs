//! Routes between collaborating agents.

use vstd::prelude::*;

verus! {

/// A route from one agent to another, with a priority.
#[derive(Debug, Clone, Copy, PartialEq, Eq, Structural)]
pub struct Route {
    pub from: u128,
    pub to: u128,
    pub priority: u8,
}

/// The routes between agents, in the order they were added.
#[derive(Debug)]
pub struct CollaborationRouter {
    routes: Vec<Route>,
}

impl View for CollaborationRouter {
    type V = Seq<Route>;

    closed spec fn view(&self) -> Seq<Route> {
        self.routes@
    }
}

impl CollaborationRouter {
    /// A router with no routes.
    pub fn new() -> (r: Self)
        ensures
            r@.len() == 0,
    {
        CollaborationRouter { routes: Vec::new() }
    }

    /// Adds a route.
    pub fn add_route(&mut self, route: Route)
        ensures
            final(self)@ == old(self)@.push(route),
    {
        self.routes.push(route);
    }

    /// The first route added from `from` to `to`, if any.
    pub fn find_route(&self, from: u128, to: u128) -> (r: Option<&Route>)
        ensures
            r matches Some(x) ==> exists|i: int|
                0 <= i < self@.len() && self@[i] == *x && x.from == from && x.to == to && forall|j: int|
                    0 <= j < i ==> !(#[trigger] self@[j].from == from && self@[j].to == to),
            r is None ==> forall|i: int| 0 <= i < self@.len() ==> !(#[trigger] self@[i].from == from && self@[i].to == to),
    {
        let mut i: usize = 0;
        while i < self.routes.len()
            invariant
                i <= self.routes.len(),
                forall|j: int| 0 <= j < i ==> !(#[trigger] self@[j].from == from && self@[j].to == to),
            decreases self.routes.len() - i,
        {
            if self.routes[i].from == from && self.routes[i].to == to {
                assert(self@[i as int] == self.routes@[i as int]);
                return Some(&self.routes[i]);
            }
            i = i + 1;
        }
        None
    }
}

impl Default for CollaborationRouter {
    fn default() -> (r: Self)
        ensures
            r@.len() == 0,
    {
        CollaborationRouter::new()
    }
}

} // verus!
