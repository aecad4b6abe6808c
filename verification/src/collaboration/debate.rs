//! Structured debates held by a round table, round by round.

use vstd::prelude::*;

verus! {

/// The phases of a round-table workflow.
#[derive(Debug, Clone, Copy, PartialEq, Eq, Structural)]
pub enum RoundTableStepType {
    /// Proposal phase.
    Proposal,
    /// Debate or discussion phase.
    Debate,
    /// Voting phase.
    Voting,
    /// Conflict resolution phase.
    ConflictResolution,
    /// Execution phase.
    Execution,
}

/// The two sides of a debate.
#[derive(Debug, Clone, Copy, PartialEq, Eq, Structural)]
pub enum DebateSide {
    Proposition,
    Opposition,
}

/// One round of a debate: each side's argument and the cross-examination,
/// as (participant ID, text) pairs in the order given.
#[derive(Debug)]
pub struct DebateRound {
    pub round_number: usize,
    pub proposition_argument: Option<String>,
    pub opposition_argument: Option<String>,
    pub cross_examination: Vec<(u128, String)>,
}

/// A structured debate on a topic, between a proposition and an
/// opposition, held in numbered rounds of which the last is the current one.
#[derive(Debug)]
pub struct DebateSession {
    pub topic: String,
    pub proposition: String,
    pub opposition: String,
    pub rounds: Vec<DebateRound>,
    pub current_round: usize,
}

/// A round that nothing has been said in yet.
pub open spec fn fresh_round(r: DebateRound, number: int) -> bool {
    &&& r.round_number == number
    &&& r.proposition_argument is None
    &&& r.opposition_argument is None
    &&& r.cross_examination@.len() == 0
}

impl DebateSession {
    /// The rounds are numbered from 1 in order, and the current round is
    /// the last one.
    pub open spec fn wf(&self) -> bool {
        &&& self.rounds@.len() == self.current_round + 1
        &&& forall|i: int| 0 <= i < self.rounds@.len() ==> #[trigger] self.rounds@[i].round_number == i + 1
    }

    /// A debate with one fresh round, numbered 1, as the current round.
    pub fn new(topic: String, proposition: String, opposition: String) -> (s: Self)
        ensures
            s.wf(),
            s.topic == topic,
            s.proposition == proposition,
            s.opposition == opposition,
            s.current_round == 0,
            fresh_round(s.rounds@[0], 1),
    {
        let mut rounds: Vec<DebateRound> = Vec::new();
        rounds.push(DebateRound {
            round_number: 1,
            proposition_argument: None,
            opposition_argument: None,
            cross_examination: Vec::new(),
        });
        DebateSession { topic, proposition, opposition, rounds, current_round: 0 }
    }

    /// Records `argument` as the argument of `side` in the current round,
    /// in place of any earlier one; nothing else changes.
    pub fn submit_argument(&mut self, side: DebateSide, argument: String)
        requires
            old(self).wf(),
        ensures
            final(self).wf(),
            final(self).topic == old(self).topic,
            final(self).proposition == old(self).proposition,
            final(self).opposition == old(self).opposition,
            final(self).current_round == old(self).current_round,
            final(self).rounds@.len() == old(self).rounds@.len(),
            forall|i: int| 0 <= i < old(self).rounds@.len() && i != old(self).current_round
                ==> #[trigger] final(self).rounds@[i] == old(self).rounds@[i],
            ({
                let before = old(self).rounds@[old(self).current_round as int];
                let after = final(self).rounds@[old(self).current_round as int];
                &&& after.round_number == before.round_number
                &&& after.cross_examination == before.cross_examination
                &&& match side {
                    DebateSide::Proposition => after.proposition_argument == Some(argument)
                        && after.opposition_argument == before.opposition_argument,
                    DebateSide::Opposition => after.opposition_argument == Some(argument)
                        && after.proposition_argument == before.proposition_argument,
                }
            }),
    {
        let i = self.current_round;
        match side {
            DebateSide::Proposition => {
                self.rounds[i].proposition_argument = Some(argument);
            },
            DebateSide::Opposition => {
                self.rounds[i].opposition_argument = Some(argument);
            },
        }
    }

    /// Appends `(participant_id, content)` to the cross-examination of the
    /// current round; nothing else changes.
    pub fn add_cross_examination(&mut self, participant_id: u128, content: String)
        requires
            old(self).wf(),
        ensures
            final(self).wf(),
            final(self).topic == old(self).topic,
            final(self).proposition == old(self).proposition,
            final(self).opposition == old(self).opposition,
            final(self).current_round == old(self).current_round,
            final(self).rounds@.len() == old(self).rounds@.len(),
            forall|i: int| 0 <= i < old(self).rounds@.len() && i != old(self).current_round
                ==> #[trigger] final(self).rounds@[i] == old(self).rounds@[i],
            ({
                let before = old(self).rounds@[old(self).current_round as int];
                let after = final(self).rounds@[old(self).current_round as int];
                &&& after.round_number == before.round_number
                &&& after.proposition_argument == before.proposition_argument
                &&& after.opposition_argument == before.opposition_argument
                &&& after.cross_examination@ == before.cross_examination@.push((participant_id, content))
            }),
    {
        let i = self.current_round;
        self.rounds[i].cross_examination.push((participant_id, content));
    }

    /// Opens a fresh round after the current one and makes it current.
    pub fn next_round(&mut self)
        requires
            old(self).wf(),
            old(self).rounds@.len() < usize::MAX,
        ensures
            final(self).wf(),
            final(self).topic == old(self).topic,
            final(self).proposition == old(self).proposition,
            final(self).opposition == old(self).opposition,
            final(self).current_round == old(self).current_round + 1,
            final(self).rounds@.len() == old(self).rounds@.len() + 1,
            forall|i: int| 0 <= i < old(self).rounds@.len()
                ==> #[trigger] final(self).rounds@[i] == old(self).rounds@[i],
            fresh_round(final(self).rounds@[final(self).current_round as int], final(self).current_round + 1),
    {
        self.current_round = self.current_round + 1;
        self.rounds.push(DebateRound {
            round_number: self.current_round + 1,
            proposition_argument: None,
            opposition_argument: None,
            cross_examination: Vec::new(),
        });
    }
}

} // verus!
