//! The event sequencer: gives each event the next sequence number and
//! hands events out again in that order.

use vstd::prelude::*;

verus! {

/// An event with its sequence number.
#[derive(Debug)]
pub struct SequencedEvent<E> {
    pub sequence: u64,
    pub event: E,
}

/// Numbers events from 1 and buffers a copy of each, oldest first.
#[derive(Debug)]
pub struct EventSequencer<E> {
    sequence: u64,
    buffer: Vec<SequencedEvent<E>>,
}

impl<E> View for EventSequencer<E> {
    /// The last number given out, and the buffered events with their
    /// numbers, oldest first.
    type V = (u64, Seq<(u64, E)>);

    closed spec fn view(&self) -> (u64, Seq<(u64, E)>) {
        (self.sequence, self.buffer@.map_values(|s: SequencedEvent<E>| (s.sequence, s.event)))
    }
}

/// Whether the buffered numbers increase strictly and none exceeds the
/// last number given out.
pub open spec fn in_order<E>(last: u64, buffered: Seq<(u64, E)>) -> bool {
    &&& forall|i: int, j: int| 0 <= i < j < buffered.len() ==> buffered[i].0 < buffered[j].0
    &&& forall|i: int| 0 <= i < buffered.len() ==> buffered[i].0 <= last
}

impl<E> EventSequencer<E> {
    /// A sequencer that has numbered nothing yet.
    pub fn new() -> (s: Self)
        ensures
            s@.0 == 0,
            s@.1 == Seq::<(u64, E)>::empty(),
    {
        let s = EventSequencer { sequence: 0, buffer: Vec::new() };
        assert(s@.1 =~= Seq::<(u64, E)>::empty());
        s
    }

    /// Gives `event` the next number, buffers a copy of it and returns it
    /// with its number.
    pub fn sequence(&mut self, event: E) -> (r: SequencedEvent<E>)
        where
            E: Clone,
        requires
            old(self)@.0 < u64::MAX,
        ensures
            r.sequence == old(self)@.0 + 1,
            r.event == event,
            final(self)@.0 == r.sequence,
            final(self)@.1.len() == old(self)@.1.len() + 1,
            final(self)@.1.drop_last() == old(self)@.1,
            final(self)@.1.last().0 == r.sequence,
            cloned(event, final(self)@.1.last().1),
    {
        self.sequence = self.sequence + 1;
        let copy = event.clone();
        let ghost before = self.buffer@;
        self.buffer.push(SequencedEvent { sequence: self.sequence, event: copy });
        assert(self@.1.drop_last() =~= before.map_values(|s: SequencedEvent<E>| (s.sequence, s.event)));
        SequencedEvent { sequence: self.sequence, event }
    }

    /// Takes the oldest buffered event, if any.
    pub fn next(&mut self) -> (r: Option<SequencedEvent<E>>)
        ensures
            old(self)@.1.len() == 0 ==> r is None && final(self)@ == old(self)@,
            old(self)@.1.len() > 0 ==> (r matches Some(s) && (s.sequence, s.event) == old(self)@.1[0]
                && final(self)@.0 == old(self)@.0 && final(self)@.1 == old(self)@.1.drop_first()),
    {
        if self.buffer.len() == 0 {
            None
        } else {
            let s = self.buffer.remove(0);
            assert(self@.1 =~= old(self)@.1.drop_first());
            Some(s)
        }
    }

    /// The last number given out.
    pub fn current_sequence(&self) -> (n: u64)
        ensures
            n == self@.0,
    {
        self.sequence
    }
}

/// Numbering an event and taking events out keep the buffer in order:
/// numbers strictly increase and none exceeds the last one given out.
pub proof fn lemma_sequencer_order<E>(last: u64, buffered: Seq<(u64, E)>, e: E)
    requires
        in_order(last, buffered),
        last < u64::MAX,
    ensures
        in_order((last + 1) as u64, buffered.push(((last + 1) as u64, e))),
        buffered.len() > 0 ==> in_order(last, buffered.drop_first()),
{
    let pushed = buffered.push(((last + 1) as u64, e));
    assert forall|i: int, j: int| 0 <= i < j < pushed.len() implies pushed[i].0 < pushed[j].0 by {
        if j == pushed.len() - 1 {
            assert(pushed[i] == buffered[i]);
        }
    }
}

} // verus!
