//! Conversation threads across platforms, found by ID or by the
//! platform's own identifier.

use vstd::prelude::*;

use crate::clock::{new_uuid, now_millis, uuid_text};
use crate::content::PlatformType;
use crate::error::{message_with_id, AgentError};
use crate::strmap::{inserted, StrMap};
use crate::templates::Message;
use crate::text::{str_eq, to_owned_string, views};

verus! {

/// A conversation thread. Times are milliseconds since the epoch.
#[derive(Debug)]
pub struct Thread {
    pub id: u128,
    pub platform: PlatformType,
    pub external_id: String,
    pub participants: Vec<String>,
    pub messages: Vec<Message>,
    pub created_at: i64,
    pub updated_at: i64,
    pub metadata: StrMap<String>,
}

impl Thread {
    /// A thread with ID `id` created at `now`, with no participants,
    /// messages or metadata.
    pub fn new_at(platform: PlatformType, external_id: &str, id: u128, now: i64) -> (t: Self)
        ensures
            t.id == id && t.platform == platform && t.external_id@ == external_id@
                && t.participants@.len() == 0 && t.messages@.len() == 0 && t.created_at == now
                && t.updated_at == now && t.metadata@.len() == 0,
    {
        Thread {
            id,
            platform,
            external_id: to_owned_string(external_id),
            participants: Vec::new(),
            messages: Vec::new(),
            created_at: now,
            updated_at: now,
            metadata: StrMap::new(),
        }
    }

    /// A thread with a fresh ID, created now.
    pub fn new(platform: PlatformType, external_id: &str) -> (t: Self)
        ensures
            t.platform == platform && t.external_id@ == external_id@ && t.participants@.len() == 0
                && t.messages@.len() == 0 && t.created_at == t.updated_at && t.metadata@.len() == 0,
    {
        let now = now_millis();
        Thread::new_at(platform, external_id, new_uuid(), now)
    }

    /// Appends a message at time `now`.
    pub fn add_message_at(&mut self, message: Message, now: i64)
        ensures
            final(self).messages@ == old(self).messages@.push(message),
            final(self).updated_at == now,
            final(self).id == old(self).id && final(self).platform == old(self).platform
                && final(self).external_id == old(self).external_id
                && final(self).participants == old(self).participants
                && final(self).created_at == old(self).created_at
                && final(self).metadata == old(self).metadata,
    {
        self.messages.push(message);
        self.updated_at = now;
    }

    /// Adds a participant unless already present.
    pub fn add_participant(&mut self, participant: &str)
        ensures
            views(old(self).participants@).contains(participant@) ==> final(self).participants@
                == old(self).participants@,
            !views(old(self).participants@).contains(participant@) ==> views(final(self).participants@)
                == views(old(self).participants@).push(participant@),
            final(self).id == old(self).id && final(self).platform == old(self).platform
                && final(self).external_id == old(self).external_id && final(self).messages
                == old(self).messages && final(self).created_at == old(self).created_at
                && final(self).updated_at == old(self).updated_at && final(self).metadata
                == old(self).metadata,
    {
        let mut i: usize = 0;
        while i < self.participants.len()
            invariant
                i <= self.participants.len(),
                self.participants@ == old(self).participants@,
                forall|j: int| 0 <= j < i ==> self.participants@[j]@ != participant@,
            decreases self.participants.len() - i,
        {
            if str_eq(self.participants[i].as_str(), participant) {
                assert(views(old(self).participants@)[i as int] == participant@);
                return;
            }
            i = i + 1;
        }
        assert(!views(old(self).participants@).contains(participant@)) by {
            if views(old(self).participants@).contains(participant@) {
                let k = choose|k: int| 0 <= k < views(old(self).participants@).len() && #[trigger] views(old(self).participants@)[k] == participant@;
                assert(old(self).participants@[k]@ == participant@);
            }
        }
        let ghost before = self.participants@;
        self.participants.push(to_owned_string(participant));
        assert(views(self.participants@) =~= views(before).push(participant@));
    }
}

/// Threads by ID, and the thread for each platform identifier.
#[derive(Debug)]
pub struct ThreadManager {
    threads: Vec<Thread>,
    platform_index: Vec<(PlatformType, String, u128)>,
}

/// The position of the first thread with an ID, if any.
pub open spec fn thread_at(ts: Seq<Thread>, id: u128, i: int) -> bool {
    0 <= i < ts.len() && ts[i].id == id && forall|j: int| 0 <= j < i ==> ts[j].id != id
}

/// Whether no thread has an ID.
pub open spec fn no_thread(ts: Seq<Thread>, id: u128) -> bool {
    forall|j: int| 0 <= j < ts.len() ==> ts[j].id != id
}

/// The index entries as plain values.
pub open spec fn index_view(ix: Seq<(PlatformType, String, u128)>) -> Seq<(PlatformType, Seq<char>, u128)> {
    ix.map_values(|e: (PlatformType, String, u128)| (e.0, e.1@, e.2))
}

/// The thread ID recorded for a platform identifier (the first entry).
pub open spec fn indexed(ix: Seq<(PlatformType, Seq<char>, u128)>, p: PlatformType, ext: Seq<char>) -> Option<u128>
    decreases ix.len(),
{
    if ix.len() == 0 {
        None
    } else if ix[0].0 == p && ix[0].1 == ext {
        Some(ix[0].2)
    } else {
        indexed(ix.subrange(1, ix.len() as int), p, ext)
    }
}

impl View for ThreadManager {
    /// The threads, and the index from platform identifiers to thread IDs.
    type V = (Seq<Thread>, Seq<(PlatformType, Seq<char>, u128)>);

    closed spec fn view(&self) -> (Seq<Thread>, Seq<(PlatformType, Seq<char>, u128)>) {
        (self.threads@, index_view(self.platform_index@))
    }
}

impl ThreadManager {
    /// A manager with no threads.
    pub fn new() -> (m: Self)
        ensures
            m@.0.len() == 0,
            m@.1.len() == 0,
    {
        let m = ThreadManager { threads: Vec::new(), platform_index: Vec::new() };
        assert(index_view(m.platform_index@) =~= Seq::<(PlatformType, Seq<char>, u128)>::empty());
        m
    }

    fn find_thread(&self, id: u128) -> (r: Option<usize>)
        ensures
            r matches Some(i) ==> thread_at(self@.0, id, i as int),
            r is None ==> no_thread(self@.0, id),
    {
        let mut i: usize = 0;
        while i < self.threads.len()
            invariant
                i <= self.threads.len(),
                forall|j: int| 0 <= j < i ==> self@.0[j].id != id,
            decreases self.threads.len() - i,
        {
            if self.threads[i].id == id {
                return Some(i);
            }
            i = i + 1;
        }
        None
    }

    fn find_index(&self, platform: PlatformType, external_id: &str) -> (r: Option<u128>)
        ensures
            r == indexed(self@.1, platform, external_id@),
    {
        let ghost ix = self@.1;
        let mut i: usize = 0;
        assert(ix.subrange(0, ix.len() as int) =~= ix);
        while i < self.platform_index.len()
            invariant
                ix == index_view(self.platform_index@),
                i <= self.platform_index.len(),
                indexed(ix, platform, external_id@) == indexed(ix.subrange(i as int, ix.len() as int), platform, external_id@),
            decreases self.platform_index.len() - i,
        {
            let ghost rest = ix.subrange(i as int, ix.len() as int);
            assert(rest.subrange(1, rest.len() as int) =~= ix.subrange(i + 1, ix.len() as int));
            assert(rest[0] == ix[i as int]);
            let e = &self.platform_index[i];
            if e.0 == platform && str_eq(e.1.as_str(), external_id) {
                return Some(e.2);
            }
            i = i + 1;
        }
        None
    }

    /// Creates a thread with ID `id` at time `now`, replacing a thread
    /// with the same ID, and records it for its platform identifier ahead
    /// of any earlier record; returns the stored thread.
    pub fn create_thread_at(&mut self, platform: PlatformType, external_id: &str, id: u128, now: i64) -> (t: &Thread)
        ensures
            t.id == id && t.platform == platform && t.external_id@ == external_id@ && t.messages@.len() == 0
                && t.participants@.len() == 0 && t.created_at == now && t.updated_at == now,
            exists|i: int| thread_at(final(self)@.0, id, i) && final(self)@.0[i] == *t,
            final(self)@.1 == seq![(platform, external_id@, id)] + old(self)@.1,
    {
        let thread = Thread::new_at(platform, external_id, id, now);
        let pos = match self.find_thread(id) {
            Some(i) => {
                self.threads.set(i, thread);
                i
            },
            None => {
                self.threads.push(thread);
                self.threads.len() - 1
            },
        };
        let ghost before = self.platform_index@;
        self.platform_index.insert(0, (platform, to_owned_string(external_id), id));
        assert(index_view(self.platform_index@) =~= seq![(platform, external_id@, id)] + index_view(before));
        assert(thread_at(self@.0, id, pos as int));
        &self.threads[pos]
    }

    /// Creates a thread with a fresh ID, now.
    pub fn create_thread(&mut self, platform: PlatformType, external_id: &str) -> (t: &Thread)
        ensures
            t.platform == platform && t.external_id@ == external_id@ && t.messages@.len() == 0,
            exists|i: int| thread_at(final(self)@.0, t.id, i) && final(self)@.0[i] == *t,
            final(self)@.1 == seq![(platform, external_id@, t.id)] + old(self)@.1,
    {
        let now = now_millis();
        self.create_thread_at(platform, external_id, new_uuid(), now)
    }

    /// The thread with an ID.
    pub fn get_thread(&self, id: u128) -> (r: Option<&Thread>)
        ensures
            r matches Some(t) ==> exists|i: int| thread_at(self@.0, id, i) && self@.0[i] == *t,
            r is None ==> no_thread(self@.0, id),
    {
        match self.find_thread(id) {
            Some(i) => Some(&self.threads[i]),
            None => None,
        }
    }

    /// The thread recorded for a platform identifier.
    pub fn get_by_external(&self, platform: PlatformType, external_id: &str) -> (r: Option<&Thread>)
        ensures
            r matches Some(t) ==> (indexed(self@.1, platform, external_id@) matches Some(id) && exists|i: int|
                thread_at(self@.0, id, i) && self@.0[i] == *t),
            r is None ==> (indexed(self@.1, platform, external_id@) matches Some(id) ==> no_thread(self@.0, id)),
    {
        match self.find_index(platform, external_id) {
            Some(id) => self.get_thread(id),
            None => None,
        }
    }

    /// Appends a message to a thread at time `now`; an unknown thread is
    /// an error naming it.
    pub fn add_message_at(&mut self, thread_id: u128, message: Message, now: i64) -> (r: Result<(), AgentError>)
        ensures
            final(self)@.1 == old(self)@.1,
            r is Ok ==> exists|i: int|
                thread_at(old(self)@.0, thread_id, i) && final(self)@.0.len() == old(self)@.0.len() && (forall|j: int|
                    0 <= j < old(self)@.0.len() && j != i ==> final(self)@.0[j] == old(self)@.0[j])
                    && final(self)@.0[i].messages@ == old(self)@.0[i].messages@.push(message)
                    && final(self)@.0[i].updated_at == now && final(self)@.0[i].id == thread_id,
            r is Err ==> final(self)@ == old(self)@ && no_thread(old(self)@.0, thread_id),
            r matches Err(e) ==> e == AgentError::AgentNotFound(e->AgentNotFound_0) && e->AgentNotFound_0@
                == "Thread "@ + uuid_text(thread_id),
    {
        match self.find_thread(thread_id) {
            Some(i) => {
                let mut t = self.threads.remove(i);
                t.add_message_at(message, now);
                self.threads.insert(i, t);
                assert(forall|j: int| 0 <= j < old(self)@.0.len() && j != i ==> self@.0[j] == old(self)@.0[j]);
                Ok(())
            },
            None => Err(AgentError::AgentNotFound(message_with_id("Thread ", thread_id))),
        }
    }

    /// Appends a message to a thread now.
    pub fn add_message(&mut self, thread_id: u128, message: Message) -> (r: Result<(), AgentError>)
        ensures
            final(self)@.1 == old(self)@.1,
            r is Err ==> final(self)@ == old(self)@ && no_thread(old(self)@.0, thread_id),
            r is Ok ==> exists|i: int|
                thread_at(old(self)@.0, thread_id, i) && final(self)@.0.len() == old(self)@.0.len() && (forall|j: int|
                    0 <= j < old(self)@.0.len() && j != i ==> final(self)@.0[j] == old(self)@.0[j])
                    && final(self)@.0[i].messages@ == old(self)@.0[i].messages@.push(message)
                    && final(self)@.0[i].id == thread_id,
            r matches Err(e) ==> e == AgentError::AgentNotFound(e->AgentNotFound_0) && e->AgentNotFound_0@
                == "Thread "@ + uuid_text(thread_id),
    {
        let now = now_millis();
        self.add_message_at(thread_id, message, now)
    }

    /// All threads.
    pub fn list_threads(&self) -> (v: Vec<&Thread>)
        ensures
            v@.map_values(|t: &Thread| *t) == self@.0,
    {
        let mut v: Vec<&Thread> = Vec::new();
        let mut i: usize = 0;
        while i < self.threads.len()
            invariant
                i <= self.threads.len(),
                v@.map_values(|t: &Thread| *t) =~= self@.0.subrange(0, i as int),
            decreases self.threads.len() - i,
        {
            let ghost before = v@;
            v.push(&self.threads[i]);
            assert(v@.map_values(|t: &Thread| *t) =~= before.map_values(|t: &Thread| *t).push(self@.0[i as int]));
            i = i + 1;
        }
        v
    }

    /// Marks every thread last updated before `before` as archived (its
    /// `archived` metadata set to `true`); returns how many were marked.
    pub fn archive_old_threads(&mut self, before: i64) -> (n: usize)
        ensures
            final(self)@.1 == old(self)@.1,
            final(self)@.0.len() == old(self)@.0.len(),
            n == old(self)@.0.filter(|t: Thread| t.updated_at < before).len(),
            forall|i: int| 0 <= i < old(self)@.0.len() ==> {
                let a = #[trigger] old(self)@.0[i];
                let b = final(self)@.0[i];
                &&& b.id == a.id && b.platform == a.platform && b.external_id == a.external_id
                &&& b.participants == a.participants && b.messages == a.messages
                &&& b.created_at == a.created_at && b.updated_at == a.updated_at
                &&& a.updated_at < before ==> b.metadata@ == inserted(a.metadata@, "archived"@, "true"@)
                &&& !(a.updated_at < before) ==> b.metadata == a.metadata
            },
    {
        let ghost pred = |t: Thread| t.updated_at < before;
        let ghost orig = self@.0;
        let mut n: usize = 0;
        let mut i: usize = 0;
        while i < self.threads.len()
            invariant
                i <= self.threads.len(),
                orig == old(self)@.0,
                self.threads@.len() == orig.len(),
                self@.1 == old(self)@.1,
                pred == (|t: Thread| t.updated_at < before),
                n == orig.subrange(0, i as int).filter(pred).len(),
                n <= i,
                forall|k: int| i <= k < orig.len() ==> self.threads@[k] == orig[k],
                forall|k: int| 0 <= k < i ==> {
                    let a = #[trigger] orig[k];
                    let b = self.threads@[k];
                    &&& b.id == a.id && b.platform == a.platform && b.external_id == a.external_id
                    &&& b.participants == a.participants && b.messages == a.messages
                    &&& b.created_at == a.created_at && b.updated_at == a.updated_at
                    &&& a.updated_at < before ==> b.metadata@ == inserted(a.metadata@, "archived"@, "true"@)
                    &&& !(a.updated_at < before) ==> b.metadata == a.metadata
                },
            decreases self.threads.len() - i,
        {
            proof {
                reveal(Seq::filter);
                assert(orig.subrange(0, i + 1).drop_last() =~= orig.subrange(0, i as int));
                orig.subrange(0, i as int).lemma_filter_len(pred);
            }
            if self.threads[i].updated_at < before {
                let mut t = self.threads.remove(i);
                t.metadata.insert(to_owned_string("archived"), to_owned_string("true"));
                self.threads.insert(i, t);
                n = n + 1;
            }
            i = i + 1;
        }
        assert(orig.subrange(0, orig.len() as int) =~= orig);
        n
    }
}

impl Default for ThreadManager {
    fn default() -> (m: Self)
        ensures
            m@.0.len() == 0,
            m@.1.len() == 0,
    {
        ThreadManager::new()
    }
}

} // verus!
