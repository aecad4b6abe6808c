//! Agent-to-agent tasks: their status, artifacts and history. The
//! messages a task carries are kept as they are given.

use vstd::prelude::*;

use crate::a2a::protocol::TaskStatus;
use crate::clock::{new_uuid, now_seconds, uuid_string};
use crate::strmap::{has_key, inserted, lookup, position_of, StrMap};
use crate::text::to_owned_string;

verus! {

/// A task, with the messages exchanged about it.
#[derive(Debug)]
pub struct A2ATask<M> {
    pub id: String,
    pub parent_id: Option<String>,
    pub status: TaskStatus,
    pub messages: Vec<M>,
    pub artifacts: Vec<Artifact>,
    pub history: Vec<HistoryEntry>,
}

impl<M> View for A2ATask<M> {
    type V = A2ATask<M>;

    open spec fn view(&self) -> A2ATask<M> {
        *self
    }
}

/// Something a task produced.
#[derive(Debug, Clone)]
pub struct Artifact {
    pub id: String,
    pub artifact_type: String,
    pub content: String,
    pub mime_type: String,
}

/// An entry of a task's history, at a time in seconds since the epoch.
#[derive(Debug, Clone)]
pub struct HistoryEntry {
    pub timestamp: u64,
    pub state: TaskState,
    pub message: String,
}

/// The states recorded in a task's history.
#[derive(Debug, Clone, Copy, PartialEq, Eq, Structural)]
pub enum TaskState {
    Created,
    Working,
    InputRequired,
    Completed,
    Canceled,
}

/// Tasks by ID.
#[derive(Debug)]
pub struct TaskManager<M> {
    tasks: StrMap<A2ATask<M>>,
}

impl<M> View for TaskManager<M> {
    type V = Seq<(Seq<char>, A2ATask<M>)>;

    closed spec fn view(&self) -> Seq<(Seq<char>, A2ATask<M>)> {
        self.tasks@
    }
}

/// Whether the tasks differ only in the one at position `i`.
pub open spec fn others_kept<M>(a: Seq<(Seq<char>, A2ATask<M>)>, b: Seq<(Seq<char>, A2ATask<M>)>, i: int) -> bool {
    &&& a.len() == b.len()
    &&& b[i].0 == a[i].0
    &&& forall|j: int| 0 <= j < a.len() && j != i ==> b[j] == a[j]
}

impl<M> TaskManager<M> {
    /// A manager with no tasks.
    pub fn new() -> (m: Self)
        ensures
            m@.len() == 0,
    {
        TaskManager { tasks: StrMap::new() }
    }

    /// Creates a task with ID `id` at time `now`: created, with no
    /// messages or artifacts and one history entry saying so.
    pub fn create_task_at(&mut self, parent_id: Option<String>, id: String, now: u64) -> (r: String)
        ensures
            r@ == id@,
            lookup(final(self)@, id@) matches Some(t) && t.id@ == id@ && t.parent_id == parent_id
                && t.status == TaskStatus::Created && t.messages@.len() == 0 && t.artifacts@.len() == 0
                && t.history@.len() == 1 && t.history@[0].timestamp == now
                && t.history@[0].state == TaskState::Created && t.history@[0].message@ == "Task created"@
                && final(self)@ == inserted(old(self)@, id@, t),
    {
        let mut history: Vec<HistoryEntry> = Vec::new();
        history.push(HistoryEntry { timestamp: now, state: TaskState::Created, message: to_owned_string("Task created") });
        let task = A2ATask {
            id: id.clone(),
            parent_id,
            status: TaskStatus::Created,
            messages: Vec::new(),
            artifacts: Vec::new(),
            history,
        };
        let ghost t = task;
        self.tasks.insert(id.clone(), task);
        proof {
            crate::strmap::lemma_lookup_inserted(old(self)@, id@, t, id@);
        }
        id
    }

    /// Creates a task with a fresh ID at the current time; returns the ID.
    pub fn create_task(&mut self, parent_id: Option<String>) -> (r: String)
        ensures
            lookup(final(self)@, r@) matches Some(t) && t.parent_id == parent_id
                && t.status == TaskStatus::Created && final(self)@ == inserted(old(self)@, r@, t),
    {
        let now = now_seconds() as u64;
        let id = uuid_string(new_uuid());
        self.create_task_at(parent_id, id, now)
    }

    /// Sets the status of a task; nothing happens for an unknown task.
    pub fn update_status(&mut self, task_id: &str, status: TaskStatus)
        ensures
            !has_key(old(self)@, task_id@) ==> final(self)@ == old(self)@,
            has_key(old(self)@, task_id@) ==> ({
                let i = position_of(old(self)@, task_id@);
                &&& others_kept(old(self)@, final(self)@, i)
                &&& final(self)@[i].1 == A2ATask { status, ..old(self)@[i].1 }
            }),
    {
        if let Some(i) = self.tasks.index_of(task_id) {
            proof {
                crate::strmap::lemma_position_of(self@, task_id@);
            }
            let (k, mut t) = self.tasks.take_at(i);
            t.status = status;
            self.tasks.put_at(i, k, t);
            proof {
                assert(self@ =~= old(self)@.remove(i as int).insert(i as int, (task_id@, t)));
            }
        }
    }

    /// Adds an artifact to a task; nothing happens for an unknown task.
    pub fn add_artifact(&mut self, task_id: &str, artifact: Artifact)
        ensures
            !has_key(old(self)@, task_id@) ==> final(self)@ == old(self)@,
            has_key(old(self)@, task_id@) ==> ({
                let i = position_of(old(self)@, task_id@);
                let a = old(self)@[i].1;
                let b = final(self)@[i].1;
                &&& others_kept(old(self)@, final(self)@, i)
                &&& b.id == a.id && b.parent_id == a.parent_id && b.status == a.status
                &&& b.messages == a.messages && b.history == a.history
                &&& b.artifacts@ == a.artifacts@.push(artifact)
            }),
    {
        if let Some(i) = self.tasks.index_of(task_id) {
            proof {
                crate::strmap::lemma_position_of(self@, task_id@);
            }
            let (k, mut t) = self.tasks.take_at(i);
            t.artifacts.push(artifact);
            self.tasks.put_at(i, k, t);
            proof {
                assert(self@ =~= old(self)@.remove(i as int).insert(i as int, (task_id@, t)));
            }
        }
    }

    /// The task with an ID.
    pub fn get_task(&self, task_id: &str) -> (r: Option<&A2ATask<M>>)
        ensures
            r matches Some(t) ==> lookup(self@, task_id@) == Some(*t),
            r is None ==> lookup(self@, task_id@) is None,
    {
        self.tasks.get(task_id)
    }
}

} // verus!
