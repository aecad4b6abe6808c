//! Multi-agent workflows: steps taken in order.

use vstd::prelude::*;

use crate::clock::new_uuid;

verus! {

/// A workflow of steps, with the position of the current one.
#[derive(Debug)]
pub struct CollaborationWorkflow {
    pub id: u128,
    pub steps: Vec<WorkflowStep>,
    pub current_step: usize,
}

/// A step assigned to an agent.
#[derive(Debug, Clone)]
pub struct WorkflowStep {
    pub id: u128,
    pub agent_id: u128,
    pub task: String,
    pub dependencies: Vec<u128>,
    pub status: StepStatus,
}

/// The state of a step.
#[derive(Debug, Clone, Copy, PartialEq, Eq, Structural)]
pub enum StepStatus {
    Pending,
    Running,
    Completed,
    Failed,
}

impl CollaborationWorkflow {
    /// An empty workflow with a fresh ID.
    pub fn new() -> (w: Self)
        ensures
            w.steps@.len() == 0,
            w.current_step == 0,
    {
        CollaborationWorkflow { id: new_uuid(), steps: Vec::new(), current_step: 0 }
    }

    /// Appends a step.
    pub fn add_step(&mut self, step: WorkflowStep)
        ensures
            final(self).steps@ == old(self).steps@.push(step),
            final(self).id == old(self).id,
            final(self).current_step == old(self).current_step,
    {
        self.steps.push(step);
    }

    /// The current step, if the position is within the steps.
    pub fn current_step(&self) -> (r: Option<&WorkflowStep>)
        ensures
            self.current_step < self.steps@.len() ==> r == Some(&self.steps@[self.current_step as int]),
            self.current_step >= self.steps@.len() ==> r is None,
    {
        if self.current_step < self.steps.len() {
            Some(&self.steps[self.current_step])
        } else {
            None
        }
    }

    /// Moves to the next step unless the current one is the last; tells
    /// whether it moved. The workflow must have a step.
    pub fn advance(&mut self) -> (moved: bool)
        requires
            old(self).steps@.len() > 0,
        ensures
            final(self).id == old(self).id,
            final(self).steps == old(self).steps,
            moved == (old(self).current_step < old(self).steps@.len() - 1),
            moved ==> final(self).current_step == old(self).current_step + 1,
            !moved ==> final(self).current_step == old(self).current_step,
    {
        if self.current_step < self.steps.len() - 1 {
            self.current_step = self.current_step + 1;
            true
        } else {
            false
        }
    }

    /// Whether every step is completed.
    pub fn is_complete(&self) -> (b: bool)
        ensures
            b == (forall|i: int| 0 <= i < self.steps@.len() ==> #[trigger] self.steps@[i].status == StepStatus::Completed),
    {
        let mut i: usize = 0;
        while i < self.steps.len()
            invariant
                i <= self.steps.len(),
                forall|j: int| 0 <= j < i ==> #[trigger] self.steps@[j].status == StepStatus::Completed,
            decreases self.steps.len() - i,
        {
            if self.steps[i].status != StepStatus::Completed {
                return false;
            }
            i = i + 1;
        }
        true
    }
}

impl Default for CollaborationWorkflow {
    fn default() -> (w: Self)
        ensures
            w.steps@.len() == 0,
            w.current_step == 0,
    {
        CollaborationWorkflow::new()
    }
}

} // verus!
