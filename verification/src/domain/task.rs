//! Background task identifiers, states and progress.
use vstd::prelude::*;

verus! {

#[derive(Debug, PartialEq, Eq, PartialOrd, Ord, Hash)]
pub struct TaskId(pub String);

impl TaskId {
    pub fn new(value: &str) -> (r: Self)
        ensures
            r.0@ == value@,
    {
        TaskId(value.to_owned())
    }

    pub fn as_str(&self) -> (r: &str)
        ensures
            r@ == self.0@,
    {
        self.0.as_str()
    }
}

impl Clone for TaskId {
    fn clone(&self) -> (r: Self)
        ensures
            r == *self,
    {
        TaskId(self.0.clone())
    }
}

#[derive(Debug, Clone, Copy, PartialEq, Eq, Structural)]
pub enum TaskState {
    Pending,
    Running,
    Success,
    Failed,
    Cancelled,
}

pub open spec fn is_terminal_state(state: TaskState) -> bool {
    state == TaskState::Success || state == TaskState::Failed || state == TaskState::Cancelled
}

impl TaskState {
    pub fn is_terminal(self) -> (r: bool)
        ensures
            r == is_terminal_state(self),
    {
        matches!(self, TaskState::Success | TaskState::Failed | TaskState::Cancelled)
    }
}

/// Percentage of `completed` out of `total`, rounded down; 0 for an empty total.
pub open spec fn percentage_of(completed: u64, total: u64) -> int {
    if total == 0 {
        0
    } else {
        (completed as int * 100) / (total as int)
    }
}

#[derive(Debug, Clone, Copy, PartialEq, Eq, Structural)]
pub struct TaskProgress {
    pub completed: u64,
    pub total: u64,
    pub percentage: u8,
}

impl TaskProgress {
    /// Progress stays within its total and its percentage matches its counts.
    pub open spec fn wf(self) -> bool {
        &&& self.completed <= self.total
        &&& self.percentage as int == percentage_of(self.completed, self.total)
    }

    pub fn new(total: u64) -> (r: Self)
        ensures
            r.completed == 0,
            r.total == total,
            r.percentage == 0,
            r.wf(),
    {
        Self { completed: 0, total, percentage: 0 }
    }

    /// Records absolute completed work, clamped to the total.
    pub fn update(&mut self, completed: u64)
        ensures
            final(self).total == old(self).total,
            final(self).completed == (if completed < old(self).total {
                completed
            } else {
                old(self).total
            }),
            final(self).percentage as int == percentage_of(final(self).completed, final(self).total),
            final(self).wf(),
    {
        self.completed = if completed < self.total {
            completed
        } else {
            self.total
        };
        self.percentage = calculate_percentage(self.completed, self.total);
    }

    pub fn complete(&mut self)
        ensures
            final(self).total == old(self).total,
            final(self).completed == old(self).total,
            final(self).percentage == (if old(self).total == 0 {
                0u8
            } else {
                100u8
            }),
            final(self).wf(),
    {
        let total = self.total;
        self.update(total);
        proof {
            if total > 0 {
                assert((total as int * 100) / (total as int) == 100) by (nonlinear_arith)
                    requires
                        total > 0,
                ;
            }
        }
    }
}

/// The percentage of finished work, never above 100.
pub fn calculate_percentage(completed: u64, total: u64) -> (r: u8)
    requires
        completed <= total,
    ensures
        r as int == percentage_of(completed, total),
        r <= 100,
{
    if total == 0 {
        return 0;
    }
    let scaled: u128 = (completed as u128) * 100;
    let result: u128 = scaled / (total as u128);
    assert(result <= 100) by (nonlinear_arith)
        requires
            result == scaled / (total as u128),
            scaled == completed * 100,
            completed <= total,
            total > 0,
    ;
    result as u8
}

#[derive(Debug, PartialEq, Eq)]
pub struct TaskSnapshot {
    pub id: TaskId,
    pub name: String,
    pub state: TaskState,
    pub progress: TaskProgress,
    pub error: Option<String>,
}

impl TaskSnapshot {
    pub fn pending(id: TaskId, name: String, total: u64) -> (r: Self)
        ensures
            r.id == id,
            r.name == name,
            r.state == TaskState::Pending,
            r.progress == TaskProgress::new_spec(total),
            r.error is None,
    {
        Self { id, name, state: TaskState::Pending, progress: TaskProgress::new(total), error: None }
    }
}

impl TaskProgress {
    pub open spec fn new_spec(total: u64) -> TaskProgress {
        TaskProgress { completed: 0, total, percentage: 0 }
    }
}

impl Clone for TaskSnapshot {
    fn clone(&self) -> (r: Self)
        ensures
            r == *self,
    {
        let error = match &self.error {
            Some(message) => Some(message.clone()),
            None => None,
        };
        Self {
            id: self.id.clone(),
            name: self.name.clone(),
            state: self.state,
            progress: self.progress,
            error,
        }
    }
}

} // verus!
