//! Bounded background task queue with cooperative cancellation.
//!
//! The manager owns every task record. Worker threads take queued tasks with
//! [`TaskManager::next_queued`], start them, report progress, and finish them;
//! the manager decides each transition and publishes the matching lifecycle event.
use vstd::prelude::*;

use crate::domain::event::{AppEvent, AppEventView};
use crate::domain::task::{
    is_terminal_state, TaskId, TaskProgress, TaskSnapshot, TaskState,
};
use crate::event_bus::EventBus;
use crate::task_id::{lemma_task_id_text_injective, task_id_for, task_id_text};
use crate::text::{str_eq, trim, trim_seq};

verus! {

pub const DEFAULT_QUEUE_CAPACITY: usize = 128;

pub const DEFAULT_WORKER_COUNT: usize = 2;

/// A job failure whose message is safe to show to the user.
#[derive(Debug, PartialEq, Eq)]
pub struct TaskFailure {
    public_message: String,
}

impl TaskFailure {
    pub closed spec fn spec_message(&self) -> Seq<char> {
        self.public_message@
    }

    pub fn new(public_message: &str) -> (r: Self)
        ensures
            r.spec_message() == public_message@,
    {
        Self { public_message: public_message.to_owned() }
    }

    pub fn into_public_message(self) -> (r: String)
        ensures
            r@ == self.spec_message(),
    {
        self.public_message
    }

    pub fn message(&self) -> (r: &str)
        ensures
            r@ == self.spec_message(),
    {
        self.public_message.as_str()
    }
}

#[derive(Debug, Clone, Copy, PartialEq, Eq, Structural)]
pub enum TaskManagerError {
    InvalidName,
    InvalidTotal,
    QueueUnavailable,
}

/// The `TaskFinished` events that cancelling every unfinished task of `tasks` publishes, in
/// task order.
pub open spec fn cancellation_events(tasks: Seq<TaskSnapshot>) -> Seq<AppEventView>
    decreases tasks.len(),
{
    if tasks.len() == 0 {
        Seq::empty()
    } else {
        let rest = cancellation_events(tasks.drop_last());
        let task = tasks.last();
        if is_terminal_state(task.state) {
            rest
        } else {
            rest.push(
                AppEventView::TaskFinished {
                    task: TaskSnapshot { state: TaskState::Cancelled, error: None, ..task },
                },
            )
        }
    }
}

/// The fixed text of each task manager error.
pub open spec fn task_error_text(error: TaskManagerError) -> Seq<char> {
    match error {
        TaskManagerError::InvalidName => "task name must not be empty"@,
        TaskManagerError::InvalidTotal => "task total must be greater than zero"@,
        TaskManagerError::QueueUnavailable => "task queue is full or closed"@,
    }
}

impl TaskManagerError {
    pub fn message(&self) -> (r: &'static str)
        ensures
            r@ == task_error_text(*self),
    {
        match self {
            TaskManagerError::InvalidName => "task name must not be empty",
            TaskManagerError::InvalidTotal => "task total must be greater than zero",
            TaskManagerError::QueueUnavailable => "task queue is full or closed",
        }
    }
}

/// The handle a running job uses to observe cancellation and report progress.
#[derive(Debug)]
pub struct TaskContext {
    id: TaskId,
}

impl TaskContext {
    pub closed spec fn spec_id(&self) -> TaskId {
        self.id
    }

    pub fn id(&self) -> (r: &TaskId)
        ensures
            *r == self.spec_id(),
    {
        &self.id
    }

    /// True once cancellation of the job was asked for.
    pub fn is_cancelled(&self, manager: &TaskManager) -> (r: bool)
        requires
            manager.wf(),
        ensures
            r == manager.cancellation_requested(self.spec_id().0@),
    {
        manager.is_cancelled(&self.id)
    }

    /// Reports absolute completed work (clamped to the total). Returns false when the task
    /// was cancelled or is no longer running.
    pub fn report_progress(&self, manager: &mut TaskManager, completed: u64) -> (r: bool)
        requires
            old(manager).wf(),
        ensures
            final(manager).wf(),
            manager_progress_post(*old(manager), *final(manager), self.spec_id().0@, completed, r),
    {
        manager.report_progress(&self.id, completed)
    }
}

struct TaskRecord {
    snapshot: TaskSnapshot,
    cancelled: bool,
    sequence: Ghost<nat>,
}

/// The owner of all task records and of the queue of tasks waiting for a worker.
pub struct TaskManager {
    records: Vec<TaskRecord>,
    queue: Vec<TaskId>,
    queue_capacity: usize,
    worker_count: usize,
    accepting: bool,
    next_id: u64,
    issued: Ghost<nat>,
    events: EventBus,
}

/// Whether `i` is the first position of a task with identifier `id`.
pub open spec fn is_first_index(tasks: Seq<TaskSnapshot>, id: Seq<char>, i: int) -> bool {
    &&& 0 <= i < tasks.len()
    &&& tasks[i].id.0@ == id
    &&& forall|j: int| 0 <= j < i ==> #[trigger] tasks[j].id.0@ != id
}

/// Index of the first task whose identifier is `id`, if any.
pub open spec fn task_index(tasks: Seq<TaskSnapshot>, id: Seq<char>) -> Option<int> {
    if exists|i: int| #[trigger] is_first_index(tasks, id, i) {
        Some(choose|i: int| #[trigger] is_first_index(tasks, id, i))
    } else {
        None
    }
}

/// Whether a task may still move from `state` on a start or finish request.
pub open spec fn can_progress(state: TaskState, cancelled: bool) -> bool {
    !cancelled && !is_terminal_state(state)
}

/// What `report_progress` does: on a running, not cancelled task it records clamped progress and
/// publishes `TaskProgressed`; otherwise it changes nothing and answers false.
pub open spec fn manager_progress_post(
    pre: TaskManager,
    post: TaskManager,
    id: Seq<char>,
    completed: u64,
    r: bool,
) -> bool {
    match task_index(pre.tasks(), id) {
        Some(i) => {
            let task = pre.tasks()[i];
            let accepted = !pre.cancelled_flags()[i] && task.state == TaskState::Running;
            let progress = TaskProgress {
                completed: if completed < task.progress.total {
                    completed
                } else {
                    task.progress.total
                },
                total: task.progress.total,
                percentage: post.tasks()[i].progress.percentage,
            };
            &&& r == accepted
            &&& accepted ==> {
                &&& post.tasks() == pre.tasks().update(i, TaskSnapshot { progress, ..task })
                &&& progress.wf()
                &&& post.cancelled_flags() == pre.cancelled_flags()
                &&& post.queued() == pre.queued()
                &&& post.published() == pre.published().push(
                    AppEventView::TaskProgressed { task: post.tasks()[i] },
                )
            }
            &&& !accepted ==> post.same_state(pre)
        },
        None => !r && post.same_state(pre),
    }
}

impl TaskManager {
    /// Task snapshots in creation order.
    pub closed spec fn tasks(&self) -> Seq<TaskSnapshot> {
        self.records@.map_values(|record: TaskRecord| record.snapshot)
    }

    /// Cancellation flags, aligned with `tasks()`.
    pub closed spec fn cancelled_flags(&self) -> Seq<bool> {
        self.records@.map_values(|record: TaskRecord| record.cancelled)
    }

    /// Sequence numbers the tasks' identifiers were made from, aligned with `tasks()`.
    pub closed spec fn sequences(&self) -> Seq<nat> {
        self.records@.map_values(|record: TaskRecord| record.sequence@)
    }

    /// Identifiers of tasks waiting for a worker, oldest first.
    pub closed spec fn queued(&self) -> Seq<TaskId> {
        self.queue@
    }

    pub closed spec fn is_accepting(&self) -> bool {
        self.accepting
    }

    pub closed spec fn spec_queue_capacity(&self) -> usize {
        self.queue_capacity
    }

    pub closed spec fn spec_worker_count(&self) -> usize {
        self.worker_count
    }

    /// How many identifiers were handed out so far.
    pub closed spec fn issued_ids(&self) -> nat {
        self.issued@
    }

    pub closed spec fn spec_events(&self) -> EventBus {
        self.events
    }

    /// Every lifecycle event this manager published, in order.
    pub open spec fn published(&self) -> Seq<AppEventView> {
        self.spec_events().published().map_values(|envelope: crate::domain::event::EventEnvelopeView| envelope.event)
    }

    /// Whether cancellation was requested for the task `id` (false for unknown tasks).
    pub open spec fn cancellation_requested(&self, id: Seq<char>) -> bool {
        match task_index(self.tasks(), id) {
            Some(i) => self.cancelled_flags()[i],
            None => false,
        }
    }

    /// Everything observable is unchanged.
    pub open spec fn same_state(&self, other: TaskManager) -> bool {
        &&& self.tasks() == other.tasks()
        &&& self.cancelled_flags() == other.cancelled_flags()
        &&& self.queued() == other.queued()
        &&& self.is_accepting() == other.is_accepting()
        &&& self.published() == other.published()
    }

    pub closed spec fn wf(&self) -> bool {
        let tasks = self.tasks();
        let sequences = self.sequences();
        &&& self.events.wf()
        &&& self.queue_capacity > 0
        &&& self.worker_count > 0
        &&& self.next_id as nat == (self.issued@ + 1) % 0x1_0000_0000_0000_0000
        &&& forall|i: int| 0 <= i < tasks.len() ==> #[trigger] tasks[i].progress.wf()
        &&& forall|i: int|
            0 <= i < tasks.len() ==> #[trigger] tasks[i].id.0@ == task_id_text(
                sequences[i] % 0x1_0000_0000_0000_0000,
            )
        &&& forall|i: int| 0 <= i < tasks.len() ==> 1 <= #[trigger] sequences[i] <= self.issued@
        &&& forall|i: int, j: int| 0 <= i < j < tasks.len() ==> sequences[i] < sequences[j]
        &&& forall|i: int|
            0 <= i < tasks.len() ==> (#[trigger] self.cancelled_flags()[i] ==> tasks[i].state
                == TaskState::Cancelled)
    }

    /// A manager with room for `queue_capacity` waiting tasks and `worker_count` workers.
    pub fn new(queue_capacity: usize, worker_count: usize) -> (r: Self)
        requires
            queue_capacity > 0,
            worker_count > 0,
        ensures
            r.wf(),
            r.tasks() == Seq::<TaskSnapshot>::empty(),
            r.queued() == Seq::<TaskId>::empty(),
            r.is_accepting(),
            r.spec_queue_capacity() == queue_capacity,
            r.spec_worker_count() == worker_count,
            r.published() == Seq::<AppEventView>::empty(),
    {
        Self::with_event_bus(queue_capacity, worker_count, EventBus::default())
    }

    /// A manager with the default queue and worker sizes, publishing on `events`.
    pub fn with_events(events: EventBus) -> (r: Self)
        requires
            events.wf(),
        ensures
            r.wf(),
            r.tasks() == Seq::<TaskSnapshot>::empty(),
            r.is_accepting(),
            r.spec_queue_capacity() == DEFAULT_QUEUE_CAPACITY,
            r.spec_worker_count() == DEFAULT_WORKER_COUNT,
            r.spec_events() == events,
    {
        Self::with_event_bus(DEFAULT_QUEUE_CAPACITY, DEFAULT_WORKER_COUNT, events)
    }

    pub fn with_event_bus(queue_capacity: usize, worker_count: usize, events: EventBus) -> (r: Self)
        requires
            queue_capacity > 0,
            worker_count > 0,
            events.wf(),
        ensures
            r.wf(),
            r.tasks() == Seq::<TaskSnapshot>::empty(),
            r.queued() == Seq::<TaskId>::empty(),
            r.is_accepting(),
            r.spec_queue_capacity() == queue_capacity,
            r.spec_worker_count() == worker_count,
            r.spec_events() == events,
    {
        let manager = TaskManager {
            records: Vec::new(),
            queue: Vec::new(),
            queue_capacity,
            worker_count,
            accepting: true,
            next_id: 1,
            issued: Ghost(0),
            events,
        };
        assert(manager.tasks() =~= Seq::<TaskSnapshot>::empty());
        manager
    }

    pub fn worker_count(&self) -> (r: usize)
        ensures
            r == self.spec_worker_count(),
    {
        self.worker_count
    }

    pub fn event_bus(&self) -> (r: &EventBus)
        ensures
            *r == self.spec_events(),
    {
        &self.events
    }

    fn position_of(&self, id: &TaskId) -> (r: Option<usize>)
        requires
            self.wf(),
        ensures
            r matches Some(i) ==> task_index(self.tasks(), id.0@) == Some(i as int) && i
                < self.tasks().len(),
            r is None ==> task_index(self.tasks(), id.0@) is None,
    {
        let mut i: usize = 0;
        while i < self.records.len()
            invariant
                self.wf(),
                0 <= i <= self.records@.len(),
                forall|j: int| 0 <= j < i ==> self.tasks()[j].id.0@ != id.0@,
            decreases self.records@.len() - i,
        {
            if str_eq(self.records[i].snapshot.id.as_str(), id.as_str()) {
                proof {
                    assert(is_first_index(self.tasks(), id.0@, i as int));
                    let k = choose|k: int| #[trigger] is_first_index(self.tasks(), id.0@, k);
                    if k < i {
                        assert(self.tasks()[k].id.0@ != id.0@);
                    }
                    if k > i {
                        assert(self.tasks()[i as int].id.0@ != id.0@);
                    }
                }
                return Some(i);
            }
            i = i + 1;
        }
        proof {
            if exists|k: int| #[trigger] is_first_index(self.tasks(), id.0@, k) {
                let k = choose|k: int| #[trigger] is_first_index(self.tasks(), id.0@, k);
                assert(self.tasks()[k].id.0@ == id.0@);
            }
        }
        None
    }


    /// Whether cancellation was requested for task `id`; false for an unknown task.
    pub fn is_cancelled(&self, id: &TaskId) -> (r: bool)
        requires
            self.wf(),
        ensures
            r == self.cancellation_requested(id.0@),
    {
        match self.position_of(id) {
            Some(i) => {
                assert(self.cancelled_flags()[i as int] == self.records@[i as int].cancelled);
                self.records[i].cancelled
            },
            None => false,
        }
    }

    fn set_record(&mut self, i: usize, snapshot: TaskSnapshot, cancelled: bool)
        requires
            old(self).wf(),
            i < old(self).records@.len(),
            snapshot.id == old(self).tasks()[i as int].id,
            snapshot.progress.wf(),
            cancelled ==> snapshot.state == TaskState::Cancelled,
        ensures
            final(self).wf(),
            final(self).tasks() == old(self).tasks().update(i as int, snapshot),
            final(self).cancelled_flags() == old(self).cancelled_flags().update(i as int, cancelled),
            final(self).sequences() == old(self).sequences(),
            final(self).queue == old(self).queue,
            final(self).queue_capacity == old(self).queue_capacity,
            final(self).worker_count == old(self).worker_count,
            final(self).accepting == old(self).accepting,
            final(self).next_id == old(self).next_id,
            final(self).issued == old(self).issued,
            final(self).events == old(self).events,
    {
        let sequence: Ghost<nat> = Ghost(self.records@[i as int].sequence@);
        self.records.set(i, TaskRecord { snapshot, cancelled, sequence });
        assert(self.tasks() =~= old(self).tasks().update(i as int, snapshot));
        assert(self.cancelled_flags() =~= old(self).cancelled_flags().update(i as int, cancelled));
        assert(self.sequences() =~= old(self).sequences());
        proof {
            let tasks = self.tasks();
            assert forall|k: int| 0 <= k < tasks.len() implies #[trigger] tasks[k].progress.wf() by {
                if k != i {
                    assert(tasks[k] == old(self).tasks()[k]);
                }
            }
            assert forall|k: int| 0 <= k < tasks.len() && #[trigger] self.cancelled_flags()[k]
                implies tasks[k].state == TaskState::Cancelled by {
                if k != i {
                    assert(tasks[k] == old(self).tasks()[k]);
                    assert(self.cancelled_flags()[k] == old(self).cancelled_flags()[k]);
                }
            }
        }
    }

    /// Records absolute completed work for a running task (clamped to its total) and publishes
    /// `TaskProgressed`. Returns false, changing nothing, when the task is unknown, cancelled or
    /// not running.
    pub fn report_progress(&mut self, id: &TaskId, completed: u64) -> (r: bool)
        requires
            old(self).wf(),
        ensures
            final(self).wf(),
            manager_progress_post(*old(self), *final(self), id.0@, completed, r),
    {
        let i = match self.position_of(id) {
            Some(i) => i,
            None => return false,
        };
        assert(self.tasks()[i as int] == self.records@[i as int].snapshot);
        assert(self.cancelled_flags()[i as int] == self.records@[i as int].cancelled);
        if self.records[i].cancelled || self.records[i].snapshot.state != TaskState::Running {
            return false;
        }
        let mut snapshot = self.records[i].snapshot.clone();
        snapshot.progress.update(completed);
        let published = snapshot.clone();
        self.set_record(i, snapshot, false);
        assert(self.cancelled_flags() =~= old(self).cancelled_flags());
        self.events.publish(AppEvent::TaskProgressed { task: published });
        proof {
            assert(self.published() =~= old(self).published().push(
                AppEventView::TaskProgressed { task: self.tasks()[i as int] },
            ));
        }
        true
    }

    /// Queues a new task named `name` (trimmed) with `total` units of work.
    pub fn submit(&mut self, name: &str, total: u64) -> (r: Result<TaskSnapshot, TaskManagerError>)
        requires
            old(self).wf(),
        ensures
            final(self).wf(),
            trim_seq(name@).len() == 0 ==> r == Err::<TaskSnapshot, _>(TaskManagerError::InvalidName),
            trim_seq(name@).len() != 0 && total == 0 ==> r == Err::<TaskSnapshot, _>(
                TaskManagerError::InvalidTotal,
            ),
            trim_seq(name@).len() == 0 || total == 0 ==> final(self).same_state(*old(self))
                && final(self).issued_ids() == old(self).issued_ids(),
            trim_seq(name@).len() != 0 && total != 0 ==> final(self).issued_ids() == old(
                self,
            ).issued_ids() + 1,
            trim_seq(name@).len() != 0 && total != 0 && (!old(self).is_accepting()
                || old(self).queued().len() >= old(self).spec_queue_capacity()) ==> r == Err::<
                TaskSnapshot,
                _,
            >(TaskManagerError::QueueUnavailable) && final(self).same_state(*old(self)),
            trim_seq(name@).len() != 0 && total != 0 && old(self).is_accepting() && old(
                self,
            ).queued().len() < old(self).spec_queue_capacity() ==> r is Ok,
            r matches Ok(snapshot) ==> {
                &&& old(self).is_accepting()
                &&& old(self).queued().len() < old(self).spec_queue_capacity()
                &&& snapshot.id.0@ == task_id_text((old(self).issued_ids() + 1) % 0x1_0000_0000_0000_0000)
                &&& snapshot.name@ == trim_seq(name@)
                &&& snapshot.state == TaskState::Pending
                &&& snapshot.progress == TaskProgress::new_spec(total)
                &&& snapshot.error is None
                &&& final(self).tasks() == old(self).tasks().push(snapshot)
                &&& final(self).cancelled_flags() == old(self).cancelled_flags().push(false)
                &&& final(self).queued() == old(self).queued().push(snapshot.id)
                &&& final(self).is_accepting() == old(self).is_accepting()
                &&& final(self).published() == old(self).published().push(
                    AppEventView::TaskCreated { task: snapshot },
                )
            },
            final(self).spec_queue_capacity() == old(self).spec_queue_capacity(),
    {
        let trimmed = trim(name);
        if trimmed.unicode_len() == 0 {
            return Err(TaskManagerError::InvalidName);
        }
        if total == 0 {
            return Err(TaskManagerError::InvalidTotal);
        }
        let sequence = self.next_id;
        proof {
            Self::lemma_counter_step(self.next_id, self.issued@);
        }
        self.next_id = if self.next_id == u64::MAX {
            0
        } else {
            self.next_id + 1
        };
        let ghost issued = self.issued@ + 1;
        self.issued = Ghost(issued);
        assert(self.sequences() == old(self).sequences());
        assert(self.tasks() == old(self).tasks());
        assert(self.cancelled_flags() == old(self).cancelled_flags());
        if !self.accepting || self.queue.len() >= self.queue_capacity {
            return Err(TaskManagerError::QueueUnavailable);
        }
        let id = task_id_for(sequence);
        let snapshot = TaskSnapshot::pending(id.clone(), trimmed.to_owned(), total);
        let record = TaskRecord { snapshot: snapshot.clone(), cancelled: false, sequence: Ghost(issued) };
        let ghost old_tasks = self.tasks();
        let ghost old_flags = self.cancelled_flags();
        let ghost old_sequences = self.sequences();
        self.records.push(record);
        self.queue.push(id);
        self.events.publish(AppEvent::TaskCreated { task: snapshot.clone() });
        proof {
            assert(self.tasks() =~= old_tasks.push(snapshot));
            assert(self.cancelled_flags() =~= old_flags.push(false));
            assert(self.sequences() =~= old_sequences.push(issued));
            let sequences = self.sequences();
            let n = old_sequences.len() as int;
            assert forall|a: int, b: int| 0 <= a < b < sequences.len() implies sequences[a]
                < sequences[b] by {
                if b < n {
                    assert(sequences[a] == old_sequences[a]);
                    assert(sequences[b] == old_sequences[b]);
                } else {
                    assert(sequences[a] == old_sequences[a]);
                    assert(old_sequences[a] <= old(self).issued@);
                }
            }
            assert forall|a: int| 0 <= a < sequences.len() implies 1 <= #[trigger] sequences[a]
                <= issued by {
                if a < n {
                    assert(sequences[a] == old_sequences[a]);
                }
            }
            assert(self.published() =~= old(self).published().push(
                AppEventView::TaskCreated { task: snapshot },
            ));
        }
        Ok(snapshot)
    }

    /// The latest snapshot of task `id`.
    pub fn get(&self, id: &TaskId) -> (r: Option<TaskSnapshot>)
        requires
            self.wf(),
        ensures
            r == (match task_index(self.tasks(), id.0@) {
                Some(i) => Some(self.tasks()[i]),
                None => None::<TaskSnapshot>,
            }),
    {
        match self.position_of(id) {
            Some(i) => {
                assert(self.tasks()[i as int] == self.records@[i as int].snapshot);
                Some(self.records[i].snapshot.clone())
            },
            None => None,
        }
    }

    /// Snapshots of every task, in creation order.
    pub fn list(&self) -> (r: Vec<TaskSnapshot>)
        requires
            self.wf(),
        ensures
            r@ == self.tasks(),
    {
        let mut out: Vec<TaskSnapshot> = Vec::new();
        let mut i: usize = 0;
        while i < self.records.len()
            invariant
                0 <= i <= self.records@.len(),
                out@ == self.tasks().take(i as int),
            decreases self.records@.len() - i,
        {
            out.push(self.records[i].snapshot.clone());
            i = i + 1;
            assert(out@ =~= self.tasks().take(i as int));
        }
        assert(self.tasks().take(i as int) =~= self.tasks());
        out
    }

    /// Requests cooperative cancellation. A task not yet in a terminal state becomes
    /// `Cancelled` at once (publishing `TaskFinished`); a terminal task is left as it is.
    pub fn cancel(&mut self, id: &TaskId) -> (r: Option<TaskSnapshot>)
        requires
            old(self).wf(),
        ensures
            final(self).wf(),
            match task_index(old(self).tasks(), id.0@) {
                None => r is None && final(self).same_state(*old(self)),
                Some(i) => {
                    let task = old(self).tasks()[i];
                    if is_terminal_state(task.state) {
                        r == Some(task) && final(self).same_state(*old(self))
                    } else {
                        let cancelled = TaskSnapshot { state: TaskState::Cancelled, error: None, ..task };
                        &&& r == Some(cancelled)
                        &&& final(self).tasks() == old(self).tasks().update(i, cancelled)
                        &&& final(self).cancelled_flags() == old(self).cancelled_flags().update(i, true)
                        &&& final(self).queued() == old(self).queued()
                        &&& final(self).is_accepting() == old(self).is_accepting()
                        &&& final(self).published() == old(self).published().push(
                            AppEventView::TaskFinished { task: cancelled },
                        )
                    }
                },
            },
            final(self).spec_queue_capacity() == old(self).spec_queue_capacity(),
            final(self).issued_ids() == old(self).issued_ids(),
    {
        let i = match self.position_of(id) {
            Some(i) => i,
            None => return None,
        };
        assert(self.tasks()[i as int] == self.records@[i as int].snapshot);
        assert(self.cancelled_flags()[i as int] == self.records@[i as int].cancelled);
        let mut snapshot = self.records[i].snapshot.clone();
        if snapshot.state.is_terminal() {
            return Some(snapshot);
        }
        snapshot.state = TaskState::Cancelled;
        snapshot.error = None;
        let result = snapshot.clone();
        let published = snapshot.clone();
        self.set_record(i, snapshot, true);
        self.events.publish(AppEvent::TaskFinished { task: published });
        proof {
            assert(self.published() =~= old(self).published().push(
                AppEventView::TaskFinished { task: result },
            ));
        }
        Some(result)
    }

    /// The oldest queued task, removed from the queue; `None` when nothing waits.
    pub fn next_queued(&mut self) -> (r: Option<TaskId>)
        requires
            old(self).wf(),
        ensures
            final(self).wf(),
            old(self).queued().len() == 0 ==> r is None && final(self).queued() == old(self).queued(),
            old(self).queued().len() > 0 ==> r == Some(old(self).queued()[0]) && final(self).queued()
                == old(self).queued().drop_first(),
            final(self).tasks() == old(self).tasks(),
            final(self).cancelled_flags() == old(self).cancelled_flags(),
            final(self).is_accepting() == old(self).is_accepting(),
            final(self).published() == old(self).published(),
            final(self).issued_ids() == old(self).issued_ids(),
            final(self).spec_queue_capacity() == old(self).spec_queue_capacity(),
    {
        if self.queue.len() == 0 {
            return None;
        }
        let id = self.queue.remove(0);
        assert(self.queue@ =~= old(self).queue@.drop_first());
        assert(self.sequences() == old(self).sequences());
        assert(self.tasks() == old(self).tasks());
        assert(self.cancelled_flags() == old(self).cancelled_flags());
        Some(id)
    }

    /// Moves a pending task to `Running` and publishes `TaskStarted`. Returns the job's context,
    /// or `None` (changing nothing) for an unknown, cancelled or finished task.
    pub fn start(&mut self, id: &TaskId) -> (r: Option<TaskContext>)
        requires
            old(self).wf(),
        ensures
            final(self).wf(),
            match task_index(old(self).tasks(), id.0@) {
                None => r is None && final(self).same_state(*old(self)),
                Some(i) => {
                    let task = old(self).tasks()[i];
                    if can_progress(task.state, old(self).cancelled_flags()[i]) {
                        let running = TaskSnapshot { state: TaskState::Running, error: None, ..task };
                        &&& r matches Some(context) && context.spec_id() == task.id
                        &&& final(self).tasks() == old(self).tasks().update(i, running)
                        &&& final(self).cancelled_flags() == old(self).cancelled_flags()
                        &&& final(self).queued() == old(self).queued()
                        &&& final(self).is_accepting() == old(self).is_accepting()
                        &&& final(self).published() == old(self).published().push(
                            AppEventView::TaskStarted { task: running },
                        )
                    } else {
                        r is None && final(self).same_state(*old(self))
                    }
                },
            },
            final(self).spec_queue_capacity() == old(self).spec_queue_capacity(),
            final(self).issued_ids() == old(self).issued_ids(),
    {
        let i = match self.position_of(id) {
            Some(i) => i,
            None => return None,
        };
        assert(self.tasks()[i as int] == self.records@[i as int].snapshot);
        assert(self.cancelled_flags()[i as int] == self.records@[i as int].cancelled);
        if self.records[i].cancelled || self.records[i].snapshot.state.is_terminal() {
            return None;
        }
        let mut snapshot = self.records[i].snapshot.clone();
        snapshot.state = TaskState::Running;
        snapshot.error = None;
        let context = TaskContext { id: snapshot.id.clone() };
        let published = snapshot.clone();
        self.set_record(i, snapshot, false);
        self.events.publish(AppEvent::TaskStarted { task: published });
        proof {
            assert(self.published() =~= old(self).published().push(
                AppEventView::TaskStarted { task: self.tasks()[i as int] },
            ));
        }
        Some(context)
    }

    /// Completes a task whose job returned successfully: progress goes to its total, the state
    /// to `Success`, and `TaskFinished` is published. Cancelled or finished tasks are left as
    /// they are.
    pub fn finish_success(&mut self, id: &TaskId)
        requires
            old(self).wf(),
        ensures
            final(self).wf(),
            match task_index(old(self).tasks(), id.0@) {
                Some(i) if can_progress(old(self).tasks()[i].state, old(self).cancelled_flags()[i]) => {
                    let task = old(self).tasks()[i];
                    let done = TaskSnapshot {
                        state: TaskState::Success,
                        error: None,
                        progress: TaskProgress {
                            completed: task.progress.total,
                            total: task.progress.total,
                            percentage: if task.progress.total == 0 { 0 } else { 100 },
                        },
                        ..task
                    };
                    &&& final(self).tasks() == old(self).tasks().update(i, done)
                    &&& final(self).cancelled_flags() == old(self).cancelled_flags()
                    &&& final(self).queued() == old(self).queued()
                    &&& final(self).is_accepting() == old(self).is_accepting()
                    &&& final(self).published() == old(self).published().push(
                        AppEventView::TaskFinished { task: done },
                    )
                },
                _ => final(self).same_state(*old(self)),
            },
            final(self).spec_queue_capacity() == old(self).spec_queue_capacity(),
            final(self).issued_ids() == old(self).issued_ids(),
    {
        let i = match self.position_of(id) {
            Some(i) => i,
            None => return,
        };
        assert(self.tasks()[i as int] == self.records@[i as int].snapshot);
        assert(self.cancelled_flags()[i as int] == self.records@[i as int].cancelled);
        if self.records[i].cancelled || self.records[i].snapshot.state.is_terminal() {
            return;
        }
        let mut snapshot = self.records[i].snapshot.clone();
        snapshot.progress.complete();
        snapshot.state = TaskState::Success;
        snapshot.error = None;
        let published = snapshot.clone();
        self.set_record(i, snapshot, false);
        self.events.publish(AppEvent::TaskFinished { task: published });
        proof {
            assert(self.published() =~= old(self).published().push(
                AppEventView::TaskFinished { task: self.tasks()[i as int] },
            ));
        }
    }

    /// Records a job failure with its public message: the state becomes `Failed` and
    /// `TaskFinished` is published. Cancelled or finished tasks are left as they are.
    pub fn finish_failure(&mut self, id: &TaskId, public_message: String)
        requires
            old(self).wf(),
        ensures
            final(self).wf(),
            match task_index(old(self).tasks(), id.0@) {
                Some(i) if can_progress(old(self).tasks()[i].state, old(self).cancelled_flags()[i]) => {
                    let task = old(self).tasks()[i];
                    let failed = TaskSnapshot {
                        state: TaskState::Failed,
                        error: Some(public_message),
                        ..task
                    };
                    &&& final(self).tasks() == old(self).tasks().update(i, failed)
                    &&& final(self).cancelled_flags() == old(self).cancelled_flags()
                    &&& final(self).queued() == old(self).queued()
                    &&& final(self).is_accepting() == old(self).is_accepting()
                    &&& final(self).published() == old(self).published().push(
                        AppEventView::TaskFinished { task: failed },
                    )
                },
                _ => final(self).same_state(*old(self)),
            },
            final(self).spec_queue_capacity() == old(self).spec_queue_capacity(),
            final(self).issued_ids() == old(self).issued_ids(),
    {
        let i = match self.position_of(id) {
            Some(i) => i,
            None => return,
        };
        assert(self.tasks()[i as int] == self.records@[i as int].snapshot);
        assert(self.cancelled_flags()[i as int] == self.records@[i as int].cancelled);
        if self.records[i].cancelled || self.records[i].snapshot.state.is_terminal() {
            return;
        }
        let mut snapshot = self.records[i].snapshot.clone();
        snapshot.state = TaskState::Failed;
        snapshot.error = Some(public_message);
        let published = snapshot.clone();
        self.set_record(i, snapshot, false);
        self.events.publish(AppEvent::TaskFinished { task: published });
        proof {
            assert(self.published() =~= old(self).published().push(
                AppEventView::TaskFinished { task: self.tasks()[i as int] },
            ));
        }
    }

    /// Stops accepting work and cancels every task not yet in a terminal state, publishing
    /// `TaskFinished` for each in creation order. Returns how many tasks were cancelled.
    pub fn shutdown(&mut self) -> (r: usize)
        requires
            old(self).wf(),
        ensures
            final(self).wf(),
            !final(self).is_accepting(),
            final(self).tasks().len() == old(self).tasks().len(),
            forall|i: int|
                0 <= i < old(self).tasks().len() ==> #[trigger] final(self).tasks()[i] == (if is_terminal_state(
                    old(self).tasks()[i].state,
                ) {
                    old(self).tasks()[i]
                } else {
                    TaskSnapshot { state: TaskState::Cancelled, error: None, ..old(self).tasks()[i] }
                }),
            forall|i: int|
                0 <= i < old(self).tasks().len() ==> #[trigger] final(self).cancelled_flags()[i] == (
                old(self).cancelled_flags()[i] || !is_terminal_state(old(self).tasks()[i].state)),
            forall|i: int|
                0 <= i < final(self).tasks().len() ==> is_terminal_state(
                    #[trigger] final(self).tasks()[i].state,
                ),
            r == final(self).published().len() - old(self).published().len(),
            final(self).published() == old(self).published() + cancellation_events(old(self).tasks()),
            r == cancellation_events(old(self).tasks()).len(),
            final(self).queued() == old(self).queued(),
            final(self).spec_queue_capacity() == old(self).spec_queue_capacity(),
            final(self).issued_ids() == old(self).issued_ids(),
    {
        self.accepting = false;
        assert(self.sequences() == old(self).sequences());
        assert(self.tasks() == old(self).tasks());
        assert(self.cancelled_flags() == old(self).cancelled_flags());
        let mut cancelled: usize = 0;
        let mut i: usize = 0;
        let ghost start = *self;
        while i < self.records.len()
            invariant
                self.wf(),
                !self.accepting,
                0 <= i <= self.records@.len(),
                self.records@.len() == old(self).records@.len(),
                cancelled <= i,
                self.published().len() == old(self).published().len() + cancelled,
                self.published() == old(self).published() + cancellation_events(
                    old(self).tasks().take(i as int),
                ),
                cancelled == cancellation_events(old(self).tasks().take(i as int)).len(),
                self.queued() == old(self).queued(),
                self.queue_capacity == old(self).queue_capacity,
                self.issued == old(self).issued,
                forall|k: int|
                    0 <= k < i ==> #[trigger] self.tasks()[k] == (if is_terminal_state(
                        old(self).tasks()[k].state,
                    ) {
                        old(self).tasks()[k]
                    } else {
                        TaskSnapshot { state: TaskState::Cancelled, error: None, ..old(self).tasks()[k] }
                    }),
                forall|k: int|
                    0 <= k < i ==> #[trigger] self.cancelled_flags()[k] == (old(
                        self,
                    ).cancelled_flags()[k] || !is_terminal_state(old(self).tasks()[k].state)),
                forall|k: int|
                    i <= k < self.records@.len() ==> #[trigger] self.tasks()[k] == old(self).tasks()[k]
                        && self.cancelled_flags()[k] == old(self).cancelled_flags()[k],
            decreases self.records@.len() - i,
        {
            assert(self.tasks()[i as int] == self.records@[i as int].snapshot);
            proof {
                let tasks = old(self).tasks();
                assert(tasks.take(i + 1).drop_last() =~= tasks.take(i as int));
                assert(tasks.take(i + 1).last() == tasks[i as int]);
            }
            if !self.records[i].snapshot.state.is_terminal() {
                let mut snapshot = self.records[i].snapshot.clone();
                snapshot.state = TaskState::Cancelled;
                snapshot.error = None;
                let published = snapshot.clone();
                self.set_record(i, snapshot, true);
                let ghost before = self.events.published();
                let ghost event = AppEvent::TaskFinished { task: published };
                self.events.publish(AppEvent::TaskFinished { task: published });
                proof {
                    let after = self.events.published();
                    let f = |envelope: crate::domain::event::EventEnvelopeView| envelope.event;
                    assert(after =~= before.push(after.last()));
                    assert(after.map_values(f) =~= before.map_values(f).push(event@));
                    assert(published == TaskSnapshot {
                        state: TaskState::Cancelled,
                        error: None,
                        ..old(self).tasks()[i as int]
                    });
                }
                cancelled = cancelled + 1;
            }
            i = i + 1;
        }
        proof {
            assert(old(self).tasks().take(old(self).tasks().len() as int) =~= old(self).tasks());
        }
        cancelled
    }

    proof fn lemma_counter_step(next_id: u64, issued: nat)
        requires
            next_id as nat == (issued + 1) % 0x1_0000_0000_0000_0000,
        ensures
            (if next_id == u64::MAX {
                0
            } else {
                next_id + 1
            }) == (issued + 2) % 0x1_0000_0000_0000_0000,
    {
        let m: int = 0x1_0000_0000_0000_0000;
        let n: int = issued as int;
        let q = (n + 1) / m;
        assert((n + 1) == q * m + next_id) by (nonlinear_arith)
            requires
                next_id as int == (n + 1) % m,
                q == (n + 1) / m,
                m > 0,
        ;
        if next_id == u64::MAX {
            assert(n + 2 == (q + 1) * m) by (nonlinear_arith)
                requires
                    n + 1 == q * m + next_id,
                    next_id == m - 1,
            ;
            assert((n + 2) % m == 0) by (nonlinear_arith)
                requires
                    n + 2 == (q + 1) * m,
                    m > 0,
                    q >= 0,
            ;
        } else {
            assert(n + 2 == q * m + (next_id + 1)) by (nonlinear_arith)
                requires
                    n + 1 == q * m + next_id,
            ;
            assert((n + 2) % m == next_id + 1) by (nonlinear_arith)
                requires
                    n + 2 == q * m + (next_id + 1),
                    0 <= next_id + 1 < m,
                    q >= 0,
            ;
        }
    }

    /// Task identifiers are unique: two tasks at different positions have different
    /// identifiers, as long as fewer than 2^64 identifiers were handed out.
    pub proof fn lemma_ids_distinct(&self, i: int, j: int)
        requires
            self.wf(),
            0 <= i < self.tasks().len(),
            0 <= j < self.tasks().len(),
            i != j,
        ensures
            self.issued_ids() < 0x1_0000_0000_0000_0000 ==> self.tasks()[i].id.0@
                != self.tasks()[j].id.0@,
    {
        if self.issued_ids() < 0x1_0000_0000_0000_0000 {
            let si = self.sequences()[i];
            let sj = self.sequences()[j];
            assert(si != sj);
            assert(si % 0x1_0000_0000_0000_0000 == si);
            assert(sj % 0x1_0000_0000_0000_0000 == sj);
            lemma_task_id_text_injective(si, sj);
        }
    }
}

impl Default for TaskManager {
    fn default() -> (r: Self)
        ensures
            r.wf(),
            r.tasks() == Seq::<TaskSnapshot>::empty(),
            r.is_accepting(),
            r.spec_queue_capacity() == DEFAULT_QUEUE_CAPACITY,
            r.spec_worker_count() == DEFAULT_WORKER_COUNT,
    {
        TaskManager::new(DEFAULT_QUEUE_CAPACITY, DEFAULT_WORKER_COUNT)
    }
}

/// Use cases over the task manager for the desktop shell.
pub struct TaskService;

impl TaskService {
    /// Queues a progress task of `total_steps` steps. The worker that runs it calls
    /// [`TaskService::progress_step`] once per step, waiting between steps.
    pub fn create_progress_task(manager: &mut TaskManager, name: &str, total_steps: u64) -> (r:
        Result<TaskSnapshot, TaskManagerError>)
        requires
            old(manager).wf(),
        ensures
            final(manager).wf(),
            trim_seq(name@).len() == 0 ==> r == Err::<TaskSnapshot, _>(TaskManagerError::InvalidName),
            trim_seq(name@).len() != 0 && total_steps == 0 ==> r == Err::<TaskSnapshot, _>(
                TaskManagerError::InvalidTotal,
            ),
            r matches Ok(snapshot) ==> snapshot.name@ == trim_seq(name@) && snapshot.state
                == TaskState::Pending && snapshot.progress == TaskProgress::new_spec(total_steps)
                && final(manager).tasks() == old(manager).tasks().push(snapshot),
    {
        manager.submit(name, total_steps)
    }

    /// One step of a progress task: unless cancellation was requested, records `completed`
    /// steps. Returns whether the job should go on.
    pub fn progress_step(manager: &mut TaskManager, context: &TaskContext, completed: u64) -> (r:
        bool)
        requires
            old(manager).wf(),
        ensures
            final(manager).wf(),
            old(manager).cancellation_requested(context.spec_id().0@) ==> !r
                && final(manager).same_state(*old(manager)),
            !old(manager).cancellation_requested(context.spec_id().0@) ==> manager_progress_post(
                *old(manager),
                *final(manager),
                context.spec_id().0@,
                completed,
                r,
            ),
    {
        if context.is_cancelled(manager) {
            return false;
        }
        context.report_progress(manager, completed)
    }

    pub fn get(manager: &TaskManager, id: &TaskId) -> (r: Option<TaskSnapshot>)
        requires
            manager.wf(),
        ensures
            r == (match task_index(manager.tasks(), id.0@) {
                Some(i) => Some(manager.tasks()[i]),
                None => None::<TaskSnapshot>,
            }),
    {
        manager.get(id)
    }

    pub fn list(manager: &TaskManager) -> (r: Vec<TaskSnapshot>)
        requires
            manager.wf(),
        ensures
            r@ == manager.tasks(),
    {
        manager.list()
    }

    pub fn cancel(manager: &mut TaskManager, id: &TaskId) -> (r: Option<TaskSnapshot>)
        requires
            old(manager).wf(),
        ensures
            final(manager).wf(),
            r == (match task_index(old(manager).tasks(), id.0@) {
                Some(i) => if is_terminal_state(old(manager).tasks()[i].state) {
                    Some(old(manager).tasks()[i])
                } else {
                    Some(TaskSnapshot { state: TaskState::Cancelled, error: None, ..old(manager).tasks()[i] })
                },
                None => None::<TaskSnapshot>,
            }),
    {
        manager.cancel(id)
    }
}

} // verus!
