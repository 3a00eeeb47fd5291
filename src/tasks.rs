//! The fixed task set and its scheduling rules: static priorities, a
//! priority ceiling for the shared BLE context, and a spawn queue that holds
//! at most one pending instance of each task.
use vstd::prelude::*;

verus! {

/// The tasks that drive the BLE core.
#[derive(Copy, Clone, PartialEq, Eq, Structural, Debug)]
pub enum Task {
    /// Handles a radio interrupt; highest priority.
    RadioEvent,
    /// Deferred protocol work spawned by `RadioEvent`.
    Worker,
    /// Periodic advertising; lowest priority.
    Advertiser,
}

/// Priority of the radio interrupt handler.
pub const RADIO_EVENT_PRIORITY: u8 = 8;

/// Priority of the deferred worker.
pub const WORKER_PRIORITY: u8 = 7;

/// Priority of the advertiser.
pub const ADVERTISER_PRIORITY: u8 = 1;

/// Priority of the idle loop: below every task.
pub const IDLE_PRIORITY: u8 = 0;

/// Ceiling of the shared BLE context: the highest priority among the tasks
/// that use it.
pub const BLE_CEILING: u8 = RADIO_EVENT_PRIORITY;

/// Time between two advertising events, in milliseconds.
pub const ADVERTISING_INTERVAL_MS: u64 = 1000;

impl Task {
    pub open spec fn spec_priority(self) -> u8 {
        match self {
            Task::RadioEvent => RADIO_EVENT_PRIORITY,
            Task::Worker => WORKER_PRIORITY,
            Task::Advertiser => ADVERTISER_PRIORITY,
        }
    }

    /// The static priority of the task.
    pub fn priority(&self) -> (r: u8)
        ensures
            r == self.spec_priority(),
            IDLE_PRIORITY < r <= BLE_CEILING,
    {
        match self {
            Task::RadioEvent => RADIO_EVENT_PRIORITY,
            Task::Worker => WORKER_PRIORITY,
            Task::Advertiser => ADVERTISER_PRIORITY,
        }
    }
}

/// The priority a task runs at while it holds the BLE context's lock: raised
/// to the ceiling, so that no other task using the context can preempt it.
pub open spec fn spec_locked_priority(running: u8) -> u8 {
    if running < BLE_CEILING {
        BLE_CEILING
    } else {
        running
    }
}

/// The priority to run at inside the BLE context's critical section.
pub fn locked_priority(running: u8) -> (r: u8)
    ensures
        r == spec_locked_priority(running),
        r >= running,
        r >= BLE_CEILING,
{
    if running < BLE_CEILING {
        BLE_CEILING
    } else {
        running
    }
}

/// Tasks spawned and not yet started; at most one instance of each.
pub struct TaskQueue {
    radio_event: bool,
    worker: bool,
    advertiser: bool,
}

impl TaskQueue {
    /// Whether an instance of `t` is pending.
    pub closed spec fn spec_pending(&self, t: Task) -> bool {
        match t {
            Task::RadioEvent => self.radio_event,
            Task::Worker => self.worker,
            Task::Advertiser => self.advertiser,
        }
    }

    /// An empty queue.
    pub fn new() -> (r: Self)
        ensures
            forall|t: Task| !r.spec_pending(t),
    {
        TaskQueue { radio_event: false, worker: false, advertiser: false }
    }

    /// Whether an instance of `t` is pending.
    pub fn is_pending(&self, t: Task) -> (r: bool)
        ensures
            r == self.spec_pending(t),
    {
        match t {
            Task::RadioEvent => self.radio_event,
            Task::Worker => self.worker,
            Task::Advertiser => self.advertiser,
        }
    }

    /// Makes `t` pending. When an instance is already pending nothing changes
    /// and `false` is returned.
    pub fn spawn(&mut self, t: Task) -> (spawned: bool)
        ensures
            spawned == !old(self).spec_pending(t),
            final(self).spec_pending(t),
            forall|u: Task| u != t ==> final(self).spec_pending(u) == old(self).spec_pending(u),
    {
        if self.is_pending(t) {
            return false;
        }
        match t {
            Task::RadioEvent => self.radio_event = true,
            Task::Worker => self.worker = true,
            Task::Advertiser => self.advertiser = true,
        }
        true
    }

    /// Starts the pending task of highest priority that may preempt code
    /// running at `running`, if any, and removes it from the queue.
    pub fn next(&mut self, running: u8) -> (r: Option<Task>)
        ensures
            match r {
                Some(t) => {
                    &&& old(self).spec_pending(t)
                    &&& t.spec_priority() > running
                    &&& !final(self).spec_pending(t)
                    &&& forall|u: Task| u != t ==> final(self).spec_pending(u) == old(self).spec_pending(u)
                    &&& forall|u: Task| #[trigger] old(self).spec_pending(u) && u.spec_priority() > running
                        ==> u.spec_priority() <= t.spec_priority()
                },
                None => {
                    &&& forall|u: Task| #[trigger] old(self).spec_pending(u) ==> u.spec_priority() <= running
                    &&& forall|u: Task| final(self).spec_pending(u) == old(self).spec_pending(u)
                },
            },
    {
        if self.radio_event && RADIO_EVENT_PRIORITY > running {
            self.radio_event = false;
            Some(Task::RadioEvent)
        } else if self.worker && WORKER_PRIORITY > running {
            self.worker = false;
            Some(Task::Worker)
        } else if self.advertiser && ADVERTISER_PRIORITY > running {
            self.advertiser = false;
            Some(Task::Advertiser)
        } else {
            None
        }
    }
}

/// While a task holds the BLE context's lock, no task that uses the context
/// is started, whatever is pending.
pub proof fn lemma_lock_excludes_tasks(running: u8, t: Task)
    ensures
        t.spec_priority() <= spec_locked_priority(running),
{
}

} // verus!
