use vstd::prelude::*;

use crate::stack::StackSize;

verus! {

/// Lifecycle of a coroutine.
#[allow(non_camel_case_types)]
#[derive(Clone, Copy, Debug, PartialEq, Eq, Structural)]
pub enum CoStatus {
    PENDING,
    READY,
    RUNNING,
    SUSPENDED,
    COMPLETED,
}

/// Position of a status along the lifecycle; RUNNING and SUSPENDED share one.
pub open spec fn status_rank(s: CoStatus) -> nat {
    match s {
        CoStatus::PENDING => 0,
        CoStatus::READY => 1,
        CoStatus::RUNNING => 2,
        CoStatus::SUSPENDED => 2,
        CoStatus::COMPLETED => 3,
    }
}

/// One observed move of a coroutine's status (staying put included).
pub open spec fn status_step(a: CoStatus, b: CoStatus) -> bool {
    a == b || match (a, b) {
        (CoStatus::PENDING, CoStatus::READY) => true,
        (CoStatus::READY, CoStatus::RUNNING) => true,
        (CoStatus::RUNNING, CoStatus::SUSPENDED) => true,
        (CoStatus::SUSPENDED, CoStatus::RUNNING) => true,
        (CoStatus::RUNNING, CoStatus::COMPLETED) => true,
        _ => false,
    }
}

/// Why a lifecycle operation was refused.
#[derive(Clone, Copy, Debug, PartialEq, Eq, Structural)]
pub enum CoError {
    /// The coroutine has no execution context yet.
    NotReady,
    /// The coroutine is already executing.
    AlreadyRunning,
}

/// What `resume` leaves the caller to do.
pub enum ResumeStep {
    /// Switch into the coroutine; the scope marks it current meanwhile.
    Enter(Scope),
    /// The coroutine has completed: no further work.
    Finished,
}

/// Per-thread marker of the coroutine that is current on the thread.
pub struct ThisThread {
    current: Option<usize>,
}

impl ThisThread {
    pub closed spec fn current_id(&self) -> Option<usize> {
        self.current
    }

    /// A thread on which no coroutine is current.
    pub fn new() -> (r: ThisThread)
        ensures
            r.current_id() is None,
    {
        ThisThread { current: None }
    }
}

/// The id of the coroutine current on `thread`, if any.
pub fn current(thread: &ThisThread) -> (r: Option<usize>)
    ensures
        r == thread.current_id(),
{
    thread.current
}

/// Whether no coroutine is current on `thread`.
pub fn current_is_none(thread: &ThisThread) -> (r: bool)
    ensures
        r == (thread.current_id() is None),
{
    thread.current.is_none()
}

/// Guard recording that one coroutine is current on a thread.
pub struct Scope {
    co: usize,
}

impl Scope {
    pub closed spec fn co(&self) -> usize {
        self.co
    }

    /// Marks coroutine `co` current on `thread`. A second current
    /// coroutine on a thread is a fatal scheduler error: the caller checks
    /// `current_is_none` first and aborts instead of calling.
    pub fn enter(thread: &mut ThisThread, co: usize) -> (r: Scope)
        requires
            old(thread).current_id() is None,
        ensures
            r.co() == co,
            final(thread).current_id() == Some(co),
    {
        thread.current = Some(co);
        Scope { co }
    }

    /// Clears the marker set by `enter`. A marker that is empty or names
    /// another coroutine is a fatal scheduler error: the caller checks
    /// `current` first and aborts instead of calling.
    pub fn exit(self, thread: &mut ThisThread)
        requires
            old(thread).current_id() == Some(self.co()),
        ensures
            final(thread).current_id() is None,
    {
        thread.current = None;
    }
}


/// Scheduling bookkeeping of one coroutine: how often the runtime drove it,
/// and when it was created (a timestamp in milliseconds).
#[derive(Clone, Copy, Debug, PartialEq, Eq, Structural)]
pub struct SchedulerStatus {
    pub tick: u32,
    pub create_time: u64,
}

impl SchedulerStatus {
    /// No tick yet, created at `create_time`.
    pub fn new(create_time: u64) -> (r: SchedulerStatus)
        ensures
            r.tick == 0,
            r.create_time == create_time,
    {
        SchedulerStatus { tick: 0, create_time }
    }

    /// Counts one more drive; the count stays at `u32::MAX` once there.
    pub fn add_tick(&mut self)
        ensures
            final(self).create_time == old(self).create_time,
            final(self).tick == if old(self).tick == u32::MAX {
                u32::MAX
            } else {
                (old(self).tick + 1) as u32
            },
    {
        if self.tick < u32::MAX {
            self.tick = self.tick + 1;
        }
    }

    /// Milliseconds from creation to `now`; zero when `now` is earlier.
    pub fn elapsed(&self, now: u64) -> (r: u64)
        ensures
            r == if now >= self.create_time {
                (now - self.create_time) as u64
            } else {
                0u64
            },
    {
        if now >= self.create_time {
            now - self.create_time
        } else {
            0
        }
    }
}

/// A stackful unit of cooperative execution, seen as its lifecycle: the
/// execution context and the task itself live with the thread that runs it.
pub struct Coroutine {
    id: usize,
    status: CoStatus,
    panicking: Option<String>,
    task_taken: bool,
    stack_size: StackSize,
    schedule_status: SchedulerStatus,
}

impl Coroutine {
    pub closed spec fn id(&self) -> usize {
        self.id
    }

    pub closed spec fn status(&self) -> CoStatus {
        self.status
    }

    /// Whether the task closure has been handed out to run.
    pub closed spec fn task_taken(&self) -> bool {
        self.task_taken
    }

    pub closed spec fn panic_message(&self) -> Option<Seq<char>> {
        match self.panicking {
            Some(m) => Some(m@),
            None => None,
        }
    }

    pub closed spec fn stack(&self) -> StackSize {
        self.stack_size
    }

    pub closed spec fn sched(&self) -> SchedulerStatus {
        self.schedule_status
    }

    /// The task runs only once the context is built, and a finished
    /// coroutine has run it.
    pub open spec fn wf(&self) -> bool {
        &&& (self.status() == CoStatus::PENDING || self.status() == CoStatus::READY)
            ==> !self.task_taken()
        &&& (self.status() == CoStatus::SUSPENDED || self.status() == CoStatus::COMPLETED)
            ==> self.task_taken()
        &&& self.panic_message() is Some ==> self.status() == CoStatus::COMPLETED
    }

    /// What a mutating operation keeps.
    pub open spec fn same_identity(&self, o: &Coroutine) -> bool {
        &&& self.id() == o.id()
        &&& self.stack() == o.stack()
        &&& self.sched().create_time == o.sched().create_time
    }

    /// A coroutine numbered `id`, PENDING, or READY when `eager_init` asks
    /// for its context at once.
    pub fn new(id: usize, stack_size: StackSize, eager_init: bool, create_time: u64) -> (r:
        Coroutine)
        ensures
            r.wf(),
            r.id() == id,
            r.stack() == stack_size,
            r.status() == if eager_init {
                CoStatus::READY
            } else {
                CoStatus::PENDING
            },
            !r.task_taken(),
            r.panic_message() is None,
            r.sched().tick == 0,
            r.sched().create_time == create_time,
    {
        let mut co = Coroutine {
            id,
            status: CoStatus::PENDING,
            panicking: None,
            task_taken: false,
            stack_size,
            schedule_status: SchedulerStatus::new(create_time),
        };
        if eager_init {
            co.set_status(CoStatus::READY);
        }
        co
    }

    fn set_status(&mut self, status: CoStatus)
        requires
            status_step(old(self).status(), status),
        ensures
            final(self).status() == status,
            final(self).id() == old(self).id(),
            final(self).task_taken() == old(self).task_taken(),
            final(self).panic_message() == old(self).panic_message(),
            final(self).stack() == old(self).stack(),
            final(self).sched() == old(self).sched(),
    {
        self.status = status;
    }

    pub fn get_status(&self) -> (r: CoStatus)
        ensures
            r == self.status(),
    {
        self.status
    }

    pub fn get_co_id(&self) -> (r: usize)
        ensures
            r == self.id(),
    {
        self.id
    }

    pub fn get_stack_size(&self) -> (r: StackSize)
        ensures
            r == self.stack(),
    {
        self.stack_size
    }

    pub fn get_schedule_status(&self) -> (r: SchedulerStatus)
        ensures
            r == self.sched(),
    {
        self.schedule_status
    }

    /// The message of a panic that ended the task, if one did.
    pub fn get_panic(&self) -> (r: Option<String>)
        ensures
            r is Some <==> self.panic_message() is Some,
            r matches Some(m) ==> self.panic_message() == Some(m@),
    {
        match &self.panicking {
            Some(m) => Some(m.clone()),
            None => None,
        }
    }

    /// Builds the execution context: PENDING becomes READY. Refused, with
    /// nothing changed, in any other status, so a context is never rebuilt
    /// over a live stack.
    pub fn init(&mut self) -> (r: bool)
        requires
            old(self).wf(),
        ensures
            final(self).wf(),
            r == (old(self).status() == CoStatus::PENDING),
            r ==> final(self).status() == CoStatus::READY,
            !r ==> *final(self) == *old(self),
            final(self).same_identity(old(self)),
            status_step(old(self).status(), final(self).status()),
            final(self).task_taken() == old(self).task_taken(),
            final(self).panic_message() == old(self).panic_message(),
    {
        if self.status == CoStatus::PENDING {
            self.set_status(CoStatus::READY);
            true
        } else {
            false
        }
    }

    /// Entry of the running coroutine's trampoline: hands out the task
    /// closure. True exactly once, on the first entry of a running
    /// coroutine; the status does not change.
    pub fn run(&mut self) -> (r: bool)
        requires
            old(self).wf(),
        ensures
            final(self).wf(),
            r == (old(self).status() == CoStatus::RUNNING && !old(self).task_taken()),
            r ==> final(self).task_taken(),
            !r ==> *final(self) == *old(self),
            final(self).status() == old(self).status(),
            final(self).same_identity(old(self)),
            status_step(old(self).status(), final(self).status()),
            final(self).panic_message() == old(self).panic_message(),
    {
        if self.status == CoStatus::RUNNING && !self.task_taken {
            self.task_taken = true;
            true
        } else {
            false
        }
    }

    /// The running task yields back to its resumer: RUNNING becomes
    /// SUSPENDED. Refused, with nothing changed, in any other status.
    pub fn suspend(&mut self) -> (r: bool)
        requires
            old(self).wf(),
        ensures
            final(self).wf(),
            r == (old(self).status() == CoStatus::RUNNING && old(self).task_taken()),
            r ==> final(self).status() == CoStatus::SUSPENDED,
            !r ==> *final(self) == *old(self),
            final(self).same_identity(old(self)),
            status_step(old(self).status(), final(self).status()),
            final(self).task_taken() == old(self).task_taken(),
            final(self).panic_message() == old(self).panic_message(),
    {
        if self.status == CoStatus::RUNNING && self.task_taken {
            self.set_status(CoStatus::SUSPENDED);
            true
        } else {
            false
        }
    }

    /// The task returned, or panicked with `panic`: RUNNING becomes
    /// COMPLETED and the message is kept for whoever observes completion.
    /// Refused, with nothing changed, in any other status.
    pub fn complete(&mut self, panic: Option<String>) -> (r: bool)
        requires
            old(self).wf(),
        ensures
            final(self).wf(),
            r == (old(self).status() == CoStatus::RUNNING && old(self).task_taken()),
            r ==> final(self).status() == CoStatus::COMPLETED && final(self).panic_message() == (
            match panic {
                Some(m) => Some(m@),
                None => None::<Seq<char>>,
            }),
            !r ==> *final(self) == *old(self),
            final(self).same_identity(old(self)),
            status_step(old(self).status(), final(self).status()),
            final(self).task_taken() == old(self).task_taken(),
    {
        if self.status == CoStatus::RUNNING && self.task_taken {
            self.set_status(CoStatus::COMPLETED);
            self.panicking = panic;
            true
        } else {
            false
        }
    }

    /// Starts driving the coroutine on `thread`, on which no coroutine may
    /// be current (a second current coroutine is a fatal scheduler error:
    /// the caller checks `current_is_none` first and aborts).
    /// - COMPLETED: `Finished`, no further work, nothing changed.
    /// - PENDING or RUNNING: refused, nothing changed.
    /// - READY or SUSPENDED: this one becomes current, RUNNING, and one tick
    ///   is counted. The caller then switches into it and, once it is back,
    ///   hands the scope to `finish_resume`.
    pub fn resume(&mut self, thread: &mut ThisThread) -> (r: Result<ResumeStep, CoError>)
        requires
            old(self).wf(),
            old(thread).current_id() is None,
        ensures
            final(self).wf(),
            final(self).same_identity(old(self)),
            status_step(old(self).status(), final(self).status()),
            final(self).task_taken() == old(self).task_taken(),
            final(self).panic_message() == old(self).panic_message(),
            old(self).status() == CoStatus::COMPLETED ==> r == Ok::<ResumeStep, CoError>(
                ResumeStep::Finished,
            ),
            old(self).status() == CoStatus::PENDING ==> r == Err::<ResumeStep, CoError>(
                CoError::NotReady,
            ),
            old(self).status() == CoStatus::RUNNING ==> r == Err::<ResumeStep, CoError>(
                CoError::AlreadyRunning,
            ),
            (old(self).status() == CoStatus::READY || old(self).status() == CoStatus::SUSPENDED)
                ==> {
                &&& r matches Ok(ResumeStep::Enter(sc)) && sc.co() == old(self).id()
                &&& final(self).status() == CoStatus::RUNNING
                &&& final(thread).current_id() == Some(old(self).id())
                &&& final(self).sched().tick == if old(self).sched().tick == u32::MAX {
                    u32::MAX
                } else {
                    (old(self).sched().tick + 1) as u32
                }
            },
            !(r matches Ok(ResumeStep::Enter(_))) ==> *final(self) == *old(self) && *final(thread)
                == *old(thread),
    {
        match self.status {
            CoStatus::COMPLETED => Ok(ResumeStep::Finished),
            CoStatus::PENDING => Err(CoError::NotReady),
            CoStatus::RUNNING => Err(CoError::AlreadyRunning),
            _ => {
                let scope = Scope::enter(thread, self.id);
                self.set_status(CoStatus::RUNNING);
                self.schedule_status.add_tick();
                Ok(ResumeStep::Enter(scope))
            },
        }
    }

    /// Ends one drive begun by `resume`: leaves the scope, which must be
    /// the one current on `thread`, and tells whether the coroutine is still
    /// alive (true) or has no further work (false).
    pub fn finish_resume(&self, thread: &mut ThisThread, scope: Scope) -> (r: bool)
        requires
            old(thread).current_id() == Some(scope.co()),
        ensures
            r == (self.status() != CoStatus::COMPLETED),
            final(thread).current_id() is None,
    {
        scope.exit(thread);
        self.status != CoStatus::COMPLETED
    }
}


/// The task is handed out at most once: along any sequence of observed
/// "task taken" flags in which a taken task stays taken (as every operation
/// of a coroutine keeps it), the flag turns from false to true at no more
/// than one step.
pub proof fn lemma_task_handed_out_once(taken: Seq<bool>, i: int, j: int)
    requires
        forall|k: int| 0 <= k < taken.len() - 1 ==> #[trigger] taken[k] ==> taken[k + 1],
        0 <= i < taken.len() - 1,
        0 <= j < taken.len() - 1,
        !taken[i] && taken[i + 1],
        !taken[j] && taken[j + 1],
    ensures
        i == j,
{
    if i < j {
        lemma_taken_stays(taken, i + 1, j);
    } else if j < i {
        lemma_taken_stays(taken, j + 1, i);
    }
}

proof fn lemma_taken_stays(taken: Seq<bool>, a: int, b: int)
    requires
        forall|k: int| 0 <= k < taken.len() - 1 ==> #[trigger] taken[k] ==> taken[k + 1],
        0 <= a <= b < taken.len(),
        taken[a],
    ensures
        taken[b],
    decreases b - a,
{
    if a < b {
        lemma_taken_stays(taken, a, b - 1);
        let k = b - 1;
        assert(taken[k] ==> taken[k + 1]);
    }
}

/// Lifecycle order: along any sequence of observed statuses in which each
/// move is one that the coroutine's operations make, the position along
/// PENDING, READY, RUNNING or SUSPENDED, COMPLETED never goes back, and a
/// COMPLETED coroutine stays COMPLETED.
pub proof fn lemma_status_trace_ordered(trace: Seq<CoStatus>, i: int, j: int)
    requires
        forall|k: int| 0 <= k < trace.len() - 1 ==> #[trigger] status_step(trace[k], trace[k + 1]),
        0 <= i <= j < trace.len(),
    ensures
        status_rank(trace[i]) <= status_rank(trace[j]),
        trace[i] == CoStatus::COMPLETED ==> trace[j] == CoStatus::COMPLETED,
    decreases j - i,
{
    if i < j {
        lemma_status_trace_ordered(trace, i, j - 1);
        let k = j - 1;
        assert(status_step(trace[k], trace[k + 1]));
    }
}

/// A well-formed coroutine that has completed has handed out its task, and
/// one that has not yet been resumed has not: with `run` handing it out
/// only while it is untaken, the task runs exactly once.
pub proof fn lemma_task_taken_by_completion(c: Coroutine)
    requires
        c.wf(),
    ensures
        c.status() == CoStatus::COMPLETED ==> c.task_taken(),
        c.status() == CoStatus::READY ==> !c.task_taken(),
{
}

} // verus!
