//! A bounded worker pool with graceful shutdown, modelled as a verified
//! dispatcher state machine.
//!
//! The pool owns a FIFO queue of control messages and a fixed set of workers.
//! Submitting a job appends an `Execute` message; shutdown appends exactly one
//! `Terminate` message per worker. A message is removed from the queue by
//! exactly one worker (`assign`), so each job runs exactly once. The caller
//! that drives real OS threads performs the blocking parts (receiving on a
//! shared channel, sleeping, joining) and mirrors every decision through the
//! functions of this module, which are verified for every outcome.

use vstd::prelude::*;

verus! {

/// A message carried by the shared queue: either a job to run on exactly one
/// worker, or the signal that the receiving worker must exit its loop.
#[derive(Debug, PartialEq)]
pub enum ControlMessage<J> {
    Execute(J),
    Terminate,
}

/// Why constructing a pool failed.
#[derive(Debug, Clone, Copy, PartialEq, Eq, Structural)]
pub enum PoolError {
    /// A pool must have at least one worker.
    ZeroSize,
}

/// The take-once slot of a worker's underlying thread. The slot is `Some`
/// until the pool joins the worker; taking it a second time yields `None`,
/// which makes joining idempotent per worker.
#[derive(Debug, Clone, Copy, PartialEq, Eq, Structural)]
pub struct WorkerHandle {
    /// Identifier of the worker this handle joins.
    pub id: usize,
}

/// What a worker is doing, as seen by the dispatcher.
#[derive(Debug, PartialEq)]
pub enum WorkerState<J> {
    /// Blocked on the shared queue, ready to take the next message.
    Idle,
    /// Running the carried job; the queue lock is not held meanwhile.
    Busy(J),
    /// Received `Terminate` and left its loop.
    Done,
}

/// One worker: an integer identifier, the take-once handle of its thread,
/// and its current state.
#[derive(Debug, PartialEq)]
pub struct Worker<J> {
    /// Position of this worker in the pool, fixed at construction.
    pub id: usize,
    /// Take-once join slot; `None` once the worker has been joined.
    pub handle: Option<WorkerHandle>,
    /// What the worker is currently doing.
    pub state: WorkerState<J>,
}

/// The decision a worker takes for one received message.
#[derive(Debug, PartialEq)]
pub enum WorkerAction<J> {
    /// Run this job to completion, then go back to the queue.
    RunJob(J),
    /// Leave the worker loop so the thread can be joined.
    Exit,
}

/// The dispatcher: owns the workers and the send side of the shared queue.
#[derive(Debug)]
pub struct ThreadPool<J> {
    /// Number of workers, fixed at construction and at least one.
    pub size: usize,
    /// The shared FIFO queue; index 0 is delivered next.
    pub queue: Vec<ControlMessage<J>>,
    /// The fixed set of workers, indexed by their identifiers.
    pub workers: Vec<Worker<J>>,
    /// Whether shutdown has already enqueued the terminate signals.
    pub shutting_down: bool,
}

/// A freshly spawned worker: correctly numbered, not yet joined, idle.
pub open spec fn fresh_worker<J>(w: Worker<J>, i: int) -> bool {
    &&& w.id == i
    &&& w.state is Idle
    &&& match w.handle {
        Some(h) => h.id == i,
        None => false,
    }
}

/// The jobs carried by the `Execute` messages of a queue, in queue order.
pub open spec fn execute_jobs<J>(msgs: Seq<ControlMessage<J>>) -> Seq<J>
    decreases msgs.len(),
{
    if msgs.len() == 0 {
        Seq::empty()
    } else {
        match msgs[0] {
            ControlMessage::Execute(j) => seq![j] + execute_jobs(msgs.drop_first()),
            ControlMessage::Terminate => execute_jobs(msgs.drop_first()),
        }
    }
}

impl<J> ThreadPool<J> {
    /// Structural well-formedness: one worker per slot, numbered by position.
    pub open spec fn wf(&self) -> bool {
        &&& self.size >= 1
        &&& self.workers@.len() == self.size
        &&& forall|i: int|
            0 <= i < self.workers@.len() ==> (#[trigger] self.workers@[i]).id == i
    }

    /// Create a pool with `size` workers. A request for zero workers is
    /// always rejected; otherwise every worker starts idle, with its join
    /// handle present, and the queue starts empty.
    pub fn new(size: usize) -> (r: Result<ThreadPool<J>, PoolError>)
        ensures
            r is Ok <==> size >= 1,
            match r {
                Ok(p) => {
                    &&& p.wf()
                    &&& p.size == size
                    &&& p.queue@ =~= Seq::<ControlMessage<J>>::empty()
                    &&& !p.shutting_down
                    &&& forall|i: int|
                        0 <= i < p.workers@.len() ==> fresh_worker(#[trigger] p.workers@[i], i)
                },
                Err(e) => e == PoolError::ZeroSize,
            },
    {
        if size == 0 {
            return Err(PoolError::ZeroSize);
        }
        let mut workers: Vec<Worker<J>> = Vec::new();
        let mut id: usize = 0;
        while id < size
            invariant
                id <= size,
                workers@.len() == id,
                forall|i: int| 0 <= i < id ==> fresh_worker(#[trigger] workers@[i], i),
            decreases size - id,
        {
            workers.push(Worker { id, handle: Some(WorkerHandle { id }), state: WorkerState::Idle });
            id = id + 1;
        }
        Ok(ThreadPool { size, queue: Vec::new(), workers, shutting_down: false })
    }

    /// Submit a job: append one `Execute` message to the queue. Exactly one
    /// worker will later remove it. Submitting after shutdown is a contract
    /// violation (the queue's receive side may already be closed), so it is
    /// excluded here; the unverified rim must check before calling.
    pub fn execute(&mut self, job: J)
        requires
            old(self).wf(),
            !old(self).shutting_down,
        ensures
            final(self).wf(),
            final(self).queue@ =~= old(self).queue@.push(ControlMessage::Execute(job)),
            final(self).size == old(self).size,
            final(self).workers == old(self).workers,
            final(self).shutting_down == old(self).shutting_down,
    {
        self.queue.push(ControlMessage::Execute(job));
    }

    /// Begin shutdown: enqueue exactly one `Terminate` message per worker,
    /// behind everything already queued, so every pending job is still
    /// delivered first. Calling shutdown a second time changes nothing.
    pub fn shutdown(&mut self)
        requires
            old(self).wf(),
        ensures
            final(self).wf(),
            old(self).shutting_down ==> *final(self) == *old(self),
            !old(self).shutting_down ==> {
                &&& final(self).shutting_down
                &&& final(self).queue@ =~= old(self).queue@ + Seq::new(
                    old(self).size as nat,
                    |i: int| ControlMessage::Terminate,
                )
                &&& final(self).size == old(self).size
                &&& final(self).workers == old(self).workers
            },
    {
        if self.shutting_down {
            return;
        }
        let ghost base = self.queue@;
        let mut sent: usize = 0;
        while sent < self.size
            invariant
                sent <= self.size,
                self.queue@ =~= base + Seq::new(sent as nat, |i: int| ControlMessage::Terminate),
                self.size == old(self).size,
                self.workers == old(self).workers,
                self.shutting_down == old(self).shutting_down,
            decreases self.size - sent,
        {
            self.queue.push(ControlMessage::Terminate);
            sent = sent + 1;
        }
        self.shutting_down = true;
    }

    /// Worker `w` wins the race for the front of the queue. The lock around
    /// the receive side admits exactly one winner, so the message leaves the
    /// queue as it reaches `w`: an `Execute` makes the worker busy with that
    /// job, a `Terminate` makes it done. With an empty queue nothing changes
    /// (a real worker would stay blocked on the channel).
    pub fn assign(&mut self, w: usize)
        requires
            old(self).wf(),
            w < old(self).workers@.len(),
            old(self).workers@[w as int].state is Idle,
        ensures
            final(self).wf(),
            final(self).size == old(self).size,
            final(self).shutting_down == old(self).shutting_down,
            old(self).queue@.len() == 0 ==> *final(self) == *old(self),
            old(self).queue@.len() > 0 ==> {
                &&& final(self).queue@ =~= old(self).queue@.drop_first()
                &&& forall|i: int|
                    0 <= i < old(self).workers@.len() && i != w
                        ==> final(self).workers@[i] == old(self).workers@[i]
                &&& final(self).workers@[w as int].id == old(self).workers@[w as int].id
                &&& final(self).workers@[w as int].handle == old(self).workers@[w as int].handle
                &&& match old(self).queue@[0] {
                    ControlMessage::Execute(j) => final(self).workers@[w as int].state
                        == WorkerState::<J>::Busy(j),
                    ControlMessage::Terminate => final(self).workers@[w as int].state is Done,
                }
            },
    {
        if self.queue.len() == 0 {
            return;
        }
        let msg = self.queue.remove(0);
        match msg {
            ControlMessage::Execute(j) => {
                self.workers[w].state = WorkerState::Busy(j);
            },
            ControlMessage::Terminate => {
                self.workers[w].state = WorkerState::Done;
            },
        }
    }

    /// Worker `w` finishes its current job and returns to the queue; the
    /// finished job is handed back to the caller, who runs its effect.
    pub fn finish(&mut self, w: usize) -> (job: J)
        requires
            old(self).wf(),
            w < old(self).workers@.len(),
            old(self).workers@[w as int].state is Busy,
        ensures
            final(self).wf(),
            old(self).workers@[w as int].state == WorkerState::<J>::Busy(job),
            final(self).size == old(self).size,
            final(self).queue == old(self).queue,
            final(self).shutting_down == old(self).shutting_down,
            forall|i: int|
                0 <= i < old(self).workers@.len() && i != w
                    ==> final(self).workers@[i] == old(self).workers@[i],
            final(self).workers@[w as int].id == old(self).workers@[w as int].id,
            final(self).workers@[w as int].handle == old(self).workers@[w as int].handle,
            final(self).workers@[w as int].state is Idle,
    {
        let mut st = WorkerState::Idle;
        core::mem::swap(&mut self.workers[w].state, &mut st);
        match st {
            WorkerState::Busy(j) => j,
            _ => vstd::pervasive::unreached(),
        }
    }

    /// Take worker `w`'s join handle. The first call yields the handle, every
    /// later call yields `None`: joining an already-joined worker is a no-op.
    pub fn take_handle(&mut self, w: usize) -> (h: Option<WorkerHandle>)
        requires
            old(self).wf(),
            w < old(self).workers@.len(),
        ensures
            final(self).wf(),
            h == old(self).workers@[w as int].handle,
            final(self).size == old(self).size,
            final(self).queue == old(self).queue,
            final(self).shutting_down == old(self).shutting_down,
            forall|i: int|
                0 <= i < old(self).workers@.len() && i != w
                    ==> final(self).workers@[i] == old(self).workers@[i],
            final(self).workers@[w as int].id == old(self).workers@[w as int].id,
            final(self).workers@[w as int].state == old(self).workers@[w as int].state,
            final(self).workers@[w as int].handle is None,
    {
        self.workers[w].handle.take()
    }

    /// Join every worker: take each remaining handle in order. After this no
    /// handle is left, and a pool whose handles were all taken already is
    /// left exactly as it was, so a second round of joins cannot double-join.
    pub fn join_all(&mut self)
        requires
            old(self).wf(),
        ensures
            final(self).wf(),
            final(self).size == old(self).size,
            final(self).queue == old(self).queue,
            final(self).shutting_down == old(self).shutting_down,
            final(self).workers@.len() == old(self).workers@.len(),
            forall|i: int|
                0 <= i < old(self).workers@.len() ==> {
                    &&& (#[trigger] final(self).workers@[i]).handle is None
                    &&& final(self).workers@[i].id == old(self).workers@[i].id
                    &&& final(self).workers@[i].state == old(self).workers@[i].state
                },
            (forall|i: int|
                0 <= i < old(self).workers@.len()
                    ==> (#[trigger] old(self).workers@[i]).handle is None)
                ==> final(self).workers@ =~= old(self).workers@,
    {
        let n = self.workers.len();
        let mut w: usize = 0;
        while w < n
            invariant
                w <= n,
                n == self.workers@.len(),
                self.wf(),
                self.size == old(self).size,
                self.queue == old(self).queue,
                self.shutting_down == old(self).shutting_down,
                self.workers@.len() == old(self).workers@.len(),
                forall|i: int|
                    0 <= i < w ==> (#[trigger] self.workers@[i]).handle is None,
                forall|i: int|
                    w <= i < old(self).workers@.len()
                        ==> self.workers@[i] == old(self).workers@[i],
                forall|i: int|
                    0 <= i < old(self).workers@.len() ==> {
                        &&& (#[trigger] self.workers@[i]).id == old(self).workers@[i].id
                        &&& self.workers@[i].state == old(self).workers@[i].state
                        &&& (old(self).workers@[i].handle is None
                            ==> self.workers@[i].handle is None)
                    },
            decreases n - w,
        {
            let _ = self.take_handle(w);
            w = w + 1;
        }
    }

    /// Graceful shutdown as the pool's owner performs it when discarding the
    /// pool: enqueue the terminate signals, then join every worker. Running
    /// it twice is harmless: the second round enqueues nothing and finds no
    /// handle left to join.
    pub fn close(&mut self)
        requires
            old(self).wf(),
        ensures
            final(self).wf(),
            final(self).shutting_down,
            final(self).size == old(self).size,
            forall|i: int|
                0 <= i < final(self).workers@.len()
                    ==> (#[trigger] final(self).workers@[i]).handle is None,
            !old(self).shutting_down ==> final(self).queue@ =~= old(self).queue@ + Seq::new(
                old(self).size as nat,
                |i: int| ControlMessage::Terminate,
            ),
            old(self).shutting_down ==> final(self).queue@ =~= old(self).queue@,
    {
        self.shutdown();
        self.join_all();
    }

    /// Deliver every queued message in FIFO order, as the set of workers as a
    /// whole does, and hand back the jobs in delivery order: each submitted
    /// job leaves the queue exactly once and none is dropped.
    pub fn drain(&mut self) -> (jobs: Vec<J>)
        requires
            old(self).wf(),
        ensures
            final(self).wf(),
            jobs@ =~= execute_jobs(old(self).queue@),
            final(self).queue@.len() == 0,
            final(self).size == old(self).size,
            final(self).workers == old(self).workers,
            final(self).shutting_down == old(self).shutting_down,
    {
        let mut jobs: Vec<J> = Vec::new();
        while self.queue.len() > 0
            invariant
                self.wf(),
                jobs@ + execute_jobs(self.queue@) =~= execute_jobs(old(self).queue@),
                self.size == old(self).size,
                self.workers == old(self).workers,
                self.shutting_down == old(self).shutting_down,
            decreases self.queue@.len(),
        {
            let ghost before = self.queue@;
            let msg = self.queue.remove(0);
            proof {
                assert(self.queue@ =~= before.drop_first());
            }
            match msg {
                ControlMessage::Execute(j) => {
                    jobs.push(j);
                },
                ControlMessage::Terminate => {},
            }
        }
        jobs
    }

    /// Number of workers in the pool.
    pub fn worker_count(&self) -> (n: usize)
        ensures
            n == self.workers@.len(),
    {
        self.workers.len()
    }

    /// Number of messages still waiting in the queue.
    pub fn pending(&self) -> (n: usize)
        ensures
            n == self.queue@.len(),
    {
        self.queue.len()
    }

    /// Whether shutdown has already enqueued the terminate signals.
    pub fn is_shutting_down(&self) -> (b: bool)
        ensures
            b == self.shutting_down,
    {
        self.shutting_down
    }

    /// The job worker `w` is currently running, if any.
    pub fn busy_job(&self, w: usize) -> (j: Option<&J>)
        requires
            w < self.workers@.len(),
        ensures
            match self.workers@[w as int].state {
                WorkerState::Busy(job) => j matches Some(r) && *r == job,
                _ => j is None,
            },
    {
        match &self.workers[w].state {
            WorkerState::Busy(j) => Some(j),
            _ => None,
        }
    }

    /// Whether worker `w` is idle, ready to take the next message.
    pub fn worker_is_idle(&self, w: usize) -> (b: bool)
        requires
            w < self.workers@.len(),
        ensures
            b == (self.workers@[w as int].state is Idle),
    {
        match &self.workers[w].state {
            WorkerState::Idle => true,
            _ => false,
        }
    }

    /// Whether worker `w` has received its terminate signal and exited.
    pub fn worker_is_done(&self, w: usize) -> (b: bool)
        requires
            w < self.workers@.len(),
        ensures
            b == (self.workers@[w as int].state is Done),
    {
        match &self.workers[w].state {
            WorkerState::Done => true,
            _ => false,
        }
    }
}

/// A worker's whole decision logic for one received message: run the carried
/// job, or leave the loop on `Terminate`. The thread that hosts the worker
/// loop applies the returned action; everything it decides is decided here.
pub fn worker_step<J>(msg: ControlMessage<J>) -> (a: WorkerAction<J>)
    ensures
        match msg {
            ControlMessage::Execute(j) => a == WorkerAction::<J>::RunJob(j),
            ControlMessage::Terminate => a is Exit,
        },
{
    match msg {
        ControlMessage::Execute(j) => WorkerAction::RunJob(j),
        ControlMessage::Terminate => WorkerAction::Exit,
    }
}

/// Law: a queue made of terminate signals alone carries no job.
pub proof fn lemma_terminates_carry_no_jobs<J>(msgs: Seq<ControlMessage<J>>)
    requires
        forall|i: int| 0 <= i < msgs.len() ==> msgs[i] is Terminate,
    ensures
        execute_jobs(msgs) =~= Seq::<J>::empty(),
    decreases msgs.len(),
{
    if msgs.len() > 0 {
        lemma_terminates_carry_no_jobs(msgs.drop_first());
    }
}

/// Law: shutdown adds no work. Appending terminate signals behind any queue
/// leaves the jobs it carries exactly as they were, so a graceful shutdown
/// still delivers every pending job before the workers exit.
pub proof fn lemma_terminates_add_no_jobs<J>(
    msgs: Seq<ControlMessage<J>>,
    terminates: Seq<ControlMessage<J>>,
)
    requires
        forall|i: int| 0 <= i < terminates.len() ==> terminates[i] is Terminate,
    ensures
        execute_jobs(msgs + terminates) =~= execute_jobs(msgs),
    decreases msgs.len(),
{
    if msgs.len() == 0 {
        assert(msgs + terminates =~= terminates);
        lemma_terminates_carry_no_jobs(terminates);
    } else {
        lemma_terminates_add_no_jobs(msgs.drop_first(), terminates);
        assert((msgs + terminates).drop_first() =~= msgs.drop_first() + terminates);
        assert((msgs + terminates)[0] == msgs[0]);
        match msgs[0] {
            ControlMessage::Execute(j) => {
                assert(execute_jobs(msgs + terminates) =~= seq![j] + execute_jobs(
                    msgs.drop_first() + terminates,
                ));
            },
            ControlMessage::Terminate => {},
        }
    }
}

/// Law: submitting a sequence of jobs and then shutting down executes every
/// job exactly once, in submission order. The queue then holds one `Execute`
/// message per job followed by the terminate signals, and delivering it in
/// FIFO order yields exactly the submitted sequence.
pub proof fn lemma_jobs_execute_exactly_once<J>(
    submitted: Seq<J>,
    terminates: Seq<ControlMessage<J>>,
)
    requires
        forall|i: int| 0 <= i < terminates.len() ==> terminates[i] is Terminate,
    ensures
        execute_jobs(submitted.map_values(|j: J| ControlMessage::Execute(j)) + terminates)
            =~= submitted,
    decreases submitted.len(),
{
    let msgs = submitted.map_values(|j: J| ControlMessage::Execute(j)) + terminates;
    if submitted.len() == 0 {
        assert(msgs =~= terminates);
        lemma_terminates_carry_no_jobs(terminates);
    } else {
        let rest = submitted.drop_first();
        lemma_jobs_execute_exactly_once(rest, terminates);
        assert(msgs[0] == ControlMessage::Execute(submitted[0]));
        assert(msgs.drop_first() =~= rest.map_values(|j: J| ControlMessage::Execute(j))
            + terminates);
        assert(execute_jobs(msgs) =~= seq![submitted[0]] + execute_jobs(msgs.drop_first()));
        assert(seq![submitted[0]] + rest =~= submitted);
    }
}

} // verus!
