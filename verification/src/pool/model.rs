//! The worker pool as a state machine over mathematical values.
//!
//! A pool owns a fixed set of workers and a first-in, first-out queue of
//! jobs. Every job that the pool accepts gets a ticket: its position in the
//! order of acceptance. The state records, for each ticket, how far the job
//! has come, and for each worker, what it is doing. Events move the state
//! forward; an event that the state refuses leaves it as it was.

use vstd::prelude::*;

verus! {

/// How the run of a job ended.
#[derive(Clone, Copy, Debug, PartialEq, Eq, Structural)]
pub enum Outcome {
    /// The job ran to its end.
    Completed,
    /// The job failed; the failure was contained and the worker lives on.
    Failed,
}

/// How a worker's execution context ended, as found when it was joined.
#[derive(Clone, Copy, Debug, PartialEq, Eq, Structural)]
pub enum Exit {
    /// The worker left its loop after the queue was closed and drained.
    Clean,
    /// The worker's execution context died.
    Abnormal,
}

/// Why the pool refused an operation.
#[derive(Clone, Copy, Debug, PartialEq, Eq, Structural)]
pub enum PoolError {
    /// A pool needs at least one worker.
    ZeroSize,
    /// A job was submitted after shutdown had begun.
    Closed,
    /// Shutdown was requested a second time.
    AlreadyShutDown,
    /// The index names no worker of this pool.
    NoSuchWorker,
    /// A worker asked for work while it was not waiting for any.
    NotIdle,
    /// The end of a run was reported for a worker that runs no job.
    NotBusy,
    /// A worker was joined before shutdown had begun.
    StillOpen,
    /// The worker has been joined before.
    AlreadyJoined,
    /// A clean exit was reported for a worker that has not left its loop.
    StillRunning,
}

/// What a worker that asked for work is told to do.
pub enum Step<J> {
    /// Run this job, then report how it ended.
    Run(J),
    /// The queue is empty and open: ask again later.
    Wait,
    /// The queue is closed and drained: leave the loop.
    Stop,
}

/// What a worker is doing.
pub enum Slot {
    /// Waiting for a job.
    Idle,
    /// Running the job with this ticket.
    Busy { ticket: int },
    /// Out of its loop, not joined yet.
    Exited,
    /// Joined after a clean exit.
    Joined,
    /// Joined and found dead.
    Crashed,
}

/// How far a job has come.
pub enum Phase {
    /// In the queue.
    Queued,
    /// Being run by this worker.
    Running { worker: int },
    /// Run to its end.
    Completed,
    /// Run, and failed.
    Failed,
    /// Handed to this worker, which died before the run ended.
    Abandoned { worker: int },
}

/// Something that happens to a pool.
pub enum Event<J> {
    /// A producer submits a job.
    Submit { job: J },
    /// A worker asks for work.
    Fetch { worker: int },
    /// A worker reports the end of the run of its job.
    Finish { worker: int, outcome: Outcome },
    /// The owner begins shutdown.
    Shutdown,
    /// The owner has joined a worker.
    Join { worker: int, exit: Exit },
}

/// The state of a pool.
#[verifier::ext_equal]
pub struct PoolState<J> {
    /// The workers, by index.
    pub workers: Seq<Slot>,
    /// Whether shutdown has begun.
    pub closed: bool,
    /// Every job accepted so far, by ticket.
    pub jobs: Seq<J>,
    /// The phase of every accepted job, by ticket.
    pub phases: Seq<Phase>,
    /// The number of tickets handed to workers; the queue holds the rest.
    pub started: int,
    /// The tickets whose runs have ended, in the order in which they ended.
    pub finished: Seq<int>,
}

impl<J> PoolState<J> {
    /// A fresh pool of `size` idle workers.
    pub open spec fn init(size: int) -> Self {
        PoolState {
            workers: Seq::new(size as nat, |w: int| Slot::Idle),
            closed: false,
            jobs: Seq::empty(),
            phases: Seq::empty(),
            started: 0,
            finished: Seq::empty(),
        }
    }

    /// The number of workers.
    pub open spec fn size(self) -> int {
        self.workers.len() as int
    }

    /// Whether `w` names a worker.
    pub open spec fn has_worker(self, w: int) -> bool {
        0 <= w < self.workers.len()
    }

    /// The jobs that wait for a worker, oldest first.
    pub open spec fn queue(self) -> Seq<J> {
        self.jobs.subrange(self.started, self.jobs.len() as int)
    }

    /// The state after `job` was accepted.
    pub open spec fn submit(self, job: J) -> Self {
        PoolState { jobs: self.jobs.push(job), phases: self.phases.push(Phase::Queued), ..self }
    }

    /// The state after worker `w` took the oldest waiting job.
    pub open spec fn dispatch(self, w: int) -> Self {
        PoolState {
            workers: self.workers.update(w, Slot::Busy { ticket: self.started }),
            phases: self.phases.update(self.started, Phase::Running { worker: w }),
            started: self.started + 1,
            ..self
        }
    }

    /// The state after worker `w` left its loop.
    pub open spec fn retire(self, w: int) -> Self {
        PoolState { workers: self.workers.update(w, Slot::Exited), ..self }
    }

    /// The state after worker `w` ended the run of its job with `outcome`.
    pub open spec fn finish(self, w: int, outcome: Outcome) -> Self {
        let ticket = self.workers[w]->ticket;
        PoolState {
            workers: self.workers.update(w, Slot::Idle),
            phases: self.phases.update(
                ticket,
                match outcome {
                    Outcome::Completed => Phase::Completed,
                    Outcome::Failed => Phase::Failed,
                },
            ),
            finished: self.finished.push(ticket),
            ..self
        }
    }

    /// The state after shutdown began.
    pub open spec fn close(self) -> Self {
        PoolState { closed: true, ..self }
    }

    /// The state after worker `w` was joined and found as `exit` says.
    pub open spec fn join(self, w: int, exit: Exit) -> Self {
        match exit {
            Exit::Clean => PoolState { workers: self.workers.update(w, Slot::Joined), ..self },
            Exit::Abnormal => PoolState {
                workers: self.workers.update(w, Slot::Crashed),
                phases: match self.workers[w] {
                    Slot::Busy { ticket } => self.phases.update(
                        ticket,
                        Phase::Abandoned { worker: w },
                    ),
                    _ => self.phases,
                },
                ..self
            },
        }
    }

    /// The error with which the state refuses `event`, if it does.
    pub open spec fn refusal(self, event: Event<J>) -> Option<PoolError> {
        match event {
            Event::Submit { job } => if self.closed {
                Some(PoolError::Closed)
            } else {
                None
            },
            Event::Fetch { worker } => if !self.has_worker(worker) {
                Some(PoolError::NoSuchWorker)
            } else if !(self.workers[worker] is Idle) {
                Some(PoolError::NotIdle)
            } else {
                None
            },
            Event::Finish { worker, outcome } => if !self.has_worker(worker) {
                Some(PoolError::NoSuchWorker)
            } else if !(self.workers[worker] is Busy) {
                Some(PoolError::NotBusy)
            } else {
                None
            },
            Event::Shutdown => if self.closed {
                Some(PoolError::AlreadyShutDown)
            } else {
                None
            },
            Event::Join { worker, exit } => if !self.has_worker(worker) {
                Some(PoolError::NoSuchWorker)
            } else if !self.closed {
                Some(PoolError::StillOpen)
            } else if self.workers[worker] is Joined || self.workers[worker] is Crashed {
                Some(PoolError::AlreadyJoined)
            } else if exit is Clean && !(self.workers[worker] is Exited) {
                Some(PoolError::StillRunning)
            } else {
                None
            },
        }
    }

    /// What an idle worker that asks for work is told.
    pub open spec fn offer(self) -> Step<J> {
        if self.started < self.jobs.len() {
            Step::Run(self.jobs[self.started])
        } else if self.closed {
            Step::Stop
        } else {
            Step::Wait
        }
    }

    /// The state after `event`: unchanged where the event is refused.
    pub open spec fn apply(self, event: Event<J>) -> Self {
        if self.refusal(event) is Some {
            self
        } else {
            match event {
                Event::Submit { job } => self.submit(job),
                Event::Fetch { worker } => match self.offer() {
                    Step::Run(_) => self.dispatch(worker),
                    Step::Stop => self.retire(worker),
                    Step::Wait => self,
                },
                Event::Finish { worker, outcome } => self.finish(worker, outcome),
                Event::Shutdown => self.close(),
                Event::Join { worker, exit } => self.join(worker, exit),
            }
        }
    }

    /// The state after the events of `trace`, in order.
    pub open spec fn run(self, trace: Seq<Event<J>>) -> Self
        decreases trace.len(),
    {
        if trace.len() == 0 {
            self
        } else {
            self.run(trace.drop_last()).apply(trace.last())
        }
    }

    /// Whether worker `w` has been joined.
    pub open spec fn joined(self, w: int) -> bool {
        self.workers[w] is Joined || self.workers[w] is Crashed
    }

    /// Whether the run of ticket `t` has ended.
    pub open spec fn done(self, t: int) -> bool {
        self.phases[t] is Completed || self.phases[t] is Failed
    }

    /// The jobs whose runs have ended, in the order in which they ended.
    pub open spec fn executed(self) -> Seq<J> {
        self.finished.map_values(|t: int| self.jobs[t])
    }

    /// The tickets whose jobs are being run.
    pub open spec fn running(self) -> Set<int> {
        Set::new(|t: int| 0 <= t < self.phases.len() && self.phases[t] is Running)
    }

    /// Whether shutdown is over and every worker left its loop by itself.
    pub open spec fn shut_down_cleanly(self) -> bool {
        &&& self.closed
        &&& forall|w: int| 0 <= w < self.workers.len() ==> #[trigger] self.workers[w] is Joined
    }

    /// What holds of every state that a pool can reach.
    pub open spec fn inv(self) -> bool {
        &&& self.workers.len() >= 1
        &&& 0 <= self.started <= self.jobs.len()
        &&& self.phases.len() == self.jobs.len()
        // the queue is exactly what has no worker yet
        &&& forall|t: int|
            0 <= t < self.phases.len() ==> (#[trigger] self.phases[t] is Queued <==> self.started
                <= t)
        // a running job and its worker name each other
        &&& forall|t: int|
            0 <= t < self.phases.len() ==> (#[trigger] self.phases[t] matches Phase::Running {
                worker,
            } ==> self.has_worker(worker) && self.workers[worker] == (Slot::Busy { ticket: t }))
        &&& forall|w: int|
            0 <= w < self.workers.len() ==> (#[trigger] self.workers[w] matches Slot::Busy {
                ticket,
            } ==> 0 <= ticket < self.phases.len() && self.phases[ticket] == (Phase::Running {
                worker: w,
            }))
        // only a dead worker abandons a job
        &&& forall|t: int|
            0 <= t < self.phases.len() ==> (#[trigger] self.phases[t] matches Phase::Abandoned {
                worker,
            } ==> self.has_worker(worker) && self.workers[worker] is Crashed)
        // the log of ended runs holds each ended run once
        &&& self.finished.no_duplicates()
        &&& forall|i: int|
            0 <= i < self.finished.len() ==> 0 <= #[trigger] self.finished[i] < self.phases.len()
                && self.done(self.finished[i])
        &&& forall|t: int|
            0 <= t < self.phases.len() && #[trigger] self.done(t) ==> self.finished.contains(t)
        // a worker leaves its loop only when the queue is closed and drained
        &&& forall|w: int|
            0 <= w < self.workers.len() && (#[trigger] self.workers[w] is Exited
                || self.workers[w] is Joined) ==> self.closed && self.started == self.jobs.len()
        // workers are joined during shutdown
        &&& forall|w: int|
            0 <= w < self.workers.len() && #[trigger] self.workers[w] is Crashed ==> self.closed
    }
}

} // verus!
