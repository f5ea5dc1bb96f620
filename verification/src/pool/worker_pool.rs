//! The executable pool: the queue and the table of workers, with every
//! operation held to the state machine of [`crate::pool::model`].
//!
//! The pool runs no job itself and blocks nowhere. Whoever owns the
//! execution contexts tells it what happened (a submission, a worker that
//! asks for work, the end of a run, a join) and is told what to do next.

use crate::pool::laws::{lemma_apply_inv, lemma_init_inv};
use crate::pool::model::{Event, Exit, Outcome, PoolError, PoolState, Slot, Step};
use std::collections::VecDeque;
use vstd::prelude::*;

verus! {

/// What a worker is doing, as the pool's owner can ask it.
#[derive(Clone, Copy, Debug, PartialEq, Eq, Structural)]
pub enum WorkerStatus {
    /// Waiting for a job.
    Idle,
    /// Running a job.
    Busy,
    /// Out of its loop, not joined yet.
    Exited,
    /// Joined after a clean exit.
    Joined,
    /// Joined and found dead.
    Crashed,
}

impl Slot {
    /// The status that the owner sees for a worker in this slot.
    pub open spec fn status(self) -> WorkerStatus {
        match self {
            Slot::Idle => WorkerStatus::Idle,
            Slot::Busy { .. } => WorkerStatus::Busy,
            Slot::Exited => WorkerStatus::Exited,
            Slot::Joined => WorkerStatus::Joined,
            Slot::Crashed => WorkerStatus::Crashed,
        }
    }
}

/// The answer to an event: the refusal, if there is one.
pub open spec fn answer(refusal: Option<PoolError>) -> Result<(), PoolError> {
    match refusal {
        Some(e) => Err(e),
        None => Ok(()),
    }
}

/// The number of workers among the first `n` of `workers` that have `status`.
pub open spec fn count_status(workers: Seq<Slot>, status: WorkerStatus, n: int) -> nat
    decreases n,
{
    if n <= 0 {
        0
    } else {
        count_status(workers, status, n - 1) + if workers[n - 1].status() == status {
            1nat
        } else {
            0nat
        }
    }
}

/// A pool of a fixed number of workers and its queue of jobs of type `J`.
pub struct WorkerPool<J> {
    queue: VecDeque<J>,
    workers: Vec<WorkerStatus>,
    closed: bool,
    state: Ghost<PoolState<J>>,
}

impl<J> View for WorkerPool<J> {
    type V = PoolState<J>;

    closed spec fn view(&self) -> PoolState<J> {
        self.state@
    }
}

impl<J> WorkerPool<J> {
    /// Whether the pool's fields agree with its state, and the state is one
    /// that a pool can reach.
    pub closed spec fn wf(&self) -> bool {
        &&& self.state@.inv()
        &&& self.queue@ == self.state@.queue()
        &&& self.closed == self.state@.closed
        &&& self.workers@.len() == self.state@.workers.len()
        &&& forall|w: int|
            0 <= w < self.workers@.len() ==> self.workers@[w]
                == (#[trigger] self.state@.workers[w]).status()
    }

    /// A well-formed pool is in a state that a pool can reach.
    pub proof fn lemma_wf_inv(&self)
        requires
            self.wf(),
        ensures
            self@.inv(),
    {
    }

    /// A pool of `size` idle workers with an empty, open queue. A pool
    /// without workers is refused.
    pub fn new(size: usize) -> (r: Result<WorkerPool<J>, PoolError>)
        ensures
            size == 0 <==> r is Err,
            r matches Err(e) ==> e == PoolError::ZeroSize,
            r matches Ok(pool) ==> pool.wf() && pool@ == PoolState::<J>::init(size as int),
    {
        if size == 0 {
            return Err(PoolError::ZeroSize);
        }
        let mut workers: Vec<WorkerStatus> = Vec::new();
        let mut i: usize = 0;
        while i < size
            invariant
                i <= size,
                workers@.len() == i,
                forall|k: int| 0 <= k < i ==> workers@[k] == WorkerStatus::Idle,
            decreases size - i,
        {
            workers.push(WorkerStatus::Idle);
            i = i + 1;
        }
        let pool = WorkerPool {
            queue: VecDeque::new(),
            workers,
            closed: false,
            state: Ghost(PoolState::init(size as int)),
        };
        proof {
            lemma_init_inv::<J>(size as int);
            assert(pool.queue@ =~= pool.state@.queue());
        }
        Ok(pool)
    }

    /// Submits `job`: it joins the queue behind the jobs that wait there.
    /// Once shutdown has begun the job is refused as `Closed` and the pool
    /// stays as it was.
    pub fn execute(&mut self, job: J) -> (r: Result<(), PoolError>)
        requires
            old(self).wf(),
        ensures
            final(self).wf(),
            r == answer(old(self)@.refusal(Event::Submit { job })),
            final(self)@ == old(self)@.apply(Event::Submit { job }),
    {
        if self.closed {
            return Err(PoolError::Closed);
        }
        let ghost event = Event::Submit { job };
        proof {
            lemma_apply_inv(self.state@, event);
        }
        self.queue.push_back(job);
        self.state = Ghost(self.state@.apply(event));
        proof {
            assert(self.queue@ =~= self.state@.queue());
        }
        Ok(())
    }

    /// Worker `worker` asks for work. It is handed the oldest waiting job
    /// and becomes busy; or, the queue being empty, it is told to wait if
    /// the queue is open, and to stop if shutdown has begun, and then counts
    /// as exited. A worker that is not idle is refused.
    pub fn receive(&mut self, worker: usize) -> (r: Result<Step<J>, PoolError>)
        requires
            old(self).wf(),
        ensures
            final(self).wf(),
            r == (match old(self)@.refusal(Event::Fetch { worker: worker as int }) {
                Some(e) => Err(e),
                None => Ok(old(self)@.offer()),
            }),
            final(self)@ == old(self)@.apply(Event::Fetch { worker: worker as int }),
    {
        if worker >= self.workers.len() {
            return Err(PoolError::NoSuchWorker);
        }
        if self.workers[worker] != WorkerStatus::Idle {
            return Err(PoolError::NotIdle);
        }
        let ghost event = Event::<J>::Fetch { worker: worker as int };
        proof {
            lemma_apply_inv(self.state@, event);
        }
        match self.queue.pop_front() {
            Some(job) => {
                self.workers[worker] = WorkerStatus::Busy;
                self.state = Ghost(self.state@.apply(event));
                proof {
                    assert(self.queue@ =~= self.state@.queue());
                }
                Ok(Step::Run(job))
            },
            None => {
                if self.closed {
                    self.workers[worker] = WorkerStatus::Exited;
                    self.state = Ghost(self.state@.apply(event));
                    Ok(Step::Stop)
                } else {
                    Ok(Step::Wait)
                }
            },
        }
    }

    /// Worker `worker` reports that the run of its job ended with
    /// `outcome`. The run is logged and the worker is idle again, whether
    /// the job completed or failed. A worker that runs no job is refused.
    pub fn finish(&mut self, worker: usize, outcome: Outcome) -> (r: Result<(), PoolError>)
        requires
            old(self).wf(),
        ensures
            final(self).wf(),
            r == answer(old(self)@.refusal(Event::Finish { worker: worker as int, outcome })),
            final(self)@ == old(self)@.apply(Event::Finish { worker: worker as int, outcome }),
    {
        if worker >= self.workers.len() {
            return Err(PoolError::NoSuchWorker);
        }
        if self.workers[worker] != WorkerStatus::Busy {
            return Err(PoolError::NotBusy);
        }
        let ghost event = Event::<J>::Finish { worker: worker as int, outcome };
        proof {
            lemma_apply_inv(self.state@, event);
        }
        self.workers[worker] = WorkerStatus::Idle;
        self.state = Ghost(self.state@.apply(event));
        Ok(())
    }

    /// Begins shutdown: the queue is closed to new jobs. The jobs that wait
    /// and the jobs in flight are not touched. A second request is refused.
    pub fn shutdown(&mut self) -> (r: Result<(), PoolError>)
        requires
            old(self).wf(),
        ensures
            final(self).wf(),
            r == answer(old(self)@.refusal(Event::Shutdown)),
            final(self)@ == old(self)@.apply(Event::Shutdown),
    {
        if self.closed {
            return Err(PoolError::AlreadyShutDown);
        }
        let ghost event = Event::<J>::Shutdown;
        proof {
            lemma_apply_inv(self.state@, event);
        }
        self.closed = true;
        self.state = Ghost(self.state@.apply(event));
        Ok(())
    }

    /// Records that worker `worker` was joined and found as `exit` says. A
    /// worker is joined once, and only during shutdown; a clean exit is
    /// accepted only of a worker that was told to stop. A job that a dead
    /// worker was running is marked as abandoned.
    pub fn join(&mut self, worker: usize, exit: Exit) -> (r: Result<(), PoolError>)
        requires
            old(self).wf(),
        ensures
            final(self).wf(),
            r == answer(old(self)@.refusal(Event::Join { worker: worker as int, exit })),
            final(self)@ == old(self)@.apply(Event::Join { worker: worker as int, exit }),
    {
        if worker >= self.workers.len() {
            return Err(PoolError::NoSuchWorker);
        }
        if !self.closed {
            return Err(PoolError::StillOpen);
        }
        let status = self.workers[worker];
        if status == WorkerStatus::Joined || status == WorkerStatus::Crashed {
            return Err(PoolError::AlreadyJoined);
        }
        let ghost event = Event::<J>::Join { worker: worker as int, exit };
        match exit {
            Exit::Clean => {
                if status != WorkerStatus::Exited {
                    return Err(PoolError::StillRunning);
                }
                self.workers[worker] = WorkerStatus::Joined;
            },
            Exit::Abnormal => {
                self.workers[worker] = WorkerStatus::Crashed;
            },
        }
        proof {
            lemma_apply_inv(self.state@, event);
        }
        self.state = Ghost(self.state@.apply(event));
        Ok(())
    }

    /// The number of workers, fixed when the pool was made.
    pub fn size(&self) -> (n: usize)
        requires
            self.wf(),
        ensures
            n == self@.size(),
            n >= 1,
    {
        self.workers.len()
    }

    /// The number of jobs that wait for a worker.
    pub fn pending(&self) -> (n: usize)
        requires
            self.wf(),
        ensures
            n == self@.queue().len(),
    {
        self.queue.len()
    }

    /// Whether shutdown has begun.
    pub fn is_closed(&self) -> (b: bool)
        requires
            self.wf(),
        ensures
            b == self@.closed,
    {
        self.closed
    }

    /// What worker `worker` is doing; `None` where the index names no
    /// worker.
    pub fn status(&self, worker: usize) -> (r: Option<WorkerStatus>)
        requires
            self.wf(),
        ensures
            r == if self@.has_worker(worker as int) {
                Some(self@.workers[worker as int].status())
            } else {
                None
            },
    {
        if worker < self.workers.len() {
            Some(self.workers[worker])
        } else {
            None
        }
    }

    /// The number of workers that have `status`.
    pub fn count(&self, status: WorkerStatus) -> (n: usize)
        requires
            self.wf(),
        ensures
            n == count_status(self@.workers, status, self@.size()),
            n <= self@.size(),
    {
        let mut n: usize = 0;
        let mut i: usize = 0;
        while i < self.workers.len()
            invariant
                self.wf(),
                i <= self.workers.len(),
                n <= i,
                n == count_status(self@.workers, status, i as int),
            decreases self.workers.len() - i,
        {
            if self.workers[i] == status {
                n = n + 1;
            }
            i = i + 1;
        }
        n
    }

    /// The worker to join next: the one with the lowest index that has not
    /// been joined. `None` before shutdown has begun and when every worker
    /// has been joined.
    pub fn next_to_join(&self) -> (r: Option<usize>)
        requires
            self.wf(),
        ensures
            match r {
                Some(w) => {
                    &&& self@.closed
                    &&& self@.has_worker(w as int)
                    &&& !self@.joined(w as int)
                    &&& forall|k: int| 0 <= k < w ==> self@.joined(k)
                },
                None => !self@.closed || forall|k: int| 0 <= k < self@.size() ==> self@.joined(k),
            },
    {
        if !self.closed {
            return None;
        }
        let mut i: usize = 0;
        while i < self.workers.len()
            invariant
                self.wf(),
                self.closed,
                i <= self.workers.len(),
                forall|k: int| 0 <= k < i ==> self@.joined(k),
            decreases self.workers.len() - i,
        {
            let status = self.workers[i];
            assert(status == self@.workers[i as int].status());
            if status != WorkerStatus::Joined && status != WorkerStatus::Crashed {
                return Some(i);
            }
            i = i + 1;
        }
        None
    }

    /// Whether shutdown is over: it has begun and every worker has been
    /// joined.
    pub fn is_shut_down(&self) -> (b: bool)
        requires
            self.wf(),
        ensures
            b == (self@.closed && forall|k: int| 0 <= k < self@.size() ==> self@.joined(k)),
    {
        self.closed && self.next_to_join().is_none()
    }
}

} // verus!
