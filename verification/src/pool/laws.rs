//! What holds of every pool, proved over the state machine.

use crate::pool::model::{Event, Exit, Outcome, Phase, PoolError, PoolState, Slot, Step};
use vstd::prelude::*;
use vstd::set_lib::{lemma_int_range, lemma_len_subset, lemma_map_size, set_int_range};

verus! {

/// A fresh pool with at least one worker is in a valid state.
pub proof fn lemma_init_inv<J>(size: int)
    requires
        size >= 1,
    ensures
        PoolState::<J>::init(size).inv(),
        PoolState::<J>::init(size).size() == size,
{
}

proof fn lemma_submit_inv<J>(s: PoolState<J>, job: J)
    requires
        s.inv(),
        !s.closed,
    ensures
        s.submit(job).inv(),
{
    let n = s.submit(job);
    assert forall|t: int| 0 <= t < n.phases.len() && #[trigger] n.done(t) implies n.finished.contains(
        t,
    ) by {
        assert(s.done(t));
    }
}

proof fn lemma_dispatch_inv<J>(s: PoolState<J>, w: int)
    requires
        s.inv(),
        s.has_worker(w),
        s.workers[w] is Idle,
        s.started < s.jobs.len(),
    ensures
        s.dispatch(w).inv(),
{
    let n = s.dispatch(w);
    assert(s.phases[s.started] is Queued);
    assert forall|t: int| 0 <= t < n.phases.len() && #[trigger] n.done(t) implies n.finished.contains(
        t,
    ) by {
        assert(s.done(t));
    }
    assert forall|i: int| 0 <= i < n.finished.len() implies 0 <= #[trigger] n.finished[i]
        < n.phases.len() && n.done(n.finished[i]) by {
        assert(s.done(s.finished[i]));
    }
    assert forall|x: int|
        0 <= x < n.workers.len() && (#[trigger] n.workers[x] is Exited
            || n.workers[x] is Joined) implies n.closed && n.started == n.jobs.len() by {
        assert(s.workers[x] is Exited || s.workers[x] is Joined);
    }
}

proof fn lemma_retire_inv<J>(s: PoolState<J>, w: int)
    requires
        s.inv(),
        s.has_worker(w),
        s.workers[w] is Idle,
        s.started == s.jobs.len(),
        s.closed,
    ensures
        s.retire(w).inv(),
{
    let n = s.retire(w);
    assert forall|t: int| 0 <= t < n.phases.len() && #[trigger] n.done(t) implies n.finished.contains(
        t,
    ) by {
        assert(s.done(t));
    }
}

proof fn lemma_finish_inv<J>(s: PoolState<J>, w: int, outcome: Outcome)
    requires
        s.inv(),
        s.has_worker(w),
        s.workers[w] is Busy,
    ensures
        s.finish(w, outcome).inv(),
{
    let n = s.finish(w, outcome);
    let ticket = s.workers[w]->ticket;
    assert(s.phases[ticket] == Phase::Running { worker: w });
    assert(!s.done(ticket));
    assert(!s.finished.contains(ticket)) by {
        if s.finished.contains(ticket) {
            let i = choose|i: int| 0 <= i < s.finished.len() && s.finished[i] == ticket;
            assert(s.done(s.finished[i]));
        }
    }
    assert(n.finished.no_duplicates());
    assert forall|i: int| 0 <= i < n.finished.len() implies 0 <= #[trigger] n.finished[i]
        < n.phases.len() && n.done(n.finished[i]) by {
        if i < s.finished.len() {
            assert(s.done(s.finished[i]));
        }
    }
    assert forall|t: int| 0 <= t < n.phases.len() && #[trigger] n.done(t) implies n.finished.contains(
        t,
    ) by {
        if t == ticket {
            assert(n.finished[s.finished.len() as int] == ticket);
        } else {
            assert(s.done(t));
            let i = choose|i: int| 0 <= i < s.finished.len() && s.finished[i] == t;
            assert(n.finished[i] == t);
        }
    }
}

proof fn lemma_close_inv<J>(s: PoolState<J>)
    requires
        s.inv(),
    ensures
        s.close().inv(),
{
    let n = s.close();
    assert forall|t: int| 0 <= t < n.phases.len() && #[trigger] n.done(t) implies n.finished.contains(
        t,
    ) by {
        assert(s.done(t));
    }
}

proof fn lemma_join_inv<J>(s: PoolState<J>, w: int, exit: Exit)
    requires
        s.inv(),
        s.has_worker(w),
        s.closed,
        exit is Clean ==> s.workers[w] is Exited,
    ensures
        s.join(w, exit).inv(),
{
    let n = s.join(w, exit);
    assert forall|t: int| 0 <= t < n.phases.len() && #[trigger] n.done(t) implies n.finished.contains(
        t,
    ) by {
        assert(s.done(t));
    }
    assert forall|i: int| 0 <= i < n.finished.len() implies 0 <= #[trigger] n.finished[i]
        < n.phases.len() && n.done(n.finished[i]) by {
        assert(s.done(s.finished[i]));
    }
}

/// No event leads out of the valid states.
pub proof fn lemma_apply_inv<J>(s: PoolState<J>, event: Event<J>)
    requires
        s.inv(),
    ensures
        s.apply(event).inv(),
{
    if s.refusal(event) is None {
        match event {
            Event::Submit { job } => lemma_submit_inv(s, job),
            Event::Fetch { worker } => match s.offer() {
                Step::Run(_) => lemma_dispatch_inv(s, worker),
                Step::Stop => lemma_retire_inv(s, worker),
                Step::Wait => {},
            },
            Event::Finish { worker, outcome } => lemma_finish_inv(s, worker, outcome),
            Event::Shutdown => lemma_close_inv(s),
            Event::Join { worker, exit } => lemma_join_inv(s, worker, exit),
        }
    }
}

/// Every state that a pool of at least one worker reaches is valid.
pub proof fn lemma_run_inv<J>(s: PoolState<J>, trace: Seq<Event<J>>)
    requires
        s.inv(),
    ensures
        s.run(trace).inv(),
    decreases trace.len(),
{
    if trace.len() > 0 {
        lemma_run_inv(s, trace.drop_last());
        lemma_apply_inv(s.run(trace.drop_last()), trace.last());
    }
}

/// Exactly once, after a clean shutdown: when every worker has left its loop
/// by itself and has been joined, the queue is empty and the log of ended
/// runs holds every accepted job once. A pool that ran M accepted jobs has
/// logged M runs.
pub proof fn lemma_clean_shutdown_ran_every_job<J>(s: PoolState<J>)
    requires
        s.inv(),
        s.shut_down_cleanly(),
    ensures
        s.queue().len() == 0,
        s.finished.len() == s.jobs.len(),
        forall|t: int|
            0 <= t < s.jobs.len() ==> #[trigger] s.done(t) && s.finished.to_multiset().count(t)
                == 1,
{
    let n = s.jobs.len() as int;
    assert(s.workers[0] is Joined);
    assert forall|t: int| 0 <= t < n implies #[trigger] s.done(t) by {
        match s.phases[t] {
            Phase::Running { worker } => {
                assert(s.workers[worker] is Joined);
            },
            Phase::Abandoned { worker } => {
                assert(s.workers[worker] is Joined);
            },
            _ => {},
        }
    }
    assert(s.finished.to_set() =~= set_int_range(0, n)) by {
        assert forall|t: int| set_int_range(0, n).contains(t) implies s.finished.to_set().contains(
            t,
        ) by {
            assert(s.done(t));
        }
    }
    s.finished.unique_seq_to_set();
    lemma_int_range(0, n);
    s.finished.lemma_multiset_has_no_duplicates();
    s.finished.to_multiset_ensures();
    assert forall|t: int| 0 <= t < n implies s.finished.to_multiset().count(t) == 1 by {
        assert(s.done(t));
        assert(s.finished.contains(t));
    }
}

/// All work executes exactly once: whatever happens to a pool of at least one
/// worker, once it is shut down cleanly every job that it accepted has been
/// run once, and as many runs have ended as jobs were accepted.
pub proof fn lemma_all_work_executes_exactly_once<J>(size: int, trace: Seq<Event<J>>)
    requires
        size >= 1,
    ensures
        ({
            let s = PoolState::<J>::init(size).run(trace);
            s.shut_down_cleanly() ==> {
                &&& s.queue().len() == 0
                &&& s.finished.len() == s.jobs.len()
                &&& forall|t: int|
                    0 <= t < s.jobs.len() ==> #[trigger] s.done(t)
                        && s.finished.to_multiset().count(t) == 1
            }
        }),
{
    let s = PoolState::<J>::init(size).run(trace);
    lemma_init_inv::<J>(size);
    lemma_run_inv(PoolState::<J>::init(size), trace);
    if s.shut_down_cleanly() {
        lemma_clean_shutdown_ran_every_job(s);
    }
}

/// Bounded concurrency: a pool never runs more jobs at once than it has
/// workers.
pub proof fn lemma_bounded_concurrency<J>(s: PoolState<J>)
    requires
        s.inv(),
    ensures
        s.running().finite(),
        s.running().len() <= s.size(),
{
    let running = s.running();
    let worker_of = |t: int| s.phases[t]->Running_worker;
    let all_tickets = set_int_range(0, s.phases.len() as int);
    let all_workers = set_int_range(0, s.size());
    lemma_int_range(0, s.phases.len() as int);
    lemma_int_range(0, s.size());
    assert(running.subset_of(all_tickets));
    vstd::set_lib::lemma_set_subset_finite(all_tickets, running);
    assert(vstd::relations::injective_on(worker_of, running)) by {
        assert forall|a: int, b: int|
            running.contains(a) && running.contains(b) && #[trigger] worker_of(a)
                == #[trigger] worker_of(b) implies a == b by {
            assert(s.workers[worker_of(a)] == Slot::Busy { ticket: a });
            assert(s.workers[worker_of(b)] == Slot::Busy { ticket: b });
        }
    }
    let busy = running.map(worker_of);
    lemma_map_size(running, busy, worker_of);
    assert(busy.subset_of(all_workers)) by {
        assert forall|w: int| busy.contains(w) implies all_workers.contains(w) by {
            let t = choose|t: int| running.contains(t) && w == worker_of(t);
            assert(s.has_worker(worker_of(t)));
        }
    }
    lemma_len_subset(busy, all_workers);
}

/// Bounded concurrency, of every state that a pool of `size` workers
/// reaches: at most `size` jobs are being run.
pub proof fn lemma_never_more_running_than_workers<J>(size: int, trace: Seq<Event<J>>)
    requires
        size >= 1,
    ensures
        PoolState::<J>::init(size).run(trace).running().finite(),
        PoolState::<J>::init(size).run(trace).running().len() <= size,
{
    lemma_init_inv::<J>(size);
    lemma_run_inv(PoolState::<J>::init(size), trace);
    lemma_run_keeps_size(PoolState::<J>::init(size), trace);
    lemma_bounded_concurrency(PoolState::<J>::init(size).run(trace));
}

/// The set of workers is fixed, and nothing that happened is undone: an
/// event changes neither the number of workers nor the ticket of an accepted
/// job; shutdown, once begun, stays; tickets are handed out in rising order;
/// the log of ended runs only grows, and an ended run stays ended.
pub proof fn lemma_apply_keeps_history<J>(s: PoolState<J>, event: Event<J>)
    requires
        s.inv(),
    ensures
        s.apply(event).size() == s.size(),
        s.closed ==> s.apply(event).closed,
        s.jobs.is_prefix_of(s.apply(event).jobs),
        s.started <= s.apply(event).started <= s.started + 1,
        s.finished.is_prefix_of(s.apply(event).finished),
        forall|t: int| 0 <= t < s.jobs.len() && #[trigger] s.done(t) ==> s.apply(event).done(t),
{
    let n = s.apply(event);
    assert forall|t: int| 0 <= t < s.jobs.len() && #[trigger] s.done(t) implies n.done(t) by {
        if s.refusal(event) is None {
            match event {
                Event::Finish { worker, outcome } => {
                    assert(s.phases[s.workers[worker]->ticket] is Running);
                },
                Event::Join { worker, exit } => {
                    if s.workers[worker] is Busy {
                        assert(s.phases[s.workers[worker]->ticket] is Running);
                    }
                },
                _ => {},
            }
        }
    }
}

/// The number of workers is the same in every state that a pool reaches.
pub proof fn lemma_run_keeps_size<J>(s: PoolState<J>, trace: Seq<Event<J>>)
    requires
        s.inv(),
    ensures
        s.run(trace).size() == s.size(),
    decreases trace.len(),
{
    if trace.len() > 0 {
        lemma_run_keeps_size(s, trace.drop_last());
        lemma_run_inv(s, trace.drop_last());
        lemma_apply_keeps_history(s.run(trace.drop_last()), trace.last());
    }
}

/// Shutdown drains what is in flight: beginning shutdown touches no worker
/// and no job, and the worker that runs a job can still end the run, which
/// is then logged.
pub proof fn lemma_shutdown_lets_running_jobs_finish<J>(s: PoolState<J>, w: int, outcome: Outcome)
    requires
        s.inv(),
        s.has_worker(w),
        s.workers[w] is Busy,
    ensures
        ({
            let ticket = s.workers[w]->ticket;
            let closing = s.apply(Event::Shutdown);
            let end = Event::Finish { worker: w, outcome };
            &&& closing.closed
            &&& closing.workers == s.workers
            &&& closing.jobs == s.jobs
            &&& closing.phases == s.phases
            &&& closing.refusal(end) is None
            &&& closing.apply(end).done(ticket)
            &&& closing.apply(end).finished.last() == ticket
        }),
{
}

/// A job in flight is left alone: while a worker runs a job, no event but
/// the end of that run, or the death of that worker, changes what the worker
/// does or the phase of its job.
pub proof fn lemma_running_job_is_undisturbed<J>(s: PoolState<J>, w: int, event: Event<J>)
    requires
        s.inv(),
        s.has_worker(w),
        s.workers[w] is Busy,
        !(event matches Event::Finish { worker, .. } && worker == w),
        !(event matches Event::Join { worker, exit } && worker == w && exit is Abnormal),
    ensures
        s.apply(event).workers[w] == s.workers[w],
        s.apply(event).phases[s.workers[w]->ticket] == s.phases[s.workers[w]->ticket],
{
    let ticket = s.workers[w]->ticket;
    assert(s.phases[ticket] == Phase::Running { worker: w });
    if s.refusal(event) is None {
        match event {
            Event::Finish { worker, outcome } => {
                assert(s.phases[s.workers[worker]->ticket] == Phase::Running { worker });
            },
            Event::Join { worker, exit } => {
                if s.workers[worker] is Busy {
                    assert(s.phases[s.workers[worker]->ticket] == Phase::Running { worker });
                }
            },
            _ => {},
        }
    }
}

/// Shutdown drops what comes late: once shutdown has begun a submission is
/// refused as `Closed` and leaves the pool as it was.
pub proof fn lemma_no_work_accepted_after_shutdown<J>(s: PoolState<J>, job: J)
    requires
        s.closed,
    ensures
        s.refusal(Event::Submit { job }) == Some(PoolError::Closed),
        s.apply(Event::Submit { job }) == s,
{
}

/// Once shutdown has begun, nothing that happens later adds a job: the jobs
/// that the pool will ever run are those it had accepted by then.
pub proof fn lemma_jobs_are_fixed_after_shutdown<J>(s: PoolState<J>, trace: Seq<Event<J>>)
    requires
        s.inv(),
        s.closed,
    ensures
        s.run(trace).closed,
        s.run(trace).jobs == s.jobs,
    decreases trace.len(),
{
    if trace.len() > 0 {
        lemma_jobs_are_fixed_after_shutdown(s, trace.drop_last());
        lemma_run_inv(s, trace.drop_last());
    }
}

/// What the single worker of a pool of one has done so far.
spec fn in_order<J>(s: PoolState<J>) -> bool {
    &&& forall|i: int| 0 <= i < s.finished.len() ==> #[trigger] s.finished[i] == i
    &&& s.workers[0] matches Slot::Busy { ticket } ==> ticket == s.finished.len() && s.started
        == ticket + 1
    &&& s.workers[0] is Idle ==> s.started == s.finished.len()
}

proof fn lemma_apply_in_order<J>(s: PoolState<J>, event: Event<J>)
    requires
        s.inv(),
        s.size() == 1,
        in_order(s),
    ensures
        in_order(s.apply(event)),
{
}

proof fn lemma_run_in_order<J>(s: PoolState<J>, trace: Seq<Event<J>>)
    requires
        s.inv(),
        s.size() == 1,
        in_order(s),
    ensures
        in_order(s.run(trace)),
        s.run(trace).size() == 1,
        s.run(trace).inv(),
    decreases trace.len(),
{
    if trace.len() > 0 {
        lemma_run_in_order(s, trace.drop_last());
        lemma_apply_keeps_history(s.run(trace.drop_last()), trace.last());
        lemma_apply_in_order(s.run(trace.drop_last()), trace.last());
        lemma_apply_inv(s.run(trace.drop_last()), trace.last());
    }
}

/// First in, first out, with a single worker: whatever happens to a pool of
/// one worker, it ends the runs of its jobs in the order in which it
/// accepted them; after a clean shutdown the jobs it ran, in the order of
/// their runs, are the jobs it accepted, in the order of acceptance.
pub proof fn lemma_single_worker_runs_jobs_in_order<J>(trace: Seq<Event<J>>)
    ensures
        ({
            let s = PoolState::<J>::init(1).run(trace);
            &&& forall|i: int| 0 <= i < s.finished.len() ==> #[trigger] s.finished[i] == i
            &&& s.finished.len() <= s.jobs.len()
            &&& s.executed() == s.jobs.take(s.finished.len() as int)
            &&& s.shut_down_cleanly() ==> s.executed() == s.jobs
        }),
{
    let s = PoolState::<J>::init(1).run(trace);
    lemma_init_inv::<J>(1);
    lemma_run_in_order(PoolState::<J>::init(1), trace);
    assert(s.finished.len() <= s.jobs.len()) by {
        if s.finished.len() > 0 {
            assert(s.finished[s.finished.len() - 1] < s.phases.len());
        }
    }
    assert(s.executed() =~= s.jobs.take(s.finished.len() as int));
    if s.shut_down_cleanly() {
        lemma_clean_shutdown_ran_every_job(s);
        assert(s.jobs.take(s.jobs.len() as int) =~= s.jobs);
    }
}

/// No duplication, no silent drop: a job that is being run is run by one
/// worker and no other, and a job that no worker has taken yet is in the
/// queue, at the place that its ticket gives it.
pub proof fn lemma_one_worker_per_job<J>(s: PoolState<J>, t: int)
    requires
        s.inv(),
        0 <= t < s.jobs.len(),
    ensures
        s.phases[t] matches Phase::Running { worker } ==> forall|w: int|
            s.has_worker(w) ==> (s.workers[w] == (Slot::Busy { ticket: t }) <==> w == worker),
        s.phases[t] is Queued ==> s.started <= t && s.queue()[t - s.started] == s.jobs[t],
{
}

/// The oldest job goes first: an idle worker that asks for work while jobs
/// wait is handed the job at the head of the queue, and nothing else in the
/// queue moves. A worker is told to stop only when the queue is closed and
/// drained, and to wait only when it is open and empty.
pub proof fn lemma_dispatch_is_first_in_first_out<J>(s: PoolState<J>, w: int)
    requires
        s.inv(),
        s.has_worker(w),
        s.workers[w] is Idle,
    ensures
        s.refusal(Event::Fetch { worker: w }) is None,
        s.queue().len() > 0 ==> {
            &&& s.offer() == Step::Run(s.queue()[0])
            &&& s.apply(Event::Fetch { worker: w }).queue() == s.queue().drop_first()
            &&& s.apply(Event::Fetch { worker: w }).workers[w] == (Slot::Busy { ticket: s.started })
        },
        s.offer() is Stop <==> s.closed && s.queue().len() == 0,
        s.offer() is Wait <==> !s.closed && s.queue().len() == 0,
{
    if s.queue().len() > 0 {
        assert(s.apply(Event::Fetch { worker: w }).queue() =~= s.queue().drop_first());
    }
}

/// Shutdown is total: when it is over, no worker waits for work or runs a
/// job, and nothing that happens afterwards changes the pool.
pub proof fn lemma_shutdown_is_total<J>(s: PoolState<J>, event: Event<J>)
    requires
        s.inv(),
        s.closed,
        forall|w: int| 0 <= w < s.workers.len() ==> s.joined(w),
    ensures
        forall|w: int|
            0 <= w < s.workers.len() ==> !(#[trigger] s.workers[w] is Idle) && !(s.workers[w]
                is Busy),
        s.running() =~= Set::<int>::empty(),
        s.refusal(event) is Some,
        s.apply(event) == s,
{
    assert forall|w: int| 0 <= w < s.workers.len() implies !(#[trigger] s.workers[w] is Idle) && !(
    s.workers[w] is Busy) by {
        assert(s.joined(w));
    }
    assert forall|t: int| !s.running().contains(t) by {
        if 0 <= t < s.phases.len() && s.phases[t] is Running {
            assert(s.joined(s.phases[t]->Running_worker));
        }
    }
    match event {
        Event::Fetch { worker } => {
            if s.has_worker(worker) {
                assert(s.joined(worker));
            }
        },
        Event::Finish { worker, outcome } => {
            if s.has_worker(worker) {
                assert(s.joined(worker));
            }
        },
        Event::Join { worker, exit } => {
            if s.has_worker(worker) {
                assert(s.joined(worker));
            }
        },
        _ => {},
    }
}

} // verus!
