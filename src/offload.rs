//! A task channel: producers submit jobs, the host thread drains them in
//! submission order, and each submitter collects its job's result through a
//! [`Future`].
//!
//! The channel is a single owned value; callers on several threads share it
//! behind a lock and do their blocking outside of it.
use vstd::prelude::*;
use std::collections::VecDeque;

verus! {

/// The tickets `0, 1, ..., n - 1`, in order.
pub open spec fn ids(n: nat) -> Seq<u64> {
    Seq::new(n, |i: int| i as u64)
}

/// The other side of the channel is gone.
#[derive(Debug, Clone, Copy, PartialEq, Eq, Structural)]
pub struct Disconnected;

/// Why a non-blocking tick did no work.
#[derive(Debug, Clone, Copy, PartialEq, Eq, Structural)]
pub enum TryTickError {
    /// Nothing is queued, but producers may still submit.
    Empty,
    /// Nothing is queued and every producer has hung up.
    Disconnected,
}

/// A claim on the result of one submitted job.
#[derive(Debug)]
pub struct Future {
    ticket: u64,
}

impl Future {
    pub closed spec fn id(&self) -> u64 {
        self.ticket
    }

    /// The position of this job in its channel's submission order.
    pub fn ticket(&self) -> (r: u64)
        ensures
            r == self.id(),
    {
        self.ticket
    }
}

/// A FIFO of jobs of type `J`, each producing a result of type `R` when the
/// consumer runs it.
pub struct TaskSender<J, R> {
    queue: VecDeque<(u64, J)>,
    finished: Vec<(u64, R)>,
    next_ticket: u64,
    consumer_stopped: bool,
    producers_closed: bool,
    log: Ghost<Seq<u64>>,
    dropped: Ghost<Seq<u64>>,
    in_flight: Option<u64>,
}

impl<J, R> TaskSender<J, R> {
    /// Tickets of the queued jobs, front first.
    pub closed spec fn pending(&self) -> Seq<u64> {
        self.queue@.map_values(|p: (u64, J)| p.0)
    }

    /// The queued jobs, front first.
    pub closed spec fn pending_jobs(&self) -> Seq<J> {
        self.queue@.map_values(|p: (u64, J)| p.1)
    }

    /// Tickets of the jobs that have run, in the order they ran.
    pub closed spec fn executed(&self) -> Seq<u64> {
        self.log@
    }

    /// Tickets of the jobs thrown away because the consumer stopped.
    pub closed spec fn discarded(&self) -> Seq<u64> {
        self.dropped@
    }

    /// Results not yet collected, each with its job's ticket.
    pub closed spec fn results(&self) -> Seq<(u64, R)> {
        self.finished@
    }

    /// How many jobs have been submitted.
    pub closed spec fn submitted(&self) -> nat {
        self.next_ticket as nat
    }

    /// The consumer has stopped for good.
    pub closed spec fn stopped(&self) -> bool {
        self.consumer_stopped
    }

    /// Every producer has hung up.
    pub closed spec fn closed(&self) -> bool {
        self.producers_closed
    }

    /// The ticket of the job the consumer has taken out and is running, if
    /// any.
    pub closed spec fn running(&self) -> Option<u64> {
        self.in_flight
    }

    pub closed spec fn wf(&self) -> bool {
        &&& self.log@ + self.dropped@ + self.pending() == ids(self.next_ticket as nat)
        &&& self.consumer_stopped ==> self.queue@.len() == 0
        &&& !self.consumer_stopped ==> self.dropped@.len() == 0
        &&& forall|i: int|
            0 <= i < self.finished@.len() ==> #[trigger] self.log@.contains(self.finished@[i].0)
        &&& forall|i: int, k: int|
            0 <= i < k < self.finished@.len() ==> self.finished@[i].0 != self.finished@[k].0
        &&& self.in_flight matches Some(t) ==> {
            &&& self.log@.contains(t)
            &&& forall|i: int| 0 <= i < self.finished@.len() ==> self.finished@[i].0 != t
        }
    }

    /// The job with ticket `t` has no result yet but will get one: it is
    /// queued, or the consumer is running it.
    pub open spec fn is_queued_spec(&self, t: u64) -> bool {
        self.pending().contains(t) || self.running() == Some(t)
    }

    /// A result for ticket `t` is waiting to be collected.
    pub open spec fn has_result(&self, t: u64) -> bool {
        exists|i: int| 0 <= i < self.results().len() && (#[trigger] self.results()[i]).0 == t
    }

    /// A fresh channel: nothing submitted, both sides connected.
    pub fn new() -> (r: Self)
        ensures
            r.wf(),
            r.submitted() == 0,
            r.pending().len() == 0,
            r.executed().len() == 0,
            r.results().len() == 0,
            !r.stopped(),
            !r.closed(),
    {
        let r = TaskSender {
            queue: VecDeque::new(),
            finished: Vec::new(),
            next_ticket: 0,
            consumer_stopped: false,
            producers_closed: false,
            log: Ghost(Seq::empty()),
            dropped: Ghost(Seq::empty()),
            in_flight: None,
        };
        proof {
            assert(r.pending() =~= Seq::<u64>::empty());
            assert(ids(0) =~= Seq::<u64>::empty());
            assert(r.log@ + r.dropped@ + r.pending() =~= Seq::<u64>::empty());
        }
        r
    }
    proof fn lemma_layout(&self)
        requires
            self.wf(),
        ensures
            self.executed().len() + self.discarded().len() + self.pending().len() == self.submitted(),
            forall|i: int| 0 <= i < self.executed().len() ==> self.executed()[i] == i,
            forall|i: int|
                0 <= i < self.discarded().len() ==> self.discarded()[i] == self.executed().len() + i,
            forall|k: int|
                0 <= k < self.pending().len() ==> self.pending()[k] == self.executed().len()
                    + self.discarded().len() + k,
    {
        let all = self.log@ + self.dropped@ + self.pending();
        assert(all.len() == self.next_ticket);
        assert forall|i: int| 0 <= i < self.executed().len() implies self.executed()[i] == i by {
            assert(all[i] == self.log@[i]);
        }
        assert forall|i: int| 0 <= i < self.discarded().len() implies self.discarded()[i]
            == self.executed().len() + i by {
            assert(all[self.log@.len() + i] == self.dropped@[i]);
        }
        assert forall|k: int| 0 <= k < self.pending().len() implies self.pending()[k]
            == self.executed().len() + self.discarded().len() + k by {
            assert(all[self.log@.len() + self.dropped@.len() + k] == self.pending()[k]);
        }
    }

    /// Whether the job behind `fut` is still waiting in the queue.
    pub fn is_queued(&self, fut: &Future) -> (r: bool)
        requires
            self.wf(),
        ensures
            r == self.is_queued_spec(fut.id()),
    {
        proof {
            self.lemma_layout();
        }
        let len = self.queue.len();
        let t = fut.ticket;
        let in_queue = t < self.next_ticket && t >= self.next_ticket - len as u64;
        let r = in_queue || self.in_flight == Some(t);
        proof {
            let base = self.executed().len() + self.discarded().len();
            if in_queue {
                let k = t - base;
                assert(self.pending()[k] == t);
            }
            if self.pending().contains(t) {
                let k = choose|k: int| 0 <= k < self.pending().len() && self.pending()[k] == t;
                assert(self.pending()[k] == base + k);
            }
        }
        r
    }

    /// How many jobs have been submitted so far.
    pub fn submitted_count(&self) -> (r: u64)
        ensures
            r == self.submitted(),
    {
        self.next_ticket
    }

    /// Push a job for the consumer and hand back a claim on its result.
    ///
    /// Never blocks. Once the consumer has stopped, the job is thrown away at
    /// once and waiting on the returned future reports [`Disconnected`].
    pub fn send(&mut self, job: J) -> (fut: Future)
        requires
            old(self).wf(),
            old(self).submitted() < u64::MAX,
        ensures
            final(self).wf(),
            fut.id() == old(self).submitted(),
            final(self).submitted() == old(self).submitted() + 1,
            final(self).executed() == old(self).executed(),
            final(self).results() == old(self).results(),
            final(self).stopped() == old(self).stopped(),
            final(self).closed() == old(self).closed(),
            !old(self).stopped() ==> {
                &&& final(self).pending() == old(self).pending().push(fut.id())
                &&& final(self).pending_jobs() == old(self).pending_jobs().push(job)
                &&& final(self).discarded() == old(self).discarded()
            },
            old(self).stopped() ==> {
                &&& final(self).pending() == old(self).pending()
                &&& final(self).pending_jobs() == old(self).pending_jobs()
                &&& final(self).discarded() == old(self).discarded().push(fut.id())
            },
    {
        let t = self.next_ticket;
        proof {
            assert(ids((t + 1) as nat) =~= ids(t as nat).push(t));
        }
        if self.consumer_stopped {
            self.dropped = Ghost(self.dropped@.push(t));
            proof {
                assert(self.log@ + self.dropped@ + self.pending() =~= ids((t + 1) as nat));
            }
        } else {
            let ghost before = self.queue@;
            self.queue.push_back((t, job));
            proof {
                assert(self.pending() =~= before.map_values(|p: (u64, J)| p.0).push(t));
                assert(self.pending_jobs() =~= before.map_values(|p: (u64, J)| p.1).push(job));
                assert(self.log@ + self.dropped@ + self.pending() =~= ids((t + 1) as nat));
            }
        }
        self.next_ticket = t + 1;
        Future { ticket: t }
    }

    /// The consumer stops for good: queued jobs are thrown away, and so is
    /// every job submitted from now on.
    pub fn stop_draining(&mut self)
        requires
            old(self).wf(),
        ensures
            final(self).wf(),
            final(self).stopped(),
            final(self).pending().len() == 0,
            final(self).discarded() == old(self).discarded() + old(self).pending(),
            final(self).executed() == old(self).executed(),
            final(self).results() == old(self).results(),
            final(self).submitted() == old(self).submitted(),
            final(self).closed() == old(self).closed(),
    {
        let ghost gone = self.pending();
        self.dropped = Ghost(self.dropped@ + gone);
        self.queue = VecDeque::new();
        self.consumer_stopped = true;
        proof {
            assert(self.pending() =~= Seq::<u64>::empty());
            assert(self.log@ + self.dropped@ + self.pending() =~= self.log@ + old(self).dropped@
                + gone);
        }
    }

    /// Every producer hangs up: once the queue runs dry, ticks report
    /// [`TryTickError::Disconnected`].
    pub fn close(&mut self)
        requires
            old(self).wf(),
        ensures
            final(self).wf(),
            final(self).closed(),
            final(self).pending() == old(self).pending(),
            final(self).pending_jobs() == old(self).pending_jobs(),
            final(self).discarded() == old(self).discarded(),
            final(self).executed() == old(self).executed(),
            final(self).results() == old(self).results(),
            final(self).submitted() == old(self).submitted(),
            final(self).stopped() == old(self).stopped(),
    {
        self.producers_closed = true;
    }
}


/// `after` is `before` with its front job run once, producing `out`.
pub open spec fn ticked<J, R>(before: TaskSender<J, R>, after: TaskSender<J, R>, out: R) -> bool {
    &&& before.pending().len() > 0
    &&& after.executed() == before.executed().push(before.pending()[0])
    &&& after.pending() == before.pending().drop_first()
    &&& after.pending_jobs() == before.pending_jobs().drop_first()
    &&& after.results() == before.results().push((before.pending()[0], out))
    &&& after.discarded() == before.discarded()
    &&& after.submitted() == before.submitted()
    &&& after.stopped() == before.stopped()
    &&& after.closed() == before.closed()
}

/// Run the job at the front of the queue, if there is one, with `run`
/// standing for the host it executes against.
///
/// Never blocks: on an empty queue it does nothing and says why.
pub fn try_tick<J, R, F: Fn(J) -> R>(chan: &mut TaskSender<J, R>, run: &F) -> (r: Result<
    (),
    TryTickError,
>)
    requires
        old(chan).wf(),
        forall|j: J| run.requires((j,)),
    ensures
        final(chan).wf(),
        match r {
            Ok(()) => {
                &&& ticked(*old(chan), *final(chan), final(chan).results().last().1)
                &&& run.ensures((old(chan).pending_jobs()[0],), final(chan).results().last().1)
            },
            Err(e) => {
                &&& old(chan).pending().len() == 0
                &&& *final(chan) == *old(chan)
                &&& (e == TryTickError::Disconnected <==> old(chan).closed())
            },
        },
{
    proof {
        chan.lemma_layout();
    }
    let ghost before = *chan;
    if chan.queue.len() == 0 {
        return if chan.producers_closed {
            Err(TryTickError::Disconnected)
        } else {
            Err(TryTickError::Empty)
        };
    }
    match chan.queue.pop_front() {
        Some(front) => {
            let (t, job) = front;
            let out = run(job);
            proof {
                assert(before.pending()[0] == t);
                assert(before.pending_jobs()[0] == job);
                assert forall|i: int| 0 <= i < chan.finished@.len() implies chan.finished@[i].0
                    != t by {
                    let e = chan.finished@[i].0;
                    assert(before.log@.contains(e));
                    let k = choose|k: int| 0 <= k < before.log@.len() && before.log@[k] == e;
                    assert(before.dropped@.len() == 0);
                }
            }
            proof {
                if let Some(f) = before.in_flight {
                    assert(before.log@.contains(f));
                    let k = choose|k: int| 0 <= k < before.log@.len() && before.log@[k] == f;
                    assert(before.dropped@.len() == 0);
                    assert(f != t);
                }
            }
            chan.finished.push((t, out));
            chan.log = Ghost(chan.log@.push(t));
            proof {
                if let Some(f) = chan.in_flight {
                    let k = choose|k: int| 0 <= k < before.log@.len() && before.log@[k] == f;
                    assert(chan.log@[k] == f);
                    assert forall|i: int| 0 <= i < chan.finished@.len() implies chan.finished@[i].0 != f by {
                        if i < before.finished@.len() {
                            assert(chan.finished@[i] == before.finished@[i]);
                        }
                    }
                }
            }
            proof {
                assert(chan.pending() =~= before.pending().drop_first());
                assert(chan.pending_jobs() =~= before.pending_jobs().drop_first());
                assert(chan.log@ + chan.dropped@ + chan.pending() =~= before.log@ + before.dropped@
                    + before.pending());
                assert forall|i: int| 0 <= i < chan.finished@.len() implies #[trigger] chan.log@.contains(
                    chan.finished@[i].0,
                ) by {
                    if i < before.finished@.len() {
                        assert(before.log@.contains(before.finished@[i].0));
                        let k = choose|k: int|
                            0 <= k < before.log@.len() && before.log@[k] == before.finished@[i].0;
                        assert(chan.log@[k] == before.log@[k]);
                    } else {
                        assert(chan.log@[before.log@.len() as int] == t);
                    }
                }
                assert(ticked(before, *chan, out));
                assert(chan.results().last().1 == out);
            }
            Ok(())
        },
        None => Err(TryTickError::Empty),
    }
}


/// `a` and `b` agree on everything but the uncollected results.
pub open spec fn same_but_results<J, R>(a: TaskSender<J, R>, b: TaskSender<J, R>) -> bool {
    &&& a.executed() == b.executed()
    &&& a.pending() == b.pending()
    &&& a.pending_jobs() == b.pending_jobs()
    &&& a.discarded() == b.discarded()
    &&& a.submitted() == b.submitted()
    &&& a.stopped() == b.stopped()
    &&& a.closed() == b.closed()
}

/// Run the job at the front of the queue.
///
/// With nothing queued this would block until a producer submits, so it is
/// called only when a job is queued or every producer has hung up; in the
/// latter case an empty queue gives [`Disconnected`].
pub fn tick<J, R, F: Fn(J) -> R>(chan: &mut TaskSender<J, R>, run: &F) -> (r: Result<
    (),
    Disconnected,
>)
    requires
        old(chan).wf(),
        old(chan).pending().len() > 0 || old(chan).closed(),
        forall|j: J| run.requires((j,)),
    ensures
        final(chan).wf(),
        match r {
            Ok(()) => {
                &&& ticked(*old(chan), *final(chan), final(chan).results().last().1)
                &&& run.ensures((old(chan).pending_jobs()[0],), final(chan).results().last().1)
            },
            Err(_) => old(chan).pending().len() == 0 && *final(chan) == *old(chan),
        },
{
    match try_tick(chan, run) {
        Ok(()) => Ok(()),
        Err(_) => Err(Disconnected),
    }
}

impl Future {
    /// Collect the result of this future's job.
    ///
    /// Called once the job has left the queue (the caller blocks until then);
    /// gives the value the job computed, or [`Disconnected`] when the job was
    /// thrown away without running.
    pub fn wait<J, R>(self, chan: &mut TaskSender<J, R>) -> (r: Result<R, Disconnected>)
        requires
            old(chan).wf(),
            !old(chan).is_queued_spec(self.id()),
        ensures
            final(chan).wf(),
            same_but_results(*old(chan), *final(chan)),
            match r {
                Ok(v) => exists|i: int|
                    0 <= i < old(chan).results().len() && #[trigger] old(chan).results()[i] == (
                        self.id(),
                        v,
                    ) && final(chan).results() == old(chan).results().remove(i),
                Err(_) => !old(chan).has_result(self.id()) && final(chan).results() == old(
                    chan,
                ).results(),
            },
    {
        let t = self.ticket;
        let n = chan.finished.len();
        let mut i: usize = 0;
        while i < n
            invariant
                *chan == *old(chan),
                chan.wf(),
                t == self.id(),
                n == chan.finished@.len(),
                0 <= i <= n,
                forall|k: int| 0 <= k < i ==> (#[trigger] chan.finished@[k]).0 != t,
            decreases n - i,
        {
            if chan.finished[i].0 == t {
                let ghost before = *chan;
                let (_, v) = chan.finished.remove(i);
                proof {
                    assert(before.results()[i as int] == (t, v));
                    assert(chan.results() == before.results().remove(i as int));
                    assert(old(chan).results()[i as int] == (self.id(), v));
                    assert(chan.results() == old(chan).results().remove(i as int));
                    assert forall|a: int, b: int|
                        0 <= a < b < chan.finished@.len() implies chan.finished@[a].0
                        != chan.finished@[b].0 by {
                        let a2 = if a < i { a } else { a + 1 };
                        let b2 = if b < i { b } else { b + 1 };
                        assert(chan.finished@[a] == before.finished@[a2]);
                        assert(chan.finished@[b] == before.finished@[b2]);
                    }
                    assert forall|a: int| 0 <= a < chan.finished@.len() implies #[trigger] chan.log@.contains(
                        chan.finished@[a].0,
                    ) by {
                        let a2 = if a < i { a } else { a + 1 };
                        assert(chan.finished@[a] == before.finished@[a2]);
                        assert(before.log@.contains(before.finished@[a2].0));
                    }
                }
                return Ok(v);
            }
            i = i + 1;
        }
        Err(Disconnected)
    }
}


impl<J, R> TaskSender<J, R> {
    /// Submit `job` and run it at once on the calling thread, with `exec`
    /// standing for the host: every job queued before it runs first, in
    /// order, and the value `job` computes is handed back.
    pub fn run<F: Fn(J) -> R>(&mut self, job: J, exec: &F) -> (r: R)
        requires
            old(self).wf(),
            old(self).submitted() < u64::MAX,
            !old(self).stopped(),
            forall|j: J| exec.requires((j,)),
        ensures
            final(self).wf(),
            exec.ensures((job,), r),
            final(self).executed() == old(self).executed() + old(self).pending().push(
                old(self).submitted() as u64,
            ),
            final(self).pending().len() == 0,
            final(self).submitted() == old(self).submitted() + 1,
            final(self).results().len() == old(self).results().len() + old(self).pending().len(),
            final(self).results().subrange(0, old(self).results().len() as int) == old(
                self,
            ).results(),
            final(self).discarded() == old(self).discarded(),
            !final(self).stopped(),
            final(self).closed() == old(self).closed(),
    {
        let ghost g = job;
        let ghost start = *self;
        let fut = self.send(job);
        let t = fut.ticket;
        let ghost target = start.executed() + start.pending().push(t);
        proof {
            assert(self.executed() + self.pending() =~= target);
        }
        while self.queue.len() > 1
            invariant
                self.wf(),
                !self.stopped(),
                self.pending().len() >= 1,
                self.pending().last() == t,
                self.pending_jobs().len() == self.pending().len(),
                self.pending_jobs().last() == g,
                self.executed() + self.pending() == target,
                self.results().len() == start.results().len() + (self.executed().len()
                    - start.executed().len()),
                self.results().subrange(0, start.results().len() as int) == start.results(),
                self.executed().len() >= start.executed().len(),
                self.submitted() == start.submitted() + 1,
                self.discarded() == start.discarded(),
                self.closed() == start.closed(),
                forall|j: J| exec.requires((j,)),
            decreases self.pending().len(),
        {
            let ghost before = *self;
            let _ = try_tick(self, exec);
            proof {
                assert(self.pending() == before.pending().drop_first());
                assert(self.executed() + self.pending() =~= before.executed() + before.pending());
                assert(self.results().subrange(0, start.results().len() as int) =~= before.results().subrange(
                    0,
                    start.results().len() as int,
                ));
            }
        }
        proof {
            self.lemma_layout();
        }
        let ghost before = *self;
        let (t2, j2) = self.queue.pop_front().unwrap();
        proof {
            assert(before.pending()[0] == t2);
            assert(before.pending_jobs()[0] == j2);
        }
        let out = exec(j2);
        self.log = Ghost(self.log@.push(t2));
        proof {
            if let Some(f) = self.in_flight {
                let k = choose|k: int| 0 <= k < before.log@.len() && before.log@[k] == f;
                assert(self.log@[k] == f);
            }
        }
        proof {
            assert(self.pending() =~= Seq::<u64>::empty());
            assert(self.executed() =~= target);
            assert(self.log@ + self.dropped@ + self.pending() =~= before.log@ + before.dropped@
                + before.pending());
            assert forall|i: int| 0 <= i < self.finished@.len() implies #[trigger] self.log@.contains(
                self.finished@[i].0,
            ) by {
                assert(before.log@.contains(before.finished@[i].0));
                let k = choose|k: int|
                    0 <= k < before.log@.len() && before.log@[k] == before.finished@[i].0;
                assert(self.log@[k] == before.log@[k]);
            }
        }
        out
    }
}


/// Jobs run in the order they were submitted: while the consumer drains, the
/// jobs that have run followed by the queued ones are tickets `0, 1, ...` in
/// submission order, so a fully drained channel has run every job in order.
pub proof fn lemma_fifo_order<J, R>(c: TaskSender<J, R>)
    requires
        c.wf(),
        !c.stopped(),
    ensures
        c.executed() + c.pending() == ids(c.submitted()),
        c.pending().len() == 0 ==> c.executed() == ids(c.submitted()),
{
    c.lemma_layout();
    assert(c.discarded() =~= Seq::<u64>::empty());
    assert(c.executed() + c.discarded() =~= c.executed());
    if c.pending().len() == 0 {
        assert(c.executed() + c.pending() =~= c.executed());
    }
}

/// The result held for a job is exactly the value its run computed: after a
/// tick ran the front job producing `out`, the result stored under that job's
/// ticket is `out`, whatever else is waiting.
pub proof fn lemma_result_is_computed_value<J, R>(
    before: TaskSender<J, R>,
    after: TaskSender<J, R>,
    out: R,
    i: int,
)
    requires
        before.wf(),
        after.wf(),
        ticked(before, after, out),
        0 <= i < after.results().len(),
        after.results()[i].0 == before.pending()[0],
    ensures
        after.results()[i].1 == out,
{
    let last = after.results().len() - 1;
    assert(after.results()[last] == (before.pending()[0], out));
    if i != last {
        assert(after.results()[i].0 != after.results()[last].0);
    }
}

/// A job submitted after the consumer stopped is never queued and never gets
/// a result, so waiting on it cannot block and reports [`Disconnected`].
pub proof fn lemma_discarded_job_disconnects<J, R>(c: TaskSender<J, R>, t: u64)
    requires
        c.wf(),
        c.discarded().contains(t),
    ensures
        !c.is_queued_spec(t),
        !c.has_result(t),
{
    c.lemma_layout();
    let k = choose|k: int| 0 <= k < c.discarded().len() && c.discarded()[k] == t;
    if c.pending().contains(t) {
        let p = choose|p: int| 0 <= p < c.pending().len() && c.pending()[p] == t;
    }
    if c.has_result(t) {
        let i = choose|i: int| 0 <= i < c.results().len() && (#[trigger] c.results()[i]).0 == t;
        assert(c.executed().contains(t));
        let e = choose|e: int| 0 <= e < c.executed().len() && c.executed()[e] == t;
    }
}

/// Run every queued job, front first, with `run` standing for the host:
/// one host callback's worth of work. Returns how many jobs ran.
pub fn drain<J, R, F: Fn(J) -> R>(chan: &mut TaskSender<J, R>, run: &F) -> (n: u64)
    requires
        old(chan).wf(),
        forall|j: J| run.requires((j,)),
    ensures
        final(chan).wf(),
        n == old(chan).pending().len(),
        final(chan).pending().len() == 0,
        final(chan).executed() == old(chan).executed() + old(chan).pending(),
        final(chan).results().len() == old(chan).results().len() + n,
        final(chan).results().subrange(0, old(chan).results().len() as int) == old(
            chan,
        ).results(),
        forall|k: int|
            0 <= k < n ==> {
                &&& (#[trigger] final(chan).results()[old(chan).results().len() + k]).0 == old(
                    chan,
                ).pending()[k]
                &&& run.ensures(
                    (old(chan).pending_jobs()[k],),
                    final(chan).results()[old(chan).results().len() + k].1,
                )
            },
        final(chan).discarded() == old(chan).discarded(),
        final(chan).submitted() == old(chan).submitted(),
        final(chan).stopped() == old(chan).stopped(),
        final(chan).closed() == old(chan).closed(),
{
    let ghost start = *chan;
    proof {
        chan.lemma_layout();
        assert(chan.pending_jobs().len() == chan.pending().len());
    }
    let mut n: u64 = 0;
    proof {
        assert(chan.executed() + chan.pending() =~= start.executed() + start.pending());
        assert(chan.pending() =~= start.pending().subrange(0, start.pending().len() as int));
        assert(chan.pending_jobs() =~= start.pending_jobs().subrange(
            0,
            start.pending_jobs().len() as int,
        ));
    }
    loop
        invariant
            start == *old(chan),
            chan.wf(),
            forall|j: J| run.requires((j,)),
            chan.executed() + chan.pending() == start.executed() + start.pending(),
            chan.executed().len() == start.executed().len() + n,
            start.pending().len() <= start.submitted() <= u64::MAX,
            chan.results().len() == start.results().len() + n,
            chan.results().subrange(0, start.results().len() as int) == start.results(),
            n <= start.pending().len(),
            chan.pending() == start.pending().subrange(n as int, start.pending().len() as int),
            chan.pending_jobs() == start.pending_jobs().subrange(
                n as int,
                start.pending_jobs().len() as int,
            ),
            start.pending_jobs().len() == start.pending().len(),
            forall|k: int|
                0 <= k < n ==> {
                    &&& (#[trigger] chan.results()[start.results().len() + k]).0
                        == start.pending()[k]
                    &&& run.ensures(
                        (start.pending_jobs()[k],),
                        chan.results()[start.results().len() + k].1,
                    )
                },
            chan.discarded() == start.discarded(),
            chan.submitted() == start.submitted(),
            chan.stopped() == start.stopped(),
            chan.closed() == start.closed(),
        decreases chan.pending().len(),
    {
        let ghost before = *chan;
        match try_tick(chan, run) {
            Ok(()) => {
                proof {
                    assert(chan.executed() + chan.pending() =~= before.executed() + before.pending());
                    assert(chan.results().subrange(0, start.results().len() as int) =~= before.results().subrange(
                        0,
                        start.results().len() as int,
                    ));
                    assert(n < start.pending().len()) by {
                        assert((before.executed() + before.pending()).len() == start.executed().len()
                            + start.pending().len());
                    }
                    assert(before.pending()[0] == start.pending()[n as int]);
                    assert(before.pending_jobs()[0] == start.pending_jobs()[n as int]);
                    assert(chan.pending() =~= start.pending().subrange(n + 1, start.pending().len() as int));
                    assert(chan.pending_jobs() =~= start.pending_jobs().subrange(
                        n + 1,
                        start.pending_jobs().len() as int,
                    ));
                    assert forall|k: int| 0 <= k < n + 1 implies {
                        &&& (#[trigger] chan.results()[start.results().len() + k]).0
                            == start.pending()[k]
                        &&& run.ensures(
                            (start.pending_jobs()[k],),
                            chan.results()[start.results().len() + k].1,
                        )
                    } by {
                        if k < n {
                            assert(chan.results()[start.results().len() + k] == before.results()[start.results().len() + k]);
                        }
                    }
                }
                n = n + 1;
            },
            Err(_) => {
                proof {
                    assert(chan.executed() + chan.pending() =~= chan.executed());
                }
                return n;
            },
        }
    }
}

impl<J, R> TaskSender<J, R> {
    /// The ticket of the job the consumer is running outside the channel.
    pub fn running_ticket(&self) -> (r: Option<u64>)
        ensures
            r == self.running(),
    {
        self.in_flight
    }

    /// Take the front job out, so the consumer can run it without holding
    /// the channel; its result goes back through [`TaskSender::finish_job`].
    /// Until then the job counts as queued, so nobody collects it early.
    pub fn take_job(&mut self) -> (r: Option<(u64, J)>)
        requires
            old(self).wf(),
            old(self).running().is_none(),
        ensures
            final(self).wf(),
            match r {
                Some((t, j)) => {
                    &&& old(self).pending().len() > 0
                    &&& t == old(self).pending()[0]
                    &&& j == old(self).pending_jobs()[0]
                    &&& final(self).running() == Some(t)
                    &&& final(self).executed() == old(self).executed().push(t)
                    &&& final(self).pending() == old(self).pending().drop_first()
                    &&& final(self).pending_jobs() == old(self).pending_jobs().drop_first()
                    &&& final(self).results() == old(self).results()
                    &&& final(self).discarded() == old(self).discarded()
                    &&& final(self).submitted() == old(self).submitted()
                    &&& final(self).stopped() == old(self).stopped()
                    &&& final(self).closed() == old(self).closed()
                },
                None => old(self).pending().len() == 0 && *final(self) == *old(self),
            },
    {
        proof {
            self.lemma_layout();
        }
        if self.queue.len() == 0 {
            return None;
        }
        let ghost before = *self;
        let (t, job) = self.queue.pop_front().unwrap();
        proof {
            assert(before.pending()[0] == t);
            assert(before.pending_jobs()[0] == job);
            assert forall|i: int| 0 <= i < before.finished@.len() implies before.finished@[i].0
                != t by {
                let e = before.finished@[i].0;
                assert(before.log@.contains(e));
                let k = choose|k: int| 0 <= k < before.log@.len() && before.log@[k] == e;
                assert(before.dropped@.len() == 0);
            }
        }
        self.log = Ghost(self.log@.push(t));
        self.in_flight = Some(t);
        proof {
            assert(self.pending() =~= before.pending().drop_first());
            assert(self.pending_jobs() =~= before.pending_jobs().drop_first());
            assert(self.log@ + self.dropped@ + self.pending() =~= before.log@ + before.dropped@
                + before.pending());
            assert(self.log@[before.log@.len() as int] == t);
            assert forall|i: int| 0 <= i < self.finished@.len() implies #[trigger] self.log@.contains(
                self.finished@[i].0,
            ) by {
                assert(before.log@.contains(before.finished@[i].0));
                let k = choose|k: int|
                    0 <= k < before.log@.len() && before.log@[k] == before.finished@[i].0;
                assert(self.log@[k] == before.log@[k]);
            }
        }
        Some((t, job))
    }

    /// Record the result of the job taken out with
    /// [`TaskSender::take_job`].
    pub fn finish_job(&mut self, t: u64, out: R)
        requires
            old(self).wf(),
            old(self).running() == Some(t),
        ensures
            final(self).wf(),
            final(self).running().is_none(),
            final(self).results() == old(self).results().push((t, out)),
            same_but_results(*old(self), *final(self)),
    {
        let ghost before = *self;
        self.finished.push((t, out));
        self.in_flight = None;
        proof {
            assert forall|i: int| 0 <= i < self.finished@.len() implies #[trigger] self.log@.contains(
                self.finished@[i].0,
            ) by {
                if i < before.finished@.len() {
                    assert(self.finished@[i] == before.finished@[i]);
                    assert(before.log@.contains(before.finished@[i].0));
                }
            }
            assert forall|i: int, k: int|
                0 <= i < k < self.finished@.len() implies self.finished@[i].0
                != self.finished@[k].0 by {
                if k < before.finished@.len() {
                    assert(self.finished@[i] == before.finished@[i]);
                    assert(self.finished@[k] == before.finished@[k]);
                } else {
                    assert(self.finished@[i] == before.finished@[i]);
                }
            }
        }
    }
}

} // verus!
