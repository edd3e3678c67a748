//! The job queue and worker pool as a state machine: admission with
//! backpressure, FIFO dispatch bounded by the concurrency limit, completion,
//! and shutdown. The caller that owns the tasks and the processes drives it.
use vstd::prelude::*;
use std::collections::VecDeque;

verus! {

/// Why a queue could not be built from its configuration.
#[derive(Clone, Copy, Debug, PartialEq, Eq, Structural)]
pub enum ConfigError {
    /// The concurrency limit must be at least one.
    ZeroConcurrency,
    /// A configured maximum queue depth must be at least one.
    ZeroQueueDepth,
}

/// Why a job was not admitted; the job is handed back.
#[derive(Debug)]
pub enum EnqueueError<J> {
    /// The buffer is at capacity.
    QueueFull(J),
    /// The queue has been shut down.
    QueueClosed(J),
}

/// The mathematical state of a queue.
pub struct QueueModel<J> {
    /// Jobs admitted and not yet dispatched, oldest first.
    pub pending: Seq<J>,
    /// The buffer's capacity; `None` for an unbounded buffer.
    pub capacity: Option<nat>,
    /// The most jobs that may run at once.
    pub limit: nat,
    /// Jobs dispatched and not yet completed.
    pub running: nat,
    /// Whether shutdown has begun.
    pub closed: bool,
}

/// Whether the buffer can take one more job.
pub open spec fn has_room<J>(s: QueueModel<J>) -> bool {
    match s.capacity {
        Some(c) => s.pending.len() < c,
        None => true,
    }
}

/// The states a queue can be in.
pub open spec fn queue_wf<J>(s: QueueModel<J>) -> bool {
    &&& s.limit > 0
    &&& s.running <= s.limit
    &&& match s.capacity {
        Some(c) => 0 < c && s.pending.len() <= c,
        None => true,
    }
    &&& s.closed ==> s.pending.len() == 0
}

/// Submitting a job: refused when closed, refused when full, else buffered
/// at the back. The boolean tells whether it was admitted.
pub open spec fn submit_next<J>(s: QueueModel<J>, job: J) -> (QueueModel<J>, bool) {
    if s.closed || !has_room(s) {
        (s, false)
    } else {
        (QueueModel { pending: s.pending.push(job), ..s }, true)
    }
}

/// Whether the pool starts a job now: not shut down, a free slot, and a job
/// waiting.
pub open spec fn can_dispatch<J>(s: QueueModel<J>) -> bool {
    !s.closed && s.running < s.limit && s.pending.len() > 0
}

/// Dispatching: the oldest buffered job starts and takes a slot.
pub open spec fn dispatch_next<J>(s: QueueModel<J>) -> (QueueModel<J>, Option<J>) {
    if can_dispatch(s) {
        (
            QueueModel { pending: s.pending.drop_first(), running: s.running + 1, ..s },
            Some(s.pending[0]),
        )
    } else {
        (s, None)
    }
}

/// Completing a running job frees its slot.
pub open spec fn complete_next<J>(s: QueueModel<J>) -> QueueModel<J> {
    if s.running > 0 {
        QueueModel { running: (s.running - 1) as nat, ..s }
    } else {
        s
    }
}

/// Shutting down: no more admission, the buffered jobs are dropped without
/// starting, and running jobs keep their slots until they complete.
pub open spec fn shutdown_next<J>(s: QueueModel<J>) -> QueueModel<J> {
    QueueModel { pending: Seq::empty(), closed: true, ..s }
}

/// A fresh queue: nothing buffered, nothing running, open.
pub open spec fn initial_model<J>(concurrency: usize, max_queue: Option<usize>) -> QueueModel<J> {
    QueueModel {
        pending: Seq::empty(),
        capacity: match max_queue {
            Some(c) => Some(c as nat),
            None => None,
        },
        limit: concurrency as nat,
        running: 0,
        closed: false,
    }
}

/// The job queue with its dispatch state.
pub struct DownloadQueue<J> {
    pending: VecDeque<J>,
    capacity: Option<usize>,
    limit: usize,
    running: usize,
    closed: bool,
}

impl<J> View for DownloadQueue<J> {
    type V = QueueModel<J>;

    closed spec fn view(&self) -> QueueModel<J> {
        QueueModel {
            pending: self.pending@,
            capacity: match self.capacity {
                Some(c) => Some(c as nat),
                None => None,
            },
            limit: self.limit as nat,
            running: self.running as nat,
            closed: self.closed,
        }
    }
}

impl<J> DownloadQueue<J> {
    pub open spec fn wf(&self) -> bool {
        queue_wf(self@)
    }

    /// A queue that runs at most `concurrency` jobs at once and buffers at
    /// most `max_queue` jobs (any number when `None`).
    pub fn new(concurrency: usize, max_queue: Option<usize>) -> (r: Result<Self, ConfigError>)
        ensures
            concurrency == 0 ==> (r matches Err(e) && e == ConfigError::ZeroConcurrency),
            concurrency > 0 && max_queue == Some(0usize) ==> (r matches Err(e) && e
                == ConfigError::ZeroQueueDepth),
            concurrency > 0 && max_queue != Some(0usize) ==> (r matches Ok(q) && q.wf() && q@
                == initial_model::<J>(concurrency, max_queue)),
    {
        if concurrency == 0 {
            return Err(ConfigError::ZeroConcurrency);
        }
        if let Some(c) = max_queue {
            if c == 0 {
                return Err(ConfigError::ZeroQueueDepth);
            }
        }
        Ok(DownloadQueue {
            pending: VecDeque::new(),
            capacity: max_queue,
            limit: concurrency,
            running: 0,
            closed: false,
        })
    }

    /// Whether a job submitted now would be admitted.
    pub fn has_room(&self) -> (r: bool)
        ensures
            r == has_room(self@),
    {
        match self.capacity {
            Some(c) => self.pending.len() < c,
            None => true,
        }
    }

    /// Whether shutdown has begun.
    pub fn is_closed(&self) -> (r: bool)
        ensures
            r == self@.closed,
    {
        self.closed
    }

    /// Number of buffered jobs.
    pub fn pending_len(&self) -> (r: usize)
        ensures
            r == self@.pending.len(),
    {
        self.pending.len()
    }

    /// Number of jobs dispatched and not yet completed.
    pub fn running(&self) -> (r: usize)
        ensures
            r == self@.running,
    {
        self.running
    }

    /// Admits `job` without waiting: `QueueClosed` once shut down,
    /// `QueueFull` when the buffer is at capacity, else it joins the back of
    /// the buffer.
    pub fn try_enqueue(&mut self, job: J) -> (r: Result<(), EnqueueError<J>>)
        requires
            old(self).wf(),
        ensures
            final(self).wf(),
            (final(self)@, r is Ok) == submit_next(old(self)@, job),
            (r matches Err(EnqueueError::QueueClosed(j)) ==> j == job && old(self)@.closed),
            (r matches Err(EnqueueError::QueueFull(j)) ==> j == job && !old(self)@.closed
                && !has_room(old(self)@)),
    {
        if self.closed {
            return Err(EnqueueError::QueueClosed(job));
        }
        if !self.has_room() {
            return Err(EnqueueError::QueueFull(job));
        }
        self.pending.push_back(job);
        Ok(())
    }

    /// Starts the oldest buffered job if a slot is free and the queue has not
    /// been shut down; the caller runs it and reports its completion.
    pub fn dispatch(&mut self) -> (r: Option<J>)
        requires
            old(self).wf(),
        ensures
            final(self).wf(),
            (final(self)@, r) == dispatch_next(old(self)@),
    {
        if self.closed || self.running >= self.limit {
            return None;
        }
        match self.pending.pop_front() {
            None => None,
            Some(job) => {
                self.running = self.running + 1;
                assert(self.pending@ =~= old(self)@.pending.drop_first());
                Some(job)
            },
        }
    }

    /// Records that a dispatched job has ended, whatever its outcome, and
    /// frees its slot.
    pub fn complete(&mut self)
        requires
            old(self).wf(),
            old(self)@.running > 0,
        ensures
            final(self).wf(),
            final(self)@ == complete_next(old(self)@),
    {
        self.running = self.running - 1;
    }

    /// Begins shutdown: further submissions are refused, buffered jobs are
    /// dropped without starting, and jobs already running go on.
    pub fn shutdown(&mut self)
        requires
            old(self).wf(),
        ensures
            final(self).wf(),
            final(self)@ == shutdown_next(old(self)@),
    {
        self.closed = true;
        self.pending.clear();
        assert(self.pending@ =~= Seq::<J>::empty());
    }

    /// Whether shutdown has begun and every running job has completed.
    pub fn is_drained(&self) -> (r: bool)
        ensures
            r == (self@.closed && self@.running == 0),
    {
        self.closed && self.running == 0
    }
}

/// One thing that can happen to a queue.
pub enum QueueOp<J> {
    Submit(J),
    Dispatch,
    Complete,
    Shutdown,
}

pub open spec fn apply_op<J>(s: QueueModel<J>, op: QueueOp<J>) -> QueueModel<J> {
    match op {
        QueueOp::Submit(j) => submit_next(s, j).0,
        QueueOp::Dispatch => dispatch_next(s).0,
        QueueOp::Complete => complete_next(s),
        QueueOp::Shutdown => shutdown_next(s),
    }
}

/// The state after a sequence of operations.
pub open spec fn run_ops<J>(s: QueueModel<J>, ops: Seq<QueueOp<J>>) -> QueueModel<J>
    decreases ops.len(),
{
    if ops.len() == 0 {
        s
    } else {
        run_ops(apply_op(s, ops[0]), ops.drop_first())
    }
}

/// The jobs started along a sequence of operations, in the order they start.
pub open spec fn started<J>(s: QueueModel<J>, ops: Seq<QueueOp<J>>) -> Seq<J>
    decreases ops.len(),
{
    if ops.len() == 0 {
        Seq::empty()
    } else {
        let first = match ops[0] {
            QueueOp::Dispatch => match dispatch_next(s).1 {
                Some(j) => seq![j],
                None => Seq::empty(),
            },
            _ => Seq::empty(),
        };
        first + started(apply_op(s, ops[0]), ops.drop_first())
    }
}

/// The jobs admitted along a sequence of operations, in the order they are
/// admitted.
pub open spec fn admitted<J>(s: QueueModel<J>, ops: Seq<QueueOp<J>>) -> Seq<J>
    decreases ops.len(),
{
    if ops.len() == 0 {
        Seq::empty()
    } else {
        let first = match ops[0] {
            QueueOp::Submit(j) => if submit_next(s, j).1 {
                seq![j]
            } else {
                Seq::empty()
            },
            _ => Seq::empty(),
        };
        first + admitted(apply_op(s, ops[0]), ops.drop_first())
    }
}

proof fn lemma_op_wf<J>(s: QueueModel<J>, op: QueueOp<J>)
    requires
        queue_wf(s),
    ensures
        queue_wf(apply_op(s, op)),
        apply_op(s, op).limit == s.limit,
        apply_op(s, op).capacity == s.capacity,
        s.closed ==> apply_op(s, op).closed,
{
}

/// Whatever operations come, in whatever order, a queue never has more jobs
/// running than its concurrency limit.
pub proof fn lemma_running_within_limit<J>(s: QueueModel<J>, ops: Seq<QueueOp<J>>)
    requires
        queue_wf(s),
    ensures
        queue_wf(run_ops(s, ops)),
        run_ops(s, ops).limit == s.limit,
        run_ops(s, ops).running <= s.limit,
    decreases ops.len(),
{
    if ops.len() > 0 {
        lemma_op_wf(s, ops[0]);
        lemma_running_within_limit(apply_op(s, ops[0]), ops.drop_first());
    }
}

/// A job that completes frees its slot at once: if jobs are waiting and the
/// queue is open, the next dispatch starts the oldest of them.
pub proof fn lemma_completion_frees_slot<J>(s: QueueModel<J>)
    requires
        queue_wf(s),
        s.running > 0,
        !s.closed,
        s.pending.len() > 0,
    ensures
        dispatch_next(complete_next(s)).1 == Some(s.pending[0]),
        dispatch_next(complete_next(s)).0.running == s.running,
{
}

/// A submission to an open queue with room in its buffer is admitted.
pub proof fn lemma_room_admits<J>(s: QueueModel<J>, job: J)
    requires
        queue_wf(s),
        !s.closed,
        has_room(s),
    ensures
        submit_next(s, job).1,
        submit_next(s, job).0.pending == s.pending.push(job),
{
}

/// Dispatching a job frees room in the buffer, so a submission that was
/// refused as full is admitted after it while the queue stays open.
pub proof fn lemma_dispatch_frees_room<J>(s: QueueModel<J>, job: J)
    requires
        queue_wf(s),
        dispatch_next(s).1 is Some,
    ensures
        has_room(dispatch_next(s).0),
        !dispatch_next(s).0.closed,
        submit_next(dispatch_next(s).0, job).1,
{
}

proof fn lemma_closed_starts_nothing<J>(s: QueueModel<J>, ops: Seq<QueueOp<J>>)
    requires
        queue_wf(s),
        s.closed,
    ensures
        started(s, ops).len() == 0,
        run_ops(s, ops).closed,
        run_ops(s, ops).running <= s.running,
    decreases ops.len(),
{
    if ops.len() > 0 {
        lemma_op_wf(s, ops[0]);
        lemma_closed_starts_nothing(apply_op(s, ops[0]), ops.drop_first());
    }
}

/// After shutdown no buffered job ever starts, whatever comes next; jobs that
/// were already running keep their slots until each completes.
pub proof fn lemma_shutdown_starts_nothing<J>(s: QueueModel<J>, ops: Seq<QueueOp<J>>)
    requires
        queue_wf(s),
    ensures
        shutdown_next(s).running == s.running,
        shutdown_next(s).pending.len() == 0,
        started(shutdown_next(s), ops).len() == 0,
        run_ops(shutdown_next(s), ops).running <= s.running,
        s.running > 0 ==> complete_next(shutdown_next(s)).running == s.running - 1,
{
    lemma_closed_starts_nothing(shutdown_next(s), ops);
}

/// Without shutdown, jobs start in the order they were admitted: the jobs
/// started followed by those still buffered are the jobs that were buffered
/// at first followed by those admitted since.
pub proof fn lemma_fifo<J>(s: QueueModel<J>, ops: Seq<QueueOp<J>>)
    requires
        forall|i: int| 0 <= i < ops.len() ==> !(#[trigger] ops[i] is Shutdown),
    ensures
        started(s, ops) + run_ops(s, ops).pending == s.pending + admitted(s, ops),
    decreases ops.len(),
{
    if ops.len() > 0 {
        let t = apply_op(s, ops[0]);
        assert forall|i: int| 0 <= i < ops.drop_first().len() implies !(
        #[trigger] ops.drop_first()[i] is Shutdown) by {
            assert(ops.drop_first()[i] == ops[i + 1]);
        }
        lemma_fifo(t, ops.drop_first());
        assert(!(ops[0] is Shutdown));
        match ops[0] {
            QueueOp::Dispatch => {
                if can_dispatch(s) {
                    assert(seq![s.pending[0]] + t.pending =~= s.pending);
                    assert(started(s, ops) == seq![s.pending[0]] + started(t, ops.drop_first()));
                    assert(admitted(s, ops) == admitted(t, ops.drop_first()));
                    let rest = ops.drop_first();
                    assert(run_ops(s, ops) == run_ops(t, rest));
                    assert(seq![s.pending[0]] + started(t, rest) + run_ops(t, rest).pending
                        =~= seq![s.pending[0]] + (started(t, rest) + run_ops(t, rest).pending));
                    assert(seq![s.pending[0]] + (t.pending + admitted(t, rest)) =~= (seq![
                        s.pending[0],
                    ] + t.pending) + admitted(t, rest));
                    assert(started(s, ops) + run_ops(s, ops).pending =~= s.pending + admitted(
                        s,
                        ops,
                    ));
                }
            },
            QueueOp::Submit(j) => {
                if submit_next(s, j).1 {
                    assert(admitted(s, ops) == seq![j] + admitted(t, ops.drop_first()));
                    assert(started(s, ops) =~= started(t, ops.drop_first()));
                    assert(t.pending + admitted(t, ops.drop_first()) =~= s.pending + (seq![j]
                        + admitted(t, ops.drop_first())));
                    assert(started(s, ops) + run_ops(s, ops).pending =~= s.pending + admitted(
                        s,
                        ops,
                    ));
                } else {
                    assert(admitted(s, ops) =~= admitted(t, ops.drop_first()));
                    assert(started(s, ops) =~= started(t, ops.drop_first()));
                }
            },
            _ => {
                assert(admitted(s, ops) =~= admitted(t, ops.drop_first()));
                assert(started(s, ops) =~= started(t, ops.drop_first()));
            },
        }
    }
}

} // verus!
