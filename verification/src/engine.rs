//! Streaming submission engine: the decision core of the end-to-end loop.
//!
//! The engine owns the batching state machine — `Filling`, then repeated
//! hand-offs to submission, then `Draining`, then `Finished`, with
//! `Errored` reachable from anywhere — while the surrounding driver
//! performs the outside work it cannot: pulling rows from the provider,
//! handing batches to the transport, and collecting acknowledgements. The
//! driver asks the engine what it wants next (`wants_row`, `batch_ready`,
//! `drain_ready`) and reports back what the outside world did (`push_row`,
//! `mark_exhausted`, `submit_ok`, `record_acks`, `finish_drain`, `fail`).
//!
//! Batches are handed out in the order they are filled; acknowledgements
//! are accepted in arbitrary completion order and only counted, never
//! matched positionally. Reconciliation (`record_acks` between batches) is
//! advisory backpressure that bounds the outstanding-write bookkeeping; it
//! never gates filling or submission. Throughput observers carry no
//! correctness contract and influence no transition.

use vstd::prelude::*;

use crate::batch::BatchBuffer;
use crate::row::Row;
use crate::value::ValueModel;

verus! {

/// The remote store's confirmation that a submitted batch was durably
/// accepted, carrying the affected-row count.
#[derive(Debug, Clone, Copy, PartialEq, Eq, Structural)]
pub struct Ack {
    pub affected_rows: u64,
}

/// The engine's phase.
#[derive(Debug, Clone, Copy, PartialEq, Eq, Structural)]
pub enum EngineState {
    /// Pulling rows into the batch buffer.
    Filling,
    /// A batch has been handed out; its submission outcome is awaited.
    Submitting,
    /// No new batches accepted; waiting for every outstanding write.
    Draining,
    /// All writes acknowledged, nothing pending.
    Finished,
    /// A failure ended the run; the triggering error is carried.
    Errored,
}

/// The mathematical model of a [`SubmissionEngine`].
pub struct EngineModel {
    pub state: EngineState,
    /// Rows per batch; zero means no batch is ever filled.
    pub batch_size: usize,
    /// Reconciliation cadence, in batches; a tunable, at least one.
    pub reconcile_every: usize,
    /// The rows of the batch being filled.
    pub buffer: Seq<Seq<ValueModel>>,
    /// The size of a batch handed out whose submission outcome has not
    /// been reported yet.
    pub pending: Option<usize>,
    /// The sizes of the successfully submitted batches, in submission
    /// order.
    pub submitted: Seq<usize>,
    /// The acknowledgements collected so far, in completion order.
    pub acks: Seq<Ack>,
    /// Whether the row source has signalled end-of-sequence.
    pub exhausted: bool,
    /// The triggering error of an `Errored` run.
    pub error: Option<Seq<char>>,
}

impl EngineModel {
    /// The engine's internal invariant: established by the constructor and
    /// preserved by every transition.
    pub open spec fn inv(self) -> bool {
        &&& 0 < self.reconcile_every
        &&& self.buffer.len() <= self.batch_size
        &&& self.acks.len() <= self.submitted.len()
        &&& (self.pending is Some <==> self.state is Submitting)
        &&& (self.state is Submitting ==> self.buffer.len() == 0)
        &&& (self.state is Draining ==> self.pending is None && self.buffer.len() == 0 && (
        self.exhausted || self.batch_size == 0))
        &&& (self.state is Finished ==> self.pending is None && self.buffer.len() == 0 && (
        self.exhausted || self.batch_size == 0) && self.acks.len() == self.submitted.len())
        &&& (self.state is Errored <==> self.error is Some)
    }

    /// Whether the engine is filling and has room for another row.
    pub open spec fn wants_row(self) -> bool {
        &&& self.state is Filling
        &&& self.pending is None
        &&& !self.exhausted
        &&& self.buffer.len() < self.batch_size
    }

    /// Whether a batch is complete — full, or non-empty at exhaustion —
    /// and ready to be handed to the transport.
    pub open spec fn batch_ready(self) -> bool {
        &&& self.state is Filling
        &&& self.pending is None
        &&& (self.buffer.len() == self.batch_size && 0 < self.batch_size || self.exhausted
            && 0 < self.buffer.len())
    }

    /// Whether the run is over on the filling side: the source is
    /// exhausted (or no batch can ever fill), the buffer is empty, and no
    /// submission outcome is awaited, so draining may begin.
    pub open spec fn drain_ready(self) -> bool {
        &&& self.state is Filling
        &&& self.pending is None
        &&& self.buffer.len() == 0
        &&& (self.exhausted || self.batch_size == 0)
    }
}

/// The sum of the affected-row counts of the acknowledgements from index
/// `i` on.
pub open spec fn sum_affected_from(acks: Seq<Ack>, i: int) -> int
    decreases acks.len() - i,
{
    if i < 0 || i >= acks.len() {
        0
    } else {
        acks[i].affected_rows + sum_affected_from(acks, i + 1)
    }
}

/// The combined affected-row count of a run's acknowledgements.
pub open spec fn sum_affected(acks: Seq<Ack>) -> int {
    sum_affected_from(acks, 0)
}

/// A suffix sum of affected-row counts is never negative.
pub proof fn lemma_sum_affected_nonneg(acks: Seq<Ack>, i: int)
    ensures
        sum_affected_from(acks, i) >= 0,
    decreases acks.len() - i,
{
    if 0 <= i < acks.len() {
        lemma_sum_affected_nonneg(acks, i + 1);
    }
}

/// A filling engine always offers the driver a step: it either wants a
/// row, has a batch ready to hand out, or is ready to drain. The loop can
/// never wedge between the three.
pub proof fn lemma_filling_always_has_a_step(m: EngineModel)
    requires
        m.inv(),
        m.state is Filling,
    ensures
        m.wants_row() || m.batch_ready() || m.drain_ready(),
{
}

/// A finished run owes nothing: every batch ever submitted has its
/// acknowledgement collected before the engine reports completion.
pub proof fn lemma_finished_fully_acknowledged(m: EngineModel)
    requires
        m.inv(),
        m.state is Finished,
    ensures
        m.acks.len() == m.submitted.len(),
{
}

/// The decision core of the streaming submission loop.
#[derive(Debug)]
pub struct SubmissionEngine {
    state: EngineState,
    batch_size: usize,
    reconcile_every: usize,
    buffer: BatchBuffer,
    pending: Option<usize>,
    submitted_sizes: Vec<usize>,
    acks: Vec<Ack>,
    exhausted: bool,
    error: Option<String>,
}

impl View for SubmissionEngine {
    type V = EngineModel;

    closed spec fn view(&self) -> EngineModel {
        EngineModel {
            state: self.state,
            batch_size: self.batch_size,
            reconcile_every: self.reconcile_every,
            buffer: self.buffer@,
            pending: self.pending,
            submitted: self.submitted_sizes@,
            acks: self.acks@,
            exhausted: self.exhausted,
            error: match self.error {
                Some(e) => Some(e@),
                None => None,
            },
        }
    }
}

impl SubmissionEngine {
    /// A fresh engine in the `Filling` state. `reconcile_every` is the
    /// reconciliation cadence in batches and must be at least one.
    pub fn new(batch_size: usize, reconcile_every: usize) -> (e: Self)
        requires
            0 < reconcile_every,
        ensures
            e@ == (EngineModel {
                state: EngineState::Filling,
                batch_size,
                reconcile_every,
                buffer: Seq::empty(),
                pending: None,
                submitted: Seq::empty(),
                acks: Seq::empty(),
                exhausted: false,
                error: None,
            }),
            e@.inv(),
    {
        let e = SubmissionEngine {
            state: EngineState::Filling,
            batch_size,
            reconcile_every,
            buffer: BatchBuffer::allocate(batch_size, 0),
            pending: None,
            submitted_sizes: Vec::new(),
            acks: Vec::new(),
            exhausted: false,
            error: None,
        };
        proof {
            assert(e@.buffer =~= Seq::<Seq<ValueModel>>::empty());
            assert(e@.submitted =~= Seq::<usize>::empty());
            assert(e@.acks =~= Seq::<Ack>::empty());
        }
        e
    }

    /// The engine's phase.
    pub fn state(&self) -> (s: EngineState)
        ensures
            s == self@.state,
    {
        self.state
    }

    /// Whether the engine is filling and has room for another row.
    pub fn wants_row(&self) -> (b: bool)
        ensures
            b == self@.wants_row(),
    {
        match (self.state, self.pending) {
            (EngineState::Filling, Option::None) => !self.exhausted && self.buffer.len()
                < self.batch_size,
            _ => false,
        }
    }

    /// Whether a batch is complete and ready to be handed out.
    pub fn batch_ready(&self) -> (b: bool)
        ensures
            b == self@.batch_ready(),
    {
        match (self.state, self.pending) {
            (EngineState::Filling, Option::None) => self.buffer.len() == self.batch_size
                && 0 < self.batch_size || self.exhausted && 0 < self.buffer.len(),
            _ => false,
        }
    }

    /// Whether the filling side is over and draining may begin.
    pub fn drain_ready(&self) -> (b: bool)
        ensures
            b == self@.drain_ready(),
    {
        match (self.state, self.pending) {
            (EngineState::Filling, Option::None) => self.buffer.len() == 0 && (self.exhausted
                || self.batch_size == 0),
            _ => false,
        }
    }

    /// Accepts one row pulled from the source into the batch being filled.
    pub fn push_row(&mut self, row: Row)
        requires
            old(self)@.inv(),
            old(self)@.wants_row(),
        ensures
            final(self)@.inv(),
            final(self)@ == (EngineModel { buffer: old(self)@.buffer.push(row@), ..old(self)@ }),
    {
        self.buffer.add_row(row);
    }

    /// Records that the source signalled end-of-sequence.
    pub fn mark_exhausted(&mut self)
        requires
            old(self)@.inv(),
            old(self)@.state is Filling,
        ensures
            final(self)@.inv(),
            final(self)@ == (EngineModel { exhausted: true, ..old(self)@ }),
    {
        self.exhausted = true;
    }

    /// Hands the completed batch out for submission, in fill order. The
    /// buffer is emptied and the engine moves to `Submitting` until the
    /// submission outcome is reported.
    pub fn take_batch(&mut self) -> (batch: Vec<Row>)
        requires
            old(self)@.inv(),
            old(self)@.batch_ready(),
        ensures
            final(self)@.inv(),
            batch.deep_view() == old(self)@.buffer,
            batch@.len() == old(self)@.buffer.len(),
            final(self)@ == (EngineModel {
                state: EngineState::Submitting,
                buffer: Seq::empty(),
                pending: Some(batch@.len() as usize),
                ..old(self)@
            }),
    {
        let n = self.buffer.len();
        let batch = self.buffer.take_rows();
        self.state = EngineState::Submitting;
        self.pending = Some(n);
        proof {
            assert(batch@.len() == batch.deep_view().len());
        }
        batch
    }

    /// Records that the transport accepted the handed-out batch as an
    /// asynchronous write: one more write is outstanding, and the engine
    /// loops straight back to `Filling` — it never blocks on the remote
    /// acknowledgement.
    pub fn submit_ok(&mut self)
        requires
            old(self)@.inv(),
            old(self)@.state is Submitting,
        ensures
            final(self)@.inv(),
            final(self)@ == (EngineModel {
                state: EngineState::Filling,
                pending: None,
                submitted: old(self)@.submitted.push(old(self)@.pending->Some_0),
                ..old(self)@
            }),
    {
        self.state = EngineState::Filling;
        let n = match self.pending {
            Some(n) => n,
            None => 0,
        };
        let ghost before = self.submitted_sizes@;
        self.pending = None;
        self.submitted_sizes.push(n);
        proof {
            assert(self@.submitted =~= before.push(n));
        }
    }

    /// Records a failure — of provider setup, connection, submission or
    /// draining. The run moves to `Errored` carrying the triggering error;
    /// no partial recovery is attempted, and writes in flight at the time
    /// are abandoned to the transport.
    pub fn fail(&mut self, message: String)
        requires
            old(self)@.inv(),
        ensures
            final(self)@.inv(),
            final(self)@ == (EngineModel {
                state: EngineState::Errored,
                pending: None,
                error: Some(message@),
                ..old(self)@
            }),
    {
        self.state = EngineState::Errored;
        self.pending = None;
        self.error = Some(message);
    }

    /// Folds in acknowledgements collected by a non-blocking poll between
    /// batches. Completion order is arbitrary; only counts matter. The
    /// transport never acknowledges more than was submitted.
    pub fn record_acks(&mut self, acks: Vec<Ack>)
        requires
            old(self)@.inv(),
            old(self)@.state is Filling,
            old(self)@.pending is None,
            old(self)@.acks.len() + acks@.len() <= old(self)@.submitted.len(),
        ensures
            final(self)@.inv(),
            final(self)@ == (EngineModel { acks: old(self)@.acks + acks@, ..old(self)@ }),
    {
        let ghost before = self.acks@;
        let ghost added = acks@;
        let mut more = acks;
        self.acks.append(&mut more);
        proof {
            assert(self@.acks =~= before + added);
        }
    }

    /// Stops accepting batches: the source is exhausted and the last batch
    /// has been submitted, so the engine now only waits for outstanding
    /// writes.
    pub fn begin_drain(&mut self)
        requires
            old(self)@.inv(),
            old(self)@.drain_ready(),
        ensures
            final(self)@.inv(),
            final(self)@ == (EngineModel { state: EngineState::Draining, ..old(self)@ }),
    {
        self.state = EngineState::Draining;
    }

    /// Folds in the acknowledgements the blocking drain returned — every
    /// write previously submitted and not yet acknowledged — and finishes
    /// the run.
    pub fn finish_drain(&mut self, acks: Vec<Ack>)
        requires
            old(self)@.inv(),
            old(self)@.state is Draining,
            old(self)@.acks.len() + acks@.len() == old(self)@.submitted.len(),
        ensures
            final(self)@.inv(),
            final(self)@ == (EngineModel {
                state: EngineState::Finished,
                acks: old(self)@.acks + acks@,
                ..old(self)@
            }),
    {
        let ghost before = self.acks@;
        let ghost added = acks@;
        let mut more = acks;
        self.acks.append(&mut more);
        self.state = EngineState::Finished;
        proof {
            assert(self@.acks =~= before + added);
        }
    }

    /// How many submitted writes have no acknowledgement yet.
    pub fn outstanding(&self) -> (n: usize)
        requires
            self@.inv(),
        ensures
            n == self@.submitted.len() - self@.acks.len(),
    {
        self.submitted_sizes.len() - self.acks.len()
    }

    /// How many batches have been submitted so far.
    pub fn batches_submitted(&self) -> (n: usize)
        ensures
            n == self@.submitted.len(),
    {
        self.submitted_sizes.len()
    }

    /// The acknowledgements collected so far, in completion order.
    pub fn acks(&self) -> (r: &Vec<Ack>)
        ensures
            r@ == self@.acks,
    {
        &self.acks
    }

    /// Whether the source has signalled end-of-sequence.
    pub fn source_exhausted(&self) -> (b: bool)
        ensures
            b == self@.exhausted,
    {
        self.exhausted
    }

    /// The triggering error of an `Errored` run, if any.
    pub fn error_message(&self) -> (r: Option<String>)
        ensures
            r.deep_view() == self@.error,
    {
        match &self.error {
            Some(e) => Some(e.clone()),
            None => None,
        }
    }

    /// Whether the reconciliation cadence has come round: a whole multiple
    /// of `reconcile_every` batches has been submitted. Advisory: polling
    /// at this cadence bounds the bookkeeping, but nothing gates on it.
    pub fn due_reconcile(&self) -> (b: bool)
        requires
            self@.inv(),
        ensures
            b == (0 < self@.submitted.len() && self@.submitted.len() as int
                % self@.reconcile_every as int == 0),
    {
        0 < self.submitted_sizes.len() && self.submitted_sizes.len() % self.reconcile_every == 0
    }

    /// The combined affected-row count of the acknowledgements collected
    /// so far, or `None` when that sum does not fit in a `u64`.
    pub fn total_affected(&self) -> (r: Option<u64>)
        ensures
            sum_affected(self@.acks) <= u64::MAX ==> r == Some(sum_affected(self@.acks) as u64),
            sum_affected(self@.acks) > u64::MAX ==> r is None,
    {
        let mut total: u64 = 0;
        let mut i: usize = 0;
        proof {
            lemma_sum_affected_nonneg(self@.acks, 0);
        }
        while i < self.acks.len()
            invariant
                i <= self.acks@.len(),
                total + sum_affected_from(self@.acks, i as int) == sum_affected(self@.acks),
            decreases self.acks@.len() - i,
        {
            proof {
                lemma_sum_affected_nonneg(self@.acks, i + 1);
            }
            let a = self.acks[i].affected_rows;
            match total.checked_add(a) {
                Some(t) => {
                    total = t;
                },
                None => {
                    return None;
                },
            }
            i = i + 1;
        }
        Some(total)
    }
}

} // verus!
