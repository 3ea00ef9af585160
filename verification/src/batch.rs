//! Batch buffer: a pre-sized accumulator that rows are pulled into until a
//! batch is full, used to amortize per-request overhead. Capacity is
//! advisory, not a hard cap: exceeding the allocation hint triggers a
//! reallocation, never an error.

use vstd::prelude::*;

use crate::row::Row;
use crate::value::ValueModel;

verus! {

/// An owned batch of rows, modelled as the sequence of their value
/// sequences. The buffer is exclusively owned by the filling phase until
/// the batch is handed to submission, which takes the rows with it.
#[derive(Debug)]
pub struct BatchBuffer {
    rows: Vec<Row>,
}

impl View for BatchBuffer {
    type V = Seq<Seq<ValueModel>>;

    closed spec fn view(&self) -> Seq<Seq<ValueModel>> {
        self.rows.deep_view()
    }
}

impl BatchBuffer {
    /// An empty buffer with storage reserved for `row_capacity` rows.
    /// `avg_value_size_hint` is the expected payload size per value; it
    /// only sizes the reservation and never bounds what the buffer will
    /// hold.
    pub fn allocate(row_capacity: usize, _avg_value_size_hint: usize) -> (b: Self)
        ensures
            b@ == Seq::<Seq<ValueModel>>::empty(),
    {
        let b = BatchBuffer { rows: Vec::with_capacity(row_capacity) };
        proof {
            assert(b@ =~= Seq::<Seq<ValueModel>>::empty());
        }
        b
    }

    /// The number of rows buffered so far.
    pub fn len(&self) -> (n: usize)
        ensures
            n == self@.len(),
    {
        self.rows.len()
    }

    /// Whether the buffer holds no rows.
    pub fn is_empty(&self) -> (e: bool)
        ensures
            e == (self@.len() == 0),
    {
        self.rows.len() == 0
    }

    /// Appends a row, transferring ownership into the batch.
    pub fn add_row(&mut self, row: Row)
        ensures
            final(self)@ == old(self)@.push(row@),
    {
        let ghost pushed = row@;
        self.rows.push(row);
        proof {
            assert(self@ =~= old(self)@.push(pushed));
        }
    }

    /// Hands the buffered rows out, leaving the buffer empty; ownership of
    /// every row transfers to the caller.
    pub fn take_rows(&mut self) -> (r: Vec<Row>)
        ensures
            r.deep_view() == old(self)@,
            final(self)@ == Seq::<Seq<ValueModel>>::empty(),
    {
        let mut taken: Vec<Row> = Vec::new();
        core::mem::swap(&mut taken, &mut self.rows);
        proof {
            assert(self@ =~= Seq::<Seq<ValueModel>>::empty());
        }
        taken
    }
}

} // verus!
