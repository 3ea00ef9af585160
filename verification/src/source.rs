//! Row source: the provider side of the pipeline. A source declares a
//! target schema, reports a total row count, and produces a finite,
//! single-pass lazy sequence of rows — or of wire-level row records for the
//! non-batched alternate insertion path.
//!
//! One piece of generator state backs both capabilities: an explicit
//! integer position owned by the source. Each capability view is a thin
//! cursor holder that, on every pull, loads its saved position into the
//! shared one, advances it, and stores it back — an explicit save/restore
//! discipline, so two views driven from different call sites keep
//! independent positions. Simultaneous pulls from both views are not
//! possible: a pull borrows the source exclusively.

use vstd::prelude::*;

use crate::row::Row;
use crate::schema::TableSchema;
use crate::value::{Value, ValueModel};

verus! {

/// Why a source lifecycle step failed. The in-memory source of this crate
/// never fails its lifecycle; the case exists for callers that propagate
/// provider errors.
#[derive(Debug, Clone, Copy, PartialEq, Eq, Structural)]
pub enum SourceError {
    /// The provider could not be prepared or released.
    Unavailable,
}

/// One capability view's position into the source's row sequence.
#[derive(Debug, Clone, Copy, PartialEq, Eq, Structural)]
pub struct SourceCursor {
    pub position: usize,
}

impl SourceCursor {
    /// A view positioned at the start of the sequence.
    pub fn start() -> (c: Self)
        ensures
            c.position == 0,
    {
        SourceCursor { position: 0 }
    }
}

/// The mathematical model of a [`RowSource`]: the target schema, the rows
/// it will yield in order, and the shared generator position.
pub struct SourceModel {
    pub schema: crate::schema::SchemaModel,
    pub rows: Seq<Seq<ValueModel>>,
    pub cursor: nat,
}

/// What a pull yields from a source holding `rows` when the pulling view
/// stands at position `p`: the row stored there, or end-of-sequence once
/// `p` has reached the row count. The yield is a function of the rows and
/// the pulling view's own position alone — never of the other view's.
pub open spec fn source_yield(rows: Seq<Seq<ValueModel>>, p: int) -> Option<Seq<ValueModel>> {
    if 0 <= p < rows.len() {
        Some(rows[p])
    } else {
        None
    }
}

/// An in-memory row source: a concrete provider backed by a prepared row
/// list, exposing both the structured-row and the wire-row capability over
/// one shared generator state.
#[derive(Debug)]
pub struct RowSource {
    schema: TableSchema,
    rows: Vec<Row>,
    cursor: usize,
}

impl View for RowSource {
    type V = SourceModel;

    closed spec fn view(&self) -> SourceModel {
        SourceModel {
            schema: self.schema@,
            rows: self.rows.deep_view(),
            cursor: self.cursor as nat,
        }
    }
}

/// A wire-level row record for the alternate, non-batched insertion path:
/// the flat values of one row.
#[derive(Debug)]
pub struct WireRow {
    pub values: Vec<Value>,
}

impl View for WireRow {
    type V = Seq<ValueModel>;

    open spec fn view(&self) -> Seq<ValueModel> {
        self.values.deep_view()
    }
}

impl DeepView for WireRow {
    type V = Seq<ValueModel>;

    open spec fn deep_view(&self) -> Seq<ValueModel> {
        self.view()
    }
}

impl RowSource {
    /// A source over the given schema and prepared rows; its row count is
    /// the number of rows given.
    pub fn from_rows(schema: TableSchema, rows: Vec<Row>) -> (s: Self)
        ensures
            s@.schema == schema@,
            s@.rows == rows.deep_view(),
            s@.cursor == 0,
    {
        RowSource { schema, rows, cursor: 0 }
    }

    /// Prepares the provider. The in-memory source has nothing to prepare
    /// and never fails here.
    pub fn init(&mut self) -> (r: Result<(), SourceError>)
        ensures
            r is Ok,
            final(self)@ == old(self)@,
    {
        Ok(())
    }

    /// Releases the provider. The in-memory source has nothing to release
    /// and never fails here.
    pub fn close(&mut self) -> (r: Result<(), SourceError>)
        ensures
            r is Ok,
            final(self)@ == old(self)@,
    {
        Ok(())
    }

    /// The total number of rows the lazy sequence will yield.
    pub fn row_count(&self) -> (n: usize)
        ensures
            n == self@.rows.len(),
    {
        self.rows.len()
    }

    /// The target schema (structured-row capability).
    pub fn schema(&self) -> (r: &TableSchema)
        ensures
            r@ == self@.schema,
    {
        &self.schema
    }

    /// The target table's name (wire-row capability).
    pub fn table_name(&self) -> (r: &str)
        ensures
            r@ == self@.schema.name,
    {
        self.schema.name()
    }

    /// The flat column list of the target table (wire-row capability).
    pub fn column_list(&self) -> (r: &[crate::schema::Column])
        ensures
            r.deep_view() == self@.schema.columns,
    {
        self.schema.columns()
    }

    /// One pull of the structured-row capability through `cursor`: yields
    /// the row at the view's position and advances it, or signals
    /// end-of-sequence, leaving the position where it is, once the view
    /// has produced `row_count` rows.
    pub fn pull_row(&mut self, cursor: &mut SourceCursor) -> (r: Option<Row>)
        ensures
            final(self)@.schema == old(self)@.schema,
            final(self)@.rows == old(self)@.rows,
            r.deep_view() == source_yield(old(self)@.rows, old(cursor).position as int),
            old(cursor).position < old(self)@.rows.len() ==> final(cursor).position == old(
                cursor,
            ).position + 1,
            old(cursor).position >= old(self)@.rows.len() ==> final(cursor).position == old(
                cursor,
            ).position,
            final(self)@.cursor == final(cursor).position,
    {
        self.cursor = cursor.position;
        if self.cursor < self.rows.len() {
            let row = self.rows[self.cursor].clone();
            proof {
                assert(row@ == old(self)@.rows[cursor.position as int]);
            }
            self.cursor = self.cursor + 1;
            cursor.position = self.cursor;
            Some(row)
        } else {
            None
        }
    }

    /// One pull of the wire-row capability through `cursor`: the same
    /// yield, as a wire-level record, under the same save/restore cursor
    /// discipline.
    pub fn pull_wire(&mut self, cursor: &mut SourceCursor) -> (r: Option<WireRow>)
        ensures
            final(self)@.schema == old(self)@.schema,
            final(self)@.rows == old(self)@.rows,
            r.deep_view() == source_yield(old(self)@.rows, old(cursor).position as int),
            old(cursor).position < old(self)@.rows.len() ==> final(cursor).position == old(
                cursor,
            ).position + 1,
            old(cursor).position >= old(self)@.rows.len() ==> final(cursor).position == old(
                cursor,
            ).position,
            final(self)@.cursor == final(cursor).position,
    {
        self.cursor = cursor.position;
        if self.cursor < self.rows.len() {
            let row = self.rows[self.cursor].clone();
            proof {
                assert(row@ == old(self)@.rows[cursor.position as int]);
            }
            self.cursor = self.cursor + 1;
            cursor.position = self.cursor;
            Some(WireRow { values: row.into_values() })
        } else {
            None
        }
    }
}

/// A source holding K rows yields, through either capability, exactly K
/// rows: the pull at position `p` yields the row stored there exactly when
/// `p < K`, and end-of-sequence for every position from K on — and since an
/// exhausted pull does not move the cursor, every subsequent pull signals
/// end-of-sequence again. Both capabilities yield by the same function of
/// the rows and the pulling view's own position, so strict alternation of
/// two views yields for each exactly what exclusive driving would.
pub proof fn lemma_source_yields_exactly_count(rows: Seq<Seq<ValueModel>>, p: int)
    ensures
        source_yield(rows, p) is Some <==> 0 <= p < rows.len(),
        0 <= p < rows.len() ==> source_yield(rows, p) == Some(rows[p]),
        p >= rows.len() ==> source_yield(rows, p) is None,
{
}

} // verus!
