//! A data row: an ordered value sequence, positionally aligned with the
//! column list of the table schema it was built against. The alignment is a
//! contract between producer and consumer, not enforced by the type.
//!
//! For each supported type there are three extraction surfaces:
//! - `read_T` is the single checked implementation: it reports exactly what
//!   the slot held as a [`Slot`], and [`Slot::resolve`] applies the
//!   development/production mismatch policy to it;
//! - `get_T` is the quiet production path: a payload of the right case, and
//!   `None` for anything else — out of range, null, or mismatched;
//! - `get_T_unchecked` is the same with the bounds check contracted away:
//!   the caller must have established that the index is in range.
//!
//! `take_T` moves a non-trivial payload out instead of copying it, leaving
//! the null case in the slot.

use vstd::prelude::*;
use vstd::string::StrSliceExecFns;
use vstd::pervasive::VecAdditionalExecFns;
use vstd::utf8::encode_utf8;

use crate::slot::{Slot, TypeClass, TypeMismatch};
use crate::value::{clone_bytes, kind_of, Value, ValueModel};

verus! {

/// An ordered sequence of values, modelled as the sequence of their
/// [`ValueModel`]s.
#[derive(Debug)]
pub struct Row {
    values: Vec<Value>,
}

impl View for Row {
    type V = Seq<ValueModel>;

    closed spec fn view(&self) -> Seq<ValueModel> {
        self.values.deep_view()
    }
}

impl DeepView for Row {
    type V = Seq<ValueModel>;

    open spec fn deep_view(&self) -> Seq<ValueModel> {
        self.view()
    }
}

impl Default for Row {
    /// An empty row.
    fn default() -> (r: Self)
        ensures
            r@ == Seq::<ValueModel>::empty(),
    {
        let r = Row { values: Vec::new() };
        proof {
            assert(r@ =~= Seq::<ValueModel>::empty());
        }
        r
    }
}

impl Clone for Row {
    /// A row with an equal value sequence.
    fn clone(&self) -> (r: Self)
        ensures
            r@ == self@,
    {
        let mut values: Vec<Value> = Vec::with_capacity(self.values.len());
        let mut i: usize = 0;
        while i < self.values.len()
            invariant
                i <= self.values@.len(),
                values.deep_view() =~= self@.subrange(0, i as int),
            decreases self.values@.len() - i,
        {
            let c = self.values[i].clone();
            let ghost cv = c@;
            let ghost prev = values.deep_view();
            values.push(c);
            proof {
                assert(values.deep_view() =~= prev.push(cv));
                assert(self@.subrange(0, i + 1 as int) =~= prev.push(cv));
            }
            i = i + 1;
        }
        let r = Row { values };
        proof {
            assert(r@ =~= self@);
        }
        r
    }
}

/// What a boolean access finds at index `i` of `s`.
pub open spec fn spec_read_bool(s: Seq<ValueModel>, i: int) -> Slot<bool> {
    if i < 0 || i >= s.len() {
        Slot::OutOfRange
    } else {
        match s[i] {
            ValueModel::Boolean(v) => Slot::Present(v),
            ValueModel::Null => Slot::Null,
            m => Slot::Mismatch(TypeMismatch {
                index: i as usize,
                expected: TypeClass::Boolean,
                actual: kind_of(m),
            }),
        }
    }
}

/// What an `i8` access finds at index `i` of `s`.
pub open spec fn spec_read_i8(s: Seq<ValueModel>, i: int) -> Slot<i8> {
    if i < 0 || i >= s.len() {
        Slot::OutOfRange
    } else {
        match s[i] {
            ValueModel::Int8(v) => Slot::Present(v),
            ValueModel::Null => Slot::Null,
            m => Slot::Mismatch(TypeMismatch {
                index: i as usize,
                expected: TypeClass::Int8,
                actual: kind_of(m),
            }),
        }
    }
}

/// What an `i16` access finds at index `i` of `s`.
pub open spec fn spec_read_i16(s: Seq<ValueModel>, i: int) -> Slot<i16> {
    if i < 0 || i >= s.len() {
        Slot::OutOfRange
    } else {
        match s[i] {
            ValueModel::Int16(v) => Slot::Present(v),
            ValueModel::Null => Slot::Null,
            m => Slot::Mismatch(TypeMismatch {
                index: i as usize,
                expected: TypeClass::Int16,
                actual: kind_of(m),
            }),
        }
    }
}

/// What an `i32` access finds at index `i` of `s`.
pub open spec fn spec_read_i32(s: Seq<ValueModel>, i: int) -> Slot<i32> {
    if i < 0 || i >= s.len() {
        Slot::OutOfRange
    } else {
        match s[i] {
            ValueModel::Int32(v) => Slot::Present(v),
            ValueModel::Null => Slot::Null,
            m => Slot::Mismatch(TypeMismatch {
                index: i as usize,
                expected: TypeClass::Int32,
                actual: kind_of(m),
            }),
        }
    }
}

/// What an `i64` access finds at index `i` of `s`.
pub open spec fn spec_read_i64(s: Seq<ValueModel>, i: int) -> Slot<i64> {
    if i < 0 || i >= s.len() {
        Slot::OutOfRange
    } else {
        match s[i] {
            ValueModel::Int64(v) => Slot::Present(v),
            ValueModel::Null => Slot::Null,
            m => Slot::Mismatch(TypeMismatch {
                index: i as usize,
                expected: TypeClass::Int64,
                actual: kind_of(m),
            }),
        }
    }
}

/// What a `u8` access finds at index `i` of `s`.
pub open spec fn spec_read_u8(s: Seq<ValueModel>, i: int) -> Slot<u8> {
    if i < 0 || i >= s.len() {
        Slot::OutOfRange
    } else {
        match s[i] {
            ValueModel::Uint8(v) => Slot::Present(v),
            ValueModel::Null => Slot::Null,
            m => Slot::Mismatch(TypeMismatch {
                index: i as usize,
                expected: TypeClass::Uint8,
                actual: kind_of(m),
            }),
        }
    }
}

/// What a `u16` access finds at index `i` of `s`.
pub open spec fn spec_read_u16(s: Seq<ValueModel>, i: int) -> Slot<u16> {
    if i < 0 || i >= s.len() {
        Slot::OutOfRange
    } else {
        match s[i] {
            ValueModel::Uint16(v) => Slot::Present(v),
            ValueModel::Null => Slot::Null,
            m => Slot::Mismatch(TypeMismatch {
                index: i as usize,
                expected: TypeClass::Uint16,
                actual: kind_of(m),
            }),
        }
    }
}

/// What a `u32` access finds at index `i` of `s`.
pub open spec fn spec_read_u32(s: Seq<ValueModel>, i: int) -> Slot<u32> {
    if i < 0 || i >= s.len() {
        Slot::OutOfRange
    } else {
        match s[i] {
            ValueModel::Uint32(v) => Slot::Present(v),
            ValueModel::Null => Slot::Null,
            m => Slot::Mismatch(TypeMismatch {
                index: i as usize,
                expected: TypeClass::Uint32,
                actual: kind_of(m),
            }),
        }
    }
}

/// What a `u64` access finds at index `i` of `s`.
pub open spec fn spec_read_u64(s: Seq<ValueModel>, i: int) -> Slot<u64> {
    if i < 0 || i >= s.len() {
        Slot::OutOfRange
    } else {
        match s[i] {
            ValueModel::Uint64(v) => Slot::Present(v),
            ValueModel::Null => Slot::Null,
            m => Slot::Mismatch(TypeMismatch {
                index: i as usize,
                expected: TypeClass::Uint64,
                actual: kind_of(m),
            }),
        }
    }
}

/// What an `f32` bit-pattern access finds at index `i` of `s`.
pub open spec fn spec_read_f32(s: Seq<ValueModel>, i: int) -> Slot<u32> {
    if i < 0 || i >= s.len() {
        Slot::OutOfRange
    } else {
        match s[i] {
            ValueModel::Float32(v) => Slot::Present(v),
            ValueModel::Null => Slot::Null,
            m => Slot::Mismatch(TypeMismatch {
                index: i as usize,
                expected: TypeClass::Float32,
                actual: kind_of(m),
            }),
        }
    }
}

/// What an `f64` bit-pattern access finds at index `i` of `s`.
pub open spec fn spec_read_f64(s: Seq<ValueModel>, i: int) -> Slot<u64> {
    if i < 0 || i >= s.len() {
        Slot::OutOfRange
    } else {
        match s[i] {
            ValueModel::Float64(v) => Slot::Present(v),
            ValueModel::Null => Slot::Null,
            m => Slot::Mismatch(TypeMismatch {
                index: i as usize,
                expected: TypeClass::Float64,
                actual: kind_of(m),
            }),
        }
    }
}

/// What a date access finds at index `i` of `s`.
pub open spec fn spec_read_date(s: Seq<ValueModel>, i: int) -> Slot<i32> {
    if i < 0 || i >= s.len() {
        Slot::OutOfRange
    } else {
        match s[i] {
            ValueModel::Date(v) => Slot::Present(v),
            ValueModel::Null => Slot::Null,
            m => Slot::Mismatch(TypeMismatch {
                index: i as usize,
                expected: TypeClass::Date,
                actual: kind_of(m),
            }),
        }
    }
}

/// What a datetime access finds at index `i` of `s`.
pub open spec fn spec_read_datetime(s: Seq<ValueModel>, i: int) -> Slot<i64> {
    if i < 0 || i >= s.len() {
        Slot::OutOfRange
    } else {
        match s[i] {
            ValueModel::Datetime(v) => Slot::Present(v),
            ValueModel::Null => Slot::Null,
            m => Slot::Mismatch(TypeMismatch {
                index: i as usize,
                expected: TypeClass::Datetime,
                actual: kind_of(m),
            }),
        }
    }
}

/// What a timestamp access finds at index `i` of `s`.
pub open spec fn spec_read_timestamp(s: Seq<ValueModel>, i: int) -> Slot<i64> {
    if i < 0 || i >= s.len() {
        Slot::OutOfRange
    } else {
        match s[i] {
            ValueModel::TimestampSecond(v) => Slot::Present(v),
            ValueModel::TimestampMillisecond(v) => Slot::Present(v),
            ValueModel::TimestampMicrosecond(v) => Slot::Present(v),
            ValueModel::TimestampNanosecond(v) => Slot::Present(v),
            ValueModel::Null => Slot::Null,
            m => Slot::Mismatch(TypeMismatch {
                index: i as usize,
                expected: TypeClass::Timestamp,
                actual: kind_of(m),
            }),
        }
    }
}

/// What a 32-bit time-of-day access finds at index `i` of `s`.
pub open spec fn spec_read_time32(s: Seq<ValueModel>, i: int) -> Slot<i32> {
    if i < 0 || i >= s.len() {
        Slot::OutOfRange
    } else {
        match s[i] {
            ValueModel::TimeSecond(v) => Slot::Present(v),
            ValueModel::TimeMillisecond(v) => Slot::Present(v),
            ValueModel::Null => Slot::Null,
            m => Slot::Mismatch(TypeMismatch {
                index: i as usize,
                expected: TypeClass::Time32,
                actual: kind_of(m),
            }),
        }
    }
}

/// What a 64-bit time-of-day access finds at index `i` of `s`.
pub open spec fn spec_read_time64(s: Seq<ValueModel>, i: int) -> Slot<i64> {
    if i < 0 || i >= s.len() {
        Slot::OutOfRange
    } else {
        match s[i] {
            ValueModel::TimeMicrosecond(v) => Slot::Present(v),
            ValueModel::TimeNanosecond(v) => Slot::Present(v),
            ValueModel::Null => Slot::Null,
            m => Slot::Mismatch(TypeMismatch {
                index: i as usize,
                expected: TypeClass::Time64,
                actual: kind_of(m),
            }),
        }
    }
}

/// What a decimal128 access finds at index `i` of `s`.
pub open spec fn spec_read_decimal128(s: Seq<ValueModel>, i: int) -> Slot<i128> {
    if i < 0 || i >= s.len() {
        Slot::OutOfRange
    } else {
        match s[i] {
            ValueModel::Decimal128(v) => Slot::Present(v),
            ValueModel::Null => Slot::Null,
            m => Slot::Mismatch(TypeMismatch {
                index: i as usize,
                expected: TypeClass::Decimal128,
                actual: kind_of(m),
            }),
        }
    }
}
/// What a binary access finds at index `i` of `s`. A stored text value is
/// readable as binary: it reads as its UTF-8 byte encoding — the one place
/// type coercion is permitted, kept for JSON-carrying text columns.
pub open spec fn spec_read_binary(s: Seq<ValueModel>, i: int) -> Slot<Seq<u8>> {
    if i < 0 || i >= s.len() {
        Slot::OutOfRange
    } else {
        match s[i] {
            ValueModel::Binary(b) => Slot::Present(b),
            ValueModel::String(cs) => Slot::Present(encode_utf8(cs)),
            ValueModel::Null => Slot::Null,
            m => Slot::Mismatch(TypeMismatch {
                index: i as usize,
                expected: TypeClass::Binary,
                actual: kind_of(m),
            }),
        }
    }
}

/// What a string access finds at index `i` of `s`.
pub open spec fn spec_read_string(s: Seq<ValueModel>, i: int) -> Slot<Seq<char>> {
    if i < 0 || i >= s.len() {
        Slot::OutOfRange
    } else {
        match s[i] {
            ValueModel::String(cs) => Slot::Present(cs),
            ValueModel::Null => Slot::Null,
            m => Slot::Mismatch(TypeMismatch {
                index: i as usize,
                expected: TypeClass::String,
                actual: kind_of(m),
            }),
        }
    }
}

impl Row {
    /// An empty row.
    pub fn new() -> (r: Self)
        ensures
            r@ == Seq::<ValueModel>::empty(),
    {
        let r = Row { values: Vec::new() };
        proof {
            assert(r@ =~= Seq::<ValueModel>::empty());
        }
        r
    }

    /// An empty row with storage reserved for `capacity` values.
    pub fn with_capacity(capacity: usize) -> (r: Self)
        ensures
            r@ == Seq::<ValueModel>::empty(),
    {
        let r = Row { values: Vec::with_capacity(capacity) };
        proof {
            assert(r@ =~= Seq::<ValueModel>::empty());
        }
        r
    }

    /// The number of values in the row.
    pub fn len(&self) -> (n: usize)
        ensures
            n == self@.len(),
    {
        self.values.len()
    }

    /// Whether the row holds no values.
    pub fn is_empty(&self) -> (e: bool)
        ensures
            e == (self@.len() == 0),
    {
        self.values.len() == 0
    }

    /// A row over the given values, in their order.
    pub fn from_values(values: Vec<Value>) -> (r: Self)
        ensures
            r@ == values.deep_view(),
    {
        Row { values }
    }

    /// The row extended by one value.
    pub fn add_value(self, value: Value) -> (r: Self)
        ensures
            r@ == self@.push(value@),
    {
        let ghost before = self@;
        let ghost pushed = value@;
        let mut values = self.values;
        values.push(value);
        let r = Row { values };
        proof {
            assert(r@ =~= before.push(pushed));
        }
        r
    }

    /// The row extended by the given values, in their order.
    pub fn add_values(self, values: Vec<Value>) -> (r: Self)
        ensures
            r@ == self@ + values.deep_view(),
    {
        let ghost before = self@;
        let ghost added = values.deep_view();
        let mut own = self.values;
        let mut more = values;
        own.append(&mut more);
        let r = Row { values: own };
        proof {
            assert(r@ =~= before + added);
        }
        r
    }

    /// The row's values, in order, ownership handed to the caller.
    pub fn into_values(self) -> (r: Vec<Value>)
        ensures
            r.deep_view() == self@,
    {
        self.values
    }

    /// What a boolean access finds at `index`: the single checked
    /// reading that `get_bool` and the mismatch policy build on.
    pub fn read_bool(&self, index: usize) -> (r: Slot<bool>)
        ensures
            r == spec_read_bool(self@, index as int),
    {
        if index >= self.values.len() {
            return Slot::OutOfRange;
        }
        match &self.values[index] {
            Value::Boolean(v) => Slot::Present(*v),
            Value::Null => Slot::Null,
            other => Slot::Mismatch(TypeMismatch {
                index,
                expected: TypeClass::Boolean,
                actual: other.kind(),
            }),
        }
    }

    /// The boolean value at `index`: `None` when the index is out of
    /// range, the slot holds null, or the stored case differs.
    pub fn get_bool(&self, index: usize) -> (r: Option<bool>)
        ensures
            r == spec_read_bool(self@, index as int).quiet(),
    {
        match self.read_bool(index) {
            Slot::Present(v) => Some(v),
            _ => None,
        }
    }

    /// As [`Row::get_bool`], with the bounds check contracted away:
    /// the caller must have established that `index` is in range.
    pub fn get_bool_unchecked(&self, index: usize) -> (r: Option<bool>)
        requires
            index < self@.len(),
        ensures
            r == spec_read_bool(self@, index as int).quiet(),
    {
        self.get_bool(index)
    }

    /// What an `i8` access finds at `index`: the single checked
    /// reading that `get_i8` and the mismatch policy build on.
    pub fn read_i8(&self, index: usize) -> (r: Slot<i8>)
        ensures
            r == spec_read_i8(self@, index as int),
    {
        if index >= self.values.len() {
            return Slot::OutOfRange;
        }
        match &self.values[index] {
            Value::Int8(v) => Slot::Present(*v),
            Value::Null => Slot::Null,
            other => Slot::Mismatch(TypeMismatch {
                index,
                expected: TypeClass::Int8,
                actual: other.kind(),
            }),
        }
    }

    /// The `i8` value at `index`: `None` when the index is out of
    /// range, the slot holds null, or the stored case differs.
    pub fn get_i8(&self, index: usize) -> (r: Option<i8>)
        ensures
            r == spec_read_i8(self@, index as int).quiet(),
    {
        match self.read_i8(index) {
            Slot::Present(v) => Some(v),
            _ => None,
        }
    }

    /// As [`Row::get_i8`], with the bounds check contracted away:
    /// the caller must have established that `index` is in range.
    pub fn get_i8_unchecked(&self, index: usize) -> (r: Option<i8>)
        requires
            index < self@.len(),
        ensures
            r == spec_read_i8(self@, index as int).quiet(),
    {
        self.get_i8(index)
    }

    /// What an `i16` access finds at `index`: the single checked
    /// reading that `get_i16` and the mismatch policy build on.
    pub fn read_i16(&self, index: usize) -> (r: Slot<i16>)
        ensures
            r == spec_read_i16(self@, index as int),
    {
        if index >= self.values.len() {
            return Slot::OutOfRange;
        }
        match &self.values[index] {
            Value::Int16(v) => Slot::Present(*v),
            Value::Null => Slot::Null,
            other => Slot::Mismatch(TypeMismatch {
                index,
                expected: TypeClass::Int16,
                actual: other.kind(),
            }),
        }
    }

    /// The `i16` value at `index`: `None` when the index is out of
    /// range, the slot holds null, or the stored case differs.
    pub fn get_i16(&self, index: usize) -> (r: Option<i16>)
        ensures
            r == spec_read_i16(self@, index as int).quiet(),
    {
        match self.read_i16(index) {
            Slot::Present(v) => Some(v),
            _ => None,
        }
    }

    /// As [`Row::get_i16`], with the bounds check contracted away:
    /// the caller must have established that `index` is in range.
    pub fn get_i16_unchecked(&self, index: usize) -> (r: Option<i16>)
        requires
            index < self@.len(),
        ensures
            r == spec_read_i16(self@, index as int).quiet(),
    {
        self.get_i16(index)
    }

    /// What an `i32` access finds at `index`: the single checked
    /// reading that `get_i32` and the mismatch policy build on.
    pub fn read_i32(&self, index: usize) -> (r: Slot<i32>)
        ensures
            r == spec_read_i32(self@, index as int),
    {
        if index >= self.values.len() {
            return Slot::OutOfRange;
        }
        match &self.values[index] {
            Value::Int32(v) => Slot::Present(*v),
            Value::Null => Slot::Null,
            other => Slot::Mismatch(TypeMismatch {
                index,
                expected: TypeClass::Int32,
                actual: other.kind(),
            }),
        }
    }

    /// The `i32` value at `index`: `None` when the index is out of
    /// range, the slot holds null, or the stored case differs.
    pub fn get_i32(&self, index: usize) -> (r: Option<i32>)
        ensures
            r == spec_read_i32(self@, index as int).quiet(),
    {
        match self.read_i32(index) {
            Slot::Present(v) => Some(v),
            _ => None,
        }
    }

    /// As [`Row::get_i32`], with the bounds check contracted away:
    /// the caller must have established that `index` is in range.
    pub fn get_i32_unchecked(&self, index: usize) -> (r: Option<i32>)
        requires
            index < self@.len(),
        ensures
            r == spec_read_i32(self@, index as int).quiet(),
    {
        self.get_i32(index)
    }

    /// What an `i64` access finds at `index`: the single checked
    /// reading that `get_i64` and the mismatch policy build on.
    pub fn read_i64(&self, index: usize) -> (r: Slot<i64>)
        ensures
            r == spec_read_i64(self@, index as int),
    {
        if index >= self.values.len() {
            return Slot::OutOfRange;
        }
        match &self.values[index] {
            Value::Int64(v) => Slot::Present(*v),
            Value::Null => Slot::Null,
            other => Slot::Mismatch(TypeMismatch {
                index,
                expected: TypeClass::Int64,
                actual: other.kind(),
            }),
        }
    }

    /// The `i64` value at `index`: `None` when the index is out of
    /// range, the slot holds null, or the stored case differs.
    pub fn get_i64(&self, index: usize) -> (r: Option<i64>)
        ensures
            r == spec_read_i64(self@, index as int).quiet(),
    {
        match self.read_i64(index) {
            Slot::Present(v) => Some(v),
            _ => None,
        }
    }

    /// As [`Row::get_i64`], with the bounds check contracted away:
    /// the caller must have established that `index` is in range.
    pub fn get_i64_unchecked(&self, index: usize) -> (r: Option<i64>)
        requires
            index < self@.len(),
        ensures
            r == spec_read_i64(self@, index as int).quiet(),
    {
        self.get_i64(index)
    }

    /// What a `u8` access finds at `index`: the single checked
    /// reading that `get_u8` and the mismatch policy build on.
    pub fn read_u8(&self, index: usize) -> (r: Slot<u8>)
        ensures
            r == spec_read_u8(self@, index as int),
    {
        if index >= self.values.len() {
            return Slot::OutOfRange;
        }
        match &self.values[index] {
            Value::Uint8(v) => Slot::Present(*v),
            Value::Null => Slot::Null,
            other => Slot::Mismatch(TypeMismatch {
                index,
                expected: TypeClass::Uint8,
                actual: other.kind(),
            }),
        }
    }

    /// The `u8` value at `index`: `None` when the index is out of
    /// range, the slot holds null, or the stored case differs.
    pub fn get_u8(&self, index: usize) -> (r: Option<u8>)
        ensures
            r == spec_read_u8(self@, index as int).quiet(),
    {
        match self.read_u8(index) {
            Slot::Present(v) => Some(v),
            _ => None,
        }
    }

    /// As [`Row::get_u8`], with the bounds check contracted away:
    /// the caller must have established that `index` is in range.
    pub fn get_u8_unchecked(&self, index: usize) -> (r: Option<u8>)
        requires
            index < self@.len(),
        ensures
            r == spec_read_u8(self@, index as int).quiet(),
    {
        self.get_u8(index)
    }

    /// What a `u16` access finds at `index`: the single checked
    /// reading that `get_u16` and the mismatch policy build on.
    pub fn read_u16(&self, index: usize) -> (r: Slot<u16>)
        ensures
            r == spec_read_u16(self@, index as int),
    {
        if index >= self.values.len() {
            return Slot::OutOfRange;
        }
        match &self.values[index] {
            Value::Uint16(v) => Slot::Present(*v),
            Value::Null => Slot::Null,
            other => Slot::Mismatch(TypeMismatch {
                index,
                expected: TypeClass::Uint16,
                actual: other.kind(),
            }),
        }
    }

    /// The `u16` value at `index`: `None` when the index is out of
    /// range, the slot holds null, or the stored case differs.
    pub fn get_u16(&self, index: usize) -> (r: Option<u16>)
        ensures
            r == spec_read_u16(self@, index as int).quiet(),
    {
        match self.read_u16(index) {
            Slot::Present(v) => Some(v),
            _ => None,
        }
    }

    /// As [`Row::get_u16`], with the bounds check contracted away:
    /// the caller must have established that `index` is in range.
    pub fn get_u16_unchecked(&self, index: usize) -> (r: Option<u16>)
        requires
            index < self@.len(),
        ensures
            r == spec_read_u16(self@, index as int).quiet(),
    {
        self.get_u16(index)
    }

    /// What a `u32` access finds at `index`: the single checked
    /// reading that `get_u32` and the mismatch policy build on.
    pub fn read_u32(&self, index: usize) -> (r: Slot<u32>)
        ensures
            r == spec_read_u32(self@, index as int),
    {
        if index >= self.values.len() {
            return Slot::OutOfRange;
        }
        match &self.values[index] {
            Value::Uint32(v) => Slot::Present(*v),
            Value::Null => Slot::Null,
            other => Slot::Mismatch(TypeMismatch {
                index,
                expected: TypeClass::Uint32,
                actual: other.kind(),
            }),
        }
    }

    /// The `u32` value at `index`: `None` when the index is out of
    /// range, the slot holds null, or the stored case differs.
    pub fn get_u32(&self, index: usize) -> (r: Option<u32>)
        ensures
            r == spec_read_u32(self@, index as int).quiet(),
    {
        match self.read_u32(index) {
            Slot::Present(v) => Some(v),
            _ => None,
        }
    }

    /// As [`Row::get_u32`], with the bounds check contracted away:
    /// the caller must have established that `index` is in range.
    pub fn get_u32_unchecked(&self, index: usize) -> (r: Option<u32>)
        requires
            index < self@.len(),
        ensures
            r == spec_read_u32(self@, index as int).quiet(),
    {
        self.get_u32(index)
    }

    /// What a `u64` access finds at `index`: the single checked
    /// reading that `get_u64` and the mismatch policy build on.
    pub fn read_u64(&self, index: usize) -> (r: Slot<u64>)
        ensures
            r == spec_read_u64(self@, index as int),
    {
        if index >= self.values.len() {
            return Slot::OutOfRange;
        }
        match &self.values[index] {
            Value::Uint64(v) => Slot::Present(*v),
            Value::Null => Slot::Null,
            other => Slot::Mismatch(TypeMismatch {
                index,
                expected: TypeClass::Uint64,
                actual: other.kind(),
            }),
        }
    }

    /// The `u64` value at `index`: `None` when the index is out of
    /// range, the slot holds null, or the stored case differs.
    pub fn get_u64(&self, index: usize) -> (r: Option<u64>)
        ensures
            r == spec_read_u64(self@, index as int).quiet(),
    {
        match self.read_u64(index) {
            Slot::Present(v) => Some(v),
            _ => None,
        }
    }

    /// As [`Row::get_u64`], with the bounds check contracted away:
    /// the caller must have established that `index` is in range.
    pub fn get_u64_unchecked(&self, index: usize) -> (r: Option<u64>)
        requires
            index < self@.len(),
        ensures
            r == spec_read_u64(self@, index as int).quiet(),
    {
        self.get_u64(index)
    }

    /// What an `f32` bit-pattern access finds at `index`: the single checked
    /// reading that `get_f32` and the mismatch policy build on.
    pub fn read_f32(&self, index: usize) -> (r: Slot<u32>)
        ensures
            r == spec_read_f32(self@, index as int),
    {
        if index >= self.values.len() {
            return Slot::OutOfRange;
        }
        match &self.values[index] {
            Value::Float32(v) => Slot::Present(*v),
            Value::Null => Slot::Null,
            other => Slot::Mismatch(TypeMismatch {
                index,
                expected: TypeClass::Float32,
                actual: other.kind(),
            }),
        }
    }

    /// The `f32` bit-pattern value at `index`: `None` when the index is out of
    /// range, the slot holds null, or the stored case differs.
    pub fn get_f32(&self, index: usize) -> (r: Option<u32>)
        ensures
            r == spec_read_f32(self@, index as int).quiet(),
    {
        match self.read_f32(index) {
            Slot::Present(v) => Some(v),
            _ => None,
        }
    }

    /// As [`Row::get_f32`], with the bounds check contracted away:
    /// the caller must have established that `index` is in range.
    pub fn get_f32_unchecked(&self, index: usize) -> (r: Option<u32>)
        requires
            index < self@.len(),
        ensures
            r == spec_read_f32(self@, index as int).quiet(),
    {
        self.get_f32(index)
    }

    /// What an `f64` bit-pattern access finds at `index`: the single checked
    /// reading that `get_f64` and the mismatch policy build on.
    pub fn read_f64(&self, index: usize) -> (r: Slot<u64>)
        ensures
            r == spec_read_f64(self@, index as int),
    {
        if index >= self.values.len() {
            return Slot::OutOfRange;
        }
        match &self.values[index] {
            Value::Float64(v) => Slot::Present(*v),
            Value::Null => Slot::Null,
            other => Slot::Mismatch(TypeMismatch {
                index,
                expected: TypeClass::Float64,
                actual: other.kind(),
            }),
        }
    }

    /// The `f64` bit-pattern value at `index`: `None` when the index is out of
    /// range, the slot holds null, or the stored case differs.
    pub fn get_f64(&self, index: usize) -> (r: Option<u64>)
        ensures
            r == spec_read_f64(self@, index as int).quiet(),
    {
        match self.read_f64(index) {
            Slot::Present(v) => Some(v),
            _ => None,
        }
    }

    /// As [`Row::get_f64`], with the bounds check contracted away:
    /// the caller must have established that `index` is in range.
    pub fn get_f64_unchecked(&self, index: usize) -> (r: Option<u64>)
        requires
            index < self@.len(),
        ensures
            r == spec_read_f64(self@, index as int).quiet(),
    {
        self.get_f64(index)
    }

    /// What a date access finds at `index`: the single checked
    /// reading that `get_date` and the mismatch policy build on.
    pub fn read_date(&self, index: usize) -> (r: Slot<i32>)
        ensures
            r == spec_read_date(self@, index as int),
    {
        if index >= self.values.len() {
            return Slot::OutOfRange;
        }
        match &self.values[index] {
            Value::Date(v) => Slot::Present(*v),
            Value::Null => Slot::Null,
            other => Slot::Mismatch(TypeMismatch {
                index,
                expected: TypeClass::Date,
                actual: other.kind(),
            }),
        }
    }

    /// The date value at `index`: `None` when the index is out of
    /// range, the slot holds null, or the stored case differs.
    pub fn get_date(&self, index: usize) -> (r: Option<i32>)
        ensures
            r == spec_read_date(self@, index as int).quiet(),
    {
        match self.read_date(index) {
            Slot::Present(v) => Some(v),
            _ => None,
        }
    }

    /// As [`Row::get_date`], with the bounds check contracted away:
    /// the caller must have established that `index` is in range.
    pub fn get_date_unchecked(&self, index: usize) -> (r: Option<i32>)
        requires
            index < self@.len(),
        ensures
            r == spec_read_date(self@, index as int).quiet(),
    {
        self.get_date(index)
    }

    /// What a datetime access finds at `index`: the single checked
    /// reading that `get_datetime` and the mismatch policy build on.
    pub fn read_datetime(&self, index: usize) -> (r: Slot<i64>)
        ensures
            r == spec_read_datetime(self@, index as int),
    {
        if index >= self.values.len() {
            return Slot::OutOfRange;
        }
        match &self.values[index] {
            Value::Datetime(v) => Slot::Present(*v),
            Value::Null => Slot::Null,
            other => Slot::Mismatch(TypeMismatch {
                index,
                expected: TypeClass::Datetime,
                actual: other.kind(),
            }),
        }
    }

    /// The datetime value at `index`: `None` when the index is out of
    /// range, the slot holds null, or the stored case differs.
    pub fn get_datetime(&self, index: usize) -> (r: Option<i64>)
        ensures
            r == spec_read_datetime(self@, index as int).quiet(),
    {
        match self.read_datetime(index) {
            Slot::Present(v) => Some(v),
            _ => None,
        }
    }

    /// As [`Row::get_datetime`], with the bounds check contracted away:
    /// the caller must have established that `index` is in range.
    pub fn get_datetime_unchecked(&self, index: usize) -> (r: Option<i64>)
        requires
            index < self@.len(),
        ensures
            r == spec_read_datetime(self@, index as int).quiet(),
    {
        self.get_datetime(index)
    }

    /// What a timestamp access finds at `index`: the single checked
    /// reading that `get_timestamp` and the mismatch policy build on.
    pub fn read_timestamp(&self, index: usize) -> (r: Slot<i64>)
        ensures
            r == spec_read_timestamp(self@, index as int),
    {
        if index >= self.values.len() {
            return Slot::OutOfRange;
        }
        match &self.values[index] {
            Value::TimestampSecond(v) => Slot::Present(*v),
            Value::TimestampMillisecond(v) => Slot::Present(*v),
            Value::TimestampMicrosecond(v) => Slot::Present(*v),
            Value::TimestampNanosecond(v) => Slot::Present(*v),
            Value::Null => Slot::Null,
            other => Slot::Mismatch(TypeMismatch {
                index,
                expected: TypeClass::Timestamp,
                actual: other.kind(),
            }),
        }
    }

    /// The timestamp value at `index`: `None` when the index is out of
    /// range, the slot holds null, or the stored case differs.
    pub fn get_timestamp(&self, index: usize) -> (r: Option<i64>)
        ensures
            r == spec_read_timestamp(self@, index as int).quiet(),
    {
        match self.read_timestamp(index) {
            Slot::Present(v) => Some(v),
            _ => None,
        }
    }

    /// As [`Row::get_timestamp`], with the bounds check contracted away:
    /// the caller must have established that `index` is in range.
    pub fn get_timestamp_unchecked(&self, index: usize) -> (r: Option<i64>)
        requires
            index < self@.len(),
        ensures
            r == spec_read_timestamp(self@, index as int).quiet(),
    {
        self.get_timestamp(index)
    }

    /// What a 32-bit time-of-day access finds at `index`: the single checked
    /// reading that `get_time32` and the mismatch policy build on.
    pub fn read_time32(&self, index: usize) -> (r: Slot<i32>)
        ensures
            r == spec_read_time32(self@, index as int),
    {
        if index >= self.values.len() {
            return Slot::OutOfRange;
        }
        match &self.values[index] {
            Value::TimeSecond(v) => Slot::Present(*v),
            Value::TimeMillisecond(v) => Slot::Present(*v),
            Value::Null => Slot::Null,
            other => Slot::Mismatch(TypeMismatch {
                index,
                expected: TypeClass::Time32,
                actual: other.kind(),
            }),
        }
    }

    /// The 32-bit time-of-day value at `index`: `None` when the index is out of
    /// range, the slot holds null, or the stored case differs.
    pub fn get_time32(&self, index: usize) -> (r: Option<i32>)
        ensures
            r == spec_read_time32(self@, index as int).quiet(),
    {
        match self.read_time32(index) {
            Slot::Present(v) => Some(v),
            _ => None,
        }
    }

    /// As [`Row::get_time32`], with the bounds check contracted away:
    /// the caller must have established that `index` is in range.
    pub fn get_time32_unchecked(&self, index: usize) -> (r: Option<i32>)
        requires
            index < self@.len(),
        ensures
            r == spec_read_time32(self@, index as int).quiet(),
    {
        self.get_time32(index)
    }

    /// What a 64-bit time-of-day access finds at `index`: the single checked
    /// reading that `get_time64` and the mismatch policy build on.
    pub fn read_time64(&self, index: usize) -> (r: Slot<i64>)
        ensures
            r == spec_read_time64(self@, index as int),
    {
        if index >= self.values.len() {
            return Slot::OutOfRange;
        }
        match &self.values[index] {
            Value::TimeMicrosecond(v) => Slot::Present(*v),
            Value::TimeNanosecond(v) => Slot::Present(*v),
            Value::Null => Slot::Null,
            other => Slot::Mismatch(TypeMismatch {
                index,
                expected: TypeClass::Time64,
                actual: other.kind(),
            }),
        }
    }

    /// The 64-bit time-of-day value at `index`: `None` when the index is out of
    /// range, the slot holds null, or the stored case differs.
    pub fn get_time64(&self, index: usize) -> (r: Option<i64>)
        ensures
            r == spec_read_time64(self@, index as int).quiet(),
    {
        match self.read_time64(index) {
            Slot::Present(v) => Some(v),
            _ => None,
        }
    }

    /// As [`Row::get_time64`], with the bounds check contracted away:
    /// the caller must have established that `index` is in range.
    pub fn get_time64_unchecked(&self, index: usize) -> (r: Option<i64>)
        requires
            index < self@.len(),
        ensures
            r == spec_read_time64(self@, index as int).quiet(),
    {
        self.get_time64(index)
    }

    /// What a decimal128 access finds at `index`: the single checked
    /// reading that `get_decimal128` and the mismatch policy build on.
    pub fn read_decimal128(&self, index: usize) -> (r: Slot<i128>)
        ensures
            r == spec_read_decimal128(self@, index as int),
    {
        if index >= self.values.len() {
            return Slot::OutOfRange;
        }
        match &self.values[index] {
            Value::Decimal128(v) => Slot::Present(*v),
            Value::Null => Slot::Null,
            other => Slot::Mismatch(TypeMismatch {
                index,
                expected: TypeClass::Decimal128,
                actual: other.kind(),
            }),
        }
    }

    /// The decimal128 value at `index`: `None` when the index is out of
    /// range, the slot holds null, or the stored case differs.
    pub fn get_decimal128(&self, index: usize) -> (r: Option<i128>)
        ensures
            r == spec_read_decimal128(self@, index as int).quiet(),
    {
        match self.read_decimal128(index) {
            Slot::Present(v) => Some(v),
            _ => None,
        }
    }

    /// As [`Row::get_decimal128`], with the bounds check contracted away:
    /// the caller must have established that `index` is in range.
    pub fn get_decimal128_unchecked(&self, index: usize) -> (r: Option<i128>)
        requires
            index < self@.len(),
        ensures
            r == spec_read_decimal128(self@, index as int).quiet(),
    {
        self.get_decimal128(index)
    }
    /// What a binary access finds at `index`. A stored text value reads as
    /// its UTF-8 byte encoding, byte for byte.
    pub fn read_binary(&self, index: usize) -> (r: Slot<Vec<u8>>)
        ensures
            r.deep_view() == spec_read_binary(self@, index as int),
    {
        if index >= self.values.len() {
            return Slot::OutOfRange;
        }
        let v = &self.values[index];
        proof {
            assert(v@ == self@[index as int]);
        }
        match v {
            Value::Binary(b) => {
                let bytes = clone_bytes(b);
                proof {
                    assert(bytes.deep_view() =~= b@);
                }
                Slot::Present(bytes)
            },
            Value::String(s) => {
                let bytes = s.as_str().as_bytes_vec();
                proof {
                    assert(bytes.deep_view() =~= encode_utf8(s@));
                }
                Slot::Present(bytes)
            },
            Value::Null => Slot::Null,
            other => Slot::Mismatch(TypeMismatch {
                index,
                expected: TypeClass::Binary,
                actual: other.kind(),
            }),
        }
    }

    /// The binary value at `index`: `None` when the index is out of range,
    /// the slot holds null, or the stored case differs. A stored text value
    /// reads as its UTF-8 byte encoding.
    pub fn get_binary(&self, index: usize) -> (r: Option<Vec<u8>>)
        ensures
            r.deep_view() == spec_read_binary(self@, index as int).quiet(),
    {
        match self.read_binary(index) {
            Slot::Present(v) => Some(v),
            _ => None,
        }
    }

    /// As [`Row::get_binary`], with the bounds check contracted away: the
    /// caller must have established that `index` is in range.
    pub fn get_binary_unchecked(&self, index: usize) -> (r: Option<Vec<u8>>)
        requires
            index < self@.len(),
        ensures
            r.deep_view() == spec_read_binary(self@, index as int).quiet(),
    {
        self.get_binary(index)
    }

    /// What a string access finds at `index`: the single checked reading
    /// that `get_string` and the mismatch policy build on.
    pub fn read_string(&self, index: usize) -> (r: Slot<String>)
        ensures
            r.deep_view() == spec_read_string(self@, index as int),
    {
        if index >= self.values.len() {
            return Slot::OutOfRange;
        }
        match &self.values[index] {
            Value::String(s) => Slot::Present(s.clone()),
            Value::Null => Slot::Null,
            other => Slot::Mismatch(TypeMismatch {
                index,
                expected: TypeClass::String,
                actual: other.kind(),
            }),
        }
    }

    /// The string value at `index`: `None` when the index is out of range,
    /// the slot holds null, or the stored case differs.
    pub fn get_string(&self, index: usize) -> (r: Option<String>)
        ensures
            r.deep_view() == spec_read_string(self@, index as int).quiet(),
    {
        match self.read_string(index) {
            Slot::Present(v) => Some(v),
            _ => None,
        }
    }

    /// As [`Row::get_string`], with the bounds check contracted away: the
    /// caller must have established that `index` is in range.
    pub fn get_string_unchecked(&self, index: usize) -> (r: Option<String>)
        requires
            index < self@.len(),
        ensures
            r.deep_view() == spec_read_string(self@, index as int).quiet(),
    {
        self.get_string(index)
    }

    /// Moves the binary value at `index` out of the row, leaving the null
    /// case in the slot; the payload is handed over, not copied. A stored
    /// text value is taken as its UTF-8 byte encoding. Whatever the slot
    /// held, after an in-range take it holds null.
    pub fn take_binary(&mut self, index: usize) -> (r: Option<Vec<u8>>)
        ensures
            index >= old(self)@.len() ==> final(self)@ == old(self)@ && r is None,
            index < old(self)@.len() ==> final(self)@ == old(self)@.update(
                index as int,
                ValueModel::Null,
            ),
            index < old(self)@.len() ==> (match old(self)@[index as int] {
                ValueModel::Binary(bs) => r matches Some(b) && b@ == bs,
                ValueModel::String(cs) => r matches Some(b) && b@ == encode_utf8(cs),
                _ => r is None,
            }),
    {
        if index >= self.values.len() {
            return None;
        }
        self.take_binary_unchecked(index)
    }

    /// As [`Row::take_binary`], with the bounds check contracted away: the
    /// caller must have established that `index` is in range.
    pub fn take_binary_unchecked(&mut self, index: usize) -> (r: Option<Vec<u8>>)
        requires
            index < old(self)@.len(),
        ensures
            final(self)@ == old(self)@.update(index as int, ValueModel::Null),
            (match old(self)@[index as int] {
                ValueModel::Binary(bs) => r matches Some(b) && b@ == bs,
                ValueModel::String(cs) => r matches Some(b) && b@ == encode_utf8(cs),
                _ => r is None,
            }),
    {
        let mut taken = Value::Null;
        self.values.set_and_swap(index, &mut taken);
        proof {
            assert(self@ =~= old(self)@.update(index as int, ValueModel::Null));
        }
        match taken {
            Value::Binary(b) => Some(b),
            Value::String(s) => Some(s.as_str().as_bytes_vec()),
            _ => None,
        }
    }

    /// Moves the string value at `index` out of the row, leaving the null
    /// case in the slot; the payload is handed over, not copied. Whatever
    /// the slot held, after an in-range take it holds null.
    pub fn take_string(&mut self, index: usize) -> (r: Option<String>)
        ensures
            index >= old(self)@.len() ==> final(self)@ == old(self)@ && r is None,
            index < old(self)@.len() ==> final(self)@ == old(self)@.update(
                index as int,
                ValueModel::Null,
            ),
            index < old(self)@.len() ==> (match old(self)@[index as int] {
                ValueModel::String(cs) => r matches Some(s) && s@ == cs,
                _ => r is None,
            }),
    {
        if index >= self.values.len() {
            return None;
        }
        self.take_string_unchecked(index)
    }

    /// As [`Row::take_string`], with the bounds check contracted away: the
    /// caller must have established that `index` is in range.
    pub fn take_string_unchecked(&mut self, index: usize) -> (r: Option<String>)
        requires
            index < old(self)@.len(),
        ensures
            final(self)@ == old(self)@.update(index as int, ValueModel::Null),
            (match old(self)@[index as int] {
                ValueModel::String(cs) => r matches Some(s) && s@ == cs,
                _ => r is None,
            }),
    {
        let mut taken = Value::Null;
        self.values.set_and_swap(index, &mut taken);
        proof {
            assert(self@ =~= old(self)@.update(index as int, ValueModel::Null));
        }
        match taken {
            Value::String(s) => Some(s),
            _ => None,
        }
    }
}

/// Round-trip: a non-null value emitted into a row reads back unchanged
/// through the access of its own type — the payload comes out exactly as
/// it was stored, and a stored text value also reads as binary, as its
/// UTF-8 encoding.
pub proof fn lemma_read_roundtrip(s: Seq<ValueModel>, i: int)
    requires
        0 <= i < s.len(),
    ensures
        (s[i] matches ValueModel::Boolean(v) ==> spec_read_bool(s, i)
            == Slot::<bool>::Present(v)),
        (s[i] matches ValueModel::Int8(v) ==> spec_read_i8(s, i)
            == Slot::<i8>::Present(v)),
        (s[i] matches ValueModel::Int16(v) ==> spec_read_i16(s, i)
            == Slot::<i16>::Present(v)),
        (s[i] matches ValueModel::Int32(v) ==> spec_read_i32(s, i)
            == Slot::<i32>::Present(v)),
        (s[i] matches ValueModel::Int64(v) ==> spec_read_i64(s, i)
            == Slot::<i64>::Present(v)),
        (s[i] matches ValueModel::Uint8(v) ==> spec_read_u8(s, i)
            == Slot::<u8>::Present(v)),
        (s[i] matches ValueModel::Uint16(v) ==> spec_read_u16(s, i)
            == Slot::<u16>::Present(v)),
        (s[i] matches ValueModel::Uint32(v) ==> spec_read_u32(s, i)
            == Slot::<u32>::Present(v)),
        (s[i] matches ValueModel::Uint64(v) ==> spec_read_u64(s, i)
            == Slot::<u64>::Present(v)),
        (s[i] matches ValueModel::Float32(v) ==> spec_read_f32(s, i)
            == Slot::<u32>::Present(v)),
        (s[i] matches ValueModel::Float64(v) ==> spec_read_f64(s, i)
            == Slot::<u64>::Present(v)),
        (s[i] matches ValueModel::Date(v) ==> spec_read_date(s, i)
            == Slot::<i32>::Present(v)),
        (s[i] matches ValueModel::Datetime(v) ==> spec_read_datetime(s, i)
            == Slot::<i64>::Present(v)),
        (s[i] matches ValueModel::TimestampSecond(v) ==> spec_read_timestamp(s, i)
            == Slot::<i64>::Present(v)),
        (s[i] matches ValueModel::TimestampMillisecond(v) ==> spec_read_timestamp(s, i)
            == Slot::<i64>::Present(v)),
        (s[i] matches ValueModel::TimestampMicrosecond(v) ==> spec_read_timestamp(s, i)
            == Slot::<i64>::Present(v)),
        (s[i] matches ValueModel::TimestampNanosecond(v) ==> spec_read_timestamp(s, i)
            == Slot::<i64>::Present(v)),
        (s[i] matches ValueModel::TimeSecond(v) ==> spec_read_time32(s, i)
            == Slot::<i32>::Present(v)),
        (s[i] matches ValueModel::TimeMillisecond(v) ==> spec_read_time32(s, i)
            == Slot::<i32>::Present(v)),
        (s[i] matches ValueModel::TimeMicrosecond(v) ==> spec_read_time64(s, i)
            == Slot::<i64>::Present(v)),
        (s[i] matches ValueModel::TimeNanosecond(v) ==> spec_read_time64(s, i)
            == Slot::<i64>::Present(v)),
        (s[i] matches ValueModel::Decimal128(v) ==> spec_read_decimal128(s, i)
            == Slot::<i128>::Present(v)),
        (s[i] matches ValueModel::Binary(v) ==> spec_read_binary(s, i)
            == Slot::<Seq<u8>>::Present(v)),
        (s[i] matches ValueModel::String(v) ==> spec_read_binary(s, i)
            == Slot::<Seq<u8>>::Present(encode_utf8(v))),
        (s[i] matches ValueModel::String(v) ==> spec_read_string(s, i)
            == Slot::<Seq<char>>::Present(v)),
{
}

/// A value stored as null reads as "no value" through every typed access,
/// whatever type was asked for.
pub proof fn lemma_null_reads_nothing(s: Seq<ValueModel>, i: int)
    requires
        0 <= i < s.len(),
        s[i] is Null,
    ensures
        spec_read_bool(s, i) == Slot::<bool>::Null,
        spec_read_i8(s, i) == Slot::<i8>::Null,
        spec_read_i16(s, i) == Slot::<i16>::Null,
        spec_read_i32(s, i) == Slot::<i32>::Null,
        spec_read_i64(s, i) == Slot::<i64>::Null,
        spec_read_u8(s, i) == Slot::<u8>::Null,
        spec_read_u16(s, i) == Slot::<u16>::Null,
        spec_read_u32(s, i) == Slot::<u32>::Null,
        spec_read_u64(s, i) == Slot::<u64>::Null,
        spec_read_f32(s, i) == Slot::<u32>::Null,
        spec_read_f64(s, i) == Slot::<u64>::Null,
        spec_read_date(s, i) == Slot::<i32>::Null,
        spec_read_datetime(s, i) == Slot::<i64>::Null,
        spec_read_timestamp(s, i) == Slot::<i64>::Null,
        spec_read_time32(s, i) == Slot::<i32>::Null,
        spec_read_time64(s, i) == Slot::<i64>::Null,
        spec_read_decimal128(s, i) == Slot::<i128>::Null,
        spec_read_binary(s, i) == Slot::<Seq<u8>>::Null,
        spec_read_string(s, i) == Slot::<Seq<char>>::Null,
{
}

/// An access against a slot holding a value of another case is the
/// mismatch condition, carrying the index, the expected type, and the
/// actual stored case.
pub proof fn lemma_mismatch_reported(s: Seq<ValueModel>, i: int)
    requires
        0 <= i < s.len(),
    ensures
        (!(s[i] is Boolean) && !(s[i] is Null) ==> spec_read_bool(s, i)
            == Slot::<bool>::Mismatch(TypeMismatch {
                index: i as usize,
                expected: TypeClass::Boolean,
                actual: kind_of(s[i]),
            })),
        (!(s[i] is Int8) && !(s[i] is Null) ==> spec_read_i8(s, i)
            == Slot::<i8>::Mismatch(TypeMismatch {
                index: i as usize,
                expected: TypeClass::Int8,
                actual: kind_of(s[i]),
            })),
        (!(s[i] is Int16) && !(s[i] is Null) ==> spec_read_i16(s, i)
            == Slot::<i16>::Mismatch(TypeMismatch {
                index: i as usize,
                expected: TypeClass::Int16,
                actual: kind_of(s[i]),
            })),
        (!(s[i] is Int32) && !(s[i] is Null) ==> spec_read_i32(s, i)
            == Slot::<i32>::Mismatch(TypeMismatch {
                index: i as usize,
                expected: TypeClass::Int32,
                actual: kind_of(s[i]),
            })),
        (!(s[i] is Int64) && !(s[i] is Null) ==> spec_read_i64(s, i)
            == Slot::<i64>::Mismatch(TypeMismatch {
                index: i as usize,
                expected: TypeClass::Int64,
                actual: kind_of(s[i]),
            })),
        (!(s[i] is Uint8) && !(s[i] is Null) ==> spec_read_u8(s, i)
            == Slot::<u8>::Mismatch(TypeMismatch {
                index: i as usize,
                expected: TypeClass::Uint8,
                actual: kind_of(s[i]),
            })),
        (!(s[i] is Uint16) && !(s[i] is Null) ==> spec_read_u16(s, i)
            == Slot::<u16>::Mismatch(TypeMismatch {
                index: i as usize,
                expected: TypeClass::Uint16,
                actual: kind_of(s[i]),
            })),
        (!(s[i] is Uint32) && !(s[i] is Null) ==> spec_read_u32(s, i)
            == Slot::<u32>::Mismatch(TypeMismatch {
                index: i as usize,
                expected: TypeClass::Uint32,
                actual: kind_of(s[i]),
            })),
        (!(s[i] is Uint64) && !(s[i] is Null) ==> spec_read_u64(s, i)
            == Slot::<u64>::Mismatch(TypeMismatch {
                index: i as usize,
                expected: TypeClass::Uint64,
                actual: kind_of(s[i]),
            })),
        (!(s[i] is Float32) && !(s[i] is Null) ==> spec_read_f32(s, i)
            == Slot::<u32>::Mismatch(TypeMismatch {
                index: i as usize,
                expected: TypeClass::Float32,
                actual: kind_of(s[i]),
            })),
        (!(s[i] is Float64) && !(s[i] is Null) ==> spec_read_f64(s, i)
            == Slot::<u64>::Mismatch(TypeMismatch {
                index: i as usize,
                expected: TypeClass::Float64,
                actual: kind_of(s[i]),
            })),
        (!(s[i] is Date) && !(s[i] is Null) ==> spec_read_date(s, i)
            == Slot::<i32>::Mismatch(TypeMismatch {
                index: i as usize,
                expected: TypeClass::Date,
                actual: kind_of(s[i]),
            })),
        (!(s[i] is Datetime) && !(s[i] is Null) ==> spec_read_datetime(s, i)
            == Slot::<i64>::Mismatch(TypeMismatch {
                index: i as usize,
                expected: TypeClass::Datetime,
                actual: kind_of(s[i]),
            })),
        (!(s[i] is TimestampSecond) && !(s[i] is TimestampMillisecond) && !(s[i] is TimestampMicrosecond) && !(s[i] is TimestampNanosecond) && !(s[i] is Null) ==> spec_read_timestamp(s, i)
            == Slot::<i64>::Mismatch(TypeMismatch {
                index: i as usize,
                expected: TypeClass::Timestamp,
                actual: kind_of(s[i]),
            })),
        (!(s[i] is TimeSecond) && !(s[i] is TimeMillisecond) && !(s[i] is Null) ==> spec_read_time32(s, i)
            == Slot::<i32>::Mismatch(TypeMismatch {
                index: i as usize,
                expected: TypeClass::Time32,
                actual: kind_of(s[i]),
            })),
        (!(s[i] is TimeMicrosecond) && !(s[i] is TimeNanosecond) && !(s[i] is Null) ==> spec_read_time64(s, i)
            == Slot::<i64>::Mismatch(TypeMismatch {
                index: i as usize,
                expected: TypeClass::Time64,
                actual: kind_of(s[i]),
            })),
        (!(s[i] is Decimal128) && !(s[i] is Null) ==> spec_read_decimal128(s, i)
            == Slot::<i128>::Mismatch(TypeMismatch {
                index: i as usize,
                expected: TypeClass::Decimal128,
                actual: kind_of(s[i]),
            })),
        (!(s[i] is Binary) && !(s[i] is String) && !(s[i] is Null) ==> spec_read_binary(s, i)
            == Slot::<Seq<u8>>::Mismatch(TypeMismatch {
                index: i as usize,
                expected: TypeClass::Binary,
                actual: kind_of(s[i]),
            })),
        (!(s[i] is String) && !(s[i] is Null) ==> spec_read_string(s, i)
            == Slot::<Seq<char>>::Mismatch(TypeMismatch {
                index: i as usize,
                expected: TypeClass::String,
                actual: kind_of(s[i]),
            })),
{
}

/// A take leaves the slot holding null: any further access at that index
/// — in particular a second take — finds no value there.
pub proof fn lemma_take_leaves_null(s: Seq<ValueModel>, i: int)
    requires
        0 <= i < s.len(),
    ensures
        s.update(i, ValueModel::Null)[i] is Null,
        spec_read_binary(s.update(i, ValueModel::Null), i) == Slot::<Seq<u8>>::Null,
        spec_read_string(s.update(i, ValueModel::Null), i) == Slot::<Seq<char>>::Null,
{
}

} // verus!
