//! The tagged-union column value: one case per primitive type the remote
//! store supports, plus an explicit null case.

use vstd::prelude::*;

verus! {

/// A single column value. The case determines the semantic type exactly;
/// no implicit numeric coercion happens between cases.
///
/// Floating-point columns are carried as their IEEE-754 bit patterns
/// (`Float32` holds the 32 bits, `Float64` the 64 bits), so the row model
/// stays within verifiable arithmetic; conversion to native floats is left
/// to unverified callers.
///
/// Decimal precision and scale are not carried on the value itself: they
/// live on the owning column, because the same 128-bit storage is shared
/// across differently-scaled decimal columns.
#[derive(Debug)]
pub enum Value {
    Boolean(bool),
    Int8(i8),
    Int16(i16),
    Int32(i32),
    Int64(i64),
    Uint8(u8),
    Uint16(u16),
    Uint32(u32),
    Uint64(u64),
    /// IEEE-754 single-precision bit pattern.
    Float32(u32),
    /// IEEE-754 double-precision bit pattern.
    Float64(u64),
    Binary(Vec<u8>),
    String(String),
    /// Days since the Unix epoch.
    Date(i32),
    /// Milliseconds since the Unix epoch.
    Datetime(i64),
    TimestampSecond(i64),
    TimestampMillisecond(i64),
    TimestampMicrosecond(i64),
    TimestampNanosecond(i64),
    /// Time of day, seconds.
    TimeSecond(i32),
    /// Time of day, milliseconds.
    TimeMillisecond(i32),
    /// Time of day, microseconds.
    TimeMicrosecond(i64),
    /// Time of day, nanoseconds.
    TimeNanosecond(i64),
    Decimal128(i128),
    /// JSON document, stored as its text.
    Json(String),
    Null,
}

/// The mathematical model of a [`Value`]: the same cases, with owned
/// payloads abstracted to sequences.
pub enum ValueModel {
    Boolean(bool),
    Int8(i8),
    Int16(i16),
    Int32(i32),
    Int64(i64),
    Uint8(u8),
    Uint16(u16),
    Uint32(u32),
    Uint64(u64),
    Float32(u32),
    Float64(u64),
    Binary(Seq<u8>),
    String(Seq<char>),
    Date(i32),
    Datetime(i64),
    TimestampSecond(i64),
    TimestampMillisecond(i64),
    TimestampMicrosecond(i64),
    TimestampNanosecond(i64),
    TimeSecond(i32),
    TimeMillisecond(i32),
    TimeMicrosecond(i64),
    TimeNanosecond(i64),
    Decimal128(i128),
    Json(Seq<char>),
    Null,
}

impl View for Value {
    type V = ValueModel;

    open spec fn view(&self) -> ValueModel {
        match self {
            Value::Boolean(v) => ValueModel::Boolean(*v),
            Value::Int8(v) => ValueModel::Int8(*v),
            Value::Int16(v) => ValueModel::Int16(*v),
            Value::Int32(v) => ValueModel::Int32(*v),
            Value::Int64(v) => ValueModel::Int64(*v),
            Value::Uint8(v) => ValueModel::Uint8(*v),
            Value::Uint16(v) => ValueModel::Uint16(*v),
            Value::Uint32(v) => ValueModel::Uint32(*v),
            Value::Uint64(v) => ValueModel::Uint64(*v),
            Value::Float32(v) => ValueModel::Float32(*v),
            Value::Float64(v) => ValueModel::Float64(*v),
            Value::Binary(v) => ValueModel::Binary(v@),
            Value::String(v) => ValueModel::String(v@),
            Value::Date(v) => ValueModel::Date(*v),
            Value::Datetime(v) => ValueModel::Datetime(*v),
            Value::TimestampSecond(v) => ValueModel::TimestampSecond(*v),
            Value::TimestampMillisecond(v) => ValueModel::TimestampMillisecond(*v),
            Value::TimestampMicrosecond(v) => ValueModel::TimestampMicrosecond(*v),
            Value::TimestampNanosecond(v) => ValueModel::TimestampNanosecond(*v),
            Value::TimeSecond(v) => ValueModel::TimeSecond(*v),
            Value::TimeMillisecond(v) => ValueModel::TimeMillisecond(*v),
            Value::TimeMicrosecond(v) => ValueModel::TimeMicrosecond(*v),
            Value::TimeNanosecond(v) => ValueModel::TimeNanosecond(*v),
            Value::Decimal128(v) => ValueModel::Decimal128(*v),
            Value::Json(v) => ValueModel::Json(v@),
            Value::Null => ValueModel::Null,
        }
    }
}

impl DeepView for Value {
    type V = ValueModel;

    open spec fn deep_view(&self) -> ValueModel {
        self.view()
    }
}

/// The case tag of a stored value, reported when an accessor finds a case
/// other than the one it was asked for.
#[derive(Debug, Clone, Copy, PartialEq, Eq, Structural)]
pub enum ValueKind {
    Boolean,
    Int8,
    Int16,
    Int32,
    Int64,
    Uint8,
    Uint16,
    Uint32,
    Uint64,
    Float32,
    Float64,
    Binary,
    String,
    Date,
    Datetime,
    TimestampSecond,
    TimestampMillisecond,
    TimestampMicrosecond,
    TimestampNanosecond,
    TimeSecond,
    TimeMillisecond,
    TimeMicrosecond,
    TimeNanosecond,
    Decimal128,
    Json,
    Null,
}

/// The case tag of a modelled value.
pub open spec fn kind_of(m: ValueModel) -> ValueKind {
    match m {
        ValueModel::Boolean(_) => ValueKind::Boolean,
        ValueModel::Int8(_) => ValueKind::Int8,
        ValueModel::Int16(_) => ValueKind::Int16,
        ValueModel::Int32(_) => ValueKind::Int32,
        ValueModel::Int64(_) => ValueKind::Int64,
        ValueModel::Uint8(_) => ValueKind::Uint8,
        ValueModel::Uint16(_) => ValueKind::Uint16,
        ValueModel::Uint32(_) => ValueKind::Uint32,
        ValueModel::Uint64(_) => ValueKind::Uint64,
        ValueModel::Float32(_) => ValueKind::Float32,
        ValueModel::Float64(_) => ValueKind::Float64,
        ValueModel::Binary(_) => ValueKind::Binary,
        ValueModel::String(_) => ValueKind::String,
        ValueModel::Date(_) => ValueKind::Date,
        ValueModel::Datetime(_) => ValueKind::Datetime,
        ValueModel::TimestampSecond(_) => ValueKind::TimestampSecond,
        ValueModel::TimestampMillisecond(_) => ValueKind::TimestampMillisecond,
        ValueModel::TimestampMicrosecond(_) => ValueKind::TimestampMicrosecond,
        ValueModel::TimestampNanosecond(_) => ValueKind::TimestampNanosecond,
        ValueModel::TimeSecond(_) => ValueKind::TimeSecond,
        ValueModel::TimeMillisecond(_) => ValueKind::TimeMillisecond,
        ValueModel::TimeMicrosecond(_) => ValueKind::TimeMicrosecond,
        ValueModel::TimeNanosecond(_) => ValueKind::TimeNanosecond,
        ValueModel::Decimal128(_) => ValueKind::Decimal128,
        ValueModel::Json(_) => ValueKind::Json,
        ValueModel::Null => ValueKind::Null,
    }
}

impl Value {
    /// The case tag of this value.
    pub fn kind(&self) -> (k: ValueKind)
        ensures
            k == kind_of(self@),
    {
        match self {
            Value::Boolean(_) => ValueKind::Boolean,
            Value::Int8(_) => ValueKind::Int8,
            Value::Int16(_) => ValueKind::Int16,
            Value::Int32(_) => ValueKind::Int32,
            Value::Int64(_) => ValueKind::Int64,
            Value::Uint8(_) => ValueKind::Uint8,
            Value::Uint16(_) => ValueKind::Uint16,
            Value::Uint32(_) => ValueKind::Uint32,
            Value::Uint64(_) => ValueKind::Uint64,
            Value::Float32(_) => ValueKind::Float32,
            Value::Float64(_) => ValueKind::Float64,
            Value::Binary(_) => ValueKind::Binary,
            Value::String(_) => ValueKind::String,
            Value::Date(_) => ValueKind::Date,
            Value::Datetime(_) => ValueKind::Datetime,
            Value::TimestampSecond(_) => ValueKind::TimestampSecond,
            Value::TimestampMillisecond(_) => ValueKind::TimestampMillisecond,
            Value::TimestampMicrosecond(_) => ValueKind::TimestampMicrosecond,
            Value::TimestampNanosecond(_) => ValueKind::TimestampNanosecond,
            Value::TimeSecond(_) => ValueKind::TimeSecond,
            Value::TimeMillisecond(_) => ValueKind::TimeMillisecond,
            Value::TimeMicrosecond(_) => ValueKind::TimeMicrosecond,
            Value::TimeNanosecond(_) => ValueKind::TimeNanosecond,
            Value::Decimal128(_) => ValueKind::Decimal128,
            Value::Json(_) => ValueKind::Json,
            Value::Null => ValueKind::Null,
        }
    }
}

/// An element-for-element copy of a byte vector.
pub(crate) fn clone_bytes(v: &Vec<u8>) -> (r: Vec<u8>)
    ensures
        r@ == v@,
{
    let mut r: Vec<u8> = Vec::with_capacity(v.len());
    let mut i: usize = 0;
    while i < v.len()
        invariant
            i <= v@.len(),
            r@ == v@.subrange(0, i as int),
        decreases v@.len() - i,
    {
        r.push(v[i]);
        i = i + 1;
    }
    proof {
        assert(r@ == v@.subrange(0, v@.len() as int));
        assert(v@.subrange(0, v@.len() as int) =~= v@);
    }
    r
}

impl Clone for Value {
    /// A copy with the same case and an equal payload.
    fn clone(&self) -> (r: Self)
        ensures
            r@ == self@,
    {
        match self {
            Value::Boolean(v) => Value::Boolean(*v),
            Value::Int8(v) => Value::Int8(*v),
            Value::Int16(v) => Value::Int16(*v),
            Value::Int32(v) => Value::Int32(*v),
            Value::Int64(v) => Value::Int64(*v),
            Value::Uint8(v) => Value::Uint8(*v),
            Value::Uint16(v) => Value::Uint16(*v),
            Value::Uint32(v) => Value::Uint32(*v),
            Value::Uint64(v) => Value::Uint64(*v),
            Value::Float32(v) => Value::Float32(*v),
            Value::Float64(v) => Value::Float64(*v),
            Value::Binary(v) => Value::Binary(clone_bytes(v)),
            Value::String(v) => Value::String(v.clone()),
            Value::Date(v) => Value::Date(*v),
            Value::Datetime(v) => Value::Datetime(*v),
            Value::TimestampSecond(v) => Value::TimestampSecond(*v),
            Value::TimestampMillisecond(v) => Value::TimestampMillisecond(*v),
            Value::TimestampMicrosecond(v) => Value::TimestampMicrosecond(*v),
            Value::TimestampNanosecond(v) => Value::TimestampNanosecond(*v),
            Value::TimeSecond(v) => Value::TimeSecond(*v),
            Value::TimeMillisecond(v) => Value::TimeMillisecond(*v),
            Value::TimeMicrosecond(v) => Value::TimeMicrosecond(*v),
            Value::TimeNanosecond(v) => Value::TimeNanosecond(*v),
            Value::Decimal128(v) => Value::Decimal128(*v),
            Value::Json(v) => Value::Json(v.clone()),
            Value::Null => Value::Null,
        }
    }
}

} // verus!
