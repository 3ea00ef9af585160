//! The outcome of one typed access into a row, and the policy that decides
//! how a type mismatch is surfaced.
//!
//! A mismatch — the slot holds a value of a case other than the one asked
//! for — is a programmer-error class, not a runtime-data class. In a
//! development configuration it must be surfaced loudly; in a production
//! configuration it must degrade to "no value" rather than bring down a
//! live ingestion process. The policy is an explicit argument, so both
//! behaviours are testable in one binary.

use vstd::prelude::*;

use crate::value::ValueKind;

verus! {

/// The type a typed accessor asks for. Timestamp and time-of-day accessors
/// are type-family generic, so a class may cover several value cases.
#[derive(Debug, Clone, Copy, PartialEq, Eq, Structural)]
pub enum TypeClass {
    Boolean,
    Int8,
    Int16,
    Int32,
    Int64,
    Uint8,
    Uint16,
    Uint32,
    Uint64,
    Float32,
    Float64,
    Binary,
    String,
    Date,
    Datetime,
    /// Any of the four timestamp resolutions.
    Timestamp,
    /// Time of day in seconds or milliseconds.
    Time32,
    /// Time of day in microseconds or nanoseconds.
    Time64,
    Decimal128,
}

/// A type-mismatch condition: the slot at `index` held a value of case
/// `actual` where the accessor asked for `expected`.
#[derive(Debug, Clone, Copy, PartialEq, Eq, Structural)]
pub struct TypeMismatch {
    pub index: usize,
    pub expected: TypeClass,
    pub actual: ValueKind,
}

/// How a type mismatch is surfaced: loudly in development, silently in
/// production.
#[derive(Debug, Clone, Copy, PartialEq, Eq, Structural)]
pub enum AccessMode {
    Development,
    Production,
}

/// What one typed access found.
#[derive(Debug)]
pub enum Slot<T> {
    /// The slot held a non-null value of the requested type.
    Present(T),
    /// The slot held the null case.
    Null,
    /// The index was past the end of the row.
    OutOfRange,
    /// The slot held a value of another case.
    Mismatch(TypeMismatch),
}

impl<T: DeepView> DeepView for Slot<T> {
    type V = Slot<T::V>;

    open spec fn deep_view(&self) -> Slot<T::V> {
        match self {
            Slot::Present(t) => Slot::Present(t.deep_view()),
            Slot::Null => Slot::Null,
            Slot::OutOfRange => Slot::OutOfRange,
            Slot::Mismatch(m) => Slot::Mismatch(*m),
        }
    }
}

impl<T> Slot<T> {
    /// The soft reading of an access: the payload when one is present,
    /// nothing otherwise, whatever the reason for the absence.
    pub open spec fn quiet(self) -> Option<T> {
        match self {
            Slot::Present(t) => Some(t),
            _ => None,
        }
    }

    /// What [`Slot::resolve`] returns for this outcome under `mode`.
    pub open spec fn spec_resolve(self, mode: AccessMode) -> Result<Option<T>, TypeMismatch> {
        match self {
            Slot::Mismatch(m) => {
                if mode is Development {
                    Err(m)
                } else {
                    Ok(None)
                }
            },
            _ => Ok(self.quiet()),
        }
    }

    /// Applies the mismatch policy: in development a mismatch is surfaced
    /// as the error, naming the index, the expected type and the actual
    /// stored case; in production it degrades to `Ok(None)`.
    pub fn resolve(self, mode: AccessMode) -> (r: Result<Option<T>, TypeMismatch>)
        ensures
            r == self.spec_resolve(mode),
    {
        match self {
            Slot::Present(t) => Ok(Some(t)),
            Slot::Null => Ok(None),
            Slot::OutOfRange => Ok(None),
            Slot::Mismatch(m) => {
                match mode {
                    AccessMode::Development => Err(m),
                    AccessMode::Production => Ok(None),
                }
            },
        }
    }
}

/// A mismatch outcome is surfaced if and only if the mode is the
/// development one: there it carries the condition itself — index,
/// expected type, actual stored case — and in production the same access
/// reads as "no value" without raising anything.
pub proof fn lemma_mismatch_policy<T>(s: Slot<T>)
    requires
        s is Mismatch,
    ensures
        s.spec_resolve(AccessMode::Development) == Err::<Option<T>, TypeMismatch>(s->Mismatch_0),
        s.spec_resolve(AccessMode::Production) == Ok::<Option<T>, TypeMismatch>(None),
{
}

} // verus!
