//! Client-side core for bulk-loading structured rows into a remote tabular
//! store: a schema-driven, tagged-union column value model with checked and
//! unchecked typed accessors, a shared-cursor row source, a batch buffer, and
//! the state machine of the streaming submission engine.

pub mod batch;
pub mod engine;
pub mod options;
pub mod row;
pub mod schema;
pub mod slot;
pub mod source;
pub mod value;
