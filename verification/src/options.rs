//! Writer configuration handed to the transport layer: compression codec
//! choice and write parallelism. The codecs themselves are the transport's
//! affair; this module only carries the choice and applies the
//! configuration-error policy: an unrecognized compression name is
//! non-fatal and degrades to the default rather than failing the run.

use vstd::prelude::*;

verus! {

/// The compression codec a bulk writer is asked to apply to batches.
#[derive(Debug, Clone, Copy, PartialEq, Eq, Structural)]
pub enum Compression {
    /// No compression; the default.
    Uncompressed,
    Lz4,
    Zstd,
}

/// The codec a configuration name selects: `"lz4"`, `"zstd"` and `"none"`
/// are recognized; any other name selects the default.
pub open spec fn compression_named(name: Seq<char>) -> Compression {
    if name == "lz4"@ {
        Compression::Lz4
    } else if name == "zstd"@ {
        Compression::Zstd
    } else {
        Compression::Uncompressed
    }
}

/// Resolves a configured compression name. Unrecognized names are not an
/// error: they degrade to the default codec.
pub fn parse_compression(name: &str) -> (r: Compression)
    ensures
        r == compression_named(name@),
{
    let n = name.to_owned();
    if n == "lz4".to_owned() {
        Compression::Lz4
    } else if n == "zstd".to_owned() {
        Compression::Zstd
    } else {
        Compression::Uncompressed
    }
}

/// The options a bulk writer is created with.
#[derive(Debug, Clone, Copy, PartialEq, Eq, Structural)]
pub struct WriterOptions {
    pub compression: Compression,
    /// How many submitted writes may be outstanding at once; positive.
    pub parallelism: usize,
    /// Per-request timeout, in milliseconds.
    pub timeout_ms: u64,
}

impl WriterOptions {
    /// Writer options with the given codec, parallelism bound and timeout.
    pub fn new(compression: Compression, parallelism: usize, timeout_ms: u64) -> (r: Self)
        requires
            0 < parallelism,
        ensures
            r == (WriterOptions { compression, parallelism, timeout_ms }),
    {
        WriterOptions { compression, parallelism, timeout_ms }
    }
}

} // verus!
