//! The error taxonomy of the embedding pipeline. Every failure carries the
//! underlying cause so the build front end can report it verbatim at the
//! invocation site.

use vstd::prelude::*;

verus! {

/// What can go wrong between a path argument and a finished cache entry.
#[derive(Debug)]
pub enum EmbedError {
    /// The path argument could not be resolved to an existing file: the
    /// attempted path, and the filesystem's reason.
    PathResolution { attempted: Vec<u8>, cause: String },
    /// The cache root directory could not be created.
    CacheDir { cause: String },
    /// The source file could not be read at cache-population time.
    SourceRead { cause: String },
    /// The codec reported a failure while transforming the source bytes.
    Compression { cause: String },
    /// The cache entry could not be written.
    CacheWrite { cause: String },
}

} // verus!
