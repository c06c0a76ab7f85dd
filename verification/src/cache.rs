//! The content cache's hit/miss pipeline as a decision machine. Each entry
//! lives at `<cache_root>/<64-hex-digit key>`; existence of that file is the
//! whole hit signal. The machine here decides every step; the surrounding
//! build front end performs the filesystem work each step asks for and hands
//! back what happened.

use vstd::prelude::*;
use vstd::slice::slice_to_vec;

use crate::codec::brotli_ok;
use crate::codec::entry_bytes_spec;
use crate::codec::transform;
use crate::codec::BROTLI_BUFFER_SIZE;
use crate::codec::BROTLI_LGWIN;
use crate::codec::BROTLI_QUALITY;
use crate::errors::EmbedError;
use crate::keys::cache_file_name;
use crate::keys::cache_file_name_spec;
use crate::resolve::join_path;
use crate::resolve::join_spec;
use crate::strategy::CompressKind;

verus! {

/// One embedding request: where the cache lives, who is asking, which
/// resolved file is wanted, and under which strategy.
pub struct CacheRequest {
    pub cache_root: Vec<u8>,
    pub build_unit_id: Vec<u8>,
    pub resolved_path: Vec<u8>,
    pub kind: CompressKind,
}

/// The path of the cache entry a request addresses: the cache root joined
/// with the request's 64-digit cache file name.
pub open spec fn entry_path_spec(req: CacheRequest) -> Seq<u8> {
    join_spec(
        req.cache_root@,
        cache_file_name_spec(req.build_unit_id@, req.resolved_path@, req.kind),
    )
}

/// Computes the path of the cache entry a request addresses.
pub fn cache_entry_path(req: &CacheRequest) -> (r: Vec<u8>)
    ensures
        r@ == entry_path_spec(*req),
{
    let name = cache_file_name(
        req.build_unit_id.as_slice(),
        req.resolved_path.as_slice(),
        req.kind,
    );
    join_path(req.cache_root.as_slice(), name.as_slice())
}

/// What the build front end reports back to the machine: the outcome of the
/// filesystem work the previous step asked for.
pub enum CacheEvent {
    /// A request begins.
    Start,
    /// The cache root exists (it was found or created).
    RootReady,
    /// The cache root could not be created.
    RootFailed { cause: String },
    /// Whether a regular file is present at the probed entry path.
    Probed { present: bool },
    /// The full contents of the source file.
    SourceBytes { bytes: Vec<u8> },
    /// The source file could not be read.
    SourceFailed { cause: String },
    /// The entry was written whole and moved into place.
    Written,
    /// The entry could not be written.
    WriteFailed { cause: String },
}

/// What the machine asks for next, or how the request ends.
pub enum CacheStep {
    /// Create the cache root directory if it is absent.
    EnsureRoot,
    /// Report whether a regular file exists at this path.
    Probe { entry: Vec<u8> },
    /// Read the full contents of the file at this path.
    ReadSource { path: Vec<u8> },
    /// Write these bytes to this path, whole, replacing any previous content.
    WriteEntry { entry: Vec<u8>, bytes: Vec<u8> },
    /// The request is done: the entry at this path holds the bytes to embed.
    Done { entry: Vec<u8> },
    /// The request failed.
    Fail { error: EmbedError },
}

/// Decides the next step of one embedding request from what just happened.
///
/// The contract pins the whole pipeline down: a present entry is returned at
/// once and the source is never re-read (the hit path); an absent entry leads
/// to one read, one transform and one write of exactly the transformed bytes,
/// with the transform succeeding exactly when the strategy is the identity or
/// the encoder accepts the input; each failure becomes the error of the stage
/// that failed, with its cause kept. A write is only ever asked for after the
/// source was read, so a failed request leaves no entry behind.
pub fn cache_step(req: &CacheRequest, event: CacheEvent) -> (r: CacheStep)
    ensures
        event is Start ==> r is EnsureRoot,
        event is RootReady ==> (r matches CacheStep::Probe { entry } && entry@ == entry_path_spec(
            *req,
        )),
        (event matches CacheEvent::RootFailed { cause } ==> (r matches CacheStep::Fail { error }
            && error matches EmbedError::CacheDir { cause: c } && c == cause)),
        (event matches CacheEvent::Probed { present } ==> (present ==> (
        r matches CacheStep::Done { entry } && entry@ == entry_path_spec(*req)))),
        (event matches CacheEvent::Probed { present } ==> (!present ==> (
        r matches CacheStep::ReadSource { path } && path@ == req.resolved_path@))),
        (event matches CacheEvent::SourceBytes { bytes } ==> (r matches CacheStep::WriteEntry {
            entry,
            bytes: out,
        } ==> entry@ == entry_path_spec(*req) && out@ == entry_bytes_spec(bytes@, req.kind))),
        event is SourceBytes ==> (r is WriteEntry || (r matches CacheStep::Fail { error }
            && error is Compression)),
        (event matches CacheEvent::SourceBytes { bytes } ==> (r is WriteEntry <==> (
        req.kind is Identity || brotli_ok(
            bytes@,
            BROTLI_BUFFER_SIZE,
            BROTLI_QUALITY,
            BROTLI_LGWIN,
        )))),
        (event matches CacheEvent::SourceFailed { cause } ==> (r matches CacheStep::Fail { error }
            && error matches EmbedError::SourceRead { cause: c } && c == cause)),
        event is Written ==> (r matches CacheStep::Done { entry } && entry@ == entry_path_spec(
            *req,
        )),
        (event matches CacheEvent::WriteFailed { cause } ==> (r matches CacheStep::Fail { error }
            && error matches EmbedError::CacheWrite { cause: c } && c == cause)),
        r is WriteEntry ==> event is SourceBytes,
        r is ReadSource ==> (event matches CacheEvent::Probed { present } && !present),
        r is Done ==> (event is Written || (event matches CacheEvent::Probed { present }
            && present)),
{
    match event {
        CacheEvent::Start => CacheStep::EnsureRoot,
        CacheEvent::RootReady => CacheStep::Probe { entry: cache_entry_path(req) },
        CacheEvent::RootFailed { cause } => CacheStep::Fail {
            error: EmbedError::CacheDir { cause },
        },
        CacheEvent::Probed { present } => {
            if present {
                CacheStep::Done { entry: cache_entry_path(req) }
            } else {
                CacheStep::ReadSource { path: slice_to_vec(req.resolved_path.as_slice()) }
            }
        },
        CacheEvent::SourceBytes { bytes } => {
            match transform(bytes, req.kind) {
                Ok(out) => CacheStep::WriteEntry { entry: cache_entry_path(req), bytes: out },
                Err(error) => CacheStep::Fail { error },
            }
        },
        CacheEvent::SourceFailed { cause } => CacheStep::Fail {
            error: EmbedError::SourceRead { cause },
        },
        CacheEvent::Written => CacheStep::Done { entry: cache_entry_path(req) },
        CacheEvent::WriteFailed { cause } => CacheStep::Fail {
            error: EmbedError::CacheWrite { cause },
        },
    }
}

/// Determinism of the whole pipeline: requests that agree on build-unit id,
/// resolved path, strategy and the source file's bytes agree on the cache
/// file name and on the bytes their cache entry holds.
pub proof fn lemma_cache_determinism(
    u1: Seq<u8>,
    p1: Seq<u8>,
    k1: CompressKind,
    s1: Seq<u8>,
    u2: Seq<u8>,
    p2: Seq<u8>,
    k2: CompressKind,
    s2: Seq<u8>,
)
    requires
        u1 == u2,
        p1 == p2,
        k1 == k2,
        s1 == s2,
    ensures
        cache_file_name_spec(u1, p1, k1) == cache_file_name_spec(u2, p2, k2),
        entry_bytes_spec(s1, k1) == entry_bytes_spec(s2, k2),
{
}

} // verus!
