//! The transforms behind each compression strategy: the identity, and the
//! brotli codec at this library's fixed parameters.

use std::io::Write;

use vstd::prelude::*;

use crate::errors::EmbedError;
use crate::strategy::CompressKind;

verus! {

/// The chunk size the brotli encoder's internal buffer is given.
pub const BROTLI_BUFFER_SIZE: usize = 4096;

/// The brotli quality parameter, at the slowest, densest setting.
pub const BROTLI_QUALITY: u32 = 11;

/// The base-two logarithm of the brotli window size.
pub const BROTLI_LGWIN: u32 = 22;

/// The brotli-compressed form of a byte sequence at given buffer size,
/// quality and window parameters: a fixed function of these four alone, whose
/// value is not spelled out here.
pub uninterp spec fn brotli_of(data: Seq<u8>, buffer_size: usize, quality: u32, lgwin: u32) -> Seq<
    u8,
>;

/// Whether the brotli encoder accepts a byte sequence at given buffer size,
/// quality and window parameters. The encoder writes into memory and decides
/// from its input and parameters alone, so this too is a fixed function of
/// the four.
pub uninterp spec fn brotli_ok(data: Seq<u8>, buffer_size: usize, quality: u32, lgwin: u32) -> bool;

/// Relies on brotli::CompressorWriter: writing the whole input, flushing and
/// dropping the encoder leaves in the wrapped buffer compressed bytes that
/// depend only on the input and the three encoder parameters; whether a write
/// or flush instead reports an error depends on the same four alone.
#[verifier::external_body]
fn brotli_compress(data: &[u8], buffer_size: usize, quality: u32, lgwin: u32) -> (r: Result<
    Vec<u8>,
    String,
>)
    ensures
        r matches Ok(v) ==> v@ == brotli_of(data@, buffer_size, quality, lgwin),
        r is Ok <==> brotli_ok(data@, buffer_size, quality, lgwin),
{
    let mut buffer = Vec::with_capacity(buffer_size);
    {
        let mut encoder = brotli::CompressorWriter::new(&mut buffer, buffer_size, quality, lgwin);
        if let Err(e) = encoder.write_all(data) {
            return Err(format!("{}", e));
        }
        if let Err(e) = encoder.flush() {
            return Err(format!("{}", e));
        }
    }
    Ok(buffer)
}

/// The bytes a cache entry holds for given source bytes and strategy: the
/// source unchanged under `Identity`, its brotli-compressed form under
/// `Brotli`.
pub open spec fn entry_bytes_spec(source: Seq<u8>, kind: CompressKind) -> Seq<u8> {
    match kind {
        CompressKind::Identity => source,
        CompressKind::Brotli => brotli_of(source, BROTLI_BUFFER_SIZE, BROTLI_QUALITY, BROTLI_LGWIN),
    }
}

/// The identity strategy is a no-op: the entry holds the source bytes
/// unchanged, byte for byte.
pub proof fn lemma_identity_noop(source: Seq<u8>)
    ensures
        entry_bytes_spec(source, CompressKind::Identity) == source,
{
}

/// Applies a strategy to the bytes of a source file. `Identity` always
/// succeeds and returns the bytes unchanged; `Brotli` returns the compressed
/// form exactly when the encoder accepts the input, and the codec's error as
/// a `Compression` failure otherwise.
pub fn transform(source: Vec<u8>, kind: CompressKind) -> (r: Result<Vec<u8>, EmbedError>)
    ensures
        (r matches Ok(v) ==> v@ == entry_bytes_spec(source@, kind)),
        kind is Identity ==> r is Ok,
        kind is Brotli ==> (r is Ok <==> brotli_ok(
            source@,
            BROTLI_BUFFER_SIZE,
            BROTLI_QUALITY,
            BROTLI_LGWIN,
        )),
        (r matches Err(e) ==> kind is Brotli && e is Compression),
{
    match kind {
        CompressKind::Identity => Ok(source),
        CompressKind::Brotli => {
            match brotli_compress(
                source.as_slice(),
                BROTLI_BUFFER_SIZE,
                BROTLI_QUALITY,
                BROTLI_LGWIN,
            ) {
                Ok(v) => Ok(v),
                Err(cause) => Err(EmbedError::Compression { cause }),
            }
        },
    }
}

} // verus!
