//! The closed set of transforms a cached asset may pass through before it is
//! stored, and the textual representation of each that enters the cache key.

use vstd::prelude::*;

verus! {

/// How the bytes of a source file are transformed before they are cached.
///
/// `Identity` stores the bytes unchanged; `Brotli` stores them compressed with
/// the brotli codec at the fixed parameters of this library. The strategy takes
/// part in cache-key derivation, so the same file cached under two strategies
/// occupies two distinct entries.
#[derive(Debug, Clone, Copy, PartialEq, Eq, Structural)]
pub enum CompressKind {
    Identity,
    Brotli,
}

/// The bytes that stand for a strategy inside the cache-key input.
pub open spec fn kind_repr_spec(kind: CompressKind) -> Seq<u8> {
    match kind {
        // "Identity" in ASCII
        CompressKind::Identity => seq![73u8, 100u8, 101u8, 110u8, 116u8, 105u8, 116u8, 121u8],
        // "Brotli" in ASCII
        CompressKind::Brotli => seq![66u8, 114u8, 111u8, 116u8, 108u8, 105u8],
    }
}

/// No strategy representation contains the separator byte 0, and distinct
/// strategies have distinct representations.
pub proof fn lemma_kind_repr_distinct(k1: CompressKind, k2: CompressKind)
    ensures
        forall|i: int| 0 <= i < kind_repr_spec(k1).len() ==> kind_repr_spec(k1)[i] != 0u8,
        kind_repr_spec(k1) == kind_repr_spec(k2) ==> k1 == k2,
{
    if kind_repr_spec(k1) == kind_repr_spec(k2) {
        assert(kind_repr_spec(k1).len() == kind_repr_spec(k2).len());
    }
}

impl CompressKind {
    /// The representation of `self` that enters the cache key, as bytes.
    pub fn repr(&self) -> (r: Vec<u8>)
        ensures
            r@ == kind_repr_spec(*self),
    {
        let mut r: Vec<u8> = Vec::new();
        match self {
            CompressKind::Identity => {
                r.push(73);
                r.push(100);
                r.push(101);
                r.push(110);
                r.push(116);
                r.push(105);
                r.push(116);
                r.push(121);
            },
            CompressKind::Brotli => {
                r.push(66);
                r.push(114);
                r.push(111);
                r.push(116);
                r.push(108);
                r.push(105);
            },
        }
        assert(r@ =~= kind_repr_spec(*self));
        r
    }
}

} // verus!
