//! Content-addressed cache keys: the separated concatenation of build-unit
//! id, resolved path and strategy representation that is digested, and the
//! digest's rendering as a cache file name.

use vstd::prelude::*;
use vstd::slice::slice_to_vec;

use crate::hashing::hex_bytes;
use crate::hashing::lemma_hex_injective;
use crate::hashing::hex_of;
use crate::hashing::sha256_digest;
use crate::hashing::sha256_of;
use crate::strategy::kind_repr_spec;
use crate::strategy::lemma_kind_repr_distinct;
use crate::strategy::CompressKind;

verus! {

/// Holds when a byte sequence contains no zero byte, the separator of the
/// cache-key input.
pub open spec fn nul_free(s: Seq<u8>) -> bool {
    forall|i: int| 0 <= i < s.len() ==> s[i] != 0u8
}

/// The bytes that are digested into a cache key: build-unit id, resolved
/// path and strategy representation, separated by zero bytes so that no two
/// distinct triples concatenate to the same input.
pub open spec fn key_input_spec(unit: Seq<u8>, path: Seq<u8>, kind: CompressKind) -> Seq<u8> {
    unit + seq![0u8] + path + seq![0u8] + kind_repr_spec(kind)
}

/// The name of the cache entry for a triple: the lowercase hexadecimal
/// rendering of the SHA-256 digest of the key input.
pub open spec fn cache_file_name_spec(unit: Seq<u8>, path: Seq<u8>, kind: CompressKind) -> Seq<
    u8,
> {
    hex_of(sha256_of(key_input_spec(unit, path, kind)))
}

/// Two zero-separated concatenations are equal only when their parts are,
/// provided the leading parts are free of the separator.
proof fn lemma_sep_split(a: Seq<u8>, x: Seq<u8>, b: Seq<u8>, y: Seq<u8>)
    requires
        nul_free(a),
        nul_free(b),
        a + seq![0u8] + x == b + seq![0u8] + y,
    ensures
        a == b,
        x == y,
{
    let s = a + seq![0u8] + x;
    let t = b + seq![0u8] + y;
    assert(s.len() == t.len());
    if a.len() < b.len() {
        assert(s[a.len() as int] == 0u8);
        assert(t[a.len() as int] == b[a.len() as int]);
        assert(false);
    }
    if b.len() < a.len() {
        assert(t[b.len() as int] == 0u8);
        assert(s[b.len() as int] == a[b.len() as int]);
        assert(false);
    }
    assert forall|i: int| 0 <= i < a.len() implies a[i] == b[i] by {
        assert(s[i] == a[i]);
        assert(t[i] == b[i]);
    }
    assert(a =~= b);
    assert(x.len() == y.len());
    assert forall|i: int| 0 <= i < x.len() implies x[i] == y[i] by {
        assert(s[a.len() + 1 + i] == x[i]);
        assert(t[b.len() + 1 + i] == y[i]);
    }
    assert(x =~= y);
}

/// Equal key inputs come only from equal triples: the separators make the
/// concatenation unambiguous whenever build-unit id and path are free of the
/// separator byte.
pub proof fn lemma_key_input_injective(
    u1: Seq<u8>,
    p1: Seq<u8>,
    k1: CompressKind,
    u2: Seq<u8>,
    p2: Seq<u8>,
    k2: CompressKind,
)
    requires
        nul_free(u1),
        nul_free(p1),
        nul_free(u2),
        nul_free(p2),
        key_input_spec(u1, p1, k1) == key_input_spec(u2, p2, k2),
    ensures
        u1 == u2,
        p1 == p2,
        k1 == k2,
{
    let z = seq![0u8];
    let r1 = kind_repr_spec(k1);
    let r2 = kind_repr_spec(k2);
    assert(key_input_spec(u1, p1, k1) =~= u1 + z + (p1 + z + r1));
    assert(key_input_spec(u2, p2, k2) =~= u2 + z + (p2 + z + r2));
    lemma_sep_split(u1, p1 + z + r1, u2, p2 + z + r2);
    lemma_sep_split(p1, r1, p2, r2);
    lemma_kind_repr_distinct(k1, k2);
}

/// Collision freedom of the key input: calls that differ in build-unit id,
/// resolved path or strategy are digested from different inputs. The
/// separator-free condition holds of every build-unit id and every resolved
/// path that reaches this library, since neither can carry a zero byte.
pub proof fn lemma_key_collision_free(
    u1: Seq<u8>,
    p1: Seq<u8>,
    k1: CompressKind,
    u2: Seq<u8>,
    p2: Seq<u8>,
    k2: CompressKind,
)
    requires
        nul_free(u1),
        nul_free(p1),
        nul_free(u2),
        nul_free(p2),
        u1 != u2 || p1 != p2 || k1 != k2,
    ensures
        key_input_spec(u1, p1, k1) != key_input_spec(u2, p2, k2),
{
    if key_input_spec(u1, p1, k1) == key_input_spec(u2, p2, k2) {
        lemma_key_input_injective(u1, p1, k1, u2, p2, k2);
    }
}

/// A cache file name is a faithful rendering of its digest: two triples get
/// the same file name exactly when their key inputs digest to the same value.
/// Together with `lemma_key_collision_free`, a name collision between
/// differing triples would be a collision of SHA-256 itself.
pub proof fn lemma_name_collision_is_digest_collision(
    u1: Seq<u8>,
    p1: Seq<u8>,
    k1: CompressKind,
    u2: Seq<u8>,
    p2: Seq<u8>,
    k2: CompressKind,
)
    ensures
        cache_file_name_spec(u1, p1, k1) == cache_file_name_spec(u2, p2, k2) <==> sha256_of(
            key_input_spec(u1, p1, k1),
        ) == sha256_of(key_input_spec(u2, p2, k2)),
{
    if cache_file_name_spec(u1, p1, k1) == cache_file_name_spec(u2, p2, k2) {
        lemma_hex_injective(
            sha256_of(key_input_spec(u1, p1, k1)),
            sha256_of(key_input_spec(u2, p2, k2)),
        );
    }
}

/// Builds the cache-key input for a triple.
pub fn cache_key_input(build_unit_id: &[u8], resolved_path: &[u8], kind: CompressKind) -> (r: Vec<
    u8,
>)
    ensures
        r@ == key_input_spec(build_unit_id@, resolved_path@, kind),
{
    let mut r = slice_to_vec(build_unit_id);
    r.push(0);
    let mut path_part = slice_to_vec(resolved_path);
    r.append(&mut path_part);
    r.push(0);
    let mut repr_part = kind.repr();
    r.append(&mut repr_part);
    proof {
        assert(r@ =~= key_input_spec(build_unit_id@, resolved_path@, kind));
    }
    r
}

/// The file name of the cache entry for a triple: 64 lowercase hexadecimal
/// digits of the SHA-256 digest of the key input.
pub fn cache_file_name(build_unit_id: &[u8], resolved_path: &[u8], kind: CompressKind) -> (r: Vec<
    u8,
>)
    ensures
        r@ == cache_file_name_spec(build_unit_id@, resolved_path@, kind),
        r@.len() == 64,
{
    let input = cache_key_input(build_unit_id, resolved_path, kind);
    let digest = sha256_digest(input.as_slice());
    hex_bytes(digest.as_slice())
}

} // verus!
