//! The digest that addresses cache entries, and its rendering as a lowercase
//! hexadecimal file name.

use vstd::prelude::*;

verus! {

/// The SHA-256 digest of a byte sequence. The digest is a fixed function of
/// the input bytes alone; its value is not spelled out here.
pub uninterp spec fn sha256_of(data: Seq<u8>) -> Seq<u8>;

/// Relies on sha2::Sha256 (SHA-256 of FIPS 180-4): the digest is 32 bytes and
/// depends on the input bytes alone.
#[verifier::external_body]
pub(crate) fn sha256_digest(data: &[u8]) -> (r: Vec<u8>)
    ensures
        r@ == sha256_of(data@),
        r@.len() == 32,
{
    let digest = <sha2::Sha256 as sha2::Digest>::digest(data);
    digest.to_vec()
}

/// The lowercase hexadecimal digit that stands for a value below 16, as an
/// ASCII byte.
pub open spec fn hex_digit(n: u8) -> u8
    recommends
        n < 16,
{
    if n < 10 {
        (48 + n) as u8  // '0' + n
    } else {
        (87 + n) as u8  // 'a' + (n - 10)
    }
}

/// The lowercase hexadecimal rendering of a byte sequence: two digits per
/// byte, high nibble first.
pub open spec fn hex_of(data: Seq<u8>) -> Seq<u8>
    decreases data.len(),
{
    if data.len() == 0 {
        Seq::empty()
    } else {
        hex_of(data.drop_last()) + seq![hex_digit(data.last() / 16), hex_digit(data.last() % 16)]
    }
}

/// A hexadecimal rendering is exactly twice as long as its input.
pub proof fn lemma_hex_len(data: Seq<u8>)
    ensures
        hex_of(data).len() == 2 * data.len(),
    decreases data.len(),
{
    if data.len() > 0 {
        lemma_hex_len(data.drop_last());
    }
}

/// Hexadecimal digits are unambiguous: equal digits come from equal values
/// below 16.
proof fn lemma_hex_digit_injective(x: u8, y: u8)
    requires
        x < 16,
        y < 16,
        hex_digit(x) == hex_digit(y),
    ensures
        x == y,
{
}

/// Hexadecimal rendering is injective: equal renderings come only from equal
/// byte sequences.
pub proof fn lemma_hex_injective(a: Seq<u8>, b: Seq<u8>)
    requires
        hex_of(a) == hex_of(b),
    ensures
        a == b,
    decreases a.len(),
{
    lemma_hex_len(a);
    lemma_hex_len(b);
    if a.len() == 0 {
        assert(a =~= b);
    } else {
        let n = a.len() as int;
        let x = a.last();
        let y = b.last();
        assert(hex_of(a)[2 * n - 2] == hex_digit(x / 16));
        assert(hex_of(a)[2 * n - 1] == hex_digit(x % 16));
        assert(hex_of(b)[2 * n - 2] == hex_digit(y / 16));
        assert(hex_of(b)[2 * n - 1] == hex_digit(y % 16));
        lemma_hex_digit_injective(x / 16, y / 16);
        lemma_hex_digit_injective(x % 16, y % 16);
        assert(x == y);
        assert(hex_of(a.drop_last()) =~= hex_of(b.drop_last())) by {
            lemma_hex_len(a.drop_last());
            lemma_hex_len(b.drop_last());
            assert forall|i: int| 0 <= i < 2 * (n - 1) implies hex_of(a.drop_last())[i] == hex_of(
                b.drop_last(),
            )[i] by {
                assert(hex_of(a)[i] == hex_of(a.drop_last())[i]);
                assert(hex_of(b)[i] == hex_of(b.drop_last())[i]);
            }
        }
        lemma_hex_injective(a.drop_last(), b.drop_last());
        assert forall|i: int| 0 <= i < n implies a[i] == b[i] by {
            if i < n - 1 {
                assert(a.drop_last()[i] == a[i]);
                assert(b.drop_last()[i] == b[i]);
            }
        }
        assert(a =~= b);
    }
}

/// Renders bytes as lowercase hexadecimal.
pub fn hex_bytes(data: &[u8]) -> (r: Vec<u8>)
    ensures
        r@ == hex_of(data@),
        r@.len() == 2 * data@.len(),
{
    let mut r: Vec<u8> = Vec::new();
    let mut i: usize = 0;
    while i < data.len()
        invariant
            i <= data@.len(),
            r@ == hex_of(data@.subrange(0, i as int)),
        decreases data@.len() - i,
    {
        let b = data[i];
        let hi = b / 16;
        let lo = b % 16;
        r.push(if hi < 10 { 48 + hi } else { 87 + hi });
        r.push(if lo < 10 { 48 + lo } else { 87 + lo });
        proof {
            let pre = data@.subrange(0, i as int);
            let cur = data@.subrange(0, i + 1 as int);
            assert(cur.drop_last() =~= pre);
            assert(cur.last() == b);
        }
        i = i + 1;
    }
    proof {
        assert(data@.subrange(0, data@.len() as int) =~= data@);
        lemma_hex_len(data@);
    }
    r
}

} // verus!
