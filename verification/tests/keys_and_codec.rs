//! Cache-key derivation against an independent digest computation, collision
//! freedom over a sample of inputs, and the brotli round trip.

use std::io::Read;

use sha2::Digest;

use include_compress_bytes::cache_file_name;
use include_compress_bytes::cache_key_input;
use include_compress_bytes::transform;
use include_compress_bytes::CompressKind;

#[test]
fn key_input_is_separated_concatenation() {
    let input = cache_key_input(b"unit", b"/a/b", CompressKind::Brotli);
    assert_eq!(input, b"unit\0/a/b\0Brotli".to_vec());
    let input = cache_key_input(b"unit", b"/a/b", CompressKind::Identity);
    assert_eq!(input, b"unit\0/a/b\0Identity".to_vec());
}

#[test]
fn file_name_matches_independent_digest() {
    let name = cache_file_name(b"unit", b"/a/b", CompressKind::Identity);
    let digest = sha2::Sha256::digest(b"unit\0/a/b\0Identity");
    let mut expected = Vec::new();
    for byte in digest.as_slice() {
        expected.extend(format!("{:02x}", byte).into_bytes());
    }
    assert_eq!(name, expected);
    assert_eq!(name.len(), 64);
    assert!(name.iter().all(|b| b.is_ascii_hexdigit() && !b.is_ascii_uppercase()));
}

#[test]
fn differing_inputs_give_differing_names() {
    let base = cache_file_name(b"unit", b"/a/b", CompressKind::Identity);
    let other_kind = cache_file_name(b"unit", b"/a/b", CompressKind::Brotli);
    let other_unit = cache_file_name(b"unit2", b"/a/b", CompressKind::Identity);
    let other_path = cache_file_name(b"unit", b"/a/c", CompressKind::Identity);
    assert_ne!(base, other_kind);
    assert_ne!(base, other_unit);
    assert_ne!(base, other_path);
    // Equal inputs give the equal name.
    assert_eq!(base, cache_file_name(b"unit", b"/a/b", CompressKind::Identity));
}

#[test]
fn identity_transform_returns_bytes_unchanged() {
    let out = transform(b"Hello, world!".to_vec(), CompressKind::Identity).expect("identity");
    assert_eq!(out, b"Hello, world!".to_vec());
}

#[test]
fn brotli_transform_round_trips() {
    let compressed = transform(b"Hello, world!".to_vec(), CompressKind::Brotli).expect("compress");
    let mut data = Vec::with_capacity(1024);
    {
        let mut decoder = brotli::Decompressor::new(&compressed[..], 4096);
        let mut buf = [0u8; 4096];
        loop {
            match decoder.read(&mut buf[..]) {
                Ok(0) => break,
                Ok(read) => data.extend_from_slice(&buf[..read]),
                Err(e) => panic!("Failed to read compressed content: {}", e),
            }
        }
    }
    assert_eq!(data, b"Hello, world!".to_vec());
}

#[test]
fn brotli_transform_is_deterministic() {
    let a = transform(b"Hello, world!".to_vec(), CompressKind::Brotli).expect("compress");
    let b = transform(b"Hello, world!".to_vec(), CompressKind::Brotli).expect("compress");
    assert_eq!(a, b);
}
