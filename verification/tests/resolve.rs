//! Path resolution: relative arguments against the invocation site's parent
//! directory, absolute arguments as written, and agreement with the real
//! filesystem's canonicalization.

use std::path::Path;

use include_compress_bytes::resolve_path;
use include_compress_bytes::EmbedError;

#[test]
fn relative_argument_joins_onto_parent_dir() {
    let r = resolve_path(b"/proj/src/mod.rs", b"./content/hello.txt");
    assert_eq!(r, b"/proj/src/./content/hello.txt".to_vec());
}

#[test]
fn absolute_argument_stands_as_written() {
    let r = resolve_path(b"/proj/src/mod.rs", b"/etc/hosts");
    assert_eq!(r, b"/etc/hosts".to_vec());
}

#[test]
fn bare_caller_contributes_no_parent() {
    let r = resolve_path(b"mod.rs", b"data.txt");
    assert_eq!(r, b"data.txt".to_vec());
}

#[test]
fn caller_at_root_resolves_under_root() {
    let r = resolve_path(b"/main.rs", b"a.txt");
    assert_eq!(r, b"/a.txt".to_vec());
}

#[test]
fn resolution_agrees_with_canonicalization() {
    let dir = tempfile::tempdir().expect("temp dir");
    let target = tempfile::NamedTempFile::new_in(dir.path()).expect("temp file");
    let caller = dir.path().join("mod.rs");
    let name = target.path().file_name().unwrap().to_str().unwrap().to_string();
    let argument = format!("./{}", name);
    let resolved = resolve_path(caller.to_str().unwrap().as_bytes(), argument.as_bytes());
    let resolved_str = String::from_utf8(resolved).expect("utf-8 path");
    let canonical = Path::new(&resolved_str).canonicalize().expect("canonicalize");
    assert_eq!(canonical, target.path().canonicalize().expect("canonicalize target"));
}

#[test]
fn missing_file_yields_path_resolution_error() {
    let dir = tempfile::tempdir().expect("temp dir");
    let caller = dir.path().join("mod.rs");
    let resolved = resolve_path(caller.to_str().unwrap().as_bytes(), b"./content/hello.txt");
    let mut expected = caller.parent().unwrap().to_str().unwrap().as_bytes().to_vec();
    expected.extend(b"/./content/hello.txt".iter().copied());
    assert_eq!(resolved, expected);
    let resolved_str = String::from_utf8(resolved.clone()).expect("utf-8 path");
    let outcome = Path::new(&resolved_str).canonicalize();
    assert!(outcome.is_err());
    let error = EmbedError::PathResolution {
        attempted: resolved.clone(),
        cause: format!("{}", outcome.unwrap_err()),
    };
    match error {
        EmbedError::PathResolution { attempted, cause } => {
            assert_eq!(attempted, resolved);
            assert!(!cause.is_empty());
        },
        _ => panic!("wrong error variant"),
    }
    // No cache entry appears as a side effect of the failed resolution.
    assert_eq!(dir.path().read_dir().unwrap().count(), 0);
}
