//! Compile-time asset cache: deterministic path resolution relative to an
//! invocation site, content-addressed cache-key derivation, and the cache
//! hit/miss pipeline that fills a flat on-disk store with possibly-compressed
//! copies of source files.

pub mod cache;
pub mod codec;
pub mod errors;
pub mod hashing;
pub mod keys;
pub mod resolve;
pub mod strategy;

pub use cache::cache_entry_path;
pub use cache::cache_step;
pub use cache::CacheEvent;
pub use cache::CacheRequest;
pub use cache::CacheStep;
pub use codec::transform;
pub use errors::EmbedError;
pub use hashing::hex_bytes;
pub use keys::cache_file_name;
pub use keys::cache_key_input;
pub use resolve::resolve_path;
pub use strategy::CompressKind;
