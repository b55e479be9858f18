//! A caching reverse proxy for objects held in remote object storage: a TTL-bounded
//! local store, a remote key-value store protocol, a registry of named caches and the
//! cache-aside decisions taken for each request.

pub mod address;
pub mod caching;
pub mod config;
pub mod gcs;
pub mod proxy;
pub mod rate_limiting;
pub mod text;
