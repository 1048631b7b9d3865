//! A reproducible synthetic-workload harness for comparing cache backends.
//!
//! The library generates skewed operation sequences, primes a cache with a
//! warmup sequence, and replays a measured sequence against any backend that
//! implements [`cache::CacheOps`], counting hits and misses.
pub mod backends;
pub mod cache;
pub mod config;
pub mod error;
pub mod workload;
mod random;
