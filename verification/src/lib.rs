//! Core of a read-through caching gateway for binary assets.
//!
//! Requests are resolved through three tiers consulted in a fixed order: a
//! negative-result cache, a durable object store, and an origin fetch as the
//! last resort. Objects crossing into durable storage pass through a
//! reversible transform pipeline (optional compression, then optional
//! authenticated encryption).

pub mod cache;
pub mod config;
pub mod crypto;
pub mod proxy;
pub mod storage;
pub mod text;
