//! A minimal network-service harness, modelled and verified.
//!
//! The library dispatches connection-lifecycle events (handshake, optional
//! request handling, close) to caller-supplied handler logic. The same
//! lifecycle contract is served by two concurrency engines: a
//! thread-per-listener blocking engine with centralized error aggregation,
//! and a single-threaded readiness-multiplexed reactor engine with a
//! token-indexed listener registry and a drain-to-exhaustion accept
//! discipline. The engines here are the decision cores: they consume
//! accept and receive outcomes as plain events and perform the dispatch,
//! while the blocking socket calls live with the embedding caller.

pub mod addr;
pub mod daytime;
pub mod error;
pub mod lifecycle;
pub mod rakping;
pub mod reactor;
pub mod registry;
pub mod threads;
