//! The error taxonomy of the harness.
//!
//! Every failure the engines can observe is a transport-level I/O failure:
//! a bind refused, an accept that failed, handshake address retrieval that
//! failed (for example when the peer already reset), or a write that
//! failed. A would-block signal is deliberately not an error: the engines
//! treat it as the normal end of a drain loop, so it has no variant here.

use vstd::prelude::*;

verus! {

/// A fatal transport failure, as reported by the embedding caller or
/// detected by a builder.
#[derive(Clone, Copy, PartialEq, Eq, Structural, Debug, Hash)]
pub enum IoErr {
    /// A bind was refused because the address is already bound.
    AddrInUse,
    /// An accept call failed.
    AcceptFailed,
    /// Reading the peer or local address of a fresh connection failed.
    HandshakeFailed,
    /// A write on a connection failed.
    WriteFailed,
    /// Any other transport failure.
    Other,
}

} // verus!
