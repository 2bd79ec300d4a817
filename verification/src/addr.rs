//! Socket addresses as plain values.
//!
//! The engines never touch a live socket; they work on the address data
//! that matters to the lifecycle contract: which listener a connection
//! arrived on, and which peer it came from. An address is an IPv4 host
//! (as one 32-bit value) together with a port.

use vstd::prelude::*;

verus! {

/// A resolved socket address: IPv4 host and port.
#[derive(Clone, Copy, PartialEq, Eq, Structural, Debug, Hash)]
pub struct Addr {
    pub ip: u32,
    pub port: u16,
}

impl Addr {
    pub fn new(ip: u32, port: u16) -> (a: Addr)
        ensures
            a.ip == ip,
            a.port == port,
    {
        Addr { ip, port }
    }
}

} // verus!
