//! The binary ping/pong wire format, send side.
//!
//! A ping datagram is 17 bytes: the tag `0x01`, the ping time and the
//! client GUID, both as big-endian 64-bit values. A pong datagram is the
//! tag `0x1c`, the ping time and the server GUID big-endian, the server
//! name's length as a big-endian 16-bit value, and the name's bytes. The
//! encoders build exactly these bytes; a name too long for the 1024-byte
//! datagram buffer is excluded up front instead of overrunning it. The
//! sender here records each encoded datagram for the one fixed
//! destination; the socket that carries it lives with the embedding
//! caller.

use vstd::prelude::*;

use crate::addr::Addr;
use crate::error::IoErr;

verus! {

/// The largest server name a pong datagram can carry: 19 bytes of header
/// must fit beside it in the 1024-byte datagram buffer.
pub const MAX_SERVER_NAME: usize = 1005;

/// A ping: when it was sent, and who sent it.
#[derive(Clone, Copy, PartialEq, Eq, Structural, Debug)]
pub struct Ping {
    pub ping_time: u64,
    pub client_guid: u64,
}

impl Ping {
    pub fn new(ping_time: u64, client_guid: u64) -> (p: Ping)
        ensures
            p.ping_time == ping_time,
            p.client_guid == client_guid,
    {
        Ping { ping_time, client_guid }
    }
}

/// A pong: the echoed ping time, the answering server, and its name.
#[derive(Clone, Debug)]
pub struct Pong {
    pub ping_time: u64,
    pub server_guid: u64,
    pub server_name: Vec<u8>,
}

impl Pong {
    pub fn new(ping_time: u64, server_guid: u64, server_name: Vec<u8>) -> (p: Pong)
        ensures
            p.ping_time == ping_time,
            p.server_guid == server_guid,
            p.server_name@ == server_name@,
    {
        Pong { ping_time, server_guid, server_name }
    }
}

/// The two bytes of a 16-bit value, big endian.
pub open spec fn spec_be16(x: u16) -> Seq<u8> {
    seq![((x >> 8) & 0xff) as u8, (x & 0xff) as u8]
}

/// The eight bytes of a 64-bit value, big endian.
pub open spec fn spec_be64(x: u64) -> Seq<u8> {
    seq![
        ((x >> 56) & 0xff) as u8,
        ((x >> 48) & 0xff) as u8,
        ((x >> 40) & 0xff) as u8,
        ((x >> 32) & 0xff) as u8,
        ((x >> 24) & 0xff) as u8,
        ((x >> 16) & 0xff) as u8,
        ((x >> 8) & 0xff) as u8,
        (x & 0xff) as u8,
    ]
}

/// The wire bytes of a ping datagram.
pub open spec fn spec_ping_wire(p: Ping) -> Seq<u8> {
    seq![1u8] + spec_be64(p.ping_time) + spec_be64(p.client_guid)
}

/// The wire bytes of a pong datagram.
pub open spec fn spec_pong_wire(p: Pong) -> Seq<u8> {
    seq![0x1cu8] + spec_be64(p.ping_time) + spec_be64(p.server_guid) + spec_be16(
        p.server_name@.len() as u16,
    ) + p.server_name@
}

proof fn lemma_mask_byte(v: u64)
    ensures
        v & 0xff < 256,
{
    assert(v & 0xff < 256) by (bit_vector);
}

fn push_be64(out: &mut Vec<u8>, x: u64)
    ensures
        final(out)@ == old(out)@ + spec_be64(x),
{
    proof {
        lemma_mask_byte(x >> 56);
        lemma_mask_byte(x >> 48);
        lemma_mask_byte(x >> 40);
        lemma_mask_byte(x >> 32);
        lemma_mask_byte(x >> 24);
        lemma_mask_byte(x >> 16);
        lemma_mask_byte(x >> 8);
        lemma_mask_byte(x);
    }
    out.push(((x >> 56) & 0xff) as u8);
    out.push(((x >> 48) & 0xff) as u8);
    out.push(((x >> 40) & 0xff) as u8);
    out.push(((x >> 32) & 0xff) as u8);
    out.push(((x >> 24) & 0xff) as u8);
    out.push(((x >> 16) & 0xff) as u8);
    out.push(((x >> 8) & 0xff) as u8);
    out.push((x & 0xff) as u8);
    proof {
        assert(out@ =~= old(out)@ + spec_be64(x));
    }
}

fn push_be16(out: &mut Vec<u8>, x: u16)
    ensures
        final(out)@ == old(out)@ + spec_be16(x),
{
    proof {
        lemma_mask_byte((x >> 8) as u64);
        lemma_mask_byte(x as u64);
        assert(((x >> 8) & 0xff) as u64 == ((x as u64) >> 8) & 0xff) by (bit_vector);
        assert((x & 0xff) as u64 == (x as u64) & 0xff) by (bit_vector);
    }
    out.push(((x >> 8) & 0xff) as u8);
    out.push((x & 0xff) as u8);
    proof {
        assert(out@ =~= old(out)@ + spec_be16(x));
    }
}

/// Encode one ping datagram: exactly its 17 wire bytes.
pub fn encode_ping(ping: &Ping) -> (out: Vec<u8>)
    ensures
        out@ == spec_ping_wire(*ping),
        out@.len() == 17,
{
    let mut out: Vec<u8> = Vec::new();
    out.push(1);
    push_be64(&mut out, ping.ping_time);
    push_be64(&mut out, ping.client_guid);
    proof {
        assert(out@ =~= spec_ping_wire(*ping));
    }
    out
}

/// Encode one pong datagram: exactly its wire bytes, 19 plus the name.
pub fn encode_pong(pong: &Pong) -> (out: Vec<u8>)
    requires
        pong.server_name@.len() <= MAX_SERVER_NAME,
    ensures
        out@ == spec_pong_wire(*pong),
        out@.len() == 19 + pong.server_name@.len(),
{
    let mut out: Vec<u8> = Vec::new();
    out.push(0x1c);
    push_be64(&mut out, pong.ping_time);
    push_be64(&mut out, pong.server_guid);
    push_be16(&mut out, pong.server_name.len() as u16);
    let ghost head = out@;
    let mut i: usize = 0;
    while i < pong.server_name.len()
        invariant
            i <= pong.server_name@.len(),
            out@ == head + pong.server_name@.take(i as int),
        decreases pong.server_name@.len() - i,
    {
        out.push(pong.server_name[i]);
        proof {
            assert(head + pong.server_name@.take(i as int + 1) =~= (head
                + pong.server_name@.take(i as int)).push(pong.server_name@[i as int]));
        }
        i = i + 1;
    }
    proof {
        assert(pong.server_name@.take(pong.server_name@.len() as int) =~= pong.server_name@);
        assert(out@ =~= spec_pong_wire(*pong));
    }
    out
}

/// A send capability bound to one fixed destination address. Every
/// datagram sent is recorded in order, already encoded; the socket that
/// carries them lives with the embedding caller.
pub struct Sender {
    pub target: Addr,
    pub sent: Vec<Vec<u8>>,
}

impl Sender {
    pub fn new(target: Addr) -> (s: Sender)
        ensures
            s.target == target,
            s.sent@ == Seq::<Vec<u8>>::empty(),
    {
        Sender { target, sent: Vec::new() }
    }

    /// Send one ping to the fixed destination: exactly one datagram, the
    /// ping's 17 wire bytes, is recorded, and its length returned.
    pub fn send_ping(&mut self, ping: &Ping) -> (r: Result<usize, IoErr>)
        ensures
            final(self).target == old(self).target,
            final(self).sent@.len() == old(self).sent@.len() + 1,
            final(self).sent@.subrange(0, old(self).sent@.len() as int) == old(self).sent@,
            final(self).sent@.last()@ == spec_ping_wire(*ping),
            r matches Ok(n) && n == 17,
    {
        let buf = encode_ping(ping);
        let n = buf.len();
        self.sent.push(buf);
        proof {
            assert(self.sent@.subrange(0, old(self).sent@.len() as int) =~= old(self).sent@);
        }
        Ok(n)
    }

    /// Send one pong to the fixed destination: exactly one datagram, the
    /// pong's wire bytes, is recorded, and its length returned. A name
    /// that cannot fit the datagram buffer is excluded up front.
    pub fn send_pong(&mut self, pong: &Pong) -> (r: Result<usize, IoErr>)
        requires
            pong.server_name@.len() <= MAX_SERVER_NAME,
        ensures
            final(self).target == old(self).target,
            final(self).sent@.len() == old(self).sent@.len() + 1,
            final(self).sent@.subrange(0, old(self).sent@.len() as int) == old(self).sent@,
            final(self).sent@.last()@ == spec_pong_wire(*pong),
            r matches Ok(n) && n == 19 + pong.server_name@.len(),
    {
        let buf = encode_pong(pong);
        let n = buf.len();
        self.sent.push(buf);
        proof {
            assert(self.sent@.subrange(0, old(self).sent@.len() as int) =~= old(self).sent@);
        }
        Ok(n)
    }
}

/// Per-endpoint ping/pong behavior.
pub trait Handler {
    fn on_ping(&mut self, ping: &Ping) -> Result<(), IoErr>;

    fn on_pong(&mut self, pong: &Pong) -> Result<(), IoErr>;
}

/// Produces one [`Handler`] per endpoint; the client and server entry
/// points both default to the shared construction.
pub trait Factory {
    type Handler: Handler;

    fn connection_made(&mut self, sender: Sender) -> Self::Handler;

    fn client_connected(&mut self, sender: Sender) -> Self::Handler {
        self.connection_made(sender)
    }

    fn server_connected(&mut self, sender: Sender) -> Self::Handler {
        self.connection_made(sender)
    }
}

} // verus!
