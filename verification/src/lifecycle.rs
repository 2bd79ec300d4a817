//! The shared connection-lifecycle contract.
//!
//! Every accepted connection or datagram goes through the same cycle: a
//! `Handshake` is captured, a `Sender` is built, the `Factory` produces one
//! `Handler`, and the hooks run in order: `on_open` once, then (for engines
//! that do request handling) `on_request`, then `on_close` once. The engines
//! record every hook invocation in a log of [`Hook`] entries; the contracts
//! below pin the exact shape of that log, which is how the once-and-in-order
//! guarantee is stated and proved.

use vstd::prelude::*;

use crate::addr::Addr;
use crate::error::IoErr;

verus! {

/// How a unit of work originated: a stream connection or a datagram.
#[derive(Clone, Copy, PartialEq, Eq, Structural, Debug, Hash)]
pub enum TransportKind {
    Stream,
    Datagram,
}

/// The addressing metadata captured at the moment a connection or datagram
/// is accepted: the peer's address, the bound listener's address, and the
/// transport kind. Created once, before any handler hook runs, and never
/// mutated.
#[derive(Clone, Copy, PartialEq, Eq, Structural, Debug, Hash)]
pub struct Handshake {
    pub peer_addr: Addr,
    pub local_addr: Addr,
    pub kind: TransportKind,
}

impl Handshake {
    /// The handshake of a freshly accepted stream connection.
    pub fn stream(peer: Addr, local: Addr) -> (hs: Handshake)
        ensures
            hs == (Handshake { peer_addr: peer, local_addr: local, kind: TransportKind::Stream }),
    {
        Handshake { peer_addr: peer, local_addr: local, kind: TransportKind::Stream }
    }

    /// The handshake derived from one received datagram.
    pub fn datagram(origin: Addr, local: Addr) -> (hs: Handshake)
        ensures
            hs == (Handshake { peer_addr: origin, local_addr: local, kind: TransportKind::Datagram }),
    {
        Handshake { peer_addr: origin, local_addr: local, kind: TransportKind::Datagram }
    }

    pub fn peer_addr(&self) -> (a: Addr)
        ensures
            a == self.peer_addr,
    {
        self.peer_addr
    }

    pub fn local_addr(&self) -> (a: Addr)
        ensures
            a == self.local_addr,
    {
        self.local_addr
    }

    pub fn transport_kind(&self) -> (k: TransportKind)
        ensures
            k == self.kind,
    {
        self.kind
    }
}

/// A transport-bound write capability, valid for the duration of one
/// connection or datagram cycle. Writes are recorded in order; the
/// embedding caller owns the live socket and performs the actual output.
pub struct Sender {
    pub kind: TransportKind,
    pub target: Addr,
    pub written: Vec<Vec<u8>>,
}

impl Sender {
    /// A write capability for a stream connection to `peer`.
    pub fn new_tcp(peer: Addr) -> (s: Sender)
        ensures
            s.kind == TransportKind::Stream,
            s.target == peer,
            s.written@ == Seq::<Vec<u8>>::empty(),
    {
        Sender { kind: TransportKind::Stream, target: peer, written: Vec::new() }
    }

    /// A write capability that sends datagrams to the one fixed address
    /// `target`, the origin of the datagram being answered.
    pub fn new_udp(target: Addr) -> (s: Sender)
        ensures
            s.kind == TransportKind::Datagram,
            s.target == target,
            s.written@ == Seq::<Vec<u8>>::empty(),
    {
        Sender { kind: TransportKind::Datagram, target, written: Vec::new() }
    }

    /// Record one message for output. Every call appends exactly one entry;
    /// nothing is ever reordered, dropped, or merged.
    pub fn send(&mut self, msg: Vec<u8>) -> (r: Result<usize, IoErr>)
        ensures
            final(self).kind == old(self).kind,
            final(self).target == old(self).target,
            final(self).written@ == old(self).written@.push(msg),
            r matches Ok(n) && n == msg@.len(),
    {
        let n = msg.len();
        self.written.push(msg);
        Ok(n)
    }

    /// How many writes have been recorded.
    pub fn write_count(&self) -> (n: usize)
        ensures
            n == self.written@.len(),
    {
        self.written.len()
    }
}

/// Per-connection behavior with lifecycle hooks; every hook defaults to a
/// no-op so an implementation may provide only the hooks it needs.
pub trait Handler {
    fn on_open(&mut self, shake: Handshake) {
        let _ = shake;
    }

    fn on_request(&mut self) {
    }

    fn on_close(&mut self) {
    }
}

/// Produces one [`Handler`] per accepted unit of work. Long-lived: one
/// factory serves every connection an engine dispatches.
pub trait Factory {
    type Handler: Handler;

    fn connection_made(&mut self, sender: Sender) -> Self::Handler;
}

/// One entry of an engine's invocation log: which lifecycle step ran.
#[derive(Clone, Copy, PartialEq, Eq, Structural, Debug)]
pub enum Hook {
    ConnectionMade,
    OnOpen(Handshake),
    OnRequest,
    OnClose,
}

/// The log block of one full cycle for handshake `hs`: construction, open,
/// optionally one request, close.
pub open spec fn cycle_calls(hs: Handshake, with_request: bool) -> Seq<Hook> {
    if with_request {
        seq![Hook::ConnectionMade, Hook::OnOpen(hs), Hook::OnRequest, Hook::OnClose]
    } else {
        seq![Hook::ConnectionMade, Hook::OnOpen(hs), Hook::OnClose]
    }
}

/// The length of one cycle block.
pub open spec fn cycle_len(with_request: bool) -> int {
    if with_request {
        4
    } else {
        3
    }
}

/// The log of a whole run: one cycle block per handshake, in order.
pub open spec fn all_cycle_calls(hss: Seq<Handshake>, with_request: bool) -> Seq<Hook>
    decreases hss.len(),
{
    if hss.len() == 0 {
        Seq::empty()
    } else {
        cycle_calls(hss[0], with_request) + all_cycle_calls(hss.skip(1), with_request)
    }
}

/// The handshakes of stream connections accepted from `peers` on the
/// listener bound to `local`, in arrival order.
pub open spec fn stream_handshakes(peers: Seq<Addr>, local: Addr) -> Seq<Handshake>
    decreases peers.len(),
{
    if peers.len() == 0 {
        Seq::empty()
    } else {
        seq![Handshake { peer_addr: peers[0], local_addr: local, kind: TransportKind::Stream }]
            + stream_handshakes(peers.skip(1), local)
    }
}

/// Law: the handshake of the `i`-th connection accepted on a listener
/// carries exactly that connection's peer address and the listener's own
/// bound address. With [`lemma_one_cycle_per_connection`]: `on_open` is
/// invoked with precisely this handshake.
pub proof fn lemma_stream_handshake_addresses(peers: Seq<Addr>, local: Addr, i: int)
    requires
        0 <= i < peers.len(),
    ensures
        stream_handshakes(peers, local).len() == peers.len(),
        stream_handshakes(peers, local)[i] == (Handshake {
            peer_addr: peers[i],
            local_addr: local,
            kind: TransportKind::Stream,
        }),
    decreases i,
{
    if i > 0 {
        lemma_stream_handshake_addresses(peers.skip(1), local, i - 1);
    } else {
        lemma_stream_handshakes_len(peers.skip(1), local);
    }
}

/// A listener's accepted peers and their handshakes correspond one to one.
pub proof fn lemma_stream_handshakes_len(peers: Seq<Addr>, local: Addr)
    ensures
        stream_handshakes(peers, local).len() == peers.len(),
    decreases peers.len(),
{
    if peers.len() > 0 {
        lemma_stream_handshakes_len(peers.skip(1), local);
    }
}

/// How many `OnOpen` entries a log holds.
pub open spec fn count_opens(log: Seq<Hook>) -> nat
    decreases log.len(),
{
    if log.len() == 0 {
        0
    } else {
        (if log[0] is OnOpen {
            1nat
        } else {
            0nat
        }) + count_opens(log.skip(1))
    }
}

/// How many `OnClose` entries a log holds.
pub open spec fn count_closes(log: Seq<Hook>) -> nat
    decreases log.len(),
{
    if log.len() == 0 {
        0
    } else {
        (if log[0] is OnClose {
            1nat
        } else {
            0nat
        }) + count_closes(log.skip(1))
    }
}

proof fn lemma_counts_append(a: Seq<Hook>, b: Seq<Hook>)
    ensures
        count_opens(a + b) == count_opens(a) + count_opens(b),
        count_closes(a + b) == count_closes(a) + count_closes(b),
    decreases a.len(),
{
    if a.len() == 0 {
        assert(a + b =~= b);
    } else {
        assert((a + b).skip(1) =~= a.skip(1) + b);
        lemma_counts_append(a.skip(1), b);
    }
}

proof fn lemma_counts_of_one_cycle(hs: Handshake, with_request: bool)
    ensures
        count_opens(cycle_calls(hs, with_request)) == 1,
        count_closes(cycle_calls(hs, with_request)) == 1,
{
    let blk = cycle_calls(hs, with_request);
    assert(blk.skip(1) =~= blk.subrange(1, blk.len() as int));
    if with_request {
        reveal_with_fuel(count_opens, 5);
        reveal_with_fuel(count_closes, 5);
        assert(blk.skip(1).skip(1) =~= blk.subrange(2, blk.len() as int));
        assert(blk.skip(1).skip(1).skip(1) =~= blk.subrange(3, blk.len() as int));
        assert(blk.skip(1).skip(1).skip(1).skip(1) =~= Seq::<Hook>::empty());
    } else {
        reveal_with_fuel(count_opens, 4);
        reveal_with_fuel(count_closes, 4);
        assert(blk.skip(1).skip(1) =~= blk.subrange(2, blk.len() as int));
        assert(blk.skip(1).skip(1).skip(1) =~= Seq::<Hook>::empty());
    }
}

/// Law: a run that dispatched the connections of `hss` invoked `on_open`
/// exactly once per connection and `on_close` exactly once per connection,
/// never one without the other.
pub proof fn lemma_opens_and_closes_match_connections(hss: Seq<Handshake>, with_request: bool)
    ensures
        count_opens(all_cycle_calls(hss, with_request)) == hss.len(),
        count_closes(all_cycle_calls(hss, with_request)) == hss.len(),
    decreases hss.len(),
{
    if hss.len() > 0 {
        lemma_counts_of_one_cycle(hss[0], with_request);
        lemma_counts_append(cycle_calls(hss[0], with_request), all_cycle_calls(hss.skip(1), with_request));
        lemma_opens_and_closes_match_connections(hss.skip(1), with_request);
    }
}

/// Law: the log of a run decomposes into one block per connection. The
/// block of connection `i` starts at `i * cycle_len(with_request)`; its
/// second entry is `OnOpen` with exactly that connection's handshake, its
/// last entry is `OnClose`, and no other entry of the block opens or
/// closes. In particular `on_open` runs exactly once per accepted
/// connection, with the handshake captured for it, and `on_close` runs
/// exactly once, strictly after it.
pub proof fn lemma_one_cycle_per_connection(hss: Seq<Handshake>, with_request: bool, i: int)
    requires
        0 <= i < hss.len(),
    ensures
        ({
            let log = all_cycle_calls(hss, with_request);
            let cl = cycle_len(with_request);
            let base = i * cl;
            &&& log.len() == hss.len() * cl
            &&& log[base + 1] == Hook::OnOpen(hss[i])
            &&& log[base + cl - 1] == Hook::OnClose
            &&& forall|j: int|
                base <= j < base + cl ==> ((#[trigger] log[j]) is OnOpen <==> j == base + 1)
            &&& forall|j: int|
                base <= j < base + cl ==> ((#[trigger] log[j]) is OnClose <==> j == base + cl - 1)
        }),
    decreases i,
{
    let log = all_cycle_calls(hss, with_request);
    let cl = cycle_len(with_request);
    let blk = cycle_calls(hss[0], with_request);
    let rest = all_cycle_calls(hss.skip(1), with_request);
    lemma_all_cycle_calls_len(hss, with_request);
    lemma_all_cycle_calls_len(hss.skip(1), with_request);
    assert(log =~= blk + rest);
    if i == 0 {
        assert(forall|j: int| 0 <= j < cl ==> log[j] == blk[j]);
    } else {
        lemma_one_cycle_per_connection(hss.skip(1), with_request, i - 1);
        assert(hss.skip(1)[i - 1] == hss[i]);
        assert(forall|j: int| cl <= j < log.len() ==> log[j] == rest[j - cl]);
    }
}

/// The log of a run has one block of `cycle_len` entries per connection.
pub proof fn lemma_all_cycle_calls_len(hss: Seq<Handshake>, with_request: bool)
    ensures
        all_cycle_calls(hss, with_request).len() == hss.len() * cycle_len(with_request),
    decreases hss.len(),
{
    let cl = cycle_len(with_request);
    if hss.len() > 0 {
        lemma_all_cycle_calls_len(hss.skip(1), with_request);
        assert(cl + (hss.len() - 1) * cl == hss.len() * cl) by (nonlinear_arith);
    } else {
        assert(hss.len() * cl == 0) by (nonlinear_arith)
            requires hss.len() == 0;
    }
}

/// Run one full lifecycle cycle: ask the factory for a handler, then invoke
/// `on_open` with the handshake, optionally `on_request`, and `on_close`,
/// recording each step in `log` in the order it runs.
pub fn process_connection<F: Factory>(
    factory: &mut F,
    hs: Handshake,
    sender: Sender,
    with_request: bool,
    log: &mut Vec<Hook>,
)
    ensures
        final(log)@ == old(log)@ + cycle_calls(hs, with_request),
{
    log.push(Hook::ConnectionMade);
    let mut handler = factory.connection_made(sender);
    log.push(Hook::OnOpen(hs));
    handler.on_open(hs);
    if with_request {
        log.push(Hook::OnRequest);
        handler.on_request();
    }
    log.push(Hook::OnClose);
    handler.on_close();
    proof {
        assert(log@ =~= old(log)@ + cycle_calls(hs, with_request));
    }
}

} // verus!
