//! The single-threaded, readiness-multiplexed reactor engine.
//!
//! A [`Builder`] accumulates bound listener addresses, refusing a
//! duplicate, and transfers them with the factory into a [`LajiDiscard`]
//! engine. The engine keeps a token-indexed registry of the listeners;
//! whatever waits on readiness hands it, per notification, the token and
//! the outcomes of the accept calls on that listener. Because readiness is
//! edge-triggered, one notification may stand for any number of pending
//! connections, so the engine drains: it keeps taking accept outcomes,
//! handling each accepted connection synchronously (open, then close),
//! until a would-block outcome ends the drain or a fatal outcome ends the
//! whole run.

use vstd::prelude::*;

use crate::addr::Addr;
use crate::error::IoErr;
use crate::lifecycle::{
    all_cycle_calls, cycle_calls, process_connection, stream_handshakes, Factory, Handshake, Hook,
    Sender, TransportKind,
};
use crate::registry::{slab_dense, slab_entries, slab_get, slab_insert, slab_new};

verus! {

/// The outcome of one accept call on a listener.
#[derive(Clone, Copy, PartialEq, Eq, Structural, Debug)]
pub enum AcceptOutcome {
    /// A connection from this peer was accepted.
    Accepted(Addr),
    /// The listener has no pending connection; the drain is over.
    WouldBlock,
    /// The accept failed; the whole engine stops.
    Fatal(IoErr),
}

/// What the engine decides after one accept outcome.
#[derive(Clone, Copy, PartialEq, Eq, Structural, Debug)]
pub enum DrainStep {
    /// Keep accepting on this listener.
    Continue,
    /// Stop draining this listener and wait for the next notification.
    Done,
    /// Stop the whole engine with this error.
    Fail(IoErr),
}

/// The peers accepted before a drain ends: the longest all-accepted prefix.
pub open spec fn drained_peers(outs: Seq<AcceptOutcome>) -> Seq<Addr>
    decreases outs.len(),
{
    if outs.len() == 0 {
        Seq::empty()
    } else {
        match outs[0] {
            AcceptOutcome::Accepted(p) => seq![p] + drained_peers(outs.skip(1)),
            _ => Seq::empty(),
        }
    }
}

/// How a drain over these outcomes ends: normally (all accepted, or a
/// would-block reached) or with the first fatal error.
pub open spec fn drain_verdict(outs: Seq<AcceptOutcome>) -> Result<(), IoErr>
    decreases outs.len(),
{
    if outs.len() == 0 {
        Ok(())
    } else {
        match outs[0] {
            AcceptOutcome::Accepted(_) => drain_verdict(outs.skip(1)),
            AcceptOutcome::WouldBlock => Ok(()),
            AcceptOutcome::Fatal(e) => Err(e),
        }
    }
}

/// The accept outcomes of a burst: every peer pending at notification time
/// accepted in order, then the would-block that ends the drain.
pub open spec fn burst(peers: Seq<Addr>) -> Seq<AcceptOutcome> {
    peers.map_values(|p: Addr| AcceptOutcome::Accepted(p)).push(AcceptOutcome::WouldBlock)
}

/// Law: draining a burst accepts exactly the pending peers, and ends
/// normally. With [`LajiDiscard::on_ready`]'s contract: K connections
/// pending on one listener when a single notification arrives yield
/// exactly K open/close pairs before the engine waits again.
pub proof fn lemma_drain_exhausts_burst(peers: Seq<Addr>)
    ensures
        drained_peers(burst(peers)) == peers,
        drain_verdict(burst(peers)) == Ok::<(), IoErr>(()),
    decreases peers.len(),
{
    let outs = burst(peers);
    if peers.len() == 0 {
        assert(outs[0] == AcceptOutcome::WouldBlock);
        assert(drained_peers(outs) =~= peers);
    } else {
        assert(outs[0] == AcceptOutcome::Accepted(peers[0]));
        assert(outs.skip(1) =~= burst(peers.skip(1)));
        lemma_drain_exhausts_burst(peers.skip(1));
        assert(drained_peers(outs) =~= peers);
    }
}

/// Law: K connections pending on one listener when a single readiness
/// notification arrives produce exactly K `on_open` and K `on_close`
/// invocations before the engine waits again, and the drain ends
/// normally. The log in question is precisely what
/// [`LajiDiscard::on_ready`] appends for that notification.
pub proof fn lemma_burst_yields_k_pairs(peers: Seq<Addr>, local: Addr)
    ensures
        ({
            let appended = all_cycle_calls(
                stream_handshakes(drained_peers(burst(peers)), local),
                false,
            );
            &&& crate::lifecycle::count_opens(appended) == peers.len()
            &&& crate::lifecycle::count_closes(appended) == peers.len()
        }),
        drain_verdict(burst(peers)) == Ok::<(), IoErr>(()),
{
    lemma_drain_exhausts_burst(peers);
    crate::lifecycle::lemma_stream_handshakes_len(peers, local);
    crate::lifecycle::lemma_opens_and_closes_match_connections(
        stream_handshakes(peers, local),
        false,
    );
}

/// How often an address occurs among bound listeners.
pub open spec fn count_addr(s: Seq<Addr>, a: Addr) -> nat
    decreases s.len(),
{
    if s.len() == 0 {
        0
    } else {
        (if s[0] == a {
            1nat
        } else {
            0nat
        }) + count_addr(s.skip(1), a)
    }
}

proof fn lemma_count_addr_push(s: Seq<Addr>, x: Addr, a: Addr)
    ensures
        count_addr(s.push(x), a) == count_addr(s, a) + (if x == a {
            1nat
        } else {
            0nat
        }),
    decreases s.len(),
{
    reveal_with_fuel(count_addr, 3);
    if s.len() == 0 {
        assert(s.push(x)[0] == x);
        assert(s.push(x).skip(1) =~= Seq::<Addr>::empty());
    } else {
        assert(s.push(x)[0] == s[0]);
        assert(s.push(x).skip(1) =~= s.skip(1).push(x));
        lemma_count_addr_push(s.skip(1), x, a);
    }
}

proof fn lemma_count_addr_zero(s: Seq<Addr>, a: Addr)
    ensures
        count_addr(s, a) == 0 <==> !s.contains(a),
    decreases s.len(),
{
    if s.len() > 0 {
        lemma_count_addr_zero(s.skip(1), a);
        if s.contains(a) {
            let i = choose|i: int| 0 <= i < s.len() && s[i] == a;
            if i > 0 {
                assert(s.skip(1)[i - 1] == a);
            }
        }
        if s.skip(1).contains(a) {
            let j = choose|j: int| 0 <= j < s.skip(1).len() && s.skip(1)[j] == a;
            assert(s[j + 1] == a);
        }
        if s[0] == a {
            assert(s.contains(a));
        }
    }
}

/// Law: after an address is bound once, binding it again is refused, and
/// the listener list an engine is built from holds exactly one entry for
/// it. With [`Builder::bind`]'s contract: the second of two binds of the
/// same address fails, and the eventual engine serves that address through
/// a single listener.
pub proof fn lemma_rebind_refused(tcp: Seq<Addr>, a: Addr)
    requires
        !tcp.contains(a),
    ensures
        tcp.push(a).contains(a),
        count_addr(tcp.push(a), a) == 1,
{
    assert(tcp.push(a)[tcp.len() as int] == a);
    lemma_count_addr_zero(tcp, a);
    lemma_count_addr_push(tcp, a, a);
}

/// The log contribution of a trace of readiness notifications, each a
/// token with the accept outcomes of its drain: per notification, the
/// cycles of its drained connections, up to and including the one whose
/// drain ends in a fatal outcome.
pub open spec fn trace_log(reg: Seq<Addr>, ns: Seq<(usize, Vec<AcceptOutcome>)>) -> Seq<Hook>
    decreases ns.len(),
{
    if ns.len() == 0 {
        Seq::empty()
    } else {
        let tok = ns[0].0;
        let outs = ns[0].1@;
        if (tok as nat) < reg.len() {
            let head = all_cycle_calls(
                stream_handshakes(drained_peers(outs), reg[tok as int]),
                false,
            );
            if drain_verdict(outs) is Err {
                head
            } else {
                head + trace_log(reg, ns.skip(1))
            }
        } else {
            trace_log(reg, ns.skip(1))
        }
    }
}

/// How a run over a trace of readiness notifications ends: with the first
/// fatal drain's error, or normally once the trace is exhausted.
pub open spec fn trace_verdict(reg: Seq<Addr>, ns: Seq<(usize, Vec<AcceptOutcome>)>) -> Result<
    (),
    IoErr,
>
    decreases ns.len(),
{
    if ns.len() == 0 {
        Ok(())
    } else {
        let tok = ns[0].0;
        let outs = ns[0].1@;
        if (tok as nat) < reg.len() && drain_verdict(outs) is Err {
            drain_verdict(outs)
        } else {
            trace_verdict(reg, ns.skip(1))
        }
    }
}

/// Accumulates bound listener addresses eagerly and hands them, with a
/// factory, to a reactor engine. Binding is a chained, consuming step; a
/// duplicate address is refused at bind time.
#[derive(Clone, Debug)]
pub struct Builder {
    tcp: Vec<Addr>,
}

impl Builder {
    /// The addresses bound so far, in bind order.
    pub closed spec fn addrs(self) -> Seq<Addr> {
        self.tcp@
    }

    pub fn new() -> (b: Builder)
        ensures
            b.addrs() == Seq::<Addr>::empty(),
    {
        Builder { tcp: Vec::new() }
    }

    /// Bind one more address. Fails with `AddrInUse`, exactly when the
    /// address is already bound, and otherwise appends it.
    pub fn bind(self, addr: Addr) -> (r: Result<Builder, IoErr>)
        ensures
            self.addrs().contains(addr) ==> r == Err::<Builder, IoErr>(IoErr::AddrInUse),
            !self.addrs().contains(addr) ==> (r matches Ok(b) && b.addrs() == self.addrs().push(
                addr,
            )),
    {
        if contains_addr(&self.tcp, addr) {
            Err(IoErr::AddrInUse)
        } else {
            let mut tcp = self.tcp;
            tcp.push(addr);
            Ok(Builder { tcp })
        }
    }

    /// Transfer the accumulated listeners and the factory into an engine.
    /// The engine's registry maps token `i` to the `i`-th bound address;
    /// no further binds are possible.
    pub fn build<F: Factory>(self, factory: F) -> (eng: LajiDiscard<F>)
        ensures
            eng.wf(),
            eng.registry_view() == self.addrs(),
            eng.log_view() == Seq::<Hook>::empty(),
    {
        let mut registry = slab_new();
        let mut i: usize = 0;
        while i < self.tcp.len()
            invariant
                i <= self.tcp.len(),
                slab_dense(registry),
                slab_entries(registry) == self.tcp@.take(i as int),
            decreases self.tcp.len() - i,
        {
            slab_insert(&mut registry, self.tcp[i]);
            proof {
                assert(self.tcp@.take(i as int + 1) =~= self.tcp@.take(i as int).push(self.tcp@[i as int]));
            }
            i = i + 1;
        }
        proof {
            assert(self.tcp@.take(self.tcp@.len() as int) =~= self.tcp@);
        }
        LajiDiscard { registry, factory, log: Vec::new() }
    }
}

pub(crate) fn contains_addr(v: &Vec<Addr>, a: Addr) -> (r: bool)
    ensures
        r == v@.contains(a),
{
    let mut i: usize = 0;
    while i < v.len()
        invariant
            i <= v.len(),
            forall|j: int| 0 <= j < i ==> v@[j] != a,
        decreases v.len() - i,
    {
        if v[i] == a {
            return true;
        }
        i = i + 1;
    }
    false
}

/// The reactor engine: a token-indexed listener registry, the factory, and
/// the log of every lifecycle hook it has invoked, in order. Single
/// threaded: connections are handled one at a time, each fully, before the
/// next accept.
pub struct LajiDiscard<F: Factory> {
    registry: slab::Slab<Addr>,
    factory: F,
    log: Vec<Hook>,
}

impl<F: Factory> LajiDiscard<F> {
    /// The engine's registry is in the insert-only shape its contracts
    /// rely on. Established by [`Builder::build`] and never given up.
    pub closed spec fn wf(self) -> bool {
        slab_dense(self.registry)
    }

    /// The bound address of each listener, indexed by token.
    pub closed spec fn registry_view(self) -> Seq<Addr> {
        slab_entries(self.registry)
    }

    /// Every lifecycle hook invoked so far, in invocation order.
    pub closed spec fn log_view(self) -> Seq<Hook> {
        self.log@
    }

    /// The log of lifecycle hook invocations.
    pub fn calls(&self) -> (log: &Vec<Hook>)
        ensures
            log@ == self.log_view(),
    {
        &self.log
    }

    /// Resolve a readiness token to the listener it was registered for.
    /// Tokens are handed out densely from 0, so an unknown token is one at
    /// or past the number of listeners.
    pub fn resolve(&self, token: usize) -> (r: Option<Addr>)
        requires
            self.wf(),
        ensures
            (token as nat) < self.registry_view().len() ==> r == Some(
                self.registry_view()[token as int],
            ),
            (token as nat) >= self.registry_view().len() ==> r is None,
    {
        slab_get(&self.registry, token)
    }

    /// Decide on one accept outcome during a drain. An accepted connection
    /// is handled fully (open, then close, with the peer's address and the
    /// listener's bound address in the handshake) and the drain goes on; a
    /// would-block ends the drain; a fatal error ends the engine. An
    /// unknown token is tolerated: the event is ignored.
    pub fn accept_event(&mut self, token: usize, outcome: AcceptOutcome) -> (step: DrainStep)
        requires
            old(self).wf(),
        ensures
            final(self).wf(),
            final(self).registry_view() == old(self).registry_view(),
            (token as nat) >= old(self).registry_view().len() ==> (final(self).log_view() == old(
                self,
            ).log_view() && step == DrainStep::Done),
            (token as nat) < old(self).registry_view().len() ==> match outcome {
                AcceptOutcome::Accepted(peer) => final(self).log_view() == old(self).log_view()
                    + cycle_calls(
                    Handshake {
                        peer_addr: peer,
                        local_addr: old(self).registry_view()[token as int],
                        kind: TransportKind::Stream,
                    },
                    false,
                ) && step == DrainStep::Continue,
                AcceptOutcome::WouldBlock => final(self).log_view() == old(self).log_view()
                    && step == DrainStep::Done,
                AcceptOutcome::Fatal(e) => final(self).log_view() == old(self).log_view() && step
                    == DrainStep::Fail(e),
            },
    {
        let local = match slab_get(&self.registry, token) {
            Some(a) => a,
            None => {
                return DrainStep::Done;
            },
        };
        match outcome {
            AcceptOutcome::Accepted(peer) => {
                let hs = Handshake::stream(peer, local);
                let sender = Sender::new_tcp(peer);
                process_connection(&mut self.factory, hs, sender, false, &mut self.log);
                DrainStep::Continue
            },
            AcceptOutcome::WouldBlock => DrainStep::Done,
            AcceptOutcome::Fatal(e) => DrainStep::Fail(e),
        }
    }

    /// Handle one readiness notification: drain the listener the token
    /// resolves to. Exactly the accepted prefix of the outcomes is
    /// dispatched, one full cycle per connection in arrival order, and the
    /// verdict is the drain's: normal exhaustion, or the first fatal
    /// error, which stops the whole engine. An unknown token is ignored.
    pub fn on_ready(&mut self, token: usize, outcomes: &Vec<AcceptOutcome>) -> (r: Result<
        (),
        IoErr,
    >)
        requires
            old(self).wf(),
        ensures
            final(self).wf(),
            final(self).registry_view() == old(self).registry_view(),
            (token as nat) >= old(self).registry_view().len() ==> (final(self).log_view() == old(
                self,
            ).log_view() && r == Ok::<(), IoErr>(())),
            (token as nat) < old(self).registry_view().len() ==> (final(self).log_view() == old(
                self,
            ).log_view() + all_cycle_calls(
                stream_handshakes(
                    drained_peers(outcomes@),
                    old(self).registry_view()[token as int],
                ),
                false,
            ) && r == drain_verdict(outcomes@)),
    {
        let local = match slab_get(&self.registry, token) {
            Some(a) => a,
            None => {
                return Ok(());
            },
        };
        let r = self.drain_from(local, outcomes, 0);
        proof {
            assert(outcomes@.skip(0) =~= outcomes@);
        }
        r
    }

    /// Run the dispatch loop over a trace of readiness notifications,
    /// each a token with the accept outcomes of draining its listener.
    /// Every notification before the first fatal drain is handled in
    /// full; the first fatal drain's error ends the run — no later
    /// notification is serviced, even for otherwise healthy listeners.
    pub fn run(&mut self, notifications: &Vec<(usize, Vec<AcceptOutcome>)>) -> (r: Result<
        (),
        IoErr,
    >)
        requires
            old(self).wf(),
        ensures
            final(self).wf(),
            final(self).registry_view() == old(self).registry_view(),
            final(self).log_view() == old(self).log_view() + trace_log(
                old(self).registry_view(),
                notifications@,
            ),
            r == trace_verdict(old(self).registry_view(), notifications@),
    {
        let r = self.run_from(notifications, 0);
        proof {
            assert(notifications@.skip(0) =~= notifications@);
        }
        r
    }

    /// Service the tail of the notification trace, from position `i` on.
    fn run_from(&mut self, notifications: &Vec<(usize, Vec<AcceptOutcome>)>, i: usize) -> (r:
        Result<(), IoErr>)
        requires
            old(self).wf(),
            i <= notifications@.len(),
        ensures
            final(self).wf(),
            final(self).registry_view() == old(self).registry_view(),
            final(self).log_view() == old(self).log_view() + trace_log(
                old(self).registry_view(),
                notifications@.skip(i as int),
            ),
            r == trace_verdict(old(self).registry_view(), notifications@.skip(i as int)),
        decreases notifications@.len() - i,
    {
        let ghost reg = old(self).registry_view();
        let ghost tail = notifications@.skip(i as int);
        if i == notifications.len() {
            proof {
                assert(tail =~= Seq::<(usize, Vec<AcceptOutcome>)>::empty());
                assert(old(self).log_view() + trace_log(reg, tail) =~= old(self).log_view());
            }
            return Ok(());
        }
        proof {
            assert(tail[0] == notifications@[i as int]);
            assert(tail.skip(1) =~= notifications@.skip(i as int + 1));
        }
        let token = notifications[i].0;
        let verdict = self.on_ready(token, &notifications[i].1);
        match verdict {
            Err(e) => {
                proof {
                    assert(self.log_view() =~= old(self).log_view() + trace_log(reg, tail));
                }
                Err(e)
            },
            Ok(()) => {
                let r = self.run_from(notifications, i + 1);
                proof {
                    assert(self.log_view() =~= old(self).log_view() + trace_log(reg, tail));
                }
                r
            },
        }
    }

    /// Drain the tail of the outcomes, from position `i` on.
    fn drain_from(&mut self, local: Addr, outcomes: &Vec<AcceptOutcome>, i: usize) -> (r: Result<
        (),
        IoErr,
    >)
        requires
            old(self).wf(),
            i <= outcomes@.len(),
        ensures
            final(self).wf(),
            final(self).registry_view() == old(self).registry_view(),
            final(self).log_view() == old(self).log_view() + all_cycle_calls(
                stream_handshakes(drained_peers(outcomes@.skip(i as int)), local),
                false,
            ),
            r == drain_verdict(outcomes@.skip(i as int)),
        decreases outcomes@.len() - i,
    {
        let ghost tail = outcomes@.skip(i as int);
        if i == outcomes.len() {
            proof {
                assert(tail =~= Seq::<AcceptOutcome>::empty());
                assert(old(self).log_view() + all_cycle_calls(
                    stream_handshakes(drained_peers(tail), local),
                    false,
                ) =~= old(self).log_view());
            }
            return Ok(());
        }
        proof {
            assert(tail[0] == outcomes@[i as int]);
            assert(tail.skip(1) =~= outcomes@.skip(i as int + 1));
        }
        match outcomes[i] {
            AcceptOutcome::Accepted(peer) => {
                let hs = Handshake::stream(peer, local);
                let sender = Sender::new_tcp(peer);
                process_connection(&mut self.factory, hs, sender, false, &mut self.log);
                let r = self.drain_from(local, outcomes, i + 1);
                proof {
                    let rest_peers = drained_peers(outcomes@.skip(i as int + 1));
                    assert(drained_peers(tail) =~= seq![peer] + rest_peers);
                    assert((seq![peer] + rest_peers).skip(1) =~= rest_peers);
                    assert(stream_handshakes(drained_peers(tail), local) =~= seq![hs]
                        + stream_handshakes(rest_peers, local));
                    assert((seq![hs] + stream_handshakes(rest_peers, local)).skip(1)
                        =~= stream_handshakes(rest_peers, local));
                    assert(all_cycle_calls(stream_handshakes(drained_peers(tail), local), false)
                        =~= cycle_calls(hs, false) + all_cycle_calls(
                        stream_handshakes(rest_peers, local),
                        false,
                    ));
                    assert(self.log_view() =~= old(self).log_view() + all_cycle_calls(
                        stream_handshakes(drained_peers(tail), local),
                        false,
                    ));
                }
                r
            },
            AcceptOutcome::WouldBlock => {
                proof {
                    assert(drained_peers(tail) =~= Seq::<Addr>::empty());
                    assert(self.log_view() =~= old(self).log_view() + all_cycle_calls(
                        stream_handshakes(drained_peers(tail), local),
                        false,
                    ));
                }
                Ok(())
            },
            AcceptOutcome::Fatal(e) => {
                proof {
                    assert(drained_peers(tail) =~= Seq::<Addr>::empty());
                    assert(self.log_view() =~= old(self).log_view() + all_cycle_calls(
                        stream_handshakes(drained_peers(tail), local),
                        false,
                    ));
                }
                Err(e)
            },
        }
    }
}

} // verus!
