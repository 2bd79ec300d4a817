//! The thread-per-listener, blocking-accept engine.
//!
//! One worker serves each bound TCP listener and each bound UDP socket,
//! looping on a blocking accept or receive. The engine here is the shared
//! dispatch state and the per-event decision: every accepted connection or
//! received datagram runs the full lifecycle (open, one request, close),
//! and every failure — accept, handshake extraction, or receive — is
//! reported once to the shared error queue while the worker goes on
//! serving. The run's outcome is the first error the queue ever sees; the
//! workers are never joined or cancelled, deliberately: report-and-abandon,
//! not clean shutdown.

use vstd::prelude::*;

use crate::addr::Addr;
use crate::error::IoErr;
use crate::lifecycle::{cycle_calls, process_connection, Factory, Handshake, Hook, Sender, TransportKind};

verus! {

/// What a stream worker's blocking accept produced: a connection with its
/// peer's address, or a failure (of the accept itself or of handshake
/// address retrieval) to report.
#[derive(Clone, Copy, PartialEq, Eq, Structural, Debug)]
pub enum StreamEvent {
    Accepted { peer: Addr },
    Failed { err: IoErr },
}

/// What a datagram worker's blocking receive produced: one datagram with
/// its origin address, or a failure to report.
#[derive(Clone, Copy, PartialEq, Eq, Structural, Debug)]
pub enum DatagramEvent {
    Received { origin: Addr },
    Failed { err: IoErr },
}

/// One event some worker produced: which listener or socket it serves,
/// and what its blocking call came back with.
#[derive(Clone, Copy, PartialEq, Eq, Structural, Debug)]
pub enum WorkerEvent {
    Tcp { listener: usize, event: StreamEvent },
    Udp { socket: usize, event: DatagramEvent },
}

/// The log contribution of a trace of worker events: one full cycle per
/// accepted connection and per received datagram, in trace order;
/// failures contribute nothing to the log.
pub open spec fn thread_trace_log(tcp: Seq<Addr>, udp: Seq<Addr>, es: Seq<WorkerEvent>) -> Seq<
    Hook,
>
    decreases es.len(),
{
    if es.len() == 0 {
        Seq::empty()
    } else {
        let head = match es[0] {
            WorkerEvent::Tcp { listener, event } => match event {
                StreamEvent::Accepted { peer } => cycle_calls(
                    Handshake {
                        peer_addr: peer,
                        local_addr: tcp[listener as int],
                        kind: TransportKind::Stream,
                    },
                    true,
                ),
                StreamEvent::Failed { .. } => Seq::empty(),
            },
            WorkerEvent::Udp { socket, event } => match event {
                DatagramEvent::Received { origin } => cycle_calls(
                    Handshake {
                        peer_addr: origin,
                        local_addr: udp[socket as int],
                        kind: TransportKind::Datagram,
                    },
                    true,
                ),
                DatagramEvent::Failed { .. } => Seq::empty(),
            },
        };
        head + thread_trace_log(tcp, udp, es.skip(1))
    }
}

/// The errors a trace of worker events reports to the queue, in order.
pub open spec fn thread_trace_errors(es: Seq<WorkerEvent>) -> Seq<IoErr>
    decreases es.len(),
{
    if es.len() == 0 {
        Seq::empty()
    } else {
        let head = match es[0] {
            WorkerEvent::Tcp { event: StreamEvent::Failed { err }, .. } => seq![err],
            WorkerEvent::Udp { event: DatagramEvent::Failed { err }, .. } => seq![err],
            _ => Seq::empty(),
        };
        head + thread_trace_errors(es.skip(1))
    }
}

/// The thread engine: the bound listener addresses, the shared factory,
/// the log of every lifecycle hook invoked, and the shared error queue.
pub struct LajiDaytime<F: Factory> {
    tcp: Vec<Addr>,
    udp: Vec<Addr>,
    factory: F,
    log: Vec<Hook>,
    errors: Vec<IoErr>,
}

impl<F: Factory> LajiDaytime<F> {
    /// The bound TCP listener addresses, in bind order.
    pub closed spec fn tcp_view(self) -> Seq<Addr> {
        self.tcp@
    }

    /// The bound UDP socket addresses, in bind order.
    pub closed spec fn udp_view(self) -> Seq<Addr> {
        self.udp@
    }

    /// Every lifecycle hook invoked so far, in invocation order.
    pub closed spec fn log_view(self) -> Seq<Hook> {
        self.log@
    }

    /// Every error reported so far, in report order.
    pub closed spec fn error_view(self) -> Seq<IoErr> {
        self.errors@
    }

    pub fn new(factory: F) -> (eng: LajiDaytime<F>)
        ensures
            eng.tcp_view() == Seq::<Addr>::empty(),
            eng.udp_view() == Seq::<Addr>::empty(),
            eng.log_view() == Seq::<Hook>::empty(),
            eng.error_view() == Seq::<IoErr>::empty(),
    {
        LajiDaytime {
            tcp: Vec::new(),
            udp: Vec::new(),
            factory,
            log: Vec::new(),
            errors: Vec::new(),
        }
    }

    /// Bind one more TCP listener address. Fails with `AddrInUse`, exactly
    /// when the address already has a TCP listener, and otherwise appends
    /// it. UDP binds are a separate namespace and do not collide.
    pub fn bind_tcp(self, addr: Addr) -> (r: Result<LajiDaytime<F>, IoErr>)
        ensures
            self.tcp_view().contains(addr) ==> r is Err && (r matches Err(e) && e
                == IoErr::AddrInUse),
            !self.tcp_view().contains(addr) ==> (r matches Ok(eng) && eng.tcp_view()
                == self.tcp_view().push(addr) && eng.udp_view() == self.udp_view()
                && eng.log_view() == self.log_view() && eng.error_view() == self.error_view()),
    {
        if crate::reactor::contains_addr(&self.tcp, addr) {
            Err(IoErr::AddrInUse)
        } else {
            let LajiDaytime { mut tcp, udp, factory, log, errors } = self;
            tcp.push(addr);
            Ok(LajiDaytime { tcp, udp, factory, log, errors })
        }
    }

    /// Bind one more UDP socket address. Fails with `AddrInUse`, exactly
    /// when the address already has a UDP socket, and otherwise appends it.
    pub fn bind_udp(self, addr: Addr) -> (r: Result<LajiDaytime<F>, IoErr>)
        ensures
            self.udp_view().contains(addr) ==> r is Err && (r matches Err(e) && e
                == IoErr::AddrInUse),
            !self.udp_view().contains(addr) ==> (r matches Ok(eng) && eng.udp_view()
                == self.udp_view().push(addr) && eng.tcp_view() == self.tcp_view()
                && eng.log_view() == self.log_view() && eng.error_view() == self.error_view()),
    {
        if crate::reactor::contains_addr(&self.udp, addr) {
            Err(IoErr::AddrInUse)
        } else {
            let LajiDaytime { tcp, mut udp, factory, log, errors } = self;
            udp.push(addr);
            Ok(LajiDaytime { tcp, udp, factory, log, errors })
        }
    }

    /// The TCP listener addresses, for whatever runs the workers.
    pub fn tcp_addrs(&self) -> (v: &Vec<Addr>)
        ensures
            v@ == self.tcp_view(),
    {
        &self.tcp
    }

    /// The UDP socket addresses, for whatever runs the workers.
    pub fn udp_addrs(&self) -> (v: &Vec<Addr>)
        ensures
            v@ == self.udp_view(),
    {
        &self.udp
    }

    /// The log of lifecycle hook invocations.
    pub fn calls(&self) -> (log: &Vec<Hook>)
        ensures
            log@ == self.log_view(),
    {
        &self.log
    }

    /// Dispatch one event of the stream worker serving listener
    /// `listener`. An accepted connection runs the full lifecycle — open
    /// with a handshake carrying the peer's address and this listener's
    /// bound address, one request, close. A failure is reported once to
    /// the error queue, and the worker serves on either way.
    pub fn tcp_worker_event(&mut self, listener: usize, event: StreamEvent)
        requires
            old(self).wf_listener_index(listener as int, true),
        ensures
            final(self).tcp_view() == old(self).tcp_view(),
            final(self).udp_view() == old(self).udp_view(),
            match event {
                StreamEvent::Accepted { peer } => final(self).log_view() == old(self).log_view()
                    + cycle_calls(
                    Handshake {
                        peer_addr: peer,
                        local_addr: old(self).tcp_view()[listener as int],
                        kind: TransportKind::Stream,
                    },
                    true,
                ) && final(self).error_view() == old(self).error_view(),
                StreamEvent::Failed { err } => final(self).error_view() == old(
                    self,
                ).error_view().push(err) && final(self).log_view() == old(self).log_view(),
            },
    {
        match event {
            StreamEvent::Accepted { peer } => {
                let local = self.tcp[listener];
                let hs = Handshake::stream(peer, local);
                let sender = Sender::new_tcp(peer);
                process_connection(&mut self.factory, hs, sender, true, &mut self.log);
            },
            StreamEvent::Failed { err } => {
                self.errors.push(err);
            },
        }
    }

    /// Dispatch one event of the datagram worker serving socket `socket`.
    /// Each received datagram is a new unit of work: the handshake is
    /// derived from its origin, the sender replies to that same origin,
    /// and the full lifecycle runs. A failure is reported once to the
    /// error queue, and the worker serves on either way.
    pub fn udp_worker_event(&mut self, socket: usize, event: DatagramEvent)
        requires
            old(self).wf_listener_index(socket as int, false),
        ensures
            final(self).tcp_view() == old(self).tcp_view(),
            final(self).udp_view() == old(self).udp_view(),
            match event {
                DatagramEvent::Received { origin } => final(self).log_view() == old(
                    self,
                ).log_view() + cycle_calls(
                    Handshake {
                        peer_addr: origin,
                        local_addr: old(self).udp_view()[socket as int],
                        kind: TransportKind::Datagram,
                    },
                    true,
                ) && final(self).error_view() == old(self).error_view(),
                DatagramEvent::Failed { err } => final(self).error_view() == old(
                    self,
                ).error_view().push(err) && final(self).log_view() == old(self).log_view(),
            },
    {
        match event {
            DatagramEvent::Received { origin } => {
                let local = self.udp[socket];
                let hs = Handshake::datagram(origin, local);
                let sender = Sender::new_udp(origin);
                process_connection(&mut self.factory, hs, sender, true, &mut self.log);
            },
            DatagramEvent::Failed { err } => {
                self.errors.push(err);
            },
        }
    }

    /// Whether a worker event's index names a listener or socket this
    /// engine actually bound.
    pub open spec fn wf_event(self, e: WorkerEvent) -> bool {
        match e {
            WorkerEvent::Tcp { listener, .. } => (listener as nat) < self.tcp_view().len(),
            WorkerEvent::Udp { socket, .. } => (socket as nat) < self.udp_view().len(),
        }
    }

    /// Run the engine over a trace of worker events: every accepted
    /// connection and received datagram runs its full cycle, every
    /// failure is reported once, and no failure stops a worker. The
    /// result is the run's outcome after the trace: the first error ever
    /// reported, which is the only one the caller observes, or nothing if
    /// none occurred.
    pub fn run(&mut self, events: &Vec<WorkerEvent>) -> (r: Result<(), IoErr>)
        requires
            forall|j: int| 0 <= j < events@.len() ==> old(self).wf_event(#[trigger] events@[j]),
        ensures
            final(self).tcp_view() == old(self).tcp_view(),
            final(self).udp_view() == old(self).udp_view(),
            final(self).log_view() == old(self).log_view() + thread_trace_log(
                old(self).tcp_view(),
                old(self).udp_view(),
                events@,
            ),
            final(self).error_view() == old(self).error_view() + thread_trace_errors(events@),
            final(self).error_view().len() == 0 ==> r == Ok::<(), IoErr>(()),
            final(self).error_view().len() > 0 ==> r == Err::<(), IoErr>(
                final(self).error_view()[0],
            ),
    {
        self.run_from(events, 0);
        proof {
            assert(events@.skip(0) =~= events@);
        }
        match self.first_error() {
            Some(e) => Err(e),
            None => Ok(()),
        }
    }

    /// Dispatch the tail of the event trace, from position `i` on.
    fn run_from(&mut self, events: &Vec<WorkerEvent>, i: usize)
        requires
            i <= events@.len(),
            forall|j: int| 0 <= j < events@.len() ==> old(self).wf_event(#[trigger] events@[j]),
        ensures
            final(self).tcp_view() == old(self).tcp_view(),
            final(self).udp_view() == old(self).udp_view(),
            final(self).log_view() == old(self).log_view() + thread_trace_log(
                old(self).tcp_view(),
                old(self).udp_view(),
                events@.skip(i as int),
            ),
            final(self).error_view() == old(self).error_view() + thread_trace_errors(
                events@.skip(i as int),
            ),
        decreases events@.len() - i,
    {
        let ghost tail = events@.skip(i as int);
        if i == events.len() {
            proof {
                assert(tail =~= Seq::<WorkerEvent>::empty());
                assert(old(self).log_view() + thread_trace_log(
                    old(self).tcp_view(),
                    old(self).udp_view(),
                    tail,
                ) =~= old(self).log_view());
                assert(old(self).error_view() + thread_trace_errors(tail) =~= old(
                    self,
                ).error_view());
            }
            return ;
        }
        proof {
            assert(tail[0] == events@[i as int]);
            assert(tail.skip(1) =~= events@.skip(i as int + 1));
        }
        match events[i] {
            WorkerEvent::Tcp { listener, event } => {
                self.tcp_worker_event(listener, event);
            },
            WorkerEvent::Udp { socket, event } => {
                self.udp_worker_event(socket, event);
            },
        }
        self.run_from(events, i + 1);
        proof {
            assert(self.log_view() =~= old(self).log_view() + thread_trace_log(
                old(self).tcp_view(),
                old(self).udp_view(),
                tail,
            ));
            assert(self.error_view() =~= old(self).error_view() + thread_trace_errors(tail));
        }
    }

    /// Whether `i` indexes a bound TCP listener (`stream` true) or a bound
    /// UDP socket (`stream` false).
    pub open spec fn wf_listener_index(self, i: int, stream: bool) -> bool {
        if stream {
            0 <= i < self.tcp_view().len()
        } else {
            0 <= i < self.udp_view().len()
        }
    }

    /// The run's outcome so far: the first error ever reported, which is
    /// the one and only error the caller of a run observes. Errors after
    /// the first are never surfaced, and workers are not stopped by it.
    pub fn first_error(&self) -> (r: Option<IoErr>)
        ensures
            self.error_view().len() == 0 ==> r is None,
            self.error_view().len() > 0 ==> r == Some(self.error_view()[0]),
    {
        if self.errors.len() == 0 {
            None
        } else {
            Some(self.errors[0])
        }
    }
}

} // verus!
