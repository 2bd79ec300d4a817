use laji::addr::Addr;
use laji::error::IoErr;
use laji::lifecycle::{Factory, Handler, Hook, Sender, TransportKind};
use laji::threads::{DatagramEvent, LajiDaytime, StreamEvent, WorkerEvent};

struct NoopHandler;

impl Handler for NoopHandler {}

struct NoopFactory;

impl Factory for NoopFactory {
    type Handler = NoopHandler;

    fn connection_made(&mut self, _sender: Sender) -> NoopHandler {
        NoopHandler
    }
}

fn count_opens(calls: &[Hook]) -> usize {
    calls.iter().filter(|h| matches!(h, Hook::OnOpen(_))).count()
}

fn count_closes(calls: &[Hook]) -> usize {
    calls.iter().filter(|h| matches!(h, Hook::OnClose)).count()
}

#[test]
fn fifty_connections_across_two_listeners() {
    // Discard service on two addresses, 50 clients split across both:
    // exactly 50 opens, 50 closes, and no fatal error.
    let a = Addr::new(0, 9);
    let b = Addr::new(0, 9999);
    let mut eng = LajiDaytime::new(NoopFactory).bind_tcp(a).unwrap().bind_tcp(b).unwrap();
    for i in 0..50u16 {
        let listener = (i % 2) as usize;
        let peer = Addr::new(0x7f000001, 30000 + i);
        eng.tcp_worker_event(listener, StreamEvent::Accepted { peer });
    }
    let calls = eng.calls();
    assert_eq!(count_opens(calls), 50);
    assert_eq!(count_closes(calls), 50);
    assert_eq!(eng.first_error(), None);
}

#[test]
fn run_observes_only_the_first_error() {
    let a = Addr::new(0, 13);
    let b = Addr::new(0, 13333);
    let mut eng = LajiDaytime::new(NoopFactory)
        .bind_tcp(a)
        .unwrap()
        .bind_tcp(b)
        .unwrap()
        .bind_udp(a)
        .unwrap();
    let events = vec![
        WorkerEvent::Tcp { listener: 0, event: StreamEvent::Accepted { peer: Addr::new(1, 100) } },
        WorkerEvent::Udp { socket: 0, event: DatagramEvent::Received { origin: Addr::new(1, 101) } },
        WorkerEvent::Tcp { listener: 1, event: StreamEvent::Failed { err: IoErr::AcceptFailed } },
        // Workers keep serving after a failure, and later failures are
        // reported but never observed by the run's caller.
        WorkerEvent::Tcp { listener: 1, event: StreamEvent::Accepted { peer: Addr::new(1, 102) } },
        WorkerEvent::Udp { socket: 0, event: DatagramEvent::Failed { err: IoErr::Other } },
    ];
    assert_eq!(eng.run(&events), Err(IoErr::AcceptFailed));
    assert_eq!(count_opens(eng.calls()), 3);
    assert_eq!(count_closes(eng.calls()), 3);
    assert_eq!(eng.first_error(), Some(IoErr::AcceptFailed));
}

#[test]
fn run_with_clean_trace_reports_nothing() {
    let a = Addr::new(0, 13);
    let mut eng = LajiDaytime::new(NoopFactory).bind_tcp(a).unwrap();
    let events = vec![
        WorkerEvent::Tcp { listener: 0, event: StreamEvent::Accepted { peer: Addr::new(1, 200) } },
    ];
    assert_eq!(eng.run(&events), Ok(()));
    assert_eq!(eng.first_error(), None);
}

#[test]
fn worker_reports_failure_and_serves_on() {
    let a = Addr::new(0, 13);
    let mut eng = LajiDaytime::new(NoopFactory).bind_tcp(a).unwrap();
    eng.tcp_worker_event(0, StreamEvent::Failed { err: IoErr::HandshakeFailed });
    eng.tcp_worker_event(0, StreamEvent::Accepted { peer: Addr::new(0x7f000001, 31000) });
    eng.tcp_worker_event(0, StreamEvent::Failed { err: IoErr::AcceptFailed });
    // The worker kept serving after the failure...
    assert_eq!(count_opens(eng.calls()), 1);
    // ...and only the first error is ever observed by the run.
    assert_eq!(eng.first_error(), Some(IoErr::HandshakeFailed));
}

#[test]
fn stream_cycle_runs_open_request_close() {
    let local = Addr::new(0, 13);
    let peer = Addr::new(0x7f000001, 32000);
    let mut eng = LajiDaytime::new(NoopFactory).bind_tcp(local).unwrap();
    eng.tcp_worker_event(0, StreamEvent::Accepted { peer });
    let calls = eng.calls();
    assert_eq!(calls.len(), 4);
    assert_eq!(calls[0], Hook::ConnectionMade);
    match calls[1] {
        Hook::OnOpen(hs) => {
            assert_eq!(hs.peer_addr, peer);
            assert_eq!(hs.local_addr, local);
            assert_eq!(hs.kind, TransportKind::Stream);
        }
        other => panic!("expected an open, got {:?}", other),
    }
    assert_eq!(calls[2], Hook::OnRequest);
    assert_eq!(calls[3], Hook::OnClose);
}

#[test]
fn datagram_is_a_fresh_unit_of_work() {
    let local = Addr::new(0, 13);
    let origin = Addr::new(0x7f000001, 33000);
    let mut eng = LajiDaytime::new(NoopFactory).bind_udp(local).unwrap();
    eng.udp_worker_event(0, DatagramEvent::Received { origin });
    let calls = eng.calls();
    assert_eq!(calls.len(), 4);
    match calls[1] {
        Hook::OnOpen(hs) => {
            assert_eq!(hs.peer_addr, origin);
            assert_eq!(hs.local_addr, local);
            assert_eq!(hs.kind, TransportKind::Datagram);
        }
        other => panic!("expected an open, got {:?}", other),
    }
}

#[test]
fn udp_receive_failure_is_reported() {
    let mut eng = LajiDaytime::new(NoopFactory).bind_udp(Addr::new(0, 13)).unwrap();
    eng.udp_worker_event(0, DatagramEvent::Failed { err: IoErr::Other });
    assert_eq!(eng.first_error(), Some(IoErr::Other));
    assert!(eng.calls().is_empty());
}

#[test]
fn tcp_and_udp_namespaces_are_separate() {
    // The daytime harness binds the same address for TCP and UDP; only a
    // second bind within the same transport collides.
    let a = Addr::new(0, 13);
    let eng = LajiDaytime::new(NoopFactory).bind_tcp(a).unwrap().bind_udp(a).unwrap();
    let refused = eng.bind_tcp(a);
    assert!(matches!(refused, Err(IoErr::AddrInUse)));
}

#[test]
fn write_failure_variant_reaches_the_run() {
    let mut eng = LajiDaytime::new(NoopFactory).bind_tcp(Addr::new(0, 13)).unwrap();
    eng.tcp_worker_event(0, StreamEvent::Failed { err: IoErr::WriteFailed });
    assert_eq!(eng.first_error(), Some(IoErr::WriteFailed));
}
