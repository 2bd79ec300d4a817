use laji::addr::Addr;
use laji::lifecycle::{
    process_connection, Factory, Handler, Handshake, Hook, Sender, TransportKind,
};

struct NoopHandler;

impl Handler for NoopHandler {}

struct NoopFactory;

impl Factory for NoopFactory {
    type Handler = NoopHandler;

    fn connection_made(&mut self, _sender: Sender) -> NoopHandler {
        NoopHandler
    }
}

#[test]
fn cycle_with_request_runs_in_order() {
    let peer = Addr::new(0x7f000001, 20000);
    let local = Addr::new(0x7f000001, 13);
    let hs = Handshake::stream(peer, local);
    let mut factory = NoopFactory;
    let mut log = Vec::new();
    process_connection(&mut factory, hs, Sender::new_tcp(peer), true, &mut log);
    assert_eq!(log, vec![Hook::ConnectionMade, Hook::OnOpen(hs), Hook::OnRequest, Hook::OnClose]);
}

#[test]
fn cycle_without_request_skips_it() {
    let peer = Addr::new(0x7f000001, 20001);
    let local = Addr::new(0x7f000001, 9);
    let hs = Handshake::stream(peer, local);
    let mut factory = NoopFactory;
    let mut log = Vec::new();
    process_connection(&mut factory, hs, Sender::new_tcp(peer), false, &mut log);
    assert_eq!(log, vec![Hook::ConnectionMade, Hook::OnOpen(hs), Hook::OnClose]);
}

#[test]
fn handshake_exposes_its_capture() {
    let peer = Addr::new(0x0a000001, 55555);
    let local = Addr::new(0x7f000001, 13);
    let hs = Handshake::stream(peer, local);
    assert_eq!(hs.peer_addr(), peer);
    assert_eq!(hs.local_addr(), local);
    assert_eq!(hs.transport_kind(), TransportKind::Stream);
    let dg = Handshake::datagram(peer, local);
    assert_eq!(dg.transport_kind(), TransportKind::Datagram);
    assert_eq!(dg.peer_addr(), peer);
}

#[test]
fn sender_records_writes_in_order() {
    let peer = Addr::new(0x7f000001, 21000);
    let mut sender = Sender::new_tcp(peer);
    assert_eq!(sender.write_count(), 0);
    assert_eq!(sender.send(b"one".to_vec()), Ok(3));
    assert_eq!(sender.send(b"two!".to_vec()), Ok(4));
    assert_eq!(sender.write_count(), 2);
    assert_eq!(sender.written[0], b"one".to_vec());
    assert_eq!(sender.written[1], b"two!".to_vec());
    assert_eq!(sender.kind, TransportKind::Stream);
    assert_eq!(sender.target, peer);
}

#[test]
fn udp_sender_replies_to_its_origin() {
    let origin = Addr::new(0x7f000001, 22000);
    let sender = Sender::new_udp(origin);
    assert_eq!(sender.kind, TransportKind::Datagram);
    assert_eq!(sender.target, origin);
}
