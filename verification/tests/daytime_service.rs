use std::cell::RefCell;
use std::rc::Rc;

use laji::addr::Addr;
use laji::daytime::Timestamp;
use laji::lifecycle::{Factory, Handler, Handshake, Sender};
use laji::threads::{LajiDaytime, StreamEvent};

#[test]
fn renders_the_exact_line() {
    let ts = Timestamp::new(2026, 10, 11, 7, 3, 9).unwrap();
    assert_eq!(ts.render(), b"2026-10-11 07:03:09".to_vec());
}

#[test]
fn renders_with_full_width_fields() {
    let ts = Timestamp::new(1999, 12, 31, 23, 59, 58).unwrap();
    assert_eq!(ts.render(), b"1999-12-31 23:59:58".to_vec());
}

#[test]
fn rejects_days_the_month_does_not_have() {
    assert!(Timestamp::new(2026, 2, 29, 0, 0, 0).is_none());
    assert!(Timestamp::new(2024, 2, 29, 0, 0, 0).is_some());
    assert!(Timestamp::new(1900, 2, 29, 0, 0, 0).is_none());
    assert!(Timestamp::new(2000, 2, 29, 0, 0, 0).is_some());
    assert!(Timestamp::new(2026, 4, 31, 0, 0, 0).is_none());
    assert!(Timestamp::new(2026, 13, 1, 0, 0, 0).is_none());
    assert!(Timestamp::new(2026, 0, 1, 0, 0, 0).is_none());
    assert!(Timestamp::new(2026, 1, 0, 0, 0, 0).is_none());
    assert!(Timestamp::new(2026, 1, 1, 24, 0, 0).is_none());
    assert!(Timestamp::new(2026, 1, 1, 0, 60, 0).is_none());
    assert!(Timestamp::new(2026, 1, 1, 0, 0, 60).is_none());
    assert!(Timestamp::new(10000, 1, 1, 0, 0, 0).is_none());
}

struct DaytimeHandler {
    sender: Sender,
    writes: Rc<RefCell<Vec<Vec<u8>>>>,
}

impl Handler for DaytimeHandler {
    fn on_open(&mut self, _shake: Handshake) {}

    fn on_request(&mut self) {
        let ts = Timestamp::new(2026, 10, 11, 7, 3, 9).unwrap();
        let line = ts.render();
        let sent = self.sender.send(line.clone());
        assert_eq!(sent, Ok(line.len()));
        self.writes.borrow_mut().push(line);
    }

    fn on_close(&mut self) {}
}

struct DaytimeFactory {
    writes: Rc<RefCell<Vec<Vec<u8>>>>,
}

impl Factory for DaytimeFactory {
    type Handler = DaytimeHandler;

    fn connection_made(&mut self, sender: Sender) -> DaytimeHandler {
        DaytimeHandler { sender, writes: Rc::clone(&self.writes) }
    }
}

#[test]
fn one_client_gets_one_timestamp_write() {
    // Daytime service, one client: exactly one write, containing a
    // non-empty textual timestamp, then the connection closes.
    let writes = Rc::new(RefCell::new(Vec::new()));
    let factory = DaytimeFactory { writes: Rc::clone(&writes) };
    let local = Addr::new(0, 13);
    let mut eng = LajiDaytime::new(factory).bind_tcp(local).unwrap();
    eng.tcp_worker_event(0, StreamEvent::Accepted { peer: Addr::new(0x7f000001, 34000) });
    let writes = writes.borrow();
    assert_eq!(writes.len(), 1);
    assert!(!writes[0].is_empty());
    assert_eq!(writes[0], b"2026-10-11 07:03:09".to_vec());
    assert_eq!(eng.first_error(), None);
}
