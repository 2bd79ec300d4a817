use laji::addr::Addr;
use laji::rakping::{encode_ping, encode_pong, Ping, Pong, Sender};

#[test]
fn ping_wire_bytes_are_exact() {
    let ping = Ping::new(0x0102030405060708, 0x1112131415161718);
    let wire = encode_ping(&ping);
    assert_eq!(
        wire,
        vec![
            0x01, 0x01, 0x02, 0x03, 0x04, 0x05, 0x06, 0x07, 0x08, 0x11, 0x12, 0x13, 0x14, 0x15,
            0x16, 0x17, 0x18,
        ]
    );
}

#[test]
fn ping_of_zero_is_tag_and_zeros() {
    let wire = encode_ping(&Ping::new(0, 0));
    assert_eq!(wire.len(), 17);
    assert_eq!(wire[0], 0x01);
    assert!(wire[1..].iter().all(|b| *b == 0));
}

#[test]
fn pong_wire_bytes_are_exact() {
    let pong = Pong::new(0x0102030405060708, 0x2122232425262728, b"laji".to_vec());
    let wire = encode_pong(&pong);
    assert_eq!(
        wire,
        vec![
            0x1c, 0x01, 0x02, 0x03, 0x04, 0x05, 0x06, 0x07, 0x08, 0x21, 0x22, 0x23, 0x24, 0x25,
            0x26, 0x27, 0x28, 0x00, 0x04, b'l', b'a', b'j', b'i',
        ]
    );
}

#[test]
fn pong_with_empty_name_is_bare_header() {
    let wire = encode_pong(&Pong::new(7, 9, Vec::new()));
    assert_eq!(wire.len(), 19);
    assert_eq!(wire[0], 0x1c);
    assert_eq!(wire[17], 0);
    assert_eq!(wire[18], 0);
}

#[test]
fn pong_name_length_is_big_endian() {
    let name = vec![b'x'; 300];
    let wire = encode_pong(&Pong::new(0, 0, name));
    assert_eq!(wire.len(), 319);
    assert_eq!(wire[17], 0x01);
    assert_eq!(wire[18], 0x2c);
}

#[test]
fn sender_records_each_datagram_in_order() {
    let target = Addr::new(0x7f000001, 19132);
    let mut sender = Sender::new(target);
    assert_eq!(sender.send_ping(&Ping::new(5, 6)), Ok(17));
    assert_eq!(sender.send_pong(&Pong::new(5, 7, b"srv".to_vec())), Ok(22));
    assert_eq!(sender.sent.len(), 2);
    assert_eq!(sender.sent[0][0], 0x01);
    assert_eq!(sender.sent[1][0], 0x1c);
    assert_eq!(sender.target, target);
}

#[test]
fn constructors_keep_their_fields() {
    let ping = Ping::new(11, 22);
    assert_eq!(ping.ping_time, 11);
    assert_eq!(ping.client_guid, 22);
    let pong = Pong::new(33, 44, b"name".to_vec());
    assert_eq!(pong.ping_time, 33);
    assert_eq!(pong.server_guid, 44);
    assert_eq!(pong.server_name, b"name".to_vec());
}
