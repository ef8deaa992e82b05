use bytes::Bytes;
use netdebug::message::{ConnectionInfo, Message, MessageDirection, MessageType, SocketAddress};
use netdebug::payload::encode_payload;

#[test]
fn text_is_sent_as_its_utf8_bytes() {
    assert_eq!(encode_payload(MessageType::Text("hello".to_string())), Some(Bytes::from_static(b"hello")));
    assert_eq!(
        encode_payload(MessageType::Text("h\u{e9}\u{20ac}".to_string())),
        Some(Bytes::from(vec![0x68, 0xc3, 0xa9, 0xe2, 0x82, 0xac]))
    );
    assert_eq!(encode_payload(MessageType::Text(String::new())), Some(Bytes::new()));
}

#[test]
fn binary_is_sent_as_it_is() {
    let data = Bytes::from(vec![0u8, 1, 2, 255]);
    assert_eq!(encode_payload(MessageType::Binary(data.clone())), Some(data));
}

#[test]
fn hex_is_sent_as_the_bytes_it_spells() {
    assert_eq!(
        encode_payload(MessageType::Hex("48656c6c6f".to_string())),
        Some(Bytes::from_static(b"Hello"))
    );
    assert_eq!(encode_payload(MessageType::Hex("0xFF".to_string())), Some(Bytes::from(vec![0xFFu8])));
    assert_eq!(encode_payload(MessageType::Hex(String::new())), Some(Bytes::new()));
}

#[test]
fn hex_that_does_not_decode_has_no_encoding() {
    assert_eq!(encode_payload(MessageType::Hex("abc".to_string())), None);
    assert_eq!(encode_payload(MessageType::Hex("xyz!".to_string())), None);
}

#[test]
fn lifecycle_notices_have_no_encoding() {
    assert_eq!(encode_payload(MessageType::ClientConnected), None);
    assert_eq!(encode_payload(MessageType::ClientDisconnected), None);
}

#[test]
fn a_received_message_keeps_what_it_is_given() {
    let info = ConnectionInfo {
        remote_addr: SocketAddress::V4 { octets: [10, 0, 0, 7], port: 4242 },
        connection_id: "10.0.0.7:4242".to_string(),
    };
    let m = Message::new_received(MessageType::Text("in".to_string()), Some(info));
    assert_eq!(m.direction, MessageDirection::Received);
    assert!(matches!(&m.content, MessageType::Text(t) if t == "in"));
    let kept = m.connection_info.expect("the connection is kept");
    assert_eq!(kept.connection_id, "10.0.0.7:4242");
    assert_eq!(kept.remote_addr, SocketAddress::V4 { octets: [10, 0, 0, 7], port: 4242 });
}

#[test]
fn a_sent_message_keeps_what_it_is_given() {
    let m = Message::new_sent(MessageType::Hex("ff".to_string()), None);
    assert_eq!(m.direction, MessageDirection::Sent);
    assert!(matches!(&m.content, MessageType::Hex(t) if t == "ff"));
    assert!(m.connection_info.is_none());
}

#[test]
fn a_message_is_stamped_when_it_is_made() {
    let before = chrono::Local::now().naive_local();
    let m = Message::new_received(MessageType::ClientConnected, None);
    let after = chrono::Local::now().naive_local();
    assert!(before <= m.timestamp && m.timestamp <= after);
}

#[test]
fn a_cloned_message_is_the_same_message() {
    let info = ConnectionInfo {
        remote_addr: SocketAddress::V6 { segments: [0, 0, 0, 0, 0, 0, 0, 1], port: 9, flowinfo: 0, scope_id: 0 },
        connection_id: "[::1]:9".to_string(),
    };
    let m = Message::new_sent(MessageType::Binary(Bytes::from(vec![1u8, 2, 3])), Some(info));
    let c = m.clone();
    assert_eq!(c.direction, m.direction);
    assert_eq!(c.timestamp, m.timestamp);
    assert!(matches!(&c.content, MessageType::Binary(b) if b.as_ref() == [1u8, 2, 3]));
    let kept = c.connection_info.expect("the connection is kept");
    assert_eq!(kept.connection_id, "[::1]:9");
    assert_eq!(
        kept.remote_addr,
        SocketAddress::V6 { segments: [0, 0, 0, 0, 0, 0, 0, 1], port: 9, flowinfo: 0, scope_id: 0 }
    );
}
