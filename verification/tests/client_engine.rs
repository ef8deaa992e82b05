use bytes::Bytes;
use netdebug::channel::SendOutcome;
use netdebug::client::TcpClientHandler;
use netdebug::error::HandlerError;
use netdebug::handler::{ProtocolHandler, ReadOutcome, SetupOutcome};
use netdebug::lifecycle::ClientState;
use netdebug::message::{ConnectionInfo, Message, MessageDirection, MessageType, SocketAddress};
use netdebug::payload::encode_payload;
use tokio::sync::mpsc::channel;
use tokio::sync::mpsc::error::TryRecvError;

fn local() -> SocketAddress {
    SocketAddress::V4 { octets: [0, 0, 0, 0], port: 0 }
}

fn server_peer() -> ConnectionInfo {
    ConnectionInfo {
        remote_addr: SocketAddress::V4 { octets: [10, 1, 2, 3], port: 9000 },
        connection_id: "10.1.2.3:9000".to_string(),
    }
}

fn connected_client() -> TcpClientHandler {
    let mut client = TcpClientHandler::new(local(), server_peer());
    assert!(matches!(client.start(SetupOutcome::Ready), Ok(Some(_))));
    client
}

fn names_the_peer(event: &Message) -> bool {
    let info = event.connection_info.as_ref().expect("the event names its connection");
    info.connection_id == "10.1.2.3:9000"
        && info.remote_addr == SocketAddress::V4 { octets: [10, 1, 2, 3], port: 9000 }
}

#[test]
fn a_new_client_is_created_and_idle() {
    let client = TcpClientHandler::new(local(), server_peer());
    assert_eq!(client.state(), ClientState::Created);
    assert!(!client.is_running());
    assert!(client.get_connections().is_empty());
    assert!(client.get_ui_to_server_sender().is_none());
    assert!(client.get_server_to_ui_sender().is_none());
    assert_eq!(client.local_addr(), local());
    assert_eq!(client.remote().connection_id, "10.1.2.3:9000");
    assert_eq!(client.remote().remote_addr, SocketAddress::V4 { octets: [10, 1, 2, 3], port: 9000 });
    assert_eq!(client.protocol_name(), "TCP Client");
}

#[test]
fn a_client_that_connected_announces_its_connection() {
    let mut client = TcpClientHandler::new(local(), server_peer());
    let event = client.start(SetupOutcome::Ready).expect("a connect that succeeded starts the client");
    let event = event.expect("the client announces its connection");
    assert!(matches!(event.content, MessageType::ClientConnected));
    assert_eq!(event.direction, MessageDirection::Received);
    assert!(names_the_peer(&event));
    assert_eq!(client.state(), ClientState::Connected);
    assert!(client.is_running());
    let list = client.get_connections();
    assert_eq!(list.len(), 1);
    assert_eq!(list[0].connection_id, "10.1.2.3:9000");
    assert!(client.get_ui_to_server_sender().is_some());
}

#[test]
fn a_client_whose_connect_failed_is_not_started() {
    let mut client = TcpClientHandler::new(local(), server_peer());
    match client.start(SetupOutcome::Failed("connection refused".to_string())) {
        Err(HandlerError::Setup(reason)) => assert_eq!(reason, "connection refused"),
        _ => panic!("a failed connect fails the start"),
    }
    assert_eq!(client.state(), ClientState::Created);
    assert!(!client.is_running());
    assert!(client.get_connections().is_empty());
    assert!(client.get_ui_to_server_sender().is_none());
    assert!(client.take_request_receiver().is_none());
}

#[test]
fn text_sent_by_a_client_is_queued_once_for_its_writer() {
    let mut client = connected_client();
    let mut requests = client.take_request_receiver().expect("the writer gets its end");
    let report = client.send_message(MessageType::Text("hello".to_string()), None).expect("sending never fails");
    assert_eq!(report.len(), 1);
    assert_eq!(report[0].connection_id, "10.1.2.3:9000");
    assert_eq!(report[0].outcome, SendOutcome::Queued);
    assert_eq!(report[0].payload, Bytes::from_static(b"hello"));
    let request = requests.try_recv().expect("the request is queued");
    assert_eq!(request.direction, MessageDirection::Sent);
    assert!(names_the_peer(&request));
    assert!(matches!(&request.content, MessageType::Text(t) if t == "hello"));
    assert_eq!(encode_payload(request.content), Some(Bytes::from_static(b"hello")));
    assert!(matches!(requests.try_recv(), Err(TryRecvError::Empty)));
}

#[test]
fn the_target_of_a_client_send_is_not_looked_at() {
    let mut client = connected_client();
    let mut requests = client.take_request_receiver().expect("the writer gets its end");
    let report = client
        .send_message(MessageType::Text("x".to_string()), Some("somebody else".to_string()))
        .expect("sending never fails");
    assert_eq!(report.len(), 1);
    assert_eq!(report[0].connection_id, "10.1.2.3:9000");
    assert!(requests.try_recv().is_ok());
}

#[test]
fn a_client_drops_what_has_no_encoding() {
    let mut client = connected_client();
    let mut requests = client.take_request_receiver().expect("the writer gets its end");
    assert!(client.send_message(MessageType::Hex("abc".to_string()), None).expect("sending never fails").is_empty());
    assert!(client.send_message(MessageType::ClientConnected, None).expect("sending never fails").is_empty());
    assert!(client.send_message(MessageType::ClientDisconnected, None).expect("sending never fails").is_empty());
    assert!(matches!(requests.try_recv(), Err(TryRecvError::Empty)));
    let report = client.send_message(MessageType::Hex("0xFF".to_string()), None).expect("sending never fails");
    assert_eq!(report.len(), 1);
    assert_eq!(report[0].payload, Bytes::from(vec![0xFFu8]));
    let request = requests.try_recv().expect("the request is queued");
    assert!(matches!(&request.content, MessageType::Hex(t) if t == "0xFF"));
    assert_eq!(encode_payload(request.content), Some(Bytes::from(vec![0xFFu8])));
}

#[test]
fn a_client_that_was_not_started_drops_what_it_is_given() {
    let mut client = TcpClientHandler::new(local(), server_peer());
    let report = client.send_message(MessageType::Text("early".to_string()), None).expect("sending never fails");
    assert!(report.is_empty());
}

#[test]
fn a_full_request_channel_drops_the_message() {
    let mut client = connected_client();
    let _requests = client.take_request_receiver().expect("the writer gets its end");
    let mut sent = 0;
    while sent < 100 {
        let report = client.send_message(MessageType::Text("x".to_string()), None).expect("sending never fails");
        assert_eq!(report[0].outcome, SendOutcome::Queued);
        sent += 1;
    }
    let report = client.send_message(MessageType::Text("x".to_string()), None).expect("sending never fails");
    assert_eq!(report[0].outcome, SendOutcome::Full);
}

#[test]
fn text_from_the_server_gives_exactly_one_data_event() {
    let mut client = connected_client();
    let buffer = *b"hi there";
    let step = client.on_read(ReadOutcome::Read(2), &buffer);
    assert!(!step.finished);
    let event = step.event.expect("bytes that came in are published");
    assert!(matches!(&event.content, MessageType::Text(t) if t == "hi"));
    assert_eq!(event.direction, MessageDirection::Received);
    assert!(names_the_peer(&event));
    assert!(client.is_running());
}

#[test]
fn a_server_that_closes_gives_one_closed_event() {
    let mut client = connected_client();
    let step = client.on_read(ReadOutcome::Read(0), &[0u8; 16]);
    assert!(step.finished);
    let event = step.event.expect("a close is published");
    assert!(matches!(event.content, MessageType::ClientDisconnected));
    assert!(names_the_peer(&event));
    assert_eq!(client.state(), ClientState::Disconnected);
    assert!(!client.is_running());
    assert!(client.get_connections().is_empty());
}

#[test]
fn a_failed_read_ends_the_client_reader_without_an_event() {
    let mut client = connected_client();
    let step = client.on_read(ReadOutcome::Failed, &[0u8; 16]);
    assert!(step.finished);
    assert!(step.event.is_none());
    assert_eq!(client.state(), ClientState::Disconnected);
    assert!(!client.is_running());
}

#[test]
fn stopping_a_client_takes_it_through_disconnecting() {
    let mut client = connected_client();
    assert!(client.stop().is_ok());
    assert_eq!(client.state(), ClientState::Disconnecting);
    assert!(!client.is_running());
    assert!(client.get_connections().is_empty());
    client.socket_closed();
    assert_eq!(client.state(), ClientState::Disconnected);
    let step = client.on_read(ReadOutcome::Read(0), &[0u8; 16]);
    assert!(step.finished);
    assert_eq!(client.state(), ClientState::Disconnected);
}

#[test]
fn stopping_a_stopped_client_twice_changes_nothing() {
    let mut client = connected_client();
    assert!(client.stop().is_ok());
    client.socket_closed();
    assert!(client.stop().is_ok());
    assert_eq!(client.state(), ClientState::Disconnected);
    assert!(client.stop().is_ok());
    assert_eq!(client.state(), ClientState::Disconnected);
    let mut fresh = TcpClientHandler::new(local(), server_peer());
    assert!(fresh.stop().is_ok());
    assert!(fresh.stop().is_ok());
    assert_eq!(fresh.state(), ClientState::Created);
}

#[test]
fn a_client_publishes_on_the_channel_it_was_given() {
    let mut client = TcpClientHandler::new(local(), server_peer());
    let (tx, mut rx) = channel::<Message>(8);
    client.set_server_to_ui_sender(tx);
    let event = client
        .start(SetupOutcome::Ready)
        .expect("a connect that succeeded starts the client")
        .expect("the client announces its connection");
    let handle = client.get_server_to_ui_sender().expect("a channel is installed");
    handle.try_send(event).expect("room for one");
    assert!(matches!(rx.try_recv().map(|m| m.content), Ok(MessageType::ClientConnected)));
}

#[test]
fn the_request_for_a_message_is_that_message_on_its_way_to_the_peer() {
    let client = TcpClientHandler::new(local(), server_peer());
    let request = client.request_for(MessageType::Binary(Bytes::from_static(b"\x00\x01")));
    assert_eq!(request.direction, MessageDirection::Sent);
    assert!(matches!(&request.content, MessageType::Binary(b) if b.as_ref() == [0u8, 1]));
    assert!(names_the_peer(&request));
    let request = client.request_for(MessageType::ClientDisconnected);
    assert_eq!(request.direction, MessageDirection::Sent);
    assert!(matches!(request.content, MessageType::ClientDisconnected));
    assert!(names_the_peer(&request));
}
