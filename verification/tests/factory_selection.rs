use netdebug::error::{HandlerError, Operation, Role, Transport};
use netdebug::factory::{create_protocol_handler, parse_transport, plan_handler, select_handler, Handler};
use netdebug::handler::{ProtocolHandler, SetupOutcome};
use netdebug::message::{ConnectionInfo, Message, MessageType, SocketAddress};
use tokio::sync::mpsc::{channel, Sender};

fn local() -> SocketAddress {
    SocketAddress::V4 { octets: [127, 0, 0, 1], port: 7000 }
}

fn peer() -> ConnectionInfo {
    ConnectionInfo {
        remote_addr: SocketAddress::V4 { octets: [127, 0, 0, 1], port: 7001 },
        connection_id: "127.0.0.1:7001".to_string(),
    }
}

fn sender() -> Sender<Message> {
    channel::<Message>(1000).0
}

#[test]
fn transport_names_are_read() {
    assert_eq!(parse_transport("tcp"), Some(Transport::Tcp));
    assert_eq!(parse_transport("udp"), Some(Transport::Udp));
    assert_eq!(parse_transport("websocket"), Some(Transport::WebSocket));
    assert_eq!(parse_transport("http"), Some(Transport::Http));
    assert_eq!(parse_transport("http2"), Some(Transport::Http2));
    assert_eq!(parse_transport("http3"), Some(Transport::Http3));
    assert_eq!(parse_transport("TCP"), None);
    assert_eq!(parse_transport(""), None);
    assert_eq!(parse_transport("tcp "), None);
    assert_eq!(parse_transport("quic"), None);
}

#[test]
fn the_name_of_a_transport_is_read_in_any_case() {
    assert!(matches!(plan_handler("tcp", true, true, false), Ok(Role::Server)));
    assert!(matches!(plan_handler("TCP", true, true, false), Ok(Role::Server)));
    assert!(matches!(plan_handler("Tcp", false, true, true), Ok(Role::Client)));
    assert!(matches!(
        plan_handler("WEBSOC\u{212A}ET", true, true, false),
        Err(HandlerError::NotImplemented(Transport::WebSocket, Role::Server, Operation::Create))
    ));
}

#[test]
fn a_name_already_in_lowercase_is_taken_as_it_is() {
    assert!(matches!(select_handler("tcp", "TCP", true, true, false), Ok(Role::Server)));
    match select_handler("TCP", "TCP", true, true, false) {
        Err(HandlerError::UnsupportedProtocol(name)) => assert_eq!(name, "TCP"),
        _ => panic!("a name in capitals is no transport here"),
    }
}

#[test]
fn a_tcp_client_needs_a_peer() {
    let r = plan_handler("tcp", false, true, false);
    assert!(matches!(r, Err(HandlerError::MissingRemoteAddress)));
    let r = plan_handler("tcp", false, false, false);
    assert!(matches!(r, Err(HandlerError::MissingRemoteAddress)));
    let e = create_protocol_handler("tcp", false, Some(sender()), local(), None, SetupOutcome::Ready)
        .err()
        .expect("a client without a peer is refused");
    assert_eq!(e.message(), "TCP client requires remote address");
}

#[test]
fn a_tcp_handler_needs_the_event_channel() {
    assert!(matches!(plan_handler("tcp", false, false, true), Err(HandlerError::MissingEventSender)));
    assert!(matches!(plan_handler("tcp", true, false, false), Err(HandlerError::MissingEventSender)));
    let e = create_protocol_handler("tcp", false, None, local(), Some(peer()), SetupOutcome::Ready)
        .err()
        .expect("a client without the event channel is refused");
    assert_eq!(e.message(), "Server to UI sender is required");
}

#[test]
fn the_transports_that_are_not_built_are_refused() {
    let cases = vec![
        ("udp", true, "UDP server handler not yet implemented"),
        ("udp", false, "UDP client handler not yet implemented"),
        ("websocket", true, "WebSocket server handler not yet implemented"),
        ("websocket", false, "WebSocket client handler not yet implemented"),
        ("http", true, "HTTP server handler not yet implemented"),
        ("http", false, "HTTP client handler not yet implemented"),
        ("http2", true, "HTTP/2 server handler not yet implemented"),
        ("http2", false, "HTTP/2 client handler not yet implemented"),
        ("http3", true, "HTTP/3 server handler not yet implemented"),
        ("http3", false, "HTTP/3 client handler not yet implemented"),
    ];
    for (name, is_server, text) in cases {
        let e = create_protocol_handler(name, is_server, Some(sender()), local(), Some(peer()), SetupOutcome::Ready)
            .err()
            .expect("a transport that is not built is refused");
        assert!(matches!(e, HandlerError::NotImplemented(_, _, Operation::Create)));
        assert_eq!(e.message(), text);
    }
}

#[test]
fn an_unknown_transport_is_refused_by_its_name() {
    let e = create_protocol_handler("Carrier-Pigeon", true, Some(sender()), local(), None, SetupOutcome::Ready)
        .err()
        .expect("an unknown transport is refused");
    assert!(matches!(&e, HandlerError::UnsupportedProtocol(name) if name == "Carrier-Pigeon"));
    assert_eq!(e.message(), "Unsupported protocol: Carrier-Pigeon");
}

#[test]
fn the_factory_hands_back_a_running_server() {
    let (tx, mut rx) = channel::<Message>(1000);
    let started = create_protocol_handler("tcp", true, Some(tx), local(), None, SetupOutcome::Ready)
        .ok()
        .expect("a bound server is made");
    assert!(started.event.is_none());
    match started.handler {
        Handler::TcpServer(server) => {
            assert!(server.is_running());
            assert_eq!(server.local_addr(), local());
            assert!(server.get_connections().is_empty());
            assert!(server.get_ui_to_server_sender().is_some());
            let handle = server.get_server_to_ui_sender().expect("the event channel is installed");
            handle.try_send(Message::new_received(MessageType::ClientConnected, None)).expect("room for one");
            assert!(rx.try_recv().is_ok());
        }
        Handler::TcpClient(_) => panic!("a server was asked for"),
    }
}

#[test]
fn the_factory_hands_back_a_running_client() {
    let (tx, mut rx) = channel::<Message>(1000);
    let started = create_protocol_handler("Tcp", false, Some(tx), local(), Some(peer()), SetupOutcome::Ready)
        .ok()
        .expect("a connected client is made");
    let event = started.event.expect("a client announces its connection");
    assert!(matches!(event.content, MessageType::ClientConnected));
    assert_eq!(event.connection_info.expect("the event names the peer").connection_id, "127.0.0.1:7001");
    match started.handler {
        Handler::TcpClient(client) => {
            assert!(client.is_running());
            assert_eq!(client.local_addr(), local());
            assert_eq!(client.remote().connection_id, "127.0.0.1:7001");
            assert_eq!(client.get_connections().len(), 1);
            let handle = client.get_server_to_ui_sender().expect("the event channel is installed");
            handle.try_send(Message::new_received(MessageType::ClientConnected, None)).expect("room for one");
            assert!(rx.try_recv().is_ok());
        }
        Handler::TcpServer(_) => panic!("a client was asked for"),
    }
}

#[test]
fn a_setup_that_failed_fails_the_factory() {
    let e = create_protocol_handler(
        "tcp",
        true,
        Some(sender()),
        local(),
        None,
        SetupOutcome::Failed("address in use".to_string()),
    )
    .err()
    .expect("a server that could not bind is not handed back");
    assert!(matches!(&e, HandlerError::Setup(reason) if reason == "address in use"));
    assert_eq!(e.message(), "address in use");
    let e = create_protocol_handler(
        "tcp",
        false,
        Some(sender()),
        local(),
        Some(peer()),
        SetupOutcome::Failed("connection refused".to_string()),
    )
    .err()
    .expect("a client that could not connect is not handed back");
    assert_eq!(e.message(), "connection refused");
}

#[test]
fn a_refusal_comes_before_the_setup_is_looked_at() {
    let e = create_protocol_handler(
        "udp",
        true,
        Some(sender()),
        local(),
        None,
        SetupOutcome::Failed("address in use".to_string()),
    )
    .err()
    .expect("a transport that is not built is refused");
    assert_eq!(e.message(), "UDP server handler not yet implemented");
}

#[test]
fn labels_words_and_phrases_make_up_the_error_texts() {
    assert_eq!(Transport::Tcp.label(), "TCP");
    assert_eq!(Transport::Http2.label(), "HTTP/2");
    assert_eq!(Role::Server.word(), "server");
    assert_eq!(Role::Client.word(), "client");
    assert_eq!(Operation::Create.phrase(), " handler not yet implemented");
    assert_eq!(Operation::Start.phrase(), " handler not yet fully implemented");
    assert_eq!(Operation::Send.phrase(), " send not yet implemented");
    assert_eq!(
        HandlerError::NotImplemented(Transport::Http3, Role::Client, Operation::Send).message(),
        "HTTP/3 client send not yet implemented"
    );
}
