use bytes::Bytes;
use netdebug::console::{
    add_received_message, receive_message, send_message, stamp_line, Console, DisplayFormat, InputMode, Key,
    Modifiers, Stats, ViewUpdate,
};
use netdebug::message::{ConnectionInfo, Message, MessageType, SocketAddress};

fn info() -> ConnectionInfo {
    ConnectionInfo {
        remote_addr: SocketAddress::V4 { octets: [127, 0, 0, 1], port: 5555 },
        connection_id: "127.0.0.1:5555".to_string(),
    }
}

fn is_clock(text: &str) -> bool {
    let b = text.as_bytes();
    b.len() == 8
        && b[2] == b':'
        && b[5] == b':'
        && [0usize, 1, 3, 4, 6, 7].iter().all(|i| b[*i].is_ascii_digit())
}

#[test]
fn a_new_console_is_in_normal_mode() {
    let console = Console::new();
    assert!(!console.should_quit());
    assert_eq!(console.input_mode(), InputMode::Normal);
    assert_eq!(console.input_line(), None);
}

#[test]
fn control_c_asks_to_quit() {
    let mut console = Console::new();
    assert_eq!(console.handle_key_event(Key::Char('c'), Modifiers::Plain), None);
    assert!(!console.should_quit());
    assert_eq!(console.handle_key_event(Key::Char('c'), Modifiers::Other), None);
    assert!(!console.should_quit());
    assert_eq!(console.handle_key_event(Key::Char('c'), Modifiers::Control), None);
    assert!(console.should_quit());
    assert_eq!(console.input_mode(), InputMode::Normal);
}

#[test]
fn a_plain_i_opens_the_input_dialog() {
    let mut console = Console::new();
    assert_eq!(console.handle_key_event(Key::Char('i'), Modifiers::Control), None);
    assert_eq!(console.input_mode(), InputMode::Normal);
    assert_eq!(console.handle_key_event(Key::Char('x'), Modifiers::Plain), None);
    assert_eq!(console.handle_key_event(Key::Enter, Modifiers::Plain), None);
    assert_eq!(console.input_mode(), InputMode::Normal);
    assert_eq!(console.handle_key_event(Key::Char('i'), Modifiers::Plain), None);
    assert_eq!(console.input_mode(), InputMode::Editing);
    assert_eq!(console.input_line(), Some(String::new()));
}

#[test]
fn typing_builds_the_line_and_enter_submits_it() {
    let mut console = Console::new();
    console.handle_key_event(Key::Char('i'), Modifiers::Plain);
    assert_eq!(console.handle_key_event(Key::Char('h'), Modifiers::Plain), None);
    assert_eq!(console.handle_key_event(Key::Char('e'), Modifiers::Plain), None);
    assert_eq!(console.handle_key_event(Key::Char('y'), Modifiers::Plain), None);
    assert_eq!(console.input_line(), Some("hey".to_string()));
    assert_eq!(console.handle_key_event(Key::Backspace, Modifiers::Plain), None);
    assert_eq!(console.input_line(), Some("he".to_string()));
    assert_eq!(console.handle_key_event(Key::Char('l'), Modifiers::Other), None);
    assert_eq!(console.handle_key_event(Key::Char('l'), Modifiers::Plain), None);
    assert_eq!(console.handle_key_event(Key::Char('o'), Modifiers::Plain), None);
    assert_eq!(console.handle_key_event(Key::Other, Modifiers::Plain), None);
    assert_eq!(console.input_line(), Some("hello".to_string()));
    assert_eq!(console.handle_key_event(Key::Enter, Modifiers::Plain), Some("hello".to_string()));
    assert_eq!(console.input_mode(), InputMode::Normal);
    assert_eq!(console.input_line(), None);
    assert!(!console.should_quit());
}

#[test]
fn control_c_is_a_character_while_editing() {
    let mut console = Console::new();
    console.handle_key_event(Key::Char('i'), Modifiers::Plain);
    assert_eq!(console.handle_key_event(Key::Char('c'), Modifiers::Control), None);
    assert!(!console.should_quit());
    assert_eq!(console.input_line(), Some("c".to_string()));
}

#[test]
fn backspace_on_an_empty_line_leaves_it_empty() {
    let mut console = Console::new();
    console.handle_key_event(Key::Char('i'), Modifiers::Plain);
    assert_eq!(console.handle_key_event(Key::Backspace, Modifiers::Plain), None);
    assert_eq!(console.input_line(), Some(String::new()));
    assert_eq!(console.handle_key_event(Key::Enter, Modifiers::Plain), Some(String::new()));
}

#[test]
fn escape_closes_the_dialog_without_submitting() {
    let mut console = Console::new();
    console.handle_key_event(Key::Char('i'), Modifiers::Plain);
    console.handle_key_event(Key::Char('x'), Modifiers::Plain);
    assert_eq!(console.handle_key_event(Key::Esc, Modifiers::Plain), None);
    assert_eq!(console.input_mode(), InputMode::Normal);
    assert_eq!(console.input_line(), None);
    console.handle_key_event(Key::Char('i'), Modifiers::Plain);
    assert_eq!(console.input_line(), Some(String::new()));
}

#[test]
fn counters_start_at_zero_and_add_up() {
    let mut stats = Stats::default();
    assert_eq!(stats.sent_bytes, 0);
    assert_eq!(stats.received_bytes, 0);
    assert!(!stats.connected);
    let started = stats.last_activity;
    stats.record_sent(5);
    stats.record_sent(7);
    stats.record_received(3);
    assert_eq!(stats.sent_bytes, 12);
    assert_eq!(stats.received_bytes, 3);
    assert!(stats.last_activity >= started);
    stats.set_connected(true);
    assert!(stats.connected);
    assert_eq!(stats.sent_bytes, 12);
    stats.set_connected(false);
    assert!(!stats.connected);
}

#[test]
fn a_line_is_stamped_with_time_and_sender() {
    assert_eq!(stamp_line("12:34:56", &None, "hello"), "[12:34:56] hello");
    assert_eq!(
        stamp_line("12:34:56", &Some("10.0.0.1:80".to_string()), "hello"),
        "[12:34:56] [10.0.0.1:80] hello"
    );
    assert_eq!(stamp_line("", &None, ""), "[] ");
}

#[test]
fn a_sent_message_is_counted_and_stamped() {
    let mut stats = Stats::default();
    let line = send_message(&mut stats, "h\u{e9}llo");
    assert_eq!(stats.sent_bytes, 6);
    assert_eq!(stats.received_bytes, 0);
    assert!(line.starts_with('['));
    assert!(is_clock(&line[1..9]));
    assert_eq!(&line[9..], "] h\u{e9}llo");
}

#[test]
fn a_received_message_is_counted_and_stamped() {
    let mut stats = Stats::default();
    let line = add_received_message(&mut stats, "pong", &None);
    assert_eq!(stats.received_bytes, 4);
    assert_eq!(stats.sent_bytes, 0);
    assert!(is_clock(&line[1..9]));
    assert_eq!(&line[9..], "] pong");
    let line = add_received_message(&mut stats, "pong", &Some("peer".to_string()));
    assert_eq!(stats.received_bytes, 8);
    assert!(is_clock(&line[1..9]));
    assert_eq!(&line[9..], "] [peer] pong");
}

#[test]
fn events_are_shown_by_their_kind() {
    let text = Message::new_received(MessageType::Text("hello".to_string()), Some(info()));
    assert!(matches!(receive_message(&text), ViewUpdate::Line(l) if l == "hello"));
    let binary = Message::new_received(MessageType::Binary(Bytes::from(vec![0u8, 0x0a, 0xff])), None);
    assert!(matches!(receive_message(&binary), ViewUpdate::Line(l) if l == "[Binary] 000aff"));
    let hex = Message::new_received(MessageType::Hex("DE AD".to_string()), None);
    assert!(matches!(receive_message(&hex), ViewUpdate::Line(l) if l == "[Hex] DE AD"));
    let opened = Message::new_received(MessageType::ClientConnected, Some(info()));
    assert!(matches!(receive_message(&opened), ViewUpdate::Opened(id) if id == "127.0.0.1:5555"));
    let closed = Message::new_received(MessageType::ClientDisconnected, Some(info()));
    assert!(matches!(receive_message(&closed), ViewUpdate::Closed(id) if id == "127.0.0.1:5555"));
}

#[test]
fn a_notice_without_a_connection_shows_as_nothing() {
    let opened = Message::new_received(MessageType::ClientConnected, None);
    assert!(matches!(receive_message(&opened), ViewUpdate::Nothing));
    let closed = Message::new_received(MessageType::ClientDisconnected, None);
    assert!(matches!(receive_message(&closed), ViewUpdate::Nothing));
}

#[test]
fn display_formats_are_told_apart() {
    assert_ne!(DisplayFormat::String, DisplayFormat::Hex);
    assert_eq!(DisplayFormat::Hex, DisplayFormat::Hex);
}
