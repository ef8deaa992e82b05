//! The event model shared by every handler: payloads, directions, connection
//! snapshots and the messages that travel on the event bus.

use crate::clock::now;
use bytes::Bytes;
use chrono::NaiveDateTime;
use vstd::prelude::*;

verus! {

#[verifier::external_type_specification]
#[verifier::external_body]
pub struct ExBytes(Bytes);

/// The bytes that a `Bytes` buffer holds, in order.
pub uninterp spec fn bytes_content(b: Bytes) -> Seq<u8>;

/// A buffer holding the bytes of `data`: `Bytes::from` takes over the vector
/// and keeps its contents as they are.
#[verifier::external_body]
pub(crate) fn bytes_from_vec(data: Vec<u8>) -> (b: Bytes)
    ensures
        bytes_content(b) == data@,
{
    Bytes::from(data)
}

/// The contents of `b` as a vector: `Bytes` dereferences to the slice of its
/// bytes, which `to_vec` copies.
#[verifier::external_body]
pub(crate) fn bytes_to_vec(b: &Bytes) -> (data: Vec<u8>)
    ensures
        data@ == bytes_content(*b),
{
    b.to_vec()
}

/// A second handle to the same bytes: `Bytes::clone` shares the buffer and
/// keeps offset and length.
#[verifier::external_body]
pub(crate) fn clone_bytes(b: &Bytes) -> (c: Bytes)
    ensures
        bytes_content(c) == bytes_content(*b),
{
    b.clone()
}

/// A transport address, held as the numbers that make it up.
#[derive(Clone, Copy, Debug, PartialEq, Eq)]
pub enum SocketAddress {
    /// An IPv4 address and a port.
    V4 { octets: [u8; 4], port: u16 },
    /// An IPv6 address, a port, and the flow and scope identifiers.
    V6 { segments: [u16; 8], port: u16, flowinfo: u32, scope_id: u32 },
}

/// Whether a message came in from the network or went out to it.
#[derive(Clone, Copy, Debug, PartialEq, Eq, Structural)]
pub enum MessageDirection {
    /// Read from a connection.
    Received,
    /// Written, or queued to be written, to a connection.
    Sent,
}

/// What a message carries.
#[derive(Debug)]
pub enum MessageType {
    /// Text, sent as its UTF-8 bytes.
    Text(String),
    /// Raw bytes, sent as they are.
    Binary(Bytes),
    /// Hexadecimal digits, sent as the bytes they spell.
    Hex(String),
    /// A connection was opened.
    ClientConnected,
    /// A connection was closed.
    ClientDisconnected,
}

/// The mathematical content of a [`MessageType`].
pub ghost enum MessageContent {
    Text(Seq<char>),
    Binary(Seq<u8>),
    Hex(Seq<char>),
    ClientConnected,
    ClientDisconnected,
}

impl View for MessageType {
    type V = MessageContent;

    open spec fn view(&self) -> MessageContent {
        match *self {
            MessageType::Text(s) => MessageContent::Text(s@),
            MessageType::Binary(b) => MessageContent::Binary(bytes_content(b)),
            MessageType::Hex(s) => MessageContent::Hex(s@),
            MessageType::ClientConnected => MessageContent::ClientConnected,
            MessageType::ClientDisconnected => MessageContent::ClientDisconnected,
        }
    }
}

impl Clone for MessageType {
    fn clone(&self) -> (r: Self)
        ensures
            r@ == self@,
    {
        match self {
            MessageType::Text(s) => MessageType::Text(s.clone()),
            MessageType::Binary(b) => MessageType::Binary(clone_bytes(b)),
            MessageType::Hex(s) => MessageType::Hex(s.clone()),
            MessageType::ClientConnected => MessageType::ClientConnected,
            MessageType::ClientDisconnected => MessageType::ClientDisconnected,
        }
    }
}

/// A snapshot of one connection: its peer and its identifier. It is a copy,
/// never a reference into a registry.
#[derive(Debug)]
pub struct ConnectionInfo {
    /// The peer's address.
    pub remote_addr: SocketAddress,
    /// The identifier that tells this connection from the others.
    pub connection_id: String,
}

/// The mathematical content of a [`ConnectionInfo`].
pub ghost struct ConnectionInfoView {
    pub remote_addr: SocketAddress,
    pub connection_id: Seq<char>,
}

impl View for ConnectionInfo {
    type V = ConnectionInfoView;

    open spec fn view(&self) -> ConnectionInfoView {
        ConnectionInfoView { remote_addr: self.remote_addr, connection_id: self.connection_id@ }
    }
}

impl Clone for ConnectionInfo {
    fn clone(&self) -> (r: Self)
        ensures
            r@ == self@,
    {
        ConnectionInfo {
            remote_addr: self.remote_addr,
            connection_id: self.connection_id.clone(),
        }
    }
}

/// One event on the bus, or one request to send.
#[derive(Debug)]
pub struct Message {
    /// What the message carries.
    pub content: MessageType,
    /// Whether it came in or goes out.
    pub direction: MessageDirection,
    /// When it was made.
    pub timestamp: NaiveDateTime,
    /// The connection it belongs to, where there is one.
    pub connection_info: Option<ConnectionInfo>,
}

/// The mathematical content of a [`Message`]: everything but the time.
pub ghost struct MessageView {
    pub content: MessageContent,
    pub direction: MessageDirection,
    pub connection_info: Option<ConnectionInfoView>,
}

/// The view of an optional connection snapshot.
pub open spec fn connection_view(info: Option<ConnectionInfo>) -> Option<ConnectionInfoView> {
    match info {
        Some(c) => Some(c@),
        None => None,
    }
}

impl View for Message {
    type V = MessageView;

    open spec fn view(&self) -> MessageView {
        MessageView {
            content: self.content@,
            direction: self.direction,
            connection_info: connection_view(self.connection_info),
        }
    }
}

impl Clone for Message {
    fn clone(&self) -> (r: Self)
        ensures
            r@ == self@,
            r.timestamp == self.timestamp,
    {
        let connection_info = match &self.connection_info {
            Some(c) => Some(c.clone()),
            None => None,
        };
        Message {
            content: self.content.clone(),
            direction: self.direction,
            timestamp: self.timestamp,
            connection_info,
        }
    }
}

impl Message {
    /// A message that came in now.
    pub fn new_received(content: MessageType, connection_info: Option<ConnectionInfo>) -> (m:
        Self)
        ensures
            m.content == content,
            m.direction == MessageDirection::Received,
            m.connection_info == connection_info,
    {
        Message { content, direction: MessageDirection::Received, timestamp: now(), connection_info }
    }

    /// A message that goes out now.
    pub fn new_sent(content: MessageType, connection_info: Option<ConnectionInfo>) -> (m: Self)
        ensures
            m.content == content,
            m.direction == MessageDirection::Sent,
            m.connection_info == connection_info,
    {
        Message { content, direction: MessageDirection::Sent, timestamp: now(), connection_info }
    }
}

} // verus!
