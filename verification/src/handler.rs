//! The control surface that every handler offers, whatever its transport,
//! and what a handler and its driver tell each other.
//!
//! A handler does no socket work. Its driver binds or connects, accepts,
//! reads and writes, and reports each outcome to the handler; the handler
//! keeps the state and answers with the event to publish.

use crate::error::HandlerError;
use crate::message::{
    ConnectionInfo, ConnectionInfoView, Message, MessageContent, MessageDirection, MessageType,
    MessageView, SocketAddress,
};
use crate::registry::Delivery;
use tokio::sync::mpsc::Sender;
use vstd::prelude::*;

verus! {

/// How many requests the channel from the consumer to the engine holds.
pub const REQUEST_CHANNEL_CAPACITY: usize = 100;

/// How many chunks the outbound channel of one connection holds.
pub const CLIENT_CHANNEL_CAPACITY: usize = 100;

/// How many signals the control channel holds.
pub const CONTROL_CHANNEL_CAPACITY: usize = 1;

/// The size of the buffer a reader reads into.
pub const READ_BUFFER_SIZE: usize = 4096;

/// How the bind of a listener, or the connect to a peer, ended.
#[derive(Debug)]
pub enum SetupOutcome {
    /// The socket is there.
    Ready,
    /// It could not be had; the text says why.
    Failed(String),
}

/// How one read from a socket ended.
#[derive(Clone, Copy, Debug, PartialEq, Eq, Structural)]
pub enum ReadOutcome {
    /// That many bytes were read into the buffer; none means the peer closed.
    Read(usize),
    /// The read failed.
    Failed,
}

/// What a reader does after one read.
#[derive(Debug)]
pub struct ReaderStep {
    /// The event to publish, if any.
    pub event: Option<Message>,
    /// Whether the reader is done.
    pub finished: bool,
}

/// Whether a reader is done after a read: it is unless bytes came in.
pub open spec fn reader_done(outcome: ReadOutcome) -> bool {
    match outcome {
        ReadOutcome::Read(count) => count == 0,
        ReadOutcome::Failed => true,
    }
}

/// The view of a lifecycle notice about the connection `peer`.
pub open spec fn notice_view(content: MessageContent, peer: ConnectionInfoView) -> MessageView {
    MessageView { content, direction: MessageDirection::Received, connection_info: Some(peer) }
}

/// The view of the event for `text` read from the connection `peer`.
pub open spec fn data_view(text: Seq<char>, peer: ConnectionInfoView) -> MessageView {
    MessageView {
        content: MessageContent::Text(text),
        direction: MessageDirection::Received,
        connection_info: Some(peer),
    }
}

/// The event that says the connection `peer` is open.
pub fn opened_event(peer: &ConnectionInfo) -> (event: Message)
    ensures
        event@ == notice_view(MessageContent::ClientConnected, peer@),
{
    Message::new_received(MessageType::ClientConnected, Some(peer.clone()))
}

/// The event that says the connection `peer` is closed.
pub fn closed_event(peer: &ConnectionInfo) -> (event: Message)
    ensures
        event@ == notice_view(MessageContent::ClientDisconnected, peer@),
{
    Message::new_received(MessageType::ClientDisconnected, Some(peer.clone()))
}

/// The event for `text` that came in on the connection `peer`.
pub fn data_event(text: String, peer: &ConnectionInfo) -> (event: Message)
    ensures
        event@ == data_view(text@, peer@),
{
    Message::new_received(MessageType::Text(text), Some(peer.clone()))
}

/// The identifiers of a delivery report, in its order.
pub open spec fn report_ids(report: Seq<Delivery>) -> Seq<Seq<char>> {
    Seq::new(report.len(), |i: int| report[i].connection_id@)
}

/// The views of a list of connection snapshots, in its order.
pub open spec fn snapshot_views(list: Seq<ConnectionInfo>) -> Seq<ConnectionInfoView> {
    Seq::new(list.len(), |i: int| list[i]@)
}

/// The mathematical content of a handler whose transport is reserved but not
/// built: the addresses it was made with and the channel installed for its
/// events.
pub ghost struct ReservedView {
    /// The local address, where the handler has one.
    pub local_addr: Option<SocketAddress>,
    /// The address of the peer, where the handler has one.
    pub remote_addr: Option<SocketAddress>,
    /// The handle on which events would be published.
    pub event_tx: Option<Sender<Message>>,
}

/// The control surface of a handler.
pub trait ProtocolHandler: Sized {
    /// Whether the handler is valid.
    spec fn valid(&self) -> bool;

    /// Whether the handler is running.
    spec fn running(&self) -> bool;

    /// The connections of the handler, as a snapshot lists them.
    spec fn connections(&self) -> Seq<ConnectionInfoView>;

    /// Whether the handler has a channel on which the consumer queues requests.
    spec fn accepts_requests(&self) -> bool;

    /// Starts the handler, given how the bind or connect that its transport
    /// needs ended. The handler runs afterwards exactly if the start
    /// succeeded, and a setup that failed fails the start. The result of a
    /// start that succeeded is the event to publish for it, if there is one.
    fn start(&mut self, setup: SetupOutcome) -> (r: Result<Option<Message>, HandlerError>)
        requires
            old(self).valid(),
        ensures
            final(self).valid(),
            final(self).running() == (r is Ok),
            setup is Failed ==> r is Err,
    ;

    /// Stops the handler. It never fails; the handler does not run
    /// afterwards, and one that did not run is left as it is.
    fn stop(&mut self) -> (r: Result<(), HandlerError>)
        requires
            old(self).valid(),
        ensures
            final(self).valid(),
            r is Ok,
            !final(self).running(),
            !old(self).running() ==> *final(self) == *old(self),
    ;

    /// Sends `message` to the connection that `target` names, or to all of
    /// them, and reports what became of it at each. Whether the handler
    /// runs, which connections it has and whether it takes requests stay as
    /// they are.
    fn send_message(&mut self, message: MessageType, target: Option<String>) -> (r: Result<
        Vec<Delivery>,
        HandlerError,
    >)
        requires
            old(self).valid(),
        ensures
            final(self).valid(),
            final(self).running() == old(self).running(),
            final(self).connections() == old(self).connections(),
            final(self).accepts_requests() == old(self).accepts_requests(),
    ;

    /// A handle on which the consumer queues requests, if the handler has
    /// such a channel.
    fn get_ui_to_server_sender(&self) -> (r: Option<Sender<Message>>)
        ensures
            r is Some <==> self.accepts_requests(),
    ;

    /// Installs the channel that events are published on.
    fn set_server_to_ui_sender(&mut self, sender: Sender<Message>)
        requires
            old(self).valid(),
        ensures
            final(self).valid(),
            final(self).running() == old(self).running(),
            final(self).connections() == old(self).connections(),
            final(self).accepts_requests() == old(self).accepts_requests(),
    ;

    /// Whether the handler is running.
    fn is_running(&self) -> (r: bool)
        ensures
            r == self.running(),
    ;

    /// A snapshot of the connections, as they are now.
    fn get_connections(&self) -> (list: Vec<ConnectionInfo>)
        ensures
            snapshot_views(list@) == self.connections(),
    ;

    /// The name of the protocol, for display.
    fn protocol_name(&self) -> (name: &'static str);
}

} // verus!
