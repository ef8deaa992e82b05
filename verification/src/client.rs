//! The TCP client engine: the handler of the one connection to a peer, and
//! the decisions its reader takes.
//!
//! As with the server, whoever drives the handler does the socket work and
//! tells the handler what happened. The handler keeps a record, for proofs
//! only, of every request it offers to its request channel.

use crate::channel::{clone_sender, try_send, SendOutcome};
use crate::error::HandlerError;
use crate::lifecycle::{client_step, ClientEvent, ClientState};
use crate::message::{
    ConnectionInfo, ConnectionInfoView, Message, MessageContent, MessageDirection, MessageType,
    MessageView, SocketAddress,
};
use crate::payload::{decode_lossy, encode_payload, encoded, lossy_text};
use crate::registry::{
    offered, record_delivery, report_outcomes, report_view, Delivery, DeliveryView,
};
use crate::handler::{
    closed_event, data_event, data_view, notice_view, opened_event, reader_done, report_ids,
    snapshot_views, ProtocolHandler, ReadOutcome, ReaderStep, SetupOutcome,
    REQUEST_CHANNEL_CAPACITY,
};
use tokio::sync::mpsc::{Receiver, Sender};
use vstd::prelude::*;
use vstd::slice::slice_subrange;
use vstd::utf8::{encode_utf8, valid_utf8};

verus! {

/// The mathematical content of a client handler.
pub ghost struct ClientView {
    /// The local address.
    pub local_addr: SocketAddress,
    /// The peer: its address and the identifier of the connection to it.
    pub remote: ConnectionInfoView,
    /// Where the handler is in its life.
    pub state: ClientState,
    /// The handle on which requests are queued for the writer.
    pub request_tx: Option<Sender<Message>>,
    /// The end of the request channel that the writer drains, until it is taken.
    pub request_rx: Option<Receiver<Message>>,
    /// The handle on which events are published.
    pub event_tx: Option<Sender<Message>>,
    /// Every request that was offered to the request channel by a send, in
    /// the order they were offered.
    pub queued: Seq<MessageView>,
}

/// The handler of a TCP client.
pub struct TcpClientHandler {
    queued: Ghost<Seq<MessageView>>,
    local_addr: SocketAddress,
    remote: ConnectionInfo,
    ui_to_server_rx: Option<Receiver<Message>>,
    ui_to_server_tx: Option<Sender<Message>>,
    server_to_ui_tx: Option<Sender<Message>>,
    state: ClientState,
}

impl View for TcpClientHandler {
    type V = ClientView;

    closed spec fn view(&self) -> ClientView {
        ClientView {
            local_addr: self.local_addr,
            remote: self.remote@,
            state: self.state,
            request_tx: self.ui_to_server_tx,
            request_rx: self.ui_to_server_rx,
            event_tx: self.server_to_ui_tx,
            queued: self.queued@,
        }
    }
}

/// The state of a client after its reader has made one read: the socket
/// counts as closed where the reader is done.
pub open spec fn state_after_read(state: ClientState, outcome: ReadOutcome) -> ClientState {
    if reader_done(outcome) {
        client_step(state, ClientEvent::SocketClosed)
    } else {
        state
    }
}

/// Whom a send through a client reaches: its one peer, if the content has an
/// encoding and the client has been started, and nobody otherwise.
pub open spec fn client_addressed(client: ClientView, content: MessageContent) -> Seq<Seq<char>> {
    if encoded(content) is Some && client.request_tx is Some {
        seq![client.remote.connection_id]
    } else {
        Seq::empty()
    }
}

/// The request that a client queues for `content`: the content as it is, on
/// its way out, for the connection to the peer.
pub open spec fn request_view(client: ClientView, content: MessageContent) -> MessageView {
    MessageView {
        content,
        direction: MessageDirection::Sent,
        connection_info: Some(client.remote),
    }
}

/// The requests that a send of `content` through a client offers to the
/// request channel: the one request for the content, if the content has an
/// encoding and the client has been started; none otherwise.
pub open spec fn client_offers(client: ClientView, content: MessageContent) -> Seq<MessageView> {
    if encoded(content) is Some && client.request_tx is Some {
        seq![request_view(client, content)]
    } else {
        Seq::empty()
    }
}

/// The report of a send of `content` through a client, where the request
/// channel answered with `outcomes`: one delivery to the peer, with the bytes
/// that stand for the request, if the content has an encoding and the client
/// has been started; nothing otherwise.
pub open spec fn client_report(
    client: ClientView,
    content: MessageContent,
    outcomes: Seq<SendOutcome>,
) -> Seq<DeliveryView> {
    match encoded(request_view(client, content).content) {
        Some(payload) => if client.request_tx is Some {
            offered(seq![client.remote.connection_id], payload, outcomes)
        } else {
            Seq::empty()
        },
        None => Seq::empty(),
    }
}

/// The connections of a client: its peer while it is connected, none otherwise.
pub open spec fn client_connections(client: ClientView) -> Seq<ConnectionInfoView> {
    if client.state == ClientState::Connected {
        seq![client.remote]
    } else {
        Seq::empty()
    }
}

impl TcpClientHandler {
    /// A handler for a client that will connect from `local_addr` to `remote`,
    /// not started.
    pub fn new(local_addr: SocketAddress, remote: ConnectionInfo) -> (handler: Self)
        ensures
            handler@ == (ClientView {
                local_addr,
                remote: remote@,
                state: ClientState::Created,
                request_tx: None,
                request_rx: None,
                event_tx: None,
                queued: Seq::empty(),
            }),
    {
        TcpClientHandler {
            queued: Ghost(Seq::empty()),
            local_addr,
            remote,
            ui_to_server_rx: None,
            ui_to_server_tx: None,
            server_to_ui_tx: None,
            state: ClientState::Created,
        }
    }

    /// Notes that the socket is shut down.
    pub fn socket_closed(&mut self)
        ensures
            final(self)@ == (ClientView {
                state: client_step(old(self)@.state, ClientEvent::SocketClosed),
                ..old(self)@
            }),
    {
        self.state = self.state.on(ClientEvent::SocketClosed);
    }

    /// Decides what the reader does after one read.
    ///
    /// No bytes: the peer closed, so the closed event is to be published and
    /// the reader is done. Some bytes: they are read as text, lossily, and
    /// published; the reader goes on. Bytes that are valid UTF-8 are read as
    /// the text they encode. A failed read: the reader is done and no event
    /// is published. Where the reader is done the socket counts as closed.
    pub fn on_read(&mut self, outcome: ReadOutcome, buffer: &[u8]) -> (step: ReaderStep)
        requires
            outcome matches ReadOutcome::Read(count) ==> count <= buffer@.len(),
        ensures
            final(self)@ == (ClientView {
                state: state_after_read(old(self)@.state, outcome),
                ..old(self)@
            }),
            step.finished == reader_done(outcome),
            match outcome {
                ReadOutcome::Read(count) => {
                    let data = buffer@.subrange(0, count as int);
                    &&& step.event is Some
                    &&& step.event.unwrap()@ == (if count == 0 {
                        notice_view(MessageContent::ClientDisconnected, old(self)@.remote)
                    } else {
                        data_view(lossy_text(data), old(self)@.remote)
                    })
                    &&& count > 0 && valid_utf8(data) ==> encode_utf8(lossy_text(data)) == data
                },
                ReadOutcome::Failed => step.event is None,
            },
    {
        match outcome {
            ReadOutcome::Read(count) => {
                if count == 0 {
                    self.state = self.state.on(ClientEvent::SocketClosed);
                    ReaderStep { event: Some(closed_event(&self.remote)), finished: true }
                } else {
                    let text = decode_lossy(slice_subrange(buffer, 0, count));
                    ReaderStep { event: Some(data_event(text, &self.remote)), finished: false }
                }
            },
            ReadOutcome::Failed => {
                self.state = self.state.on(ClientEvent::SocketClosed);
                ReaderStep { event: None, finished: true }
            },
        }
    }

    /// Makes the request that is queued for `message`: the message as it
    /// is, on its way out, for the connection to the peer.
    pub fn request_for(&self, message: MessageType) -> (request: Message)
        ensures
            request@ == request_view(self@, message@),
    {
        Message::new_sent(message, Some(self.remote.clone()))
    }

    /// A handle on which to publish events, where a channel is installed.
    pub fn get_server_to_ui_sender(&self) -> (r: Option<Sender<Message>>)
        ensures
            r is Some <==> self@.event_tx is Some,
    {
        match &self.server_to_ui_tx {
            Some(tx) => Some(clone_sender(tx)),
            None => None,
        }
    }

    /// Hands over the end of the request channel that the writer drains.
    pub fn take_request_receiver(&mut self) -> (r: Option<Receiver<Message>>)
        ensures
            r == old(self)@.request_rx,
            final(self)@ == (ClientView { request_rx: None, ..old(self)@ }),
    {
        self.ui_to_server_rx.take()
    }

    /// Where the client is in its life.
    pub fn state(&self) -> (r: ClientState)
        ensures
            r == self@.state,
    {
        self.state
    }

    /// The local address.
    pub fn local_addr(&self) -> (r: SocketAddress)
        ensures
            r == self@.local_addr,
    {
        self.local_addr
    }

    /// The peer.
    pub fn remote(&self) -> (r: ConnectionInfo)
        ensures
            r@ == self@.remote,
    {
        self.remote.clone()
    }

}

impl ProtocolHandler for TcpClientHandler {
    open spec fn valid(&self) -> bool {
        true
    }

    open spec fn running(&self) -> bool {
        self@.state == ClientState::Connected
    }

    open spec fn connections(&self) -> Seq<ConnectionInfoView> {
        client_connections(self@)
    }

    open spec fn accepts_requests(&self) -> bool {
        self@.request_tx is Some
    }

    /// Starts the client, given how the connect to its peer ended.
    ///
    /// After a connect that succeeded the handler is connected, with a fresh
    /// request channel, and the result is the opened event to publish. After
    /// one that failed it is not started, and the error carries the reason.
    fn start(&mut self, setup: SetupOutcome) -> (r: Result<Option<Message>, HandlerError>)
        ensures
            final(self)@.state == client_step(
                client_step(old(self)@.state, ClientEvent::StartRequested),
                if setup is Ready {
                    ClientEvent::Connected
                } else {
                    ClientEvent::ConnectFailed
                },
            ),
            final(self)@.local_addr == old(self)@.local_addr,
            final(self)@.remote == old(self)@.remote,
            final(self)@.event_tx == old(self)@.event_tx,
            final(self)@.queued == old(self)@.queued,
            match setup {
                SetupOutcome::Ready => {
                    &&& r is Ok
                    &&& r.unwrap() is Some
                    &&& r.unwrap().unwrap()@ == notice_view(
                        MessageContent::ClientConnected,
                        old(self)@.remote,
                    )
                    &&& final(self)@.state == ClientState::Connected
                    &&& final(self)@.request_tx is Some
                    &&& final(self)@.request_rx is Some
                },
                SetupOutcome::Failed(reason) => {
                    &&& r == Err::<Option<Message>, HandlerError>(HandlerError::Setup(reason))
                    &&& final(self)@ == (ClientView { state: ClientState::Created, ..old(self)@ })
                },
            },
    {
        self.state = self.state.on(ClientEvent::StartRequested);
        match setup {
            SetupOutcome::Ready => {
                let (request_tx, request_rx) = tokio::sync::mpsc::channel::<Message>(
                    REQUEST_CHANNEL_CAPACITY,
                );
                self.ui_to_server_tx = Some(request_tx);
                self.ui_to_server_rx = Some(request_rx);
                self.state = self.state.on(ClientEvent::Connected);
                Ok(Some(opened_event(&self.remote)))
            },
            SetupOutcome::Failed(reason) => {
                self.state = self.state.on(ClientEvent::ConnectFailed);
                Err(HandlerError::Setup(reason))
            },
        }
    }

    /// Stops the client: a connected one is disconnecting afterwards, and its
    /// socket is to be shut down; any other is left as it is.
    fn stop(&mut self) -> (r: Result<(), HandlerError>)
        ensures
            final(self)@ == (ClientView {
                state: client_step(old(self)@.state, ClientEvent::StopRequested),
                ..old(self)@
            }),
    {
        self.state = self.state.on(ClientEvent::StopRequested);
        Ok(())
    }

    /// Queues `message` for the writer, without waiting, and reports what
    /// became of it. There is one peer, so `target` is not looked at.
    ///
    /// Sending never fails. What is offered to the request channel is the
    /// request that `request_for` makes of the message, once, and the report
    /// has one delivery, to the peer, with the bytes that stand for that
    /// request. A message without an encoding (a lifecycle notice, hex text
    /// that does not decode) is dropped, and so is any message before the
    /// client has been started: the report is then empty, and nothing is
    /// offered to the channel. Nothing else changes.
    fn send_message(&mut self, message: MessageType, target: Option<String>) -> (r: Result<
        Vec<Delivery>,
        HandlerError,
    >)
        ensures
            final(self)@ == (ClientView {
                queued: old(self)@.queued + client_offers(old(self)@, message@),
                ..old(self)@
            }),
            r is Ok,
            report_view(r.unwrap()@) == client_report(
                old(self)@,
                message@,
                report_outcomes(r.unwrap()@),
            ),
            report_ids(r.unwrap()@) == client_addressed(old(self)@, message@),
    {
        let mut report: Vec<Delivery> = Vec::new();
        match (encode_payload(message.clone()), &self.ui_to_server_tx) {
            (Some(payload), Some(tx)) => {
                let request = self.request_for(message);
                let ghost queued = self.queued@.push(request@);
                let outcome = try_send(tx, request);
                report.push(record_delivery(self.remote.connection_id.clone(), payload, outcome));
                self.queued = Ghost(queued);
                assert(self@.queued =~= old(self)@.queued + client_offers(old(self)@, message@));
            },
            _ => {
                assert(self@.queued =~= old(self)@.queued + client_offers(old(self)@, message@));
            },
        }
        assert(report_ids(report@) =~= client_addressed(self@, message@));
        assert(report_view(report@) =~= client_report(self@, message@, report_outcomes(report@)));
        Ok(report)
    }

    fn get_ui_to_server_sender(&self) -> (r: Option<Sender<Message>>) {
        match &self.ui_to_server_tx {
            Some(tx) => Some(clone_sender(tx)),
            None => None,
        }
    }

    fn set_server_to_ui_sender(&mut self, sender: Sender<Message>)
        ensures
            final(self)@ == (ClientView { event_tx: Some(sender), ..old(self)@ }),
    {
        self.server_to_ui_tx = Some(sender);
    }

    fn is_running(&self) -> (r: bool) {
        self.state.is_running()
    }

    /// The connections of the client: its peer while it is connected.
    fn get_connections(&self) -> (list: Vec<ConnectionInfo>) {
        let mut list: Vec<ConnectionInfo> = Vec::new();
        if self.state.is_running() {
            list.push(self.remote.clone());
        }
        assert(snapshot_views(list@) =~= client_connections(self@));
        list
    }

    fn protocol_name(&self) -> (name: &'static str)
        ensures
            name@ == "TCP Client"@,
    {
        "TCP Client"
    }
}

} // verus!
