//! The TCP server engine: the handler that owns the session registry, and the
//! decisions its accept loop and its readers take.

use crate::channel::{clone_sender, try_send};
use crate::error::HandlerError;
use crate::handler::{
    closed_event, data_event, data_view, notice_view, opened_event, reader_done, report_ids,
    snapshot_views, ProtocolHandler, ReadOutcome, ReaderStep, SetupOutcome,
    CLIENT_CHANNEL_CAPACITY, CONTROL_CHANNEL_CAPACITY, REQUEST_CHANNEL_CAPACITY,
};
use crate::lifecycle::{server_step, ServerEvent, ServerState};
use crate::message::{
    ConnectionInfo, ConnectionInfoView, Message, MessageContent, MessageType, MessageView,
    SocketAddress,
};
use crate::payload::{decode_lossy, encode_payload, encoded, lossy_text};
use crate::channel::SendOutcome;
use crate::registry::{
    distinct_ids, entry_ids, has_id, lemma_with_entry, lemma_without_id, offered, offers_to,
    recipients, report_outcomes, report_view, target_view, with_entry, without_id, Delivery,
    DeliveryView, EntryView, Offer, Registry,
};
use bytes::Bytes;
use tokio::sync::mpsc::{Receiver, Sender};
use vstd::prelude::*;
use vstd::slice::slice_subrange;
use vstd::utf8::{encode_utf8, valid_utf8};

verus! {

/// What the accept loop gets for a new connection.
pub struct Accepted {
    /// The event to publish.
    pub event: Message,
    /// Where the connection's writer takes its bytes from.
    pub outbound: Receiver<Bytes>,
}

/// The snapshots of registry entries, in their order.
pub open spec fn entry_infos(entries: Seq<EntryView>) -> Seq<ConnectionInfoView> {
    Seq::new(entries.len(), |i: int| entries[i].info)
}

/// The connections that a send of `content` to `target` addresses: those that
/// the target names, if the content has an encoding, and none otherwise.
pub open spec fn addressed(
    entries: Seq<EntryView>,
    content: MessageContent,
    target: Option<Seq<char>>,
) -> Seq<Seq<char>> {
    if encoded(content) is Some {
        entry_ids(recipients(entries, target))
    } else {
        Seq::empty()
    }
}

/// The report of a send of `content` to `target`, where the channels answered
/// with `outcomes`: the bytes that stand for the content, offered to each
/// connection that the target names, and nothing where the content has no
/// encoding.
pub open spec fn sent_report(
    entries: Seq<EntryView>,
    content: MessageContent,
    target: Option<Seq<char>>,
    outcomes: Seq<SendOutcome>,
) -> Seq<DeliveryView> {
    match encoded(content) {
        Some(payload) => offered(entry_ids(recipients(entries, target)), payload, outcomes),
        None => Seq::empty(),
    }
}

/// The offers that a send of `content` to `target` makes: the bytes that
/// stand for the content, to the channel of each connection that the target
/// names, and none where the content has no encoding.
pub open spec fn sent_offers(
    entries: Seq<EntryView>,
    content: MessageContent,
    target: Option<Seq<char>>,
) -> Seq<Offer> {
    match encoded(content) {
        Some(payload) => offers_to(recipients(entries, target), payload),
        None => Seq::empty(),
    }
}

/// The connection that a request is for: the one it names, or none, which
/// stands for all of them.
pub open spec fn request_target(request: MessageView) -> Option<Seq<char>> {
    match request.connection_info {
        Some(info) => Some(info.connection_id),
        None => None,
    }
}

/// The mathematical content of a server handler.
pub ghost struct ServerView {
    /// The address to listen on.
    pub local_addr: SocketAddress,
    /// The registry.
    pub connections: Seq<EntryView>,
    /// Every offer of bytes that was made to a channel of the registry, in
    /// the order they were made.
    pub offers: Seq<Offer>,
    /// Where the handler is in its life.
    pub state: ServerState,
    /// The handle that signals the accept loop to stop.
    pub control_tx: Option<Sender<()>>,
    /// The end of the control channel that the accept loop listens on, until
    /// the loop takes it.
    pub control_rx: Option<Receiver<()>>,
    /// The handle on which the consumer queues requests.
    pub request_tx: Option<Sender<Message>>,
    /// The end of the request channel that the engine drains, until it is taken.
    pub request_rx: Option<Receiver<Message>>,
    /// The handle on which events are published.
    pub event_tx: Option<Sender<Message>>,
}

/// The handler of a TCP server.
pub struct TcpServerHandler {
    local_addr: SocketAddress,
    clients: Registry,
    control_tx: Option<Sender<()>>,
    control_rx: Option<Receiver<()>>,
    ui_to_server_tx: Option<Sender<Message>>,
    ui_to_server_rx: Option<Receiver<Message>>,
    server_to_ui_tx: Option<Sender<Message>>,
    state: ServerState,
}

impl View for TcpServerHandler {
    type V = ServerView;

    closed spec fn view(&self) -> ServerView {
        ServerView {
            local_addr: self.local_addr,
            connections: self.clients@,
            offers: self.clients.offers(),
            state: self.state,
            control_tx: self.control_tx,
            control_rx: self.control_rx,
            request_tx: self.ui_to_server_tx,
            request_rx: self.ui_to_server_rx,
            event_tx: self.server_to_ui_tx,
        }
    }
}

impl TcpServerHandler {
    /// A handler for a server on `local_addr`, not started, without connections.
    pub fn new(local_addr: SocketAddress) -> (handler: Self)
        ensures
            handler.valid(),
            handler@ == (ServerView {
                local_addr,
                connections: Seq::empty(),
                offers: Seq::empty(),
                state: ServerState::Created,
                control_tx: None,
                control_rx: None,
                request_tx: None,
                request_rx: None,
                event_tx: None,
            }),
    {
        TcpServerHandler {
            local_addr,
            clients: Registry::new(),
            control_tx: None,
            control_rx: None,
            ui_to_server_tx: None,
            ui_to_server_rx: None,
            server_to_ui_tx: None,
            state: ServerState::Created,
        }
    }

    /// Notes that the accept loop found its control channel signalled or
    /// closed. The loop leaves in either case, so the answer is always `true`.
    pub fn control_observed(&mut self) -> (leave: bool)
        ensures
            leave,
            final(self)@ == (ServerView {
                state: server_step(old(self)@.state, ServerEvent::ControlClosed),
                ..old(self)@
            }),
    {
        self.state = self.state.on(ServerEvent::ControlClosed);
        true
    }

    /// Notes that the accept loop has left.
    pub fn accept_loop_exited(&mut self)
        ensures
            final(self)@ == (ServerView {
                state: server_step(old(self)@.state, ServerEvent::AcceptLoopExited),
                ..old(self)@
            }),
    {
        self.state = self.state.on(ServerEvent::AcceptLoopExited);
    }

    /// Takes in a connection that the listener accepted: makes its outbound
    /// channel, registers it, and hands back the event to publish and the end
    /// of the channel for its writer. The connection is registered before the
    /// event exists.
    pub fn on_accept(&mut self, peer: ConnectionInfo) -> (accepted: Accepted)
        requires
            old(self).valid(),
        ensures
            final(self).valid(),
            exists|tx: Sender<Bytes>| final(self)@ == #[trigger] after_accept(old(self)@, peer, tx),
            accepted.event@ == notice_view(MessageContent::ClientConnected, peer@),
    {
        let (tx, outbound) = tokio::sync::mpsc::channel::<Bytes>(CLIENT_CHANNEL_CAPACITY);
        let event = opened_event(&peer);
        let ghost entry = EntryView { info: peer@, tx };
        self.clients.insert(peer, tx);
        assert(self@ == after_accept(old(self)@, peer, entry.tx));
        Accepted { event, outbound }
    }

    /// Decides what the reader of the connection `peer` does after one read.
    ///
    /// No bytes: the peer closed, so the connection leaves the registry, the
    /// closed event is to be published, and the reader is done. Some bytes:
    /// they are read as text, lossily, and published; the reader goes on.
    /// Bytes that are valid UTF-8 are read as the text they encode. A failed
    /// read: the reader is done, and nothing else happens: the connection
    /// stays registered and no event is published.
    pub fn on_read(&mut self, peer: &ConnectionInfo, outcome: ReadOutcome, buffer: &[u8]) -> (step:
        ReaderStep)
        requires
            old(self).valid(),
            outcome matches ReadOutcome::Read(count) ==> count <= buffer@.len(),
        ensures
            final(self).valid(),
            final(self)@ == (ServerView {
                connections: connections_after_read(
                    old(self)@.connections,
                    peer@.connection_id,
                    outcome,
                ),
                ..old(self)@
            }),
            step.finished == reader_done(outcome),
            match outcome {
                ReadOutcome::Read(count) => {
                    let data = buffer@.subrange(0, count as int);
                    &&& step.event is Some
                    &&& step.event.unwrap()@ == (if count == 0 {
                        notice_view(MessageContent::ClientDisconnected, peer@)
                    } else {
                        data_view(lossy_text(data), peer@)
                    })
                    &&& count > 0 && valid_utf8(data) ==> encode_utf8(lossy_text(data)) == data
                },
                ReadOutcome::Failed => step.event is None,
            },
    {
        match outcome {
            ReadOutcome::Read(count) => {
                if count == 0 {
                    let _ = self.clients.remove(&peer.connection_id);
                    ReaderStep { event: Some(closed_event(peer)), finished: true }
                } else {
                    let text = decode_lossy(slice_subrange(buffer, 0, count));
                    ReaderStep { event: Some(data_event(text, peer)), finished: false }
                }
            },
            ReadOutcome::Failed => ReaderStep { event: None, finished: true },
        }
    }

    /// Serves a request that the consumer queued: its content is sent to the
    /// connection that the request names, or to every connection where it
    /// names none.
    pub fn forward_request(&mut self, request: Message) -> (r: Result<Vec<Delivery>, HandlerError>)
        requires
            old(self).valid(),
        ensures
            final(self).valid(),
            final(self)@ == (ServerView {
                offers: old(self)@.offers + sent_offers(
                    old(self)@.connections,
                    request@.content,
                    request_target(request@),
                ),
                ..old(self)@
            }),
            r is Ok,
            report_view(r.unwrap()@) == sent_report(
                old(self)@.connections,
                request@.content,
                request_target(request@),
                report_outcomes(r.unwrap()@),
            ),
            report_ids(r.unwrap()@) == addressed(
                old(self)@.connections,
                request@.content,
                request_target(request@),
            ),
    {
        let target = match request.connection_info {
            Some(info) => Some(info.connection_id),
            None => None,
        };
        self.send_message(request.content, target)
    }

    /// A handle on which to publish events, where a channel is installed.
    pub fn get_server_to_ui_sender(&self) -> (r: Option<Sender<Message>>)
        ensures
            r is Some <==> self@.event_tx is Some,
    {
        match &self.server_to_ui_tx {
            Some(tx) => Some(clone_sender(tx)),
            None => None,
        }
    }

    /// Hands over the end of the control channel that the accept loop
    /// listens on.
    pub fn take_control_receiver(&mut self) -> (r: Option<Receiver<()>>)
        ensures
            r == old(self)@.control_rx,
            final(self)@ == (ServerView { control_rx: None, ..old(self)@ }),
    {
        self.control_rx.take()
    }

    /// Hands over the end of the request channel that the engine drains.
    pub fn take_request_receiver(&mut self) -> (r: Option<Receiver<Message>>)
        ensures
            r == old(self)@.request_rx,
            final(self)@ == (ServerView { request_rx: None, ..old(self)@ }),
    {
        self.ui_to_server_rx.take()
    }

    /// Where the server is in its life.
    pub fn state(&self) -> (r: ServerState)
        ensures
            r == self@.state,
    {
        self.state
    }

    /// The address the server listens on.
    pub fn local_addr(&self) -> (r: SocketAddress)
        ensures
            r == self@.local_addr,
    {
        self.local_addr
    }
}

impl ProtocolHandler for TcpServerHandler {
    /// No two connections share an identifier.
    open spec fn valid(&self) -> bool {
        distinct_ids(self@.connections)
    }

    open spec fn running(&self) -> bool {
        self@.state == ServerState::Running
    }

    open spec fn connections(&self) -> Seq<ConnectionInfoView> {
        entry_infos(self@.connections)
    }

    open spec fn accepts_requests(&self) -> bool {
        self@.request_tx is Some
    }

    /// Starts the server, given how the bind of its listener ended.
    ///
    /// After a bind that succeeded the handler is running, with a fresh
    /// request channel and a fresh control channel, and there is no event to
    /// publish. After one that failed it is not started, holds no control
    /// handle, and the error carries the reason. The registry is left alone
    /// either way.
    fn start(&mut self, setup: SetupOutcome) -> (r: Result<Option<Message>, HandlerError>)
        ensures
            final(self)@.state == server_step(
                server_step(old(self)@.state, ServerEvent::StartRequested),
                if setup is Ready {
                    ServerEvent::Bound
                } else {
                    ServerEvent::BindFailed
                },
            ),
            final(self)@.local_addr == old(self)@.local_addr,
            final(self)@.connections == old(self)@.connections,
            final(self)@.offers == old(self)@.offers,
            final(self)@.event_tx == old(self)@.event_tx,
            match setup {
                SetupOutcome::Ready => {
                    &&& r == Ok::<Option<Message>, HandlerError>(None)
                    &&& final(self)@.state == ServerState::Running
                    &&& final(self)@.control_tx is Some
                    &&& final(self)@.control_rx is Some
                    &&& final(self)@.request_tx is Some
                    &&& final(self)@.request_rx is Some
                },
                SetupOutcome::Failed(reason) => {
                    &&& r == Err::<Option<Message>, HandlerError>(HandlerError::Setup(reason))
                    &&& final(self)@ == (ServerView {
                        state: ServerState::Created,
                        control_tx: None,
                        ..old(self)@
                    })
                },
            },
    {
        self.state = self.state.on(ServerEvent::StartRequested);
        match setup {
            SetupOutcome::Ready => {
                let (request_tx, request_rx) = tokio::sync::mpsc::channel::<Message>(
                    REQUEST_CHANNEL_CAPACITY,
                );
                let (control_tx, control_rx) = tokio::sync::mpsc::channel::<()>(
                    CONTROL_CHANNEL_CAPACITY,
                );
                self.ui_to_server_tx = Some(request_tx);
                self.ui_to_server_rx = Some(request_rx);
                self.control_tx = Some(control_tx);
                self.control_rx = Some(control_rx);
                self.state = self.state.on(ServerEvent::Bound);
                Ok(None)
            },
            SetupOutcome::Failed(reason) => {
                self.control_tx = None;
                self.state = self.state.on(ServerEvent::BindFailed);
                Err(HandlerError::Setup(reason))
            },
        }
    }

    /// Stops the server: a running one signals its accept loop, lets go of
    /// the control handle and is stopping afterwards; any other is left as it
    /// is. Connections that are open stay registered; their tasks end on
    /// their own.
    fn stop(&mut self) -> (r: Result<(), HandlerError>)
        ensures
            old(self)@.state == ServerState::Running ==> final(self)@ == (ServerView {
                state: ServerState::Stopping,
                control_tx: None,
                ..old(self)@
            }),
            final(self)@.state == server_step(old(self)@.state, ServerEvent::StopRequested),
    {
        if self.state.is_running() {
            match &self.control_tx {
                Some(control_tx) => {
                    let _ = try_send(control_tx, ());
                },
                None => {},
            }
            self.control_tx = None;
            self.state = self.state.on(ServerEvent::StopRequested);
        }
        Ok(())
    }

    /// Sends `message` to the connection that `target` names, or to every
    /// connection where it names none, and reports what became of it at each.
    ///
    /// Sending never fails and never waits. The bytes that stand for the
    /// message are offered once to the channel of each connection addressed,
    /// and the report has one delivery for each offer. A message without an
    /// encoding (a lifecycle notice, hex text that does not decode) is
    /// dropped, and so is one for a connection that is not registered: the
    /// report is then empty, and nothing is offered to any channel. A
    /// connection whose channel is full or closed misses the message.
    /// Nothing else changes.
    fn send_message(&mut self, message: MessageType, target: Option<String>) -> (r: Result<
        Vec<Delivery>,
        HandlerError,
    >)
        ensures
            final(self)@ == (ServerView {
                offers: old(self)@.offers + sent_offers(
                    old(self)@.connections,
                    message@,
                    target_view(target),
                ),
                ..old(self)@
            }),
            r is Ok,
            report_view(r.unwrap()@) == sent_report(
                old(self)@.connections,
                message@,
                target_view(target),
                report_outcomes(r.unwrap()@),
            ),
            report_ids(r.unwrap()@) == addressed(
                old(self)@.connections,
                message@,
                target_view(target),
            ),
    {
        match encode_payload(message) {
            Some(data) => {
                let report = self.clients.dispatch(&data, &target);
                assert(report_ids(report@) =~= entry_ids(
                    recipients(self@.connections, target_view(target)),
                )) by {
                    assert forall|i: int| 0 <= i < report@.len() implies report@[i].connection_id@
                        == entry_ids(recipients(self@.connections, target_view(target)))[i] by {
                        assert(report_view(report@)[i] == report@[i]@);
                    }
                }
                Ok(report)
            },
            None => {
                let report: Vec<Delivery> = Vec::new();
                assert(report_ids(report@) =~= Seq::<Seq<char>>::empty());
                assert(report_view(report@) =~= Seq::<DeliveryView>::empty());
                assert(self@.offers =~= old(self)@.offers + Seq::<Offer>::empty());
                Ok(report)
            },
        }
    }

    fn get_ui_to_server_sender(&self) -> (r: Option<Sender<Message>>) {
        match &self.ui_to_server_tx {
            Some(tx) => Some(clone_sender(tx)),
            None => None,
        }
    }

    fn set_server_to_ui_sender(&mut self, sender: Sender<Message>)
        ensures
            final(self)@ == (ServerView { event_tx: Some(sender), ..old(self)@ }),
    {
        self.server_to_ui_tx = Some(sender);
    }

    fn is_running(&self) -> (r: bool) {
        self.state.is_running()
    }

    /// A snapshot of the registered connections, in the order of the registry.
    fn get_connections(&self) -> (list: Vec<ConnectionInfo>) {
        let list = self.clients.snapshot();
        assert(snapshot_views(list@) =~= entry_infos(self@.connections));
        list
    }

    fn protocol_name(&self) -> (name: &'static str)
        ensures
            name@ == "TCP Server"@,
    {
        "TCP Server"
    }
}

/// A server after it has taken in the connection `peer`, whose outbound
/// channel has the handle `tx`: the connection is registered, and nothing
/// else has changed.
pub open spec fn after_accept(before: ServerView, peer: ConnectionInfo, tx: Sender<Bytes>) -> ServerView {
    ServerView {
        connections: with_entry(before.connections, EntryView { info: peer@, tx }),
        ..before
    }
}

/// The registry after the reader of the connection `id` has made one read:
/// without that connection where the peer closed, and as it was otherwise.
pub open spec fn connections_after_read(
    entries: Seq<EntryView>,
    id: Seq<char>,
    outcome: ReadOutcome,
) -> Seq<EntryView> {
    match outcome {
        ReadOutcome::Read(count) => if count == 0 {
            without_id(entries, id)
        } else {
            entries
        },
        ReadOutcome::Failed => entries,
    }
}

/// One thing that happens to the connections of a server.
pub ghost enum ConnectionEvent {
    /// The listener accepted a connection, and the handler took it in.
    Accepted(EntryView),
    /// The reader of the connection `id` made a read that ended in `outcome`.
    Read { id: Seq<char>, outcome: ReadOutcome },
}

/// The connections of a server, with the readers that serve them.
pub ghost struct Sessions {
    /// The registry.
    pub connections: Seq<EntryView>,
    /// The connections whose reader is at work.
    pub reading: Set<Seq<char>>,
    /// The connections whose reader left after a failed read.
    pub abandoned: Set<Seq<char>>,
}

/// A server that has seen no connection yet.
pub open spec fn no_sessions() -> Sessions {
    Sessions { connections: Seq::empty(), reading: Set::empty(), abandoned: Set::empty() }
}

/// Whether `event` can happen: a connection is accepted only while no reader
/// is at work under its identifier, and only a reader at work reads.
pub open spec fn event_possible(sessions: Sessions, event: ConnectionEvent) -> bool {
    match event {
        ConnectionEvent::Accepted(entry) => !sessions.reading.contains(entry.info.connection_id),
        ConnectionEvent::Read { id, outcome } => sessions.reading.contains(id),
    }
}

/// The sessions after `event`. The registry changes as `on_accept` and
/// `on_read` change it; a reader starts with its connection and leaves when
/// its read says it is done.
pub open spec fn sessions_step(sessions: Sessions, event: ConnectionEvent) -> Sessions {
    match event {
        ConnectionEvent::Accepted(entry) => Sessions {
            connections: with_entry(sessions.connections, entry),
            reading: sessions.reading.insert(entry.info.connection_id),
            abandoned: sessions.abandoned.remove(entry.info.connection_id),
        },
        ConnectionEvent::Read { id, outcome } => Sessions {
            connections: connections_after_read(sessions.connections, id, outcome),
            reading: if reader_done(outcome) {
                sessions.reading.remove(id)
            } else {
                sessions.reading
            },
            abandoned: if outcome is Failed {
                sessions.abandoned.insert(id)
            } else {
                sessions.abandoned
            },
        },
    }
}

/// The sessions of a server after the events of `trace`, in their order.
pub open spec fn sessions_after(trace: Seq<ConnectionEvent>) -> Sessions
    decreases trace.len(),
{
    if trace.len() == 0 {
        no_sessions()
    } else {
        sessions_step(sessions_after(trace.drop_last()), trace.last())
    }
}

/// Whether each event of `trace` can happen when its turn comes.
pub open spec fn trace_possible(trace: Seq<ConnectionEvent>) -> bool
    decreases trace.len(),
{
    trace.len() == 0 || (trace_possible(trace.drop_last()) && event_possible(
        sessions_after(trace.drop_last()),
        trace.last(),
    ))
}

/// Whether the registry holds what it should: identifiers differ, the
/// registered connections are those whose reader is at work together with
/// those whose reader left after a failed read, and no connection is both.
pub open spec fn registry_tracks_readers(sessions: Sessions) -> bool {
    &&& distinct_ids(sessions.connections)
    &&& sessions.reading.disjoint(sessions.abandoned)
    &&& forall|id: Seq<char>|
        has_id(sessions.connections, id) <==> (sessions.reading.contains(id)
            || sessions.abandoned.contains(id))
}

/// One possible event keeps the registry in step with the readers.
pub proof fn lemma_step_keeps_registry(sessions: Sessions, event: ConnectionEvent)
    requires
        registry_tracks_readers(sessions),
        event_possible(sessions, event),
    ensures
        registry_tracks_readers(sessions_step(sessions, event)),
{
    let after = sessions_step(sessions, event);
    match event {
        ConnectionEvent::Accepted(entry) => {
            lemma_with_entry(sessions.connections, entry);
        },
        ConnectionEvent::Read { id, outcome } => {
            lemma_without_id(sessions.connections, id);
        },
    }
}

/// Whatever connections come and go, the registry holds exactly the
/// connections whose reader is at work and those whose reader left after a
/// failed read; the latter are the only entries without a live connection
/// behind them. A snapshot of the registry therefore lists every live
/// connection, and no connection that was seen to close.
pub proof fn lemma_registry_tracks_readers(trace: Seq<ConnectionEvent>)
    requires
        trace_possible(trace),
    ensures
        registry_tracks_readers(sessions_after(trace)),
    decreases trace.len(),
{
    if trace.len() > 0 {
        lemma_registry_tracks_readers(trace.drop_last());
        lemma_step_keeps_registry(sessions_after(trace.drop_last()), trace.last());
    }
}

/// A connection whose peer closed is not registered afterwards.
pub proof fn lemma_closed_connection_is_gone(entries: Seq<EntryView>, id: Seq<char>)
    requires
        distinct_ids(entries),
    ensures
        !has_id(connections_after_read(entries, id, ReadOutcome::Read(0)), id),
        forall|other: Seq<char>|
            other != id ==> (has_id(
                connections_after_read(entries, id, ReadOutcome::Read(0)),
                other,
            ) <==> has_id(entries, other)),
{
    lemma_without_id(entries, id);
}

/// A failed read leaves the connection registered: the entry stays although
/// its reader is gone.
pub proof fn lemma_failed_read_keeps_entry(entries: Seq<EntryView>, id: Seq<char>)
    ensures
        connections_after_read(entries, id, ReadOutcome::Failed) == entries,
{
}

/// A broadcast on a server without connections addresses nobody and offers
/// nothing to any channel, whatever the message.
pub proof fn lemma_broadcast_to_nobody(content: MessageContent)
    ensures
        addressed(Seq::empty(), content, None) == Seq::<Seq<char>>::empty(),
        sent_offers(Seq::empty(), content, None) == Seq::<Offer>::empty(),
{
    assert(entry_ids(Seq::<EntryView>::empty()) =~= Seq::<Seq<char>>::empty());
    assert(offers_to(Seq::<EntryView>::empty(), Seq::<u8>::empty()) =~= Seq::<Offer>::empty());
    if encoded(content) is Some {
        assert(offers_to(Seq::<EntryView>::empty(), encoded(content).unwrap()) =~= Seq::<
            Offer,
        >::empty());
    }
}

/// A message without an encoding is offered to nobody, whoever is
/// registered and whomever it is for.
pub proof fn lemma_no_encoding_no_offer(
    entries: Seq<EntryView>,
    content: MessageContent,
    target: Option<Seq<char>>,
)
    requires
        encoded(content) is None,
    ensures
        sent_offers(entries, content, target) == Seq::<Offer>::empty(),
        addressed(entries, content, target) == Seq::<Seq<char>>::empty(),
{
}

} // verus!
