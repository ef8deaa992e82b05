//! State of the operator's console that does not depend on how it is drawn:
//! the input mode and the line being typed, the traffic counters, and the
//! lines that events are shown as.

use crate::clock::clock_text;
use crate::hex::{hex_encode, hex_text};
use crate::message::{bytes_to_vec, Message, MessageContent, MessageType, MessageView};
use crate::text::{pop_char, push_char, without_last};
use std::time::Instant;
use vstd::prelude::*;
use vstd::string::StringExecFns;
use vstd::utf8::encode_utf8;

verus! {

#[verifier::external_type_specification]
#[verifier::external_body]
pub struct ExInstant(Instant);

/// The current reading of the monotonic clock, from `Instant::now`. Nothing
/// is claimed of the value: it differs from call to call.
#[verifier::external_body]
pub(crate) fn instant_now() -> (t: Instant) {
    Instant::now()
}

/// Whether keys are commands or text being typed.
#[derive(Clone, Copy, Debug, PartialEq, Eq, Structural)]
pub enum InputMode {
    /// Keys are commands.
    Normal,
    /// Keys go into the input line.
    Editing,
}

/// How payload bytes are shown.
#[derive(Clone, Copy, Debug, PartialEq, Eq, Structural)]
pub enum DisplayFormat {
    /// As text.
    String,
    /// As hexadecimal digits.
    Hex,
}

/// Traffic counters of one session.
#[derive(Clone, Copy, Debug)]
pub struct Stats {
    /// Bytes handed to the engine for sending.
    pub sent_bytes: usize,
    /// Bytes shown as received.
    pub received_bytes: usize,
    /// Whether a peer is connected.
    pub connected: bool,
    /// When traffic was last counted.
    pub last_activity: Instant,
}

impl Default for Stats {
    fn default() -> (s: Self)
        ensures
            s.sent_bytes == 0,
            s.received_bytes == 0,
            !s.connected,
    {
        Stats { sent_bytes: 0, received_bytes: 0, connected: false, last_activity: instant_now() }
    }
}

impl Stats {
    /// Counts `len` more bytes as sent.
    pub fn record_sent(&mut self, len: usize)
        requires
            old(self).sent_bytes + len <= usize::MAX,
        ensures
            final(self).sent_bytes == old(self).sent_bytes + len,
            final(self).received_bytes == old(self).received_bytes,
            final(self).connected == old(self).connected,
    {
        self.sent_bytes = self.sent_bytes + len;
        self.last_activity = instant_now();
    }

    /// Counts `len` more bytes as received.
    pub fn record_received(&mut self, len: usize)
        requires
            old(self).received_bytes + len <= usize::MAX,
        ensures
            final(self).received_bytes == old(self).received_bytes + len,
            final(self).sent_bytes == old(self).sent_bytes,
            final(self).connected == old(self).connected,
    {
        self.received_bytes = self.received_bytes + len;
        self.last_activity = instant_now();
    }

    /// Notes whether a peer is connected.
    pub fn set_connected(&mut self, connected: bool)
        ensures
            *final(self) == (Stats { connected, ..*old(self) }),
    {
        self.connected = connected;
    }
}

/// A key, as far as the console tells keys apart.
#[derive(Clone, Copy, Debug, PartialEq, Eq, Structural)]
pub enum Key {
    /// A character key.
    Char(char),
    /// The enter key.
    Enter,
    /// The escape key.
    Esc,
    /// The backspace key.
    Backspace,
    /// Any other key.
    Other,
}

/// The modifier keys held with a key.
#[derive(Clone, Copy, Debug, PartialEq, Eq, Structural)]
pub enum Modifiers {
    /// No modifier.
    Plain,
    /// Control, and nothing else.
    Control,
    /// Any other combination.
    Other,
}

/// The mathematical content of the console's input state.
pub ghost struct InputView {
    /// Whether the operator asked to quit.
    pub should_quit: bool,
    /// The input mode.
    pub mode: InputMode,
    /// The line being typed, while the input dialog is open.
    pub line: Option<Seq<char>>,
}

/// The input state after a key.
///
/// In normal mode control-c asks to quit and a plain `i` opens the input
/// dialog, empty. In editing mode, with the dialog open, escape and enter
/// close it, a character goes to the end of the line and backspace takes the
/// last one away. Every other key changes nothing.
pub open spec fn after_key(input: InputView, key: Key, modifiers: Modifiers) -> InputView {
    match input.mode {
        InputMode::Normal => if key == Key::Char('c') && modifiers == Modifiers::Control {
            InputView { should_quit: true, ..input }
        } else if key == Key::Char('i') && modifiers == Modifiers::Plain {
            InputView { mode: InputMode::Editing, line: Some(Seq::empty()), ..input }
        } else {
            input
        },
        InputMode::Editing => match input.line {
            None => input,
            Some(line) => match key {
                Key::Esc => InputView { mode: InputMode::Normal, line: None, ..input },
                Key::Enter => InputView { mode: InputMode::Normal, line: None, ..input },
                Key::Char(c) => InputView { line: Some(line.push(c)), ..input },
                Key::Backspace => InputView { line: Some(without_last(line)), ..input },
                Key::Other => input,
            },
        },
    }
}

/// The line that a key submits for sending: the line being typed, when enter
/// is pressed in the open dialog.
pub open spec fn submitted_by(input: InputView, key: Key) -> Option<Seq<char>> {
    if input.mode == InputMode::Editing && input.line is Some && key == Key::Enter {
        input.line
    } else {
        None
    }
}

/// The input side of the console.
pub struct Console {
    should_quit: bool,
    input_mode: InputMode,
    input_dialog: Option<String>,
}

impl View for Console {
    type V = InputView;

    closed spec fn view(&self) -> InputView {
        InputView {
            should_quit: self.should_quit,
            mode: self.input_mode,
            line: match self.input_dialog {
                Some(line) => Some(line@),
                None => None,
            },
        }
    }
}

impl Console {
    /// A console in normal mode, with the dialog closed.
    pub fn new() -> (console: Self)
        ensures
            console@ == (InputView { should_quit: false, mode: InputMode::Normal, line: None }),
    {
        Console { should_quit: false, input_mode: InputMode::Normal, input_dialog: None }
    }

    /// Whether the operator asked to quit.
    pub fn should_quit(&self) -> (r: bool)
        ensures
            r == self@.should_quit,
    {
        self.should_quit
    }

    /// The input mode.
    pub fn input_mode(&self) -> (r: InputMode)
        ensures
            r == self@.mode,
    {
        self.input_mode
    }

    /// The line being typed, while the dialog is open.
    pub fn input_line(&self) -> (r: Option<String>)
        ensures
            r is Some <==> self@.line is Some,
            r is Some ==> r.unwrap()@ == self@.line.unwrap(),
    {
        match &self.input_dialog {
            Some(line) => Some(line.clone()),
            None => None,
        }
    }

    /// Takes a key, and hands back the line to send where the key submits one.
    pub fn handle_key_event(&mut self, key: Key, modifiers: Modifiers) -> (submitted: Option<
        String,
    >)
        ensures
            final(self)@ == after_key(old(self)@, key, modifiers),
            submitted is Some <==> submitted_by(old(self)@, key) is Some,
            submitted is Some ==> submitted.unwrap()@ == submitted_by(old(self)@, key).unwrap(),
    {
        match self.input_mode {
            InputMode::Normal => {
                self.handle_normal_mode_key(key, modifiers);
                None
            },
            InputMode::Editing => self.handle_editing_mode_key(key),
        }
    }

    /// Takes a key in normal mode.
    fn handle_normal_mode_key(&mut self, key: Key, modifiers: Modifiers)
        requires
            old(self)@.mode == InputMode::Normal,
        ensures
            final(self)@ == after_key(old(self)@, key, modifiers),
    {
        match (key, modifiers) {
            (Key::Char(c), Modifiers::Control) => {
                if c == 'c' {
                    self.should_quit = true;
                }
            },
            (Key::Char(c), Modifiers::Plain) => {
                if c == 'i' {
                    self.input_mode = InputMode::Editing;
                    self.input_dialog = Some(String::from_str(""));
                    proof {
                        reveal_strlit("");
                    }
                    assert(self@.line.unwrap() =~= Seq::<char>::empty());
                }
            },
            _ => {},
        }
    }

    /// Takes a key in editing mode.
    fn handle_editing_mode_key(&mut self, key: Key) -> (submitted: Option<String>)
        requires
            old(self)@.mode == InputMode::Editing,
        ensures
            forall|modifiers: Modifiers| final(self)@ == after_key(old(self)@, key, modifiers),
            submitted is Some <==> submitted_by(old(self)@, key) is Some,
            submitted is Some ==> submitted.unwrap()@ == submitted_by(old(self)@, key).unwrap(),
    {
        let dialog = self.input_dialog.take();
        match dialog {
            None => None,
            Some(mut line) => match key {
                Key::Esc => {
                    self.input_mode = InputMode::Normal;
                    None
                },
                Key::Enter => {
                    self.input_mode = InputMode::Normal;
                    Some(line)
                },
                Key::Char(c) => {
                    push_char(&mut line, c);
                    self.input_dialog = Some(line);
                    None
                },
                Key::Backspace => {
                    pop_char(&mut line);
                    self.input_dialog = Some(line);
                    None
                },
                Key::Other => {
                    self.input_dialog = Some(line);
                    None
                },
            },
        }
    }
}

/// What an event changes in the view of received traffic.
#[derive(Debug)]
pub enum ViewUpdate {
    /// A line of traffic to show.
    Line(String),
    /// A connection to add, by its identifier.
    Opened(String),
    /// A connection to close, by its identifier.
    Closed(String),
    /// Nothing.
    Nothing,
}

/// The mathematical content of a [`ViewUpdate`].
pub ghost enum UpdateView {
    Line(Seq<char>),
    Opened(Seq<char>),
    Closed(Seq<char>),
    Nothing,
}

impl View for ViewUpdate {
    type V = UpdateView;

    open spec fn view(&self) -> UpdateView {
        match *self {
            ViewUpdate::Line(text) => UpdateView::Line(text@),
            ViewUpdate::Opened(id) => UpdateView::Opened(id@),
            ViewUpdate::Closed(id) => UpdateView::Closed(id@),
            ViewUpdate::Nothing => UpdateView::Nothing,
        }
    }
}

/// How an event is shown: text as it is, binary data as `[Binary]` and its
/// hexadecimal digits, hex text as `[Hex]` and the text, and a lifecycle
/// notice as the connection it opens or closes. A notice that names no
/// connection shows as nothing.
pub open spec fn shown_as(message: MessageView) -> UpdateView {
    match message.content {
        MessageContent::Text(text) => UpdateView::Line(text),
        MessageContent::Binary(data) => UpdateView::Line("[Binary] "@ + hex_text(data)),
        MessageContent::Hex(digits) => UpdateView::Line("[Hex] "@ + digits),
        MessageContent::ClientConnected => match message.connection_info {
            Some(info) => UpdateView::Opened(info.connection_id),
            None => UpdateView::Nothing,
        },
        MessageContent::ClientDisconnected => match message.connection_info {
            Some(info) => UpdateView::Closed(info.connection_id),
            None => UpdateView::Nothing,
        },
    }
}

/// Says how a received event is to be shown.
pub fn receive_message(message: &Message) -> (update: ViewUpdate)
    ensures
        update@ == shown_as(message@),
{
    match &message.content {
        MessageType::Text(text) => ViewUpdate::Line(text.clone()),
        MessageType::Binary(data) => {
            let bytes = bytes_to_vec(data);
            let mut line = String::from_str("[Binary] ");
            line.append(hex_encode(bytes.as_slice()).as_str());
            ViewUpdate::Line(line)
        },
        MessageType::Hex(digits) => {
            let mut line = String::from_str("[Hex] ");
            line.append(digits.as_str());
            ViewUpdate::Line(line)
        },
        MessageType::ClientConnected => match &message.connection_info {
            Some(info) => ViewUpdate::Opened(info.connection_id.clone()),
            None => ViewUpdate::Nothing,
        },
        MessageType::ClientDisconnected => match &message.connection_info {
            Some(info) => ViewUpdate::Closed(info.connection_id.clone()),
            None => ViewUpdate::Nothing,
        },
    }
}

/// The line under which traffic is shown: the time in brackets, the sender
/// in brackets where one is given, and the text.
pub open spec fn stamped(clock: Seq<char>, from: Option<Seq<char>>, message: Seq<char>) -> Seq<
    char,
> {
    match from {
        Some(addr) => "["@ + clock + "] ["@ + addr + "] "@ + message,
        None => "["@ + clock + "] "@ + message,
    }
}

/// The view of an optional sender.
pub open spec fn sender_view(from: Option<String>) -> Option<Seq<char>> {
    match from {
        Some(addr) => Some(addr@),
        None => None,
    }
}

/// Makes the line under which traffic is shown, for a time given as text.
pub fn stamp_line(clock: &str, from: &Option<String>, message: &str) -> (line: String)
    ensures
        line@ == stamped(clock@, sender_view(*from), message@),
{
    let mut line = String::from_str("[");
    line.append(clock);
    match from {
        Some(addr) => {
            line.append("] [");
            line.append(addr.as_str());
            line.append("] ");
        },
        None => {
            line.append("] ");
        },
    }
    line.append(message);
    assert(line@ =~= stamped(clock@, sender_view(*from), message@));
    line
}

/// Counts a message as sent and makes the line to show for it, stamped with
/// the time of day.
pub fn send_message(stats: &mut Stats, message: &str) -> (line: String)
    requires
        old(stats).sent_bytes + encode_utf8(message@).len() <= usize::MAX,
    ensures
        final(stats).sent_bytes == old(stats).sent_bytes + encode_utf8(message@).len(),
        final(stats).received_bytes == old(stats).received_bytes,
        final(stats).connected == old(stats).connected,
        exists|clock: Seq<char>| line@ == #[trigger] stamped(clock, None, message@),
{
    stats.record_sent(message.len());
    let clock = clock_text();
    let line = stamp_line(clock.as_str(), &None, message);
    assert(line@ == stamped(clock@, None, message@));
    line
}

/// Counts a message as received and makes the line to show for it, stamped
/// with the time of day and, where one is given, its sender.
pub fn add_received_message(stats: &mut Stats, message: &str, from: &Option<String>) -> (line:
    String)
    requires
        old(stats).received_bytes + encode_utf8(message@).len() <= usize::MAX,
    ensures
        final(stats).received_bytes == old(stats).received_bytes + encode_utf8(message@).len(),
        final(stats).sent_bytes == old(stats).sent_bytes,
        final(stats).connected == old(stats).connected,
        exists|clock: Seq<char>| line@ == #[trigger] stamped(clock, sender_view(*from), message@),
{
    stats.record_received(message.len());
    let clock = clock_text();
    let line = stamp_line(clock.as_str(), from, message);
    assert(line@ == stamped(clock@, sender_view(*from), message@));
    line
}

} // verus!
