//! The command session. A `Connection` holds no socket: it takes the bytes
//! that the caller read and answers with the next thing to do (send a line,
//! read more, report a reply or a failure), so every decision of the
//! exchange is made here and the caller only moves bytes.
use vstd::prelude::*;
use vstd::slice::slice_subrange;
use crate::frame::{
    ack_message, ack_message_of, check_ack_line, check_greeting, check_ok_line, frame, frame_of,
    is_ack_line, is_greeting, is_ok_line, newline, Frame,
};
use crate::model::{MpdError, StateOfPlay};
use crate::status::{parse_status, status_result};
use crate::text::{find_byte, first_index};
use crate::track::{format_reply, parse_track, reply_text, track_result};

verus! {

/// The most bytes a response may take before the connection gives up on it.
pub const MAX_RESPONSE: usize = 1048576;

/// The commands that the session sends.
#[derive(Clone, Copy, Debug, PartialEq, Eq, Structural)]
pub enum Command {
    Status,
    CurrentSong,
    Next,
    Previous,
    Stop,
    Play,
    Pause,
}

/// The wire name of a command.
pub open spec fn command_name(c: Command) -> Seq<u8> {
    match c {
        Command::Status => seq!['s' as u8, 't' as u8, 'a' as u8, 't' as u8, 'u' as u8, 's' as u8],
        Command::CurrentSong => seq![
            'c' as u8, 'u' as u8, 'r' as u8, 'r' as u8, 'e' as u8, 'n' as u8, 't' as u8,
            's' as u8, 'o' as u8, 'n' as u8, 'g' as u8,
        ],
        Command::Next => seq!['n' as u8, 'e' as u8, 'x' as u8, 't' as u8],
        Command::Previous => seq![
            'p' as u8, 'r' as u8, 'e' as u8, 'v' as u8, 'i' as u8, 'o' as u8, 'u' as u8, 's' as u8,
        ],
        Command::Stop => seq!['s' as u8, 't' as u8, 'o' as u8, 'p' as u8],
        Command::Play => seq!['p' as u8, 'l' as u8, 'a' as u8, 'y' as u8],
        Command::Pause => seq!['p' as u8, 'a' as u8, 'u' as u8, 's' as u8, 'e' as u8],
    }
}

/// The line that sends a command: its name and a newline.
pub open spec fn command_text(c: Command) -> Seq<u8> {
    command_name(c).push(0x0a)
}

/// Builds the line that sends a command.
pub fn command_line(c: Command) -> (r: Vec<u8>)
    ensures
        r@ == command_text(c),
{
    let v: Vec<u8> = match c {
        Command::Status => vec!['s' as u8, 't' as u8, 'a' as u8, 't' as u8, 'u' as u8, 's' as u8],
        Command::CurrentSong => vec![
            'c' as u8, 'u' as u8, 'r' as u8, 'r' as u8, 'e' as u8, 'n' as u8, 't' as u8,
            's' as u8, 'o' as u8, 'n' as u8, 'g' as u8,
        ],
        Command::Next => vec!['n' as u8, 'e' as u8, 'x' as u8, 't' as u8],
        Command::Previous => vec![
            'p' as u8, 'r' as u8, 'e' as u8, 'v' as u8, 'i' as u8, 'o' as u8, 'u' as u8, 's' as u8,
        ],
        Command::Stop => vec!['s' as u8, 't' as u8, 'o' as u8, 'p' as u8],
        Command::Play => vec!['p' as u8, 'l' as u8, 'a' as u8, 'y' as u8],
        Command::Pause => vec!['p' as u8, 'a' as u8, 'u' as u8, 's' as u8, 'e' as u8],
    };
    let mut v = v;
    assert(v@ == command_name(c));
    v.push(0x0a);
    v
}

/// The command that toggles playback from a given state: `play` when
/// stopped, `pause` (which the server treats as a toggle) otherwise.
pub open spec fn toggle_choice(s: StateOfPlay) -> Command {
    match s {
        StateOfPlay::Stop => Command::Play,
        StateOfPlay::Pause => Command::Pause,
        StateOfPlay::Play => Command::Pause,
    }
}

/// Chooses the command that toggles playback.
pub fn toggle_command(s: StateOfPlay) -> (r: Command)
    ensures
        r == toggle_choice(s),
{
    match s {
        StateOfPlay::Stop => Command::Play,
        StateOfPlay::Pause => Command::Pause,
        StateOfPlay::Play => Command::Pause,
    }
}

/// What the connection waits for.
#[derive(Clone, Copy, Debug, PartialEq, Eq, Structural)]
pub enum Pending {
    /// The server's greeting line.
    Greeting,
    /// Nothing: a new request may start.
    Ready,
    /// The status that decides a toggle.
    ToggleStatus,
    /// The answer to a transport command.
    CommandReply,
    /// The current song after a successful command.
    CurrentSong,
    /// The status that closes a request.
    FinalStatus,
    /// Nothing ever again: the connection failed.
    Closed,
}

/// The next thing for the caller to do.
pub enum Action {
    /// Write these bytes to the server, then read and hand over what comes.
    Send(Vec<u8>),
    /// Read more bytes and hand them over.
    Read,
    /// The greeting was accepted; requests may start.
    Ready,
    /// The request is done: the reply text and the resulting playback state.
    Reply(Vec<u8>, StateOfPlay),
    /// The request failed; the connection is closed.
    Fail(MpdError),
}

pub ghost enum ActionView {
    Send(Seq<u8>),
    Read,
    Ready,
    Reply(Seq<u8>, StateOfPlay),
    Fail(MpdError),
}

impl View for Action {
    type V = ActionView;

    open spec fn view(&self) -> ActionView {
        match self {
            Action::Send(b) => ActionView::Send(b@),
            Action::Read => ActionView::Read,
            Action::Ready => ActionView::Ready,
            Action::Reply(t, s) => ActionView::Reply(t@, *s),
            Action::Fail(e) => ActionView::Fail(*e),
        }
    }
}

/// One session with the server: the bytes read but not yet used, what is
/// awaited, and the reply text of the request in progress.
pub struct Connection {
    buffer: Vec<u8>,
    pending: Pending,
    reply: Vec<u8>,
}

pub ghost struct ConnectionView {
    pub buffer: Seq<u8>,
    pub pending: Pending,
    pub reply: Seq<u8>,
}

impl View for Connection {
    type V = ConnectionView;

    closed spec fn view(&self) -> ConnectionView {
        ConnectionView { buffer: self.buffer@, pending: self.pending, reply: self.reply@ }
    }
}

/// A connection that failed.
pub open spec fn closed() -> ConnectionView {
    ConnectionView { buffer: Seq::empty(), pending: Pending::Closed, reply: Seq::empty() }
}

/// The state to move to once a response was used: `rest` stays buffered.
pub open spec fn awaiting(rest: Seq<u8>, p: Pending, reply: Seq<u8>) -> ConnectionView {
    ConnectionView { buffer: rest, pending: p, reply }
}

/// What follows one complete response `resp` to a `status` or
/// `currentsong` query.
pub open spec fn on_response(c: ConnectionView, resp: Seq<u8>, rest: Seq<u8>) -> (
    ConnectionView,
    ActionView,
) {
    match c.pending {
        Pending::ToggleStatus => match status_result(resp) {
            Ok(s) => (
                awaiting(rest, Pending::CommandReply, Seq::empty()),
                ActionView::Send(command_text(toggle_choice(s.state))),
            ),
            Err(e) => (closed(), ActionView::Fail(e)),
        },
        Pending::CurrentSong => match track_result(resp) {
            Ok(t) => (
                awaiting(rest, Pending::FinalStatus, reply_text(t)),
                ActionView::Send(command_text(Command::Status)),
            ),
            Err(e) => (closed(), ActionView::Fail(e)),
        },
        Pending::FinalStatus => match status_result(resp) {
            Ok(s) => (awaiting(rest, Pending::Ready, Seq::empty()), ActionView::Reply(c.reply, s.state)),
            Err(e) => (closed(), ActionView::Fail(e)),
        },
        _ => (closed(), ActionView::Fail(MpdError::Protocol)),
    }
}

/// What follows the first line `line` of the answer to a transport command,
/// which holds no fields: `OK` asks for the current song, an `ACK` line
/// keeps its message and asks for the status, anything else fails.
pub open spec fn on_command_reply(line: Seq<u8>, rest: Seq<u8>) -> (ConnectionView, ActionView) {
    if is_ok_line(line) {
        (
            awaiting(rest, Pending::CurrentSong, Seq::empty()),
            ActionView::Send(command_text(Command::CurrentSong)),
        )
    } else if is_ack_line(line) {
        match ack_message_of(line.push(newline())) {
            Some(m) => (
                awaiting(rest, Pending::FinalStatus, m),
                ActionView::Send(command_text(Command::Status)),
            ),
            None => (closed(), ActionView::Fail(MpdError::Protocol)),
        }
    } else {
        (closed(), ActionView::Fail(MpdError::Protocol))
    }
}

/// What the connection does with the bytes `chunk` that the caller read.
pub open spec fn step(c: ConnectionView, chunk: Seq<u8>) -> (ConnectionView, ActionView) {
    let b = c.buffer + chunk;
    match c.pending {
        Pending::Greeting => {
            let nl = first_index(b, 0x0a, 0);
            if nl < b.len() {
                if is_greeting(b.subrange(0, nl)) {
                    (
                        awaiting(b.subrange(nl + 1, b.len() as int), Pending::Ready, Seq::empty()),
                        ActionView::Ready,
                    )
                } else {
                    (closed(), ActionView::Fail(MpdError::Connection))
                }
            } else if b.len() > MAX_RESPONSE {
                (closed(), ActionView::Fail(MpdError::Connection))
            } else {
                (ConnectionView { buffer: b, ..c }, ActionView::Read)
            }
        },
        Pending::CommandReply => {
            let nl = first_index(b, 0x0a, 0);
            if nl < b.len() {
                on_command_reply(b.subrange(0, nl), b.subrange(nl + 1, b.len() as int))
            } else if b.len() > MAX_RESPONSE {
                (closed(), ActionView::Fail(MpdError::Protocol))
            } else {
                (ConnectionView { buffer: b, ..c }, ActionView::Read)
            }
        },
        Pending::Ready => (closed(), ActionView::Fail(MpdError::Protocol)),
        Pending::Closed => (closed(), ActionView::Fail(MpdError::Protocol)),
        _ => match frame_of(b) {
            Frame::Incomplete => if b.len() > MAX_RESPONSE {
                (closed(), ActionView::Fail(MpdError::Protocol))
            } else {
                (ConnectionView { buffer: b, ..c }, ActionView::Read)
            },
            Frame::Complete { end, .. } => on_response(
                c,
                b.subrange(0, end as int),
                b.subrange(end as int, b.len() as int),
            ),
        },
    }
}

impl Connection {
    /// A session that waits for the server's greeting.
    pub fn new() -> (r: Connection)
        ensures
            r@ == (ConnectionView {
                buffer: Seq::empty(),
                pending: Pending::Greeting,
                reply: Seq::empty(),
            }),
    {
        Connection { buffer: Vec::new(), pending: Pending::Greeting, reply: Vec::new() }
    }

    /// Whether a new request may start.
    pub fn is_ready(&self) -> (r: bool)
        ensures
            r == (self@.pending == Pending::Ready),
    {
        self.pending == Pending::Ready
    }

    /// What the connection awaits.
    pub fn pending(&self) -> (r: Pending)
        ensures
            r == self@.pending,
    {
        self.pending
    }

    fn close(&mut self)
        ensures
            final(self)@ == closed(),
    {
        self.buffer = Vec::new();
        self.pending = Pending::Closed;
        self.reply = Vec::new();
    }

    fn start(&mut self, c: Command, p: Pending) -> (a: Action)
        ensures
            final(self)@ == (ConnectionView { pending: p, reply: Seq::empty(), ..old(self)@ }),
            a@ == ActionView::Send(command_text(c)),
    {
        self.pending = p;
        self.reply = Vec::new();
        Action::Send(command_line(c))
    }

    /// Starts a skip to the next song.
    pub fn next(&mut self) -> (a: Action)
        requires
            old(self)@.pending == Pending::Ready,
        ensures
            final(self)@ == (ConnectionView { pending: Pending::CommandReply, reply: Seq::empty(), ..old(self)@ }),
            a@ == ActionView::Send(command_text(Command::Next)),
    {
        self.start(Command::Next, Pending::CommandReply)
    }

    /// Starts a skip back to the previous song.
    pub fn previous(&mut self) -> (a: Action)
        requires
            old(self)@.pending == Pending::Ready,
        ensures
            final(self)@ == (ConnectionView { pending: Pending::CommandReply, reply: Seq::empty(), ..old(self)@ }),
            a@ == ActionView::Send(command_text(Command::Previous)),
    {
        self.start(Command::Previous, Pending::CommandReply)
    }

    /// Starts a stop of playback.
    pub fn stop(&mut self) -> (a: Action)
        requires
            old(self)@.pending == Pending::Ready,
        ensures
            final(self)@ == (ConnectionView { pending: Pending::CommandReply, reply: Seq::empty(), ..old(self)@ }),
            a@ == ActionView::Send(command_text(Command::Stop)),
    {
        self.start(Command::Stop, Pending::CommandReply)
    }

    /// Starts a toggle between playing and paused: the status is asked
    /// first, and its state decides the command.
    pub fn toggle(&mut self) -> (a: Action)
        requires
            old(self)@.pending == Pending::Ready,
        ensures
            final(self)@ == (ConnectionView { pending: Pending::ToggleStatus, reply: Seq::empty(), ..old(self)@ }),
            a@ == ActionView::Send(command_text(Command::Status)),
    {
        self.start(Command::Status, Pending::ToggleStatus)
    }

    /// Takes the bytes that the caller read from the server and says what
    /// to do next.
    pub fn receive(&mut self, chunk: &[u8]) -> (a: Action)
        ensures
            (final(self)@, a@) == step(old(self)@, chunk@),
    {
        let ghost c0 = self@;
        self.buffer.extend_from_slice(chunk);
        assert(self.buffer@ == c0.buffer + chunk@);
        match self.pending {
            Pending::Greeting => {
                let nl = find_byte(self.buffer.as_slice(), 0x0a, 0);
                if nl < self.buffer.len() {
                    let ok = check_greeting(slice_subrange(self.buffer.as_slice(), 0, nl));
                    if ok {
                        let rest = self.buffer.split_off(nl + 1);
                        self.buffer = rest;
                        self.pending = Pending::Ready;
                        self.reply = Vec::new();
                        Action::Ready
                    } else {
                        self.close();
                        Action::Fail(MpdError::Connection)
                    }
                } else if self.buffer.len() > MAX_RESPONSE {
                    self.close();
                    Action::Fail(MpdError::Connection)
                } else {
                    Action::Read
                }
            },
            Pending::CommandReply => {
                let nl = find_byte(self.buffer.as_slice(), 0x0a, 0);
                if nl < self.buffer.len() {
                    let ghost b = self.buffer@;
                    let line = slice_subrange(self.buffer.as_slice(), 0, nl);
                    if check_ok_line(line) {
                        let rest = self.buffer.split_off(nl + 1);
                        self.buffer = rest;
                        self.start(Command::CurrentSong, Pending::CurrentSong)
                    } else if check_ack_line(line) {
                        let msg = ack_message(slice_subrange(self.buffer.as_slice(), 0, nl + 1));
                        assert(b.subrange(0, nl + 1) =~= b.subrange(0, nl as int).push(
                            newline(),
                        ));
                        match msg {
                            Some(m) => {
                                let rest = self.buffer.split_off(nl + 1);
                                self.buffer = rest;
                                self.pending = Pending::FinalStatus;
                                self.reply = m;
                                Action::Send(command_line(Command::Status))
                            },
                            None => {
                                self.close();
                                Action::Fail(MpdError::Protocol)
                            },
                        }
                    } else {
                        self.close();
                        Action::Fail(MpdError::Protocol)
                    }
                } else if self.buffer.len() > MAX_RESPONSE {
                    self.close();
                    Action::Fail(MpdError::Protocol)
                } else {
                    Action::Read
                }
            },
            Pending::Ready | Pending::Closed => {
                self.close();
                Action::Fail(MpdError::Protocol)
            },
            _ => match frame(self.buffer.as_slice()) {
                Frame::Incomplete => {
                    if self.buffer.len() > MAX_RESPONSE {
                        self.close();
                        Action::Fail(MpdError::Protocol)
                    } else {
                        Action::Read
                    }
                },
                Frame::Complete { end, .. } => {
                    let rest = self.buffer.split_off(end);
                    let resp = self.buffer.clone();
                    assert(resp@ == (c0.buffer + chunk@).subrange(0, end as int));
                    self.buffer = rest;
                    self.respond(resp.as_slice())
                },
            },
        }
    }

    fn respond(&mut self, resp: &[u8]) -> (a: Action)
        ensures
            (final(self)@, a@) == on_response(
                ConnectionView { buffer: Seq::empty(), ..old(self)@ },
                resp@,
                old(self)@.buffer,
            ),
    {
        match self.pending {
            Pending::ToggleStatus => match parse_status(resp) {
                Ok(s) => self.start(toggle_command(s.state), Pending::CommandReply),
                Err(e) => {
                    self.close();
                    Action::Fail(e)
                },
            },
            Pending::CurrentSong => match parse_track(resp) {
                Ok(t) => {
                    self.pending = Pending::FinalStatus;
                    self.reply = format_reply(&t);
                    Action::Send(command_line(Command::Status))
                },
                Err(e) => {
                    self.close();
                    Action::Fail(e)
                },
            },
            Pending::FinalStatus => match parse_status(resp) {
                Ok(s) => {
                    let ghost before = self.reply@;
                    let text = self.reply.split_off(0);
                    assert(text@ =~= before);
                    self.reply = Vec::new();
                    self.pending = Pending::Ready;
                    Action::Reply(text, s.state)
                },
                Err(e) => {
                    self.close();
                    Action::Fail(e)
                },
            },
            _ => {
                self.close();
                Action::Fail(MpdError::Protocol)
            },
        }
    }
}

/// The answer to a transport command holds no fields: when its first line
/// has come and is neither `OK` nor an `ACK` line, the request fails with a
/// protocol error and the connection closes.
pub proof fn lemma_unrecognized_command_reply_fails(c: ConnectionView, chunk: Seq<u8>)
    requires
        c.pending == Pending::CommandReply,
        first_index(c.buffer + chunk, 0x0a, 0) < (c.buffer + chunk).len(),
        !is_ok_line((c.buffer + chunk).subrange(0, first_index(c.buffer + chunk, 0x0a, 0))),
        !is_ack_line((c.buffer + chunk).subrange(0, first_index(c.buffer + chunk, 0x0a, 0))),
    ensures
        step(c, chunk) == (closed(), ActionView::Fail(MpdError::Protocol)),
{
}

} // verus!
