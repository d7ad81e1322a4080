//! The decisions of one console session: who may open it, what each
//! inbound frame causes, what the output forwarder sends, and what the
//! attach bridge does on each event. The tasks that carry these out, the
//! shared cancellation signal and the writer lock live with the caller.

use vstd::prelude::*;
use vstd::string::*;
use crate::message::{decode_spec, MessageView, WebsocketMessage, encode_spec};
use crate::version::{trim_str, trimmed};

verus! {

/// Why a request on a server was refused.
#[derive(Clone, Copy, Debug, PartialEq, Eq, Structural)]
pub enum AccessError {
    /// No valid token, or (for a console) a server of another user.
    Unauthorized,
    /// The server belongs to another user.
    Forbidden,
    /// No server has that identifier.
    ServerNotFound,
    /// The path holds no valid server identifier.
    InvalidServerId,
}

/// The HTTP status of an access error.
pub open spec fn access_status(e: AccessError) -> u16 {
    match e {
        AccessError::Unauthorized => 401,
        AccessError::Forbidden => 403,
        AccessError::ServerNotFound => 404,
        AccessError::InvalidServerId => 400,
    }
}

impl AccessError {
    /// 401, 403 or 404.
    pub fn status_code(&self) -> (r: u16)
        ensures
            r == access_status(*self),
    {
        match self {
            AccessError::Unauthorized => 401,
            AccessError::Forbidden => 403,
            AccessError::ServerNotFound => 404,
            AccessError::InvalidServerId => 400,
        }
    }
}

/// The identifier that `uuid::Uuid::parse_str` reads from a text, if any.
pub uninterp spec fn uuid_value(s: Seq<char>) -> Option<u128>;

/// Relies on `uuid::Uuid::parse_str`: reads the simple, hyphenated, braced
/// or URN form of an identifier; the result depends on the text alone.
#[verifier::external_body]
fn parse_uuid(s: &str) -> (r: Option<u128>)
    ensures
        r == uuid_value(s@),
{
    match uuid::Uuid::parse_str(s) {
        Ok(u) => Some(u.as_u128()),
        Err(_) => None,
    }
}

/// The server identifier in a request path, or `InvalidServerId`.
pub fn parse_server_id(s: &str) -> (r: Result<u128, AccessError>)
    ensures
        r == (match uuid_value(s@) {
            Some(id) => Ok(id),
            None => Err(AccessError::InvalidServerId),
        }),
{
    match parse_uuid(s) {
        Some(id) => Ok(id),
        None => Err(AccessError::InvalidServerId),
    }
}

/// Whether `user` may act on a server whose record has owner `owner`
/// (`None`: no such record). Another user's server is `Forbidden`.
pub fn check_owner(user: u128, owner: Option<u128>) -> (r: Result<(), AccessError>)
    ensures
        r == (match owner {
            None => Err(AccessError::ServerNotFound),
            Some(o) => if o == user {
                Ok(())
            } else {
                Err(AccessError::Forbidden)
            },
        }),
{
    match owner {
        None => Err(AccessError::ServerNotFound),
        Some(o) => if o == user {
            Ok(())
        } else {
            Err(AccessError::Forbidden)
        },
    }
}

/// Whether a console may open: `user` is the user that the query-string
/// token names (`None`: no valid token), `owner` the owner of the server's
/// record (`None`: no such record). The token is checked first; a server
/// of another user is refused as `Unauthorized`.
pub fn admit_session(user: Option<u128>, owner: Option<u128>) -> (r: Result<(), AccessError>)
    ensures
        r == (match user {
            None => Err(AccessError::Unauthorized),
            Some(u) => match owner {
                None => Err(AccessError::ServerNotFound),
                Some(o) => if o == u {
                    Ok(())
                } else {
                    Err(AccessError::Unauthorized)
                },
            },
        }),
{
    match user {
        None => Err(AccessError::Unauthorized),
        Some(u) => match owner {
            None => Err(AccessError::ServerNotFound),
            Some(o) => if o == u {
                Ok(())
            } else {
                Err(AccessError::Unauthorized)
            },
        },
    }
}

/// A frame received on the websocket.
pub enum InboundFrame {
    /// A protocol-level ping with its payload.
    Ping(Vec<u8>),
    /// A text frame.
    Text(String),
    /// The client closed the connection.
    Close,
    /// Any other frame (binary, pong, continuation).
    Other,
}

/// What to do with an inbound frame.
pub enum InboundAction {
    /// Answer with a protocol-level pong carrying this payload, under the
    /// writer lock.
    Pong(Vec<u8>),
    /// Send this line to the container's stdin.
    Stdin(String),
    /// Nothing to do (an application ping, or a frame of no interest).
    Ignore,
    /// A frame of this format that the server does not handle: log a warning.
    Unhandled,
    /// Text that is no frame: log it and go on.
    Invalid,
    /// The client closed: fire the cancellation signal and stop.
    Stop,
}

/// An inbound frame as plain values.
pub enum FrameView {
    Ping(Seq<u8>),
    Text(Seq<char>),
    Close,
    Other,
}

/// An inbound action as plain values.
pub enum ActionView {
    Pong(Seq<u8>),
    Stdin(Seq<char>),
    Ignore,
    Unhandled,
    Invalid,
    Stop,
}

impl View for InboundFrame {
    type V = FrameView;

    open spec fn view(&self) -> FrameView {
        match self {
            InboundFrame::Ping(b) => FrameView::Ping(b@),
            InboundFrame::Text(t) => FrameView::Text(t@),
            InboundFrame::Close => FrameView::Close,
            InboundFrame::Other => FrameView::Other,
        }
    }
}

impl View for InboundAction {
    type V = ActionView;

    open spec fn view(&self) -> ActionView {
        match self {
            InboundAction::Pong(b) => ActionView::Pong(b@),
            InboundAction::Stdin(s) => ActionView::Stdin(s@),
            InboundAction::Ignore => ActionView::Ignore,
            InboundAction::Unhandled => ActionView::Unhandled,
            InboundAction::Invalid => ActionView::Invalid,
            InboundAction::Stop => ActionView::Stop,
        }
    }
}

/// The action for an inbound frame.
pub open spec fn inbound_spec(f: FrameView) -> ActionView {
    match f {
        FrameView::Ping(b) => ActionView::Pong(b),
        FrameView::Text(t) => match decode_spec(t) {
            Some(MessageView::Command(c)) => ActionView::Stdin(c.push('\n')),
            Some(MessageView::Ping) => ActionView::Ignore,
            Some(MessageView::Log(_)) => ActionView::Unhandled,
            None => ActionView::Invalid,
        },
        FrameView::Close => ActionView::Stop,
        FrameView::Other => ActionView::Ignore,
    }
}

/// The line sent to stdin for a command: the command and one line feed.
pub fn command_line(command: &str) -> (r: String)
    ensures
        r@ == command@.push('\n'),
{
    let mut r = String::from_str(command);
    r.push('\n');
    r
}

/// Decides what an inbound frame causes.
pub fn inbound_action(frame: InboundFrame) -> (r: InboundAction)
    ensures
        r@ == inbound_spec(frame@),
{
    match frame {
        InboundFrame::Ping(b) => InboundAction::Pong(b),
        InboundFrame::Text(t) => match WebsocketMessage::decode(t.as_str()) {
            Some(WebsocketMessage::Command(c)) => InboundAction::Stdin(command_line(c.as_str())),
            Some(WebsocketMessage::Ping) => InboundAction::Ignore,
            Some(WebsocketMessage::Log(_)) => InboundAction::Unhandled,
            None => InboundAction::Invalid,
        },
        InboundFrame::Close => InboundAction::Stop,
        InboundFrame::Other => InboundAction::Ignore,
    }
}

/// The frames that the handler reads: those before the first close.
pub open spec fn received(fs: Seq<FrameView>) -> Seq<FrameView>
    decreases fs.len(),
{
    if fs.len() == 0 {
        fs
    } else if fs[0] is Close {
        Seq::empty()
    } else {
        seq![fs[0]] + received(fs.subrange(1, fs.len() as int))
    }
}

/// The commands that a sequence of frames carries, in order.
pub open spec fn commands_of(fs: Seq<FrameView>) -> Seq<Seq<char>>
    decreases fs.len(),
{
    if fs.len() == 0 {
        Seq::empty()
    } else {
        let rest = commands_of(fs.subrange(1, fs.len() as int));
        match fs[0] {
            FrameView::Text(t) => match decode_spec(t) {
                Some(MessageView::Command(c)) => seq![c] + rest,
                _ => rest,
            },
            _ => rest,
        }
    }
}

/// The stdin lines that handling a sequence of frames produces, in order.
pub open spec fn stdin_lines(fs: Seq<FrameView>) -> Seq<Seq<char>>
    decreases fs.len(),
{
    if fs.len() == 0 {
        Seq::empty()
    } else {
        let rest = stdin_lines(fs.subrange(1, fs.len() as int));
        match inbound_spec(fs[0]) {
            ActionView::Stdin(l) => seq![l] + rest,
            _ => rest,
        }
    }
}

/// Every command received on the websocket reaches stdin with exactly one
/// line feed appended, in the order received, and nothing else reaches it.
pub proof fn lemma_commands_reach_stdin_in_order(fs: Seq<FrameView>)
    ensures
        stdin_lines(received(fs)) == commands_of(received(fs)).map_values(
            |c: Seq<char>| c.push('\n'),
        ),
    decreases fs.len(),
{
    let r = received(fs);
    if fs.len() == 0 {
        assert(commands_of(r).map_values(|c: Seq<char>| c.push('\n')) =~= Seq::empty());
    } else if fs[0] is Close {
        assert(commands_of(r).map_values(|c: Seq<char>| c.push('\n')) =~= Seq::empty());
    } else {
        let tail = fs.subrange(1, fs.len() as int);
        lemma_commands_reach_stdin_in_order(tail);
        let rt = received(tail);
        assert(r == seq![fs[0]] + rt);
        assert(r.subrange(1, r.len() as int) =~= rt);
        assert(r[0] == fs[0]);
        let f = |c: Seq<char>| c.push('\n');
        match fs[0] {
            FrameView::Text(t) => match decode_spec(t) {
                Some(MessageView::Command(c)) => {
                    assert((seq![c] + commands_of(rt)).map_values(f) =~= seq![c.push('\n')]
                        + commands_of(rt).map_values(f));
                },
                _ => {},
            },
            _ => {},
        }
    }
}

/// What the broadcast of container output delivered to a forwarder.
pub enum OutputEvent {
    /// One chunk of output.
    Chunk(String),
    /// This receiver fell behind and chunks were dropped.
    Lagged,
    /// The bridge has gone.
    Closed,
}

/// What the forwarder does with an output event.
pub enum ForwardAction {
    /// Send this text frame under the writer lock.
    Send(String),
    /// Nothing to send; keep going.
    Skip,
    /// Stop and fire the cancellation signal.
    Stop,
}

/// Decides what the output forwarder does: a chunk goes out as a log frame
/// of its trimmed text, a lag is tolerated, a closed broadcast ends the
/// forwarder.
pub fn forward_action(event: OutputEvent) -> (r: ForwardAction)
    ensures
        match event {
            OutputEvent::Chunk(c) => r matches ForwardAction::Send(t) && t@ == encode_spec(
                MessageView::Log(trimmed(c@)),
            ),
            OutputEvent::Lagged => r is Skip,
            OutputEvent::Closed => r is Stop,
        },
{
    match event {
        OutputEvent::Chunk(c) => {
            let m = WebsocketMessage::Log(String::from_str(trim_str(c.as_str())));
            ForwardAction::Send(m.encode())
        },
        OutputEvent::Lagged => ForwardAction::Skip,
        OutputEvent::Closed => ForwardAction::Stop,
    }
}

/// The text of the keep-alive frame that the pinger sends every 5 seconds.
pub fn ping_text() -> (r: String)
    ensures
        r@ == encode_spec(MessageView::Ping),
{
    WebsocketMessage::Ping.encode()
}

/// What the text of a byte chunk is when invalid UTF-8 sequences are
/// replaced by U+FFFD.
pub uninterp spec fn utf8_lossy(b: Seq<u8>) -> Seq<char>;

/// Relies on `String::from_utf8_lossy`: decodes the bytes, replacing each
/// invalid sequence by U+FFFD; the result depends on the bytes alone.
#[verifier::external_body]
fn lossy_text(b: &[u8]) -> (r: String)
    ensures
        r@ == utf8_lossy(b@),
{
    String::from_utf8_lossy(b).into_owned()
}

/// An event seen by the attach bridge.
pub enum BridgeEvent {
    /// The session's cancellation signal fired.
    Cancelled,
    /// A frame of container output.
    Output(Vec<u8>),
    /// Reading one frame of output failed.
    OutputGap,
    /// The output stream has ended: the container went away.
    OutputEnded,
    /// A command line from the session's stdin channel.
    Command(String),
    /// The stdin channel has no more senders.
    CommandsClosed,
}

/// What the attach bridge does on an event.
pub enum BridgeAction {
    /// Drop the attach stream, fire the cancellation signal and end.
    Exit,
    /// Broadcast this chunk to the session's forwarders.
    Broadcast(String),
    /// Write these bytes to the container's stdin and flush.
    WriteStdin(Vec<u8>),
    /// Nothing to do.
    Idle,
}

/// Decides the bridge's action: output is broadcast as lossy UTF-8 text,
/// commands are written bytewise, failures of a single read are swallowed,
/// and cancellation or the end of the output ends the bridge.
pub fn bridge_action(event: BridgeEvent) -> (r: BridgeAction)
    ensures
        match event {
            BridgeEvent::Cancelled => r is Exit,
            BridgeEvent::Output(b) => r matches BridgeAction::Broadcast(s) && s@ == utf8_lossy(b@),
            BridgeEvent::Command(c) => r matches BridgeAction::WriteStdin(b) && b@ == vstd::utf8::encode_utf8(c@),
            BridgeEvent::OutputGap => r is Idle,
            BridgeEvent::OutputEnded => r is Exit,
            BridgeEvent::CommandsClosed => r is Idle,
        },
{
    match event {
        BridgeEvent::Cancelled => BridgeAction::Exit,
        BridgeEvent::Output(b) => BridgeAction::Broadcast(lossy_text(b.as_slice())),
        BridgeEvent::Command(c) => BridgeAction::WriteStdin(c.as_str().as_bytes_vec()),
        BridgeEvent::OutputGap => BridgeAction::Idle,
        BridgeEvent::OutputEnded => BridgeAction::Exit,
        BridgeEvent::CommandsClosed => BridgeAction::Idle,
    }
}

} // verus!
