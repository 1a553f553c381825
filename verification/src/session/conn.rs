//! The state of one connection: its heartbeat, what it makes of the messages
//! of its socket, and the frames of its responses.

use vstd::prelude::*;
use vstd::string::StringExecFns;

use crate::bytes::bytes_eq;
use crate::hash::hex_digit;
use crate::random::thread_random_bytes;
use crate::session::protocol::{
    chunk_frames, error_frame, frame_parts, frames_of, parse_message, parsed_as,
    write_error_response, ClientMsg, EncodedResponse, Event, EventView, MsgParseError,
    ReqDeserError, RequestId, MAX_MSG_BUF_SIZE, MAX_MSG_SIZE,
};

verus! {

/// Pings will be sent in this interval, in milliseconds.
pub const PING_INTERVAL: u64 = 30_000;

/// Time after a ping was sent before the connection will be closed if the
/// client doesn't respond, in milliseconds.
pub const PING_TIMEOUT: u64 = 60_000;

/// Interval in which response chunks will be sent, in milliseconds.
pub const CHUNK_SEND_INTERVAL: u64 = 100;

/// Length of the payload of a ping in bytes.
pub const PING_LEN: usize = 12;

/// Why a connection is closed.
#[derive(Debug, Clone, Copy, PartialEq, Eq, Structural)]
pub enum CloseCode {
    /// The client broke the protocol.
    Policy,
    /// A frame was too large.
    Size,
    /// The client sent a kind of message that is not supported.
    Unsupported,
    /// The socket failed.
    Error,
}

/// What a socket delivers.
#[derive(Debug)]
pub enum SocketMessage {
    Ping(Vec<u8>),
    Pong(Vec<u8>),
    Binary(Vec<u8>),
    Close,
    Text,
    Continuation,
    Nop,
    /// The socket failed.
    Failed,
}

/// What a connection does about a message of its socket or a tick of its
/// heartbeat.
#[derive(Debug)]
pub enum ConnAction {
    /// Nothing is to be done.
    Idle,
    /// Answer a ping with a pong of the same payload.
    Pong(Vec<u8>),
    /// Send a ping with this payload.
    Ping(Vec<u8>),
    /// Hand the message to the hub of the user.
    Forward(ClientMsg),
    /// Close the connection with a code and stop.
    Close(CloseCode),
    /// Close the connection as the client asked and stop.
    CloseAsAsked,
    /// Send the event, close the connection because the client broke the
    /// protocol, and stop.
    ProtocolError(Event),
    /// Stop without closing.
    Stop,
}

/// User connection websocket handler.
pub struct UserConn {
    /// Peer address in an unspecified format.
    peer_addr: String,
    /// Currently pending ping message, with the time at which it was sent.
    pending_ping: Option<(u64, Vec<u8>)>,
}

/// The pending ping of a connection: the time at which it was sent, and its
/// payload.
pub type PendingPing = Option<(u64, Seq<u8>)>;

/// The text of the two hex digits of a byte.
pub open spec fn hex_byte(b: u8) -> Seq<char> {
    seq![hex_digit(b as int / 16), hex_digit(b as int % 16)]
}

/// The text that tells a client why its frame was not accepted.
pub open spec fn parse_error_text(e: MsgParseError) -> Seq<char> {
    match e {
        MsgParseError::UnknownType(t) => "unknown message type "@ + hex_byte(t),
        MsgParseError::NameUtf8 => "utf-8 error in request name"@,
        MsgParseError::Io => "failed to fill whole buffer"@,
        MsgParseError::ReqDeser(ReqDeserError::UnknownName(name)) => "unknown request named "@
            + name@,
        MsgParseError::ReqDeser(ReqDeserError::Decode) => "failed to decode data"@,
        MsgParseError::TrailingBytes => "unexpected trailing bytes"@,
    }
}

/// The text of a hex digit.
fn hex_digit_str(n: u8) -> (digit: &'static str)
    requires
        n < 16,
    ensures
        digit@ == seq![hex_digit(n as int)],
{
    proof {
        reveal_strlit("0");
        reveal_strlit("1");
        reveal_strlit("2");
        reveal_strlit("3");
        reveal_strlit("4");
        reveal_strlit("5");
        reveal_strlit("6");
        reveal_strlit("7");
        reveal_strlit("8");
        reveal_strlit("9");
        reveal_strlit("a");
        reveal_strlit("b");
        reveal_strlit("c");
        reveal_strlit("d");
        reveal_strlit("e");
        reveal_strlit("f");
    }
    let digit = if n == 0 {
        "0"
    } else if n == 1 {
        "1"
    } else if n == 2 {
        "2"
    } else if n == 3 {
        "3"
    } else if n == 4 {
        "4"
    } else if n == 5 {
        "5"
    } else if n == 6 {
        "6"
    } else if n == 7 {
        "7"
    } else if n == 8 {
        "8"
    } else if n == 9 {
        "9"
    } else if n == 10 {
        "a"
    } else if n == 11 {
        "b"
    } else if n == 12 {
        "c"
    } else if n == 13 {
        "d"
    } else if n == 14 {
        "e"
    } else {
        "f"
    };
    assert(digit@ =~= seq![hex_digit(n as int)]);
    digit
}

impl MsgParseError {
    /// The text that tells a client why its frame was not accepted.
    pub fn message(&self) -> (text: String)
        ensures
            text@ == parse_error_text(*self),
    {
        match self {
            MsgParseError::UnknownType(t) => {
                let mut text = String::from_str("unknown message type ");
                text.append(hex_digit_str(*t / 16));
                text.append(hex_digit_str(*t % 16));
                assert(text@ =~= parse_error_text(*self));
                text
            },
            MsgParseError::NameUtf8 => String::from_str("utf-8 error in request name"),
            MsgParseError::Io => String::from_str("failed to fill whole buffer"),
            MsgParseError::ReqDeser(ReqDeserError::UnknownName(name)) => {
                let mut text = String::from_str("unknown request named ");
                text.append(name.as_str());
                text
            },
            MsgParseError::ReqDeser(ReqDeserError::Decode) => String::from_str(
                "failed to decode data",
            ),
            MsgParseError::TrailingBytes => String::from_str("unexpected trailing bytes"),
        }
    }
}

/// The event that tells a client that it broke the protocol.
pub open spec fn protocol_error(text: Seq<char>) -> EventView {
    EventView::ProtocolError { error: text }
}

/// Whether `action` is the closing of a connection over a broken protocol,
/// with the event that tells the client `text`.
pub open spec fn is_protocol_error(action: ConnAction, text: Seq<char>) -> bool {
    action matches ConnAction::ProtocolError(event) && event@ == protocol_error(text)
}

/// What a connection does about a binary message: a message that is too
/// large closes the connection; one that does not parse is a protocol
/// error; any other goes to the hub.
pub open spec fn binary_handled(msg: Seq<u8>, action: ConnAction) -> bool {
    if msg.len() > MAX_MSG_SIZE {
        action matches ConnAction::Close(CloseCode::Size)
    } else {
        match action {
            ConnAction::Forward(client_msg) => parsed_as(Ok(client_msg), frame_parts(msg)),
            ConnAction::ProtocolError(event) => exists|e: MsgParseError|
                #[trigger] parsed_as(Err(e), frame_parts(msg)) && event@ == protocol_error(
                    parse_error_text(e),
                ),
            _ => false,
        }
    }
}

/// What a connection with the pending ping `pending` does about a pong, and
/// its pending ping afterwards: the pong of the pending ping clears it,
/// another one is a protocol error, and a pong that nobody waits for is
/// ignored.
pub open spec fn pong_handled(
    pending: PendingPing,
    msg: Seq<u8>,
    after: PendingPing,
    action: ConnAction,
) -> bool {
    match pending {
        Some((_, ping)) => if msg == ping {
            after is None && action is Idle
        } else {
            after == pending && is_protocol_error(action, "Incorrect pong message"@)
        },
        None => after is None && action is Idle,
    }
}

/// What a connection with the pending ping `pending` does at a tick of its
/// heartbeat at the time `now`, and its pending ping afterwards: while a ping
/// is pending no ping is sent, and the connection stops once the ping has
/// been pending for longer than `PING_TIMEOUT`; else the ping `payload` is
/// sent and is pending from now on.
pub open spec fn tick_handled(
    pending: PendingPing,
    now: u64,
    payload: Seq<u8>,
    after: PendingPing,
    action: ConnAction,
) -> bool {
    match pending {
        Some((sent, _)) => after == pending && if now - sent > PING_TIMEOUT {
            action is Stop
        } else {
            action is Idle
        },
        None => after == Some((now, payload)) && (action matches ConnAction::Ping(p) && p@
            == payload),
    }
}

impl UserConn {
    /// A connection of the peer at `peer_addr`, without a pending ping.
    pub fn new(peer_addr: String) -> (conn: UserConn)
        ensures
            conn.addr() == peer_addr@,
            conn.pending() is None,
    {
        UserConn { peer_addr, pending_ping: None }
    }

    /// The peer address.
    pub closed spec fn addr(&self) -> Seq<char> {
        self.peer_addr@
    }

    /// The pending ping.
    pub closed spec fn pending(&self) -> PendingPing {
        match self.pending_ping {
            Some((sent, ping)) => Some((sent, ping@)),
            None => None,
        }
    }

    /// The connection's peer address in an unspecified format.
    pub fn peer_addr(&self) -> (addr: &str)
        ensures
            addr@ == self.addr(),
    {
        self.peer_addr.as_str()
    }

    /// Closes the connection due to a protocol error.
    pub fn close_protocol_error(message: String) -> (action: ConnAction)
        ensures
            is_protocol_error(action, message@),
    {
        ConnAction::ProtocolError(Event::ProtocolError { error: message })
    }

    /// Receives a message from the client.
    pub fn recv_msg(&self, msg: &[u8]) -> (action: ConnAction)
        ensures
            binary_handled(msg@, action),
    {
        if msg.len() > MAX_MSG_SIZE {
            return ConnAction::Close(CloseCode::Size);
        }
        match parse_message(msg) {
            Ok(client_msg) => ConnAction::Forward(client_msg),
            Err(err) => {
                let action = UserConn::close_protocol_error(err.message());
                assert(parsed_as(Err(err), frame_parts(msg@)));
                action
            },
        }
    }

    /// Sends the ping `payload` at the time `now`.
    pub fn send_ping(&mut self, now: u64, payload: Vec<u8>) -> (action: ConnAction)
        ensures
            final(self).addr() == old(self).addr(),
            final(self).pending() == Some((now, payload@)),
            action matches ConnAction::Ping(p) && p@ == payload@,
    {
        let ping = crate::text::copy_bytes(payload.as_slice());
        self.pending_ping = Some((now, payload));
        ConnAction::Ping(ping)
    }

    /// Receives a pong message.
    pub fn recv_pong(&mut self, msg: &[u8]) -> (action: ConnAction)
        ensures
            final(self).addr() == old(self).addr(),
            pong_handled(old(self).pending(), msg@, final(self).pending(), action),
    {
        let matches_ping = match &self.pending_ping {
            Some((_, ping_msg)) => Some(bytes_eq(msg, ping_msg.as_slice())),
            None => None,
        };
        match matches_ping {
            Some(true) => {
                // everything ok
                self.pending_ping = None;
                ConnAction::Idle
            },
            Some(false) => UserConn::close_protocol_error(
                String::from_str("Incorrect pong message"),
            ),
            // unexpected pong; ignore it
            None => ConnAction::Idle,
        }
    }

    /// One tick of the heartbeat at the time `now`, with the payload of the
    /// ping that is sent if one is due.
    pub fn ping_tick(&mut self, now: u64, payload: Vec<u8>) -> (action: ConnAction)
        ensures
            final(self).addr() == old(self).addr(),
            tick_handled(old(self).pending(), now, payload@, final(self).pending(), action),
    {
        let sent = match &self.pending_ping {
            Some((ping_time, _)) => Some(*ping_time),
            None => None,
        };
        match sent {
            Some(ping_time) => {
                // still waiting for a ping response, so don't send a ping yet
                if now > ping_time && now - ping_time > PING_TIMEOUT {
                    // timed out!
                    ConnAction::Stop
                } else {
                    ConnAction::Idle
                }
            },
            None => self.send_ping(now, payload),
        }
    }

    /// One tick of the heartbeat at the time `now`: every `PING_INTERVAL`.
    /// A ping that is sent has `PING_LEN` random bytes. Where no random
    /// bytes can be had no ping is sent.
    pub fn ping_loop(&mut self, now: u64) -> (action: ConnAction)
        ensures
            final(self).addr() == old(self).addr(),
            (action is Idle && final(self).pending() == old(self).pending()
                && old(self).pending() is None) || exists|payload: Seq<u8>|
                payload.len() == PING_LEN && #[trigger] tick_handled(
                    old(self).pending(),
                    now,
                    payload,
                    final(self).pending(),
                    action,
                ),
    {
        if self.pending_ping.is_none() {
            match thread_random_bytes(PING_LEN) {
                Some(payload) => {
                    let ghost p = payload@;
                    let action = self.ping_tick(now, payload);
                    assert(tick_handled(old(self).pending(), now, p, self.pending(), action));
                    action
                },
                None => ConnAction::Idle,
            }
        } else {
            let ghost p = Seq::new(PING_LEN as nat, |i: int| 0u8);
            let action = self.ping_tick(now, Vec::new());
            assert(tick_handled(old(self).pending(), now, p, self.pending(), action));
            action
        }
    }

    /// Handles a message of the socket.
    pub fn handle(&mut self, msg: SocketMessage) -> (action: ConnAction)
        ensures
            final(self).addr() == old(self).addr(),
            match msg {
                SocketMessage::Ping(payload) => (action matches ConnAction::Pong(p) && p@
                    == payload@) && final(self).pending() == old(self).pending(),
                SocketMessage::Pong(payload) => pong_handled(
                    old(self).pending(),
                    payload@,
                    final(self).pending(),
                    action,
                ),
                SocketMessage::Binary(payload) => binary_handled(payload@, action)
                    && final(self).pending() == old(self).pending(),
                SocketMessage::Close => action is CloseAsAsked
                    && final(self).pending() == old(self).pending(),
                SocketMessage::Text | SocketMessage::Continuation => (
                action matches ConnAction::Close(CloseCode::Unsupported)) && final(self).pending()
                    == old(self).pending(),
                SocketMessage::Nop => action is Idle && final(self).pending() == old(self).pending(),
                SocketMessage::Failed => (action matches ConnAction::Close(CloseCode::Error))
                    && final(self).pending() == old(self).pending(),
            },
    {
        match msg {
            SocketMessage::Ping(payload) => ConnAction::Pong(payload),
            SocketMessage::Pong(payload) => self.recv_pong(payload.as_slice()),
            SocketMessage::Binary(payload) => self.recv_msg(payload.as_slice()),
            SocketMessage::Close => ConnAction::CloseAsAsked,
            // text not supported
            SocketMessage::Text => ConnAction::Close(CloseCode::Unsupported),
            // continuations not supported
            SocketMessage::Continuation => ConnAction::Close(CloseCode::Unsupported),
            SocketMessage::Nop => ConnAction::Idle,
            SocketMessage::Failed => ConnAction::Close(CloseCode::Error),
        }
    }
}

/// The frames that answer the request `id`: those of the response with the
/// encoded payload `payload`, or one error frame where the payload could not
/// be encoded or is too large.
pub open spec fn response_frames(id: RequestId, payload: Option<Seq<u8>>) -> Seq<Seq<u8>> {
    match payload {
        Some(p) => if p.len() <= MAX_MSG_BUF_SIZE {
            chunk_frames(id, p, 0)
        } else {
            seq![error_frame(id)]
        },
        None => seq![error_frame(id)],
    }
}

/// The frames that answer the request `id`, in the order in which they are
/// sent, one every `CHUNK_SEND_INTERVAL`. `payload` is the encoded response,
/// or nothing where the response could not be encoded.
pub fn send_chunked_response(id: RequestId, payload: Option<Vec<u8>>) -> (frames: Vec<Vec<u8>>)
    ensures
        frames_of(frames@) == response_frames(
            id,
            match payload {
                Some(p) => Some(p@),
                None => None,
            },
        ),
{
    let encoded = match payload {
        Some(p) => EncodedResponse::new(id, p),
        None => Err(crate::session::protocol::WriteError::Encode),
    };
    match encoded {
        Ok(mut encoded) => encoded.write_all_chunks(),
        Err(_) => {
            let mut frame: Vec<u8> = Vec::new();
            write_error_response(id, &mut frame);
            let mut frames: Vec<Vec<u8>> = Vec::new();
            frames.push(frame);
            assert(frames_of(frames@) =~= seq![error_frame(id)]);
            frames
        },
    }
}

} // verus!
