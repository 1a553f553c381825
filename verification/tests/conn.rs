use aof::session::conn::{
    send_chunked_response, CloseCode, ConnAction, SocketMessage, UserConn, PING_LEN, PING_TIMEOUT,
};
use aof::session::protocol::{ClientMsg, Event, MsgParseError, ReqDeserError, RequestName};

#[test]
fn a_message_that_is_too_large_closes_the_connection() {
    let conn = UserConn::new("peer".to_string());
    assert_eq!(conn.peer_addr(), "peer");
    let mut msg = vec![0xc0, 0, 0, 0, 1, 6];
    msg.extend_from_slice(b"source");
    msg.resize(16_385, 0);
    assert!(matches!(conn.recv_msg(&msg), ConnAction::Close(CloseCode::Size)));
    msg.truncate(16_384);
    assert!(matches!(
        conn.recv_msg(&msg),
        ConnAction::Forward(ClientMsg::Request(1, ref frame)) if frame.name == RequestName::Source && frame.payload.len() == 16_372
    ));
}

#[test]
fn a_message_that_does_not_parse_is_a_protocol_error() {
    let conn = UserConn::new(String::new());
    match conn.recv_msg(&[0xc1, 1, 2]) {
        ConnAction::ProtocolError(Event::ProtocolError { error }) => {
            assert_eq!(error, "unknown message type c1");
        }
        other => panic!("unexpected: {:?}", other),
    }
    match conn.recv_msg(&[0x0a]) {
        ConnAction::ProtocolError(Event::ProtocolError { error }) => {
            assert_eq!(error, "unknown message type 0a");
        }
        other => panic!("unexpected: {:?}", other),
    }
    assert!(matches!(conn.recv_msg(&[]), ConnAction::ProtocolError(_)));
    assert_eq!(MsgParseError::Io.message(), "failed to fill whole buffer");
    assert_eq!(MsgParseError::NameUtf8.message(), "utf-8 error in request name");
    assert_eq!(MsgParseError::TrailingBytes.message(), "unexpected trailing bytes");
    assert_eq!(
        MsgParseError::ReqDeser(ReqDeserError::UnknownName("nope".to_string())).message(),
        "unknown request named nope"
    );
    assert_eq!(MsgParseError::ReqDeser(ReqDeserError::Decode).message(), "failed to decode data");
}

#[test]
fn the_pong_of_the_pending_ping_clears_it() {
    let mut conn = UserConn::new(String::new());
    // a pong that nobody waits for is ignored
    assert!(matches!(conn.recv_pong(&[1, 2, 3]), ConnAction::Idle));
    let payload = vec![1u8, 2, 3, 4, 5, 6, 7, 8, 9, 10, 11, 12];
    assert!(matches!(conn.ping_tick(1_000, payload.clone()), ConnAction::Ping(ref p) if p == &payload));
    match conn.recv_pong(&[1, 2, 3]) {
        ConnAction::ProtocolError(Event::ProtocolError { error }) => {
            assert_eq!(error, "Incorrect pong message");
        }
        other => panic!("unexpected: {:?}", other),
    }
    assert!(matches!(conn.recv_pong(&payload), ConnAction::Idle));
    // the next tick sends a ping again
    assert!(matches!(conn.ping_tick(31_000, vec![9]), ConnAction::Ping(_)));
}

#[test]
fn a_ping_without_a_pong_stops_the_connection_after_the_timeout() {
    let mut conn = UserConn::new(String::new());
    assert!(matches!(conn.ping_tick(1_000, vec![1]), ConnAction::Ping(_)));
    assert!(matches!(conn.ping_tick(31_000, vec![2]), ConnAction::Idle));
    assert!(matches!(conn.ping_tick(1_000 + PING_TIMEOUT, vec![3]), ConnAction::Idle));
    assert!(matches!(conn.ping_tick(1_001 + PING_TIMEOUT, vec![4]), ConnAction::Stop));
    // the clock went back
    assert!(matches!(conn.ping_tick(0, vec![5]), ConnAction::Idle));
}

#[test]
fn the_heartbeat_sends_random_pings() {
    let mut conn = UserConn::new(String::new());
    let first = match conn.ping_loop(1_000) {
        ConnAction::Ping(p) => p,
        other => panic!("unexpected: {:?}", other),
    };
    assert_eq!(first.len(), PING_LEN);
    assert!(matches!(conn.ping_loop(2_000), ConnAction::Idle));
    assert!(matches!(conn.handle(SocketMessage::Pong(first.clone())), ConnAction::Idle));
    let second = match conn.ping_loop(31_000) {
        ConnAction::Ping(p) => p,
        other => panic!("unexpected: {:?}", other),
    };
    assert_ne!(first, second);
}

#[test]
fn handles_the_messages_of_the_socket() {
    let mut conn = UserConn::new(String::new());
    assert!(matches!(conn.handle(SocketMessage::Ping(vec![1, 2])), ConnAction::Pong(ref p) if p == &vec![1, 2]));
    assert!(matches!(conn.handle(SocketMessage::Text), ConnAction::Close(CloseCode::Unsupported)));
    assert!(matches!(conn.handle(SocketMessage::Continuation), ConnAction::Close(CloseCode::Unsupported)));
    assert!(matches!(conn.handle(SocketMessage::Close), ConnAction::CloseAsAsked));
    assert!(matches!(conn.handle(SocketMessage::Nop), ConnAction::Idle));
    assert!(matches!(conn.handle(SocketMessage::Failed), ConnAction::Close(CloseCode::Error)));
    assert!(matches!(conn.handle(SocketMessage::Binary(vec![0xc1])), ConnAction::ProtocolError(_)));
    let mut msg = vec![0xc0, 0, 0, 0, 9, 11];
    msg.extend_from_slice(b"user_tokens");
    assert!(matches!(conn.handle(SocketMessage::Binary(msg)), ConnAction::Forward(ClientMsg::Request(9, _))));
}

#[test]
fn a_response_that_cannot_be_sent_is_answered_with_an_error_frame() {
    assert_eq!(send_chunked_response(3, None), vec![vec![0xcc, 0, 0, 0, 3]]);
    assert_eq!(send_chunked_response(3, Some(vec![0u8; 1_048_577])), vec![vec![0xcc, 0, 0, 0, 3]]);
    assert_eq!(send_chunked_response(3, Some(vec![5, 6])), vec![vec![0xc8, 0, 0, 0, 3, 0, 0, 0, 2, 5, 6]]);
    let frames = send_chunked_response(3, Some(vec![1u8; 40_000]));
    assert_eq!(frames.len(), 3);
    let sizes: Vec<usize> = frames.iter().map(|f| f.len()).collect();
    assert_eq!(sizes, vec![9 + 16_368, 5 + 16_368, 5 + 7_264]);
}
