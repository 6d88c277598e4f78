use ws_codec::{
    Closed, Closing, Connecting, Connection, ConnectionEvent, ConnectionState, Lifecycle, Open,
    Parsed, ProtocolError, WsFrame, WsProtocol,
};

const KEY: [u8; 4] = [1, 2, 3, 4];

fn client_frame(code: u8, payload: &[u8]) -> Vec<u8> {
    let mut out = vec![0x80 | code, 0x80 | payload.len() as u8];
    out.extend_from_slice(&KEY);
    for (i, b) in payload.iter().enumerate() {
        out.push(b ^ KEY[i % 4]);
    }
    out
}

fn open_connection() -> Connection {
    let mut c = Connection::new();
    assert_eq!(c.state(), ConnectionState::Connecting);
    c.handle_event(ConnectionEvent::HandshakeComplete).unwrap();
    assert_eq!(c.state(), ConnectionState::Open);
    c
}

#[test]
fn receiving_close_while_open_moves_to_closing() {
    let mut c = open_connection();
    let mut buf = client_frame(0x8, &[0x03, 0xE8]);
    let r = c.receive(&mut buf);
    assert_eq!(r, Parsed::Message(WsFrame::Close { code: 1000, reason: String::new() }));
    assert_eq!(c.state(), ConnectionState::Closing);
    // A data frame while Closing is a protocol error and closes the connection
    let mut data = client_frame(0x1, b"late");
    assert_eq!(c.receive(&mut data), Parsed::Error(ProtocolError::FrameOutsideOpen));
    assert_eq!(c.state(), ConnectionState::Closed);
}

#[test]
fn sending_close_while_open_moves_to_closing() {
    let mut c = open_connection();
    let mut out = Vec::new();
    c.send(WsFrame::Close { code: 1000, reason: String::new() }, &mut out).unwrap();
    assert_eq!(out, vec![0x88, 0x02, 0x03, 0xE8]);
    assert_eq!(c.state(), ConnectionState::Closing);
    // The peer's close completes the handshake
    let mut buf = client_frame(0x8, &[]);
    assert!(matches!(c.receive(&mut buf), Parsed::Message(WsFrame::Close { .. })));
    assert_eq!(c.state(), ConnectionState::Closed);
    let mut again = client_frame(0x9, &[]);
    assert_eq!(c.receive(&mut again), Parsed::Error(ProtocolError::ConnectionClosed));
    // Once Closed, data is refused as outside Open, control as closed
    let mut more = Vec::new();
    assert_eq!(
        c.send(WsFrame::Text { payload: "x".to_string() }, &mut more),
        Err(ProtocolError::FrameOutsideOpen)
    );
    assert_eq!(
        c.send(WsFrame::Ping { payload: vec![] }, &mut more),
        Err(ProtocolError::ConnectionClosed)
    );
    assert!(more.is_empty());
    assert_eq!(c.state(), ConnectionState::Closed);
}

#[test]
fn data_sent_while_closing_is_refused_and_closes() {
    let mut c = open_connection();
    let mut out = Vec::new();
    c.send(WsFrame::Close { code: 1000, reason: String::new() }, &mut out).unwrap();
    let mut more = Vec::new();
    assert_eq!(
        c.send(WsFrame::Binary { payload: vec![1] }, &mut more),
        Err(ProtocolError::FrameOutsideOpen)
    );
    assert!(more.is_empty());
    assert_eq!(c.state(), ConnectionState::Closed);
}

#[test]
fn oversized_control_send_closes_the_connection() {
    let mut c = open_connection();
    let mut out = Vec::new();
    assert_eq!(
        c.send(WsFrame::Ping { payload: vec![0u8; 126] }, &mut out),
        Err(ProtocolError::ControlFrameTooLong)
    );
    assert!(out.is_empty());
    assert_eq!(c.state(), ConnectionState::Closed);
}

#[test]
fn pings_still_flow_while_closing() {
    let mut c = open_connection();
    let mut buf = client_frame(0x8, &[]);
    c.receive(&mut buf);
    let mut ping = client_frame(0x9, b"p");
    assert_eq!(c.receive(&mut ping), Parsed::Message(WsFrame::Ping { payload: b"p".to_vec() }));
    let mut out = Vec::new();
    c.send(WsFrame::Pong { payload: b"p".to_vec() }, &mut out).unwrap();
    assert_eq!(out, vec![0x8A, 0x01, b'p']);
    assert_eq!(c.state(), ConnectionState::Closing);
}

#[test]
fn protocol_error_closes_without_closing_state() {
    let mut c = open_connection();
    let mut buf = vec![0x81, 0x05, 0x48, 0x65, 0x6C, 0x6C, 0x6F];
    assert_eq!(c.receive(&mut buf), Parsed::Error(ProtocolError::UnmaskedFrame));
    assert_eq!(c.state(), ConnectionState::Closed);
}

#[test]
fn frames_before_handshake_are_refused() {
    let mut c = Connection::new();
    let mut buf = client_frame(0x2, &[1]);
    assert_eq!(c.receive(&mut buf), Parsed::Error(ProtocolError::FrameOutsideOpen));
    assert_eq!(c.state(), ConnectionState::Closed);
    let mut c = Connection::new();
    let mut out = Vec::new();
    assert_eq!(
        c.send(WsFrame::Binary { payload: vec![] }, &mut out),
        Err(ProtocolError::FrameOutsideOpen)
    );
    assert_eq!(c.state(), ConnectionState::Closed);
}

#[test]
fn transitions_only_move_forward() {
    let l = Lifecycle::new();
    assert_eq!(l.transition(ConnectionEvent::CloseSent), Err(ProtocolError::InvalidTransition));
    let open = l.transition(ConnectionEvent::HandshakeComplete).unwrap();
    assert_eq!(open.state, ConnectionState::Open);
    assert_eq!(
        open.transition(ConnectionEvent::HandshakeComplete),
        Err(ProtocolError::InvalidTransition)
    );
    assert_eq!(open.transition(ConnectionEvent::CloseTimeout), Err(ProtocolError::InvalidTransition));
    let closing = open.transition(ConnectionEvent::CloseReceived).unwrap();
    assert_eq!(closing.state, ConnectionState::Closing);
    let closed = closing.transition(ConnectionEvent::CloseTimeout).unwrap();
    assert_eq!(closed.state, ConnectionState::Closed);
    assert_eq!(closed.transition(ConnectionEvent::Failure), Err(ProtocolError::InvalidTransition));
    let failed = Lifecycle::new().transition(ConnectionEvent::Failure).unwrap();
    assert_eq!(failed.state, ConnectionState::Closed);
}

#[test]
fn typed_states_convert_forward() {
    let connecting: WsProtocol<Connecting> = WsProtocol::new();
    let open: WsProtocol<Open> = connecting.into();
    let closing: WsProtocol<Closing> = open.into();
    let _closed: WsProtocol<Closed> = closing.into();
    let _failed: WsProtocol<Closed> = WsProtocol::<Open>::from(WsProtocol::new()).into();
    let _aborted: WsProtocol<Closed> = WsProtocol::new().into();
}
