use ws_codec::{Parsed, Parser, Serializer, WsFrame};

fn parse_message(message: &[u8]) -> (Parsed, usize) {
    let mut test_buf: Vec<u8> = message.to_vec();
    let mut test_parser = Parser::new();
    let frame = test_parser.parse(&mut test_buf);
    (frame, test_buf.len())
}

fn serialize_message(message: WsFrame) -> Vec<u8> {
    let mut test_buf: Vec<u8> = Vec::new();
    let mut test_serializer = Serializer {};
    test_serializer
        .serialize(message, &mut test_buf)
        .expect("Failed to serialize message");
    test_buf
}

#[test]
fn parse_single_unmasked() {
    // RFC 6455's example of a text message containing 'Hello', unmasked
    let message = vec![0x81, 0x05, 0x48, 0x65, 0x6c, 0x6c, 0x6f];
    let (frame, leftovers) = parse_message(&message);

    match frame {
        Parsed::Error(_) => assert!(true),
        data => assert!(false, "expected an error, got {:?}", data),
    };

    assert!(leftovers == message.len(), "Buffer has {} un-consumed bytes after parse", leftovers);
}

#[test]
fn parse_single_masked_text() {
    // RFC 6455's example of a masked text message containing 'Hello'
    let message = vec![0x81, 0x85, 0x37, 0xfa, 0x21, 0x3d, 0x7f, 0x9f, 0x4d, 0x51, 0x58];
    let (frame, leftovers) = parse_message(&message);

    let proto_frame = match frame {
        Parsed::Message(msg) => msg,
        err => {
            assert!(false, "Parser returned error {:?}", err);
            WsFrame::Close { code: 666, reason: "Bullshit".to_string() }
        }
    };
    let ws_frame = match proto_frame {
        WsFrame::Text { payload } => payload,
        err => {
            assert!(false, "Incorrect WsFrame variant. Got {:?}", err);
            "Bullshit".to_string()
        }
    };
    assert!(ws_frame == "Hello");

    assert!(leftovers == 0, "Buffer has {} un-consumed bytes after parse", leftovers);
}

#[test]
fn parse_single_masked_binary() {
    // Same as the text example, but a binary frame is expected back instead
    let message = vec![0x82, 0x85, 0x37, 0xfa, 0x21, 0x3d, 0x7f, 0x9f, 0x4d, 0x51, 0x58];
    let (frame, leftovers) = parse_message(&message);

    let proto_frame = match frame {
        Parsed::Message(msg) => msg,
        err => {
            assert!(false, "Parser returned error {:?}", err);
            WsFrame::Close { code: 666, reason: "Bullshit".to_string() }
        }
    };
    let ws_frame = match proto_frame {
        WsFrame::Binary { payload } => payload,
        err => {
            assert!(false, "Incorrect WsFrame variant. Got {:?}", err);
            "Bullshit".as_bytes().to_vec()
        }
    };
    assert!(ws_frame == "Hello".as_bytes());
    assert!(leftovers == 0, "Buffer has {} un-consumed bytes after parse", leftovers);
}

#[test]
fn parse_single_masked_ping() {
    // A simple masked PING frame with a payload of 'Hello'
    let message = vec![0x89, 0x85, 0x37, 0xfa, 0x21, 0x3d, 0x7f, 0x9f, 0x4d, 0x51, 0x58];
    let (frame, leftovers) = parse_message(&message);

    let proto_frame = match frame {
        Parsed::Message(msg) => msg,
        err => {
            assert!(false, "Parser returned error {:?}", err);
            WsFrame::Close { code: 666, reason: "Bullshit".to_string() }
        }
    };
    let ws_frame = match proto_frame {
        WsFrame::Ping { payload } => payload,
        err => {
            assert!(false, "Incorrect WsFrame variant. Got {:?}", err);
            vec![0xDE, 0xAD, 0xBE, 0xEF]
        }
    };
    assert!(ws_frame == "Hello".as_bytes());
    assert!(leftovers == 0, "Buffer has {} un-consumed bytes after parse", leftovers);
}

#[test]
fn parse_single_masked_pong() {
    // A simple masked PONG frame with a payload of 'Hello'
    let message = vec![0x8a, 0x85, 0x37, 0xfa, 0x21, 0x3d, 0x7f, 0x9f, 0x4d, 0x51, 0x58];
    let (frame, leftovers) = parse_message(&message);

    let proto_frame = match frame {
        Parsed::Message(msg) => msg,
        err => {
            assert!(false, "Parser returned error {:?}", err);
            WsFrame::Close { code: 666, reason: "Bullshit".to_string() }
        }
    };
    let ws_frame = match proto_frame {
        WsFrame::Pong { payload } => payload,
        err => {
            assert!(false, "Incorrect WsFrame variant. Got {:?}", err);
            vec![0xDE, 0xAD, 0xBE, 0xEF]
        }
    };
    assert!(ws_frame == "Hello".as_bytes());
    assert!(leftovers == 0, "Buffer has {} un-consumed bytes after parse", leftovers);
}

#[test]
fn serialze_single_unmasked_text() {
    let test_frame = WsFrame::Text { payload: "Hello".to_string() };
    let expected_payload = vec![0x81, 0x05, 0x48, 0x65, 0x6c, 0x6c, 0x6f];
    let bytes = serialize_message(test_frame);
    assert!(bytes == expected_payload, "Expected: {:?}\nActual: {:?}", expected_payload, bytes);
}

#[test]
fn serialize_single_unmasked_binary() {
    let test_frame = WsFrame::Binary { payload: "Hello".as_bytes().to_vec() };
    let expected_payload = vec![0x82, 0x05, 0x48, 0x65, 0x6c, 0x6c, 0x6f];
    let bytes = serialize_message(test_frame);
    assert!(bytes == expected_payload, "Expected: {:?}\nActual: {:?}", expected_payload, bytes);
}

#[test]
fn serialize_single_unmasked_ping() {
    let test_frame = WsFrame::Ping { payload: "Hello".as_bytes().to_vec() };
    let expected_payload = vec![0x89, 0x05, 0x48, 0x65, 0x6c, 0x6c, 0x6f];
    let bytes = serialize_message(test_frame);
    assert!(bytes == expected_payload, "Expected: {:?}\nActual: {:?}", expected_payload, bytes);
}

#[test]
fn serialize_single_unmasked_pong() {
    let test_frame = WsFrame::Pong { payload: "Hello".as_bytes().to_vec() };
    let expected_payload = vec![0x8a, 0x05, 0x48, 0x65, 0x6c, 0x6c, 0x6f];
    let bytes = serialize_message(test_frame);
    assert!(bytes == expected_payload, "Expected: {:?}\nActual: {:?}", expected_payload, bytes);
}

#[test]
fn interop_single_cient_server_text() {
    let test_masked_bytes = vec![0x81, 0x85, 0x37, 0xfa, 0x21, 0x3d, 0x7f, 0x9f, 0x4d, 0x51, 0x58];
    let test_unmasked_bytes = vec![0x81, 0x05, 0x48, 0x65, 0x6c, 0x6c, 0x6f];

    // Send the message through the system and see if it comes back OK
    let (frame, leftovers) = parse_message(&test_masked_bytes);
    assert!(leftovers == 0, "{} un-consumed bytes in the buffer after parse", leftovers);
    let message = match frame {
        Parsed::Message(msg) => msg,
        other => panic!("expected a message, got {:?}", other),
    };
    let bytes = serialize_message(message);
    assert!(
        bytes == test_unmasked_bytes,
        "Serialized frame is incorrect.\nExpected {:?}\nActual {:?}",
        test_unmasked_bytes,
        bytes
    );
}
