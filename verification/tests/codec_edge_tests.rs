//! Frame-level behavior: round trips through the length prefix, truncation
//! safety, byte-exact frames, and each parse error.

use schengen::protocol::{parse_message, parse_message_with_length, FrameAccumulator, Message,
    ProtocolError, ProtocolMessage, MessageCursorEntered, MessageKeepAlive, MessageHelloBarrier,
    MessageHelloSynergy, MessageSetOptions, MessageClipboardData, DsopOption};

#[test]
fn test_frame_cursor_entered_concrete_bytes() {
    // Encoding CursorEntered{x=1920, y=1080, sequence=42, mask=3} yields
    // "CINN" followed by big-endian 1920, 1080, 42, 3; payload length 14;
    // the frame is [0,0,0,14] + payload.
    let msg = Message::CursorEntered(MessageCursorEntered {
        x: 1920,
        y: 1080,
        sequence: 42,
        mask: 3,
    });
    let frame = msg.to_bytes();
    assert_eq!(frame.len(), 18);
    assert_eq!(&frame[0..4], &[0, 0, 0, 14]);
    assert_eq!(&frame[4..8], b"CINN");
    assert_eq!(&frame[8..10], &1920i16.to_be_bytes());
    assert_eq!(&frame[10..12], &1080i16.to_be_bytes());
    assert_eq!(&frame[12..16], &42u32.to_be_bytes());
    assert_eq!(&frame[16..18], &3u16.to_be_bytes());
}

#[test]
fn test_frame_roundtrip_and_consumed() {
    // Parsing a complete frame consumes exactly 4 + declared_length bytes.
    let msg = Message::CursorEntered(MessageCursorEntered {
        x: -100,
        y: 200,
        sequence: 7,
        mask: 0,
    });
    let frame = msg.to_bytes();
    let (parsed, consumed) = parse_message_with_length(&frame).unwrap();
    assert_eq!(consumed, frame.len());
    assert_eq!(consumed, 4 + 14);
    assert_eq!(parsed, msg);
}

#[test]
fn test_frame_truncation_yields_insufficient_data() {
    // Truncating an encoded frame at every prefix length strictly less
    // than the full length yields InsufficientData.
    let messages = vec![
        Message::KeepAlive(MessageKeepAlive),
        Message::CursorEntered(MessageCursorEntered { x: 1, y: 2, sequence: 3, mask: 4 }),
        Message::HelloBarrier(MessageHelloBarrier {
            major: 1,
            minor: 6,
            client_name: Some("abc".to_string()),
        }),
        Message::SetOptions(MessageSetOptions { options: vec![(1, 2), (3, 4)] }),
        Message::ClipboardData(MessageClipboardData {
            id: 0,
            sequence: 9,
            mark: 0,
            data: "xyz".into(),
        }),
    ];
    for msg in messages {
        let frame = msg.to_bytes();
        for cut in 0..frame.len() {
            let result = parse_message_with_length(&frame[..cut]);
            assert!(matches!(result, Err(ProtocolError::InsufficientData { .. })));
        }
    }
}

#[test]
fn test_parse_message_hello_dialects() {
    let reply = MessageHelloBarrier {
        major: 1,
        minor: 6,
        client_name: Some("deskmate".to_string()),
    };
    let parsed = parse_message(&reply.to_bytes()).unwrap();
    assert_eq!(parsed, Message::HelloBarrier(reply));

    let greeting = MessageHelloSynergy { major: 1, minor: 4, client_name: None };
    let parsed = parse_message(&greeting.to_bytes()).unwrap();
    assert_eq!(parsed, Message::HelloSynergy(greeting));
}

#[test]
fn test_invalid_message_code() {
    // A code that is not valid text is InvalidMessageCode, not unknown.
    let data = [0xFF, 0xFE, 0xFD, 0xFC];
    let result = parse_message(&data);
    assert!(matches!(result, Err(ProtocolError::InvalidMessageCode)));
}

#[test]
fn test_invalid_utf8_in_string_field() {
    // A DCLP whose string bytes are not UTF-8 fails with InvalidUtf8.
    let mut data = Vec::new();
    data.extend_from_slice(b"DCLP");
    data.push(0); // id
    data.extend_from_slice(&1u32.to_be_bytes()); // sequence
    data.push(0); // mark
    data.extend_from_slice(&2u32.to_be_bytes()); // string length
    data.extend_from_slice(&[0xC3, 0x28]); // malformed UTF-8
    let result = parse_message(&data);
    assert!(matches!(result, Err(ProtocolError::InvalidUtf8)));
}

#[test]
fn test_dsop_invalid_data_zero_length() {
    let mut data = Vec::new();
    data.extend_from_slice(b"DSOP");
    data.extend_from_slice(&0u32.to_be_bytes());
    let result = parse_message(&data);
    assert!(matches!(result, Err(ProtocolError::InvalidData(_))));
}

#[test]
fn test_dsop_invalid_data_even_element_count() {
    // element_count - 1 must be even: a count of 2 leaves one dangling
    // element.
    let mut data = Vec::new();
    data.extend_from_slice(b"DSOP");
    data.extend_from_slice(&2u32.to_be_bytes());
    data.extend_from_slice(&7u32.to_be_bytes());
    let result = parse_message(&data);
    assert!(matches!(result, Err(ProtocolError::InvalidData(_))));
}

#[test]
fn test_dsop_preserves_unknown_keys_and_order() {
    // Unknown option keys are preserved as opaque pairs, in order.
    let msg = MessageSetOptions {
        options: vec![(0xDEADBEEF, 1), (0x48415254, 3000), (0x01020304, 9)],
    };
    let parsed = MessageSetOptions::from_bytes(&msg.to_bytes()).unwrap();
    assert_eq!(parsed.options, vec![(0xDEADBEEF, 1), (0x48415254, 3000), (0x01020304, 9)]);
    assert_eq!(DsopOption::from_u32(0xDEADBEEF), None);
    assert_eq!(DsopOption::from_u32(0x48415254), Some(DsopOption::Heartbeat));
}

#[test]
fn test_dsop_option_codes() {
    assert_eq!(DsopOption::Heartbeat.code(), "HART");
    assert_eq!(DsopOption::HalfDuplexCapsLock.code(), "HDCL");
    assert_eq!(DsopOption::Win32KeepForeground.code(), "_KFW");
    assert_eq!(DsopOption::from_u32(0x434C5053), Some(DsopOption::ClipboardSharing));
}

#[test]
fn test_error_describe() {
    let e = ProtocolError::InsufficientData { expected: 4, actual: 1 };
    assert_eq!(e.describe(), "insufficient data");
    assert_eq!(ProtocolError::InvalidUtf8.describe(), "invalid UTF-8 string in message data");
}

#[test]
fn test_message_codes() {
    assert_eq!(MessageKeepAlive::code(), "CALV");
    assert_eq!(MessageHelloBarrier::code(), "Barrier");
    assert_eq!(MessageHelloSynergy::code(), "Synergy");
    assert_eq!(MessageSetOptions::code(), "DSOP");
}

#[test]
fn test_frame_length_prefix_counts_payload_only() {
    let msg = Message::KeepAlive(MessageKeepAlive);
    let frame = msg.to_bytes();
    assert_eq!(frame, vec![0, 0, 0, 4, b'C', b'A', b'L', b'V']);
    let (parsed, consumed) = parse_message_with_length(&frame).unwrap();
    assert_eq!(consumed, 8);
    assert_eq!(parsed, msg);
}

#[test]
fn test_frame_accumulator_reassembles_split_frames() {
    let first = Message::CursorEntered(MessageCursorEntered { x: 1, y: 2, sequence: 3, mask: 4 });
    let second = Message::KeepAlive(MessageKeepAlive);
    let mut stream_bytes = first.to_bytes();
    stream_bytes.extend_from_slice(&second.to_bytes());

    let mut frames = FrameAccumulator::new();
    // Feed the stream one byte at a time: nothing is delivered until a
    // frame is complete, and each frame comes out exactly once.
    let mut delivered = Vec::new();
    for b in stream_bytes {
        frames.extend(&[b]);
        while let Some(result) = frames.next_message() {
            delivered.push(result.unwrap());
        }
    }
    assert_eq!(delivered, vec![first, second]);
    assert_eq!(frames.len(), 0);
}

#[test]
fn test_frame_accumulator_consumes_malformed_frame() {
    let mut frames = FrameAccumulator::new();
    // A complete frame whose payload is an unknown code, followed by a
    // good frame: the bad frame is consumed and reported, the good one
    // still comes out.
    frames.extend(&[0, 0, 0, 4]);
    frames.extend(b"XXXX");
    frames.extend(&Message::KeepAlive(MessageKeepAlive).to_bytes());
    let bad = frames.next_message().unwrap();
    assert!(matches!(bad, Err(ProtocolError::UnknownMessageCode(_))));
    let good = frames.next_message().unwrap().unwrap();
    assert_eq!(good, Message::KeepAlive(MessageKeepAlive));
    assert!(frames.next_message().is_none());
}
