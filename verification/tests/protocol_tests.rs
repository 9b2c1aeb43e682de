//! Byte-for-byte codec tests for every protocol message.

use schengen::protocol::{parse_message, Message, ProtocolError, ProtocolMessage,
    MessageHelloBarrier, MessageHelloSynergy, MessageNoOp, MessageClose, MessageCursorEntered,
    MessageCursorLeft, MessageClientClipboard, MessageScreenSaverChange, MessageResetOptions,
    MessageInfoAcknowledgment, MessageKeepAlive, MessageKeyDownWithLanguage, MessageKeyDown,
    MessageKeyRepeat, MessageKeyUp, MessageMouseButtonDown, MessageMouseButtonUp,
    MessageMouseMove, MessageMouseRelativeMove, MessageMouseWheel, MessageClipboardData,
    MessageClientInfo, MessageSetOptions, MessageFileTransfer, MessageDragInfo,
    MessageSecureEncryption, MessageLegacySynergy, MessageQueryInfo, MessageIncompatibleVersion,
    MessageServerBusy, MessageUnknownClient, MessageProtocolError};

#[test]
fn test_hello_barrier() {
    // Test server hello (no client name)
    let msg_server = MessageHelloBarrier {
        major: 1,
        minor: 8,
        client_name: None,
    };
    let bytes = msg_server.to_bytes();
    assert_eq!(&bytes[0..7], b"Barrier");
    assert_eq!(&bytes[7..9], &1u16.to_be_bytes());
    assert_eq!(&bytes[9..11], &8u16.to_be_bytes());
    assert_eq!(bytes.len(), 11);

    let parsed = MessageHelloBarrier::from_bytes(&bytes).unwrap();
    assert_eq!(parsed, msg_server);

    // Test client hello (with client name)
    let msg_client = MessageHelloBarrier {
        major: 1,
        minor: 8,
        client_name: Some("testclient".to_string()),
    };
    let bytes = msg_client.to_bytes();
    assert_eq!(&bytes[0..7], b"Barrier");
    assert_eq!(&bytes[7..9], &1u16.to_be_bytes());
    assert_eq!(&bytes[9..11], &8u16.to_be_bytes());
    assert_eq!(&bytes[11..15], &10u32.to_be_bytes()); // length of "testclient"
    assert_eq!(&bytes[15..25], b"testclient");

    let parsed = MessageHelloBarrier::from_bytes(&bytes).unwrap();
    assert_eq!(parsed, msg_client);

    // Test edge case: empty client name
    let msg_empty = MessageHelloBarrier {
        major: 0,
        minor: 0,
        client_name: Some("".to_string()),
    };
    let bytes = msg_empty.to_bytes();
    let parsed = MessageHelloBarrier::from_bytes(&bytes).unwrap();
    assert_eq!(parsed, msg_empty);
}

#[test]
fn test_hello_synergy() {
    // Test server hello (no client name)
    let msg_server = MessageHelloSynergy {
        major: 1,
        minor: 6,
        client_name: None,
    };
    let bytes = msg_server.to_bytes();
    assert_eq!(&bytes[0..7], b"Synergy");
    assert_eq!(&bytes[7..9], &1u16.to_be_bytes());
    assert_eq!(&bytes[9..11], &6u16.to_be_bytes());

    let parsed = MessageHelloSynergy::from_bytes(&bytes).unwrap();
    assert_eq!(parsed, msg_server);

    // Test client hello (with client name)
    let msg_client = MessageHelloSynergy {
        major: 1,
        minor: 6,
        client_name: Some("myclient".to_string()),
    };
    let bytes = msg_client.to_bytes();
    let parsed = MessageHelloSynergy::from_bytes(&bytes).unwrap();
    assert_eq!(parsed, msg_client);
}

#[test]
fn test_cnop() {
    let msg = MessageNoOp;
    let bytes = msg.to_bytes();
    assert_eq!(&bytes, b"CNOP");

    let parsed = MessageNoOp::from_bytes(&bytes).unwrap();
    assert_eq!(parsed, msg);
}

#[test]
fn test_cbye() {
    let msg = MessageClose;
    let bytes = msg.to_bytes();
    assert_eq!(&bytes, b"CBYE");

    let parsed = MessageClose::from_bytes(&bytes).unwrap();
    assert_eq!(parsed, msg);
}

#[test]
fn test_cinn() {
    // Normal case
    let msg = MessageCursorEntered {
        x: 1920,
        y: 1080,
        sequence: 42,
        mask: 0x0003,
    };
    let bytes = msg.to_bytes();
    assert_eq!(&bytes[0..4], b"CINN");
    assert_eq!(&bytes[4..6], &1920i16.to_be_bytes());
    assert_eq!(&bytes[6..8], &1080i16.to_be_bytes());
    assert_eq!(&bytes[8..12], &42u32.to_be_bytes());
    assert_eq!(&bytes[12..14], &0x0003u16.to_be_bytes());

    let parsed = MessageCursorEntered::from_bytes(&bytes).unwrap();
    assert_eq!(parsed, msg);

    // Edge case: negative coordinates
    let msg_neg = MessageCursorEntered {
        x: -100,
        y: -200,
        sequence: 0,
        mask: 0,
    };
    let bytes = msg_neg.to_bytes();
    let parsed = MessageCursorEntered::from_bytes(&bytes).unwrap();
    assert_eq!(parsed, msg_neg);

    // Edge case: maximum values
    let msg_max = MessageCursorEntered {
        x: i16::MAX,
        y: i16::MAX,
        sequence: u32::MAX,
        mask: u16::MAX,
    };
    let bytes = msg_max.to_bytes();
    let parsed = MessageCursorEntered::from_bytes(&bytes).unwrap();
    assert_eq!(parsed, msg_max);
}

#[test]
fn test_cout() {
    let msg = MessageCursorLeft;
    let bytes = msg.to_bytes();
    assert_eq!(&bytes, b"COUT");

    let parsed = MessageCursorLeft::from_bytes(&bytes).unwrap();
    assert_eq!(parsed, msg);
}

#[test]
fn test_cclp() {
    // Normal case
    let msg = MessageClientClipboard {
        id: 0,
        sequence: 123,
    };
    let bytes = msg.to_bytes();
    assert_eq!(&bytes[0..4], b"CCLP");
    assert_eq!(bytes[4], 0);
    assert_eq!(&bytes[5..9], &123u32.to_be_bytes());

    let parsed = MessageClientClipboard::from_bytes(&bytes).unwrap();
    assert_eq!(parsed, msg);

    // Edge case: selection clipboard
    let msg_sel = MessageClientClipboard {
        id: 1,
        sequence: u32::MAX,
    };
    let bytes = msg_sel.to_bytes();
    let parsed = MessageClientClipboard::from_bytes(&bytes).unwrap();
    assert_eq!(parsed, msg_sel);
}

#[test]
fn test_csec() {
    // Screen saver started
    let msg_started = MessageScreenSaverChange { state: 1 };
    let bytes = msg_started.to_bytes();
    assert_eq!(&bytes[0..4], b"CSEC");
    assert_eq!(bytes[4], 1);

    let parsed = MessageScreenSaverChange::from_bytes(&bytes).unwrap();
    assert_eq!(parsed, msg_started);

    // Screen saver stopped
    let msg_stopped = MessageScreenSaverChange { state: 0 };
    let bytes = msg_stopped.to_bytes();
    let parsed = MessageScreenSaverChange::from_bytes(&bytes).unwrap();
    assert_eq!(parsed, msg_stopped);
}

#[test]
fn test_crop() {
    let msg = MessageResetOptions;
    let bytes = msg.to_bytes();
    assert_eq!(&bytes, b"CROP");

    let parsed = MessageResetOptions::from_bytes(&bytes).unwrap();
    assert_eq!(parsed, msg);
}

#[test]
fn test_ciak() {
    let msg = MessageInfoAcknowledgment;
    let bytes = msg.to_bytes();
    assert_eq!(&bytes, b"CIAK");

    let parsed = MessageInfoAcknowledgment::from_bytes(&bytes).unwrap();
    assert_eq!(parsed, msg);
}

#[test]
fn test_calv() {
    let msg = MessageKeepAlive;
    let bytes = msg.to_bytes();
    assert_eq!(&bytes, b"CALV");

    let parsed = MessageKeepAlive::from_bytes(&bytes).unwrap();
    assert_eq!(parsed, msg);
}

#[test]
fn test_dkdl() {
    // Normal case
    let msg = MessageKeyDownWithLanguage {
        keyid: 0x0061,
        mask: 0x0002,
        button: 0x0026,
        lang: "en_US".into(),
    };
    let bytes = msg.to_bytes();
    assert_eq!(&bytes[0..4], b"DKDL");
    assert_eq!(&bytes[4..6], &0x0061u16.to_be_bytes());
    assert_eq!(&bytes[6..8], &0x0002u16.to_be_bytes());
    assert_eq!(&bytes[8..10], &0x0026u16.to_be_bytes());
    assert_eq!(&bytes[10..14], &5u32.to_be_bytes());
    assert_eq!(&bytes[14..19], b"en_US");

    let parsed = MessageKeyDownWithLanguage::from_bytes(&bytes).unwrap();
    assert_eq!(parsed, msg);

    // Edge case: empty language
    let msg_empty = MessageKeyDownWithLanguage {
        keyid: 0,
        mask: 0,
        button: 0,
        lang: "".into(),
    };
    let bytes = msg_empty.to_bytes();
    let parsed = MessageKeyDownWithLanguage::from_bytes(&bytes).unwrap();
    assert_eq!(parsed, msg_empty);
}

#[test]
fn test_dkdn() {
    // Normal case
    let msg = MessageKeyDown {
        keyid: 0x0041,
        mask: 0x0001,
        button: 0x001E,
    };
    let bytes = msg.to_bytes();
    assert_eq!(&bytes[0..4], b"DKDN");
    assert_eq!(&bytes[4..6], &0x0041u16.to_be_bytes());
    assert_eq!(&bytes[6..8], &0x0001u16.to_be_bytes());
    assert_eq!(&bytes[8..10], &0x001Eu16.to_be_bytes());

    let parsed = MessageKeyDown::from_bytes(&bytes).unwrap();
    assert_eq!(parsed, msg);

    // Edge case: all zeros
    let msg_zero = MessageKeyDown {
        keyid: 0,
        mask: 0,
        button: 0,
    };
    let bytes = msg_zero.to_bytes();
    let parsed = MessageKeyDown::from_bytes(&bytes).unwrap();
    assert_eq!(parsed, msg_zero);
}

#[test]
fn test_dkrp() {
    // Normal case
    let msg = MessageKeyRepeat {
        keyid: 0x0061,
        mask: 0,
        button: 0x0026,
        count: 5,
        lang: "de_DE".into(),
    };
    let bytes = msg.to_bytes();
    assert_eq!(&bytes[0..4], b"DKRP");
    assert_eq!(&bytes[4..6], &0x0061u16.to_be_bytes());
    assert_eq!(&bytes[6..8], &0u16.to_be_bytes());
    assert_eq!(&bytes[8..10], &0x0026u16.to_be_bytes());
    assert_eq!(&bytes[10..12], &5u16.to_be_bytes());

    let parsed = MessageKeyRepeat::from_bytes(&bytes).unwrap();
    assert_eq!(parsed, msg);

    // Edge case: high repeat count
    let msg_many = MessageKeyRepeat {
        keyid: 0x0020,
        mask: 0,
        button: 0x0039,
        count: u16::MAX,
        lang: "".into(),
    };
    let bytes = msg_many.to_bytes();
    let parsed = MessageKeyRepeat::from_bytes(&bytes).unwrap();
    assert_eq!(parsed, msg_many);
}

#[test]
fn test_dkup() {
    let msg = MessageKeyUp {
        keyid: 0x0041,
        mask: 0x0001,
        button: 0x001E,
    };
    let bytes = msg.to_bytes();
    assert_eq!(&bytes[0..4], b"DKUP");
    assert_eq!(&bytes[4..6], &0x0041u16.to_be_bytes());
    assert_eq!(&bytes[6..8], &0x0001u16.to_be_bytes());
    assert_eq!(&bytes[8..10], &0x001Eu16.to_be_bytes());

    let parsed = MessageKeyUp::from_bytes(&bytes).unwrap();
    assert_eq!(parsed, msg);
}

#[test]
fn test_dmdn() {
    // Left button
    let msg_left = MessageMouseButtonDown { button: 1 };
    let bytes = msg_left.to_bytes();
    assert_eq!(&bytes[0..4], b"DMDN");
    assert_eq!(bytes[4], 1);

    let parsed = MessageMouseButtonDown::from_bytes(&bytes).unwrap();
    assert_eq!(parsed, msg_left);

    // Right button
    let msg_right = MessageMouseButtonDown { button: 2 };
    let bytes = msg_right.to_bytes();
    let parsed = MessageMouseButtonDown::from_bytes(&bytes).unwrap();
    assert_eq!(parsed, msg_right);

    // Extra button
    let msg_extra = MessageMouseButtonDown { button: 10 };
    let bytes = msg_extra.to_bytes();
    let parsed = MessageMouseButtonDown::from_bytes(&bytes).unwrap();
    assert_eq!(parsed, msg_extra);
}

#[test]
fn test_dmup() {
    let msg = MessageMouseButtonUp { button: 1 };
    let bytes = msg.to_bytes();
    assert_eq!(&bytes[0..4], b"DMUP");
    assert_eq!(bytes[4], 1);

    let parsed = MessageMouseButtonUp::from_bytes(&bytes).unwrap();
    assert_eq!(parsed, msg);
}

#[test]
fn test_dmmv() {
    // Normal case
    let msg = MessageMouseMove { x: 1920, y: 1080 };
    let bytes = msg.to_bytes();
    assert_eq!(&bytes[0..4], b"DMMV");
    assert_eq!(&bytes[4..6], &1920i16.to_be_bytes());
    assert_eq!(&bytes[6..8], &1080i16.to_be_bytes());

    let parsed = MessageMouseMove::from_bytes(&bytes).unwrap();
    assert_eq!(parsed, msg);

    // Edge case: negative coordinates
    let msg_neg = MessageMouseMove { x: -10, y: -20 };
    let bytes = msg_neg.to_bytes();
    let parsed = MessageMouseMove::from_bytes(&bytes).unwrap();
    assert_eq!(parsed, msg_neg);
}

#[test]
fn test_dmrm() {
    // Normal case
    let msg = MessageMouseRelativeMove { x: 10, y: -5 };
    let bytes = msg.to_bytes();
    assert_eq!(&bytes[0..4], b"DMRM");
    assert_eq!(&bytes[4..6], &10i16.to_be_bytes());
    assert_eq!(&bytes[6..8], &(-5i16).to_be_bytes());

    let parsed = MessageMouseRelativeMove::from_bytes(&bytes).unwrap();
    assert_eq!(parsed, msg);

    // Edge case: large deltas
    let msg_large = MessageMouseRelativeMove {
        x: i16::MAX,
        y: i16::MIN,
    };
    let bytes = msg_large.to_bytes();
    let parsed = MessageMouseRelativeMove::from_bytes(&bytes).unwrap();
    assert_eq!(parsed, msg_large);
}

#[test]
fn test_dmwm() {
    // Scroll up
    let msg_up = MessageMouseWheel {
        xdelta: 0,
        ydelta: 120,
    };
    let bytes = msg_up.to_bytes();
    assert_eq!(&bytes[0..4], b"DMWM");
    assert_eq!(&bytes[4..6], &0i16.to_be_bytes());
    assert_eq!(&bytes[6..8], &120i16.to_be_bytes());

    let parsed = MessageMouseWheel::from_bytes(&bytes).unwrap();
    assert_eq!(parsed, msg_up);

    // Scroll down
    let msg_down = MessageMouseWheel {
        xdelta: 0,
        ydelta: -120,
    };
    let bytes = msg_down.to_bytes();
    let parsed = MessageMouseWheel::from_bytes(&bytes).unwrap();
    assert_eq!(parsed, msg_down);

    // Horizontal scroll
    let msg_horiz = MessageMouseWheel {
        xdelta: 120,
        ydelta: 0,
    };
    let bytes = msg_horiz.to_bytes();
    let parsed = MessageMouseWheel::from_bytes(&bytes).unwrap();
    assert_eq!(parsed, msg_horiz);
}

#[test]
fn test_dclp() {
    // Normal case
    let msg = MessageClipboardData {
        id: 0,
        sequence: 42,
        mark: 0,
        data: "Hello World".into(),
    };
    let bytes = msg.to_bytes();
    assert_eq!(&bytes[0..4], b"DCLP");
    assert_eq!(bytes[4], 0);
    assert_eq!(&bytes[5..9], &42u32.to_be_bytes());
    assert_eq!(bytes[9], 0);
    assert_eq!(&bytes[10..14], &11u32.to_be_bytes());
    assert_eq!(&bytes[14..25], b"Hello World");

    let parsed = MessageClipboardData::from_bytes(&bytes).unwrap();
    assert_eq!(parsed, msg);

    // Edge case: empty clipboard
    let msg_empty = MessageClipboardData {
        id: 1,
        sequence: 0,
        mark: 3,
        data: "".into(),
    };
    let bytes = msg_empty.to_bytes();
    let parsed = MessageClipboardData::from_bytes(&bytes).unwrap();
    assert_eq!(parsed, msg_empty);
}

#[test]
fn test_dinf() {
    // Normal case
    let msg = MessageClientInfo {
        x: 0,
        y: 0,
        width: 1920,
        height: 1080,
        current_mouse_x: 960,
        current_mouse_y: 540,
        size: 0,
    };
    let bytes = msg.to_bytes();
    assert_eq!(&bytes[0..4], b"DINF");
    assert_eq!(&bytes[4..6], &0u16.to_be_bytes());
    assert_eq!(&bytes[6..8], &0u16.to_be_bytes());
    assert_eq!(&bytes[8..10], &1920u16.to_be_bytes());
    assert_eq!(&bytes[10..12], &1080u16.to_be_bytes());
    assert_eq!(&bytes[12..14], &960u16.to_be_bytes());
    assert_eq!(&bytes[14..16], &540u16.to_be_bytes());
    assert_eq!(&bytes[16..18], &0u16.to_be_bytes());

    let parsed = MessageClientInfo::from_bytes(&bytes).unwrap();
    assert_eq!(parsed, msg);

    // Edge case: maximum values
    let msg_max = MessageClientInfo {
        x: u16::MAX,
        y: u16::MAX,
        width: u16::MAX,
        height: u16::MAX,
        current_mouse_x: u16::MAX,
        current_mouse_y: u16::MAX,
        size: u16::MAX,
    };
    let bytes = msg_max.to_bytes();
    let parsed = MessageClientInfo::from_bytes(&bytes).unwrap();
    assert_eq!(parsed, msg_max);
}

#[test]
fn test_dsop() {
    // Empty options
    let msg_empty = MessageSetOptions { options: vec![] };
    let bytes = msg_empty.to_bytes();
    assert_eq!(&bytes[0..4], b"DSOP");
    assert_eq!(&bytes[4..8], &1u32.to_be_bytes()); // length = 1 (just the length field)

    let parsed = MessageSetOptions::from_bytes(&bytes).unwrap();
    assert_eq!(parsed, msg_empty);

    // Single option
    let msg_single = MessageSetOptions {
        options: vec![(0x48415254, 3000)], // Heartbeat = 3000
    };
    let bytes = msg_single.to_bytes();
    assert_eq!(&bytes[0..4], b"DSOP");
    assert_eq!(&bytes[4..8], &3u32.to_be_bytes()); // length = 1 + 2 elements
    assert_eq!(&bytes[8..12], &0x48415254u32.to_be_bytes()); // key
    assert_eq!(&bytes[12..16], &3000u32.to_be_bytes()); // value

    let parsed = MessageSetOptions::from_bytes(&bytes).unwrap();
    assert_eq!(parsed, msg_single);

    // Multiple options
    let msg_multi = MessageSetOptions {
        options: vec![
            (0x48415254, 3000), // Heartbeat
            (0x434C5053, 1),    // ClipboardSharing
            (0x4D444C54, 0),    // RelativeMouseMoves
        ],
    };
    let bytes = msg_multi.to_bytes();
    assert_eq!(&bytes[0..4], b"DSOP");
    assert_eq!(&bytes[4..8], &7u32.to_be_bytes()); // length = 1 + 6 elements

    let parsed = MessageSetOptions::from_bytes(&bytes).unwrap();
    assert_eq!(parsed, msg_multi);
}

#[test]
fn test_dftr() {
    // Data start
    let msg_start = MessageFileTransfer {
        mark: 1,
        data: "1024".into(),
    };
    let bytes = msg_start.to_bytes();
    assert_eq!(&bytes[0..4], b"DFTR");
    assert_eq!(bytes[4], 1);
    assert_eq!(&bytes[5..9], &4u32.to_be_bytes());
    assert_eq!(&bytes[9..13], b"1024");

    let parsed = MessageFileTransfer::from_bytes(&bytes).unwrap();
    assert_eq!(parsed, msg_start);

    // Data chunk
    let msg_chunk = MessageFileTransfer {
        mark: 2,
        data: "file content".into(),
    };
    let bytes = msg_chunk.to_bytes();
    let parsed = MessageFileTransfer::from_bytes(&bytes).unwrap();
    assert_eq!(parsed, msg_chunk);

    // Data end
    let msg_end = MessageFileTransfer {
        mark: 3,
        data: "".into(),
    };
    let bytes = msg_end.to_bytes();
    let parsed = MessageFileTransfer::from_bytes(&bytes).unwrap();
    assert_eq!(parsed, msg_end);
}

#[test]
fn test_ddrg() {
    // Normal case
    let msg = MessageDragInfo {
        size: 2,
        data: "/path/to/file1\0/path/to/file2".into(),
    };
    let bytes = msg.to_bytes();
    assert_eq!(&bytes[0..4], b"DDRG");
    assert_eq!(&bytes[4..6], &2u16.to_be_bytes());

    let parsed = MessageDragInfo::from_bytes(&bytes).unwrap();
    assert_eq!(parsed, msg);

    // Edge case: no files
    let msg_empty = MessageDragInfo {
        size: 0,
        data: "".into(),
    };
    let bytes = msg_empty.to_bytes();
    let parsed = MessageDragInfo::from_bytes(&bytes).unwrap();
    assert_eq!(parsed, msg_empty);
}

#[test]
fn test_secn() {
    // Normal case
    let msg = MessageSecureEncryption {
        data: "Terminal".into(),
    };
    let bytes = msg.to_bytes();
    assert_eq!(&bytes[0..4], b"SECN");
    assert_eq!(&bytes[4..8], &8u32.to_be_bytes());
    assert_eq!(&bytes[8..16], b"Terminal");

    let parsed = MessageSecureEncryption::from_bytes(&bytes).unwrap();
    assert_eq!(parsed, msg);

    // Edge case: empty app name
    let msg_empty = MessageSecureEncryption { data: "".into() };
    let bytes = msg_empty.to_bytes();
    let parsed = MessageSecureEncryption::from_bytes(&bytes).unwrap();
    assert_eq!(parsed, msg_empty);
}

#[test]
fn test_lsyn() {
    // Normal case
    let msg = MessageLegacySynergy {
        data: "en,de,fr".into(),
    };
    let bytes = msg.to_bytes();
    assert_eq!(&bytes[0..4], b"LSYN");
    assert_eq!(&bytes[4..8], &8u32.to_be_bytes());
    assert_eq!(&bytes[8..16], b"en,de,fr");

    let parsed = MessageLegacySynergy::from_bytes(&bytes).unwrap();
    assert_eq!(parsed, msg);

    // Edge case: single language
    let msg_single = MessageLegacySynergy { data: "en".into() };
    let bytes = msg_single.to_bytes();
    let parsed = MessageLegacySynergy::from_bytes(&bytes).unwrap();
    assert_eq!(parsed, msg_single);
}

#[test]
fn test_qinf() {
    let msg = MessageQueryInfo;
    let bytes = msg.to_bytes();
    assert_eq!(&bytes, b"QINF");

    let parsed = MessageQueryInfo::from_bytes(&bytes).unwrap();
    assert_eq!(parsed, msg);
}

#[test]
fn test_eicv() {
    // Normal case
    let msg = MessageIncompatibleVersion {
        major_remote: 2,
        minor_remote: 0,
    };
    let bytes = msg.to_bytes();
    assert_eq!(&bytes[0..4], b"EICV");
    assert_eq!(&bytes[4..6], &2u16.to_be_bytes());
    assert_eq!(&bytes[6..8], &0u16.to_be_bytes());

    let parsed = MessageIncompatibleVersion::from_bytes(&bytes).unwrap();
    assert_eq!(parsed, msg);

    // Edge case: version 0.0
    let msg_zero = MessageIncompatibleVersion {
        major_remote: 0,
        minor_remote: 0,
    };
    let bytes = msg_zero.to_bytes();
    let parsed = MessageIncompatibleVersion::from_bytes(&bytes).unwrap();
    assert_eq!(parsed, msg_zero);
}

#[test]
fn test_ebsy() {
    let msg = MessageServerBusy;
    let bytes = msg.to_bytes();
    assert_eq!(&bytes, b"EBSY");

    let parsed = MessageServerBusy::from_bytes(&bytes).unwrap();
    assert_eq!(parsed, msg);
}

#[test]
fn test_eunk() {
    let msg = MessageUnknownClient;
    let bytes = msg.to_bytes();
    assert_eq!(&bytes, b"EUNK");

    let parsed = MessageUnknownClient::from_bytes(&bytes).unwrap();
    assert_eq!(parsed, msg);
}

#[test]
fn test_ebad() {
    let msg = MessageProtocolError;
    let bytes = msg.to_bytes();
    assert_eq!(&bytes, b"EBAD");

    let parsed = MessageProtocolError::from_bytes(&bytes).unwrap();
    assert_eq!(parsed, msg);
}

// General error tests
#[test]
fn test_insufficient_data() {
    let data = b"CI"; // Too short
    let result = parse_message(data);
    assert!(matches!(
        result,
        Err(ProtocolError::InsufficientData { .. })
    ));
}

#[test]
fn test_unknown_message() {
    let data = b"XXXX";
    let result = parse_message(data);
    assert!(matches!(result, Err(ProtocolError::UnknownMessageCode(_))));
}
