//! Control-plane messages: the two Hello dialects, connection-lifecycle
//! messages without a payload, cursor enter/leave, clipboard grab,
//! screen-saver state, and the error replies.

use vstd::prelude::*;
use vstd::slice::slice_to_vec;
use vstd::string::StringSliceAdditionalSpecFns;
use vstd::utf8::encode_utf8;

use crate::protocol::model::{ProtocolErrorV, HelloV, insufficient, spec_read_lps, lps_encode,
    u16_be, u32_be, i16_be, be_u16_at, be_u32_at, be_i16_at, hello_parse, hello_encode,
    lemma_ascii_code, lemma_u16_be_roundtrip, lemma_u32_be_roundtrip, lemma_i16_be_roundtrip,
    lemma_lps_roundtrip};
use crate::protocol::wire::{ProtocolError, ProtocolMessage, LengthPrefixedString, read_u8,
    read_u16, read_i16, read_u32, push_u8, push_u16_be, push_i16_be, push_u32_be, push_bytes,
    push_str_bytes};

verus! {

/// Hello with "Barrier" code, used by the Barrier/Input-Leap/Deskflow
/// implementations.
///
/// This message is used in two contexts:
/// 1. the server sends it without a client name (server hello), and
/// 2. the client responds with its client name included (hello back).
#[derive(Debug, Clone, PartialEq, Eq)]
pub struct MessageHelloBarrier {
    /// Protocol major version number
    pub major: u16,
    /// Protocol minor version number
    pub minor: u16,
    /// Optional client name (present in client's hello response)
    pub client_name: Option<String>,
}

impl View for MessageHelloBarrier {
    type V = HelloV;

    open spec fn view(&self) -> HelloV {
        HelloV {
            major: self.major,
            minor: self.minor,
            client_name: match self.client_name {
                Some(ref s) => Some(s@),
                None => None,
            },
        }
    }
}

impl ProtocolMessage for MessageHelloBarrier {
    open spec fn spec_code() -> Seq<char> {
        "Barrier"@
    }

    open spec fn spec_parse(data: Seq<u8>) -> Result<HelloV, ProtocolErrorV> {
        hello_parse(data)
    }

    open spec fn spec_encode(v: HelloV) -> Seq<u8> {
        hello_encode("Barrier", v)
    }

    fn code() -> (r: &'static str) {
        "Barrier"
    }

    fn from_bytes(data: &[u8]) -> (r: Result<Self, ProtocolError>) {
        match hello_from_bytes(data) {
            Ok(h) => Ok(MessageHelloBarrier {
                major: h.major,
                minor: h.minor,
                client_name: h.client_name,
            }),
            Err(e) => Err(e),
        }
    }

    fn to_bytes(&self) -> (r: Vec<u8>) {
        proof {
            reveal_strlit("Barrier");
        }
        hello_to_bytes("Barrier", self.major, self.minor, &self.client_name)
    }

    proof fn lemma_parse_encode(v: HelloV) {
        reveal_strlit("Barrier");
        lemma_hello_parse_encode("Barrier", v);
    }
}

/// Hello with "Synergy" code, used by the original Synergy implementation.
///
/// This message is used in two contexts:
/// 1. the server sends it without a client name (server hello), and
/// 2. the client responds with its client name included (hello back).
#[derive(Debug, Clone, PartialEq, Eq)]
pub struct MessageHelloSynergy {
    /// Protocol major version number
    pub major: u16,
    /// Protocol minor version number
    pub minor: u16,
    /// Optional client name (present in client's hello response)
    pub client_name: Option<String>,
}

impl View for MessageHelloSynergy {
    type V = HelloV;

    open spec fn view(&self) -> HelloV {
        HelloV {
            major: self.major,
            minor: self.minor,
            client_name: match self.client_name {
                Some(ref s) => Some(s@),
                None => None,
            },
        }
    }
}

impl ProtocolMessage for MessageHelloSynergy {
    open spec fn spec_code() -> Seq<char> {
        "Synergy"@
    }

    open spec fn spec_parse(data: Seq<u8>) -> Result<HelloV, ProtocolErrorV> {
        hello_parse(data)
    }

    open spec fn spec_encode(v: HelloV) -> Seq<u8> {
        hello_encode("Synergy", v)
    }

    fn code() -> (r: &'static str) {
        "Synergy"
    }

    fn from_bytes(data: &[u8]) -> (r: Result<Self, ProtocolError>) {
        match hello_from_bytes(data) {
            Ok(h) => Ok(MessageHelloSynergy {
                major: h.major,
                minor: h.minor,
                client_name: h.client_name,
            }),
            Err(e) => Err(e),
        }
    }

    fn to_bytes(&self) -> (r: Vec<u8>) {
        proof {
            reveal_strlit("Synergy");
        }
        hello_to_bytes("Synergy", self.major, self.minor, &self.client_name)
    }

    proof fn lemma_parse_encode(v: HelloV) {
        reveal_strlit("Synergy");
        lemma_hello_parse_encode("Synergy", v);
    }
}

/// The common payload of the two Hello dialects.
struct MessageHello {
    major: u16,
    minor: u16,
    client_name: Option<String>,
}

fn hello_from_bytes(data: &[u8]) -> (r: Result<MessageHello, ProtocolError>)
    ensures
        match r {
            Ok(m) => hello_parse(data@) == Ok::<HelloV, ProtocolErrorV>(
                HelloV {
                    major: m.major,
                    minor: m.minor,
                    client_name: match m.client_name {
                        Some(ref s) => Some(s@),
                        None => None,
                    },
                },
            ),
            Err(e) => hello_parse(data@) == Err::<HelloV, ProtocolErrorV>(e@),
        },
{
    if data.len() < 11 {
        return Err(ProtocolError::InsufficientData { expected: 11, actual: data.len() });
    }
    let major = match read_u16(data, 7) {
        Ok(v) => v,
        Err(e) => {
            return Err(e);
        },
    };
    let minor = match read_u16(data, 9) {
        Ok(v) => v,
        Err(e) => {
            return Err(e);
        },
    };
    let client_name = if data.len() > 11 {
        match LengthPrefixedString::from_bytes(data, 11) {
            Ok((lps, _)) => Some(lps.0),
            Err(e) => {
                return Err(e);
            },
        }
    } else {
        None
    };
    Ok(MessageHello { major, minor, client_name })
}

fn hello_to_bytes(code: &str, major: u16, minor: u16, client_name: &Option<String>) -> (r: Vec<
    u8,
>)
    requires
        code@.len() == 7,
        hello_encode(
            code,
            HelloV {
                major,
                minor,
                client_name: match client_name {
                    Some(ref s) => Some(s@),
                    None => None,
                },
            },
        ).len() <= u32::MAX,
    ensures
        r@ == hello_encode(
            code,
            HelloV {
                major,
                minor,
                client_name: match client_name {
                    Some(ref s) => Some(s@),
                    None => None,
                },
            },
        ),
{
    let mut bytes: Vec<u8> = Vec::new();
    push_str_bytes(&mut bytes, code);
    push_u16_be(&mut bytes, major);
    push_u16_be(&mut bytes, minor);
    match client_name {
        Some(name) => {
            let name_bytes = name.as_str().as_bytes();
            proof {
                assert(lps_encode(name@).len() <= u32::MAX);
            }
            push_u32_be(&mut bytes, name_bytes.len() as u32);
            push_bytes(&mut bytes, name_bytes);
        },
        None => {},
    }
    proof {
        let v = HelloV {
            major,
            minor,
            client_name: match client_name {
                Some(ref s) => Some(s@),
                None => None,
            },
        };
        assert(bytes@ =~= hello_encode(code, v));
    }
    bytes
}

proof fn lemma_hello_parse_encode(code: &str, v: HelloV)
    requires
        code@.len() == 7,
        vstd::utf8::is_ascii_chars(code@),
        hello_encode(code, v).len() <= u32::MAX,
    ensures
        hello_parse(hello_encode(code, v)) == Ok::<HelloV, ProtocolErrorV>(v),
{
    lemma_ascii_code(code);
    let enc = hello_encode(code, v);
    lemma_u16_be_roundtrip(v.major);
    lemma_u16_be_roundtrip(v.minor);
    match v.client_name {
        Some(name) => {
            assert(enc.len() == 11 + lps_encode(name).len());
            assert(lps_encode(name).len() >= 4);
            assert(be_u16_at(enc, 7) == v.major);
            assert(be_u16_at(enc, 9) == v.minor);
            assert(enc.subrange(11, enc.len() as int) =~= lps_encode(name));
            lemma_lps_roundtrip(name, enc, 11);
        },
        None => {
            assert(enc.len() == 11);
            assert(be_u16_at(enc, 7) == v.major);
            assert(be_u16_at(enc, 9) == v.minor);
        },
    }
}



/// No operation / keepalive.
#[derive(Debug, Clone, PartialEq, Eq)]
pub struct MessageNoOp;

impl View for MessageNoOp {
    type V = MessageNoOp;

    open spec fn view(&self) -> MessageNoOp {
        MessageNoOp
    }
}

impl ProtocolMessage for MessageNoOp {
    open spec fn spec_code() -> Seq<char> {
        "CNOP"@
    }

    open spec fn spec_parse(data: Seq<u8>) -> Result<MessageNoOp, ProtocolErrorV> {
        Ok(MessageNoOp)
    }

    open spec fn spec_encode(v: MessageNoOp) -> Seq<u8> {
        "CNOP".spec_bytes()
    }

    fn code() -> (r: &'static str) {
        "CNOP"
    }

    fn from_bytes(data: &[u8]) -> (r: Result<Self, ProtocolError>) {
        Ok(MessageNoOp)
    }

    fn to_bytes(&self) -> (r: Vec<u8>) {
        slice_to_vec("CNOP".as_bytes())
    }

    proof fn lemma_parse_encode(v: MessageNoOp) {
    }
}


/// Close connection.
#[derive(Debug, Clone, PartialEq, Eq)]
pub struct MessageClose;

impl View for MessageClose {
    type V = MessageClose;

    open spec fn view(&self) -> MessageClose {
        MessageClose
    }
}

impl ProtocolMessage for MessageClose {
    open spec fn spec_code() -> Seq<char> {
        "CBYE"@
    }

    open spec fn spec_parse(data: Seq<u8>) -> Result<MessageClose, ProtocolErrorV> {
        Ok(MessageClose)
    }

    open spec fn spec_encode(v: MessageClose) -> Seq<u8> {
        "CBYE".spec_bytes()
    }

    fn code() -> (r: &'static str) {
        "CBYE"
    }

    fn from_bytes(data: &[u8]) -> (r: Result<Self, ProtocolError>) {
        Ok(MessageClose)
    }

    fn to_bytes(&self) -> (r: Vec<u8>) {
        slice_to_vec("CBYE".as_bytes())
    }

    proof fn lemma_parse_encode(v: MessageClose) {
    }
}


/// Cursor entered screen.
#[derive(Debug, Clone, PartialEq, Eq)]
pub struct MessageCursorEntered {
    /// Entry X coordinate - absolute screen position where cursor entered
    pub x: i16,
    /// Entry Y coordinate - absolute screen position where cursor entered
    pub y: i16,
    /// Sequence number used to order messages
    pub sequence: u32,
    /// Modifier key mask indicating which toggle keys (Caps Lock, Num Lock, etc.) are active
    pub mask: u16,
}

impl View for MessageCursorEntered {
    type V = MessageCursorEntered;

    open spec fn view(&self) -> MessageCursorEntered {
        *self
    }
}

impl ProtocolMessage for MessageCursorEntered {
    open spec fn spec_code() -> Seq<char> {
        "CINN"@
    }

    open spec fn spec_parse(data: Seq<u8>) -> Result<MessageCursorEntered, ProtocolErrorV> {
        if data.len() < 14 {
            Err(insufficient(14, data.len() as int))
        } else {
            Ok(MessageCursorEntered {
                x: be_i16_at(data, 4),
                y: be_i16_at(data, 6),
                sequence: be_u32_at(data, 8),
                mask: be_u16_at(data, 12),
            })
        }
    }

    open spec fn spec_encode(v: MessageCursorEntered) -> Seq<u8> {
        "CINN".spec_bytes() + i16_be(v.x) + i16_be(v.y) + u32_be(v.sequence) + u16_be(v.mask)
    }

    fn code() -> (r: &'static str) {
        "CINN"
    }

    fn from_bytes(data: &[u8]) -> (r: Result<Self, ProtocolError>) {
        if data.len() < 14 {
            return Err(ProtocolError::InsufficientData { expected: 14, actual: data.len() });
        }
        let x = match read_i16(data, 4) {
            Ok(v) => v,
            Err(e) => {
                return Err(e);
            },
        };
        let y = match read_i16(data, 6) {
            Ok(v) => v,
            Err(e) => {
                return Err(e);
            },
        };
        let sequence = match read_u32(data, 8) {
            Ok(v) => v,
            Err(e) => {
                return Err(e);
            },
        };
        let mask = match read_u16(data, 12) {
            Ok(v) => v,
            Err(e) => {
                return Err(e);
            },
        };
        Ok(MessageCursorEntered { x, y, sequence, mask })
    }

    fn to_bytes(&self) -> (r: Vec<u8>) {
        let mut bytes: Vec<u8> = Vec::new();
        push_str_bytes(&mut bytes, "CINN");
        push_i16_be(&mut bytes, self.x);
        push_i16_be(&mut bytes, self.y);
        push_u32_be(&mut bytes, self.sequence);
        push_u16_be(&mut bytes, self.mask);
        proof {
            assert(bytes@ =~= Self::spec_encode(self@));
        }
        bytes
    }

    proof fn lemma_parse_encode(v: MessageCursorEntered) {
        reveal_strlit("CINN");
        lemma_ascii_code("CINN");
        let enc = Self::spec_encode(v);
        lemma_i16_be_roundtrip(v.x);
        lemma_i16_be_roundtrip(v.y);
        lemma_u32_be_roundtrip(v.sequence);
        lemma_u16_be_roundtrip(v.mask);
        assert(be_i16_at(enc, 4) == v.x);
        assert(be_i16_at(enc, 6) == v.y);
        assert(be_u32_at(enc, 8) == v.sequence);
        assert(be_u16_at(enc, 12) == v.mask);
    }
}


/// Cursor left screen.
#[derive(Debug, Clone, PartialEq, Eq)]
pub struct MessageCursorLeft;

impl View for MessageCursorLeft {
    type V = MessageCursorLeft;

    open spec fn view(&self) -> MessageCursorLeft {
        MessageCursorLeft
    }
}

impl ProtocolMessage for MessageCursorLeft {
    open spec fn spec_code() -> Seq<char> {
        "COUT"@
    }

    open spec fn spec_parse(data: Seq<u8>) -> Result<MessageCursorLeft, ProtocolErrorV> {
        Ok(MessageCursorLeft)
    }

    open spec fn spec_encode(v: MessageCursorLeft) -> Seq<u8> {
        "COUT".spec_bytes()
    }

    fn code() -> (r: &'static str) {
        "COUT"
    }

    fn from_bytes(data: &[u8]) -> (r: Result<Self, ProtocolError>) {
        Ok(MessageCursorLeft)
    }

    fn to_bytes(&self) -> (r: Vec<u8>) {
        slice_to_vec("COUT".as_bytes())
    }

    proof fn lemma_parse_encode(v: MessageCursorLeft) {
    }
}


/// Clipboard from client.
#[derive(Debug, Clone, PartialEq, Eq)]
pub struct MessageClientClipboard {
    /// Clipboard identifier (0 = primary clipboard for Ctrl+C/V, 1 = selection clipboard for middle-click on X11)
    pub id: u8,
    /// Sequence number from most recent Enter message
    pub sequence: u32,
}

impl View for MessageClientClipboard {
    type V = MessageClientClipboard;

    open spec fn view(&self) -> MessageClientClipboard {
        *self
    }
}

impl ProtocolMessage for MessageClientClipboard {
    open spec fn spec_code() -> Seq<char> {
        "CCLP"@
    }

    open spec fn spec_parse(data: Seq<u8>) -> Result<MessageClientClipboard, ProtocolErrorV> {
        if data.len() < 9 {
            Err(insufficient(9, data.len() as int))
        } else {
            Ok(MessageClientClipboard {
                id: data[4],
                sequence: be_u32_at(data, 5),
            })
        }
    }

    open spec fn spec_encode(v: MessageClientClipboard) -> Seq<u8> {
        "CCLP".spec_bytes() + seq![v.id] + u32_be(v.sequence)
    }

    fn code() -> (r: &'static str) {
        "CCLP"
    }

    fn from_bytes(data: &[u8]) -> (r: Result<Self, ProtocolError>) {
        if data.len() < 9 {
            return Err(ProtocolError::InsufficientData { expected: 9, actual: data.len() });
        }
        let id = match read_u8(data, 4) {
            Ok(v) => v,
            Err(e) => {
                return Err(e);
            },
        };
        let sequence = match read_u32(data, 5) {
            Ok(v) => v,
            Err(e) => {
                return Err(e);
            },
        };
        Ok(MessageClientClipboard { id, sequence })
    }

    fn to_bytes(&self) -> (r: Vec<u8>) {
        let mut bytes: Vec<u8> = Vec::new();
        push_str_bytes(&mut bytes, "CCLP");
        push_u8(&mut bytes, self.id);
        push_u32_be(&mut bytes, self.sequence);
        proof {
            assert(bytes@ =~= Self::spec_encode(self@));
        }
        bytes
    }

    proof fn lemma_parse_encode(v: MessageClientClipboard) {
        reveal_strlit("CCLP");
        lemma_ascii_code("CCLP");
        let enc = Self::spec_encode(v);
        lemma_u32_be_roundtrip(v.sequence);
        assert(enc[4] == v.id);
        assert(be_u32_at(enc, 5) == v.sequence);
    }
}


/// Screen saver change.
#[derive(Debug, Clone, PartialEq, Eq)]
pub struct MessageScreenSaverChange {
    /// Screensaver state (1 = started, 0 = stopped)
    pub state: u8,
}

impl View for MessageScreenSaverChange {
    type V = MessageScreenSaverChange;

    open spec fn view(&self) -> MessageScreenSaverChange {
        *self
    }
}

impl ProtocolMessage for MessageScreenSaverChange {
    open spec fn spec_code() -> Seq<char> {
        "CSEC"@
    }

    open spec fn spec_parse(data: Seq<u8>) -> Result<MessageScreenSaverChange, ProtocolErrorV> {
        if data.len() < 5 {
            Err(insufficient(5, data.len() as int))
        } else {
            Ok(MessageScreenSaverChange {
                state: data[4],
            })
        }
    }

    open spec fn spec_encode(v: MessageScreenSaverChange) -> Seq<u8> {
        "CSEC".spec_bytes() + seq![v.state]
    }

    fn code() -> (r: &'static str) {
        "CSEC"
    }

    fn from_bytes(data: &[u8]) -> (r: Result<Self, ProtocolError>) {
        if data.len() < 5 {
            return Err(ProtocolError::InsufficientData { expected: 5, actual: data.len() });
        }
        let state = match read_u8(data, 4) {
            Ok(v) => v,
            Err(e) => {
                return Err(e);
            },
        };
        Ok(MessageScreenSaverChange { state })
    }

    fn to_bytes(&self) -> (r: Vec<u8>) {
        let mut bytes: Vec<u8> = Vec::new();
        push_str_bytes(&mut bytes, "CSEC");
        push_u8(&mut bytes, self.state);
        proof {
            assert(bytes@ =~= Self::spec_encode(self@));
        }
        bytes
    }

    proof fn lemma_parse_encode(v: MessageScreenSaverChange) {
        reveal_strlit("CSEC");
        lemma_ascii_code("CSEC");
        let enc = Self::spec_encode(v);

        assert(enc[4] == v.state);
    }
}


/// Reset options.
#[derive(Debug, Clone, PartialEq, Eq)]
pub struct MessageResetOptions;

impl View for MessageResetOptions {
    type V = MessageResetOptions;

    open spec fn view(&self) -> MessageResetOptions {
        MessageResetOptions
    }
}

impl ProtocolMessage for MessageResetOptions {
    open spec fn spec_code() -> Seq<char> {
        "CROP"@
    }

    open spec fn spec_parse(data: Seq<u8>) -> Result<MessageResetOptions, ProtocolErrorV> {
        Ok(MessageResetOptions)
    }

    open spec fn spec_encode(v: MessageResetOptions) -> Seq<u8> {
        "CROP".spec_bytes()
    }

    fn code() -> (r: &'static str) {
        "CROP"
    }

    fn from_bytes(data: &[u8]) -> (r: Result<Self, ProtocolError>) {
        Ok(MessageResetOptions)
    }

    fn to_bytes(&self) -> (r: Vec<u8>) {
        slice_to_vec("CROP".as_bytes())
    }

    proof fn lemma_parse_encode(v: MessageResetOptions) {
    }
}


/// Info acknowledgment.
#[derive(Debug, Clone, PartialEq, Eq)]
pub struct MessageInfoAcknowledgment;

impl View for MessageInfoAcknowledgment {
    type V = MessageInfoAcknowledgment;

    open spec fn view(&self) -> MessageInfoAcknowledgment {
        MessageInfoAcknowledgment
    }
}

impl ProtocolMessage for MessageInfoAcknowledgment {
    open spec fn spec_code() -> Seq<char> {
        "CIAK"@
    }

    open spec fn spec_parse(data: Seq<u8>) -> Result<MessageInfoAcknowledgment, ProtocolErrorV> {
        Ok(MessageInfoAcknowledgment)
    }

    open spec fn spec_encode(v: MessageInfoAcknowledgment) -> Seq<u8> {
        "CIAK".spec_bytes()
    }

    fn code() -> (r: &'static str) {
        "CIAK"
    }

    fn from_bytes(data: &[u8]) -> (r: Result<Self, ProtocolError>) {
        Ok(MessageInfoAcknowledgment)
    }

    fn to_bytes(&self) -> (r: Vec<u8>) {
        slice_to_vec("CIAK".as_bytes())
    }

    proof fn lemma_parse_encode(v: MessageInfoAcknowledgment) {
    }
}


/// Keepalive.
#[derive(Debug, Clone, PartialEq, Eq)]
pub struct MessageKeepAlive;

impl View for MessageKeepAlive {
    type V = MessageKeepAlive;

    open spec fn view(&self) -> MessageKeepAlive {
        MessageKeepAlive
    }
}

impl ProtocolMessage for MessageKeepAlive {
    open spec fn spec_code() -> Seq<char> {
        "CALV"@
    }

    open spec fn spec_parse(data: Seq<u8>) -> Result<MessageKeepAlive, ProtocolErrorV> {
        Ok(MessageKeepAlive)
    }

    open spec fn spec_encode(v: MessageKeepAlive) -> Seq<u8> {
        "CALV".spec_bytes()
    }

    fn code() -> (r: &'static str) {
        "CALV"
    }

    fn from_bytes(data: &[u8]) -> (r: Result<Self, ProtocolError>) {
        Ok(MessageKeepAlive)
    }

    fn to_bytes(&self) -> (r: Vec<u8>) {
        slice_to_vec("CALV".as_bytes())
    }

    proof fn lemma_parse_encode(v: MessageKeepAlive) {
    }
}


/// Query info.
#[derive(Debug, Clone, PartialEq, Eq)]
pub struct MessageQueryInfo;

impl View for MessageQueryInfo {
    type V = MessageQueryInfo;

    open spec fn view(&self) -> MessageQueryInfo {
        MessageQueryInfo
    }
}

impl ProtocolMessage for MessageQueryInfo {
    open spec fn spec_code() -> Seq<char> {
        "QINF"@
    }

    open spec fn spec_parse(data: Seq<u8>) -> Result<MessageQueryInfo, ProtocolErrorV> {
        Ok(MessageQueryInfo)
    }

    open spec fn spec_encode(v: MessageQueryInfo) -> Seq<u8> {
        "QINF".spec_bytes()
    }

    fn code() -> (r: &'static str) {
        "QINF"
    }

    fn from_bytes(data: &[u8]) -> (r: Result<Self, ProtocolError>) {
        Ok(MessageQueryInfo)
    }

    fn to_bytes(&self) -> (r: Vec<u8>) {
        slice_to_vec("QINF".as_bytes())
    }

    proof fn lemma_parse_encode(v: MessageQueryInfo) {
    }
}


/// Incompatible version error.
#[derive(Debug, Clone, PartialEq, Eq)]
pub struct MessageIncompatibleVersion {
    /// Primary's major version number
    pub major_remote: u16,
    /// Primary's minor version number
    pub minor_remote: u16,
}

impl View for MessageIncompatibleVersion {
    type V = MessageIncompatibleVersion;

    open spec fn view(&self) -> MessageIncompatibleVersion {
        *self
    }
}

impl ProtocolMessage for MessageIncompatibleVersion {
    open spec fn spec_code() -> Seq<char> {
        "EICV"@
    }

    open spec fn spec_parse(data: Seq<u8>) -> Result<MessageIncompatibleVersion, ProtocolErrorV> {
        if data.len() < 8 {
            Err(insufficient(8, data.len() as int))
        } else {
            Ok(MessageIncompatibleVersion {
                major_remote: be_u16_at(data, 4),
                minor_remote: be_u16_at(data, 6),
            })
        }
    }

    open spec fn spec_encode(v: MessageIncompatibleVersion) -> Seq<u8> {
        "EICV".spec_bytes() + u16_be(v.major_remote) + u16_be(v.minor_remote)
    }

    fn code() -> (r: &'static str) {
        "EICV"
    }

    fn from_bytes(data: &[u8]) -> (r: Result<Self, ProtocolError>) {
        if data.len() < 8 {
            return Err(ProtocolError::InsufficientData { expected: 8, actual: data.len() });
        }
        let major_remote = match read_u16(data, 4) {
            Ok(v) => v,
            Err(e) => {
                return Err(e);
            },
        };
        let minor_remote = match read_u16(data, 6) {
            Ok(v) => v,
            Err(e) => {
                return Err(e);
            },
        };
        Ok(MessageIncompatibleVersion { major_remote, minor_remote })
    }

    fn to_bytes(&self) -> (r: Vec<u8>) {
        let mut bytes: Vec<u8> = Vec::new();
        push_str_bytes(&mut bytes, "EICV");
        push_u16_be(&mut bytes, self.major_remote);
        push_u16_be(&mut bytes, self.minor_remote);
        proof {
            assert(bytes@ =~= Self::spec_encode(self@));
        }
        bytes
    }

    proof fn lemma_parse_encode(v: MessageIncompatibleVersion) {
        reveal_strlit("EICV");
        lemma_ascii_code("EICV");
        let enc = Self::spec_encode(v);
        lemma_u16_be_roundtrip(v.major_remote);
        lemma_u16_be_roundtrip(v.minor_remote);
        assert(be_u16_at(enc, 4) == v.major_remote);
        assert(be_u16_at(enc, 6) == v.minor_remote);
    }
}


/// Server busy error.
#[derive(Debug, Clone, PartialEq, Eq)]
pub struct MessageServerBusy;

impl View for MessageServerBusy {
    type V = MessageServerBusy;

    open spec fn view(&self) -> MessageServerBusy {
        MessageServerBusy
    }
}

impl ProtocolMessage for MessageServerBusy {
    open spec fn spec_code() -> Seq<char> {
        "EBSY"@
    }

    open spec fn spec_parse(data: Seq<u8>) -> Result<MessageServerBusy, ProtocolErrorV> {
        Ok(MessageServerBusy)
    }

    open spec fn spec_encode(v: MessageServerBusy) -> Seq<u8> {
        "EBSY".spec_bytes()
    }

    fn code() -> (r: &'static str) {
        "EBSY"
    }

    fn from_bytes(data: &[u8]) -> (r: Result<Self, ProtocolError>) {
        Ok(MessageServerBusy)
    }

    fn to_bytes(&self) -> (r: Vec<u8>) {
        slice_to_vec("EBSY".as_bytes())
    }

    proof fn lemma_parse_encode(v: MessageServerBusy) {
    }
}


/// Unknown client error.
#[derive(Debug, Clone, PartialEq, Eq)]
pub struct MessageUnknownClient;

impl View for MessageUnknownClient {
    type V = MessageUnknownClient;

    open spec fn view(&self) -> MessageUnknownClient {
        MessageUnknownClient
    }
}

impl ProtocolMessage for MessageUnknownClient {
    open spec fn spec_code() -> Seq<char> {
        "EUNK"@
    }

    open spec fn spec_parse(data: Seq<u8>) -> Result<MessageUnknownClient, ProtocolErrorV> {
        Ok(MessageUnknownClient)
    }

    open spec fn spec_encode(v: MessageUnknownClient) -> Seq<u8> {
        "EUNK".spec_bytes()
    }

    fn code() -> (r: &'static str) {
        "EUNK"
    }

    fn from_bytes(data: &[u8]) -> (r: Result<Self, ProtocolError>) {
        Ok(MessageUnknownClient)
    }

    fn to_bytes(&self) -> (r: Vec<u8>) {
        slice_to_vec("EUNK".as_bytes())
    }

    proof fn lemma_parse_encode(v: MessageUnknownClient) {
    }
}


/// Protocol error.
#[derive(Debug, Clone, PartialEq, Eq)]
pub struct MessageProtocolError;

impl View for MessageProtocolError {
    type V = MessageProtocolError;

    open spec fn view(&self) -> MessageProtocolError {
        MessageProtocolError
    }
}

impl ProtocolMessage for MessageProtocolError {
    open spec fn spec_code() -> Seq<char> {
        "EBAD"@
    }

    open spec fn spec_parse(data: Seq<u8>) -> Result<MessageProtocolError, ProtocolErrorV> {
        Ok(MessageProtocolError)
    }

    open spec fn spec_encode(v: MessageProtocolError) -> Seq<u8> {
        "EBAD".spec_bytes()
    }

    fn code() -> (r: &'static str) {
        "EBAD"
    }

    fn from_bytes(data: &[u8]) -> (r: Result<Self, ProtocolError>) {
        Ok(MessageProtocolError)
    }

    fn to_bytes(&self) -> (r: Vec<u8>) {
        slice_to_vec("EBAD".as_bytes())
    }

    proof fn lemma_parse_encode(v: MessageProtocolError) {
    }
}

} // verus!
