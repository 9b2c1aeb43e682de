//! Specification-level model of the wire codec.
//!
//! Messages that carry strings are abstracted here as values over `Seq<char>`
//! so that contracts and proofs speak about mathematical sequences rather
//! than heap-allocated strings.  The `spec_read_*` functions describe exactly
//! which bytes a field read consumes and which error it reports when the
//! buffer is too short, mirroring the executable readers in
//! [`crate::protocol::wire`].

use vstd::prelude::*;
use vstd::string::StringSliceAdditionalSpecFns;
use vstd::utf8::{valid_utf8, decode_utf8, encode_utf8};

verus! {

/// Specification-level counterpart of [`crate::protocol::ProtocolError`]:
/// the strings an error carries are abstracted to character sequences.
pub enum ProtocolErrorV {
    /// Not enough data to parse the message.
    InsufficientData { expected: usize, actual: usize },
    /// Unknown message code encountered.
    UnknownMessageCode(Seq<char>),
    /// Invalid UTF-8 string in message data.
    InvalidUtf8,
    /// Message code is not valid text.
    InvalidMessageCode,
    /// Invalid data format or content.
    InvalidData(Seq<char>),
}

/// Abstraction of a Hello message (either dialect): version pair and an
/// optional client name.
pub struct HelloV {
    pub major: u16,
    pub minor: u16,
    pub client_name: Option<Seq<char>>,
}

/// Abstraction of a key-down-with-language message.
pub struct KeyDownWithLanguageV {
    pub keyid: u16,
    pub mask: u16,
    pub button: u16,
    pub lang: Seq<char>,
}

/// Abstraction of a key-repeat message.
pub struct KeyRepeatV {
    pub keyid: u16,
    pub mask: u16,
    pub button: u16,
    pub count: u16,
    pub lang: Seq<char>,
}

/// Abstraction of a clipboard-data message.
pub struct ClipboardDataV {
    pub id: u8,
    pub sequence: u32,
    pub mark: u8,
    pub data: Seq<char>,
}

/// Abstraction of a file-transfer message.
pub struct FileTransferV {
    pub mark: u8,
    pub data: Seq<char>,
}

/// Abstraction of a drag-info message.
pub struct DragInfoV {
    pub size: u16,
    pub data: Seq<char>,
}

/// Abstraction of a secure-encryption message.
pub struct SecureEncryptionV {
    pub data: Seq<char>,
}

/// Abstraction of a legacy-synergy language-list message.
pub struct LegacySynergyV {
    pub data: Seq<char>,
}

/// Big-endian two-byte encoding of a 16-bit integer.
pub open spec fn u16_be(x: u16) -> Seq<u8> {
    seq![(x / 256) as u8, (x % 256) as u8]
}

/// Big-endian four-byte encoding of a 32-bit integer.
pub open spec fn u32_be(x: u32) -> Seq<u8> {
    u16_be((x / 0x10000) as u16) + u16_be((x % 0x10000) as u16)
}

/// Big-endian two-byte encoding of a signed 16-bit integer
/// (two's complement).
pub open spec fn i16_be(x: i16) -> Seq<u8> {
    u16_be(x as u16)
}

/// The 16-bit integer read big-endian from two bytes.
pub open spec fn be_u16(b0: u8, b1: u8) -> u16 {
    (b0 * 256 + b1) as u16
}

/// The 32-bit integer read big-endian from four bytes.
pub open spec fn be_u32(b0: u8, b1: u8, b2: u8, b3: u8) -> u32 {
    (be_u16(b0, b1) * 0x10000 + be_u16(b2, b3)) as u32
}

/// The signed 16-bit integer read big-endian from two bytes.
pub open spec fn be_i16(b0: u8, b1: u8) -> i16 {
    be_u16(b0, b1) as i16
}

/// The 16-bit integer read big-endian at an offset of a buffer.
pub open spec fn be_u16_at(data: Seq<u8>, off: int) -> u16
    recommends
        0 <= off,
        off + 2 <= data.len(),
{
    be_u16(data[off], data[off + 1])
}

/// The 32-bit integer read big-endian at an offset of a buffer.
pub open spec fn be_u32_at(data: Seq<u8>, off: int) -> u32
    recommends
        0 <= off,
        off + 4 <= data.len(),
{
    be_u32(data[off], data[off + 1], data[off + 2], data[off + 3])
}

/// The signed 16-bit integer read big-endian at an offset of a buffer.
pub open spec fn be_i16_at(data: Seq<u8>, off: int) -> i16
    recommends
        0 <= off,
        off + 2 <= data.len(),
{
    be_i16(data[off], data[off + 1])
}

/// Clamps a mathematical integer into the `usize` range.  Reported byte
/// counts saturate rather than wrap when a declared string length plus its
/// offset would not even fit in a machine word.
pub open spec fn sat_usize(x: int) -> usize {
    if x > usize::MAX {
        usize::MAX
    } else if x < 0 {
        0
    } else {
        x as usize
    }
}

/// The error reported when a read needs `expected` bytes but only `actual`
/// are available.
pub open spec fn insufficient(expected: int, actual: int) -> ProtocolErrorV {
    ProtocolErrorV::InsufficientData { expected: sat_usize(expected), actual: sat_usize(actual) }
}

/// What reading one byte at `off` yields.
pub open spec fn spec_read_u8(data: Seq<u8>, off: int) -> Result<u8, ProtocolErrorV> {
    if off + 1 <= data.len() {
        Ok(data[off])
    } else {
        Err(insufficient(off + 1, data.len() as int))
    }
}

/// What reading a big-endian 16-bit integer at `off` yields.
pub open spec fn spec_read_u16(data: Seq<u8>, off: int) -> Result<u16, ProtocolErrorV> {
    if off + 2 <= data.len() {
        Ok(be_u16_at(data, off))
    } else {
        Err(insufficient(off + 2, data.len() as int))
    }
}

/// What reading a big-endian signed 16-bit integer at `off` yields.
pub open spec fn spec_read_i16(data: Seq<u8>, off: int) -> Result<i16, ProtocolErrorV> {
    if off + 2 <= data.len() {
        Ok(be_i16_at(data, off))
    } else {
        Err(insufficient(off + 2, data.len() as int))
    }
}

/// What reading a big-endian 32-bit integer at `off` yields.
pub open spec fn spec_read_u32(data: Seq<u8>, off: int) -> Result<u32, ProtocolErrorV> {
    if off + 4 <= data.len() {
        Ok(be_u32_at(data, off))
    } else {
        Err(insufficient(off + 4, data.len() as int))
    }
}

/// What reading a length-prefixed string at `off` yields: a 4-byte big-endian
/// byte count, then that many bytes of UTF-8 text.
pub open spec fn spec_read_lps(data: Seq<u8>, off: int) -> Result<Seq<char>, ProtocolErrorV> {
    if off + 4 > data.len() {
        Err(insufficient(off + 4, data.len() as int))
    } else {
        let n = be_u32_at(data, off) as int;
        if off + 4 + n > data.len() {
            Err(insufficient(off + 4 + n, data.len() as int))
        } else {
            let bytes = data.subrange(off + 4, off + 4 + n);
            if valid_utf8(bytes) {
                Ok(decode_utf8(bytes))
            } else {
                Err(ProtocolErrorV::InvalidUtf8)
            }
        }
    }
}

/// Big-endian length prefix followed by the UTF-8 encoding of the string.
pub open spec fn lps_encode(s: Seq<char>) -> Seq<u8> {
    u32_be(encode_utf8(s).len() as u32) + encode_utf8(s)
}

/// Shared parse specification for the two Hello messages: both carry a
/// 7-character code, the version pair, and, when more bytes follow, a
/// length-prefixed client name.
pub open spec fn hello_parse(data: Seq<u8>) -> Result<HelloV, ProtocolErrorV> {
    if data.len() < 11 {
        Err(insufficient(11, data.len() as int))
    } else {
        let major = be_u16_at(data, 7);
        let minor = be_u16_at(data, 9);
        if data.len() > 11 {
            match spec_read_lps(data, 11) {
                Ok(name) => Ok(HelloV { major, minor, client_name: Some(name) }),
                Err(e) => Err(e),
            }
        } else {
            Ok(HelloV { major, minor, client_name: None })
        }
    }
}

/// Shared encode specification for the two Hello messages.
pub open spec fn hello_encode(code: &str, v: HelloV) -> Seq<u8> {
    match v.client_name {
        Some(name) => code.spec_bytes() + u16_be(v.major) + u16_be(v.minor) + lps_encode(name),
        None => code.spec_bytes() + u16_be(v.major) + u16_be(v.minor),
    }
}

/// For an ASCII code string, its UTF-8 bytes are its characters, one byte
/// each.
pub proof fn lemma_ascii_code(s: &str)
    requires
        vstd::utf8::is_ascii_chars(s@),
    ensures
        s.spec_bytes().len() == s@.len(),
        forall|i: int| 0 <= i < s@.len() ==> s.spec_bytes()[i] == s@[i] as u8,
{
    vstd::utf8::is_ascii_chars_encode_utf8(s@);
}

pub proof fn lemma_u16_be_roundtrip(x: u16)
    ensures
        u16_be(x).len() == 2,
        be_u16(u16_be(x)[0], u16_be(x)[1]) == x,
{
}

pub proof fn lemma_u32_be_roundtrip(x: u32)
    ensures
        u32_be(x).len() == 4,
        be_u32(u32_be(x)[0], u32_be(x)[1], u32_be(x)[2], u32_be(x)[3]) == x,
{
    lemma_u16_be_roundtrip((x / 0x10000) as u16);
    lemma_u16_be_roundtrip((x % 0x10000) as u16);
}

pub proof fn lemma_i16_be_roundtrip(x: i16)
    ensures
        i16_be(x).len() == 2,
        be_i16(i16_be(x)[0], i16_be(x)[1]) == x,
{
    lemma_u16_be_roundtrip(x as u16);
    assert((x as u16) as i16 == x) by (bit_vector);
}

/// Reading a length-prefixed string back from its encoding recovers the
/// string, provided its byte length fits the 4-byte prefix.
pub proof fn lemma_lps_roundtrip(s: Seq<char>, data: Seq<u8>, off: int)
    requires
        0 <= off,
        encode_utf8(s).len() <= u32::MAX,
        data.len() == off + 4 + encode_utf8(s).len(),
        data.subrange(off, data.len() as int) == lps_encode(s),
    ensures
        spec_read_lps(data, off) == Ok::<Seq<char>, ProtocolErrorV>(s),
{
    let bytes = encode_utf8(s);
    let n = bytes.len() as u32;
    lemma_u32_be_roundtrip(n);
    let tail = data.subrange(off, data.len() as int);
    assert(data[off] == tail[0]);
    assert(data[off + 1] == tail[1]);
    assert(data[off + 2] == tail[2]);
    assert(data[off + 3] == tail[3]);
    assert(tail[0] == u32_be(n)[0]);
    assert(tail[1] == u32_be(n)[1]);
    assert(tail[2] == u32_be(n)[2]);
    assert(tail[3] == u32_be(n)[3]);
    assert(be_u32_at(data, off) == n);
    assert forall|i: int| 0 <= i < n as int implies data[off + 4 + i] == bytes[i] by {
        assert(tail[4 + i] == bytes[i]);
        assert(tail[4 + i] == data[off + 4 + i]);
    }
    assert(data.subrange(off + 4, off + 4 + n as int) =~= bytes);
    vstd::utf8::encode_utf8_valid_utf8(s);
    vstd::utf8::encode_utf8_decode_utf8(s);
}

} // verus!
