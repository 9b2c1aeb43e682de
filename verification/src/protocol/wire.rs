//! Executable byte-level plumbing: field readers and writers, the
//! [`ProtocolError`] type, length-prefixed strings, and the
//! [`ProtocolMessage`] trait that every message type implements.

use vstd::prelude::*;
use vstd::slice::{slice_subrange, slice_to_vec};
use vstd::string::{StringSliceAdditionalSpecFns, StringExecFns};
use vstd::utf8::{valid_utf8, decode_utf8, encode_utf8};

use crate::protocol::model::{ProtocolErrorV, sat_usize, insufficient, spec_read_u8,
    spec_read_u16, spec_read_i16, spec_read_u32, spec_read_lps, lps_encode, u16_be, u32_be,
    i16_be, be_u16_at, be_u32_at, be_i16_at, be_u16, be_u32, be_i16};

verus! {

/// The protocol version this library speaks.
pub const PROTOCOL_MAJOR: u16 = 1;

/// The minor protocol version this library speaks.
pub const PROTOCOL_MINOR: u16 = 6;

/// Errors that can occur during protocol message parsing or serialization.
#[derive(Debug, Clone, PartialEq, Eq)]
pub enum ProtocolError {
    /// Not enough data to parse the message.
    InsufficientData { expected: usize, actual: usize },
    /// Unknown message code encountered.
    UnknownMessageCode(String),
    /// Invalid UTF-8 string in message data.
    InvalidUtf8,
    /// Message code is not valid text.
    InvalidMessageCode,
    /// Invalid data format or content.
    InvalidData(String),
}

impl View for ProtocolError {
    type V = ProtocolErrorV;

    open spec fn view(&self) -> ProtocolErrorV {
        match self {
            ProtocolError::InsufficientData { expected, actual } =>
                ProtocolErrorV::InsufficientData { expected: *expected, actual: *actual },
            ProtocolError::UnknownMessageCode(code) =>
                ProtocolErrorV::UnknownMessageCode(code@),
            ProtocolError::InvalidUtf8 => ProtocolErrorV::InvalidUtf8,
            ProtocolError::InvalidMessageCode => ProtocolErrorV::InvalidMessageCode,
            ProtocolError::InvalidData(msg) => ProtocolErrorV::InvalidData(msg@),
        }
    }
}

impl ProtocolError {
    /// A short human-readable description of the error.
    pub fn describe(&self) -> (r: &'static str)
        ensures
            r@ == match self {
                ProtocolError::InsufficientData { .. } => "insufficient data"@,
                ProtocolError::UnknownMessageCode(_) => "unknown message code"@,
                ProtocolError::InvalidUtf8 => "invalid UTF-8 string in message data"@,
                ProtocolError::InvalidMessageCode => "invalid message code"@,
                ProtocolError::InvalidData(_) => "invalid data"@,
            },
    {
        let r = match self {
            ProtocolError::InsufficientData { .. } => "insufficient data",
            ProtocolError::UnknownMessageCode(_) => "unknown message code",
            ProtocolError::InvalidUtf8 => "invalid UTF-8 string in message data",
            ProtocolError::InvalidMessageCode => "invalid message code",
            ProtocolError::InvalidData(_) => "invalid data",
        };
        r
    }
}

/// Trait for protocol messages that can be serialized to and deserialized
/// from bytes.
///
/// Each message type carries its own specification-level codec:
/// `spec_parse` says exactly which value or error `from_bytes` yields for
/// every possible buffer, `spec_encode` says exactly which bytes `to_bytes`
/// produces, and `lemma_parse_encode` proves that parsing an encoded message
/// recovers the message.
pub trait ProtocolMessage: Sized + View {
    /// The 4-character (or 7-character, for the Hello messages) protocol
    /// code of this message type, as a character sequence.
    spec fn spec_code() -> Seq<char>;

    /// What parsing a buffer as this message type yields.  The buffer
    /// includes the code bytes; fixed fields sit at fixed offsets after
    /// them.
    spec fn spec_parse(data: Seq<u8>) -> Result<Self::V, ProtocolErrorV>;

    /// The exact bytes this message serializes to (code bytes included,
    /// length prefix excluded).
    spec fn spec_encode(v: Self::V) -> Seq<u8>;

    /// The protocol code of this message type.
    fn code() -> (r: &'static str)
        ensures
            r@ == Self::spec_code(),
    ;

    /// Parse a message from bytes (without the length prefix).
    fn from_bytes(data: &[u8]) -> (r: Result<Self, ProtocolError>)
        ensures
            match r {
                Ok(m) => Self::spec_parse(data@) == Ok::<Self::V, ProtocolErrorV>(m@),
                Err(e) => Self::spec_parse(data@) == Err::<Self::V, ProtocolErrorV>(e@),
            },
    ;

    /// Serialize this message to bytes (without the length prefix).
    fn to_bytes(&self) -> (r: Vec<u8>)
        requires
            Self::spec_encode(self@).len() <= u32::MAX,
        ensures
            r@ == Self::spec_encode(self@),
    ;

    /// Round trip: parsing an encoded message yields the message back.
    proof fn lemma_parse_encode(v: Self::V)
        requires
            Self::spec_encode(v).len() <= u32::MAX,
        ensures
            Self::spec_parse(Self::spec_encode(v)) == Ok::<Self::V, ProtocolErrorV>(v),
    ;
}

/// Relies on `String::from_utf8`: it succeeds exactly on valid UTF-8 input
/// and returns the string whose UTF-8 encoding is that input.
#[verifier::external_body]
pub(crate) fn utf8_to_string(bytes: Vec<u8>) -> (r: Option<String>)
    ensures
        r is Some <==> valid_utf8(bytes@),
        r matches Some(s) ==> s@ == decode_utf8(bytes@),
{
    String::from_utf8(bytes).ok()
}

/// Addition on byte counts that saturates instead of overflowing.
pub(crate) fn sat_add(a: usize, b: usize) -> (r: usize)
    ensures
        r == sat_usize(a + b),
{
    if b > usize::MAX - a {
        usize::MAX
    } else {
        a + b
    }
}

pub(crate) fn read_u8(data: &[u8], offset: usize) -> (r: Result<u8, ProtocolError>)
    requires
        offset + 1 <= usize::MAX,
    ensures
        match r {
            Ok(v) => spec_read_u8(data@, offset as int) == Ok::<u8, ProtocolErrorV>(v),
            Err(e) => spec_read_u8(data@, offset as int) == Err::<u8, ProtocolErrorV>(e@),
        },
{
    if data.len() < offset + 1 {
        return Err(ProtocolError::InsufficientData { expected: offset + 1, actual: data.len() });
    }
    Ok(data[offset])
}

pub(crate) fn read_u16(data: &[u8], offset: usize) -> (r: Result<u16, ProtocolError>)
    requires
        offset + 2 <= usize::MAX,
    ensures
        match r {
            Ok(v) => spec_read_u16(data@, offset as int) == Ok::<u16, ProtocolErrorV>(v),
            Err(e) => spec_read_u16(data@, offset as int) == Err::<u16, ProtocolErrorV>(e@),
        },
{
    if data.len() < offset + 2 {
        return Err(ProtocolError::InsufficientData { expected: offset + 2, actual: data.len() });
    }
    Ok((data[offset] as u16) * 256 + (data[offset + 1] as u16))
}

pub(crate) fn read_i16(data: &[u8], offset: usize) -> (r: Result<i16, ProtocolError>)
    requires
        offset + 2 <= usize::MAX,
    ensures
        match r {
            Ok(v) => spec_read_i16(data@, offset as int) == Ok::<i16, ProtocolErrorV>(v),
            Err(e) => spec_read_i16(data@, offset as int) == Err::<i16, ProtocolErrorV>(e@),
        },
{
    if data.len() < offset + 2 {
        return Err(ProtocolError::InsufficientData { expected: offset + 2, actual: data.len() });
    }
    let v: u16 = (data[offset] as u16) * 256 + (data[offset + 1] as u16);
    Ok(#[verifier::truncate] (v as i16))
}

pub(crate) fn read_u32(data: &[u8], offset: usize) -> (r: Result<u32, ProtocolError>)
    requires
        offset + 4 <= usize::MAX,
    ensures
        match r {
            Ok(v) => spec_read_u32(data@, offset as int) == Ok::<u32, ProtocolErrorV>(v),
            Err(e) => spec_read_u32(data@, offset as int) == Err::<u32, ProtocolErrorV>(e@),
        },
{
    if data.len() < offset + 4 {
        return Err(ProtocolError::InsufficientData { expected: offset + 4, actual: data.len() });
    }
    let hi: u16 = (data[offset] as u16) * 256 + (data[offset + 1] as u16);
    let lo: u16 = (data[offset + 2] as u16) * 256 + (data[offset + 3] as u16);
    Ok((hi as u32) * 0x10000 + (lo as u32))
}

pub(crate) fn push_u8(out: &mut Vec<u8>, x: u8)
    ensures
        final(out)@ == old(out)@ + seq![x],
{
    out.push(x);
    assert(final(out)@ =~= old(out)@ + seq![x]);
}

pub(crate) fn push_u16_be(out: &mut Vec<u8>, x: u16)
    ensures
        final(out)@ == old(out)@ + u16_be(x),
{
    out.push((x / 256) as u8);
    out.push((x % 256) as u8);
    assert(final(out)@ =~= old(out)@ + u16_be(x));
}

pub(crate) fn push_i16_be(out: &mut Vec<u8>, x: i16)
    ensures
        final(out)@ == old(out)@ + i16_be(x),
{
    push_u16_be(out, #[verifier::truncate] (x as u16));
}

pub(crate) fn push_u32_be(out: &mut Vec<u8>, x: u32)
    ensures
        final(out)@ == old(out)@ + u32_be(x),
{
    push_u16_be(out, (x / 0x10000) as u16);
    push_u16_be(out, (x % 0x10000) as u16);
    assert(final(out)@ =~= old(out)@ + u32_be(x));
}

pub(crate) fn push_bytes(out: &mut Vec<u8>, bytes: &[u8])
    ensures
        final(out)@ == old(out)@ + bytes@,
{
    let mut i: usize = 0;
    while i < bytes.len()
        invariant
            i <= bytes@.len(),
            out@ == old(out)@ + bytes@.subrange(0, i as int),
        decreases bytes@.len() - i,
    {
        out.push(bytes[i]);
        i = i + 1;
        assert(out@ =~= old(out)@ + bytes@.subrange(0, i as int));
    }
    assert(bytes@.subrange(0, bytes@.len() as int) =~= bytes@);
}

pub(crate) fn push_str_bytes(out: &mut Vec<u8>, s: &str)
    ensures
        final(out)@ == old(out)@ + s.spec_bytes(),
{
    push_bytes(out, s.as_bytes());
}

/// Whether two byte slices hold the same bytes.
pub(crate) fn bytes_eq(a: &[u8], b: &[u8]) -> (r: bool)
    ensures
        r == (a@ == b@),
{
    if a.len() != b.len() {
        return false;
    }
    let mut i: usize = 0;
    while i < a.len()
        invariant
            i <= a@.len(),
            a@.len() == b@.len(),
            forall|j: int| 0 <= j < i ==> a@[j] == b@[j],
        decreases a@.len() - i,
    {
        if a[i] != b[i] {
            return false;
        }
        i = i + 1;
    }
    proof {
        assert(a@ =~= b@);
    }
    true
}

/// A string with a 4-byte big-endian length prefix.
#[derive(Debug, Clone, PartialEq, Eq)]
pub struct LengthPrefixedString(pub String);

impl View for LengthPrefixedString {
    type V = Seq<char>;

    open spec fn view(&self) -> Seq<char> {
        self.0@
    }
}

impl LengthPrefixedString {
    /// Read a length-prefixed string from bytes at the given offset.
    /// Returns the string and the number of bytes consumed.
    pub(crate) fn from_bytes(data: &[u8], offset: usize) -> (r: Result<
        (Self, usize),
        ProtocolError,
    >)
        requires
            offset + 4 <= usize::MAX,
        ensures
            match r {
                Ok((lps, consumed)) => spec_read_lps(data@, offset as int) == Ok::<
                    Seq<char>,
                    ProtocolErrorV,
                >(lps@) && offset + 4 <= data@.len() && consumed == 4 + be_u32_at(
                    data@,
                    offset as int,
                ),
                Err(e) => spec_read_lps(data@, offset as int) == Err::<
                    Seq<char>,
                    ProtocolErrorV,
                >(e@),
            },
    {
        if data.len() < offset + 4 {
            return Err(ProtocolError::InsufficientData {
                expected: offset + 4,
                actual: data.len(),
            });
        }
        let length = match read_u32(data, offset) {
            Ok(v) => v as usize,
            Err(e) => {
                return Err(e);
            },
        };
        let string_start = offset + 4;
        if length > data.len() - string_start {
            return Err(ProtocolError::InsufficientData {
                expected: sat_add(string_start, length),
                actual: data.len(),
            });
        }
        let string_bytes = slice_subrange(data, string_start, string_start + length);
        match utf8_to_string(slice_to_vec(string_bytes)) {
            Some(s) => Ok((LengthPrefixedString(s), 4 + length)),
            None => Err(ProtocolError::InvalidUtf8),
        }
    }

    /// Write a length-prefixed string to bytes.
    pub(crate) fn to_bytes(&self) -> (r: Vec<u8>)
        requires
            encode_utf8(self@).len() <= u32::MAX,
        ensures
            r@ == lps_encode(self@),
    {
        let string_bytes = self.0.as_str().as_bytes();
        let mut result: Vec<u8> = Vec::new();
        push_u32_be(&mut result, string_bytes.len() as u32);
        push_bytes(&mut result, string_bytes);
        proof {
            assert(result@ =~= lps_encode(self@));
        }
        result
    }
}

impl From<String> for LengthPrefixedString {
    fn from(s: String) -> (r: Self) {
        LengthPrefixedString(s)
    }
}

impl vstd::std_specs::convert::FromSpecImpl<String> for LengthPrefixedString {
    open spec fn obeys_from_spec() -> bool {
        true
    }

    open spec fn from_spec(s: String) -> Self {
        LengthPrefixedString(s)
    }
}

impl From<&str> for LengthPrefixedString {
    fn from(s: &str) -> (r: Self)
        ensures
            r@ == s@,
    {
        LengthPrefixedString(String::from_str(s))
    }
}

impl vstd::std_specs::convert::FromSpecImpl<&str> for LengthPrefixedString {
    open spec fn obeys_from_spec() -> bool {
        false
    }

    open spec fn from_spec(s: &str) -> Self {
        arbitrary()
    }
}

} // verus!
