//! Client-side connection configuration: address parsing and the pure
//! decision logic of the bounded connect loop.
//!
//! A [`Builder`] collects configuration; setting a server address with
//! [`Builder::server_addr`] parses and validates it and is the only way to
//! obtain a [`ConnectBuilder`], so a connect loop is unreachable until an
//! address has been accepted.  The connect loop itself performs network I/O
//! and therefore lives outside this library; it drives
//! [`ConnectBuilder::after_failed_attempt`], which decides after every
//! failed attempt whether to retry or which bound — overall deadline or
//! retry budget — has failed.
//!
//! Accepted address forms: `host:port`, bare `host` (default port),
//! `[ipv6]:port`, `[ipv6]` (default port), and a bare IPv6 literal (which
//! cannot carry a port, since the literal itself contains colons).  A host
//! that consists only of digits and dots must be a valid IPv4 literal with
//! octets in range.  Addresses longer than 255 bytes are rejected outright.

use vstd::prelude::*;
use vstd::slice::{slice_subrange, slice_to_vec};
use vstd::string::StringSliceAdditionalSpecFns;
use vstd::utf8::{valid_utf8, encode_utf8, decode_utf8, decode_utf8_encode_utf8,
    partial_valid_utf8_extend_ascii_block, is_leading_byte_width_1, partial_valid_utf8};

use crate::protocol::wire::{utf8_to_string, PROTOCOL_MAJOR, PROTOCOL_MINOR};
use crate::protocol::control::MessageHelloBarrier;

verus! {

/// The service port used when an address does not name one.
pub const DEFAULT_PORT: u16 = 24800;

/// The longest address string the parser accepts, in bytes.
pub const MAX_ADDR_LEN: usize = 255;

/// Errors of client-side connection establishment.
#[derive(Debug, Clone, PartialEq, Eq)]
pub enum ClientError {
    /// The server address is not a well-formed host, host:port, or IPv6
    /// literal.
    InvalidAddress,
    /// Every allowed connect attempt failed; carries the number of attempts
    /// made.
    MaxRetriesExceeded(u32),
    /// The overall connection deadline passed first; carries the elapsed
    /// milliseconds.
    ConnectionTimeoutExceeded(u64),
    /// The transport failed after a connection was established.
    Transport(String),
}

/// ASCII byte constants used by the address grammar.
pub const BYTE_DOT: u8 = 46;

pub const BYTE_COLON: u8 = 58;

pub const BYTE_LBRACKET: u8 = 91;

pub const BYTE_RBRACKET: u8 = 93;

pub const BYTE_HYPHEN: u8 = 45;

pub open spec fn is_digit(b: u8) -> bool {
    48 <= b <= 57
}

pub open spec fn is_hex_digit(b: u8) -> bool {
    is_digit(b) || (97 <= b <= 102) || (65 <= b <= 70)
}

/// Bytes allowed in a hostname: letters, digits, hyphen and dot.
pub open spec fn is_host_byte(b: u8) -> bool {
    is_digit(b) || (97 <= b <= 122) || (65 <= b <= 90) || b == BYTE_HYPHEN || b == BYTE_DOT
}

pub open spec fn all_digits(s: Seq<u8>) -> bool {
    forall|i: int| 0 <= i < s.len() ==> is_digit(#[trigger] s[i])
}

pub open spec fn all_host_bytes(s: Seq<u8>) -> bool {
    forall|i: int| 0 <= i < s.len() ==> is_host_byte(#[trigger] s[i])
}

pub open spec fn digits_and_dots(s: Seq<u8>) -> bool {
    forall|i: int| 0 <= i < s.len() ==> (is_digit(#[trigger] s[i]) || s[i] == BYTE_DOT)
}

/// The decimal value of a run of digit bytes.
pub open spec fn digits_value(s: Seq<u8>) -> int
    decreases s.len(),
{
    if s.len() == 0 {
        0
    } else {
        digits_value(s.drop_last()) * 10 + (s.last() - 48)
    }
}

pub open spec fn pow10(n: int) -> int
    decreases n,
{
    if n <= 0 {
        1
    } else {
        10 * pow10(n - 1)
    }
}

/// A valid port: one to five digits whose value fits a 16-bit integer.
pub open spec fn valid_port(s: Seq<u8>) -> bool {
    1 <= s.len() <= 5 && all_digits(s) && digits_value(s) <= 65535
}

/// A valid IPv4 octet: one to three digits with value at most 255.
pub open spec fn valid_octet(s: Seq<u8>) -> bool {
    1 <= s.len() <= 3 && all_digits(s) && digits_value(s) <= 255
}

/// The least index holding `b`, or -1.
pub open spec fn find_byte(s: Seq<u8>, b: u8) -> int
    decreases s.len(),
{
    if s.len() == 0 {
        -1
    } else if s[0] == b {
        0
    } else {
        let r = find_byte(s.drop_first(), b);
        if r < 0 {
            -1
        } else {
            r + 1
        }
    }
}

/// How many positions hold `b`.
pub open spec fn count_byte(s: Seq<u8>, b: u8) -> int
    decreases s.len(),
{
    if s.len() == 0 {
        0
    } else {
        count_byte(s.drop_last(), b) + if s.last() == b {
            1int
        } else {
            0int
        }
    }
}

/// `parts` dot-separated valid octets.
pub open spec fn valid_ipv4_rec(s: Seq<u8>, parts: int) -> bool
    decreases parts,
{
    if parts <= 1 {
        valid_octet(s)
    } else {
        let p = find_byte(s, BYTE_DOT);
        p >= 0 && valid_octet(s.subrange(0, p)) && valid_ipv4_rec(
            s.subrange(p + 1, s.len() as int),
            parts - 1,
        )
    }
}

/// A valid IPv4 literal: four dot-separated octets.
pub open spec fn valid_ipv4(s: Seq<u8>) -> bool {
    valid_ipv4_rec(s, 4)
}

/// A valid hostname: nonempty, letters, digits, hyphens and dots.
pub open spec fn valid_hostname(s: Seq<u8>) -> bool {
    s.len() > 0 && all_host_bytes(s)
}

/// A valid non-IPv6 host: something that looks like an IPv4 literal must be
/// one (out-of-range octets are rejected, not reread as a hostname), and
/// anything else must be a well-formed hostname.
pub open spec fn valid_host(s: Seq<u8>) -> bool {
    if digits_and_dots(s) {
        valid_ipv4(s)
    } else {
        valid_hostname(s)
    }
}

/// A valid IPv6 group: one to four hex digits.
pub open spec fn valid_hex_group(s: Seq<u8>) -> bool {
    1 <= s.len() <= 4 && forall|i: int| 0 <= i < s.len() ==> is_hex_digit(#[trigger] s[i])
}

/// The number of colon-separated valid hex groups, or -1 when the list is
/// malformed (an empty group, a bad group, or a trailing separator).  The
/// empty sequence holds zero groups.
pub open spec fn hex_groups(s: Seq<u8>) -> int
    decreases s.len(),
{
    if s.len() == 0 {
        0
    } else {
        let p = find_byte(s, BYTE_COLON);
        if p < 0 {
            if valid_hex_group(s) {
                1
            } else {
                -1
            }
        } else if !valid_hex_group(s.subrange(0, p)) {
            -1
        } else if p + 1 >= s.len() {
            -1
        } else {
            let r = hex_groups(s.subrange(p + 1, s.len() as int));
            if r < 0 {
                -1
            } else {
                1 + r
            }
        }
    }
}

/// The least index where two consecutive colons start, or -1.
pub open spec fn find_double_colon(s: Seq<u8>) -> int
    decreases s.len(),
{
    if s.len() < 2 {
        -1
    } else if s[0] == BYTE_COLON && s[1] == BYTE_COLON {
        0
    } else {
        let r = find_double_colon(s.drop_first());
        if r < 0 {
            -1
        } else {
            r + 1
        }
    }
}

/// A valid IPv6 literal: either exactly eight colon-separated hex groups,
/// or one `::` gap with at most seven explicit groups around it and
/// well-formed group lists on both sides.
pub open spec fn valid_ipv6(s: Seq<u8>) -> bool {
    let p = find_double_colon(s);
    if p < 0 {
        hex_groups(s) == 8
    } else {
        let left = s.subrange(0, p);
        let right = s.subrange(p + 2, s.len() as int);
        find_double_colon(right) < 0 && hex_groups(left) >= 0 && hex_groups(right) >= 0
            && hex_groups(left) + hex_groups(right) <= 7
    }
}

/// What parsing an address string yields: the host bytes and the port, or
/// nothing when the input is malformed.
pub open spec fn spec_parse_addr(s: Seq<u8>) -> Option<(Seq<u8>, u16)> {
    if s.len() == 0 || s.len() > MAX_ADDR_LEN {
        None
    } else if s[0] == BYTE_LBRACKET {
        let rb = find_byte(s, BYTE_RBRACKET);
        if rb < 0 {
            None
        } else {
            let host = s.subrange(1, rb);
            let rest = s.subrange(rb + 1, s.len() as int);
            if !valid_ipv6(host) {
                None
            } else if rest.len() == 0 {
                Some((host, DEFAULT_PORT))
            } else if rest[0] == BYTE_COLON && valid_port(rest.subrange(1, rest.len() as int)) {
                Some((host, digits_value(rest.subrange(1, rest.len() as int)) as u16))
            } else {
                None
            }
        }
    } else {
        let colons = count_byte(s, BYTE_COLON);
        if colons >= 2 {
            if valid_ipv6(s) {
                Some((s, DEFAULT_PORT))
            } else {
                None
            }
        } else if colons == 1 {
            let c = find_byte(s, BYTE_COLON);
            if c < 0 {
                None
            } else {
                let host = s.subrange(0, c);
                let port = s.subrange(c + 1, s.len() as int);
                if valid_host(host) && valid_port(port) {
                    Some((host, digits_value(port) as u16))
                } else {
                    None
                }
            }
        } else {
            if valid_host(s) {
                Some((s, DEFAULT_PORT))
            } else {
                None
            }
        }
    }
}

fn find_byte_exec(s: &[u8], b: u8) -> (r: Option<usize>)
    ensures
        match r {
            Some(i) => find_byte(s@, b) == i,
            None => find_byte(s@, b) == -1,
        },
    decreases s@.len(),
{
    if s.len() == 0 {
        None
    } else if s[0] == b {
        Some(0)
    } else {
        proof {
            assert(s@.drop_first() =~= s@.subrange(1, s@.len() as int));
        }
        match find_byte_exec(slice_subrange(s, 1, s.len()), b) {
            Some(i) => {
                proof {
                    lemma_find_byte_props(s@.subrange(1, s@.len() as int), b);
                }
                Some(i + 1)
            },
            None => None,
        }
    }
}

fn count_byte_exec(s: &[u8], b: u8) -> (r: usize)
    ensures
        r == count_byte(s@, b),
{
    let mut count: usize = 0;
    let mut i: usize = 0;
    while i < s.len()
        invariant
            0 <= i <= s@.len(),
            count <= i,
            count == count_byte(s@.take(i as int), b),
        decreases s@.len() - i,
    {
        if s[i] == b {
            count = count + 1;
        }
        i = i + 1;
        proof {
            let t = s@.take(i as int);
            assert(t.drop_last() =~= s@.take(i as int - 1));
            assert(t.last() == s@[i as int - 1]);
        }
    }
    proof {
        assert(s@.take(s@.len() as int) =~= s@);
    }
    count
}

fn all_digits_exec(s: &[u8]) -> (r: bool)
    ensures
        r == all_digits(s@),
{
    let mut i: usize = 0;
    while i < s.len()
        invariant
            0 <= i <= s@.len(),
            forall|j: int| 0 <= j < i ==> is_digit(#[trigger] s@[j]),
        decreases s@.len() - i,
    {
        let b = s[i];
        if !(48 <= b && b <= 57) {
            return false;
        }
        i = i + 1;
    }
    true
}

fn digits_and_dots_exec(s: &[u8]) -> (r: bool)
    ensures
        r == digits_and_dots(s@),
{
    let mut i: usize = 0;
    while i < s.len()
        invariant
            0 <= i <= s@.len(),
            forall|j: int| 0 <= j < i ==> (is_digit(#[trigger] s@[j]) || s@[j] == BYTE_DOT),
        decreases s@.len() - i,
    {
        let b = s[i];
        if !((48 <= b && b <= 57) || b == BYTE_DOT) {
            return false;
        }
        i = i + 1;
    }
    true
}

fn all_host_bytes_exec(s: &[u8]) -> (r: bool)
    ensures
        r == all_host_bytes(s@),
{
    let mut i: usize = 0;
    while i < s.len()
        invariant
            0 <= i <= s@.len(),
            forall|j: int| 0 <= j < i ==> is_host_byte(#[trigger] s@[j]),
        decreases s@.len() - i,
    {
        let b = s[i];
        if !((48 <= b && b <= 57) || (97 <= b && b <= 122) || (65 <= b && b <= 90)
            || b == BYTE_HYPHEN || b == BYTE_DOT) {
            return false;
        }
        i = i + 1;
    }
    true
}

fn digits_value_exec(s: &[u8]) -> (r: u32)
    requires
        all_digits(s@),
        s@.len() <= 5,
    ensures
        r as int == digits_value(s@),
        digits_value(s@) < pow10(s@.len() as int),
    decreases s@.len(),
{
    if s.len() == 0 {
        0
    } else {
        proof {
            assert(s@.drop_last() =~= s@.subrange(0, s@.len() as int - 1));
            assert(forall|j: int| 0 <= j < s@.len() - 1 ==> s@.drop_last()[j] == s@[j]);
        }
        let prefix = digits_value_exec(slice_subrange(s, 0, s.len() - 1));
        let d = s[s.len() - 1];
        proof {
            assert(d == s@.last());
            assert(is_digit(s@.last()));
            let n = s@.len() as int - 1;
            assert(pow10(0) == 1);
            assert(pow10(1) == 10);
            assert(pow10(2) == 100);
            assert(pow10(3) == 1000);
            assert(pow10(4) == 10000);
            assert(pow10(5) == 100000);
            assert(0 <= n <= 4);
            if n == 0 {
            } else if n == 1 {
            } else if n == 2 {
            } else if n == 3 {
            } else {
                assert(n == 4);
            }
            assert(pow10(n) <= 10000);
            assert((prefix as int) < pow10(n));
        }
        prefix * 10 + ((d - 48) as u32)
    }
}

fn check_port(s: &[u8]) -> (r: Option<u16>)
    ensures
        match r {
            Some(p) => valid_port(s@) && p as int == digits_value(s@),
            None => !valid_port(s@),
        },
{
    if s.len() < 1 || s.len() > 5 {
        return None;
    }
    if !all_digits_exec(s) {
        return None;
    }
    let v = digits_value_exec(s);
    if v > 65535 {
        None
    } else {
        Some(v as u16)
    }
}

fn check_octet(s: &[u8]) -> (r: bool)
    ensures
        r == valid_octet(s@),
{
    if s.len() < 1 || s.len() > 3 {
        return false;
    }
    if !all_digits_exec(s) {
        return false;
    }
    let v = digits_value_exec(s);
    v <= 255
}

fn check_ipv4_rec(s: &[u8], parts: u32) -> (r: bool)
    requires
        1 <= parts <= 4,
    ensures
        r == valid_ipv4_rec(s@, parts as int),
    decreases parts,
{
    if parts == 1 {
        check_octet(s)
    } else {
        match find_byte_exec(s, BYTE_DOT) {
            Some(p) => {
                proof {
                    lemma_find_byte_props(s@, BYTE_DOT);
                }
                if !check_octet(slice_subrange(s, 0, p)) {
                    return false;
                }
                check_ipv4_rec(slice_subrange(s, p + 1, s.len()), parts - 1)
            },
            None => false,
        }
    }
}

fn check_host(s: &[u8]) -> (r: bool)
    ensures
        r == valid_host(s@),
{
    if digits_and_dots_exec(s) {
        check_ipv4_rec(s, 4)
    } else {
        s.len() > 0 && all_host_bytes_exec(s)
    }
}

fn check_hex_group(s: &[u8]) -> (r: bool)
    ensures
        r == valid_hex_group(s@),
{
    if s.len() < 1 || s.len() > 4 {
        return false;
    }
    let mut i: usize = 0;
    while i < s.len()
        invariant
            0 <= i <= s@.len(),
            forall|j: int| 0 <= j < i ==> is_hex_digit(#[trigger] s@[j]),
        decreases s@.len() - i,
    {
        let b = s[i];
        if !((48 <= b && b <= 57) || (97 <= b && b <= 102) || (65 <= b && b <= 70)) {
            return false;
        }
        i = i + 1;
    }
    true
}

fn hex_groups_exec(s: &[u8]) -> (r: i32)
    requires
        s@.len() <= MAX_ADDR_LEN,
    ensures
        r as int == hex_groups(s@),
        -1 <= r as int <= s@.len(),
    decreases s@.len(),
{
    if s.len() == 0 {
        return 0;
    }
    match find_byte_exec(s, BYTE_COLON) {
        None => {
            if check_hex_group(s) {
                1
            } else {
                -1
            }
        },
        Some(p) => {
            proof {
                lemma_find_byte_props(s@, BYTE_COLON);
            }
            if !check_hex_group(slice_subrange(s, 0, p)) {
                -1
            } else if p + 1 == s.len() {
                -1
            } else {
                let rest = hex_groups_exec(slice_subrange(s, p + 1, s.len()));
                if rest < 0 {
                    -1
                } else {
                    1 + rest
                }
            }
        },
    }
}

/// The least index found by `find_byte` is inside the sequence.
proof fn lemma_find_byte_props(s: Seq<u8>, b: u8)
    ensures
        find_byte(s, b) >= 0 ==> find_byte(s, b) < s.len(),
        find_byte(s, b) >= -1,
    decreases s.len(),
{
    if s.len() > 0 && s[0] != b {
        lemma_find_byte_props(s.drop_first(), b);
    }
}

fn find_double_colon_exec(s: &[u8]) -> (r: Option<usize>)
    ensures
        match r {
            Some(i) => find_double_colon(s@) == i,
            None => find_double_colon(s@) == -1,
        },
    decreases s@.len(),
{
    if s.len() < 2 {
        None
    } else if s[0] == BYTE_COLON && s[1] == BYTE_COLON {
        Some(0)
    } else {
        proof {
            assert(s@.drop_first() =~= s@.subrange(1, s@.len() as int));
        }
        match find_double_colon_exec(slice_subrange(s, 1, s.len())) {
            Some(i) => {
                proof {
                    lemma_find_double_colon_props(s@.subrange(1, s@.len() as int));
                }
                Some(i + 1)
            },
            None => None,
        }
    }
}

/// Where `find_double_colon` points, two colons sit inside the sequence.
proof fn lemma_find_double_colon_props(s: Seq<u8>, )
    ensures
        find_double_colon(s) >= 0 ==> find_double_colon(s) + 2 <= s.len(),
        find_double_colon(s) >= -1,
    decreases s.len(),
{
    if s.len() >= 2 && !(s[0] == BYTE_COLON && s[1] == BYTE_COLON) {
        lemma_find_double_colon_props(s.drop_first());
    }
}

fn check_ipv6(s: &[u8]) -> (r: bool)
    requires
        s@.len() <= MAX_ADDR_LEN,
    ensures
        r == valid_ipv6(s@),
{
    match find_double_colon_exec(s) {
        None => {
            let g = hex_groups_exec(s);
            g == 8
        },
        Some(p) => {
            proof {
                lemma_find_double_colon_props(s@);
            }
            let left = slice_subrange(s, 0, p);
            let right = slice_subrange(s, p + 2, s.len());
            match find_double_colon_exec(right) {
                Some(_) => false,
                None => {
                    let gl = hex_groups_exec(left);
                    let gr = hex_groups_exec(right);
                    gl >= 0 && gr >= 0 && gl + gr <= 7
                },
            }
        },
    }
}

/// A run of ASCII bytes is valid UTF-8.
proof fn lemma_ascii_valid_utf8(bytes: Seq<u8>)
    requires
        forall|i: int| 0 <= i < bytes.len() ==> #[trigger] bytes[i] < 0x80,
    ensures
        valid_utf8(bytes),
{
    assert(bytes.subrange(0, 0) =~= Seq::<u8>::empty());
    assert(partial_valid_utf8(bytes, 0));
    assert(forall|i: int| 0 <= i < bytes.len() ==> is_leading_byte_width_1(#[trigger] bytes[i]));
    partial_valid_utf8_extend_ascii_block(bytes, 0, bytes.len() as int);
    assert(bytes.subrange(0, bytes.len() as int) =~= bytes);
}

/// Turns validated host bytes into a `String`.  Valid hosts are ASCII:
/// hostname and IPv4 bytes by `is_host_byte`, IPv6 bytes hex digits and
/// colons.
fn host_to_string(bytes: &[u8]) -> (r: String)
    requires
        forall|i: int| 0 <= i < bytes@.len() ==> #[trigger] bytes@[i] < 0x80,
    ensures
        encode_utf8(r@) == bytes@,
{
    proof {
        lemma_ascii_valid_utf8(bytes@);
    }
    let ghost b = bytes@;
    match utf8_to_string(slice_to_vec(bytes)) {
        Some(s) => {
            proof {
                decode_utf8_encode_utf8(b);
            }
            s
        },
        None => {
            // unreachable: the bytes were just proved valid UTF-8
            String::new()
        },
    }
}

/// All bytes of a valid IPv6 literal are ASCII.
proof fn lemma_ipv6_ascii(s: Seq<u8>)
    ensures
        valid_ipv6(s) ==> forall|i: int| 0 <= i < s.len() ==> #[trigger] s[i] < 0x80,
{
    if valid_ipv6(s) {
        assert forall|i: int| 0 <= i < s.len() implies #[trigger] s[i] < 0x80 by {
            lemma_ipv6_byte(s, i);
        }
    }
}

/// Every byte of a sequence whose hex-group count is nonnegative is a hex
/// digit or a colon.
proof fn lemma_hex_groups_byte(s: Seq<u8>, i: int)
    requires
        hex_groups(s) >= 0,
        0 <= i < s.len(),
    ensures
        is_hex_digit(s[i]) || s[i] == BYTE_COLON,
    decreases s.len(),
{
    let p = find_byte(s, BYTE_COLON);
    if p < 0 {
        assert(valid_hex_group(s));
    } else {
        lemma_find_byte_props(s, BYTE_COLON);
        if i < p {
            assert(valid_hex_group(s.subrange(0, p)));
            assert(s.subrange(0, p)[i] == s[i]);
        } else if i == p {
            lemma_find_byte_is_byte(s, BYTE_COLON);
        } else {
            lemma_hex_groups_byte(s.subrange(p + 1, s.len() as int), i - p - 1);
        }
    }
}

/// `find_byte` points at an occurrence of the byte.
proof fn lemma_find_byte_is_byte(s: Seq<u8>, b: u8)
    ensures
        find_byte(s, b) >= 0 ==> find_byte(s, b) < s.len() && s[find_byte(s, b)] == b,
    decreases s.len(),
{
    if s.len() > 0 && s[0] != b {
        lemma_find_byte_is_byte(s.drop_first(), b);
    }
}

/// Each byte of a valid IPv6 literal is a hex digit or a colon, hence
/// ASCII.
proof fn lemma_ipv6_byte(s: Seq<u8>, i: int)
    requires
        valid_ipv6(s),
        0 <= i < s.len(),
    ensures
        s[i] < 0x80,
{
    let p = find_double_colon(s);
    if p < 0 {
        lemma_hex_groups_byte(s, i);
    } else {
        lemma_find_double_colon_is_colons(s);
        let left = s.subrange(0, p);
        let right = s.subrange(p + 2, s.len() as int);
        if i < p {
            lemma_hex_groups_byte(left, i);
        } else if i < p + 2 {
        } else {
            lemma_hex_groups_byte(right, i - p - 2);
        }
    }
}

/// `find_double_colon` points at two colons.
proof fn lemma_find_double_colon_is_colons(s: Seq<u8>)
    ensures
        find_double_colon(s) >= 0 ==> find_double_colon(s) + 2 <= s.len() && s[find_double_colon(
            s,
        )] == BYTE_COLON && s[find_double_colon(s) + 1] == BYTE_COLON,
    decreases s.len(),
{
    if s.len() >= 2 && !(s[0] == BYTE_COLON && s[1] == BYTE_COLON) {
        lemma_find_double_colon_is_colons(s.drop_first());
    }
}

/// All bytes of a valid non-IPv6 host are ASCII.
proof fn lemma_host_ascii(s: Seq<u8>)
    ensures
        valid_host(s) ==> forall|i: int| 0 <= i < s.len() ==> #[trigger] s[i] < 0x80,
{
    if valid_host(s) {
        if digits_and_dots(s) {
        } else {
            assert(all_host_bytes(s));
        }
    }
}

/// Parses a server address into host and port.  Accepts `host:port`, bare
/// `host` (default port), `[ipv6]:port`, `[ipv6]`, and a bare IPv6 literal;
/// rejects everything else, including IPv4-shaped hosts with out-of-range
/// octets.
pub fn parse_host_port(s: &str) -> (r: Result<(String, u16), ClientError>)
    ensures
        match r {
            Ok((host, port)) => spec_parse_addr(s.spec_bytes()) == Some(
                (encode_utf8(host@), port),
            ),
            Err(e) => spec_parse_addr(s.spec_bytes()) is None && e == ClientError::InvalidAddress,
        },
{
    let bytes = s.as_bytes();
    if bytes.len() == 0 || bytes.len() > MAX_ADDR_LEN {
        return Err(ClientError::InvalidAddress);
    }
    if bytes[0] == BYTE_LBRACKET {
        let rb = match find_byte_exec(bytes, BYTE_RBRACKET) {
            Some(i) => i,
            None => {
                return Err(ClientError::InvalidAddress);
            },
        };
        proof {
            lemma_find_byte_props(bytes@, BYTE_RBRACKET);
        }
        let host = slice_subrange(bytes, 1, rb);
        let rest = slice_subrange(bytes, rb + 1, bytes.len());
        if !check_ipv6(host) {
            return Err(ClientError::InvalidAddress);
        }
        proof {
            lemma_ipv6_ascii(host@);
        }
        if rest.len() == 0 {
            return Ok((host_to_string(host), DEFAULT_PORT));
        }
        if rest[0] == BYTE_COLON {
            match check_port(slice_subrange(rest, 1, rest.len())) {
                Some(port) => {
                    return Ok((host_to_string(host), port));
                },
                None => {
                    return Err(ClientError::InvalidAddress);
                },
            }
        }
        return Err(ClientError::InvalidAddress);
    }
    let colons = count_byte_exec(bytes, BYTE_COLON);
    if colons >= 2 {
        if check_ipv6(bytes) {
            proof {
                lemma_ipv6_ascii(bytes@);
            }
            return Ok((host_to_string(bytes), DEFAULT_PORT));
        }
        return Err(ClientError::InvalidAddress);
    }
    if colons == 1 {
        let c = match find_byte_exec(bytes, BYTE_COLON) {
            Some(i) => i,
            None => {
                return Err(ClientError::InvalidAddress);
            },
        };
        proof {
            lemma_find_byte_props(bytes@, BYTE_COLON);
        }
        let host = slice_subrange(bytes, 0, c);
        let port_bytes = slice_subrange(bytes, c + 1, bytes.len());
        if !check_host(host) {
            return Err(ClientError::InvalidAddress);
        }
        match check_port(port_bytes) {
            Some(port) => {
                proof {
                    lemma_host_ascii(host@);
                }
                return Ok((host_to_string(host), port));
            },
            None => {
                return Err(ClientError::InvalidAddress);
            },
        }
    }
    if check_host(bytes) {
        proof {
            lemma_host_ascii(bytes@);
        }
        return Ok((host_to_string(bytes), DEFAULT_PORT));
    }
    Err(ClientError::InvalidAddress)
}

/// Abstraction of the client configuration.
pub struct BuilderV {
    pub name: Seq<char>,
    pub width: u16,
    pub height: u16,
    pub retry_count: u32,
    pub retry_interval_ms: u64,
    pub connection_timeout_ms: u64,
}

/// Collects client configuration before an address is known.  Only
/// [`Builder::server_addr`] can produce a [`ConnectBuilder`], so nothing
/// can try to connect before an address has been parsed and accepted.
#[derive(Debug, Clone)]
pub struct Builder {
    name: String,
    width: u16,
    height: u16,
    retry_count: u32,
    retry_interval_ms: u64,
    connection_timeout_ms: u64,
}

impl View for Builder {
    type V = BuilderV;

    closed spec fn view(&self) -> BuilderV {
        BuilderV {
            name: self.name@,
            width: self.width,
            height: self.height,
            retry_count: self.retry_count,
            retry_interval_ms: self.retry_interval_ms,
            connection_timeout_ms: self.connection_timeout_ms,
        }
    }
}

impl Builder {
    /// A configuration with an empty name, no screen geometry, three
    /// connect attempts, a one-second retry interval and a thirty-second
    /// overall deadline.
    pub fn new() -> (r: Self)
        ensures
            r@.name == Seq::<char>::empty(),
            r@.width == 0 && r@.height == 0,
            r@.retry_count == 3,
            r@.retry_interval_ms == 1000,
            r@.connection_timeout_ms == 30000,
    {
        Builder {
            name: String::new(),
            width: 0,
            height: 0,
            retry_count: 3,
            retry_interval_ms: 1000,
            connection_timeout_ms: 30000,
        }
    }

    /// Sets the name announced to the server during the handshake.
    pub fn name(self, name: &str) -> (r: Self)
        ensures
            r@ == (BuilderV { name: name@, ..self@ }),
    {
        Builder { name: String::from_str(name), ..self }
    }

    /// Sets the screen dimensions reported in client info.
    pub fn dimensions(self, width: u16, height: u16) -> (r: Self)
        ensures
            r@ == (BuilderV { width, height, ..self@ }),
    {
        Builder { width, height, ..self }
    }

    /// Sets how many connect attempts are made before giving up.
    pub fn retry_count(self, retry_count: u32) -> (r: Self)
        ensures
            r@ == (BuilderV { retry_count, ..self@ }),
    {
        Builder { retry_count, ..self }
    }

    /// Sets the pause between consecutive connect attempts.
    pub fn retry_interval_ms(self, retry_interval_ms: u64) -> (r: Self)
        ensures
            r@ == (BuilderV { retry_interval_ms, ..self@ }),
    {
        Builder { retry_interval_ms, ..self }
    }

    /// Sets the overall connection deadline.
    pub fn connection_timeout_ms(self, connection_timeout_ms: u64) -> (r: Self)
        ensures
            r@ == (BuilderV { connection_timeout_ms, ..self@ }),
    {
        Builder { connection_timeout_ms, ..self }
    }

    /// Parses and stores the server address.  Succeeds exactly on the
    /// address forms `spec_parse_addr` accepts; on failure the
    /// configuration is discarded with `InvalidAddress`.
    pub fn server_addr(self, addr: &str) -> (r: Result<ConnectBuilder, ClientError>)
        ensures
            match r {
                Ok(cb) => spec_parse_addr(addr.spec_bytes()) == Some(
                    (encode_utf8(cb@.host), cb@.port),
                ) && cb@.config == self@,
                Err(e) => spec_parse_addr(addr.spec_bytes()) is None && e
                    == ClientError::InvalidAddress,
            },
    {
        match parse_host_port(addr) {
            Ok((host, port)) => Ok(ConnectBuilder { host, port, config: self }),
            Err(e) => Err(e),
        }
    }
}

/// Abstraction of a fully addressed client configuration.
pub struct ConnectBuilderV {
    pub host: Seq<char>,
    pub port: u16,
    pub config: BuilderV,
}

/// A client configuration whose server address has been parsed and
/// accepted.  The connect loop itself does network I/O and lives with the
/// caller; it obtains the address from [`ConnectBuilder::host`] and
/// [`ConnectBuilder::port`] and asks [`ConnectBuilder::after_failed_attempt`]
/// after every failed attempt whether to keep going.
#[derive(Debug, Clone)]
pub struct ConnectBuilder {
    host: String,
    port: u16,
    config: Builder,
}

impl View for ConnectBuilder {
    type V = ConnectBuilderV;

    closed spec fn view(&self) -> ConnectBuilderV {
        ConnectBuilderV { host: self.host@, port: self.port, config: self.config@ }
    }
}

impl ConnectBuilder {
    /// The host to connect to.
    pub fn host(&self) -> (r: &String)
        ensures
            r@ == self@.host,
    {
        &self.host
    }

    /// The port to connect to.
    pub fn port(&self) -> (r: u16)
        ensures
            r == self@.port,
    {
        self.port
    }

    /// The name announced to the server.
    pub fn client_name(&self) -> (r: &String)
        ensures
            r@ == self@.config.name,
    {
        &self.config.name
    }

    /// The configured screen dimensions.
    pub fn dimensions(&self) -> (r: (u16, u16))
        ensures
            r.0 == self@.config.width,
            r.1 == self@.config.height,
    {
        (self.config.width, self.config.height)
    }

    /// The pause between consecutive connect attempts.
    pub fn retry_interval_ms(&self) -> (r: u64)
        ensures
            r == self@.config.retry_interval_ms,
    {
        self.config.retry_interval_ms
    }

    /// The client's answer to the server's greeting: a greeting whose
    /// major version is not the supported one is refused — the caller
    /// closes the connection — and any other greeting is answered with a
    /// Hello carrying the configured client name.
    pub fn greeting_reply(&self, greeting_major: u16) -> (r: Option<MessageHelloBarrier>)
        ensures
            greeting_major != PROTOCOL_MAJOR ==> r is None,
            greeting_major == PROTOCOL_MAJOR ==> (match r {
                Some(h) => h.major == PROTOCOL_MAJOR && h.minor == PROTOCOL_MINOR
                    && h@.client_name == Some(self@.config.name),
                None => false,
            }),
    {
        if greeting_major != PROTOCOL_MAJOR {
            return None;
        }
        Some(MessageHelloBarrier {
            major: PROTOCOL_MAJOR,
            minor: PROTOCOL_MINOR,
            client_name: Some(self.config.name.clone()),
        })
    }

    /// Decides, after one more failed connect attempt, whether the loop
    /// goes on.  The overall deadline is checked first — it fires even
    /// mid-attempt — then the retry budget: `None` means wait one retry
    /// interval and try again, `Some(error)` names the bound that failed,
    /// `ConnectionTimeoutExceeded` carrying the elapsed time and
    /// `MaxRetriesExceeded` the number of attempts made.
    pub fn after_failed_attempt(&self, attempts_made: u32, elapsed_ms: u64) -> (r: Option<
        ClientError,
    >)
        ensures
            r == (if elapsed_ms >= self@.config.connection_timeout_ms {
                Some(ClientError::ConnectionTimeoutExceeded(elapsed_ms))
            } else if attempts_made >= self@.config.retry_count {
                Some(ClientError::MaxRetriesExceeded(attempts_made))
            } else {
                None::<ClientError>
            }),
    {
        if elapsed_ms >= self.config.connection_timeout_ms {
            Some(ClientError::ConnectionTimeoutExceeded(elapsed_ms))
        } else if attempts_made >= self.config.retry_count {
            Some(ClientError::MaxRetriesExceeded(attempts_made))
        } else {
            None
        }
    }
}

} // verus!
