//! Input-event messages: keyboard and mouse.

use vstd::prelude::*;
use vstd::string::StringSliceAdditionalSpecFns;
use vstd::utf8::encode_utf8;

use crate::protocol::model::{ProtocolErrorV, KeyDownWithLanguageV, KeyRepeatV, insufficient,
    spec_read_lps, lps_encode, u16_be, u32_be, i16_be, be_u16_at, be_u32_at, be_i16_at,
    lemma_ascii_code, lemma_u16_be_roundtrip, lemma_u32_be_roundtrip, lemma_i16_be_roundtrip,
    lemma_lps_roundtrip};
use crate::protocol::wire::{ProtocolError, ProtocolMessage, LengthPrefixedString, read_u8,
    read_u16, read_i16, read_u32, push_u8, push_u16_be, push_i16_be, push_u32_be, push_bytes,
    push_str_bytes};

verus! {


/// Key down.
#[derive(Debug, Clone, PartialEq, Eq)]
pub struct MessageKeyDown {
    /// Virtual key identifier (keysym on Linux/X11, platform-dependent)
    pub keyid: u16,
    /// Active modifier keys bitmask
    pub mask: u16,
    /// Physical key code (keycode/scancode, platform-dependent)
    pub button: u16,
}

impl View for MessageKeyDown {
    type V = MessageKeyDown;

    open spec fn view(&self) -> MessageKeyDown {
        *self
    }
}

impl ProtocolMessage for MessageKeyDown {
    open spec fn spec_code() -> Seq<char> {
        "DKDN"@
    }

    open spec fn spec_parse(data: Seq<u8>) -> Result<MessageKeyDown, ProtocolErrorV> {
        if data.len() < 10 {
            Err(insufficient(10, data.len() as int))
        } else {
            Ok(MessageKeyDown {
                keyid: be_u16_at(data, 4),
                mask: be_u16_at(data, 6),
                button: be_u16_at(data, 8),
            })
        }
    }

    open spec fn spec_encode(v: MessageKeyDown) -> Seq<u8> {
        "DKDN".spec_bytes() + u16_be(v.keyid) + u16_be(v.mask) + u16_be(v.button)
    }

    fn code() -> (r: &'static str) {
        "DKDN"
    }

    fn from_bytes(data: &[u8]) -> (r: Result<Self, ProtocolError>) {
        if data.len() < 10 {
            return Err(ProtocolError::InsufficientData { expected: 10, actual: data.len() });
        }
        let keyid = match read_u16(data, 4) {
            Ok(v) => v,
            Err(e) => {
                return Err(e);
            },
        };
        let mask = match read_u16(data, 6) {
            Ok(v) => v,
            Err(e) => {
                return Err(e);
            },
        };
        let button = match read_u16(data, 8) {
            Ok(v) => v,
            Err(e) => {
                return Err(e);
            },
        };
        Ok(MessageKeyDown { keyid, mask, button })
    }

    fn to_bytes(&self) -> (r: Vec<u8>) {
        let mut bytes: Vec<u8> = Vec::new();
        push_str_bytes(&mut bytes, "DKDN");
        push_u16_be(&mut bytes, self.keyid);
        push_u16_be(&mut bytes, self.mask);
        push_u16_be(&mut bytes, self.button);
        proof {
            assert(bytes@ =~= Self::spec_encode(self@));
        }
        bytes
    }

    proof fn lemma_parse_encode(v: MessageKeyDown) {
        reveal_strlit("DKDN");
        lemma_ascii_code("DKDN");
        let enc = Self::spec_encode(v);
        lemma_u16_be_roundtrip(v.keyid);
        lemma_u16_be_roundtrip(v.mask);
        lemma_u16_be_roundtrip(v.button);
        assert(be_u16_at(enc, 4) == v.keyid);
        assert(be_u16_at(enc, 6) == v.mask);
        assert(be_u16_at(enc, 8) == v.button);
    }
}


/// Key up.
#[derive(Debug, Clone, PartialEq, Eq)]
pub struct MessageKeyUp {
    /// Virtual key identifier (keysym on Linux/X11, platform-dependent)
    pub keyid: u16,
    /// Active modifier keys bitmask
    pub mask: u16,
    /// Physical key code (keycode/scancode, platform-dependent)
    pub button: u16,
}

impl View for MessageKeyUp {
    type V = MessageKeyUp;

    open spec fn view(&self) -> MessageKeyUp {
        *self
    }
}

impl ProtocolMessage for MessageKeyUp {
    open spec fn spec_code() -> Seq<char> {
        "DKUP"@
    }

    open spec fn spec_parse(data: Seq<u8>) -> Result<MessageKeyUp, ProtocolErrorV> {
        if data.len() < 10 {
            Err(insufficient(10, data.len() as int))
        } else {
            Ok(MessageKeyUp {
                keyid: be_u16_at(data, 4),
                mask: be_u16_at(data, 6),
                button: be_u16_at(data, 8),
            })
        }
    }

    open spec fn spec_encode(v: MessageKeyUp) -> Seq<u8> {
        "DKUP".spec_bytes() + u16_be(v.keyid) + u16_be(v.mask) + u16_be(v.button)
    }

    fn code() -> (r: &'static str) {
        "DKUP"
    }

    fn from_bytes(data: &[u8]) -> (r: Result<Self, ProtocolError>) {
        if data.len() < 10 {
            return Err(ProtocolError::InsufficientData { expected: 10, actual: data.len() });
        }
        let keyid = match read_u16(data, 4) {
            Ok(v) => v,
            Err(e) => {
                return Err(e);
            },
        };
        let mask = match read_u16(data, 6) {
            Ok(v) => v,
            Err(e) => {
                return Err(e);
            },
        };
        let button = match read_u16(data, 8) {
            Ok(v) => v,
            Err(e) => {
                return Err(e);
            },
        };
        Ok(MessageKeyUp { keyid, mask, button })
    }

    fn to_bytes(&self) -> (r: Vec<u8>) {
        let mut bytes: Vec<u8> = Vec::new();
        push_str_bytes(&mut bytes, "DKUP");
        push_u16_be(&mut bytes, self.keyid);
        push_u16_be(&mut bytes, self.mask);
        push_u16_be(&mut bytes, self.button);
        proof {
            assert(bytes@ =~= Self::spec_encode(self@));
        }
        bytes
    }

    proof fn lemma_parse_encode(v: MessageKeyUp) {
        reveal_strlit("DKUP");
        lemma_ascii_code("DKUP");
        let enc = Self::spec_encode(v);
        lemma_u16_be_roundtrip(v.keyid);
        lemma_u16_be_roundtrip(v.mask);
        lemma_u16_be_roundtrip(v.button);
        assert(be_u16_at(enc, 4) == v.keyid);
        assert(be_u16_at(enc, 6) == v.mask);
        assert(be_u16_at(enc, 8) == v.button);
    }
}


/// Mouse button down.
#[derive(Debug, Clone, PartialEq, Eq)]
pub struct MessageMouseButtonDown {
    /// Mouse button identifier (1=left, 2=right, 3=middle, 4+=additional)
    pub button: u8,
}

impl View for MessageMouseButtonDown {
    type V = MessageMouseButtonDown;

    open spec fn view(&self) -> MessageMouseButtonDown {
        *self
    }
}

impl ProtocolMessage for MessageMouseButtonDown {
    open spec fn spec_code() -> Seq<char> {
        "DMDN"@
    }

    open spec fn spec_parse(data: Seq<u8>) -> Result<MessageMouseButtonDown, ProtocolErrorV> {
        if data.len() < 5 {
            Err(insufficient(5, data.len() as int))
        } else {
            Ok(MessageMouseButtonDown {
                button: data[4],
            })
        }
    }

    open spec fn spec_encode(v: MessageMouseButtonDown) -> Seq<u8> {
        "DMDN".spec_bytes() + seq![v.button]
    }

    fn code() -> (r: &'static str) {
        "DMDN"
    }

    fn from_bytes(data: &[u8]) -> (r: Result<Self, ProtocolError>) {
        if data.len() < 5 {
            return Err(ProtocolError::InsufficientData { expected: 5, actual: data.len() });
        }
        let button = match read_u8(data, 4) {
            Ok(v) => v,
            Err(e) => {
                return Err(e);
            },
        };
        Ok(MessageMouseButtonDown { button })
    }

    fn to_bytes(&self) -> (r: Vec<u8>) {
        let mut bytes: Vec<u8> = Vec::new();
        push_str_bytes(&mut bytes, "DMDN");
        push_u8(&mut bytes, self.button);
        proof {
            assert(bytes@ =~= Self::spec_encode(self@));
        }
        bytes
    }

    proof fn lemma_parse_encode(v: MessageMouseButtonDown) {
        reveal_strlit("DMDN");
        lemma_ascii_code("DMDN");
        let enc = Self::spec_encode(v);

        assert(enc[4] == v.button);
    }
}


/// Mouse button up.
#[derive(Debug, Clone, PartialEq, Eq)]
pub struct MessageMouseButtonUp {
    /// Mouse button identifier (1=left, 2=right, 3=middle, 4+=additional)
    pub button: u8,
}

impl View for MessageMouseButtonUp {
    type V = MessageMouseButtonUp;

    open spec fn view(&self) -> MessageMouseButtonUp {
        *self
    }
}

impl ProtocolMessage for MessageMouseButtonUp {
    open spec fn spec_code() -> Seq<char> {
        "DMUP"@
    }

    open spec fn spec_parse(data: Seq<u8>) -> Result<MessageMouseButtonUp, ProtocolErrorV> {
        if data.len() < 5 {
            Err(insufficient(5, data.len() as int))
        } else {
            Ok(MessageMouseButtonUp {
                button: data[4],
            })
        }
    }

    open spec fn spec_encode(v: MessageMouseButtonUp) -> Seq<u8> {
        "DMUP".spec_bytes() + seq![v.button]
    }

    fn code() -> (r: &'static str) {
        "DMUP"
    }

    fn from_bytes(data: &[u8]) -> (r: Result<Self, ProtocolError>) {
        if data.len() < 5 {
            return Err(ProtocolError::InsufficientData { expected: 5, actual: data.len() });
        }
        let button = match read_u8(data, 4) {
            Ok(v) => v,
            Err(e) => {
                return Err(e);
            },
        };
        Ok(MessageMouseButtonUp { button })
    }

    fn to_bytes(&self) -> (r: Vec<u8>) {
        let mut bytes: Vec<u8> = Vec::new();
        push_str_bytes(&mut bytes, "DMUP");
        push_u8(&mut bytes, self.button);
        proof {
            assert(bytes@ =~= Self::spec_encode(self@));
        }
        bytes
    }

    proof fn lemma_parse_encode(v: MessageMouseButtonUp) {
        reveal_strlit("DMUP");
        lemma_ascii_code("DMUP");
        let enc = Self::spec_encode(v);

        assert(enc[4] == v.button);
    }
}


/// Mouse move.
#[derive(Debug, Clone, PartialEq, Eq)]
pub struct MessageMouseMove {
    /// Absolute X coordinate on secondary screen
    pub x: i16,
    /// Absolute Y coordinate on secondary screen
    pub y: i16,
}

impl View for MessageMouseMove {
    type V = MessageMouseMove;

    open spec fn view(&self) -> MessageMouseMove {
        *self
    }
}

impl ProtocolMessage for MessageMouseMove {
    open spec fn spec_code() -> Seq<char> {
        "DMMV"@
    }

    open spec fn spec_parse(data: Seq<u8>) -> Result<MessageMouseMove, ProtocolErrorV> {
        if data.len() < 8 {
            Err(insufficient(8, data.len() as int))
        } else {
            Ok(MessageMouseMove {
                x: be_i16_at(data, 4),
                y: be_i16_at(data, 6),
            })
        }
    }

    open spec fn spec_encode(v: MessageMouseMove) -> Seq<u8> {
        "DMMV".spec_bytes() + i16_be(v.x) + i16_be(v.y)
    }

    fn code() -> (r: &'static str) {
        "DMMV"
    }

    fn from_bytes(data: &[u8]) -> (r: Result<Self, ProtocolError>) {
        if data.len() < 8 {
            return Err(ProtocolError::InsufficientData { expected: 8, actual: data.len() });
        }
        let x = match read_i16(data, 4) {
            Ok(v) => v,
            Err(e) => {
                return Err(e);
            },
        };
        let y = match read_i16(data, 6) {
            Ok(v) => v,
            Err(e) => {
                return Err(e);
            },
        };
        Ok(MessageMouseMove { x, y })
    }

    fn to_bytes(&self) -> (r: Vec<u8>) {
        let mut bytes: Vec<u8> = Vec::new();
        push_str_bytes(&mut bytes, "DMMV");
        push_i16_be(&mut bytes, self.x);
        push_i16_be(&mut bytes, self.y);
        proof {
            assert(bytes@ =~= Self::spec_encode(self@));
        }
        bytes
    }

    proof fn lemma_parse_encode(v: MessageMouseMove) {
        reveal_strlit("DMMV");
        lemma_ascii_code("DMMV");
        let enc = Self::spec_encode(v);
        lemma_i16_be_roundtrip(v.x);
        lemma_i16_be_roundtrip(v.y);
        assert(be_i16_at(enc, 4) == v.x);
        assert(be_i16_at(enc, 6) == v.y);
    }
}


/// Mouse relative move.
#[derive(Debug, Clone, PartialEq, Eq)]
pub struct MessageMouseRelativeMove {
    /// Horizontal movement delta (signed)
    pub x: i16,
    /// Vertical movement delta (signed)
    pub y: i16,
}

impl View for MessageMouseRelativeMove {
    type V = MessageMouseRelativeMove;

    open spec fn view(&self) -> MessageMouseRelativeMove {
        *self
    }
}

impl ProtocolMessage for MessageMouseRelativeMove {
    open spec fn spec_code() -> Seq<char> {
        "DMRM"@
    }

    open spec fn spec_parse(data: Seq<u8>) -> Result<MessageMouseRelativeMove, ProtocolErrorV> {
        if data.len() < 8 {
            Err(insufficient(8, data.len() as int))
        } else {
            Ok(MessageMouseRelativeMove {
                x: be_i16_at(data, 4),
                y: be_i16_at(data, 6),
            })
        }
    }

    open spec fn spec_encode(v: MessageMouseRelativeMove) -> Seq<u8> {
        "DMRM".spec_bytes() + i16_be(v.x) + i16_be(v.y)
    }

    fn code() -> (r: &'static str) {
        "DMRM"
    }

    fn from_bytes(data: &[u8]) -> (r: Result<Self, ProtocolError>) {
        if data.len() < 8 {
            return Err(ProtocolError::InsufficientData { expected: 8, actual: data.len() });
        }
        let x = match read_i16(data, 4) {
            Ok(v) => v,
            Err(e) => {
                return Err(e);
            },
        };
        let y = match read_i16(data, 6) {
            Ok(v) => v,
            Err(e) => {
                return Err(e);
            },
        };
        Ok(MessageMouseRelativeMove { x, y })
    }

    fn to_bytes(&self) -> (r: Vec<u8>) {
        let mut bytes: Vec<u8> = Vec::new();
        push_str_bytes(&mut bytes, "DMRM");
        push_i16_be(&mut bytes, self.x);
        push_i16_be(&mut bytes, self.y);
        proof {
            assert(bytes@ =~= Self::spec_encode(self@));
        }
        bytes
    }

    proof fn lemma_parse_encode(v: MessageMouseRelativeMove) {
        reveal_strlit("DMRM");
        lemma_ascii_code("DMRM");
        let enc = Self::spec_encode(v);
        lemma_i16_be_roundtrip(v.x);
        lemma_i16_be_roundtrip(v.y);
        assert(be_i16_at(enc, 4) == v.x);
        assert(be_i16_at(enc, 6) == v.y);
    }
}


/// Mouse wheel.
#[derive(Debug, Clone, PartialEq, Eq)]
pub struct MessageMouseWheel {
    /// Horizontal scroll delta (+120 = right, -120 = left, typically multiples of 120)
    pub xdelta: i16,
    /// Vertical scroll delta (+120 = up/away, -120 = down/toward, typically multiples of 120)
    pub ydelta: i16,
}

impl View for MessageMouseWheel {
    type V = MessageMouseWheel;

    open spec fn view(&self) -> MessageMouseWheel {
        *self
    }
}

impl ProtocolMessage for MessageMouseWheel {
    open spec fn spec_code() -> Seq<char> {
        "DMWM"@
    }

    open spec fn spec_parse(data: Seq<u8>) -> Result<MessageMouseWheel, ProtocolErrorV> {
        if data.len() < 8 {
            Err(insufficient(8, data.len() as int))
        } else {
            Ok(MessageMouseWheel {
                xdelta: be_i16_at(data, 4),
                ydelta: be_i16_at(data, 6),
            })
        }
    }

    open spec fn spec_encode(v: MessageMouseWheel) -> Seq<u8> {
        "DMWM".spec_bytes() + i16_be(v.xdelta) + i16_be(v.ydelta)
    }

    fn code() -> (r: &'static str) {
        "DMWM"
    }

    fn from_bytes(data: &[u8]) -> (r: Result<Self, ProtocolError>) {
        if data.len() < 8 {
            return Err(ProtocolError::InsufficientData { expected: 8, actual: data.len() });
        }
        let xdelta = match read_i16(data, 4) {
            Ok(v) => v,
            Err(e) => {
                return Err(e);
            },
        };
        let ydelta = match read_i16(data, 6) {
            Ok(v) => v,
            Err(e) => {
                return Err(e);
            },
        };
        Ok(MessageMouseWheel { xdelta, ydelta })
    }

    fn to_bytes(&self) -> (r: Vec<u8>) {
        let mut bytes: Vec<u8> = Vec::new();
        push_str_bytes(&mut bytes, "DMWM");
        push_i16_be(&mut bytes, self.xdelta);
        push_i16_be(&mut bytes, self.ydelta);
        proof {
            assert(bytes@ =~= Self::spec_encode(self@));
        }
        bytes
    }

    proof fn lemma_parse_encode(v: MessageMouseWheel) {
        reveal_strlit("DMWM");
        lemma_ascii_code("DMWM");
        let enc = Self::spec_encode(v);
        lemma_i16_be_roundtrip(v.xdelta);
        lemma_i16_be_roundtrip(v.ydelta);
        assert(be_i16_at(enc, 4) == v.xdelta);
        assert(be_i16_at(enc, 6) == v.ydelta);
    }
}

/// Key down with language.
#[derive(Debug, Clone, PartialEq, Eq)]
pub struct MessageKeyDownWithLanguage {
    /// Virtual key identifier (keysym on Linux/X11, platform-dependent)
    pub keyid: u16,
    /// Active modifier keys bitmask
    pub mask: u16,
    /// Physical key code (keycode/scancode, platform-dependent)
    pub button: u16,
    /// Keyboard language identifier
    pub lang: LengthPrefixedString,
}

impl View for MessageKeyDownWithLanguage {
    type V = KeyDownWithLanguageV;

    open spec fn view(&self) -> KeyDownWithLanguageV {
        KeyDownWithLanguageV { keyid: self.keyid, mask: self.mask, button: self.button, lang: self.lang@ }
    }
}

impl ProtocolMessage for MessageKeyDownWithLanguage {
    open spec fn spec_code() -> Seq<char> {
        "DKDL"@
    }

    open spec fn spec_parse(data: Seq<u8>) -> Result<KeyDownWithLanguageV, ProtocolErrorV> {
        if data.len() < 10 {
            Err(insufficient(10, data.len() as int))
        } else {
            match spec_read_lps(data, 10) {
                Ok(lang) => Ok(KeyDownWithLanguageV {
                    keyid: be_u16_at(data, 4),
                    mask: be_u16_at(data, 6),
                    button: be_u16_at(data, 8),
                    lang,
                }),
                Err(e) => Err(e),
            }
        }
    }

    open spec fn spec_encode(v: KeyDownWithLanguageV) -> Seq<u8> {
        "DKDL".spec_bytes() + u16_be(v.keyid) + u16_be(v.mask) + u16_be(v.button) + lps_encode(v.lang)
    }

    fn code() -> (r: &'static str) {
        "DKDL"
    }

    fn from_bytes(data: &[u8]) -> (r: Result<Self, ProtocolError>) {
        if data.len() < 10 {
            return Err(ProtocolError::InsufficientData { expected: 10, actual: data.len() });
        }
        let (lang, _) = match LengthPrefixedString::from_bytes(data, 10) {
            Ok(v) => v,
            Err(e) => {
                return Err(e);
            },
        };
        let keyid = match read_u16(data, 4) {
            Ok(v) => v,
            Err(e) => {
                return Err(e);
            },
        };
        let mask = match read_u16(data, 6) {
            Ok(v) => v,
            Err(e) => {
                return Err(e);
            },
        };
        let button = match read_u16(data, 8) {
            Ok(v) => v,
            Err(e) => {
                return Err(e);
            },
        };
        Ok(MessageKeyDownWithLanguage { keyid, mask, button, lang })
    }

    fn to_bytes(&self) -> (r: Vec<u8>) {
        let mut bytes: Vec<u8> = Vec::new();
        push_str_bytes(&mut bytes, "DKDL");
        push_u16_be(&mut bytes, self.keyid);
        push_u16_be(&mut bytes, self.mask);
        push_u16_be(&mut bytes, self.button);
        proof {
            assert(encode_utf8(self.lang@).len() <= u32::MAX);
        }
        let tail = self.lang.to_bytes();
        push_bytes(&mut bytes, tail.as_slice());
        proof {
            assert(bytes@ =~= Self::spec_encode(self@));
        }
        bytes
    }

    proof fn lemma_parse_encode(v: KeyDownWithLanguageV) {
        reveal_strlit("DKDL");
        lemma_ascii_code("DKDL");
        let enc = Self::spec_encode(v);
        lemma_u16_be_roundtrip(v.keyid);
        lemma_u16_be_roundtrip(v.mask);
        lemma_u16_be_roundtrip(v.button);
        assert(be_u16_at(enc, 4) == v.keyid);
        assert(be_u16_at(enc, 6) == v.mask);
        assert(be_u16_at(enc, 8) == v.button);
        assert(encode_utf8(v.lang).len() <= u32::MAX);
        assert(enc.len() == 10 + lps_encode(v.lang).len());
        assert(lps_encode(v.lang).len() >= 4);
        assert(enc.subrange(10, enc.len() as int) =~= lps_encode(v.lang));
        lemma_lps_roundtrip(v.lang, enc, 10);
    }
}


/// Key repeat.
#[derive(Debug, Clone, PartialEq, Eq)]
pub struct MessageKeyRepeat {
    /// Virtual key identifier (keysym on Linux/X11, platform-dependent)
    pub keyid: u16,
    /// Active modifier keys bitmask
    pub mask: u16,
    /// Physical key code (keycode/scancode, platform-dependent)
    pub button: u16,
    /// Number of repeat events since the last message
    pub count: u16,
    /// Keyboard language identifier
    pub lang: LengthPrefixedString,
}

impl View for MessageKeyRepeat {
    type V = KeyRepeatV;

    open spec fn view(&self) -> KeyRepeatV {
        KeyRepeatV { keyid: self.keyid, mask: self.mask, button: self.button, count: self.count, lang: self.lang@ }
    }
}

impl ProtocolMessage for MessageKeyRepeat {
    open spec fn spec_code() -> Seq<char> {
        "DKRP"@
    }

    open spec fn spec_parse(data: Seq<u8>) -> Result<KeyRepeatV, ProtocolErrorV> {
        if data.len() < 12 {
            Err(insufficient(12, data.len() as int))
        } else {
            match spec_read_lps(data, 12) {
                Ok(lang) => Ok(KeyRepeatV {
                    keyid: be_u16_at(data, 4),
                    mask: be_u16_at(data, 6),
                    button: be_u16_at(data, 8),
                    count: be_u16_at(data, 10),
                    lang,
                }),
                Err(e) => Err(e),
            }
        }
    }

    open spec fn spec_encode(v: KeyRepeatV) -> Seq<u8> {
        "DKRP".spec_bytes() + u16_be(v.keyid) + u16_be(v.mask) + u16_be(v.button) + u16_be(v.count) + lps_encode(v.lang)
    }

    fn code() -> (r: &'static str) {
        "DKRP"
    }

    fn from_bytes(data: &[u8]) -> (r: Result<Self, ProtocolError>) {
        if data.len() < 12 {
            return Err(ProtocolError::InsufficientData { expected: 12, actual: data.len() });
        }
        let (lang, _) = match LengthPrefixedString::from_bytes(data, 12) {
            Ok(v) => v,
            Err(e) => {
                return Err(e);
            },
        };
        let keyid = match read_u16(data, 4) {
            Ok(v) => v,
            Err(e) => {
                return Err(e);
            },
        };
        let mask = match read_u16(data, 6) {
            Ok(v) => v,
            Err(e) => {
                return Err(e);
            },
        };
        let button = match read_u16(data, 8) {
            Ok(v) => v,
            Err(e) => {
                return Err(e);
            },
        };
        let count = match read_u16(data, 10) {
            Ok(v) => v,
            Err(e) => {
                return Err(e);
            },
        };
        Ok(MessageKeyRepeat { keyid, mask, button, count, lang })
    }

    fn to_bytes(&self) -> (r: Vec<u8>) {
        let mut bytes: Vec<u8> = Vec::new();
        push_str_bytes(&mut bytes, "DKRP");
        push_u16_be(&mut bytes, self.keyid);
        push_u16_be(&mut bytes, self.mask);
        push_u16_be(&mut bytes, self.button);
        push_u16_be(&mut bytes, self.count);
        proof {
            assert(encode_utf8(self.lang@).len() <= u32::MAX);
        }
        let tail = self.lang.to_bytes();
        push_bytes(&mut bytes, tail.as_slice());
        proof {
            assert(bytes@ =~= Self::spec_encode(self@));
        }
        bytes
    }

    proof fn lemma_parse_encode(v: KeyRepeatV) {
        reveal_strlit("DKRP");
        lemma_ascii_code("DKRP");
        let enc = Self::spec_encode(v);
        lemma_u16_be_roundtrip(v.keyid);
        lemma_u16_be_roundtrip(v.mask);
        lemma_u16_be_roundtrip(v.button);
        lemma_u16_be_roundtrip(v.count);
        assert(be_u16_at(enc, 4) == v.keyid);
        assert(be_u16_at(enc, 6) == v.mask);
        assert(be_u16_at(enc, 8) == v.button);
        assert(be_u16_at(enc, 10) == v.count);
        assert(encode_utf8(v.lang).len() <= u32::MAX);
        assert(enc.len() == 12 + lps_encode(v.lang).len());
        assert(lps_encode(v.lang).len() >= 4);
        assert(enc.subrange(12, enc.len() as int) =~= lps_encode(v.lang));
        lemma_lps_roundtrip(v.lang, enc, 12);
    }
}
} // verus!
