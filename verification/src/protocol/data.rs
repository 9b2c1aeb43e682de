//! Data-plane messages: clipboard, client info, file transfer, drag info,
//! secure input, and language synchronization.

use vstd::prelude::*;
use vstd::string::StringSliceAdditionalSpecFns;
use vstd::utf8::encode_utf8;

use crate::protocol::model::{ProtocolErrorV, ClipboardDataV, FileTransferV, DragInfoV,
    SecureEncryptionV, LegacySynergyV, insufficient, spec_read_lps, lps_encode, u16_be, u32_be,
    i16_be, be_u16_at, be_u32_at, be_i16_at, lemma_ascii_code, lemma_u16_be_roundtrip,
    lemma_u32_be_roundtrip, lemma_i16_be_roundtrip, lemma_lps_roundtrip};
use crate::protocol::wire::{ProtocolError, ProtocolMessage, LengthPrefixedString, read_u8,
    read_u16, read_i16, read_u32, push_u8, push_u16_be, push_i16_be, push_u32_be, push_bytes,
    push_str_bytes};

verus! {


/// Client info.
#[derive(Debug, Clone, PartialEq, Eq)]
pub struct MessageClientInfo {
    /// Left edge X coordinate of screen
    pub x: u16,
    /// Top edge Y coordinate of screen
    pub y: u16,
    /// Screen width in pixels
    pub width: u16,
    /// Screen height in pixels
    pub height: u16,
    /// Current mouse X position
    pub current_mouse_x: u16,
    /// Current mouse Y position
    pub current_mouse_y: u16,
    /// Obsolete warp zone size (should be 0)
    pub size: u16,
}

impl View for MessageClientInfo {
    type V = MessageClientInfo;

    open spec fn view(&self) -> MessageClientInfo {
        *self
    }
}

impl ProtocolMessage for MessageClientInfo {
    open spec fn spec_code() -> Seq<char> {
        "DINF"@
    }

    open spec fn spec_parse(data: Seq<u8>) -> Result<MessageClientInfo, ProtocolErrorV> {
        if data.len() < 18 {
            Err(insufficient(18, data.len() as int))
        } else {
            Ok(MessageClientInfo {
                x: be_u16_at(data, 4),
                y: be_u16_at(data, 6),
                width: be_u16_at(data, 8),
                height: be_u16_at(data, 10),
                current_mouse_x: be_u16_at(data, 12),
                current_mouse_y: be_u16_at(data, 14),
                size: be_u16_at(data, 16),
            })
        }
    }

    open spec fn spec_encode(v: MessageClientInfo) -> Seq<u8> {
        "DINF".spec_bytes() + u16_be(v.x) + u16_be(v.y) + u16_be(v.width) + u16_be(v.height) + u16_be(v.current_mouse_x) + u16_be(v.current_mouse_y) + u16_be(v.size)
    }

    fn code() -> (r: &'static str) {
        "DINF"
    }

    fn from_bytes(data: &[u8]) -> (r: Result<Self, ProtocolError>) {
        if data.len() < 18 {
            return Err(ProtocolError::InsufficientData { expected: 18, actual: data.len() });
        }
        let x = match read_u16(data, 4) {
            Ok(v) => v,
            Err(e) => {
                return Err(e);
            },
        };
        let y = match read_u16(data, 6) {
            Ok(v) => v,
            Err(e) => {
                return Err(e);
            },
        };
        let width = match read_u16(data, 8) {
            Ok(v) => v,
            Err(e) => {
                return Err(e);
            },
        };
        let height = match read_u16(data, 10) {
            Ok(v) => v,
            Err(e) => {
                return Err(e);
            },
        };
        let current_mouse_x = match read_u16(data, 12) {
            Ok(v) => v,
            Err(e) => {
                return Err(e);
            },
        };
        let current_mouse_y = match read_u16(data, 14) {
            Ok(v) => v,
            Err(e) => {
                return Err(e);
            },
        };
        let size = match read_u16(data, 16) {
            Ok(v) => v,
            Err(e) => {
                return Err(e);
            },
        };
        Ok(MessageClientInfo { x, y, width, height, current_mouse_x, current_mouse_y, size })
    }

    fn to_bytes(&self) -> (r: Vec<u8>) {
        let mut bytes: Vec<u8> = Vec::new();
        push_str_bytes(&mut bytes, "DINF");
        push_u16_be(&mut bytes, self.x);
        push_u16_be(&mut bytes, self.y);
        push_u16_be(&mut bytes, self.width);
        push_u16_be(&mut bytes, self.height);
        push_u16_be(&mut bytes, self.current_mouse_x);
        push_u16_be(&mut bytes, self.current_mouse_y);
        push_u16_be(&mut bytes, self.size);
        proof {
            assert(bytes@ =~= Self::spec_encode(self@));
        }
        bytes
    }

    proof fn lemma_parse_encode(v: MessageClientInfo) {
        reveal_strlit("DINF");
        lemma_ascii_code("DINF");
        let enc = Self::spec_encode(v);
        lemma_u16_be_roundtrip(v.x);
        lemma_u16_be_roundtrip(v.y);
        lemma_u16_be_roundtrip(v.width);
        lemma_u16_be_roundtrip(v.height);
        lemma_u16_be_roundtrip(v.current_mouse_x);
        lemma_u16_be_roundtrip(v.current_mouse_y);
        lemma_u16_be_roundtrip(v.size);
        assert(be_u16_at(enc, 4) == v.x);
        assert(be_u16_at(enc, 6) == v.y);
        assert(be_u16_at(enc, 8) == v.width);
        assert(be_u16_at(enc, 10) == v.height);
        assert(be_u16_at(enc, 12) == v.current_mouse_x);
        assert(be_u16_at(enc, 14) == v.current_mouse_y);
        assert(be_u16_at(enc, 16) == v.size);
    }
}

/// Clipboard data.
#[derive(Debug, Clone, PartialEq, Eq)]
pub struct MessageClipboardData {
    /// Clipboard identifier (0 = primary, 1 = selection)
    pub id: u8,
    /// Sequence number (0 for primary, from Enter message for secondary)
    pub sequence: u32,
    /// Streaming flags for large data (0=single chunk, 1=first, 2=middle, 3=final)
    pub mark: u8,
    /// Clipboard content
    pub data: LengthPrefixedString,
}

impl View for MessageClipboardData {
    type V = ClipboardDataV;

    open spec fn view(&self) -> ClipboardDataV {
        ClipboardDataV { id: self.id, sequence: self.sequence, mark: self.mark, data: self.data@ }
    }
}

impl ProtocolMessage for MessageClipboardData {
    open spec fn spec_code() -> Seq<char> {
        "DCLP"@
    }

    open spec fn spec_parse(data: Seq<u8>) -> Result<ClipboardDataV, ProtocolErrorV> {
        if data.len() < 10 {
            Err(insufficient(10, data.len() as int))
        } else {
            match spec_read_lps(data, 10) {
                Ok(text) => Ok(ClipboardDataV {
                    id: data[4],
                    sequence: be_u32_at(data, 5),
                    mark: data[9],
                    data: text,
                }),
                Err(e) => Err(e),
            }
        }
    }

    open spec fn spec_encode(v: ClipboardDataV) -> Seq<u8> {
        "DCLP".spec_bytes() + seq![v.id] + u32_be(v.sequence) + seq![v.mark] + lps_encode(v.data)
    }

    fn code() -> (r: &'static str) {
        "DCLP"
    }

    fn from_bytes(data: &[u8]) -> (r: Result<Self, ProtocolError>) {
        if data.len() < 10 {
            return Err(ProtocolError::InsufficientData { expected: 10, actual: data.len() });
        }
        let (text, _) = match LengthPrefixedString::from_bytes(data, 10) {
            Ok(v) => v,
            Err(e) => {
                return Err(e);
            },
        };
        let id = match read_u8(data, 4) {
            Ok(v) => v,
            Err(e) => {
                return Err(e);
            },
        };
        let sequence = match read_u32(data, 5) {
            Ok(v) => v,
            Err(e) => {
                return Err(e);
            },
        };
        let mark = match read_u8(data, 9) {
            Ok(v) => v,
            Err(e) => {
                return Err(e);
            },
        };
        Ok(MessageClipboardData { id, sequence, mark, data: text })
    }

    fn to_bytes(&self) -> (r: Vec<u8>) {
        let mut bytes: Vec<u8> = Vec::new();
        push_str_bytes(&mut bytes, "DCLP");
        push_u8(&mut bytes, self.id);
        push_u32_be(&mut bytes, self.sequence);
        push_u8(&mut bytes, self.mark);
        proof {
            assert(encode_utf8(self.data@).len() <= u32::MAX);
        }
        let tail = self.data.to_bytes();
        push_bytes(&mut bytes, tail.as_slice());
        proof {
            assert(bytes@ =~= Self::spec_encode(self@));
        }
        bytes
    }

    proof fn lemma_parse_encode(v: ClipboardDataV) {
        reveal_strlit("DCLP");
        lemma_ascii_code("DCLP");
        let enc = Self::spec_encode(v);
        lemma_u32_be_roundtrip(v.sequence);
        assert(enc[4] == v.id);
        assert(be_u32_at(enc, 5) == v.sequence);
        assert(enc[9] == v.mark);
        assert(encode_utf8(v.data).len() <= u32::MAX);
        assert(enc.len() == 10 + lps_encode(v.data).len());
        assert(lps_encode(v.data).len() >= 4);
        assert(enc.subrange(10, enc.len() as int) =~= lps_encode(v.data));
        lemma_lps_roundtrip(v.data, enc, 10);
    }
}


/// File transfer.
#[derive(Debug, Clone, PartialEq, Eq)]
pub struct MessageFileTransfer {
    /// Transfer state (1=DataStart with file size, 2=DataChunk with content, 3=DataEnd)
    pub mark: u8,
    /// Content depending on mark (file size for start, file content for chunk, empty for end)
    pub data: LengthPrefixedString,
}

impl View for MessageFileTransfer {
    type V = FileTransferV;

    open spec fn view(&self) -> FileTransferV {
        FileTransferV { mark: self.mark, data: self.data@ }
    }
}

impl ProtocolMessage for MessageFileTransfer {
    open spec fn spec_code() -> Seq<char> {
        "DFTR"@
    }

    open spec fn spec_parse(data: Seq<u8>) -> Result<FileTransferV, ProtocolErrorV> {
        if data.len() < 5 {
            Err(insufficient(5, data.len() as int))
        } else {
            match spec_read_lps(data, 5) {
                Ok(text) => Ok(FileTransferV {
                    mark: data[4],
                    data: text,
                }),
                Err(e) => Err(e),
            }
        }
    }

    open spec fn spec_encode(v: FileTransferV) -> Seq<u8> {
        "DFTR".spec_bytes() + seq![v.mark] + lps_encode(v.data)
    }

    fn code() -> (r: &'static str) {
        "DFTR"
    }

    fn from_bytes(data: &[u8]) -> (r: Result<Self, ProtocolError>) {
        if data.len() < 5 {
            return Err(ProtocolError::InsufficientData { expected: 5, actual: data.len() });
        }
        let (text, _) = match LengthPrefixedString::from_bytes(data, 5) {
            Ok(v) => v,
            Err(e) => {
                return Err(e);
            },
        };
        let mark = match read_u8(data, 4) {
            Ok(v) => v,
            Err(e) => {
                return Err(e);
            },
        };
        Ok(MessageFileTransfer { mark, data: text })
    }

    fn to_bytes(&self) -> (r: Vec<u8>) {
        let mut bytes: Vec<u8> = Vec::new();
        push_str_bytes(&mut bytes, "DFTR");
        push_u8(&mut bytes, self.mark);
        proof {
            assert(encode_utf8(self.data@).len() <= u32::MAX);
        }
        let tail = self.data.to_bytes();
        push_bytes(&mut bytes, tail.as_slice());
        proof {
            assert(bytes@ =~= Self::spec_encode(self@));
        }
        bytes
    }

    proof fn lemma_parse_encode(v: FileTransferV) {
        reveal_strlit("DFTR");
        lemma_ascii_code("DFTR");
        let enc = Self::spec_encode(v);
        assert(enc[4] == v.mark);
        assert(encode_utf8(v.data).len() <= u32::MAX);
        assert(enc.len() == 5 + lps_encode(v.data).len());
        assert(lps_encode(v.data).len() >= 4);
        assert(enc.subrange(5, enc.len() as int) =~= lps_encode(v.data));
        lemma_lps_roundtrip(v.data, enc, 5);
    }
}


/// Drag info.
#[derive(Debug, Clone, PartialEq, Eq)]
pub struct MessageDragInfo {
    /// Number of files being dragged
    pub size: u16,
    /// Null-separated file paths
    pub data: LengthPrefixedString,
}

impl View for MessageDragInfo {
    type V = DragInfoV;

    open spec fn view(&self) -> DragInfoV {
        DragInfoV { size: self.size, data: self.data@ }
    }
}

impl ProtocolMessage for MessageDragInfo {
    open spec fn spec_code() -> Seq<char> {
        "DDRG"@
    }

    open spec fn spec_parse(data: Seq<u8>) -> Result<DragInfoV, ProtocolErrorV> {
        if data.len() < 6 {
            Err(insufficient(6, data.len() as int))
        } else {
            match spec_read_lps(data, 6) {
                Ok(text) => Ok(DragInfoV {
                    size: be_u16_at(data, 4),
                    data: text,
                }),
                Err(e) => Err(e),
            }
        }
    }

    open spec fn spec_encode(v: DragInfoV) -> Seq<u8> {
        "DDRG".spec_bytes() + u16_be(v.size) + lps_encode(v.data)
    }

    fn code() -> (r: &'static str) {
        "DDRG"
    }

    fn from_bytes(data: &[u8]) -> (r: Result<Self, ProtocolError>) {
        if data.len() < 6 {
            return Err(ProtocolError::InsufficientData { expected: 6, actual: data.len() });
        }
        let (text, _) = match LengthPrefixedString::from_bytes(data, 6) {
            Ok(v) => v,
            Err(e) => {
                return Err(e);
            },
        };
        let size = match read_u16(data, 4) {
            Ok(v) => v,
            Err(e) => {
                return Err(e);
            },
        };
        Ok(MessageDragInfo { size, data: text })
    }

    fn to_bytes(&self) -> (r: Vec<u8>) {
        let mut bytes: Vec<u8> = Vec::new();
        push_str_bytes(&mut bytes, "DDRG");
        push_u16_be(&mut bytes, self.size);
        proof {
            assert(encode_utf8(self.data@).len() <= u32::MAX);
        }
        let tail = self.data.to_bytes();
        push_bytes(&mut bytes, tail.as_slice());
        proof {
            assert(bytes@ =~= Self::spec_encode(self@));
        }
        bytes
    }

    proof fn lemma_parse_encode(v: DragInfoV) {
        reveal_strlit("DDRG");
        lemma_ascii_code("DDRG");
        let enc = Self::spec_encode(v);
        lemma_u16_be_roundtrip(v.size);
        assert(be_u16_at(enc, 4) == v.size);
        assert(encode_utf8(v.data).len() <= u32::MAX);
        assert(enc.len() == 6 + lps_encode(v.data).len());
        assert(lps_encode(v.data).len() >= 4);
        assert(enc.subrange(6, enc.len() as int) =~= lps_encode(v.data));
        lemma_lps_roundtrip(v.data, enc, 6);
    }
}


/// Secure encryption.
#[derive(Debug, Clone, PartialEq, Eq)]
pub struct MessageSecureEncryption {
    /// Application name requesting secure input (macOS feature)
    pub data: LengthPrefixedString,
}

impl View for MessageSecureEncryption {
    type V = SecureEncryptionV;

    open spec fn view(&self) -> SecureEncryptionV {
        SecureEncryptionV { data: self.data@ }
    }
}

impl ProtocolMessage for MessageSecureEncryption {
    open spec fn spec_code() -> Seq<char> {
        "SECN"@
    }

    open spec fn spec_parse(data: Seq<u8>) -> Result<SecureEncryptionV, ProtocolErrorV> {
        match spec_read_lps(data, 4) {
                Ok(text) => Ok(SecureEncryptionV {
                    data: text,
                }),
                Err(e) => Err(e),
            }
    }

    open spec fn spec_encode(v: SecureEncryptionV) -> Seq<u8> {
        "SECN".spec_bytes() + lps_encode(v.data)
    }

    fn code() -> (r: &'static str) {
        "SECN"
    }

    fn from_bytes(data: &[u8]) -> (r: Result<Self, ProtocolError>) {
        let (text, _) = match LengthPrefixedString::from_bytes(data, 4) {
            Ok(v) => v,
            Err(e) => {
                return Err(e);
            },
        };
        Ok(MessageSecureEncryption { data: text })
    }

    fn to_bytes(&self) -> (r: Vec<u8>) {
        let mut bytes: Vec<u8> = Vec::new();
        push_str_bytes(&mut bytes, "SECN");
        proof {
            assert(encode_utf8(self.data@).len() <= u32::MAX);
        }
        let tail = self.data.to_bytes();
        push_bytes(&mut bytes, tail.as_slice());
        proof {
            assert(bytes@ =~= Self::spec_encode(self@));
        }
        bytes
    }

    proof fn lemma_parse_encode(v: SecureEncryptionV) {
        reveal_strlit("SECN");
        lemma_ascii_code("SECN");
        let enc = Self::spec_encode(v);
        assert(encode_utf8(v.data).len() <= u32::MAX);
        assert(enc.len() == 4 + lps_encode(v.data).len());
        assert(lps_encode(v.data).len() >= 4);
        assert(enc.subrange(4, enc.len() as int) =~= lps_encode(v.data));
        lemma_lps_roundtrip(v.data, enc, 4);
    }
}


/// Legacy synergy.
#[derive(Debug, Clone, PartialEq, Eq)]
pub struct MessageLegacySynergy {
    /// Comma-separated list of language codes (ISO 639-1)
    pub data: LengthPrefixedString,
}

impl View for MessageLegacySynergy {
    type V = LegacySynergyV;

    open spec fn view(&self) -> LegacySynergyV {
        LegacySynergyV { data: self.data@ }
    }
}

impl ProtocolMessage for MessageLegacySynergy {
    open spec fn spec_code() -> Seq<char> {
        "LSYN"@
    }

    open spec fn spec_parse(data: Seq<u8>) -> Result<LegacySynergyV, ProtocolErrorV> {
        match spec_read_lps(data, 4) {
                Ok(text) => Ok(LegacySynergyV {
                    data: text,
                }),
                Err(e) => Err(e),
            }
    }

    open spec fn spec_encode(v: LegacySynergyV) -> Seq<u8> {
        "LSYN".spec_bytes() + lps_encode(v.data)
    }

    fn code() -> (r: &'static str) {
        "LSYN"
    }

    fn from_bytes(data: &[u8]) -> (r: Result<Self, ProtocolError>) {
        let (text, _) = match LengthPrefixedString::from_bytes(data, 4) {
            Ok(v) => v,
            Err(e) => {
                return Err(e);
            },
        };
        Ok(MessageLegacySynergy { data: text })
    }

    fn to_bytes(&self) -> (r: Vec<u8>) {
        let mut bytes: Vec<u8> = Vec::new();
        push_str_bytes(&mut bytes, "LSYN");
        proof {
            assert(encode_utf8(self.data@).len() <= u32::MAX);
        }
        let tail = self.data.to_bytes();
        push_bytes(&mut bytes, tail.as_slice());
        proof {
            assert(bytes@ =~= Self::spec_encode(self@));
        }
        bytes
    }

    proof fn lemma_parse_encode(v: LegacySynergyV) {
        reveal_strlit("LSYN");
        lemma_ascii_code("LSYN");
        let enc = Self::spec_encode(v);
        assert(encode_utf8(v.data).len() <= u32::MAX);
        assert(enc.len() == 4 + lps_encode(v.data).len());
        assert(lps_encode(v.data).len() >= 4);
        assert(enc.subrange(4, enc.len() as int) =~= lps_encode(v.data));
        lemma_lps_roundtrip(v.data, enc, 4);
    }
}
} // verus!
