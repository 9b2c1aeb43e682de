//! Option negotiation: the well-known DSOP option keys and the set-options
//! message, an ordered sequence of (key, value) pairs whose leading element
//! count field counts itself.

use vstd::prelude::*;
use vstd::string::StringSliceAdditionalSpecFns;

use crate::protocol::model::{ProtocolErrorV, insufficient, u32_be, be_u32_at,
    lemma_ascii_code, lemma_u32_be_roundtrip};
use crate::protocol::wire::{ProtocolError, ProtocolMessage, read_u32, push_u32_be,
    push_str_bytes};

verus! {

/// DSOP (Set Options) option codes.
///
/// These options are used in the SetOptions message (DSOP) to configure
/// various aspects of the Synergy/Barrier protocol behavior.  Each option is
/// identified on the wire by the 32-bit big-endian value of its 4-character
/// code.
#[derive(Debug, Clone, Copy, PartialEq, Eq, Hash)]
pub enum DsopOption {
    /// HDCL - Half-duplex caps lock
    HalfDuplexCapsLock,
    /// HDNL - Half-duplex num lock
    HalfDuplexNumLock,
    /// HDSL - Half-duplex scroll lock
    HalfDuplexScrollLock,
    /// MMFS - Modifier map for shift
    ModifierMapForShift,
    /// MMFC - Modifier map for control
    ModifierMapForControl,
    /// MMFA - Modifier map for alt
    ModifierMapForAlt,
    /// MMFG - Modifier map for AltGr
    ModifierMapForAltGr,
    /// MMFM - Modifier map for meta
    ModifierMapForMeta,
    /// MMFR - Modifier map for super
    ModifierMapForSuper,
    /// SSCM - Screen switch corners
    ScreenSwitchCorners,
    /// SSCS - Screen switch corner size
    ScreenSwitchCornerSize,
    /// SSWT - Screen switch delay
    ScreenSwitchDelay,
    /// SSTT - Screen switch two-tap
    ScreenSwitchTwoTap,
    /// SSNS - Screen switch needs shift
    ScreenSwitchNeedsShift,
    /// SSNC - Screen switch needs control
    ScreenSwitchNeedsControl,
    /// SSNA - Screen switch needs alt
    ScreenSwitchNeedsAlt,
    /// HART - Heartbeat interval
    Heartbeat,
    /// PROT - Protocol version
    Protocol,
    /// MDLT - Relative mouse moves (mouse delta)
    RelativeMouseMoves,
    /// LTSS - Default lock-to-screen state
    DefaultLockToScreenState,
    /// DLTS - Disable lock-to-screen
    DisableLockToScreen,
    /// CLPS - Clipboard sharing
    ClipboardSharing,
    /// CLSZ - Clipboard sharing size limit
    ClipboardSharingSize,
    /// XTXU - XTest Xinerama unaware
    XTestXineramaUnaware,
    /// SFOC - Screen preserve focus
    ScreenPreserveFocus,
    /// _KFW - Win32 keep foreground
    Win32KeepForeground,
}

/// The wire value of each known option key: the 32-bit big-endian reading of
/// its 4-character code.
pub open spec fn spec_option_value(o: DsopOption) -> u32 {
    match o {
        DsopOption::HalfDuplexCapsLock => 0x4844434C,
        DsopOption::HalfDuplexNumLock => 0x48444E4C,
        DsopOption::HalfDuplexScrollLock => 0x4844534C,
        DsopOption::ModifierMapForShift => 0x4D4D4653,
        DsopOption::ModifierMapForControl => 0x4D4D4643,
        DsopOption::ModifierMapForAlt => 0x4D4D4641,
        DsopOption::ModifierMapForAltGr => 0x4D4D4647,
        DsopOption::ModifierMapForMeta => 0x4D4D464D,
        DsopOption::ModifierMapForSuper => 0x4D4D4652,
        DsopOption::ScreenSwitchCorners => 0x5353434D,
        DsopOption::ScreenSwitchCornerSize => 0x53534353,
        DsopOption::ScreenSwitchDelay => 0x53535754,
        DsopOption::ScreenSwitchTwoTap => 0x53535454,
        DsopOption::ScreenSwitchNeedsShift => 0x53534E53,
        DsopOption::ScreenSwitchNeedsControl => 0x53534E43,
        DsopOption::ScreenSwitchNeedsAlt => 0x53534E41,
        DsopOption::Heartbeat => 0x48415254,
        DsopOption::Protocol => 0x50524F54,
        DsopOption::RelativeMouseMoves => 0x4D444C54,
        DsopOption::DefaultLockToScreenState => 0x4C545353,
        DsopOption::DisableLockToScreen => 0x444C5453,
        DsopOption::ClipboardSharing => 0x434C5053,
        DsopOption::ClipboardSharingSize => 0x434C535A,
        DsopOption::XTestXineramaUnaware => 0x58545855,
        DsopOption::ScreenPreserveFocus => 0x53464F43,
        DsopOption::Win32KeepForeground => 0x5F4B4657,
    }
}

/// The known option, if any, whose wire value is `value`.
pub open spec fn spec_option_from_u32(value: u32) -> Option<DsopOption> {
    if exists|o: DsopOption| spec_option_value(o) == value {
        Some(choose|o: DsopOption| spec_option_value(o) == value)
    } else {
        None
    }
}

/// The 4-character code of each known option key.
pub open spec fn spec_option_code(o: DsopOption) -> Seq<char> {
    match o {
        DsopOption::HalfDuplexCapsLock => "HDCL"@,
        DsopOption::HalfDuplexNumLock => "HDNL"@,
        DsopOption::HalfDuplexScrollLock => "HDSL"@,
        DsopOption::ModifierMapForShift => "MMFS"@,
        DsopOption::ModifierMapForControl => "MMFC"@,
        DsopOption::ModifierMapForAlt => "MMFA"@,
        DsopOption::ModifierMapForAltGr => "MMFG"@,
        DsopOption::ModifierMapForMeta => "MMFM"@,
        DsopOption::ModifierMapForSuper => "MMFR"@,
        DsopOption::ScreenSwitchCorners => "SSCM"@,
        DsopOption::ScreenSwitchCornerSize => "SSCS"@,
        DsopOption::ScreenSwitchDelay => "SSWT"@,
        DsopOption::ScreenSwitchTwoTap => "SSTT"@,
        DsopOption::ScreenSwitchNeedsShift => "SSNS"@,
        DsopOption::ScreenSwitchNeedsControl => "SSNC"@,
        DsopOption::ScreenSwitchNeedsAlt => "SSNA"@,
        DsopOption::Heartbeat => "HART"@,
        DsopOption::Protocol => "PROT"@,
        DsopOption::RelativeMouseMoves => "MDLT"@,
        DsopOption::DefaultLockToScreenState => "LTSS"@,
        DsopOption::DisableLockToScreen => "DLTS"@,
        DsopOption::ClipboardSharing => "CLPS"@,
        DsopOption::ClipboardSharingSize => "CLSZ"@,
        DsopOption::XTestXineramaUnaware => "XTXU"@,
        DsopOption::ScreenPreserveFocus => "SFOC"@,
        DsopOption::Win32KeepForeground => "_KFW"@,
    }
}

impl DsopOption {
    /// Convert a u32 value to a DsopOption if it matches a known option.
    pub fn from_u32(value: u32) -> (r: Option<Self>)
        ensures
            match r {
                Some(o) => spec_option_value(o) == value,
                None => forall|o: DsopOption| spec_option_value(o) != value,
            },
            r == spec_option_from_u32(value),
    {
        let r = match value {
            0x4844434C => Some(Self::HalfDuplexCapsLock),
            0x48444E4C => Some(Self::HalfDuplexNumLock),
            0x4844534C => Some(Self::HalfDuplexScrollLock),
            0x4D4D4653 => Some(Self::ModifierMapForShift),
            0x4D4D4643 => Some(Self::ModifierMapForControl),
            0x4D4D4641 => Some(Self::ModifierMapForAlt),
            0x4D4D4647 => Some(Self::ModifierMapForAltGr),
            0x4D4D464D => Some(Self::ModifierMapForMeta),
            0x4D4D4652 => Some(Self::ModifierMapForSuper),
            0x5353434D => Some(Self::ScreenSwitchCorners),
            0x53534353 => Some(Self::ScreenSwitchCornerSize),
            0x53535754 => Some(Self::ScreenSwitchDelay),
            0x53535454 => Some(Self::ScreenSwitchTwoTap),
            0x53534E53 => Some(Self::ScreenSwitchNeedsShift),
            0x53534E43 => Some(Self::ScreenSwitchNeedsControl),
            0x53534E41 => Some(Self::ScreenSwitchNeedsAlt),
            0x48415254 => Some(Self::Heartbeat),
            0x50524F54 => Some(Self::Protocol),
            0x4D444C54 => Some(Self::RelativeMouseMoves),
            0x4C545353 => Some(Self::DefaultLockToScreenState),
            0x444C5453 => Some(Self::DisableLockToScreen),
            0x434C5053 => Some(Self::ClipboardSharing),
            0x434C535A => Some(Self::ClipboardSharingSize),
            0x58545855 => Some(Self::XTestXineramaUnaware),
            0x53464F43 => Some(Self::ScreenPreserveFocus),
            0x5F4B4657 => Some(Self::Win32KeepForeground),
            _ => None,
        };
        proof {
            match r {
                Some(o) => {
                    assert(spec_option_from_u32(value) == Some::<DsopOption>(o)) by {
                        let w = choose|w: DsopOption| spec_option_value(w) == value;
                        assert(spec_option_value(o) == value);
                        assert(spec_option_value(w) == value);
                    }
                },
                None => {
                    assert(forall|o: DsopOption| spec_option_value(o) != value) by {
                        assert forall|o: DsopOption| spec_option_value(o) != value by {
                            match o {
                                DsopOption::HalfDuplexCapsLock => {},
                                DsopOption::HalfDuplexNumLock => {},
                                DsopOption::HalfDuplexScrollLock => {},
                                DsopOption::ModifierMapForShift => {},
                                DsopOption::ModifierMapForControl => {},
                                DsopOption::ModifierMapForAlt => {},
                                DsopOption::ModifierMapForAltGr => {},
                                DsopOption::ModifierMapForMeta => {},
                                DsopOption::ModifierMapForSuper => {},
                                DsopOption::ScreenSwitchCorners => {},
                                DsopOption::ScreenSwitchCornerSize => {},
                                DsopOption::ScreenSwitchDelay => {},
                                DsopOption::ScreenSwitchTwoTap => {},
                                DsopOption::ScreenSwitchNeedsShift => {},
                                DsopOption::ScreenSwitchNeedsControl => {},
                                DsopOption::ScreenSwitchNeedsAlt => {},
                                DsopOption::Heartbeat => {},
                                DsopOption::Protocol => {},
                                DsopOption::RelativeMouseMoves => {},
                                DsopOption::DefaultLockToScreenState => {},
                                DsopOption::DisableLockToScreen => {},
                                DsopOption::ClipboardSharing => {},
                                DsopOption::ClipboardSharingSize => {},
                                DsopOption::XTestXineramaUnaware => {},
                                DsopOption::ScreenPreserveFocus => {},
                                DsopOption::Win32KeepForeground => {},
                            }
                        }
                    }
                },
            }
        }
        r
    }

    /// Get the 4-character code for this option.
    pub fn code(&self) -> (r: &'static str)
        ensures
            r@ == spec_option_code(*self),
    {
        match self {
            Self::HalfDuplexCapsLock => "HDCL",
            Self::HalfDuplexNumLock => "HDNL",
            Self::HalfDuplexScrollLock => "HDSL",
            Self::ModifierMapForShift => "MMFS",
            Self::ModifierMapForControl => "MMFC",
            Self::ModifierMapForAlt => "MMFA",
            Self::ModifierMapForAltGr => "MMFG",
            Self::ModifierMapForMeta => "MMFM",
            Self::ModifierMapForSuper => "MMFR",
            Self::ScreenSwitchCorners => "SSCM",
            Self::ScreenSwitchCornerSize => "SSCS",
            Self::ScreenSwitchDelay => "SSWT",
            Self::ScreenSwitchTwoTap => "SSTT",
            Self::ScreenSwitchNeedsShift => "SSNS",
            Self::ScreenSwitchNeedsControl => "SSNC",
            Self::ScreenSwitchNeedsAlt => "SSNA",
            Self::Heartbeat => "HART",
            Self::Protocol => "PROT",
            Self::RelativeMouseMoves => "MDLT",
            Self::DefaultLockToScreenState => "LTSS",
            Self::DisableLockToScreen => "DLTS",
            Self::ClipboardSharing => "CLPS",
            Self::ClipboardSharingSize => "CLSZ",
            Self::XTestXineramaUnaware => "XTXU",
            Self::ScreenPreserveFocus => "SFOC",
            Self::Win32KeepForeground => "_KFW",
        }
    }
}

/// The byte encoding of a sequence of (key, value) option pairs: each pair
/// is a big-endian key followed by a big-endian value.
pub open spec fn pairs_encode(v: Seq<(u32, u32)>) -> Seq<u8>
    decreases v.len(),
{
    if v.len() == 0 {
        Seq::empty()
    } else {
        pairs_encode(v.drop_last()) + u32_be(v.last().0) + u32_be(v.last().1)
    }
}

/// The `n` option pairs read from `data` starting at `off`.
pub open spec fn spec_pairs(data: Seq<u8>, off: int, n: int) -> Seq<(u32, u32)> {
    Seq::new(n as nat, |i: int| (be_u32_at(data, off + 8 * i), be_u32_at(data, off + 8 * i + 4)))
}

pub proof fn lemma_pairs_encode_bytes(v: Seq<(u32, u32)>)
    ensures
        pairs_encode(v).len() == 8 * v.len(),
        forall|i: int| 0 <= i < v.len() ==> be_u32_at(#[trigger] pairs_encode(v), 8 * i)
            == v[i].0 && be_u32_at(pairs_encode(v), 8 * i + 4) == v[i].1,
    decreases v.len(),
{
    if v.len() > 0 {
        let p = pairs_encode(v);
        let pre = pairs_encode(v.drop_last());
        lemma_pairs_encode_bytes(v.drop_last());
        lemma_u32_be_roundtrip(v.last().0);
        lemma_u32_be_roundtrip(v.last().1);
        assert forall|i: int| 0 <= i < v.len() implies be_u32_at(#[trigger] pairs_encode(v), 8 * i)
            == v[i].0 && be_u32_at(pairs_encode(v), 8 * i + 4) == v[i].1 by {
            if i < v.len() - 1 {
                assert(forall|j: int| 0 <= j < pre.len() ==> p[j] == pre[j]);
                assert(be_u32_at(p, 8 * i) == be_u32_at(pre, 8 * i));
                assert(be_u32_at(p, 8 * i + 4) == be_u32_at(pre, 8 * i + 4));
                assert(v.drop_last()[i] == v[i]);
            } else {
                let base = 8 * i;
                assert(pre.len() == base);
                assert(p[base] == u32_be(v.last().0)[0]);
                assert(p[base + 1] == u32_be(v.last().0)[1]);
                assert(p[base + 2] == u32_be(v.last().0)[2]);
                assert(p[base + 3] == u32_be(v.last().0)[3]);
                assert(p[base + 4] == u32_be(v.last().1)[0]);
                assert(p[base + 5] == u32_be(v.last().1)[1]);
                assert(p[base + 6] == u32_be(v.last().1)[2]);
                assert(p[base + 7] == u32_be(v.last().1)[3]);
                assert(v.last() == v[i]);
            }
        }
    }
}

/// Set options.
///
/// DSOP message format:
/// - "DSOP" (4 bytes)
/// - Length (4 bytes BE) - number of 4-byte elements including the length
///   itself
/// - Key-value pairs, where each pair is:
///   - Key (4 bytes BE) - see [`DsopOption`]
///   - Value (4 bytes BE)
#[derive(Debug, Clone, PartialEq, Eq)]
pub struct MessageSetOptions {
    /// Vector of (key, value) pairs for options
    pub options: Vec<(u32, u32)>,
}

impl View for MessageSetOptions {
    type V = Seq<(u32, u32)>;

    open spec fn view(&self) -> Seq<(u32, u32)> {
        self.options@
    }
}

impl ProtocolMessage for MessageSetOptions {
    open spec fn spec_code() -> Seq<char> {
        "DSOP"@
    }

    open spec fn spec_parse(data: Seq<u8>) -> Result<Seq<(u32, u32)>, ProtocolErrorV> {
        if data.len() < 8 {
            Err(insufficient(8, data.len() as int))
        } else {
            let length = be_u32_at(data, 4);
            if length < 1 {
                Err(ProtocolErrorV::InvalidData("DSOP length must be at least 1"@))
            } else if (length - 1) as int % 2 != 0 {
                Err(ProtocolErrorV::InvalidData(
                    "DSOP must have an even number of elements (key-value pairs)"@,
                ))
            } else {
                let num_pairs = (length - 1) as int / 2;
                if data.len() < 8 + num_pairs * 8 {
                    Err(insufficient(8 + num_pairs * 8, data.len() as int))
                } else {
                    Ok(spec_pairs(data, 8, num_pairs))
                }
            }
        }
    }

    open spec fn spec_encode(v: Seq<(u32, u32)>) -> Seq<u8> {
        "DSOP".spec_bytes() + u32_be((1 + 2 * v.len()) as u32) + pairs_encode(v)
    }

    fn code() -> (r: &'static str) {
        "DSOP"
    }

    fn from_bytes(data: &[u8]) -> (r: Result<Self, ProtocolError>) {
        if data.len() < 8 {
            return Err(ProtocolError::InsufficientData { expected: 8, actual: data.len() });
        }
        let length = match read_u32(data, 4) {
            Ok(v) => v,
            Err(e) => {
                return Err(e);
            },
        };
        if length < 1 {
            return Err(ProtocolError::InvalidData("DSOP length must be at least 1".to_owned()));
        }
        let num_elements = (length - 1) as u64;
        if num_elements % 2 != 0 {
            return Err(ProtocolError::InvalidData(
                "DSOP must have an even number of elements (key-value pairs)".to_owned(),
            ));
        }
        let num_pairs = num_elements / 2;
        let expected_size: u64 = 8 + num_pairs * 8;
        if (data.len() as u64) < expected_size {
            let expected: usize = if expected_size > usize::MAX as u64 {
                usize::MAX
            } else {
                expected_size as usize
            };
            return Err(ProtocolError::InsufficientData { expected, actual: data.len() });
        }
        let n = num_pairs as usize;
        let mut options: Vec<(u32, u32)> = Vec::new();
        let mut offset: usize = 8;
        let mut i: usize = 0;
        while i < n
            invariant
                0 <= i <= n,
                offset == 8 + 8 * i,
                8 + 8 * n <= data@.len(),
                data@.len() <= usize::MAX,
                options@ == spec_pairs(data@, 8, i as int),
            decreases n - i,
        {
            let key = match read_u32(data, offset) {
                Ok(v) => v,
                Err(e) => {
                    return Err(e);
                },
            };
            let value = match read_u32(data, offset + 4) {
                Ok(v) => v,
                Err(e) => {
                    return Err(e);
                },
            };
            options.push((key, value));
            offset = offset + 8;
            i = i + 1;
            proof {
                assert(options@ =~= spec_pairs(data@, 8, i as int));
            }
        }
        Ok(MessageSetOptions { options })
    }

    #[verifier::rlimit(50)]
    fn to_bytes(&self) -> (r: Vec<u8>) {
        let mut bytes: Vec<u8> = Vec::new();
        push_str_bytes(&mut bytes, "DSOP");
        proof {
            lemma_pairs_encode_bytes(self.options@);
            assert(2 * self.options@.len() + 1 <= u32::MAX);
        }
        let length: u32 = 1 + (self.options.len() * 2) as u32;
        push_u32_be(&mut bytes, length);
        let ghost pre = bytes@;
        let mut i: usize = 0;
        while i < self.options.len()
            invariant
                0 <= i <= self.options@.len(),
                bytes@ == pre + pairs_encode(self.options@.take(i as int)),
            decreases self.options@.len() - i,
        {
            let (key, value) = self.options[i];
            push_u32_be(&mut bytes, key);
            push_u32_be(&mut bytes, value);
            i = i + 1;
            proof {
                let t = self.options@.take(i as int);
                assert(t.drop_last() =~= self.options@.take(i as int - 1));
                assert(t.last() == self.options@[i as int - 1]);
                assert(bytes@ =~= pre + pairs_encode(t));
            }
        }
        proof {
            assert(self.options@.take(self.options@.len() as int) =~= self.options@);
            assert(bytes@ =~= Self::spec_encode(self@));
        }
        bytes
    }

    proof fn lemma_parse_encode(v: Seq<(u32, u32)>) {
        reveal_strlit("DSOP");
        lemma_ascii_code("DSOP");
        let enc = Self::spec_encode(v);
        lemma_pairs_encode_bytes(v);
        assert(enc.len() == 8 + 8 * v.len());
        let length: u32 = (1 + 2 * v.len()) as u32;
        lemma_u32_be_roundtrip(length);
        assert(be_u32_at(enc, 4) == length);
        assert(length >= 1);
        assert((length - 1) as int % 2 == 0);
        assert((length - 1) as int / 2 == v.len());
        assert forall|i: int| 0 <= i < v.len() implies (be_u32_at(enc, 8 + 8 * i) == v[i].0
            && be_u32_at(enc, 8 + 8 * i + 4) == v[i].1) by {
            let p = pairs_encode(v);
            assert(enc[8 + 8 * i] == p[8 * i]);
            assert(enc[8 + 8 * i + 1] == p[8 * i + 1]);
            assert(enc[8 + 8 * i + 2] == p[8 * i + 2]);
            assert(enc[8 + 8 * i + 3] == p[8 * i + 3]);
            assert(enc[8 + 8 * i + 4] == p[8 * i + 4]);
            assert(enc[8 + 8 * i + 5] == p[8 * i + 5]);
            assert(enc[8 + 8 * i + 6] == p[8 * i + 6]);
            assert(enc[8 + 8 * i + 7] == p[8 * i + 7]);
        }
        assert(spec_pairs(enc, 8, v.len() as int) =~= v);
    }
}

} // verus!
