//! The polymorphic [`Message`] enum over every protocol message, its
//! specification-level counterpart, and the parse entry points for complete
//! message buffers with and without the frame length prefix.

use vstd::prelude::*;
use vstd::slice::{slice_subrange, slice_to_vec};
use vstd::string::StringSliceAdditionalSpecFns;
use vstd::utf8::{valid_utf8, decode_utf8};

use crate::protocol::model::{ProtocolErrorV, HelloV, KeyDownWithLanguageV, KeyRepeatV,
    ClipboardDataV, FileTransferV, DragInfoV, SecureEncryptionV, LegacySynergyV, insufficient,
    u32_be, be_u32_at, lemma_u32_be_roundtrip};
use crate::protocol::wire::{ProtocolError, ProtocolMessage, utf8_to_string, sat_add, read_u32,
    push_u32_be, push_bytes, bytes_eq};
use crate::protocol::control::{MessageHelloBarrier, MessageHelloSynergy, MessageNoOp,
    MessageClose, MessageCursorEntered, MessageCursorLeft, MessageClientClipboard,
    MessageScreenSaverChange, MessageResetOptions, MessageInfoAcknowledgment, MessageKeepAlive,
    MessageQueryInfo, MessageIncompatibleVersion, MessageServerBusy, MessageUnknownClient,
    MessageProtocolError};
use crate::protocol::input::{MessageKeyDownWithLanguage, MessageKeyDown, MessageKeyRepeat,
    MessageKeyUp, MessageMouseButtonDown, MessageMouseButtonUp, MessageMouseMove,
    MessageMouseRelativeMove, MessageMouseWheel};
use crate::protocol::data::{MessageClipboardData, MessageClientInfo, MessageFileTransfer,
    MessageDragInfo, MessageSecureEncryption, MessageLegacySynergy};
use crate::protocol::options::MessageSetOptions;

verus! {

/// Specification-level counterpart of [`Message`]: message types whose
/// fields are plain integers stand for themselves, the others are abstracted
/// over character sequences.
pub enum MessageV {
    HelloBarrier(HelloV),
    HelloSynergy(HelloV),
    NoOp(MessageNoOp),
    Close(MessageClose),
    CursorEntered(MessageCursorEntered),
    CursorLeft(MessageCursorLeft),
    ClientClipboard(MessageClientClipboard),
    ScreenSaverChange(MessageScreenSaverChange),
    ResetOptions(MessageResetOptions),
    InfoAcknowledgment(MessageInfoAcknowledgment),
    KeepAlive(MessageKeepAlive),
    KeyDownWithLanguage(KeyDownWithLanguageV),
    KeyDown(MessageKeyDown),
    KeyRepeat(KeyRepeatV),
    KeyUp(MessageKeyUp),
    MouseButtonDown(MessageMouseButtonDown),
    MouseButtonUp(MessageMouseButtonUp),
    MouseMove(MessageMouseMove),
    MouseRelativeMove(MessageMouseRelativeMove),
    MouseWheel(MessageMouseWheel),
    ClipboardData(ClipboardDataV),
    ClientInfo(MessageClientInfo),
    SetOptions(Seq<(u32, u32)>),
    FileTransfer(FileTransferV),
    DragInfo(DragInfoV),
    SecureEncryption(SecureEncryptionV),
    LegacySynergy(LegacySynergyV),
    QueryInfo(MessageQueryInfo),
    IncompatibleVersion(MessageIncompatibleVersion),
    ServerBusy(MessageServerBusy),
    UnknownClient(MessageUnknownClient),
    ProtocolError(MessageProtocolError),
}

/// Main protocol message enum representing all possible messages.
#[derive(Debug, Clone, PartialEq, Eq)]
pub enum Message {
    HelloBarrier(MessageHelloBarrier),
    HelloSynergy(MessageHelloSynergy),
    NoOp(MessageNoOp),
    Close(MessageClose),
    CursorEntered(MessageCursorEntered),
    CursorLeft(MessageCursorLeft),
    ClientClipboard(MessageClientClipboard),
    ScreenSaverChange(MessageScreenSaverChange),
    ResetOptions(MessageResetOptions),
    InfoAcknowledgment(MessageInfoAcknowledgment),
    KeepAlive(MessageKeepAlive),
    KeyDownWithLanguage(MessageKeyDownWithLanguage),
    KeyDown(MessageKeyDown),
    KeyRepeat(MessageKeyRepeat),
    KeyUp(MessageKeyUp),
    MouseButtonDown(MessageMouseButtonDown),
    MouseButtonUp(MessageMouseButtonUp),
    MouseMove(MessageMouseMove),
    MouseRelativeMove(MessageMouseRelativeMove),
    MouseWheel(MessageMouseWheel),
    ClipboardData(MessageClipboardData),
    ClientInfo(MessageClientInfo),
    SetOptions(MessageSetOptions),
    FileTransfer(MessageFileTransfer),
    DragInfo(MessageDragInfo),
    SecureEncryption(MessageSecureEncryption),
    LegacySynergy(MessageLegacySynergy),
    QueryInfo(MessageQueryInfo),
    IncompatibleVersion(MessageIncompatibleVersion),
    ServerBusy(MessageServerBusy),
    UnknownClient(MessageUnknownClient),
    ProtocolError(MessageProtocolError),
}

impl View for Message {
    type V = MessageV;

    open spec fn view(&self) -> MessageV {
        match self {
            Message::HelloBarrier(m) => MessageV::HelloBarrier(m@),
            Message::HelloSynergy(m) => MessageV::HelloSynergy(m@),
            Message::NoOp(m) => MessageV::NoOp(m@),
            Message::Close(m) => MessageV::Close(m@),
            Message::CursorEntered(m) => MessageV::CursorEntered(m@),
            Message::CursorLeft(m) => MessageV::CursorLeft(m@),
            Message::ClientClipboard(m) => MessageV::ClientClipboard(m@),
            Message::ScreenSaverChange(m) => MessageV::ScreenSaverChange(m@),
            Message::ResetOptions(m) => MessageV::ResetOptions(m@),
            Message::InfoAcknowledgment(m) => MessageV::InfoAcknowledgment(m@),
            Message::KeepAlive(m) => MessageV::KeepAlive(m@),
            Message::KeyDownWithLanguage(m) => MessageV::KeyDownWithLanguage(m@),
            Message::KeyDown(m) => MessageV::KeyDown(m@),
            Message::KeyRepeat(m) => MessageV::KeyRepeat(m@),
            Message::KeyUp(m) => MessageV::KeyUp(m@),
            Message::MouseButtonDown(m) => MessageV::MouseButtonDown(m@),
            Message::MouseButtonUp(m) => MessageV::MouseButtonUp(m@),
            Message::MouseMove(m) => MessageV::MouseMove(m@),
            Message::MouseRelativeMove(m) => MessageV::MouseRelativeMove(m@),
            Message::MouseWheel(m) => MessageV::MouseWheel(m@),
            Message::ClipboardData(m) => MessageV::ClipboardData(m@),
            Message::ClientInfo(m) => MessageV::ClientInfo(m@),
            Message::SetOptions(m) => MessageV::SetOptions(m@),
            Message::FileTransfer(m) => MessageV::FileTransfer(m@),
            Message::DragInfo(m) => MessageV::DragInfo(m@),
            Message::SecureEncryption(m) => MessageV::SecureEncryption(m@),
            Message::LegacySynergy(m) => MessageV::LegacySynergy(m@),
            Message::QueryInfo(m) => MessageV::QueryInfo(m@),
            Message::IncompatibleVersion(m) => MessageV::IncompatibleVersion(m@),
            Message::ServerBusy(m) => MessageV::ServerBusy(m@),
            Message::UnknownClient(m) => MessageV::UnknownClient(m@),
            Message::ProtocolError(m) => MessageV::ProtocolError(m@),
        }
    }
}

/// The payload bytes of a message: its code followed by its fields, without
/// the frame length prefix.
pub open spec fn msg_payload(v: MessageV) -> Seq<u8> {
    match v {
        MessageV::HelloBarrier(m) => MessageHelloBarrier::spec_encode(m),
        MessageV::HelloSynergy(m) => MessageHelloSynergy::spec_encode(m),
        MessageV::NoOp(m) => MessageNoOp::spec_encode(m),
        MessageV::Close(m) => MessageClose::spec_encode(m),
        MessageV::CursorEntered(m) => MessageCursorEntered::spec_encode(m),
        MessageV::CursorLeft(m) => MessageCursorLeft::spec_encode(m),
        MessageV::ClientClipboard(m) => MessageClientClipboard::spec_encode(m),
        MessageV::ScreenSaverChange(m) => MessageScreenSaverChange::spec_encode(m),
        MessageV::ResetOptions(m) => MessageResetOptions::spec_encode(m),
        MessageV::InfoAcknowledgment(m) => MessageInfoAcknowledgment::spec_encode(m),
        MessageV::KeepAlive(m) => MessageKeepAlive::spec_encode(m),
        MessageV::KeyDownWithLanguage(m) => MessageKeyDownWithLanguage::spec_encode(m),
        MessageV::KeyDown(m) => MessageKeyDown::spec_encode(m),
        MessageV::KeyRepeat(m) => MessageKeyRepeat::spec_encode(m),
        MessageV::KeyUp(m) => MessageKeyUp::spec_encode(m),
        MessageV::MouseButtonDown(m) => MessageMouseButtonDown::spec_encode(m),
        MessageV::MouseButtonUp(m) => MessageMouseButtonUp::spec_encode(m),
        MessageV::MouseMove(m) => MessageMouseMove::spec_encode(m),
        MessageV::MouseRelativeMove(m) => MessageMouseRelativeMove::spec_encode(m),
        MessageV::MouseWheel(m) => MessageMouseWheel::spec_encode(m),
        MessageV::ClipboardData(m) => MessageClipboardData::spec_encode(m),
        MessageV::ClientInfo(m) => MessageClientInfo::spec_encode(m),
        MessageV::SetOptions(m) => MessageSetOptions::spec_encode(m),
        MessageV::FileTransfer(m) => MessageFileTransfer::spec_encode(m),
        MessageV::DragInfo(m) => MessageDragInfo::spec_encode(m),
        MessageV::SecureEncryption(m) => MessageSecureEncryption::spec_encode(m),
        MessageV::LegacySynergy(m) => MessageLegacySynergy::spec_encode(m),
        MessageV::QueryInfo(m) => MessageQueryInfo::spec_encode(m),
        MessageV::IncompatibleVersion(m) => MessageIncompatibleVersion::spec_encode(m),
        MessageV::ServerBusy(m) => MessageServerBusy::spec_encode(m),
        MessageV::UnknownClient(m) => MessageUnknownClient::spec_encode(m),
        MessageV::ProtocolError(m) => MessageProtocolError::spec_encode(m),
    }
}

/// A message is well-formed when its payload fits the 4-byte frame length
/// prefix.
pub open spec fn msg_wf(v: MessageV) -> bool {
    msg_payload(v).len() <= u32::MAX
}

/// The full frame of a message: big-endian payload length, then the payload.
pub open spec fn frame_encode(v: MessageV) -> Seq<u8> {
    u32_be(msg_payload(v).len() as u32) + msg_payload(v)
}

/// What parsing a payload buffer (without the frame length prefix) yields:
/// the message whose code opens the buffer, or the error the failing read or
/// the unknown code produces.
pub open spec fn msg_parse(data: Seq<u8>) -> Result<MessageV, ProtocolErrorV> {
    if data.len() < 4 {
        Err(insufficient(4, data.len() as int))
    } else if !valid_utf8(data.subrange(0, 4)) {
        Err(ProtocolErrorV::InvalidMessageCode)
    } else {
        if data.subrange(0, 4) == "CNOP".spec_bytes() {
            match MessageNoOp::spec_parse(data) {
                Ok(m) => Ok(MessageV::NoOp(m)),
                Err(e) => Err(e),
            }
        } else if data.subrange(0, 4) == "CBYE".spec_bytes() {
            match MessageClose::spec_parse(data) {
                Ok(m) => Ok(MessageV::Close(m)),
                Err(e) => Err(e),
            }
        } else if data.subrange(0, 4) == "CINN".spec_bytes() {
            match MessageCursorEntered::spec_parse(data) {
                Ok(m) => Ok(MessageV::CursorEntered(m)),
                Err(e) => Err(e),
            }
        } else if data.subrange(0, 4) == "COUT".spec_bytes() {
            match MessageCursorLeft::spec_parse(data) {
                Ok(m) => Ok(MessageV::CursorLeft(m)),
                Err(e) => Err(e),
            }
        } else if data.subrange(0, 4) == "CCLP".spec_bytes() {
            match MessageClientClipboard::spec_parse(data) {
                Ok(m) => Ok(MessageV::ClientClipboard(m)),
                Err(e) => Err(e),
            }
        } else if data.subrange(0, 4) == "CSEC".spec_bytes() {
            match MessageScreenSaverChange::spec_parse(data) {
                Ok(m) => Ok(MessageV::ScreenSaverChange(m)),
                Err(e) => Err(e),
            }
        } else if data.subrange(0, 4) == "CROP".spec_bytes() {
            match MessageResetOptions::spec_parse(data) {
                Ok(m) => Ok(MessageV::ResetOptions(m)),
                Err(e) => Err(e),
            }
        } else if data.subrange(0, 4) == "CIAK".spec_bytes() {
            match MessageInfoAcknowledgment::spec_parse(data) {
                Ok(m) => Ok(MessageV::InfoAcknowledgment(m)),
                Err(e) => Err(e),
            }
        } else if data.subrange(0, 4) == "CALV".spec_bytes() {
            match MessageKeepAlive::spec_parse(data) {
                Ok(m) => Ok(MessageV::KeepAlive(m)),
                Err(e) => Err(e),
            }
        } else if data.subrange(0, 4) == "DKDL".spec_bytes() {
            match MessageKeyDownWithLanguage::spec_parse(data) {
                Ok(m) => Ok(MessageV::KeyDownWithLanguage(m)),
                Err(e) => Err(e),
            }
        } else if data.subrange(0, 4) == "DKDN".spec_bytes() {
            match MessageKeyDown::spec_parse(data) {
                Ok(m) => Ok(MessageV::KeyDown(m)),
                Err(e) => Err(e),
            }
        } else if data.subrange(0, 4) == "DKRP".spec_bytes() {
            match MessageKeyRepeat::spec_parse(data) {
                Ok(m) => Ok(MessageV::KeyRepeat(m)),
                Err(e) => Err(e),
            }
        } else if data.subrange(0, 4) == "DKUP".spec_bytes() {
            match MessageKeyUp::spec_parse(data) {
                Ok(m) => Ok(MessageV::KeyUp(m)),
                Err(e) => Err(e),
            }
        } else if data.subrange(0, 4) == "DMDN".spec_bytes() {
            match MessageMouseButtonDown::spec_parse(data) {
                Ok(m) => Ok(MessageV::MouseButtonDown(m)),
                Err(e) => Err(e),
            }
        } else if data.subrange(0, 4) == "DMUP".spec_bytes() {
            match MessageMouseButtonUp::spec_parse(data) {
                Ok(m) => Ok(MessageV::MouseButtonUp(m)),
                Err(e) => Err(e),
            }
        } else if data.subrange(0, 4) == "DMMV".spec_bytes() {
            match MessageMouseMove::spec_parse(data) {
                Ok(m) => Ok(MessageV::MouseMove(m)),
                Err(e) => Err(e),
            }
        } else if data.subrange(0, 4) == "DMRM".spec_bytes() {
            match MessageMouseRelativeMove::spec_parse(data) {
                Ok(m) => Ok(MessageV::MouseRelativeMove(m)),
                Err(e) => Err(e),
            }
        } else if data.subrange(0, 4) == "DMWM".spec_bytes() {
            match MessageMouseWheel::spec_parse(data) {
                Ok(m) => Ok(MessageV::MouseWheel(m)),
                Err(e) => Err(e),
            }
        } else if data.subrange(0, 4) == "DCLP".spec_bytes() {
            match MessageClipboardData::spec_parse(data) {
                Ok(m) => Ok(MessageV::ClipboardData(m)),
                Err(e) => Err(e),
            }
        } else if data.subrange(0, 4) == "DINF".spec_bytes() {
            match MessageClientInfo::spec_parse(data) {
                Ok(m) => Ok(MessageV::ClientInfo(m)),
                Err(e) => Err(e),
            }
        } else if data.subrange(0, 4) == "DSOP".spec_bytes() {
            match MessageSetOptions::spec_parse(data) {
                Ok(m) => Ok(MessageV::SetOptions(m)),
                Err(e) => Err(e),
            }
        } else if data.subrange(0, 4) == "DFTR".spec_bytes() {
            match MessageFileTransfer::spec_parse(data) {
                Ok(m) => Ok(MessageV::FileTransfer(m)),
                Err(e) => Err(e),
            }
        } else if data.subrange(0, 4) == "DDRG".spec_bytes() {
            match MessageDragInfo::spec_parse(data) {
                Ok(m) => Ok(MessageV::DragInfo(m)),
                Err(e) => Err(e),
            }
        } else if data.subrange(0, 4) == "SECN".spec_bytes() {
            match MessageSecureEncryption::spec_parse(data) {
                Ok(m) => Ok(MessageV::SecureEncryption(m)),
                Err(e) => Err(e),
            }
        } else if data.subrange(0, 4) == "LSYN".spec_bytes() {
            match MessageLegacySynergy::spec_parse(data) {
                Ok(m) => Ok(MessageV::LegacySynergy(m)),
                Err(e) => Err(e),
            }
        } else if data.subrange(0, 4) == "QINF".spec_bytes() {
            match MessageQueryInfo::spec_parse(data) {
                Ok(m) => Ok(MessageV::QueryInfo(m)),
                Err(e) => Err(e),
            }
        } else if data.subrange(0, 4) == "EICV".spec_bytes() {
            match MessageIncompatibleVersion::spec_parse(data) {
                Ok(m) => Ok(MessageV::IncompatibleVersion(m)),
                Err(e) => Err(e),
            }
        } else if data.subrange(0, 4) == "EBSY".spec_bytes() {
            match MessageServerBusy::spec_parse(data) {
                Ok(m) => Ok(MessageV::ServerBusy(m)),
                Err(e) => Err(e),
            }
        } else if data.subrange(0, 4) == "EUNK".spec_bytes() {
            match MessageUnknownClient::spec_parse(data) {
                Ok(m) => Ok(MessageV::UnknownClient(m)),
                Err(e) => Err(e),
            }
        } else if data.subrange(0, 4) == "EBAD".spec_bytes() {
            match MessageProtocolError::spec_parse(data) {
                Ok(m) => Ok(MessageV::ProtocolError(m)),
                Err(e) => Err(e),
            }
        } else if data.len() >= 7 && data.subrange(0, 7) == "Barrier".spec_bytes() {
            match MessageHelloBarrier::spec_parse(data) {
                Ok(m) => Ok(MessageV::HelloBarrier(m)),
                Err(e) => Err(e),
            }
        } else if data.len() >= 7 && data.subrange(0, 7) == "Synergy".spec_bytes() {
            match MessageHelloSynergy::spec_parse(data) {
                Ok(m) => Ok(MessageV::HelloSynergy(m)),
                Err(e) => Err(e),
            }
        } else {
            Err(ProtocolErrorV::UnknownMessageCode(decode_utf8(data.subrange(0, 4))))
        }
    }
}

impl Message {
    /// Whether this message's payload fits the 4-byte frame length prefix.
    pub open spec fn wf(&self) -> bool {
        msg_wf(self@)
    }

    /// Converts this message to bytes with a 4-byte length prefix.
    ///
    /// This method wraps the individual message's
    /// [`ProtocolMessage::to_bytes`] implementation and adds the required
    /// 4-byte length prefix.
    pub fn to_bytes(&self) -> (r: Vec<u8>)
        requires
            self.wf(),
        ensures
            r@ == frame_encode(self@),
    {
        let data: Vec<u8> = match self {
            Message::HelloBarrier(m) => m.to_bytes(),
            Message::HelloSynergy(m) => m.to_bytes(),
            Message::NoOp(m) => m.to_bytes(),
            Message::Close(m) => m.to_bytes(),
            Message::CursorEntered(m) => m.to_bytes(),
            Message::CursorLeft(m) => m.to_bytes(),
            Message::ClientClipboard(m) => m.to_bytes(),
            Message::ScreenSaverChange(m) => m.to_bytes(),
            Message::ResetOptions(m) => m.to_bytes(),
            Message::InfoAcknowledgment(m) => m.to_bytes(),
            Message::KeepAlive(m) => m.to_bytes(),
            Message::KeyDownWithLanguage(m) => m.to_bytes(),
            Message::KeyDown(m) => m.to_bytes(),
            Message::KeyRepeat(m) => m.to_bytes(),
            Message::KeyUp(m) => m.to_bytes(),
            Message::MouseButtonDown(m) => m.to_bytes(),
            Message::MouseButtonUp(m) => m.to_bytes(),
            Message::MouseMove(m) => m.to_bytes(),
            Message::MouseRelativeMove(m) => m.to_bytes(),
            Message::MouseWheel(m) => m.to_bytes(),
            Message::ClipboardData(m) => m.to_bytes(),
            Message::ClientInfo(m) => m.to_bytes(),
            Message::SetOptions(m) => m.to_bytes(),
            Message::FileTransfer(m) => m.to_bytes(),
            Message::DragInfo(m) => m.to_bytes(),
            Message::SecureEncryption(m) => m.to_bytes(),
            Message::LegacySynergy(m) => m.to_bytes(),
            Message::QueryInfo(m) => m.to_bytes(),
            Message::IncompatibleVersion(m) => m.to_bytes(),
            Message::ServerBusy(m) => m.to_bytes(),
            Message::UnknownClient(m) => m.to_bytes(),
            Message::ProtocolError(m) => m.to_bytes(),
        };
        let mut result: Vec<u8> = Vec::new();
        push_u32_be(&mut result, data.len() as u32);
        push_bytes(&mut result, data.as_slice());
        proof {
            assert(result@ =~= frame_encode(self@));
        }
        result
    }
}

/// Parse a protocol message from bytes (without the length prefix).
///
/// The buffer must start with the message code; the message whose code
/// matches decodes the rest.
pub fn parse_message(data: &[u8]) -> (r: Result<Message, ProtocolError>)
    ensures
        match r {
            Ok(m) => msg_parse(data@) == Ok::<MessageV, ProtocolErrorV>(m@),
            Err(e) => msg_parse(data@) == Err::<MessageV, ProtocolErrorV>(e@),
        },
{
    if data.len() < 4 {
        return Err(ProtocolError::InsufficientData { expected: 4, actual: data.len() });
    }
    let four = slice_subrange(data, 0, 4);
    let code = match utf8_to_string(slice_to_vec(four)) {
        Some(s) => s,
        None => {
            return Err(ProtocolError::InvalidMessageCode);
        },
    };
    if bytes_eq(four, "CNOP".as_bytes()) {
        return match MessageNoOp::from_bytes(data) {
            Ok(m) => Ok(Message::NoOp(m)),
            Err(e) => Err(e),
        };
    }
    if bytes_eq(four, "CBYE".as_bytes()) {
        return match MessageClose::from_bytes(data) {
            Ok(m) => Ok(Message::Close(m)),
            Err(e) => Err(e),
        };
    }
    if bytes_eq(four, "CINN".as_bytes()) {
        return match MessageCursorEntered::from_bytes(data) {
            Ok(m) => Ok(Message::CursorEntered(m)),
            Err(e) => Err(e),
        };
    }
    if bytes_eq(four, "COUT".as_bytes()) {
        return match MessageCursorLeft::from_bytes(data) {
            Ok(m) => Ok(Message::CursorLeft(m)),
            Err(e) => Err(e),
        };
    }
    if bytes_eq(four, "CCLP".as_bytes()) {
        return match MessageClientClipboard::from_bytes(data) {
            Ok(m) => Ok(Message::ClientClipboard(m)),
            Err(e) => Err(e),
        };
    }
    if bytes_eq(four, "CSEC".as_bytes()) {
        return match MessageScreenSaverChange::from_bytes(data) {
            Ok(m) => Ok(Message::ScreenSaverChange(m)),
            Err(e) => Err(e),
        };
    }
    if bytes_eq(four, "CROP".as_bytes()) {
        return match MessageResetOptions::from_bytes(data) {
            Ok(m) => Ok(Message::ResetOptions(m)),
            Err(e) => Err(e),
        };
    }
    if bytes_eq(four, "CIAK".as_bytes()) {
        return match MessageInfoAcknowledgment::from_bytes(data) {
            Ok(m) => Ok(Message::InfoAcknowledgment(m)),
            Err(e) => Err(e),
        };
    }
    if bytes_eq(four, "CALV".as_bytes()) {
        return match MessageKeepAlive::from_bytes(data) {
            Ok(m) => Ok(Message::KeepAlive(m)),
            Err(e) => Err(e),
        };
    }
    if bytes_eq(four, "DKDL".as_bytes()) {
        return match MessageKeyDownWithLanguage::from_bytes(data) {
            Ok(m) => Ok(Message::KeyDownWithLanguage(m)),
            Err(e) => Err(e),
        };
    }
    if bytes_eq(four, "DKDN".as_bytes()) {
        return match MessageKeyDown::from_bytes(data) {
            Ok(m) => Ok(Message::KeyDown(m)),
            Err(e) => Err(e),
        };
    }
    if bytes_eq(four, "DKRP".as_bytes()) {
        return match MessageKeyRepeat::from_bytes(data) {
            Ok(m) => Ok(Message::KeyRepeat(m)),
            Err(e) => Err(e),
        };
    }
    if bytes_eq(four, "DKUP".as_bytes()) {
        return match MessageKeyUp::from_bytes(data) {
            Ok(m) => Ok(Message::KeyUp(m)),
            Err(e) => Err(e),
        };
    }
    if bytes_eq(four, "DMDN".as_bytes()) {
        return match MessageMouseButtonDown::from_bytes(data) {
            Ok(m) => Ok(Message::MouseButtonDown(m)),
            Err(e) => Err(e),
        };
    }
    if bytes_eq(four, "DMUP".as_bytes()) {
        return match MessageMouseButtonUp::from_bytes(data) {
            Ok(m) => Ok(Message::MouseButtonUp(m)),
            Err(e) => Err(e),
        };
    }
    if bytes_eq(four, "DMMV".as_bytes()) {
        return match MessageMouseMove::from_bytes(data) {
            Ok(m) => Ok(Message::MouseMove(m)),
            Err(e) => Err(e),
        };
    }
    if bytes_eq(four, "DMRM".as_bytes()) {
        return match MessageMouseRelativeMove::from_bytes(data) {
            Ok(m) => Ok(Message::MouseRelativeMove(m)),
            Err(e) => Err(e),
        };
    }
    if bytes_eq(four, "DMWM".as_bytes()) {
        return match MessageMouseWheel::from_bytes(data) {
            Ok(m) => Ok(Message::MouseWheel(m)),
            Err(e) => Err(e),
        };
    }
    if bytes_eq(four, "DCLP".as_bytes()) {
        return match MessageClipboardData::from_bytes(data) {
            Ok(m) => Ok(Message::ClipboardData(m)),
            Err(e) => Err(e),
        };
    }
    if bytes_eq(four, "DINF".as_bytes()) {
        return match MessageClientInfo::from_bytes(data) {
            Ok(m) => Ok(Message::ClientInfo(m)),
            Err(e) => Err(e),
        };
    }
    if bytes_eq(four, "DSOP".as_bytes()) {
        return match MessageSetOptions::from_bytes(data) {
            Ok(m) => Ok(Message::SetOptions(m)),
            Err(e) => Err(e),
        };
    }
    if bytes_eq(four, "DFTR".as_bytes()) {
        return match MessageFileTransfer::from_bytes(data) {
            Ok(m) => Ok(Message::FileTransfer(m)),
            Err(e) => Err(e),
        };
    }
    if bytes_eq(four, "DDRG".as_bytes()) {
        return match MessageDragInfo::from_bytes(data) {
            Ok(m) => Ok(Message::DragInfo(m)),
            Err(e) => Err(e),
        };
    }
    if bytes_eq(four, "SECN".as_bytes()) {
        return match MessageSecureEncryption::from_bytes(data) {
            Ok(m) => Ok(Message::SecureEncryption(m)),
            Err(e) => Err(e),
        };
    }
    if bytes_eq(four, "LSYN".as_bytes()) {
        return match MessageLegacySynergy::from_bytes(data) {
            Ok(m) => Ok(Message::LegacySynergy(m)),
            Err(e) => Err(e),
        };
    }
    if bytes_eq(four, "QINF".as_bytes()) {
        return match MessageQueryInfo::from_bytes(data) {
            Ok(m) => Ok(Message::QueryInfo(m)),
            Err(e) => Err(e),
        };
    }
    if bytes_eq(four, "EICV".as_bytes()) {
        return match MessageIncompatibleVersion::from_bytes(data) {
            Ok(m) => Ok(Message::IncompatibleVersion(m)),
            Err(e) => Err(e),
        };
    }
    if bytes_eq(four, "EBSY".as_bytes()) {
        return match MessageServerBusy::from_bytes(data) {
            Ok(m) => Ok(Message::ServerBusy(m)),
            Err(e) => Err(e),
        };
    }
    if bytes_eq(four, "EUNK".as_bytes()) {
        return match MessageUnknownClient::from_bytes(data) {
            Ok(m) => Ok(Message::UnknownClient(m)),
            Err(e) => Err(e),
        };
    }
    if bytes_eq(four, "EBAD".as_bytes()) {
        return match MessageProtocolError::from_bytes(data) {
            Ok(m) => Ok(Message::ProtocolError(m)),
            Err(e) => Err(e),
        };
    }
    if data.len() >= 7 {
        let seven = slice_subrange(data, 0, 7);
        if bytes_eq(seven, "Barrier".as_bytes()) {
            return match MessageHelloBarrier::from_bytes(data) {
                Ok(m) => Ok(Message::HelloBarrier(m)),
                Err(e) => Err(e),
            };
        }
        if bytes_eq(seven, "Synergy".as_bytes()) {
            return match MessageHelloSynergy::from_bytes(data) {
                Ok(m) => Ok(Message::HelloSynergy(m)),
                Err(e) => Err(e),
            };
        }
    }
    Err(ProtocolError::UnknownMessageCode(code))
}

/// What parsing a complete frame yields: the declared length is read from
/// the first four bytes, exactly that many payload bytes must be present,
/// and the consumed byte count is 4 plus the declared length.
pub open spec fn frame_parse(data: Seq<u8>) -> Result<(MessageV, int), ProtocolErrorV> {
    if data.len() < 4 {
        Err(insufficient(4, data.len() as int))
    } else {
        let n = be_u32_at(data, 0) as int;
        if data.len() < 4 + n {
            Err(insufficient(4 + n, data.len() as int))
        } else {
            match msg_parse(data.subrange(4, 4 + n)) {
                Ok(m) => Ok((m, 4 + n)),
                Err(e) => Err(e),
            }
        }
    }
}

/// Parse a complete message including the 4-byte length prefix.
///
/// Returns the parsed message and the number of bytes consumed, which is
/// exactly 4 plus the declared payload length.
pub fn parse_message_with_length(data: &[u8]) -> (r: Result<(Message, usize), ProtocolError>)
    ensures
        match r {
            Ok((m, consumed)) => frame_parse(data@) == Ok::<(MessageV, int), ProtocolErrorV>(
                (m@, consumed as int),
            ) && consumed as int == 4 + be_u32_at(data@, 0) as int,
            Err(e) => frame_parse(data@) == Err::<(MessageV, int), ProtocolErrorV>(e@),
        },
{
    if data.len() < 4 {
        return Err(ProtocolError::InsufficientData { expected: 4, actual: data.len() });
    }
    let length = match read_u32(data, 0) {
        Ok(v) => v as usize,
        Err(e) => {
            return Err(e);
        },
    };
    if data.len() - 4 < length {
        return Err(ProtocolError::InsufficientData {
            expected: sat_add(4, length),
            actual: data.len(),
        });
    }
    let total_size = 4 + length;
    match parse_message(slice_subrange(data, 4, total_size)) {
        Ok(msg) => Ok((msg, total_size)),
        Err(e) => Err(e),
    }
}

} // verus!
