//! Protocol-level API for parsing and serializing Synergy/Deskflow protocol
//! messages.
//!
//! The wire format is a simple binary one: each message consists of a 4-byte
//! big-endian length prefix followed by the message data, which starts with a
//! 4-character ASCII code (7 characters for the two Hello messages) and
//! continues with fields depending on the message type.  All multi-byte
//! integers are big-endian; strings are carried as a 4-byte big-endian byte
//! count followed by that many bytes of UTF-8 text.
//!
//! Every message type implements [`ProtocolMessage`], which ties the
//! executable `from_bytes`/`to_bytes` to a specification-level codec:
//! [`ProtocolMessage::spec_parse`] and [`ProtocolMessage::spec_encode`]
//! describe the exact bytes, and each implementation carries a proof
//! ([`ProtocolMessage::lemma_parse_encode`]) that decoding an encoded message
//! yields the message back.  The [`Message`] enum covers all message types for
//! polymorphic handling, with [`parse_message`] and
//! [`parse_message_with_length`] as entry points.

pub mod model;
pub mod wire;
pub mod control;
pub mod input;
pub mod data;
pub mod options;
pub mod message;
pub mod framing;
pub mod laws;

pub use model::{ProtocolErrorV, HelloV, KeyDownWithLanguageV, KeyRepeatV,
    ClipboardDataV, FileTransferV, DragInfoV, SecureEncryptionV, LegacySynergyV};
pub use wire::{ProtocolError, ProtocolMessage, LengthPrefixedString, PROTOCOL_MAJOR,
    PROTOCOL_MINOR};
pub use input::{MessageKeyDownWithLanguage, MessageKeyDown, MessageKeyRepeat, MessageKeyUp,
    MessageMouseButtonDown, MessageMouseButtonUp, MessageMouseMove, MessageMouseRelativeMove,
    MessageMouseWheel};
pub use options::{DsopOption, MessageSetOptions};
pub use message::{Message, MessageV, parse_message, parse_message_with_length};
pub use framing::FrameAccumulator;
pub use data::{MessageClipboardData, MessageClientInfo, MessageFileTransfer, MessageDragInfo,
    MessageSecureEncryption, MessageLegacySynergy};
pub use control::{MessageHelloBarrier, MessageHelloSynergy, MessageNoOp, MessageClose,
    MessageCursorEntered, MessageCursorLeft, MessageClientClipboard, MessageScreenSaverChange,
    MessageResetOptions, MessageInfoAcknowledgment, MessageKeepAlive, MessageQueryInfo,
    MessageIncompatibleVersion, MessageServerBusy, MessageUnknownClient, MessageProtocolError};
