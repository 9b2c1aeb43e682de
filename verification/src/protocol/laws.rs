//! Crate-level laws of the codec, proved once for every message type:
//! encoding then parsing a message yields the message back, both for bare
//! payloads and for complete frames; truncating a frame anywhere short of
//! its end parses to an `InsufficientData` error; and the set-options
//! message's element count is one more than twice its pair count.

use vstd::prelude::*;
use vstd::string::StringSliceAdditionalSpecFns;
use vstd::utf8::{valid_utf8, encode_utf8_valid_utf8};

use crate::protocol::model::{ProtocolErrorV, insufficient, be_u32_at, lemma_ascii_code,
    lemma_u32_be_roundtrip};
use crate::protocol::wire::ProtocolMessage;
use crate::protocol::control::{MessageHelloBarrier, MessageHelloSynergy, MessageNoOp,
    MessageClose, MessageCursorEntered, MessageCursorLeft, MessageClientClipboard,
    MessageScreenSaverChange, MessageResetOptions, MessageInfoAcknowledgment, MessageKeepAlive,
    MessageQueryInfo, MessageIncompatibleVersion, MessageServerBusy, MessageUnknownClient,
    MessageProtocolError};
use crate::protocol::input::{MessageKeyDownWithLanguage, MessageKeyDown, MessageKeyRepeat,
    MessageKeyUp, MessageMouseButtonDown, MessageMouseButtonUp, MessageMouseMove,
    MessageMouseRelativeMove, MessageMouseWheel};
use crate::protocol::data::{MessageClipboardData, MessageClientInfo, MessageFileTransfer,
    MessageDragInfo, MessageSecureEncryption, MessageLegacySynergy};
use crate::protocol::options::MessageSetOptions;
use crate::protocol::message::{MessageV, msg_payload, msg_wf, msg_parse, frame_encode,
    frame_parse};

verus! {

/// Two byte sequences that differ at one index differ.
proof fn lemma_bytes_differ(a: Seq<u8>, b: Seq<u8>, j: int)
    requires
        0 <= j,
        j < a.len(),
        j < b.len(),
        a[j] != b[j],
    ensures
        a != b,
{
    assert(a == b ==> a[j] == b[j]);
}

#[verifier::rlimit(100)]
proof fn lemma_roundtrip_hellobarrier(m: <MessageHelloBarrier as View>::V)
    requires
        MessageHelloBarrier::spec_encode(m).len() <= u32::MAX,
    ensures
        msg_parse(MessageHelloBarrier::spec_encode(m)) == Ok::<MessageV, ProtocolErrorV>(MessageV::HelloBarrier(m)),
{
    reveal_strlit("Barrier");
    lemma_ascii_code("Barrier");
    MessageHelloBarrier::lemma_parse_encode(m);
    let enc = MessageHelloBarrier::spec_encode(m);
    let four = enc.subrange(0, 4);
    reveal_strlit("CNOP");
    lemma_ascii_code("CNOP");
    reveal_strlit("CBYE");
    lemma_ascii_code("CBYE");
    reveal_strlit("CINN");
    lemma_ascii_code("CINN");
    reveal_strlit("COUT");
    lemma_ascii_code("COUT");
    reveal_strlit("CCLP");
    lemma_ascii_code("CCLP");
    reveal_strlit("CSEC");
    lemma_ascii_code("CSEC");
    reveal_strlit("CROP");
    lemma_ascii_code("CROP");
    reveal_strlit("CIAK");
    lemma_ascii_code("CIAK");
    reveal_strlit("CALV");
    lemma_ascii_code("CALV");
    reveal_strlit("DKDL");
    lemma_ascii_code("DKDL");
    reveal_strlit("DKDN");
    lemma_ascii_code("DKDN");
    reveal_strlit("DKRP");
    lemma_ascii_code("DKRP");
    reveal_strlit("DKUP");
    lemma_ascii_code("DKUP");
    reveal_strlit("DMDN");
    lemma_ascii_code("DMDN");
    reveal_strlit("DMUP");
    lemma_ascii_code("DMUP");
    reveal_strlit("DMMV");
    lemma_ascii_code("DMMV");
    reveal_strlit("DMRM");
    lemma_ascii_code("DMRM");
    reveal_strlit("DMWM");
    lemma_ascii_code("DMWM");
    reveal_strlit("DCLP");
    lemma_ascii_code("DCLP");
    reveal_strlit("DINF");
    lemma_ascii_code("DINF");
    reveal_strlit("DSOP");
    lemma_ascii_code("DSOP");
    reveal_strlit("DFTR");
    lemma_ascii_code("DFTR");
    reveal_strlit("DDRG");
    lemma_ascii_code("DDRG");
    reveal_strlit("SECN");
    lemma_ascii_code("SECN");
    reveal_strlit("LSYN");
    lemma_ascii_code("LSYN");
    reveal_strlit("QINF");
    lemma_ascii_code("QINF");
    reveal_strlit("EICV");
    lemma_ascii_code("EICV");
    reveal_strlit("EBSY");
    lemma_ascii_code("EBSY");
    reveal_strlit("EUNK");
    lemma_ascii_code("EUNK");
    reveal_strlit("EBAD");
    lemma_ascii_code("EBAD");
    let seven = enc.subrange(0, 7);
    assert(seven =~= "Barrier".spec_bytes());
    reveal_strlit("Barr");
    lemma_ascii_code("Barr");
    encode_utf8_valid_utf8("Barr"@);
    assert(four =~= "Barr".spec_bytes());
    assert(valid_utf8(four));
    lemma_bytes_differ(four, "CNOP".spec_bytes(), 0);
    lemma_bytes_differ(four, "CBYE".spec_bytes(), 0);
    lemma_bytes_differ(four, "CINN".spec_bytes(), 0);
    lemma_bytes_differ(four, "COUT".spec_bytes(), 0);
    lemma_bytes_differ(four, "CCLP".spec_bytes(), 0);
    lemma_bytes_differ(four, "CSEC".spec_bytes(), 0);
    lemma_bytes_differ(four, "CROP".spec_bytes(), 0);
    lemma_bytes_differ(four, "CIAK".spec_bytes(), 0);
    lemma_bytes_differ(four, "CALV".spec_bytes(), 0);
    lemma_bytes_differ(four, "DKDL".spec_bytes(), 0);
    lemma_bytes_differ(four, "DKDN".spec_bytes(), 0);
    lemma_bytes_differ(four, "DKRP".spec_bytes(), 0);
    lemma_bytes_differ(four, "DKUP".spec_bytes(), 0);
    lemma_bytes_differ(four, "DMDN".spec_bytes(), 0);
    lemma_bytes_differ(four, "DMUP".spec_bytes(), 0);
    lemma_bytes_differ(four, "DMMV".spec_bytes(), 0);
    lemma_bytes_differ(four, "DMRM".spec_bytes(), 0);
    lemma_bytes_differ(four, "DMWM".spec_bytes(), 0);
    lemma_bytes_differ(four, "DCLP".spec_bytes(), 0);
    lemma_bytes_differ(four, "DINF".spec_bytes(), 0);
    lemma_bytes_differ(four, "DSOP".spec_bytes(), 0);
    lemma_bytes_differ(four, "DFTR".spec_bytes(), 0);
    lemma_bytes_differ(four, "DDRG".spec_bytes(), 0);
    lemma_bytes_differ(four, "SECN".spec_bytes(), 0);
    lemma_bytes_differ(four, "LSYN".spec_bytes(), 0);
    lemma_bytes_differ(four, "QINF".spec_bytes(), 0);
    lemma_bytes_differ(four, "EICV".spec_bytes(), 0);
    lemma_bytes_differ(four, "EBSY".spec_bytes(), 0);
    lemma_bytes_differ(four, "EUNK".spec_bytes(), 0);
    lemma_bytes_differ(four, "EBAD".spec_bytes(), 0);
}

#[verifier::rlimit(100)]
proof fn lemma_roundtrip_hellosynergy(m: <MessageHelloSynergy as View>::V)
    requires
        MessageHelloSynergy::spec_encode(m).len() <= u32::MAX,
    ensures
        msg_parse(MessageHelloSynergy::spec_encode(m)) == Ok::<MessageV, ProtocolErrorV>(MessageV::HelloSynergy(m)),
{
    reveal_strlit("Synergy");
    lemma_ascii_code("Synergy");
    MessageHelloSynergy::lemma_parse_encode(m);
    let enc = MessageHelloSynergy::spec_encode(m);
    let four = enc.subrange(0, 4);
    reveal_strlit("CNOP");
    lemma_ascii_code("CNOP");
    reveal_strlit("CBYE");
    lemma_ascii_code("CBYE");
    reveal_strlit("CINN");
    lemma_ascii_code("CINN");
    reveal_strlit("COUT");
    lemma_ascii_code("COUT");
    reveal_strlit("CCLP");
    lemma_ascii_code("CCLP");
    reveal_strlit("CSEC");
    lemma_ascii_code("CSEC");
    reveal_strlit("CROP");
    lemma_ascii_code("CROP");
    reveal_strlit("CIAK");
    lemma_ascii_code("CIAK");
    reveal_strlit("CALV");
    lemma_ascii_code("CALV");
    reveal_strlit("DKDL");
    lemma_ascii_code("DKDL");
    reveal_strlit("DKDN");
    lemma_ascii_code("DKDN");
    reveal_strlit("DKRP");
    lemma_ascii_code("DKRP");
    reveal_strlit("DKUP");
    lemma_ascii_code("DKUP");
    reveal_strlit("DMDN");
    lemma_ascii_code("DMDN");
    reveal_strlit("DMUP");
    lemma_ascii_code("DMUP");
    reveal_strlit("DMMV");
    lemma_ascii_code("DMMV");
    reveal_strlit("DMRM");
    lemma_ascii_code("DMRM");
    reveal_strlit("DMWM");
    lemma_ascii_code("DMWM");
    reveal_strlit("DCLP");
    lemma_ascii_code("DCLP");
    reveal_strlit("DINF");
    lemma_ascii_code("DINF");
    reveal_strlit("DSOP");
    lemma_ascii_code("DSOP");
    reveal_strlit("DFTR");
    lemma_ascii_code("DFTR");
    reveal_strlit("DDRG");
    lemma_ascii_code("DDRG");
    reveal_strlit("SECN");
    lemma_ascii_code("SECN");
    reveal_strlit("LSYN");
    lemma_ascii_code("LSYN");
    reveal_strlit("QINF");
    lemma_ascii_code("QINF");
    reveal_strlit("EICV");
    lemma_ascii_code("EICV");
    reveal_strlit("EBSY");
    lemma_ascii_code("EBSY");
    reveal_strlit("EUNK");
    lemma_ascii_code("EUNK");
    reveal_strlit("EBAD");
    lemma_ascii_code("EBAD");
    reveal_strlit("Barrier");
    lemma_ascii_code("Barrier");
    let seven = enc.subrange(0, 7);
    assert(seven =~= "Synergy".spec_bytes());
    reveal_strlit("Syne");
    lemma_ascii_code("Syne");
    encode_utf8_valid_utf8("Syne"@);
    assert(four =~= "Syne".spec_bytes());
    assert(valid_utf8(four));
    lemma_bytes_differ(four, "CNOP".spec_bytes(), 0);
    lemma_bytes_differ(four, "CBYE".spec_bytes(), 0);
    lemma_bytes_differ(four, "CINN".spec_bytes(), 0);
    lemma_bytes_differ(four, "COUT".spec_bytes(), 0);
    lemma_bytes_differ(four, "CCLP".spec_bytes(), 0);
    lemma_bytes_differ(four, "CSEC".spec_bytes(), 0);
    lemma_bytes_differ(four, "CROP".spec_bytes(), 0);
    lemma_bytes_differ(four, "CIAK".spec_bytes(), 0);
    lemma_bytes_differ(four, "CALV".spec_bytes(), 0);
    lemma_bytes_differ(four, "DKDL".spec_bytes(), 0);
    lemma_bytes_differ(four, "DKDN".spec_bytes(), 0);
    lemma_bytes_differ(four, "DKRP".spec_bytes(), 0);
    lemma_bytes_differ(four, "DKUP".spec_bytes(), 0);
    lemma_bytes_differ(four, "DMDN".spec_bytes(), 0);
    lemma_bytes_differ(four, "DMUP".spec_bytes(), 0);
    lemma_bytes_differ(four, "DMMV".spec_bytes(), 0);
    lemma_bytes_differ(four, "DMRM".spec_bytes(), 0);
    lemma_bytes_differ(four, "DMWM".spec_bytes(), 0);
    lemma_bytes_differ(four, "DCLP".spec_bytes(), 0);
    lemma_bytes_differ(four, "DINF".spec_bytes(), 0);
    lemma_bytes_differ(four, "DSOP".spec_bytes(), 0);
    lemma_bytes_differ(four, "DFTR".spec_bytes(), 0);
    lemma_bytes_differ(four, "DDRG".spec_bytes(), 0);
    lemma_bytes_differ(four, "SECN".spec_bytes(), 1);
    lemma_bytes_differ(four, "LSYN".spec_bytes(), 0);
    lemma_bytes_differ(four, "QINF".spec_bytes(), 0);
    lemma_bytes_differ(four, "EICV".spec_bytes(), 0);
    lemma_bytes_differ(four, "EBSY".spec_bytes(), 0);
    lemma_bytes_differ(four, "EUNK".spec_bytes(), 0);
    lemma_bytes_differ(four, "EBAD".spec_bytes(), 0);
    lemma_bytes_differ(seven, "Barrier".spec_bytes(), 0);
}

#[verifier::rlimit(100)]
proof fn lemma_roundtrip_noop(m: <MessageNoOp as View>::V)
    requires
        MessageNoOp::spec_encode(m).len() <= u32::MAX,
    ensures
        msg_parse(MessageNoOp::spec_encode(m)) == Ok::<MessageV, ProtocolErrorV>(MessageV::NoOp(m)),
{
    reveal_strlit("CNOP");
    lemma_ascii_code("CNOP");
    MessageNoOp::lemma_parse_encode(m);
    let enc = MessageNoOp::spec_encode(m);
    let four = enc.subrange(0, 4);
    encode_utf8_valid_utf8("CNOP"@);
    assert(four =~= "CNOP".spec_bytes());
    assert(valid_utf8(four));
}

#[verifier::rlimit(100)]
proof fn lemma_roundtrip_close(m: <MessageClose as View>::V)
    requires
        MessageClose::spec_encode(m).len() <= u32::MAX,
    ensures
        msg_parse(MessageClose::spec_encode(m)) == Ok::<MessageV, ProtocolErrorV>(MessageV::Close(m)),
{
    reveal_strlit("CBYE");
    lemma_ascii_code("CBYE");
    MessageClose::lemma_parse_encode(m);
    let enc = MessageClose::spec_encode(m);
    let four = enc.subrange(0, 4);
    reveal_strlit("CNOP");
    lemma_ascii_code("CNOP");
    encode_utf8_valid_utf8("CBYE"@);
    assert(four =~= "CBYE".spec_bytes());
    assert(valid_utf8(four));
    lemma_bytes_differ(four, "CNOP".spec_bytes(), 1);
}

#[verifier::rlimit(100)]
proof fn lemma_roundtrip_cursorentered(m: <MessageCursorEntered as View>::V)
    requires
        MessageCursorEntered::spec_encode(m).len() <= u32::MAX,
    ensures
        msg_parse(MessageCursorEntered::spec_encode(m)) == Ok::<MessageV, ProtocolErrorV>(MessageV::CursorEntered(m)),
{
    reveal_strlit("CINN");
    lemma_ascii_code("CINN");
    MessageCursorEntered::lemma_parse_encode(m);
    let enc = MessageCursorEntered::spec_encode(m);
    let four = enc.subrange(0, 4);
    reveal_strlit("CNOP");
    lemma_ascii_code("CNOP");
    reveal_strlit("CBYE");
    lemma_ascii_code("CBYE");
    encode_utf8_valid_utf8("CINN"@);
    assert(four =~= "CINN".spec_bytes());
    assert(valid_utf8(four));
    lemma_bytes_differ(four, "CNOP".spec_bytes(), 1);
    lemma_bytes_differ(four, "CBYE".spec_bytes(), 1);
}

#[verifier::rlimit(100)]
proof fn lemma_roundtrip_cursorleft(m: <MessageCursorLeft as View>::V)
    requires
        MessageCursorLeft::spec_encode(m).len() <= u32::MAX,
    ensures
        msg_parse(MessageCursorLeft::spec_encode(m)) == Ok::<MessageV, ProtocolErrorV>(MessageV::CursorLeft(m)),
{
    reveal_strlit("COUT");
    lemma_ascii_code("COUT");
    MessageCursorLeft::lemma_parse_encode(m);
    let enc = MessageCursorLeft::spec_encode(m);
    let four = enc.subrange(0, 4);
    reveal_strlit("CNOP");
    lemma_ascii_code("CNOP");
    reveal_strlit("CBYE");
    lemma_ascii_code("CBYE");
    reveal_strlit("CINN");
    lemma_ascii_code("CINN");
    encode_utf8_valid_utf8("COUT"@);
    assert(four =~= "COUT".spec_bytes());
    assert(valid_utf8(four));
    lemma_bytes_differ(four, "CNOP".spec_bytes(), 1);
    lemma_bytes_differ(four, "CBYE".spec_bytes(), 1);
    lemma_bytes_differ(four, "CINN".spec_bytes(), 1);
}

#[verifier::rlimit(100)]
proof fn lemma_roundtrip_clientclipboard(m: <MessageClientClipboard as View>::V)
    requires
        MessageClientClipboard::spec_encode(m).len() <= u32::MAX,
    ensures
        msg_parse(MessageClientClipboard::spec_encode(m)) == Ok::<MessageV, ProtocolErrorV>(MessageV::ClientClipboard(m)),
{
    reveal_strlit("CCLP");
    lemma_ascii_code("CCLP");
    MessageClientClipboard::lemma_parse_encode(m);
    let enc = MessageClientClipboard::spec_encode(m);
    let four = enc.subrange(0, 4);
    reveal_strlit("CNOP");
    lemma_ascii_code("CNOP");
    reveal_strlit("CBYE");
    lemma_ascii_code("CBYE");
    reveal_strlit("CINN");
    lemma_ascii_code("CINN");
    reveal_strlit("COUT");
    lemma_ascii_code("COUT");
    encode_utf8_valid_utf8("CCLP"@);
    assert(four =~= "CCLP".spec_bytes());
    assert(valid_utf8(four));
    lemma_bytes_differ(four, "CNOP".spec_bytes(), 1);
    lemma_bytes_differ(four, "CBYE".spec_bytes(), 1);
    lemma_bytes_differ(four, "CINN".spec_bytes(), 1);
    lemma_bytes_differ(four, "COUT".spec_bytes(), 1);
}

#[verifier::rlimit(100)]
proof fn lemma_roundtrip_screensaverchange(m: <MessageScreenSaverChange as View>::V)
    requires
        MessageScreenSaverChange::spec_encode(m).len() <= u32::MAX,
    ensures
        msg_parse(MessageScreenSaverChange::spec_encode(m)) == Ok::<MessageV, ProtocolErrorV>(MessageV::ScreenSaverChange(m)),
{
    reveal_strlit("CSEC");
    lemma_ascii_code("CSEC");
    MessageScreenSaverChange::lemma_parse_encode(m);
    let enc = MessageScreenSaverChange::spec_encode(m);
    let four = enc.subrange(0, 4);
    reveal_strlit("CNOP");
    lemma_ascii_code("CNOP");
    reveal_strlit("CBYE");
    lemma_ascii_code("CBYE");
    reveal_strlit("CINN");
    lemma_ascii_code("CINN");
    reveal_strlit("COUT");
    lemma_ascii_code("COUT");
    reveal_strlit("CCLP");
    lemma_ascii_code("CCLP");
    encode_utf8_valid_utf8("CSEC"@);
    assert(four =~= "CSEC".spec_bytes());
    assert(valid_utf8(four));
    lemma_bytes_differ(four, "CNOP".spec_bytes(), 1);
    lemma_bytes_differ(four, "CBYE".spec_bytes(), 1);
    lemma_bytes_differ(four, "CINN".spec_bytes(), 1);
    lemma_bytes_differ(four, "COUT".spec_bytes(), 1);
    lemma_bytes_differ(four, "CCLP".spec_bytes(), 1);
}

#[verifier::rlimit(100)]
proof fn lemma_roundtrip_resetoptions(m: <MessageResetOptions as View>::V)
    requires
        MessageResetOptions::spec_encode(m).len() <= u32::MAX,
    ensures
        msg_parse(MessageResetOptions::spec_encode(m)) == Ok::<MessageV, ProtocolErrorV>(MessageV::ResetOptions(m)),
{
    reveal_strlit("CROP");
    lemma_ascii_code("CROP");
    MessageResetOptions::lemma_parse_encode(m);
    let enc = MessageResetOptions::spec_encode(m);
    let four = enc.subrange(0, 4);
    reveal_strlit("CNOP");
    lemma_ascii_code("CNOP");
    reveal_strlit("CBYE");
    lemma_ascii_code("CBYE");
    reveal_strlit("CINN");
    lemma_ascii_code("CINN");
    reveal_strlit("COUT");
    lemma_ascii_code("COUT");
    reveal_strlit("CCLP");
    lemma_ascii_code("CCLP");
    reveal_strlit("CSEC");
    lemma_ascii_code("CSEC");
    encode_utf8_valid_utf8("CROP"@);
    assert(four =~= "CROP".spec_bytes());
    assert(valid_utf8(four));
    lemma_bytes_differ(four, "CNOP".spec_bytes(), 1);
    lemma_bytes_differ(four, "CBYE".spec_bytes(), 1);
    lemma_bytes_differ(four, "CINN".spec_bytes(), 1);
    lemma_bytes_differ(four, "COUT".spec_bytes(), 1);
    lemma_bytes_differ(four, "CCLP".spec_bytes(), 1);
    lemma_bytes_differ(four, "CSEC".spec_bytes(), 1);
}

#[verifier::rlimit(100)]
proof fn lemma_roundtrip_infoacknowledgment(m: <MessageInfoAcknowledgment as View>::V)
    requires
        MessageInfoAcknowledgment::spec_encode(m).len() <= u32::MAX,
    ensures
        msg_parse(MessageInfoAcknowledgment::spec_encode(m)) == Ok::<MessageV, ProtocolErrorV>(MessageV::InfoAcknowledgment(m)),
{
    reveal_strlit("CIAK");
    lemma_ascii_code("CIAK");
    MessageInfoAcknowledgment::lemma_parse_encode(m);
    let enc = MessageInfoAcknowledgment::spec_encode(m);
    let four = enc.subrange(0, 4);
    reveal_strlit("CNOP");
    lemma_ascii_code("CNOP");
    reveal_strlit("CBYE");
    lemma_ascii_code("CBYE");
    reveal_strlit("CINN");
    lemma_ascii_code("CINN");
    reveal_strlit("COUT");
    lemma_ascii_code("COUT");
    reveal_strlit("CCLP");
    lemma_ascii_code("CCLP");
    reveal_strlit("CSEC");
    lemma_ascii_code("CSEC");
    reveal_strlit("CROP");
    lemma_ascii_code("CROP");
    encode_utf8_valid_utf8("CIAK"@);
    assert(four =~= "CIAK".spec_bytes());
    assert(valid_utf8(four));
    lemma_bytes_differ(four, "CNOP".spec_bytes(), 1);
    lemma_bytes_differ(four, "CBYE".spec_bytes(), 1);
    lemma_bytes_differ(four, "CINN".spec_bytes(), 2);
    lemma_bytes_differ(four, "COUT".spec_bytes(), 1);
    lemma_bytes_differ(four, "CCLP".spec_bytes(), 1);
    lemma_bytes_differ(four, "CSEC".spec_bytes(), 1);
    lemma_bytes_differ(four, "CROP".spec_bytes(), 1);
}

#[verifier::rlimit(100)]
proof fn lemma_roundtrip_keepalive(m: <MessageKeepAlive as View>::V)
    requires
        MessageKeepAlive::spec_encode(m).len() <= u32::MAX,
    ensures
        msg_parse(MessageKeepAlive::spec_encode(m)) == Ok::<MessageV, ProtocolErrorV>(MessageV::KeepAlive(m)),
{
    reveal_strlit("CALV");
    lemma_ascii_code("CALV");
    MessageKeepAlive::lemma_parse_encode(m);
    let enc = MessageKeepAlive::spec_encode(m);
    let four = enc.subrange(0, 4);
    reveal_strlit("CNOP");
    lemma_ascii_code("CNOP");
    reveal_strlit("CBYE");
    lemma_ascii_code("CBYE");
    reveal_strlit("CINN");
    lemma_ascii_code("CINN");
    reveal_strlit("COUT");
    lemma_ascii_code("COUT");
    reveal_strlit("CCLP");
    lemma_ascii_code("CCLP");
    reveal_strlit("CSEC");
    lemma_ascii_code("CSEC");
    reveal_strlit("CROP");
    lemma_ascii_code("CROP");
    reveal_strlit("CIAK");
    lemma_ascii_code("CIAK");
    encode_utf8_valid_utf8("CALV"@);
    assert(four =~= "CALV".spec_bytes());
    assert(valid_utf8(four));
    lemma_bytes_differ(four, "CNOP".spec_bytes(), 1);
    lemma_bytes_differ(four, "CBYE".spec_bytes(), 1);
    lemma_bytes_differ(four, "CINN".spec_bytes(), 1);
    lemma_bytes_differ(four, "COUT".spec_bytes(), 1);
    lemma_bytes_differ(four, "CCLP".spec_bytes(), 1);
    lemma_bytes_differ(four, "CSEC".spec_bytes(), 1);
    lemma_bytes_differ(four, "CROP".spec_bytes(), 1);
    lemma_bytes_differ(four, "CIAK".spec_bytes(), 1);
}

#[verifier::rlimit(100)]
proof fn lemma_roundtrip_keydownwithlanguage(m: <MessageKeyDownWithLanguage as View>::V)
    requires
        MessageKeyDownWithLanguage::spec_encode(m).len() <= u32::MAX,
    ensures
        msg_parse(MessageKeyDownWithLanguage::spec_encode(m)) == Ok::<MessageV, ProtocolErrorV>(MessageV::KeyDownWithLanguage(m)),
{
    reveal_strlit("DKDL");
    lemma_ascii_code("DKDL");
    MessageKeyDownWithLanguage::lemma_parse_encode(m);
    let enc = MessageKeyDownWithLanguage::spec_encode(m);
    let four = enc.subrange(0, 4);
    reveal_strlit("CNOP");
    lemma_ascii_code("CNOP");
    reveal_strlit("CBYE");
    lemma_ascii_code("CBYE");
    reveal_strlit("CINN");
    lemma_ascii_code("CINN");
    reveal_strlit("COUT");
    lemma_ascii_code("COUT");
    reveal_strlit("CCLP");
    lemma_ascii_code("CCLP");
    reveal_strlit("CSEC");
    lemma_ascii_code("CSEC");
    reveal_strlit("CROP");
    lemma_ascii_code("CROP");
    reveal_strlit("CIAK");
    lemma_ascii_code("CIAK");
    reveal_strlit("CALV");
    lemma_ascii_code("CALV");
    encode_utf8_valid_utf8("DKDL"@);
    assert(four =~= "DKDL".spec_bytes());
    assert(valid_utf8(four));
    lemma_bytes_differ(four, "CNOP".spec_bytes(), 0);
    lemma_bytes_differ(four, "CBYE".spec_bytes(), 0);
    lemma_bytes_differ(four, "CINN".spec_bytes(), 0);
    lemma_bytes_differ(four, "COUT".spec_bytes(), 0);
    lemma_bytes_differ(four, "CCLP".spec_bytes(), 0);
    lemma_bytes_differ(four, "CSEC".spec_bytes(), 0);
    lemma_bytes_differ(four, "CROP".spec_bytes(), 0);
    lemma_bytes_differ(four, "CIAK".spec_bytes(), 0);
    lemma_bytes_differ(four, "CALV".spec_bytes(), 0);
}

#[verifier::rlimit(100)]
proof fn lemma_roundtrip_keydown(m: <MessageKeyDown as View>::V)
    requires
        MessageKeyDown::spec_encode(m).len() <= u32::MAX,
    ensures
        msg_parse(MessageKeyDown::spec_encode(m)) == Ok::<MessageV, ProtocolErrorV>(MessageV::KeyDown(m)),
{
    reveal_strlit("DKDN");
    lemma_ascii_code("DKDN");
    MessageKeyDown::lemma_parse_encode(m);
    let enc = MessageKeyDown::spec_encode(m);
    let four = enc.subrange(0, 4);
    reveal_strlit("CNOP");
    lemma_ascii_code("CNOP");
    reveal_strlit("CBYE");
    lemma_ascii_code("CBYE");
    reveal_strlit("CINN");
    lemma_ascii_code("CINN");
    reveal_strlit("COUT");
    lemma_ascii_code("COUT");
    reveal_strlit("CCLP");
    lemma_ascii_code("CCLP");
    reveal_strlit("CSEC");
    lemma_ascii_code("CSEC");
    reveal_strlit("CROP");
    lemma_ascii_code("CROP");
    reveal_strlit("CIAK");
    lemma_ascii_code("CIAK");
    reveal_strlit("CALV");
    lemma_ascii_code("CALV");
    reveal_strlit("DKDL");
    lemma_ascii_code("DKDL");
    encode_utf8_valid_utf8("DKDN"@);
    assert(four =~= "DKDN".spec_bytes());
    assert(valid_utf8(four));
    lemma_bytes_differ(four, "CNOP".spec_bytes(), 0);
    lemma_bytes_differ(four, "CBYE".spec_bytes(), 0);
    lemma_bytes_differ(four, "CINN".spec_bytes(), 0);
    lemma_bytes_differ(four, "COUT".spec_bytes(), 0);
    lemma_bytes_differ(four, "CCLP".spec_bytes(), 0);
    lemma_bytes_differ(four, "CSEC".spec_bytes(), 0);
    lemma_bytes_differ(four, "CROP".spec_bytes(), 0);
    lemma_bytes_differ(four, "CIAK".spec_bytes(), 0);
    lemma_bytes_differ(four, "CALV".spec_bytes(), 0);
    lemma_bytes_differ(four, "DKDL".spec_bytes(), 3);
}

#[verifier::rlimit(100)]
proof fn lemma_roundtrip_keyrepeat(m: <MessageKeyRepeat as View>::V)
    requires
        MessageKeyRepeat::spec_encode(m).len() <= u32::MAX,
    ensures
        msg_parse(MessageKeyRepeat::spec_encode(m)) == Ok::<MessageV, ProtocolErrorV>(MessageV::KeyRepeat(m)),
{
    reveal_strlit("DKRP");
    lemma_ascii_code("DKRP");
    MessageKeyRepeat::lemma_parse_encode(m);
    let enc = MessageKeyRepeat::spec_encode(m);
    let four = enc.subrange(0, 4);
    reveal_strlit("CNOP");
    lemma_ascii_code("CNOP");
    reveal_strlit("CBYE");
    lemma_ascii_code("CBYE");
    reveal_strlit("CINN");
    lemma_ascii_code("CINN");
    reveal_strlit("COUT");
    lemma_ascii_code("COUT");
    reveal_strlit("CCLP");
    lemma_ascii_code("CCLP");
    reveal_strlit("CSEC");
    lemma_ascii_code("CSEC");
    reveal_strlit("CROP");
    lemma_ascii_code("CROP");
    reveal_strlit("CIAK");
    lemma_ascii_code("CIAK");
    reveal_strlit("CALV");
    lemma_ascii_code("CALV");
    reveal_strlit("DKDL");
    lemma_ascii_code("DKDL");
    reveal_strlit("DKDN");
    lemma_ascii_code("DKDN");
    encode_utf8_valid_utf8("DKRP"@);
    assert(four =~= "DKRP".spec_bytes());
    assert(valid_utf8(four));
    lemma_bytes_differ(four, "CNOP".spec_bytes(), 0);
    lemma_bytes_differ(four, "CBYE".spec_bytes(), 0);
    lemma_bytes_differ(four, "CINN".spec_bytes(), 0);
    lemma_bytes_differ(four, "COUT".spec_bytes(), 0);
    lemma_bytes_differ(four, "CCLP".spec_bytes(), 0);
    lemma_bytes_differ(four, "CSEC".spec_bytes(), 0);
    lemma_bytes_differ(four, "CROP".spec_bytes(), 0);
    lemma_bytes_differ(four, "CIAK".spec_bytes(), 0);
    lemma_bytes_differ(four, "CALV".spec_bytes(), 0);
    lemma_bytes_differ(four, "DKDL".spec_bytes(), 2);
    lemma_bytes_differ(four, "DKDN".spec_bytes(), 2);
}

#[verifier::rlimit(100)]
proof fn lemma_roundtrip_keyup(m: <MessageKeyUp as View>::V)
    requires
        MessageKeyUp::spec_encode(m).len() <= u32::MAX,
    ensures
        msg_parse(MessageKeyUp::spec_encode(m)) == Ok::<MessageV, ProtocolErrorV>(MessageV::KeyUp(m)),
{
    reveal_strlit("DKUP");
    lemma_ascii_code("DKUP");
    MessageKeyUp::lemma_parse_encode(m);
    let enc = MessageKeyUp::spec_encode(m);
    let four = enc.subrange(0, 4);
    reveal_strlit("CNOP");
    lemma_ascii_code("CNOP");
    reveal_strlit("CBYE");
    lemma_ascii_code("CBYE");
    reveal_strlit("CINN");
    lemma_ascii_code("CINN");
    reveal_strlit("COUT");
    lemma_ascii_code("COUT");
    reveal_strlit("CCLP");
    lemma_ascii_code("CCLP");
    reveal_strlit("CSEC");
    lemma_ascii_code("CSEC");
    reveal_strlit("CROP");
    lemma_ascii_code("CROP");
    reveal_strlit("CIAK");
    lemma_ascii_code("CIAK");
    reveal_strlit("CALV");
    lemma_ascii_code("CALV");
    reveal_strlit("DKDL");
    lemma_ascii_code("DKDL");
    reveal_strlit("DKDN");
    lemma_ascii_code("DKDN");
    reveal_strlit("DKRP");
    lemma_ascii_code("DKRP");
    encode_utf8_valid_utf8("DKUP"@);
    assert(four =~= "DKUP".spec_bytes());
    assert(valid_utf8(four));
    lemma_bytes_differ(four, "CNOP".spec_bytes(), 0);
    lemma_bytes_differ(four, "CBYE".spec_bytes(), 0);
    lemma_bytes_differ(four, "CINN".spec_bytes(), 0);
    lemma_bytes_differ(four, "COUT".spec_bytes(), 0);
    lemma_bytes_differ(four, "CCLP".spec_bytes(), 0);
    lemma_bytes_differ(four, "CSEC".spec_bytes(), 0);
    lemma_bytes_differ(four, "CROP".spec_bytes(), 0);
    lemma_bytes_differ(four, "CIAK".spec_bytes(), 0);
    lemma_bytes_differ(four, "CALV".spec_bytes(), 0);
    lemma_bytes_differ(four, "DKDL".spec_bytes(), 2);
    lemma_bytes_differ(four, "DKDN".spec_bytes(), 2);
    lemma_bytes_differ(four, "DKRP".spec_bytes(), 2);
}

#[verifier::rlimit(100)]
proof fn lemma_roundtrip_mousebuttondown(m: <MessageMouseButtonDown as View>::V)
    requires
        MessageMouseButtonDown::spec_encode(m).len() <= u32::MAX,
    ensures
        msg_parse(MessageMouseButtonDown::spec_encode(m)) == Ok::<MessageV, ProtocolErrorV>(MessageV::MouseButtonDown(m)),
{
    reveal_strlit("DMDN");
    lemma_ascii_code("DMDN");
    MessageMouseButtonDown::lemma_parse_encode(m);
    let enc = MessageMouseButtonDown::spec_encode(m);
    let four = enc.subrange(0, 4);
    reveal_strlit("CNOP");
    lemma_ascii_code("CNOP");
    reveal_strlit("CBYE");
    lemma_ascii_code("CBYE");
    reveal_strlit("CINN");
    lemma_ascii_code("CINN");
    reveal_strlit("COUT");
    lemma_ascii_code("COUT");
    reveal_strlit("CCLP");
    lemma_ascii_code("CCLP");
    reveal_strlit("CSEC");
    lemma_ascii_code("CSEC");
    reveal_strlit("CROP");
    lemma_ascii_code("CROP");
    reveal_strlit("CIAK");
    lemma_ascii_code("CIAK");
    reveal_strlit("CALV");
    lemma_ascii_code("CALV");
    reveal_strlit("DKDL");
    lemma_ascii_code("DKDL");
    reveal_strlit("DKDN");
    lemma_ascii_code("DKDN");
    reveal_strlit("DKRP");
    lemma_ascii_code("DKRP");
    reveal_strlit("DKUP");
    lemma_ascii_code("DKUP");
    encode_utf8_valid_utf8("DMDN"@);
    assert(four =~= "DMDN".spec_bytes());
    assert(valid_utf8(four));
    lemma_bytes_differ(four, "CNOP".spec_bytes(), 0);
    lemma_bytes_differ(four, "CBYE".spec_bytes(), 0);
    lemma_bytes_differ(four, "CINN".spec_bytes(), 0);
    lemma_bytes_differ(four, "COUT".spec_bytes(), 0);
    lemma_bytes_differ(four, "CCLP".spec_bytes(), 0);
    lemma_bytes_differ(four, "CSEC".spec_bytes(), 0);
    lemma_bytes_differ(four, "CROP".spec_bytes(), 0);
    lemma_bytes_differ(four, "CIAK".spec_bytes(), 0);
    lemma_bytes_differ(four, "CALV".spec_bytes(), 0);
    lemma_bytes_differ(four, "DKDL".spec_bytes(), 1);
    lemma_bytes_differ(four, "DKDN".spec_bytes(), 1);
    lemma_bytes_differ(four, "DKRP".spec_bytes(), 1);
    lemma_bytes_differ(four, "DKUP".spec_bytes(), 1);
}

#[verifier::rlimit(100)]
proof fn lemma_roundtrip_mousebuttonup(m: <MessageMouseButtonUp as View>::V)
    requires
        MessageMouseButtonUp::spec_encode(m).len() <= u32::MAX,
    ensures
        msg_parse(MessageMouseButtonUp::spec_encode(m)) == Ok::<MessageV, ProtocolErrorV>(MessageV::MouseButtonUp(m)),
{
    reveal_strlit("DMUP");
    lemma_ascii_code("DMUP");
    MessageMouseButtonUp::lemma_parse_encode(m);
    let enc = MessageMouseButtonUp::spec_encode(m);
    let four = enc.subrange(0, 4);
    reveal_strlit("CNOP");
    lemma_ascii_code("CNOP");
    reveal_strlit("CBYE");
    lemma_ascii_code("CBYE");
    reveal_strlit("CINN");
    lemma_ascii_code("CINN");
    reveal_strlit("COUT");
    lemma_ascii_code("COUT");
    reveal_strlit("CCLP");
    lemma_ascii_code("CCLP");
    reveal_strlit("CSEC");
    lemma_ascii_code("CSEC");
    reveal_strlit("CROP");
    lemma_ascii_code("CROP");
    reveal_strlit("CIAK");
    lemma_ascii_code("CIAK");
    reveal_strlit("CALV");
    lemma_ascii_code("CALV");
    reveal_strlit("DKDL");
    lemma_ascii_code("DKDL");
    reveal_strlit("DKDN");
    lemma_ascii_code("DKDN");
    reveal_strlit("DKRP");
    lemma_ascii_code("DKRP");
    reveal_strlit("DKUP");
    lemma_ascii_code("DKUP");
    reveal_strlit("DMDN");
    lemma_ascii_code("DMDN");
    encode_utf8_valid_utf8("DMUP"@);
    assert(four =~= "DMUP".spec_bytes());
    assert(valid_utf8(four));
    lemma_bytes_differ(four, "CNOP".spec_bytes(), 0);
    lemma_bytes_differ(four, "CBYE".spec_bytes(), 0);
    lemma_bytes_differ(four, "CINN".spec_bytes(), 0);
    lemma_bytes_differ(four, "COUT".spec_bytes(), 0);
    lemma_bytes_differ(four, "CCLP".spec_bytes(), 0);
    lemma_bytes_differ(four, "CSEC".spec_bytes(), 0);
    lemma_bytes_differ(four, "CROP".spec_bytes(), 0);
    lemma_bytes_differ(four, "CIAK".spec_bytes(), 0);
    lemma_bytes_differ(four, "CALV".spec_bytes(), 0);
    lemma_bytes_differ(four, "DKDL".spec_bytes(), 1);
    lemma_bytes_differ(four, "DKDN".spec_bytes(), 1);
    lemma_bytes_differ(four, "DKRP".spec_bytes(), 1);
    lemma_bytes_differ(four, "DKUP".spec_bytes(), 1);
    lemma_bytes_differ(four, "DMDN".spec_bytes(), 2);
}

#[verifier::rlimit(100)]
proof fn lemma_roundtrip_mousemove(m: <MessageMouseMove as View>::V)
    requires
        MessageMouseMove::spec_encode(m).len() <= u32::MAX,
    ensures
        msg_parse(MessageMouseMove::spec_encode(m)) == Ok::<MessageV, ProtocolErrorV>(MessageV::MouseMove(m)),
{
    reveal_strlit("DMMV");
    lemma_ascii_code("DMMV");
    MessageMouseMove::lemma_parse_encode(m);
    let enc = MessageMouseMove::spec_encode(m);
    let four = enc.subrange(0, 4);
    reveal_strlit("CNOP");
    lemma_ascii_code("CNOP");
    reveal_strlit("CBYE");
    lemma_ascii_code("CBYE");
    reveal_strlit("CINN");
    lemma_ascii_code("CINN");
    reveal_strlit("COUT");
    lemma_ascii_code("COUT");
    reveal_strlit("CCLP");
    lemma_ascii_code("CCLP");
    reveal_strlit("CSEC");
    lemma_ascii_code("CSEC");
    reveal_strlit("CROP");
    lemma_ascii_code("CROP");
    reveal_strlit("CIAK");
    lemma_ascii_code("CIAK");
    reveal_strlit("CALV");
    lemma_ascii_code("CALV");
    reveal_strlit("DKDL");
    lemma_ascii_code("DKDL");
    reveal_strlit("DKDN");
    lemma_ascii_code("DKDN");
    reveal_strlit("DKRP");
    lemma_ascii_code("DKRP");
    reveal_strlit("DKUP");
    lemma_ascii_code("DKUP");
    reveal_strlit("DMDN");
    lemma_ascii_code("DMDN");
    reveal_strlit("DMUP");
    lemma_ascii_code("DMUP");
    encode_utf8_valid_utf8("DMMV"@);
    assert(four =~= "DMMV".spec_bytes());
    assert(valid_utf8(four));
    lemma_bytes_differ(four, "CNOP".spec_bytes(), 0);
    lemma_bytes_differ(four, "CBYE".spec_bytes(), 0);
    lemma_bytes_differ(four, "CINN".spec_bytes(), 0);
    lemma_bytes_differ(four, "COUT".spec_bytes(), 0);
    lemma_bytes_differ(four, "CCLP".spec_bytes(), 0);
    lemma_bytes_differ(four, "CSEC".spec_bytes(), 0);
    lemma_bytes_differ(four, "CROP".spec_bytes(), 0);
    lemma_bytes_differ(four, "CIAK".spec_bytes(), 0);
    lemma_bytes_differ(four, "CALV".spec_bytes(), 0);
    lemma_bytes_differ(four, "DKDL".spec_bytes(), 1);
    lemma_bytes_differ(four, "DKDN".spec_bytes(), 1);
    lemma_bytes_differ(four, "DKRP".spec_bytes(), 1);
    lemma_bytes_differ(four, "DKUP".spec_bytes(), 1);
    lemma_bytes_differ(four, "DMDN".spec_bytes(), 2);
    lemma_bytes_differ(four, "DMUP".spec_bytes(), 2);
}

#[verifier::rlimit(100)]
proof fn lemma_roundtrip_mouserelativemove(m: <MessageMouseRelativeMove as View>::V)
    requires
        MessageMouseRelativeMove::spec_encode(m).len() <= u32::MAX,
    ensures
        msg_parse(MessageMouseRelativeMove::spec_encode(m)) == Ok::<MessageV, ProtocolErrorV>(MessageV::MouseRelativeMove(m)),
{
    reveal_strlit("DMRM");
    lemma_ascii_code("DMRM");
    MessageMouseRelativeMove::lemma_parse_encode(m);
    let enc = MessageMouseRelativeMove::spec_encode(m);
    let four = enc.subrange(0, 4);
    reveal_strlit("CNOP");
    lemma_ascii_code("CNOP");
    reveal_strlit("CBYE");
    lemma_ascii_code("CBYE");
    reveal_strlit("CINN");
    lemma_ascii_code("CINN");
    reveal_strlit("COUT");
    lemma_ascii_code("COUT");
    reveal_strlit("CCLP");
    lemma_ascii_code("CCLP");
    reveal_strlit("CSEC");
    lemma_ascii_code("CSEC");
    reveal_strlit("CROP");
    lemma_ascii_code("CROP");
    reveal_strlit("CIAK");
    lemma_ascii_code("CIAK");
    reveal_strlit("CALV");
    lemma_ascii_code("CALV");
    reveal_strlit("DKDL");
    lemma_ascii_code("DKDL");
    reveal_strlit("DKDN");
    lemma_ascii_code("DKDN");
    reveal_strlit("DKRP");
    lemma_ascii_code("DKRP");
    reveal_strlit("DKUP");
    lemma_ascii_code("DKUP");
    reveal_strlit("DMDN");
    lemma_ascii_code("DMDN");
    reveal_strlit("DMUP");
    lemma_ascii_code("DMUP");
    reveal_strlit("DMMV");
    lemma_ascii_code("DMMV");
    encode_utf8_valid_utf8("DMRM"@);
    assert(four =~= "DMRM".spec_bytes());
    assert(valid_utf8(four));
    lemma_bytes_differ(four, "CNOP".spec_bytes(), 0);
    lemma_bytes_differ(four, "CBYE".spec_bytes(), 0);
    lemma_bytes_differ(four, "CINN".spec_bytes(), 0);
    lemma_bytes_differ(four, "COUT".spec_bytes(), 0);
    lemma_bytes_differ(four, "CCLP".spec_bytes(), 0);
    lemma_bytes_differ(four, "CSEC".spec_bytes(), 0);
    lemma_bytes_differ(four, "CROP".spec_bytes(), 0);
    lemma_bytes_differ(four, "CIAK".spec_bytes(), 0);
    lemma_bytes_differ(four, "CALV".spec_bytes(), 0);
    lemma_bytes_differ(four, "DKDL".spec_bytes(), 1);
    lemma_bytes_differ(four, "DKDN".spec_bytes(), 1);
    lemma_bytes_differ(four, "DKRP".spec_bytes(), 1);
    lemma_bytes_differ(four, "DKUP".spec_bytes(), 1);
    lemma_bytes_differ(four, "DMDN".spec_bytes(), 2);
    lemma_bytes_differ(four, "DMUP".spec_bytes(), 2);
    lemma_bytes_differ(four, "DMMV".spec_bytes(), 2);
}

#[verifier::rlimit(100)]
proof fn lemma_roundtrip_mousewheel(m: <MessageMouseWheel as View>::V)
    requires
        MessageMouseWheel::spec_encode(m).len() <= u32::MAX,
    ensures
        msg_parse(MessageMouseWheel::spec_encode(m)) == Ok::<MessageV, ProtocolErrorV>(MessageV::MouseWheel(m)),
{
    reveal_strlit("DMWM");
    lemma_ascii_code("DMWM");
    MessageMouseWheel::lemma_parse_encode(m);
    let enc = MessageMouseWheel::spec_encode(m);
    let four = enc.subrange(0, 4);
    reveal_strlit("CNOP");
    lemma_ascii_code("CNOP");
    reveal_strlit("CBYE");
    lemma_ascii_code("CBYE");
    reveal_strlit("CINN");
    lemma_ascii_code("CINN");
    reveal_strlit("COUT");
    lemma_ascii_code("COUT");
    reveal_strlit("CCLP");
    lemma_ascii_code("CCLP");
    reveal_strlit("CSEC");
    lemma_ascii_code("CSEC");
    reveal_strlit("CROP");
    lemma_ascii_code("CROP");
    reveal_strlit("CIAK");
    lemma_ascii_code("CIAK");
    reveal_strlit("CALV");
    lemma_ascii_code("CALV");
    reveal_strlit("DKDL");
    lemma_ascii_code("DKDL");
    reveal_strlit("DKDN");
    lemma_ascii_code("DKDN");
    reveal_strlit("DKRP");
    lemma_ascii_code("DKRP");
    reveal_strlit("DKUP");
    lemma_ascii_code("DKUP");
    reveal_strlit("DMDN");
    lemma_ascii_code("DMDN");
    reveal_strlit("DMUP");
    lemma_ascii_code("DMUP");
    reveal_strlit("DMMV");
    lemma_ascii_code("DMMV");
    reveal_strlit("DMRM");
    lemma_ascii_code("DMRM");
    encode_utf8_valid_utf8("DMWM"@);
    assert(four =~= "DMWM".spec_bytes());
    assert(valid_utf8(four));
    lemma_bytes_differ(four, "CNOP".spec_bytes(), 0);
    lemma_bytes_differ(four, "CBYE".spec_bytes(), 0);
    lemma_bytes_differ(four, "CINN".spec_bytes(), 0);
    lemma_bytes_differ(four, "COUT".spec_bytes(), 0);
    lemma_bytes_differ(four, "CCLP".spec_bytes(), 0);
    lemma_bytes_differ(four, "CSEC".spec_bytes(), 0);
    lemma_bytes_differ(four, "CROP".spec_bytes(), 0);
    lemma_bytes_differ(four, "CIAK".spec_bytes(), 0);
    lemma_bytes_differ(four, "CALV".spec_bytes(), 0);
    lemma_bytes_differ(four, "DKDL".spec_bytes(), 1);
    lemma_bytes_differ(four, "DKDN".spec_bytes(), 1);
    lemma_bytes_differ(four, "DKRP".spec_bytes(), 1);
    lemma_bytes_differ(four, "DKUP".spec_bytes(), 1);
    lemma_bytes_differ(four, "DMDN".spec_bytes(), 2);
    lemma_bytes_differ(four, "DMUP".spec_bytes(), 2);
    lemma_bytes_differ(four, "DMMV".spec_bytes(), 2);
    lemma_bytes_differ(four, "DMRM".spec_bytes(), 2);
}

#[verifier::rlimit(100)]
proof fn lemma_roundtrip_clipboarddata(m: <MessageClipboardData as View>::V)
    requires
        MessageClipboardData::spec_encode(m).len() <= u32::MAX,
    ensures
        msg_parse(MessageClipboardData::spec_encode(m)) == Ok::<MessageV, ProtocolErrorV>(MessageV::ClipboardData(m)),
{
    reveal_strlit("DCLP");
    lemma_ascii_code("DCLP");
    MessageClipboardData::lemma_parse_encode(m);
    let enc = MessageClipboardData::spec_encode(m);
    let four = enc.subrange(0, 4);
    reveal_strlit("CNOP");
    lemma_ascii_code("CNOP");
    reveal_strlit("CBYE");
    lemma_ascii_code("CBYE");
    reveal_strlit("CINN");
    lemma_ascii_code("CINN");
    reveal_strlit("COUT");
    lemma_ascii_code("COUT");
    reveal_strlit("CCLP");
    lemma_ascii_code("CCLP");
    reveal_strlit("CSEC");
    lemma_ascii_code("CSEC");
    reveal_strlit("CROP");
    lemma_ascii_code("CROP");
    reveal_strlit("CIAK");
    lemma_ascii_code("CIAK");
    reveal_strlit("CALV");
    lemma_ascii_code("CALV");
    reveal_strlit("DKDL");
    lemma_ascii_code("DKDL");
    reveal_strlit("DKDN");
    lemma_ascii_code("DKDN");
    reveal_strlit("DKRP");
    lemma_ascii_code("DKRP");
    reveal_strlit("DKUP");
    lemma_ascii_code("DKUP");
    reveal_strlit("DMDN");
    lemma_ascii_code("DMDN");
    reveal_strlit("DMUP");
    lemma_ascii_code("DMUP");
    reveal_strlit("DMMV");
    lemma_ascii_code("DMMV");
    reveal_strlit("DMRM");
    lemma_ascii_code("DMRM");
    reveal_strlit("DMWM");
    lemma_ascii_code("DMWM");
    encode_utf8_valid_utf8("DCLP"@);
    assert(four =~= "DCLP".spec_bytes());
    assert(valid_utf8(four));
    lemma_bytes_differ(four, "CNOP".spec_bytes(), 0);
    lemma_bytes_differ(four, "CBYE".spec_bytes(), 0);
    lemma_bytes_differ(four, "CINN".spec_bytes(), 0);
    lemma_bytes_differ(four, "COUT".spec_bytes(), 0);
    lemma_bytes_differ(four, "CCLP".spec_bytes(), 0);
    lemma_bytes_differ(four, "CSEC".spec_bytes(), 0);
    lemma_bytes_differ(four, "CROP".spec_bytes(), 0);
    lemma_bytes_differ(four, "CIAK".spec_bytes(), 0);
    lemma_bytes_differ(four, "CALV".spec_bytes(), 0);
    lemma_bytes_differ(four, "DKDL".spec_bytes(), 1);
    lemma_bytes_differ(four, "DKDN".spec_bytes(), 1);
    lemma_bytes_differ(four, "DKRP".spec_bytes(), 1);
    lemma_bytes_differ(four, "DKUP".spec_bytes(), 1);
    lemma_bytes_differ(four, "DMDN".spec_bytes(), 1);
    lemma_bytes_differ(four, "DMUP".spec_bytes(), 1);
    lemma_bytes_differ(four, "DMMV".spec_bytes(), 1);
    lemma_bytes_differ(four, "DMRM".spec_bytes(), 1);
    lemma_bytes_differ(four, "DMWM".spec_bytes(), 1);
}

#[verifier::rlimit(100)]
proof fn lemma_roundtrip_clientinfo(m: <MessageClientInfo as View>::V)
    requires
        MessageClientInfo::spec_encode(m).len() <= u32::MAX,
    ensures
        msg_parse(MessageClientInfo::spec_encode(m)) == Ok::<MessageV, ProtocolErrorV>(MessageV::ClientInfo(m)),
{
    reveal_strlit("DINF");
    lemma_ascii_code("DINF");
    MessageClientInfo::lemma_parse_encode(m);
    let enc = MessageClientInfo::spec_encode(m);
    let four = enc.subrange(0, 4);
    reveal_strlit("CNOP");
    lemma_ascii_code("CNOP");
    reveal_strlit("CBYE");
    lemma_ascii_code("CBYE");
    reveal_strlit("CINN");
    lemma_ascii_code("CINN");
    reveal_strlit("COUT");
    lemma_ascii_code("COUT");
    reveal_strlit("CCLP");
    lemma_ascii_code("CCLP");
    reveal_strlit("CSEC");
    lemma_ascii_code("CSEC");
    reveal_strlit("CROP");
    lemma_ascii_code("CROP");
    reveal_strlit("CIAK");
    lemma_ascii_code("CIAK");
    reveal_strlit("CALV");
    lemma_ascii_code("CALV");
    reveal_strlit("DKDL");
    lemma_ascii_code("DKDL");
    reveal_strlit("DKDN");
    lemma_ascii_code("DKDN");
    reveal_strlit("DKRP");
    lemma_ascii_code("DKRP");
    reveal_strlit("DKUP");
    lemma_ascii_code("DKUP");
    reveal_strlit("DMDN");
    lemma_ascii_code("DMDN");
    reveal_strlit("DMUP");
    lemma_ascii_code("DMUP");
    reveal_strlit("DMMV");
    lemma_ascii_code("DMMV");
    reveal_strlit("DMRM");
    lemma_ascii_code("DMRM");
    reveal_strlit("DMWM");
    lemma_ascii_code("DMWM");
    reveal_strlit("DCLP");
    lemma_ascii_code("DCLP");
    encode_utf8_valid_utf8("DINF"@);
    assert(four =~= "DINF".spec_bytes());
    assert(valid_utf8(four));
    lemma_bytes_differ(four, "CNOP".spec_bytes(), 0);
    lemma_bytes_differ(four, "CBYE".spec_bytes(), 0);
    lemma_bytes_differ(four, "CINN".spec_bytes(), 0);
    lemma_bytes_differ(four, "COUT".spec_bytes(), 0);
    lemma_bytes_differ(four, "CCLP".spec_bytes(), 0);
    lemma_bytes_differ(four, "CSEC".spec_bytes(), 0);
    lemma_bytes_differ(four, "CROP".spec_bytes(), 0);
    lemma_bytes_differ(four, "CIAK".spec_bytes(), 0);
    lemma_bytes_differ(four, "CALV".spec_bytes(), 0);
    lemma_bytes_differ(four, "DKDL".spec_bytes(), 1);
    lemma_bytes_differ(four, "DKDN".spec_bytes(), 1);
    lemma_bytes_differ(four, "DKRP".spec_bytes(), 1);
    lemma_bytes_differ(four, "DKUP".spec_bytes(), 1);
    lemma_bytes_differ(four, "DMDN".spec_bytes(), 1);
    lemma_bytes_differ(four, "DMUP".spec_bytes(), 1);
    lemma_bytes_differ(four, "DMMV".spec_bytes(), 1);
    lemma_bytes_differ(four, "DMRM".spec_bytes(), 1);
    lemma_bytes_differ(four, "DMWM".spec_bytes(), 1);
    lemma_bytes_differ(four, "DCLP".spec_bytes(), 1);
}

/// Where a payload opens with a code unlike every code checked before the
/// set-options one, `msg_parse` hands it to the set-options parser.
#[verifier::rlimit(100)]
proof fn lemma_dispatch_setoptions(data: Seq<u8>)
    requires
        data.len() >= 4,
        valid_utf8(data.subrange(0, 4)),
        data.subrange(0, 4) == "DSOP".spec_bytes(),
        data.subrange(0, 4) != "CNOP".spec_bytes(),
        data.subrange(0, 4) != "CBYE".spec_bytes(),
        data.subrange(0, 4) != "CINN".spec_bytes(),
        data.subrange(0, 4) != "COUT".spec_bytes(),
        data.subrange(0, 4) != "CCLP".spec_bytes(),
        data.subrange(0, 4) != "CSEC".spec_bytes(),
        data.subrange(0, 4) != "CROP".spec_bytes(),
        data.subrange(0, 4) != "CIAK".spec_bytes(),
        data.subrange(0, 4) != "CALV".spec_bytes(),
        data.subrange(0, 4) != "DKDL".spec_bytes(),
        data.subrange(0, 4) != "DKDN".spec_bytes(),
        data.subrange(0, 4) != "DKRP".spec_bytes(),
        data.subrange(0, 4) != "DKUP".spec_bytes(),
        data.subrange(0, 4) != "DMDN".spec_bytes(),
        data.subrange(0, 4) != "DMUP".spec_bytes(),
        data.subrange(0, 4) != "DMMV".spec_bytes(),
        data.subrange(0, 4) != "DMRM".spec_bytes(),
        data.subrange(0, 4) != "DMWM".spec_bytes(),
        data.subrange(0, 4) != "DCLP".spec_bytes(),
        data.subrange(0, 4) != "DINF".spec_bytes(),
    ensures
        msg_parse(data) == (match MessageSetOptions::spec_parse(data) {
            Ok(m) => Ok::<MessageV, ProtocolErrorV>(MessageV::SetOptions(m)),
            Err(e) => Err::<MessageV, ProtocolErrorV>(e),
        }),
{
}

/// The set-options code differs from every code checked before it.
#[verifier::rlimit(100)]
proof fn lemma_dsop_code_distinct(data: Seq<u8>)
    requires
        data.len() >= 4,
        data.subrange(0, 4) == "DSOP".spec_bytes(),
    ensures
        data.subrange(0, 4) != "CNOP".spec_bytes(),
        data.subrange(0, 4) != "CBYE".spec_bytes(),
        data.subrange(0, 4) != "CINN".spec_bytes(),
        data.subrange(0, 4) != "COUT".spec_bytes(),
        data.subrange(0, 4) != "CCLP".spec_bytes(),
        data.subrange(0, 4) != "CSEC".spec_bytes(),
        data.subrange(0, 4) != "CROP".spec_bytes(),
        data.subrange(0, 4) != "CIAK".spec_bytes(),
        data.subrange(0, 4) != "CALV".spec_bytes(),
        data.subrange(0, 4) != "DKDL".spec_bytes(),
        data.subrange(0, 4) != "DKDN".spec_bytes(),
        data.subrange(0, 4) != "DKRP".spec_bytes(),
        data.subrange(0, 4) != "DKUP".spec_bytes(),
        data.subrange(0, 4) != "DMDN".spec_bytes(),
        data.subrange(0, 4) != "DMUP".spec_bytes(),
        data.subrange(0, 4) != "DMMV".spec_bytes(),
        data.subrange(0, 4) != "DMRM".spec_bytes(),
        data.subrange(0, 4) != "DMWM".spec_bytes(),
        data.subrange(0, 4) != "DCLP".spec_bytes(),
        data.subrange(0, 4) != "DINF".spec_bytes(),
{
    let four = data.subrange(0, 4);
    reveal_strlit("DSOP");
    lemma_ascii_code("DSOP");
    reveal_strlit("CNOP");
    lemma_ascii_code("CNOP");
    reveal_strlit("CBYE");
    lemma_ascii_code("CBYE");
    reveal_strlit("CINN");
    lemma_ascii_code("CINN");
    reveal_strlit("COUT");
    lemma_ascii_code("COUT");
    reveal_strlit("CCLP");
    lemma_ascii_code("CCLP");
    reveal_strlit("CSEC");
    lemma_ascii_code("CSEC");
    reveal_strlit("CROP");
    lemma_ascii_code("CROP");
    reveal_strlit("CIAK");
    lemma_ascii_code("CIAK");
    reveal_strlit("CALV");
    lemma_ascii_code("CALV");
    reveal_strlit("DKDL");
    lemma_ascii_code("DKDL");
    reveal_strlit("DKDN");
    lemma_ascii_code("DKDN");
    reveal_strlit("DKRP");
    lemma_ascii_code("DKRP");
    reveal_strlit("DKUP");
    lemma_ascii_code("DKUP");
    reveal_strlit("DMDN");
    lemma_ascii_code("DMDN");
    reveal_strlit("DMUP");
    lemma_ascii_code("DMUP");
    reveal_strlit("DMMV");
    lemma_ascii_code("DMMV");
    reveal_strlit("DMRM");
    lemma_ascii_code("DMRM");
    reveal_strlit("DMWM");
    lemma_ascii_code("DMWM");
    reveal_strlit("DCLP");
    lemma_ascii_code("DCLP");
    reveal_strlit("DINF");
    lemma_ascii_code("DINF");
    lemma_bytes_differ(four, "CNOP".spec_bytes(), 0);
    lemma_bytes_differ(four, "CBYE".spec_bytes(), 0);
    lemma_bytes_differ(four, "CINN".spec_bytes(), 0);
    lemma_bytes_differ(four, "COUT".spec_bytes(), 0);
    lemma_bytes_differ(four, "CCLP".spec_bytes(), 0);
    lemma_bytes_differ(four, "CSEC".spec_bytes(), 0);
    lemma_bytes_differ(four, "CROP".spec_bytes(), 0);
    lemma_bytes_differ(four, "CIAK".spec_bytes(), 0);
    lemma_bytes_differ(four, "CALV".spec_bytes(), 0);
    lemma_bytes_differ(four, "DKDL".spec_bytes(), 1);
    lemma_bytes_differ(four, "DKDN".spec_bytes(), 1);
    lemma_bytes_differ(four, "DKRP".spec_bytes(), 1);
    lemma_bytes_differ(four, "DKUP".spec_bytes(), 1);
    lemma_bytes_differ(four, "DMDN".spec_bytes(), 1);
    lemma_bytes_differ(four, "DMUP".spec_bytes(), 1);
    lemma_bytes_differ(four, "DMMV".spec_bytes(), 1);
    lemma_bytes_differ(four, "DMRM".spec_bytes(), 1);
    lemma_bytes_differ(four, "DMWM".spec_bytes(), 1);
    lemma_bytes_differ(four, "DCLP".spec_bytes(), 1);
    lemma_bytes_differ(four, "DINF".spec_bytes(), 1);
}

#[verifier::rlimit(100)]
proof fn lemma_roundtrip_setoptions(m: <MessageSetOptions as View>::V)
    requires
        MessageSetOptions::spec_encode(m).len() <= u32::MAX,
    ensures
        msg_parse(MessageSetOptions::spec_encode(m)) == Ok::<MessageV, ProtocolErrorV>(
            MessageV::SetOptions(m),
        ),
{
    reveal_strlit("DSOP");
    lemma_ascii_code("DSOP");
    encode_utf8_valid_utf8("DSOP"@);
    let enc = MessageSetOptions::spec_encode(m);
    assert(enc.subrange(0, 4) =~= "DSOP".spec_bytes());
    lemma_dsop_code_distinct(enc);
    lemma_dispatch_setoptions(enc);
    assert(MessageSetOptions::spec_parse(enc) == Ok::<Seq<(u32, u32)>, ProtocolErrorV>(m)) by {
        MessageSetOptions::lemma_parse_encode(m);
    }
}

#[verifier::rlimit(100)]
proof fn lemma_roundtrip_filetransfer(m: <MessageFileTransfer as View>::V)
    requires
        MessageFileTransfer::spec_encode(m).len() <= u32::MAX,
    ensures
        msg_parse(MessageFileTransfer::spec_encode(m)) == Ok::<MessageV, ProtocolErrorV>(MessageV::FileTransfer(m)),
{
    reveal_strlit("DFTR");
    lemma_ascii_code("DFTR");
    MessageFileTransfer::lemma_parse_encode(m);
    let enc = MessageFileTransfer::spec_encode(m);
    let four = enc.subrange(0, 4);
    reveal_strlit("CNOP");
    lemma_ascii_code("CNOP");
    reveal_strlit("CBYE");
    lemma_ascii_code("CBYE");
    reveal_strlit("CINN");
    lemma_ascii_code("CINN");
    reveal_strlit("COUT");
    lemma_ascii_code("COUT");
    reveal_strlit("CCLP");
    lemma_ascii_code("CCLP");
    reveal_strlit("CSEC");
    lemma_ascii_code("CSEC");
    reveal_strlit("CROP");
    lemma_ascii_code("CROP");
    reveal_strlit("CIAK");
    lemma_ascii_code("CIAK");
    reveal_strlit("CALV");
    lemma_ascii_code("CALV");
    reveal_strlit("DKDL");
    lemma_ascii_code("DKDL");
    reveal_strlit("DKDN");
    lemma_ascii_code("DKDN");
    reveal_strlit("DKRP");
    lemma_ascii_code("DKRP");
    reveal_strlit("DKUP");
    lemma_ascii_code("DKUP");
    reveal_strlit("DMDN");
    lemma_ascii_code("DMDN");
    reveal_strlit("DMUP");
    lemma_ascii_code("DMUP");
    reveal_strlit("DMMV");
    lemma_ascii_code("DMMV");
    reveal_strlit("DMRM");
    lemma_ascii_code("DMRM");
    reveal_strlit("DMWM");
    lemma_ascii_code("DMWM");
    reveal_strlit("DCLP");
    lemma_ascii_code("DCLP");
    reveal_strlit("DINF");
    lemma_ascii_code("DINF");
    reveal_strlit("DSOP");
    lemma_ascii_code("DSOP");
    encode_utf8_valid_utf8("DFTR"@);
    assert(four =~= "DFTR".spec_bytes());
    assert(valid_utf8(four));
    lemma_bytes_differ(four, "CNOP".spec_bytes(), 0);
    lemma_bytes_differ(four, "CBYE".spec_bytes(), 0);
    lemma_bytes_differ(four, "CINN".spec_bytes(), 0);
    lemma_bytes_differ(four, "COUT".spec_bytes(), 0);
    lemma_bytes_differ(four, "CCLP".spec_bytes(), 0);
    lemma_bytes_differ(four, "CSEC".spec_bytes(), 0);
    lemma_bytes_differ(four, "CROP".spec_bytes(), 0);
    lemma_bytes_differ(four, "CIAK".spec_bytes(), 0);
    lemma_bytes_differ(four, "CALV".spec_bytes(), 0);
    lemma_bytes_differ(four, "DKDL".spec_bytes(), 1);
    lemma_bytes_differ(four, "DKDN".spec_bytes(), 1);
    lemma_bytes_differ(four, "DKRP".spec_bytes(), 1);
    lemma_bytes_differ(four, "DKUP".spec_bytes(), 1);
    lemma_bytes_differ(four, "DMDN".spec_bytes(), 1);
    lemma_bytes_differ(four, "DMUP".spec_bytes(), 1);
    lemma_bytes_differ(four, "DMMV".spec_bytes(), 1);
    lemma_bytes_differ(four, "DMRM".spec_bytes(), 1);
    lemma_bytes_differ(four, "DMWM".spec_bytes(), 1);
    lemma_bytes_differ(four, "DCLP".spec_bytes(), 1);
    lemma_bytes_differ(four, "DINF".spec_bytes(), 1);
    lemma_bytes_differ(four, "DSOP".spec_bytes(), 1);
}

#[verifier::rlimit(100)]
proof fn lemma_roundtrip_draginfo(m: <MessageDragInfo as View>::V)
    requires
        MessageDragInfo::spec_encode(m).len() <= u32::MAX,
    ensures
        msg_parse(MessageDragInfo::spec_encode(m)) == Ok::<MessageV, ProtocolErrorV>(MessageV::DragInfo(m)),
{
    reveal_strlit("DDRG");
    lemma_ascii_code("DDRG");
    MessageDragInfo::lemma_parse_encode(m);
    let enc = MessageDragInfo::spec_encode(m);
    let four = enc.subrange(0, 4);
    reveal_strlit("CNOP");
    lemma_ascii_code("CNOP");
    reveal_strlit("CBYE");
    lemma_ascii_code("CBYE");
    reveal_strlit("CINN");
    lemma_ascii_code("CINN");
    reveal_strlit("COUT");
    lemma_ascii_code("COUT");
    reveal_strlit("CCLP");
    lemma_ascii_code("CCLP");
    reveal_strlit("CSEC");
    lemma_ascii_code("CSEC");
    reveal_strlit("CROP");
    lemma_ascii_code("CROP");
    reveal_strlit("CIAK");
    lemma_ascii_code("CIAK");
    reveal_strlit("CALV");
    lemma_ascii_code("CALV");
    reveal_strlit("DKDL");
    lemma_ascii_code("DKDL");
    reveal_strlit("DKDN");
    lemma_ascii_code("DKDN");
    reveal_strlit("DKRP");
    lemma_ascii_code("DKRP");
    reveal_strlit("DKUP");
    lemma_ascii_code("DKUP");
    reveal_strlit("DMDN");
    lemma_ascii_code("DMDN");
    reveal_strlit("DMUP");
    lemma_ascii_code("DMUP");
    reveal_strlit("DMMV");
    lemma_ascii_code("DMMV");
    reveal_strlit("DMRM");
    lemma_ascii_code("DMRM");
    reveal_strlit("DMWM");
    lemma_ascii_code("DMWM");
    reveal_strlit("DCLP");
    lemma_ascii_code("DCLP");
    reveal_strlit("DINF");
    lemma_ascii_code("DINF");
    reveal_strlit("DSOP");
    lemma_ascii_code("DSOP");
    reveal_strlit("DFTR");
    lemma_ascii_code("DFTR");
    encode_utf8_valid_utf8("DDRG"@);
    assert(four =~= "DDRG".spec_bytes());
    assert(valid_utf8(four));
    lemma_bytes_differ(four, "CNOP".spec_bytes(), 0);
    lemma_bytes_differ(four, "CBYE".spec_bytes(), 0);
    lemma_bytes_differ(four, "CINN".spec_bytes(), 0);
    lemma_bytes_differ(four, "COUT".spec_bytes(), 0);
    lemma_bytes_differ(four, "CCLP".spec_bytes(), 0);
    lemma_bytes_differ(four, "CSEC".spec_bytes(), 0);
    lemma_bytes_differ(four, "CROP".spec_bytes(), 0);
    lemma_bytes_differ(four, "CIAK".spec_bytes(), 0);
    lemma_bytes_differ(four, "CALV".spec_bytes(), 0);
    lemma_bytes_differ(four, "DKDL".spec_bytes(), 1);
    lemma_bytes_differ(four, "DKDN".spec_bytes(), 1);
    lemma_bytes_differ(four, "DKRP".spec_bytes(), 1);
    lemma_bytes_differ(four, "DKUP".spec_bytes(), 1);
    lemma_bytes_differ(four, "DMDN".spec_bytes(), 1);
    lemma_bytes_differ(four, "DMUP".spec_bytes(), 1);
    lemma_bytes_differ(four, "DMMV".spec_bytes(), 1);
    lemma_bytes_differ(four, "DMRM".spec_bytes(), 1);
    lemma_bytes_differ(four, "DMWM".spec_bytes(), 1);
    lemma_bytes_differ(four, "DCLP".spec_bytes(), 1);
    lemma_bytes_differ(four, "DINF".spec_bytes(), 1);
    lemma_bytes_differ(four, "DSOP".spec_bytes(), 1);
    lemma_bytes_differ(four, "DFTR".spec_bytes(), 1);
}

#[verifier::rlimit(100)]
proof fn lemma_roundtrip_secureencryption(m: <MessageSecureEncryption as View>::V)
    requires
        MessageSecureEncryption::spec_encode(m).len() <= u32::MAX,
    ensures
        msg_parse(MessageSecureEncryption::spec_encode(m)) == Ok::<MessageV, ProtocolErrorV>(MessageV::SecureEncryption(m)),
{
    reveal_strlit("SECN");
    lemma_ascii_code("SECN");
    MessageSecureEncryption::lemma_parse_encode(m);
    let enc = MessageSecureEncryption::spec_encode(m);
    let four = enc.subrange(0, 4);
    reveal_strlit("CNOP");
    lemma_ascii_code("CNOP");
    reveal_strlit("CBYE");
    lemma_ascii_code("CBYE");
    reveal_strlit("CINN");
    lemma_ascii_code("CINN");
    reveal_strlit("COUT");
    lemma_ascii_code("COUT");
    reveal_strlit("CCLP");
    lemma_ascii_code("CCLP");
    reveal_strlit("CSEC");
    lemma_ascii_code("CSEC");
    reveal_strlit("CROP");
    lemma_ascii_code("CROP");
    reveal_strlit("CIAK");
    lemma_ascii_code("CIAK");
    reveal_strlit("CALV");
    lemma_ascii_code("CALV");
    reveal_strlit("DKDL");
    lemma_ascii_code("DKDL");
    reveal_strlit("DKDN");
    lemma_ascii_code("DKDN");
    reveal_strlit("DKRP");
    lemma_ascii_code("DKRP");
    reveal_strlit("DKUP");
    lemma_ascii_code("DKUP");
    reveal_strlit("DMDN");
    lemma_ascii_code("DMDN");
    reveal_strlit("DMUP");
    lemma_ascii_code("DMUP");
    reveal_strlit("DMMV");
    lemma_ascii_code("DMMV");
    reveal_strlit("DMRM");
    lemma_ascii_code("DMRM");
    reveal_strlit("DMWM");
    lemma_ascii_code("DMWM");
    reveal_strlit("DCLP");
    lemma_ascii_code("DCLP");
    reveal_strlit("DINF");
    lemma_ascii_code("DINF");
    reveal_strlit("DSOP");
    lemma_ascii_code("DSOP");
    reveal_strlit("DFTR");
    lemma_ascii_code("DFTR");
    reveal_strlit("DDRG");
    lemma_ascii_code("DDRG");
    encode_utf8_valid_utf8("SECN"@);
    assert(four =~= "SECN".spec_bytes());
    assert(valid_utf8(four));
    lemma_bytes_differ(four, "CNOP".spec_bytes(), 0);
    lemma_bytes_differ(four, "CBYE".spec_bytes(), 0);
    lemma_bytes_differ(four, "CINN".spec_bytes(), 0);
    lemma_bytes_differ(four, "COUT".spec_bytes(), 0);
    lemma_bytes_differ(four, "CCLP".spec_bytes(), 0);
    lemma_bytes_differ(four, "CSEC".spec_bytes(), 0);
    lemma_bytes_differ(four, "CROP".spec_bytes(), 0);
    lemma_bytes_differ(four, "CIAK".spec_bytes(), 0);
    lemma_bytes_differ(four, "CALV".spec_bytes(), 0);
    lemma_bytes_differ(four, "DKDL".spec_bytes(), 0);
    lemma_bytes_differ(four, "DKDN".spec_bytes(), 0);
    lemma_bytes_differ(four, "DKRP".spec_bytes(), 0);
    lemma_bytes_differ(four, "DKUP".spec_bytes(), 0);
    lemma_bytes_differ(four, "DMDN".spec_bytes(), 0);
    lemma_bytes_differ(four, "DMUP".spec_bytes(), 0);
    lemma_bytes_differ(four, "DMMV".spec_bytes(), 0);
    lemma_bytes_differ(four, "DMRM".spec_bytes(), 0);
    lemma_bytes_differ(four, "DMWM".spec_bytes(), 0);
    lemma_bytes_differ(four, "DCLP".spec_bytes(), 0);
    lemma_bytes_differ(four, "DINF".spec_bytes(), 0);
    lemma_bytes_differ(four, "DSOP".spec_bytes(), 0);
    lemma_bytes_differ(four, "DFTR".spec_bytes(), 0);
    lemma_bytes_differ(four, "DDRG".spec_bytes(), 0);
}

#[verifier::rlimit(100)]
proof fn lemma_roundtrip_legacysynergy(m: <MessageLegacySynergy as View>::V)
    requires
        MessageLegacySynergy::spec_encode(m).len() <= u32::MAX,
    ensures
        msg_parse(MessageLegacySynergy::spec_encode(m)) == Ok::<MessageV, ProtocolErrorV>(MessageV::LegacySynergy(m)),
{
    reveal_strlit("LSYN");
    lemma_ascii_code("LSYN");
    MessageLegacySynergy::lemma_parse_encode(m);
    let enc = MessageLegacySynergy::spec_encode(m);
    let four = enc.subrange(0, 4);
    reveal_strlit("CNOP");
    lemma_ascii_code("CNOP");
    reveal_strlit("CBYE");
    lemma_ascii_code("CBYE");
    reveal_strlit("CINN");
    lemma_ascii_code("CINN");
    reveal_strlit("COUT");
    lemma_ascii_code("COUT");
    reveal_strlit("CCLP");
    lemma_ascii_code("CCLP");
    reveal_strlit("CSEC");
    lemma_ascii_code("CSEC");
    reveal_strlit("CROP");
    lemma_ascii_code("CROP");
    reveal_strlit("CIAK");
    lemma_ascii_code("CIAK");
    reveal_strlit("CALV");
    lemma_ascii_code("CALV");
    reveal_strlit("DKDL");
    lemma_ascii_code("DKDL");
    reveal_strlit("DKDN");
    lemma_ascii_code("DKDN");
    reveal_strlit("DKRP");
    lemma_ascii_code("DKRP");
    reveal_strlit("DKUP");
    lemma_ascii_code("DKUP");
    reveal_strlit("DMDN");
    lemma_ascii_code("DMDN");
    reveal_strlit("DMUP");
    lemma_ascii_code("DMUP");
    reveal_strlit("DMMV");
    lemma_ascii_code("DMMV");
    reveal_strlit("DMRM");
    lemma_ascii_code("DMRM");
    reveal_strlit("DMWM");
    lemma_ascii_code("DMWM");
    reveal_strlit("DCLP");
    lemma_ascii_code("DCLP");
    reveal_strlit("DINF");
    lemma_ascii_code("DINF");
    reveal_strlit("DSOP");
    lemma_ascii_code("DSOP");
    reveal_strlit("DFTR");
    lemma_ascii_code("DFTR");
    reveal_strlit("DDRG");
    lemma_ascii_code("DDRG");
    reveal_strlit("SECN");
    lemma_ascii_code("SECN");
    encode_utf8_valid_utf8("LSYN"@);
    assert(four =~= "LSYN".spec_bytes());
    assert(valid_utf8(four));
    lemma_bytes_differ(four, "CNOP".spec_bytes(), 0);
    lemma_bytes_differ(four, "CBYE".spec_bytes(), 0);
    lemma_bytes_differ(four, "CINN".spec_bytes(), 0);
    lemma_bytes_differ(four, "COUT".spec_bytes(), 0);
    lemma_bytes_differ(four, "CCLP".spec_bytes(), 0);
    lemma_bytes_differ(four, "CSEC".spec_bytes(), 0);
    lemma_bytes_differ(four, "CROP".spec_bytes(), 0);
    lemma_bytes_differ(four, "CIAK".spec_bytes(), 0);
    lemma_bytes_differ(four, "CALV".spec_bytes(), 0);
    lemma_bytes_differ(four, "DKDL".spec_bytes(), 0);
    lemma_bytes_differ(four, "DKDN".spec_bytes(), 0);
    lemma_bytes_differ(four, "DKRP".spec_bytes(), 0);
    lemma_bytes_differ(four, "DKUP".spec_bytes(), 0);
    lemma_bytes_differ(four, "DMDN".spec_bytes(), 0);
    lemma_bytes_differ(four, "DMUP".spec_bytes(), 0);
    lemma_bytes_differ(four, "DMMV".spec_bytes(), 0);
    lemma_bytes_differ(four, "DMRM".spec_bytes(), 0);
    lemma_bytes_differ(four, "DMWM".spec_bytes(), 0);
    lemma_bytes_differ(four, "DCLP".spec_bytes(), 0);
    lemma_bytes_differ(four, "DINF".spec_bytes(), 0);
    lemma_bytes_differ(four, "DSOP".spec_bytes(), 0);
    lemma_bytes_differ(four, "DFTR".spec_bytes(), 0);
    lemma_bytes_differ(four, "DDRG".spec_bytes(), 0);
    lemma_bytes_differ(four, "SECN".spec_bytes(), 0);
}

#[verifier::rlimit(100)]
proof fn lemma_roundtrip_queryinfo(m: <MessageQueryInfo as View>::V)
    requires
        MessageQueryInfo::spec_encode(m).len() <= u32::MAX,
    ensures
        msg_parse(MessageQueryInfo::spec_encode(m)) == Ok::<MessageV, ProtocolErrorV>(MessageV::QueryInfo(m)),
{
    reveal_strlit("QINF");
    lemma_ascii_code("QINF");
    MessageQueryInfo::lemma_parse_encode(m);
    let enc = MessageQueryInfo::spec_encode(m);
    let four = enc.subrange(0, 4);
    reveal_strlit("CNOP");
    lemma_ascii_code("CNOP");
    reveal_strlit("CBYE");
    lemma_ascii_code("CBYE");
    reveal_strlit("CINN");
    lemma_ascii_code("CINN");
    reveal_strlit("COUT");
    lemma_ascii_code("COUT");
    reveal_strlit("CCLP");
    lemma_ascii_code("CCLP");
    reveal_strlit("CSEC");
    lemma_ascii_code("CSEC");
    reveal_strlit("CROP");
    lemma_ascii_code("CROP");
    reveal_strlit("CIAK");
    lemma_ascii_code("CIAK");
    reveal_strlit("CALV");
    lemma_ascii_code("CALV");
    reveal_strlit("DKDL");
    lemma_ascii_code("DKDL");
    reveal_strlit("DKDN");
    lemma_ascii_code("DKDN");
    reveal_strlit("DKRP");
    lemma_ascii_code("DKRP");
    reveal_strlit("DKUP");
    lemma_ascii_code("DKUP");
    reveal_strlit("DMDN");
    lemma_ascii_code("DMDN");
    reveal_strlit("DMUP");
    lemma_ascii_code("DMUP");
    reveal_strlit("DMMV");
    lemma_ascii_code("DMMV");
    reveal_strlit("DMRM");
    lemma_ascii_code("DMRM");
    reveal_strlit("DMWM");
    lemma_ascii_code("DMWM");
    reveal_strlit("DCLP");
    lemma_ascii_code("DCLP");
    reveal_strlit("DINF");
    lemma_ascii_code("DINF");
    reveal_strlit("DSOP");
    lemma_ascii_code("DSOP");
    reveal_strlit("DFTR");
    lemma_ascii_code("DFTR");
    reveal_strlit("DDRG");
    lemma_ascii_code("DDRG");
    reveal_strlit("SECN");
    lemma_ascii_code("SECN");
    reveal_strlit("LSYN");
    lemma_ascii_code("LSYN");
    encode_utf8_valid_utf8("QINF"@);
    assert(four =~= "QINF".spec_bytes());
    assert(valid_utf8(four));
    lemma_bytes_differ(four, "CNOP".spec_bytes(), 0);
    lemma_bytes_differ(four, "CBYE".spec_bytes(), 0);
    lemma_bytes_differ(four, "CINN".spec_bytes(), 0);
    lemma_bytes_differ(four, "COUT".spec_bytes(), 0);
    lemma_bytes_differ(four, "CCLP".spec_bytes(), 0);
    lemma_bytes_differ(four, "CSEC".spec_bytes(), 0);
    lemma_bytes_differ(four, "CROP".spec_bytes(), 0);
    lemma_bytes_differ(four, "CIAK".spec_bytes(), 0);
    lemma_bytes_differ(four, "CALV".spec_bytes(), 0);
    lemma_bytes_differ(four, "DKDL".spec_bytes(), 0);
    lemma_bytes_differ(four, "DKDN".spec_bytes(), 0);
    lemma_bytes_differ(four, "DKRP".spec_bytes(), 0);
    lemma_bytes_differ(four, "DKUP".spec_bytes(), 0);
    lemma_bytes_differ(four, "DMDN".spec_bytes(), 0);
    lemma_bytes_differ(four, "DMUP".spec_bytes(), 0);
    lemma_bytes_differ(four, "DMMV".spec_bytes(), 0);
    lemma_bytes_differ(four, "DMRM".spec_bytes(), 0);
    lemma_bytes_differ(four, "DMWM".spec_bytes(), 0);
    lemma_bytes_differ(four, "DCLP".spec_bytes(), 0);
    lemma_bytes_differ(four, "DINF".spec_bytes(), 0);
    lemma_bytes_differ(four, "DSOP".spec_bytes(), 0);
    lemma_bytes_differ(four, "DFTR".spec_bytes(), 0);
    lemma_bytes_differ(four, "DDRG".spec_bytes(), 0);
    lemma_bytes_differ(four, "SECN".spec_bytes(), 0);
    lemma_bytes_differ(four, "LSYN".spec_bytes(), 0);
}

#[verifier::rlimit(100)]
proof fn lemma_roundtrip_incompatibleversion(m: <MessageIncompatibleVersion as View>::V)
    requires
        MessageIncompatibleVersion::spec_encode(m).len() <= u32::MAX,
    ensures
        msg_parse(MessageIncompatibleVersion::spec_encode(m)) == Ok::<MessageV, ProtocolErrorV>(MessageV::IncompatibleVersion(m)),
{
    reveal_strlit("EICV");
    lemma_ascii_code("EICV");
    MessageIncompatibleVersion::lemma_parse_encode(m);
    let enc = MessageIncompatibleVersion::spec_encode(m);
    let four = enc.subrange(0, 4);
    reveal_strlit("CNOP");
    lemma_ascii_code("CNOP");
    reveal_strlit("CBYE");
    lemma_ascii_code("CBYE");
    reveal_strlit("CINN");
    lemma_ascii_code("CINN");
    reveal_strlit("COUT");
    lemma_ascii_code("COUT");
    reveal_strlit("CCLP");
    lemma_ascii_code("CCLP");
    reveal_strlit("CSEC");
    lemma_ascii_code("CSEC");
    reveal_strlit("CROP");
    lemma_ascii_code("CROP");
    reveal_strlit("CIAK");
    lemma_ascii_code("CIAK");
    reveal_strlit("CALV");
    lemma_ascii_code("CALV");
    reveal_strlit("DKDL");
    lemma_ascii_code("DKDL");
    reveal_strlit("DKDN");
    lemma_ascii_code("DKDN");
    reveal_strlit("DKRP");
    lemma_ascii_code("DKRP");
    reveal_strlit("DKUP");
    lemma_ascii_code("DKUP");
    reveal_strlit("DMDN");
    lemma_ascii_code("DMDN");
    reveal_strlit("DMUP");
    lemma_ascii_code("DMUP");
    reveal_strlit("DMMV");
    lemma_ascii_code("DMMV");
    reveal_strlit("DMRM");
    lemma_ascii_code("DMRM");
    reveal_strlit("DMWM");
    lemma_ascii_code("DMWM");
    reveal_strlit("DCLP");
    lemma_ascii_code("DCLP");
    reveal_strlit("DINF");
    lemma_ascii_code("DINF");
    reveal_strlit("DSOP");
    lemma_ascii_code("DSOP");
    reveal_strlit("DFTR");
    lemma_ascii_code("DFTR");
    reveal_strlit("DDRG");
    lemma_ascii_code("DDRG");
    reveal_strlit("SECN");
    lemma_ascii_code("SECN");
    reveal_strlit("LSYN");
    lemma_ascii_code("LSYN");
    reveal_strlit("QINF");
    lemma_ascii_code("QINF");
    encode_utf8_valid_utf8("EICV"@);
    assert(four =~= "EICV".spec_bytes());
    assert(valid_utf8(four));
    lemma_bytes_differ(four, "CNOP".spec_bytes(), 0);
    lemma_bytes_differ(four, "CBYE".spec_bytes(), 0);
    lemma_bytes_differ(four, "CINN".spec_bytes(), 0);
    lemma_bytes_differ(four, "COUT".spec_bytes(), 0);
    lemma_bytes_differ(four, "CCLP".spec_bytes(), 0);
    lemma_bytes_differ(four, "CSEC".spec_bytes(), 0);
    lemma_bytes_differ(four, "CROP".spec_bytes(), 0);
    lemma_bytes_differ(four, "CIAK".spec_bytes(), 0);
    lemma_bytes_differ(four, "CALV".spec_bytes(), 0);
    lemma_bytes_differ(four, "DKDL".spec_bytes(), 0);
    lemma_bytes_differ(four, "DKDN".spec_bytes(), 0);
    lemma_bytes_differ(four, "DKRP".spec_bytes(), 0);
    lemma_bytes_differ(four, "DKUP".spec_bytes(), 0);
    lemma_bytes_differ(four, "DMDN".spec_bytes(), 0);
    lemma_bytes_differ(four, "DMUP".spec_bytes(), 0);
    lemma_bytes_differ(four, "DMMV".spec_bytes(), 0);
    lemma_bytes_differ(four, "DMRM".spec_bytes(), 0);
    lemma_bytes_differ(four, "DMWM".spec_bytes(), 0);
    lemma_bytes_differ(four, "DCLP".spec_bytes(), 0);
    lemma_bytes_differ(four, "DINF".spec_bytes(), 0);
    lemma_bytes_differ(four, "DSOP".spec_bytes(), 0);
    lemma_bytes_differ(four, "DFTR".spec_bytes(), 0);
    lemma_bytes_differ(four, "DDRG".spec_bytes(), 0);
    lemma_bytes_differ(four, "SECN".spec_bytes(), 0);
    lemma_bytes_differ(four, "LSYN".spec_bytes(), 0);
    lemma_bytes_differ(four, "QINF".spec_bytes(), 0);
}

#[verifier::rlimit(100)]
proof fn lemma_roundtrip_serverbusy(m: <MessageServerBusy as View>::V)
    requires
        MessageServerBusy::spec_encode(m).len() <= u32::MAX,
    ensures
        msg_parse(MessageServerBusy::spec_encode(m)) == Ok::<MessageV, ProtocolErrorV>(MessageV::ServerBusy(m)),
{
    reveal_strlit("EBSY");
    lemma_ascii_code("EBSY");
    MessageServerBusy::lemma_parse_encode(m);
    let enc = MessageServerBusy::spec_encode(m);
    let four = enc.subrange(0, 4);
    reveal_strlit("CNOP");
    lemma_ascii_code("CNOP");
    reveal_strlit("CBYE");
    lemma_ascii_code("CBYE");
    reveal_strlit("CINN");
    lemma_ascii_code("CINN");
    reveal_strlit("COUT");
    lemma_ascii_code("COUT");
    reveal_strlit("CCLP");
    lemma_ascii_code("CCLP");
    reveal_strlit("CSEC");
    lemma_ascii_code("CSEC");
    reveal_strlit("CROP");
    lemma_ascii_code("CROP");
    reveal_strlit("CIAK");
    lemma_ascii_code("CIAK");
    reveal_strlit("CALV");
    lemma_ascii_code("CALV");
    reveal_strlit("DKDL");
    lemma_ascii_code("DKDL");
    reveal_strlit("DKDN");
    lemma_ascii_code("DKDN");
    reveal_strlit("DKRP");
    lemma_ascii_code("DKRP");
    reveal_strlit("DKUP");
    lemma_ascii_code("DKUP");
    reveal_strlit("DMDN");
    lemma_ascii_code("DMDN");
    reveal_strlit("DMUP");
    lemma_ascii_code("DMUP");
    reveal_strlit("DMMV");
    lemma_ascii_code("DMMV");
    reveal_strlit("DMRM");
    lemma_ascii_code("DMRM");
    reveal_strlit("DMWM");
    lemma_ascii_code("DMWM");
    reveal_strlit("DCLP");
    lemma_ascii_code("DCLP");
    reveal_strlit("DINF");
    lemma_ascii_code("DINF");
    reveal_strlit("DSOP");
    lemma_ascii_code("DSOP");
    reveal_strlit("DFTR");
    lemma_ascii_code("DFTR");
    reveal_strlit("DDRG");
    lemma_ascii_code("DDRG");
    reveal_strlit("SECN");
    lemma_ascii_code("SECN");
    reveal_strlit("LSYN");
    lemma_ascii_code("LSYN");
    reveal_strlit("QINF");
    lemma_ascii_code("QINF");
    reveal_strlit("EICV");
    lemma_ascii_code("EICV");
    encode_utf8_valid_utf8("EBSY"@);
    assert(four =~= "EBSY".spec_bytes());
    assert(valid_utf8(four));
    lemma_bytes_differ(four, "CNOP".spec_bytes(), 0);
    lemma_bytes_differ(four, "CBYE".spec_bytes(), 0);
    lemma_bytes_differ(four, "CINN".spec_bytes(), 0);
    lemma_bytes_differ(four, "COUT".spec_bytes(), 0);
    lemma_bytes_differ(four, "CCLP".spec_bytes(), 0);
    lemma_bytes_differ(four, "CSEC".spec_bytes(), 0);
    lemma_bytes_differ(four, "CROP".spec_bytes(), 0);
    lemma_bytes_differ(four, "CIAK".spec_bytes(), 0);
    lemma_bytes_differ(four, "CALV".spec_bytes(), 0);
    lemma_bytes_differ(four, "DKDL".spec_bytes(), 0);
    lemma_bytes_differ(four, "DKDN".spec_bytes(), 0);
    lemma_bytes_differ(four, "DKRP".spec_bytes(), 0);
    lemma_bytes_differ(four, "DKUP".spec_bytes(), 0);
    lemma_bytes_differ(four, "DMDN".spec_bytes(), 0);
    lemma_bytes_differ(four, "DMUP".spec_bytes(), 0);
    lemma_bytes_differ(four, "DMMV".spec_bytes(), 0);
    lemma_bytes_differ(four, "DMRM".spec_bytes(), 0);
    lemma_bytes_differ(four, "DMWM".spec_bytes(), 0);
    lemma_bytes_differ(four, "DCLP".spec_bytes(), 0);
    lemma_bytes_differ(four, "DINF".spec_bytes(), 0);
    lemma_bytes_differ(four, "DSOP".spec_bytes(), 0);
    lemma_bytes_differ(four, "DFTR".spec_bytes(), 0);
    lemma_bytes_differ(four, "DDRG".spec_bytes(), 0);
    lemma_bytes_differ(four, "SECN".spec_bytes(), 0);
    lemma_bytes_differ(four, "LSYN".spec_bytes(), 0);
    lemma_bytes_differ(four, "QINF".spec_bytes(), 0);
    lemma_bytes_differ(four, "EICV".spec_bytes(), 1);
}

#[verifier::rlimit(100)]
proof fn lemma_roundtrip_unknownclient(m: <MessageUnknownClient as View>::V)
    requires
        MessageUnknownClient::spec_encode(m).len() <= u32::MAX,
    ensures
        msg_parse(MessageUnknownClient::spec_encode(m)) == Ok::<MessageV, ProtocolErrorV>(MessageV::UnknownClient(m)),
{
    reveal_strlit("EUNK");
    lemma_ascii_code("EUNK");
    MessageUnknownClient::lemma_parse_encode(m);
    let enc = MessageUnknownClient::spec_encode(m);
    let four = enc.subrange(0, 4);
    reveal_strlit("CNOP");
    lemma_ascii_code("CNOP");
    reveal_strlit("CBYE");
    lemma_ascii_code("CBYE");
    reveal_strlit("CINN");
    lemma_ascii_code("CINN");
    reveal_strlit("COUT");
    lemma_ascii_code("COUT");
    reveal_strlit("CCLP");
    lemma_ascii_code("CCLP");
    reveal_strlit("CSEC");
    lemma_ascii_code("CSEC");
    reveal_strlit("CROP");
    lemma_ascii_code("CROP");
    reveal_strlit("CIAK");
    lemma_ascii_code("CIAK");
    reveal_strlit("CALV");
    lemma_ascii_code("CALV");
    reveal_strlit("DKDL");
    lemma_ascii_code("DKDL");
    reveal_strlit("DKDN");
    lemma_ascii_code("DKDN");
    reveal_strlit("DKRP");
    lemma_ascii_code("DKRP");
    reveal_strlit("DKUP");
    lemma_ascii_code("DKUP");
    reveal_strlit("DMDN");
    lemma_ascii_code("DMDN");
    reveal_strlit("DMUP");
    lemma_ascii_code("DMUP");
    reveal_strlit("DMMV");
    lemma_ascii_code("DMMV");
    reveal_strlit("DMRM");
    lemma_ascii_code("DMRM");
    reveal_strlit("DMWM");
    lemma_ascii_code("DMWM");
    reveal_strlit("DCLP");
    lemma_ascii_code("DCLP");
    reveal_strlit("DINF");
    lemma_ascii_code("DINF");
    reveal_strlit("DSOP");
    lemma_ascii_code("DSOP");
    reveal_strlit("DFTR");
    lemma_ascii_code("DFTR");
    reveal_strlit("DDRG");
    lemma_ascii_code("DDRG");
    reveal_strlit("SECN");
    lemma_ascii_code("SECN");
    reveal_strlit("LSYN");
    lemma_ascii_code("LSYN");
    reveal_strlit("QINF");
    lemma_ascii_code("QINF");
    reveal_strlit("EICV");
    lemma_ascii_code("EICV");
    reveal_strlit("EBSY");
    lemma_ascii_code("EBSY");
    encode_utf8_valid_utf8("EUNK"@);
    assert(four =~= "EUNK".spec_bytes());
    assert(valid_utf8(four));
    lemma_bytes_differ(four, "CNOP".spec_bytes(), 0);
    lemma_bytes_differ(four, "CBYE".spec_bytes(), 0);
    lemma_bytes_differ(four, "CINN".spec_bytes(), 0);
    lemma_bytes_differ(four, "COUT".spec_bytes(), 0);
    lemma_bytes_differ(four, "CCLP".spec_bytes(), 0);
    lemma_bytes_differ(four, "CSEC".spec_bytes(), 0);
    lemma_bytes_differ(four, "CROP".spec_bytes(), 0);
    lemma_bytes_differ(four, "CIAK".spec_bytes(), 0);
    lemma_bytes_differ(four, "CALV".spec_bytes(), 0);
    lemma_bytes_differ(four, "DKDL".spec_bytes(), 0);
    lemma_bytes_differ(four, "DKDN".spec_bytes(), 0);
    lemma_bytes_differ(four, "DKRP".spec_bytes(), 0);
    lemma_bytes_differ(four, "DKUP".spec_bytes(), 0);
    lemma_bytes_differ(four, "DMDN".spec_bytes(), 0);
    lemma_bytes_differ(four, "DMUP".spec_bytes(), 0);
    lemma_bytes_differ(four, "DMMV".spec_bytes(), 0);
    lemma_bytes_differ(four, "DMRM".spec_bytes(), 0);
    lemma_bytes_differ(four, "DMWM".spec_bytes(), 0);
    lemma_bytes_differ(four, "DCLP".spec_bytes(), 0);
    lemma_bytes_differ(four, "DINF".spec_bytes(), 0);
    lemma_bytes_differ(four, "DSOP".spec_bytes(), 0);
    lemma_bytes_differ(four, "DFTR".spec_bytes(), 0);
    lemma_bytes_differ(four, "DDRG".spec_bytes(), 0);
    lemma_bytes_differ(four, "SECN".spec_bytes(), 0);
    lemma_bytes_differ(four, "LSYN".spec_bytes(), 0);
    lemma_bytes_differ(four, "QINF".spec_bytes(), 0);
    lemma_bytes_differ(four, "EICV".spec_bytes(), 1);
    lemma_bytes_differ(four, "EBSY".spec_bytes(), 1);
}

#[verifier::rlimit(100)]
proof fn lemma_roundtrip_protocolerror(m: <MessageProtocolError as View>::V)
    requires
        MessageProtocolError::spec_encode(m).len() <= u32::MAX,
    ensures
        msg_parse(MessageProtocolError::spec_encode(m)) == Ok::<MessageV, ProtocolErrorV>(MessageV::ProtocolError(m)),
{
    reveal_strlit("EBAD");
    lemma_ascii_code("EBAD");
    MessageProtocolError::lemma_parse_encode(m);
    let enc = MessageProtocolError::spec_encode(m);
    let four = enc.subrange(0, 4);
    reveal_strlit("CNOP");
    lemma_ascii_code("CNOP");
    reveal_strlit("CBYE");
    lemma_ascii_code("CBYE");
    reveal_strlit("CINN");
    lemma_ascii_code("CINN");
    reveal_strlit("COUT");
    lemma_ascii_code("COUT");
    reveal_strlit("CCLP");
    lemma_ascii_code("CCLP");
    reveal_strlit("CSEC");
    lemma_ascii_code("CSEC");
    reveal_strlit("CROP");
    lemma_ascii_code("CROP");
    reveal_strlit("CIAK");
    lemma_ascii_code("CIAK");
    reveal_strlit("CALV");
    lemma_ascii_code("CALV");
    reveal_strlit("DKDL");
    lemma_ascii_code("DKDL");
    reveal_strlit("DKDN");
    lemma_ascii_code("DKDN");
    reveal_strlit("DKRP");
    lemma_ascii_code("DKRP");
    reveal_strlit("DKUP");
    lemma_ascii_code("DKUP");
    reveal_strlit("DMDN");
    lemma_ascii_code("DMDN");
    reveal_strlit("DMUP");
    lemma_ascii_code("DMUP");
    reveal_strlit("DMMV");
    lemma_ascii_code("DMMV");
    reveal_strlit("DMRM");
    lemma_ascii_code("DMRM");
    reveal_strlit("DMWM");
    lemma_ascii_code("DMWM");
    reveal_strlit("DCLP");
    lemma_ascii_code("DCLP");
    reveal_strlit("DINF");
    lemma_ascii_code("DINF");
    reveal_strlit("DSOP");
    lemma_ascii_code("DSOP");
    reveal_strlit("DFTR");
    lemma_ascii_code("DFTR");
    reveal_strlit("DDRG");
    lemma_ascii_code("DDRG");
    reveal_strlit("SECN");
    lemma_ascii_code("SECN");
    reveal_strlit("LSYN");
    lemma_ascii_code("LSYN");
    reveal_strlit("QINF");
    lemma_ascii_code("QINF");
    reveal_strlit("EICV");
    lemma_ascii_code("EICV");
    reveal_strlit("EBSY");
    lemma_ascii_code("EBSY");
    reveal_strlit("EUNK");
    lemma_ascii_code("EUNK");
    encode_utf8_valid_utf8("EBAD"@);
    assert(four =~= "EBAD".spec_bytes());
    assert(valid_utf8(four));
    lemma_bytes_differ(four, "CNOP".spec_bytes(), 0);
    lemma_bytes_differ(four, "CBYE".spec_bytes(), 0);
    lemma_bytes_differ(four, "CINN".spec_bytes(), 0);
    lemma_bytes_differ(four, "COUT".spec_bytes(), 0);
    lemma_bytes_differ(four, "CCLP".spec_bytes(), 0);
    lemma_bytes_differ(four, "CSEC".spec_bytes(), 0);
    lemma_bytes_differ(four, "CROP".spec_bytes(), 0);
    lemma_bytes_differ(four, "CIAK".spec_bytes(), 0);
    lemma_bytes_differ(four, "CALV".spec_bytes(), 0);
    lemma_bytes_differ(four, "DKDL".spec_bytes(), 0);
    lemma_bytes_differ(four, "DKDN".spec_bytes(), 0);
    lemma_bytes_differ(four, "DKRP".spec_bytes(), 0);
    lemma_bytes_differ(four, "DKUP".spec_bytes(), 0);
    lemma_bytes_differ(four, "DMDN".spec_bytes(), 0);
    lemma_bytes_differ(four, "DMUP".spec_bytes(), 0);
    lemma_bytes_differ(four, "DMMV".spec_bytes(), 0);
    lemma_bytes_differ(four, "DMRM".spec_bytes(), 0);
    lemma_bytes_differ(four, "DMWM".spec_bytes(), 0);
    lemma_bytes_differ(four, "DCLP".spec_bytes(), 0);
    lemma_bytes_differ(four, "DINF".spec_bytes(), 0);
    lemma_bytes_differ(four, "DSOP".spec_bytes(), 0);
    lemma_bytes_differ(four, "DFTR".spec_bytes(), 0);
    lemma_bytes_differ(four, "DDRG".spec_bytes(), 0);
    lemma_bytes_differ(four, "SECN".spec_bytes(), 0);
    lemma_bytes_differ(four, "LSYN".spec_bytes(), 0);
    lemma_bytes_differ(four, "QINF".spec_bytes(), 0);
    lemma_bytes_differ(four, "EICV".spec_bytes(), 1);
    lemma_bytes_differ(four, "EBSY".spec_bytes(), 2);
    lemma_bytes_differ(four, "EUNK".spec_bytes(), 1);
}

/// Round trip: parsing the payload encoding of any well-formed message
/// yields the message back.
pub proof fn lemma_message_roundtrip(v: MessageV)
    requires
        msg_wf(v),
    ensures
        msg_parse(msg_payload(v)) == Ok::<MessageV, ProtocolErrorV>(v),
{
    match v {
        MessageV::HelloBarrier(m) => lemma_roundtrip_hellobarrier(m),
        MessageV::HelloSynergy(m) => lemma_roundtrip_hellosynergy(m),
        MessageV::NoOp(m) => lemma_roundtrip_noop(m),
        MessageV::Close(m) => lemma_roundtrip_close(m),
        MessageV::CursorEntered(m) => lemma_roundtrip_cursorentered(m),
        MessageV::CursorLeft(m) => lemma_roundtrip_cursorleft(m),
        MessageV::ClientClipboard(m) => lemma_roundtrip_clientclipboard(m),
        MessageV::ScreenSaverChange(m) => lemma_roundtrip_screensaverchange(m),
        MessageV::ResetOptions(m) => lemma_roundtrip_resetoptions(m),
        MessageV::InfoAcknowledgment(m) => lemma_roundtrip_infoacknowledgment(m),
        MessageV::KeepAlive(m) => lemma_roundtrip_keepalive(m),
        MessageV::KeyDownWithLanguage(m) => lemma_roundtrip_keydownwithlanguage(m),
        MessageV::KeyDown(m) => lemma_roundtrip_keydown(m),
        MessageV::KeyRepeat(m) => lemma_roundtrip_keyrepeat(m),
        MessageV::KeyUp(m) => lemma_roundtrip_keyup(m),
        MessageV::MouseButtonDown(m) => lemma_roundtrip_mousebuttondown(m),
        MessageV::MouseButtonUp(m) => lemma_roundtrip_mousebuttonup(m),
        MessageV::MouseMove(m) => lemma_roundtrip_mousemove(m),
        MessageV::MouseRelativeMove(m) => lemma_roundtrip_mouserelativemove(m),
        MessageV::MouseWheel(m) => lemma_roundtrip_mousewheel(m),
        MessageV::ClipboardData(m) => lemma_roundtrip_clipboarddata(m),
        MessageV::ClientInfo(m) => lemma_roundtrip_clientinfo(m),
        MessageV::SetOptions(m) => lemma_roundtrip_setoptions(m),
        MessageV::FileTransfer(m) => lemma_roundtrip_filetransfer(m),
        MessageV::DragInfo(m) => lemma_roundtrip_draginfo(m),
        MessageV::SecureEncryption(m) => lemma_roundtrip_secureencryption(m),
        MessageV::LegacySynergy(m) => lemma_roundtrip_legacysynergy(m),
        MessageV::QueryInfo(m) => lemma_roundtrip_queryinfo(m),
        MessageV::IncompatibleVersion(m) => lemma_roundtrip_incompatibleversion(m),
        MessageV::ServerBusy(m) => lemma_roundtrip_serverbusy(m),
        MessageV::UnknownClient(m) => lemma_roundtrip_unknownclient(m),
        MessageV::ProtocolError(m) => lemma_roundtrip_protocolerror(m),
    }
}

/// Round trip at the frame level: a complete frame parses back to the
/// message it encodes, consuming 4 bytes of length prefix plus the payload.
pub proof fn lemma_frame_roundtrip(v: MessageV)
    requires
        msg_wf(v),
    ensures
        frame_parse(frame_encode(v)) == Ok::<(MessageV, int), ProtocolErrorV>(
            (v, 4 + msg_payload(v).len() as int),
        ),
{
    let p = msg_payload(v);
    let f = frame_encode(v);
    lemma_u32_be_roundtrip(p.len() as u32);
    assert(be_u32_at(f, 0) == p.len());
    assert(f.subrange(4, 4 + p.len() as int) =~= p);
    lemma_message_roundtrip(v);
}

/// Truncation safety: cutting an encoded frame at any length short of its
/// end parses to an `InsufficientData` error, never to a message and never
/// to another error.
pub proof fn lemma_frame_truncation(v: MessageV, n: int)
    requires
        msg_wf(v),
        0 <= n < frame_encode(v).len(),
    ensures
        frame_parse(frame_encode(v).take(n)) == Err::<(MessageV, int), ProtocolErrorV>(
            if n < 4 {
                insufficient(4, n)
            } else {
                insufficient(4 + msg_payload(v).len() as int, n)
            },
        ),
{
    let p = msg_payload(v);
    let f = frame_encode(v);
    let t = f.take(n);
    if n >= 4 {
        lemma_u32_be_roundtrip(p.len() as u32);
        assert(t[0] == f[0]);
        assert(t[1] == f[1]);
        assert(t[2] == f[2]);
        assert(t[3] == f[3]);
        assert(be_u32_at(t, 0) == p.len());
    }
}

/// Option-list arithmetic: encoding `k` option pairs writes an element
/// count of `1 + 2k` (the count field counts itself), and parsing the
/// encoding recovers exactly the `k` pairs in their original order.
pub proof fn lemma_set_options_arithmetic(opts: Seq<(u32, u32)>)
    requires
        MessageSetOptions::spec_encode(opts).len() <= u32::MAX,
    ensures
        be_u32_at(MessageSetOptions::spec_encode(opts), 4) as int == 1 + 2 * opts.len(),
        MessageSetOptions::spec_parse(MessageSetOptions::spec_encode(opts)) == Ok::<
            Seq<(u32, u32)>,
            ProtocolErrorV,
        >(opts),
{
    reveal_strlit("DSOP");
    lemma_ascii_code("DSOP");
    crate::protocol::options::lemma_pairs_encode_bytes(opts);
    let enc = MessageSetOptions::spec_encode(opts);
    let length: u32 = (1 + 2 * opts.len()) as u32;
    lemma_u32_be_roundtrip(length);
    assert(be_u32_at(enc, 4) == length);
    MessageSetOptions::lemma_parse_encode(opts);
}

} // verus!
