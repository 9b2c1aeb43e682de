//! Frame transport: turns a raw ordered byte stream into a sequence of
//! complete length-prefixed frames.
//!
//! The accumulator takes stream bytes in whatever pieces a read delivers
//! and hands out one parsed message per complete frame: nothing is
//! delivered until at least the 4-byte length and then the declared number
//! of payload bytes have arrived, and a delivered frame's bytes leave the
//! buffer exactly.  Writing the stream side is the caller's: a frame
//! produced by [`crate::protocol::Message::to_bytes`] is written whole,
//! never interleaved with another partial frame.

use vstd::prelude::*;

use crate::protocol::model::{ProtocolErrorV, be_u32_at};
use crate::protocol::wire::ProtocolError;
use crate::protocol::message::{Message, MessageV, msg_parse, parse_message};

verus! {

/// Accumulates stream bytes and yields complete frames.
#[derive(Debug)]
pub struct FrameAccumulator {
    buffer: Vec<u8>,
}

impl View for FrameAccumulator {
    type V = Seq<u8>;

    closed spec fn view(&self) -> Seq<u8> {
        self.buffer@
    }
}

impl FrameAccumulator {
    /// An empty accumulator.
    pub fn new() -> (r: Self)
        ensures
            r@ == Seq::<u8>::empty(),
    {
        FrameAccumulator { buffer: Vec::new() }
    }

    /// How many bytes are buffered.
    pub fn len(&self) -> (r: usize)
        ensures
            r == self@.len(),
    {
        self.buffer.len()
    }

    /// Appends the bytes one stream read delivered.
    pub fn extend(&mut self, data: &[u8])
        ensures
            final(self)@ == old(self)@ + data@,
    {
        let mut i: usize = 0;
        while i < data.len()
            invariant
                0 <= i <= data@.len(),
                self@ == old(self)@ + data@.subrange(0, i as int),
            decreases data@.len() - i,
        {
            self.buffer.push(data[i]);
            i = i + 1;
            proof {
                assert(self@ =~= old(self)@ + data@.subrange(0, i as int));
            }
        }
        proof {
            assert(data@.subrange(0, data@.len() as int) =~= data@);
        }
    }

    /// Delivers the next complete frame's message, or `None` while the
    /// length prefix or the declared payload is still partial.  A
    /// delivered frame — parsed or malformed — is consumed exactly; an
    /// incomplete one leaves the buffer untouched.
    pub fn next_message(&mut self) -> (r: Option<Result<Message, ProtocolError>>)
        ensures
            match r {
                None => final(self)@ == old(self)@ && (old(self)@.len() < 4 || old(self)@.len()
                    < 4 + be_u32_at(old(self)@, 0)),
                Some(res) => {
                    let n = be_u32_at(old(self)@, 0) as int;
                    &&& old(self)@.len() >= 4 + n
                    &&& final(self)@ == old(self)@.skip(4 + n)
                    &&& match res {
                        Ok(m) => msg_parse(old(self)@.subrange(4, 4 + n)) == Ok::<
                            MessageV,
                            ProtocolErrorV,
                        >(m@),
                        Err(e) => msg_parse(old(self)@.subrange(4, 4 + n)) == Err::<
                            MessageV,
                            ProtocolErrorV,
                        >(e@),
                    }
                },
            },
    {
        let ghost pre = self@;
        if self.buffer.len() < 4 {
            return None;
        }
        let b0 = self.buffer[0];
        let b1 = self.buffer[1];
        let b2 = self.buffer[2];
        let b3 = self.buffer[3];
        let hi: u16 = (b0 as u16) * 256 + (b1 as u16);
        let lo: u16 = (b2 as u16) * 256 + (b3 as u16);
        let length: usize = ((hi as u32) * 0x10000 + (lo as u32)) as usize;
        proof {
            assert(length == be_u32_at(pre, 0));
        }
        if self.buffer.len() - 4 < length {
            return None;
        }
        let total = 4 + length;
        let payload = vstd::slice::slice_subrange(self.buffer.as_slice(), 4, total);
        let parsed = parse_message(payload);
        let mut rest: Vec<u8> = Vec::new();
        let mut i: usize = total;
        while i < self.buffer.len()
            invariant
                total <= i <= self.buffer@.len(),
                self.buffer@ == pre,
                total == 4 + be_u32_at(pre, 0),
                rest@ == pre.subrange(total as int, i as int),
            decreases self.buffer@.len() - i,
        {
            rest.push(self.buffer[i]);
            i = i + 1;
            proof {
                assert(rest@ =~= pre.subrange(total as int, i as int));
            }
        }
        self.buffer = rest;
        proof {
            assert(self@ =~= pre.skip(4 + be_u32_at(pre, 0) as int));
        }
        Some(parsed)
    }
}

} // verus!
