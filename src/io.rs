//! Ready-made inputs and outputs for the machine.

use vstd::prelude::*;
use std::collections::VecDeque;
use crate::interpreter::{ByteRead, ByteWrite};

verus! {

/// An output that accepts every byte and keeps none; what it accepted is
/// recorded in ghost state only.
pub struct SinkDebug {
    accepted: Ghost<Seq<u8>>,
}

/// An output that discards what it is given.
pub fn sink_debug() -> (r: SinkDebug)
    ensures
        r.written() == Seq::<u8>::empty(),
{
    SinkDebug { accepted: Ghost(Seq::empty()) }
}

impl ByteWrite for SinkDebug {
    closed spec fn written(&self) -> Seq<u8> {
        self.accepted@
    }

    fn write_byte(&mut self, byte: u8) -> (ok: bool) {
        self.accepted = Ghost(self.accepted@.push(byte));
        true
    }
}

/// Bytes written are appended to the vector.
impl ByteWrite for Vec<u8> {
    open spec fn written(&self) -> Seq<u8> {
        self@
    }

    fn write_byte(&mut self, byte: u8) -> (ok: bool) {
        self.push(byte);
        true
    }
}

/// Bytes are read from the front of the queue; an empty queue is the end of
/// the input.
impl ByteRead for VecDeque<u8> {
    open spec fn pending(&self) -> Seq<u8> {
        self@
    }

    fn read_byte(&mut self) -> (r: Option<u8>) {
        let r = self.pop_front();
        proof {
            if old(self)@.len() > 0 {
                assert(self@ =~= old(self)@.drop_first());
            }
        }
        r
    }
}

} // verus!
