//! Programs: the bytes that are loaded into the memory of a machine.

use vstd::prelude::*;
use crate::error::MachineError;

verus! {

/// A program, as the bytes of its source.
pub struct Program(Vec<u8>);

impl View for Program {
    type V = Seq<u8>;

    closed spec fn view(&self) -> Seq<u8> {
        self.0@
    }
}

/// The bytes kept of a source: all of them, or, when asked, all but one
/// final newline.
pub open spec fn kept_source(bytes: Seq<u8>, ignore_trailing_newline: bool) -> Seq<u8> {
    if ignore_trailing_newline && bytes.len() > 0 && bytes.last() == 0x0a {
        bytes.drop_last()
    } else {
        bytes
    }
}

impl Program {
    /// A program made of the given bytes, as they are.
    pub fn from_iter(bytes: Vec<u8>) -> (r: Program)
        ensures
            r@ == bytes@,
    {
        Program(bytes)
    }

    /// A program read from the whole content of a source. When
    /// `ignore_trailing_newline` is set, one final `\n` is dropped. A program
    /// left without any byte is refused.
    pub fn new(bytes: Vec<u8>, ignore_trailing_newline: bool) -> (r: Result<Program, MachineError>)
        ensures
            kept_source(bytes@, ignore_trailing_newline).len() == 0 <==> r == Err::<Program, MachineError>(MachineError::ProgramEmpty),
            kept_source(bytes@, ignore_trailing_newline).len() > 0 ==> r is Ok,
            r is Ok ==> r->Ok_0@ == kept_source(bytes@, ignore_trailing_newline),
    {
        let mut bytes = bytes;
        let n = bytes.len();
        if ignore_trailing_newline && n > 0 && bytes[n - 1] == 0x0a {
            bytes.pop();
        }
        if bytes.len() == 0 {
            Err(MachineError::ProgramEmpty)
        } else {
            Ok(Program(bytes))
        }
    }

    /// The bytes of the program.
    pub fn memory(&self) -> (r: &[u8])
        ensures
            r@ == self@,
    {
        self.0.as_slice()
    }
}

} // verus!
