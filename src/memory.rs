//! Views of a memory image: as opcodes, as one-character mnemonics, or as
//! long mnemonics, for disassembly.

use vstd::prelude::*;
use crate::instruction::{decode, decode_mnemonic, Instruction, LongMnemonic, Mnemonic};
use crate::op_codes::OpCode;

verus! {

/// A memory image as the opcodes stored in its cells.
#[derive(Clone)]
pub struct OpCodes(pub Vec<OpCode>);

/// A memory image as the mnemonics of its instructions.
#[derive(Clone)]
pub struct Mnemonics(pub Vec<Mnemonic>);

/// A memory image as the long names of its instructions.
#[derive(Clone)]
pub struct LongMnemonics(pub Vec<LongMnemonic>);

/// Whether a cell value is a printable ASCII character, which a listing may
/// show as it is.
pub fn is_visible(value: u8) -> (r: bool)
    ensures
        r == (32 <= value <= 126),
{
    32 <= value && value <= 126
}

impl OpCodes {
    /// The opcode of the instruction that each mnemonic stands for; a
    /// character that is no mnemonic gives `NOP`.
    pub fn from_mnemonics(mnemos: &Mnemonics) -> (r: OpCodes)
        ensures
            r.0@.len() == mnemos.0@.len(),
            forall|i: int| 0 <= i < r.0@.len() ==> r.0@[i] == decode_mnemonic(#[trigger] mnemos.0@[i]).spec_op_code(),
    {
        let mut op_codes: Vec<OpCode> = Vec::with_capacity(mnemos.0.len());
        let mut i: usize = 0;
        while i < mnemos.0.len()
            invariant
                i <= mnemos.0@.len(),
                op_codes@.len() == i,
                forall|k: int| 0 <= k < i ==> op_codes@[k] == decode_mnemonic(#[trigger] mnemos.0@[k]).spec_op_code(),
            decreases mnemos.0@.len() - i,
        {
            op_codes.push(Instruction::from_mnemonic(mnemos.0[i]).op_code());
            i = i + 1;
        }
        OpCodes(op_codes)
    }
}

impl Mnemonics {
    /// The mnemonic of the instruction that each cell decodes to.
    pub fn from_op_codes(op_codes: &OpCodes) -> (r: Mnemonics)
        ensures
            r.0@.len() == op_codes.0@.len(),
            forall|i: int| 0 <= i < r.0@.len() ==> r.0@[i] == decode(#[trigger] op_codes.0@[i]).spec_mnemonic(),
    {
        let mut mnemos: Vec<Mnemonic> = Vec::with_capacity(op_codes.0.len());
        let mut i: usize = 0;
        while i < op_codes.0.len()
            invariant
                i <= op_codes.0@.len(),
                mnemos@.len() == i,
                forall|k: int| 0 <= k < i ==> mnemos@[k] == decode(#[trigger] op_codes.0@[k]).spec_mnemonic(),
            decreases op_codes.0@.len() - i,
        {
            mnemos.push(Instruction::from_op_code(op_codes.0[i]).mnemonic());
            i = i + 1;
        }
        Mnemonics(mnemos)
    }
}

impl LongMnemonics {
    /// The long mnemonic of the instruction that each cell decodes to.
    pub fn from_op_codes(op_codes: &OpCodes) -> (r: LongMnemonics)
        ensures
            r.0@.len() == op_codes.0@.len(),
            forall|i: int| 0 <= i < r.0@.len() ==> r.0@[i]@ == decode(#[trigger] op_codes.0@[i]).spec_long_mnemonic(),
    {
        let mut names: Vec<LongMnemonic> = Vec::with_capacity(op_codes.0.len());
        let mut i: usize = 0;
        while i < op_codes.0.len()
            invariant
                i <= op_codes.0@.len(),
                names@.len() == i,
                forall|k: int| 0 <= k < i ==> names@[k]@ == decode(#[trigger] op_codes.0@[k]).spec_long_mnemonic(),
            decreases op_codes.0@.len() - i,
        {
            names.push(Instruction::from_op_code(op_codes.0[i]).long_mnemonic());
            i = i + 1;
        }
        LongMnemonics(names)
    }

    /// The long mnemonic of the instruction that each mnemonic stands for; a
    /// character that is no mnemonic gives `Nop`.
    pub fn from_mnemonics(mnemos: &Mnemonics) -> (r: LongMnemonics)
        ensures
            r.0@.len() == mnemos.0@.len(),
            forall|i: int| 0 <= i < r.0@.len() ==> r.0@[i]@ == decode_mnemonic(#[trigger] mnemos.0@[i]).spec_long_mnemonic(),
    {
        let mut names: Vec<LongMnemonic> = Vec::with_capacity(mnemos.0.len());
        let mut i: usize = 0;
        while i < mnemos.0.len()
            invariant
                i <= mnemos.0@.len(),
                names@.len() == i,
                forall|k: int| 0 <= k < i ==> names@[k]@ == decode_mnemonic(#[trigger] mnemos.0@[k]).spec_long_mnemonic(),
            decreases mnemos.0@.len() - i,
        {
            names.push(Instruction::from_mnemonic(mnemos.0[i]).long_mnemonic());
            i = i + 1;
        }
        LongMnemonics(names)
    }
}

} // verus!
