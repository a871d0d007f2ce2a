//! The instruction set: each opcode with its numeric code, its one-character
//! mnemonic and its long mnemonic, and the decoding of arbitrary bytes and
//! characters.

use vstd::prelude::*;
use crate::op_codes::{self, OpCode};

verus! {

/// One-character source form of an instruction.
pub type Mnemonic = char;

/// Human-readable name of an instruction.
pub type LongMnemonic = &'static str;

/// The instructions of the machine, in opcode order.
#[derive(Debug, Clone, Copy, PartialEq, Eq, Structural)]
pub enum Instruction {
    /// No-operation (`;`).
    Nop,
    /// Reset the registers (`R`).
    Reset,
    /// Halt program execution (`H`).
    Halt,
    /// Read one byte of input and push it (`I`).
    In,
    /// Pop a word and write it as one byte of output (`O`).
    Out,
    /// Pop the stack (`p`).
    Pop,
    /// Duplicate the top of the stack (`D`).
    Dup,
    /// Push the program counter (`C`).
    PushPc,
    /// Pop the stack into the program counter (`c`).
    PopPc,
    /// Pop the stack into the stack pointer (`Y`).
    PopSp,
    /// Set the stack pointer to the next TARGET (`G`).
    SpTgt,
    /// Push the NZ flag (`P`).
    PushNz,
    /// Swap the top two stacked words (`S`).
    Swap,
    /// Push a zero (`0`).
    Push0,
    /// Add the top two stacked words (`+`).
    Add,
    /// Subtract the top two stacked words (`-`).
    Sub,
    /// Increment the top of the stack (`.`).
    Inc,
    /// Decrement the top of the stack (`,`).
    Dec,
    /// Multiply the top two stacked words (`*`).
    Mul,
    /// Divide the top two stacked words (`/`).
    Div,
    /// Bitwise exclusive or (`^`).
    Xor,
    /// Bitwise and (`&`).
    And,
    /// Bitwise or (`|`).
    Or,
    /// Shift the top of the stack left (`(`).
    Shl,
    /// Shift the top of the stack right (`)`).
    Shr,
    /// Bitwise invert the top of the stack (`~`).
    Not,
    /// Skip the next instruction if NZ is false (`Z`).
    Bz,
    /// Skip the next instruction if NZ is true (`z`).
    Bnz,
    /// Skip the next instruction if the top two words are equal (`=`).
    Beq,
    /// Skip the next instruction if the second word is greater (`>`).
    Bgt,
    /// Skip the next instruction if the second word is less (`{`).
    Blt,
    /// Skip the next instruction if the second word is greater or equal (`}`).
    Bge,
    /// Start of a loop (`L`).
    Loop,
    /// End of a loop: go back after the preceding LOOP (`]`).
    EndL,
    /// Branch after the next TARGET (`B`).
    BraN,
    /// Branch after the preceding TARGET (`b`).
    BraP,
    /// Marker for SPTGT, BRAN and BRAP (`T`).
    Target,
    /// Skip over the next one instruction (`1`).
    Skip1,
    /// Skip over the next two instructions (`2`).
    Skip2,
    /// Skip over the next three instructions (`3`).
    Skip3,
    /// Skip over the next four instructions (`4`).
    Skip4,
    /// Skip over the next five instructions (`5`).
    Skip5,
    /// Skip over the next six instructions (`6`).
    Skip6,
    /// Skip over the next seven instructions (`7`).
    Skip7,
    /// Skip over the next eight instructions (`8`).
    Skip8,
    /// Skip over the next nine instructions (`9`).
    Skip9,
}

impl Instruction {
    /// The numeric code of the instruction.
    pub open spec fn spec_op_code(self) -> OpCode {
        match self {
            Instruction::Nop => 0,
            Instruction::Reset => 1,
            Instruction::Halt => 2,
            Instruction::In => 3,
            Instruction::Out => 4,
            Instruction::Pop => 5,
            Instruction::Dup => 6,
            Instruction::PushPc => 7,
            Instruction::PopPc => 8,
            Instruction::PopSp => 9,
            Instruction::SpTgt => 10,
            Instruction::PushNz => 11,
            Instruction::Swap => 12,
            Instruction::Push0 => 13,
            Instruction::Add => 14,
            Instruction::Sub => 15,
            Instruction::Inc => 16,
            Instruction::Dec => 17,
            Instruction::Mul => 18,
            Instruction::Div => 19,
            Instruction::Xor => 20,
            Instruction::And => 21,
            Instruction::Or => 22,
            Instruction::Shl => 23,
            Instruction::Shr => 24,
            Instruction::Not => 25,
            Instruction::Bz => 26,
            Instruction::Bnz => 27,
            Instruction::Beq => 28,
            Instruction::Bgt => 29,
            Instruction::Blt => 30,
            Instruction::Bge => 31,
            Instruction::Loop => 32,
            Instruction::EndL => 33,
            Instruction::BraN => 34,
            Instruction::BraP => 35,
            Instruction::Target => 36,
            Instruction::Skip1 => 37,
            Instruction::Skip2 => 38,
            Instruction::Skip3 => 39,
            Instruction::Skip4 => 40,
            Instruction::Skip5 => 41,
            Instruction::Skip6 => 42,
            Instruction::Skip7 => 43,
            Instruction::Skip8 => 44,
            Instruction::Skip9 => 45,
        }
    }

    /// The one-character mnemonic of the instruction.
    pub open spec fn spec_mnemonic(self) -> Mnemonic {
        match self {
            Instruction::Nop => ';',
            Instruction::Reset => 'R',
            Instruction::Halt => 'H',
            Instruction::In => 'I',
            Instruction::Out => 'O',
            Instruction::Pop => 'p',
            Instruction::Dup => 'D',
            Instruction::PushPc => 'C',
            Instruction::PopPc => 'c',
            Instruction::PopSp => 'Y',
            Instruction::SpTgt => 'G',
            Instruction::PushNz => 'P',
            Instruction::Swap => 'S',
            Instruction::Push0 => '0',
            Instruction::Add => '+',
            Instruction::Sub => '-',
            Instruction::Inc => '.',
            Instruction::Dec => ',',
            Instruction::Mul => '*',
            Instruction::Div => '/',
            Instruction::Xor => '^',
            Instruction::And => '&',
            Instruction::Or => '|',
            Instruction::Shl => '(',
            Instruction::Shr => ')',
            Instruction::Not => '~',
            Instruction::Bz => 'Z',
            Instruction::Bnz => 'z',
            Instruction::Beq => '=',
            Instruction::Bgt => '>',
            Instruction::Blt => '{',
            Instruction::Bge => '}',
            Instruction::Loop => 'L',
            Instruction::EndL => ']',
            Instruction::BraN => 'B',
            Instruction::BraP => 'b',
            Instruction::Target => 'T',
            Instruction::Skip1 => '1',
            Instruction::Skip2 => '2',
            Instruction::Skip3 => '3',
            Instruction::Skip4 => '4',
            Instruction::Skip5 => '5',
            Instruction::Skip6 => '6',
            Instruction::Skip7 => '7',
            Instruction::Skip8 => '8',
            Instruction::Skip9 => '9',
        }
    }

    /// The long mnemonic of the instruction.
    pub open spec fn spec_long_mnemonic(self) -> Seq<char> {
        match self {
            Instruction::Nop => "Nop"@,
            Instruction::Reset => "Reset"@,
            Instruction::Halt => "Halt"@,
            Instruction::In => "In"@,
            Instruction::Out => "Out"@,
            Instruction::Pop => "Pop"@,
            Instruction::Dup => "Dup"@,
            Instruction::PushPc => "PushPc"@,
            Instruction::PopPc => "PopPc"@,
            Instruction::PopSp => "PopSp"@,
            Instruction::SpTgt => "SpTgt"@,
            Instruction::PushNz => "PushNz"@,
            Instruction::Swap => "Swap"@,
            Instruction::Push0 => "Push0"@,
            Instruction::Add => "Add"@,
            Instruction::Sub => "Sub"@,
            Instruction::Inc => "Inc"@,
            Instruction::Dec => "Dec"@,
            Instruction::Mul => "Mul"@,
            Instruction::Div => "Div"@,
            Instruction::Xor => "Xor"@,
            Instruction::And => "And"@,
            Instruction::Or => "Or"@,
            Instruction::Shl => "Shl"@,
            Instruction::Shr => "Shr"@,
            Instruction::Not => "Not"@,
            Instruction::Bz => "Bz"@,
            Instruction::Bnz => "Bnz"@,
            Instruction::Beq => "Beq"@,
            Instruction::Bgt => "Bgt"@,
            Instruction::Blt => "Blt"@,
            Instruction::Bge => "Bge"@,
            Instruction::Loop => "Loop"@,
            Instruction::EndL => "EndL"@,
            Instruction::BraN => "BraN"@,
            Instruction::BraP => "BraP"@,
            Instruction::Target => "Target"@,
            Instruction::Skip1 => "Skip1"@,
            Instruction::Skip2 => "Skip2"@,
            Instruction::Skip3 => "Skip3"@,
            Instruction::Skip4 => "Skip4"@,
            Instruction::Skip5 => "Skip5"@,
            Instruction::Skip6 => "Skip6"@,
            Instruction::Skip7 => "Skip7"@,
            Instruction::Skip8 => "Skip8"@,
            Instruction::Skip9 => "Skip9"@,
        }
    }

    /// Decodes a byte: the assigned codes give their instruction, every other byte `Nop`.
    pub fn from_op_code(op_code: OpCode) -> (r: Instruction)
        ensures
            r == decode(op_code),
    {
        match op_code {
            op_codes::RESET => Instruction::Reset,
            op_codes::HALT => Instruction::Halt,
            op_codes::IN => Instruction::In,
            op_codes::OUT => Instruction::Out,
            op_codes::POP => Instruction::Pop,
            op_codes::DUP => Instruction::Dup,
            op_codes::PUSHPC => Instruction::PushPc,
            op_codes::POPPC => Instruction::PopPc,
            op_codes::POPSP => Instruction::PopSp,
            op_codes::SPTGT => Instruction::SpTgt,
            op_codes::PUSHNZ => Instruction::PushNz,
            op_codes::SWAP => Instruction::Swap,
            op_codes::PUSH0 => Instruction::Push0,
            op_codes::ADD => Instruction::Add,
            op_codes::SUB => Instruction::Sub,
            op_codes::INC => Instruction::Inc,
            op_codes::DEC => Instruction::Dec,
            op_codes::MUL => Instruction::Mul,
            op_codes::DIV => Instruction::Div,
            op_codes::XOR => Instruction::Xor,
            op_codes::AND => Instruction::And,
            op_codes::OR => Instruction::Or,
            op_codes::SHL => Instruction::Shl,
            op_codes::SHR => Instruction::Shr,
            op_codes::NOT => Instruction::Not,
            op_codes::BZ => Instruction::Bz,
            op_codes::BNZ => Instruction::Bnz,
            op_codes::BEQ => Instruction::Beq,
            op_codes::BGT => Instruction::Bgt,
            op_codes::BLT => Instruction::Blt,
            op_codes::BGE => Instruction::Bge,
            op_codes::LOOP => Instruction::Loop,
            op_codes::ENDL => Instruction::EndL,
            op_codes::BRAN => Instruction::BraN,
            op_codes::BRAP => Instruction::BraP,
            op_codes::TARGET => Instruction::Target,
            op_codes::SKIP1 => Instruction::Skip1,
            op_codes::SKIP2 => Instruction::Skip2,
            op_codes::SKIP3 => Instruction::Skip3,
            op_codes::SKIP4 => Instruction::Skip4,
            op_codes::SKIP5 => Instruction::Skip5,
            op_codes::SKIP6 => Instruction::Skip6,
            op_codes::SKIP7 => Instruction::Skip7,
            op_codes::SKIP8 => Instruction::Skip8,
            op_codes::SKIP9 => Instruction::Skip9,
            _ => Instruction::Nop,
        }
    }

    /// Reads a mnemonic character: the assigned mnemonics give their instruction,
    /// every other character `Nop`.
    pub fn from_mnemonic(mnemonic: Mnemonic) -> (r: Instruction)
        ensures
            r == decode_mnemonic(mnemonic),
    {
        match mnemonic {
            'R' => Instruction::Reset,
            'H' => Instruction::Halt,
            'I' => Instruction::In,
            'O' => Instruction::Out,
            'p' => Instruction::Pop,
            'D' => Instruction::Dup,
            'C' => Instruction::PushPc,
            'c' => Instruction::PopPc,
            'Y' => Instruction::PopSp,
            'G' => Instruction::SpTgt,
            'P' => Instruction::PushNz,
            'S' => Instruction::Swap,
            '0' => Instruction::Push0,
            '+' => Instruction::Add,
            '-' => Instruction::Sub,
            '.' => Instruction::Inc,
            ',' => Instruction::Dec,
            '*' => Instruction::Mul,
            '/' => Instruction::Div,
            '^' => Instruction::Xor,
            '&' => Instruction::And,
            '|' => Instruction::Or,
            '(' => Instruction::Shl,
            ')' => Instruction::Shr,
            '~' => Instruction::Not,
            'Z' => Instruction::Bz,
            'z' => Instruction::Bnz,
            '=' => Instruction::Beq,
            '>' => Instruction::Bgt,
            '{' => Instruction::Blt,
            '}' => Instruction::Bge,
            'L' => Instruction::Loop,
            ']' => Instruction::EndL,
            'B' => Instruction::BraN,
            'b' => Instruction::BraP,
            'T' => Instruction::Target,
            '1' => Instruction::Skip1,
            '2' => Instruction::Skip2,
            '3' => Instruction::Skip3,
            '4' => Instruction::Skip4,
            '5' => Instruction::Skip5,
            '6' => Instruction::Skip6,
            '7' => Instruction::Skip7,
            '8' => Instruction::Skip8,
            '9' => Instruction::Skip9,
            _ => Instruction::Nop,
        }
    }

    /// The numeric code of the instruction.
    pub fn op_code(self) -> (r: OpCode)
        ensures
            r == self.spec_op_code(),
    {
        match self {
            Instruction::Nop => op_codes::NOP,
            Instruction::Reset => op_codes::RESET,
            Instruction::Halt => op_codes::HALT,
            Instruction::In => op_codes::IN,
            Instruction::Out => op_codes::OUT,
            Instruction::Pop => op_codes::POP,
            Instruction::Dup => op_codes::DUP,
            Instruction::PushPc => op_codes::PUSHPC,
            Instruction::PopPc => op_codes::POPPC,
            Instruction::PopSp => op_codes::POPSP,
            Instruction::SpTgt => op_codes::SPTGT,
            Instruction::PushNz => op_codes::PUSHNZ,
            Instruction::Swap => op_codes::SWAP,
            Instruction::Push0 => op_codes::PUSH0,
            Instruction::Add => op_codes::ADD,
            Instruction::Sub => op_codes::SUB,
            Instruction::Inc => op_codes::INC,
            Instruction::Dec => op_codes::DEC,
            Instruction::Mul => op_codes::MUL,
            Instruction::Div => op_codes::DIV,
            Instruction::Xor => op_codes::XOR,
            Instruction::And => op_codes::AND,
            Instruction::Or => op_codes::OR,
            Instruction::Shl => op_codes::SHL,
            Instruction::Shr => op_codes::SHR,
            Instruction::Not => op_codes::NOT,
            Instruction::Bz => op_codes::BZ,
            Instruction::Bnz => op_codes::BNZ,
            Instruction::Beq => op_codes::BEQ,
            Instruction::Bgt => op_codes::BGT,
            Instruction::Blt => op_codes::BLT,
            Instruction::Bge => op_codes::BGE,
            Instruction::Loop => op_codes::LOOP,
            Instruction::EndL => op_codes::ENDL,
            Instruction::BraN => op_codes::BRAN,
            Instruction::BraP => op_codes::BRAP,
            Instruction::Target => op_codes::TARGET,
            Instruction::Skip1 => op_codes::SKIP1,
            Instruction::Skip2 => op_codes::SKIP2,
            Instruction::Skip3 => op_codes::SKIP3,
            Instruction::Skip4 => op_codes::SKIP4,
            Instruction::Skip5 => op_codes::SKIP5,
            Instruction::Skip6 => op_codes::SKIP6,
            Instruction::Skip7 => op_codes::SKIP7,
            Instruction::Skip8 => op_codes::SKIP8,
            Instruction::Skip9 => op_codes::SKIP9,
        }
    }

    /// The one-character mnemonic of the instruction.
    pub fn mnemonic(self) -> (r: Mnemonic)
        ensures
            r == self.spec_mnemonic(),
    {
        match self {
            Instruction::Nop => ';',
            Instruction::Reset => 'R',
            Instruction::Halt => 'H',
            Instruction::In => 'I',
            Instruction::Out => 'O',
            Instruction::Pop => 'p',
            Instruction::Dup => 'D',
            Instruction::PushPc => 'C',
            Instruction::PopPc => 'c',
            Instruction::PopSp => 'Y',
            Instruction::SpTgt => 'G',
            Instruction::PushNz => 'P',
            Instruction::Swap => 'S',
            Instruction::Push0 => '0',
            Instruction::Add => '+',
            Instruction::Sub => '-',
            Instruction::Inc => '.',
            Instruction::Dec => ',',
            Instruction::Mul => '*',
            Instruction::Div => '/',
            Instruction::Xor => '^',
            Instruction::And => '&',
            Instruction::Or => '|',
            Instruction::Shl => '(',
            Instruction::Shr => ')',
            Instruction::Not => '~',
            Instruction::Bz => 'Z',
            Instruction::Bnz => 'z',
            Instruction::Beq => '=',
            Instruction::Bgt => '>',
            Instruction::Blt => '{',
            Instruction::Bge => '}',
            Instruction::Loop => 'L',
            Instruction::EndL => ']',
            Instruction::BraN => 'B',
            Instruction::BraP => 'b',
            Instruction::Target => 'T',
            Instruction::Skip1 => '1',
            Instruction::Skip2 => '2',
            Instruction::Skip3 => '3',
            Instruction::Skip4 => '4',
            Instruction::Skip5 => '5',
            Instruction::Skip6 => '6',
            Instruction::Skip7 => '7',
            Instruction::Skip8 => '8',
            Instruction::Skip9 => '9',
        }
    }

    /// The long mnemonic of the instruction.
    pub fn long_mnemonic(self) -> (r: LongMnemonic)
        ensures
            r@ == self.spec_long_mnemonic(),
    {
        match self {
            Instruction::Nop => "Nop",
            Instruction::Reset => "Reset",
            Instruction::Halt => "Halt",
            Instruction::In => "In",
            Instruction::Out => "Out",
            Instruction::Pop => "Pop",
            Instruction::Dup => "Dup",
            Instruction::PushPc => "PushPc",
            Instruction::PopPc => "PopPc",
            Instruction::PopSp => "PopSp",
            Instruction::SpTgt => "SpTgt",
            Instruction::PushNz => "PushNz",
            Instruction::Swap => "Swap",
            Instruction::Push0 => "Push0",
            Instruction::Add => "Add",
            Instruction::Sub => "Sub",
            Instruction::Inc => "Inc",
            Instruction::Dec => "Dec",
            Instruction::Mul => "Mul",
            Instruction::Div => "Div",
            Instruction::Xor => "Xor",
            Instruction::And => "And",
            Instruction::Or => "Or",
            Instruction::Shl => "Shl",
            Instruction::Shr => "Shr",
            Instruction::Not => "Not",
            Instruction::Bz => "Bz",
            Instruction::Bnz => "Bnz",
            Instruction::Beq => "Beq",
            Instruction::Bgt => "Bgt",
            Instruction::Blt => "Blt",
            Instruction::Bge => "Bge",
            Instruction::Loop => "Loop",
            Instruction::EndL => "EndL",
            Instruction::BraN => "BraN",
            Instruction::BraP => "BraP",
            Instruction::Target => "Target",
            Instruction::Skip1 => "Skip1",
            Instruction::Skip2 => "Skip2",
            Instruction::Skip3 => "Skip3",
            Instruction::Skip4 => "Skip4",
            Instruction::Skip5 => "Skip5",
            Instruction::Skip6 => "Skip6",
            Instruction::Skip7 => "Skip7",
            Instruction::Skip8 => "Skip8",
            Instruction::Skip9 => "Skip9",
        }
    }
}

/// The instruction that a byte stored in memory decodes to.
pub open spec fn decode(op_code: OpCode) -> Instruction {
    if op_code == 1 {
        Instruction::Reset
    }
    else if op_code == 2 {
        Instruction::Halt
    }
    else if op_code == 3 {
        Instruction::In
    }
    else if op_code == 4 {
        Instruction::Out
    }
    else if op_code == 5 {
        Instruction::Pop
    }
    else if op_code == 6 {
        Instruction::Dup
    }
    else if op_code == 7 {
        Instruction::PushPc
    }
    else if op_code == 8 {
        Instruction::PopPc
    }
    else if op_code == 9 {
        Instruction::PopSp
    }
    else if op_code == 10 {
        Instruction::SpTgt
    }
    else if op_code == 11 {
        Instruction::PushNz
    }
    else if op_code == 12 {
        Instruction::Swap
    }
    else if op_code == 13 {
        Instruction::Push0
    }
    else if op_code == 14 {
        Instruction::Add
    }
    else if op_code == 15 {
        Instruction::Sub
    }
    else if op_code == 16 {
        Instruction::Inc
    }
    else if op_code == 17 {
        Instruction::Dec
    }
    else if op_code == 18 {
        Instruction::Mul
    }
    else if op_code == 19 {
        Instruction::Div
    }
    else if op_code == 20 {
        Instruction::Xor
    }
    else if op_code == 21 {
        Instruction::And
    }
    else if op_code == 22 {
        Instruction::Or
    }
    else if op_code == 23 {
        Instruction::Shl
    }
    else if op_code == 24 {
        Instruction::Shr
    }
    else if op_code == 25 {
        Instruction::Not
    }
    else if op_code == 26 {
        Instruction::Bz
    }
    else if op_code == 27 {
        Instruction::Bnz
    }
    else if op_code == 28 {
        Instruction::Beq
    }
    else if op_code == 29 {
        Instruction::Bgt
    }
    else if op_code == 30 {
        Instruction::Blt
    }
    else if op_code == 31 {
        Instruction::Bge
    }
    else if op_code == 32 {
        Instruction::Loop
    }
    else if op_code == 33 {
        Instruction::EndL
    }
    else if op_code == 34 {
        Instruction::BraN
    }
    else if op_code == 35 {
        Instruction::BraP
    }
    else if op_code == 36 {
        Instruction::Target
    }
    else if op_code == 37 {
        Instruction::Skip1
    }
    else if op_code == 38 {
        Instruction::Skip2
    }
    else if op_code == 39 {
        Instruction::Skip3
    }
    else if op_code == 40 {
        Instruction::Skip4
    }
    else if op_code == 41 {
        Instruction::Skip5
    }
    else if op_code == 42 {
        Instruction::Skip6
    }
    else if op_code == 43 {
        Instruction::Skip7
    }
    else if op_code == 44 {
        Instruction::Skip8
    }
    else if op_code == 45 {
        Instruction::Skip9
    }
    else {
        Instruction::Nop
    }
}

/// The instruction that a source character stands for.
pub open spec fn decode_mnemonic(c: Mnemonic) -> Instruction {
    if c == 'R' {
        Instruction::Reset
    }
    else if c == 'H' {
        Instruction::Halt
    }
    else if c == 'I' {
        Instruction::In
    }
    else if c == 'O' {
        Instruction::Out
    }
    else if c == 'p' {
        Instruction::Pop
    }
    else if c == 'D' {
        Instruction::Dup
    }
    else if c == 'C' {
        Instruction::PushPc
    }
    else if c == 'c' {
        Instruction::PopPc
    }
    else if c == 'Y' {
        Instruction::PopSp
    }
    else if c == 'G' {
        Instruction::SpTgt
    }
    else if c == 'P' {
        Instruction::PushNz
    }
    else if c == 'S' {
        Instruction::Swap
    }
    else if c == '0' {
        Instruction::Push0
    }
    else if c == '+' {
        Instruction::Add
    }
    else if c == '-' {
        Instruction::Sub
    }
    else if c == '.' {
        Instruction::Inc
    }
    else if c == ',' {
        Instruction::Dec
    }
    else if c == '*' {
        Instruction::Mul
    }
    else if c == '/' {
        Instruction::Div
    }
    else if c == '^' {
        Instruction::Xor
    }
    else if c == '&' {
        Instruction::And
    }
    else if c == '|' {
        Instruction::Or
    }
    else if c == '(' {
        Instruction::Shl
    }
    else if c == ')' {
        Instruction::Shr
    }
    else if c == '~' {
        Instruction::Not
    }
    else if c == 'Z' {
        Instruction::Bz
    }
    else if c == 'z' {
        Instruction::Bnz
    }
    else if c == '=' {
        Instruction::Beq
    }
    else if c == '>' {
        Instruction::Bgt
    }
    else if c == '{' {
        Instruction::Blt
    }
    else if c == '}' {
        Instruction::Bge
    }
    else if c == 'L' {
        Instruction::Loop
    }
    else if c == ']' {
        Instruction::EndL
    }
    else if c == 'B' {
        Instruction::BraN
    }
    else if c == 'b' {
        Instruction::BraP
    }
    else if c == 'T' {
        Instruction::Target
    }
    else if c == '1' {
        Instruction::Skip1
    }
    else if c == '2' {
        Instruction::Skip2
    }
    else if c == '3' {
        Instruction::Skip3
    }
    else if c == '4' {
        Instruction::Skip4
    }
    else if c == '5' {
        Instruction::Skip5
    }
    else if c == '6' {
        Instruction::Skip6
    }
    else if c == '7' {
        Instruction::Skip7
    }
    else if c == '8' {
        Instruction::Skip8
    }
    else if c == '9' {
        Instruction::Skip9
    }
    else {
        Instruction::Nop
    }
}

/// Whether a character is the mnemonic of some instruction.
pub open spec fn is_mnemonic(c: Mnemonic) -> bool {
    c == ';' || decode_mnemonic(c) != Instruction::Nop
}

/// Whether a byte is an assigned opcode rather than one that decodes as `NOP`.
pub fn is_valid_op_code(op_code: OpCode) -> (r: bool)
    ensures
        r == (op_code < op_codes::NUMBER_OF_OP_CODES),
{
    op_code < op_codes::NUMBER_OF_OP_CODES
}

/// Whether a character is an assigned mnemonic rather than one read as `NOP`.
pub fn is_valid_mnemonic(mnemonic: Mnemonic) -> (r: bool)
    ensures
        r == is_mnemonic(mnemonic),
{
    mnemonic == ';' || Instruction::from_mnemonic(mnemonic) != Instruction::Nop
}

impl From<OpCode> for Instruction {
    fn from(op_code: OpCode) -> (r: Instruction) {
        Instruction::from_op_code(op_code)
    }
}

impl vstd::std_specs::convert::FromSpecImpl<OpCode> for Instruction {
    open spec fn obeys_from_spec() -> bool {
        true
    }

    open spec fn from_spec(op_code: OpCode) -> Instruction {
        decode(op_code)
    }
}

impl From<Mnemonic> for Instruction {
    fn from(mnemonic: Mnemonic) -> (r: Instruction) {
        Instruction::from_mnemonic(mnemonic)
    }
}

impl vstd::std_specs::convert::FromSpecImpl<Mnemonic> for Instruction {
    open spec fn obeys_from_spec() -> bool {
        true
    }

    open spec fn from_spec(mnemonic: Mnemonic) -> Instruction {
        decode_mnemonic(mnemonic)
    }
}

impl From<Instruction> for OpCode {
    fn from(instruction: Instruction) -> (r: OpCode) {
        instruction.op_code()
    }
}

impl vstd::std_specs::convert::FromSpecImpl<Instruction> for OpCode {
    open spec fn obeys_from_spec() -> bool {
        true
    }

    open spec fn from_spec(instruction: Instruction) -> OpCode {
        instruction.spec_op_code()
    }
}

impl From<Instruction> for Mnemonic {
    fn from(instruction: Instruction) -> (r: Mnemonic) {
        instruction.mnemonic()
    }
}

impl vstd::std_specs::convert::FromSpecImpl<Instruction> for Mnemonic {
    open spec fn obeys_from_spec() -> bool {
        true
    }

    open spec fn from_spec(instruction: Instruction) -> Mnemonic {
        instruction.spec_mnemonic()
    }
}

/// Reading back the mnemonic of an instruction gives that instruction.
pub proof fn lemma_mnemonic_round_trip(i: Instruction)
    ensures
        decode_mnemonic(i.spec_mnemonic()) == i,
        is_mnemonic(i.spec_mnemonic()),
{
}

/// Decoding the numeric code of an instruction gives that instruction,
/// and every numeric code is an assigned one.
pub proof fn lemma_op_code_round_trip(i: Instruction)
    ensures
        decode(i.spec_op_code()) == i,
        i.spec_op_code() < op_codes::NUMBER_OF_OP_CODES,
{
}

/// An assigned code decodes to the instruction with that code; every other
/// byte decodes as `Nop`.
pub proof fn lemma_decode(b: OpCode)
    ensures
        b < op_codes::NUMBER_OF_OP_CODES ==> decode(b).spec_op_code() == b,
        b >= op_codes::NUMBER_OF_OP_CODES ==> decode(b) == Instruction::Nop,
{
}

/// A mnemonic character is the mnemonic of the instruction it stands for;
/// any other character stands for `Nop`.
pub proof fn lemma_decode_mnemonic(c: Mnemonic)
    ensures
        is_mnemonic(c) ==> decode_mnemonic(c).spec_mnemonic() == c,
        !is_mnemonic(c) ==> decode_mnemonic(c) == Instruction::Nop,
{
}

} // verus!
