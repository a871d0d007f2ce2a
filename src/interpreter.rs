//! The execution engine: a machine's memory and registers, loading a program,
//! and executing one instruction at a time.

use vstd::prelude::*;
use crate::error::MachineError;
use crate::instruction::{decode_mnemonic, is_mnemonic, is_valid_mnemonic, Instruction};
use crate::machine::{cell_modulus, lemma_wrap_bound, lemma_wrap_down, lemma_wrap_up, Machine, MAX_ARCH_LENGTH, MAX_ARCH_WIDTH, MIN_ARCH_WIDTH};
use crate::memory::OpCodes;
use crate::op_codes::{self, OpCode};
use crate::program::Program;

verus! {

/// Whether an instruction's input or output succeeded.
pub type ExecutionSucceeded = bool;

/// The opcode that a step executed, with whether it succeeded.
#[derive(Debug, Clone, Copy, PartialEq, Eq, Structural)]
pub struct Statement(pub OpCode, pub ExecutionSucceeded);

/// A copy of the state of a machine.
pub struct DebugInfos {
    pub memory: OpCodes,
    pub pc: usize,
    pub sp: usize,
    pub nz: bool,
}

/// A source of input bytes, read one at a time by `IN`.
///
/// `pending` is what the source will still give, in order. When nothing is
/// pending (at the end of the input, or after a read error) a read gives
/// `None`.
pub trait ByteRead {
    /// The bytes that the source will still give.
    spec fn pending(&self) -> Seq<u8>;

    /// The next byte, or `None` when nothing is pending.
    fn read_byte(&mut self) -> (r: Option<u8>)
        ensures
            r == first_byte(old(self).pending()),
            final(self).pending() == after_read(old(self).pending()),
    ;
}

/// A sink for output bytes, written one at a time by `OUT`.
///
/// `written` is what the sink has accepted so far, in order.
pub trait ByteWrite {
    /// The bytes that the sink has accepted.
    spec fn written(&self) -> Seq<u8>;

    /// Writes one byte; tells whether the write succeeded. A failed write
    /// accepts nothing.
    fn write_byte(&mut self, byte: u8) -> (ok: bool)
        ensures
            ok ==> final(self).written() == old(self).written().push(byte),
            !ok ==> final(self).written() == old(self).written(),
    ;
}

/// The byte that a read gives when `pending` is what is left to read.
pub open spec fn first_byte(pending: Seq<u8>) -> Option<u8> {
    if pending.len() > 0 {
        Some(pending[0])
    } else {
        None
    }
}

/// What is left to read after one read.
pub open spec fn after_read(pending: Seq<u8>) -> Seq<u8> {
    if pending.len() > 0 {
        pending.drop_first()
    } else {
        pending
    }
}

/// The byte that a source byte becomes in memory: the opcode of the
/// mnemonic it stands for, or else the byte itself, truncated to the width.
pub open spec fn load_cell(b: u8, width: nat) -> u8 {
    if is_mnemonic(b as char) {
        decode_mnemonic(b as char).spec_op_code()
    } else {
        (b as int % cell_modulus(width) as int) as u8
    }
}

/// The machine with a program's bytes loaded from address `0`; the cells
/// after the program are left as they were.
pub open spec fn load_program(m: Machine, program: Seq<u8>) -> Machine {
    Machine {
        memory: Seq::new(
            m.len(),
            |i: int|
                if i < program.len() {
                    load_cell(program[i], m.width)
                } else {
                    m.memory[i]
                },
        ),
        ..m
    }
}

/// The state of a fresh machine: `L` cells holding `NOP`, registers at zero.
pub open spec fn fresh_machine(arch_length: nat, arch_width: nat) -> Machine {
    Machine {
        memory: Seq::new(arch_length, |i: int| op_codes::NOP),
        pc: 0,
        sp: 0,
        nz: false,
        width: arch_width,
    }
}

/// Why a machine of `arch_length` cells of `arch_width` bits cannot be
/// built, if it cannot: the length is checked first.
pub open spec fn arch_error(arch_length: nat, arch_width: nat) -> Option<MachineError> {
    if arch_length == 0 || arch_length > MAX_ARCH_LENGTH {
        Some(MachineError::ArchLength)
    } else if arch_width < MIN_ARCH_WIDTH || arch_width > MAX_ARCH_WIDTH {
        Some(MachineError::ArchWidth)
    } else {
        None
    }
}

/// The main interpreter: it executes instructions, reads from an input and
/// writes to an output.
pub struct Interpreter {
    arch_width: u8,
    memory: Vec<OpCode>,
    pc: usize,
    sp: usize,
    nz: bool,
}

impl View for Interpreter {
    type V = Machine;

    closed spec fn view(&self) -> Machine {
        Machine {
            memory: self.memory@,
            pc: self.pc as nat,
            sp: self.sp as nat,
            nz: self.nz,
            width: self.arch_width as nat,
        }
    }
}

/// After a program is loaded, each of its cells holds the opcode of its
/// source byte when that byte is a mnemonic, and the byte itself otherwise.
/// The second case asks that the byte fit in a cell, as every byte does when
/// `W >= 8`; a larger byte is truncated.
pub proof fn lemma_loaded_cell(m: Machine, program: Seq<u8>, i: int)
    requires
        m.wf(),
        program.len() <= m.len(),
        0 <= i < program.len(),
        program[i] < m.modulus(),
    ensures
        is_mnemonic(program[i] as char) ==> load_program(m, program).reset().memory[i] == decode_mnemonic(
            program[i] as char,
        ).spec_op_code(),
        !is_mnemonic(program[i] as char) ==> load_program(m, program).reset().memory[i] == program[i],
{
    vstd::arithmetic::div_mod::lemma_small_mod(program[i] as nat, m.modulus());
}

impl Interpreter {
    /// A machine of `arch_length` cells of `arch_width` bits, all holding
    /// `NOP`, with `PC = 0`, `SP = 0` and `NZ = false`.
    pub fn new(arch_length: usize, arch_width: usize) -> (r: Result<Interpreter, MachineError>)
        ensures
            arch_error(arch_length as nat, arch_width as nat) matches Some(e) ==> r == Err::<Interpreter, MachineError>(e),
            arch_error(arch_length as nat, arch_width as nat) is None ==> {
                &&& r is Ok
                &&& r->Ok_0@ == fresh_machine(arch_length as nat, arch_width as nat)
                &&& r->Ok_0@.wf()
            },
    {
        if arch_length == 0 || arch_length > MAX_ARCH_LENGTH {
            return Err(MachineError::ArchLength);
        }
        if arch_width < MIN_ARCH_WIDTH || arch_width > MAX_ARCH_WIDTH {
            return Err(MachineError::ArchWidth);
        }
        let mut memory: Vec<OpCode> = Vec::with_capacity(arch_length);
        let mut i: usize = 0;
        while i < arch_length
            invariant
                i <= arch_length,
                memory@.len() == i,
                forall|k: int| 0 <= k < i ==> memory@[k] == op_codes::NOP,
            decreases arch_length - i,
        {
            memory.push(op_codes::NOP);
            i = i + 1;
        }
        let r = Interpreter { arch_width: arch_width as u8, memory, pc: 0, sp: 0, nz: false };
        assert(r@.memory =~= fresh_machine(arch_length as nat, arch_width as nat).memory);
        Ok(r)
    }

    /// Copies a program into memory from address `0`, then resets the
    /// registers. A source byte that is a mnemonic is stored as its opcode;
    /// any other byte is stored as it is, truncated to the width. Cells after
    /// the program are left unchanged. A program longer than the memory is
    /// refused, and the machine is then left as it was.
    pub fn copy_program(&mut self, program: &Program) -> (r: Result<(), MachineError>)
        requires
            old(self)@.wf(),
        ensures
            final(self)@.wf(),
            final(self)@.len() == old(self)@.len(),
            final(self)@.width == old(self)@.width,
            program@.len() > old(self)@.len() ==> {
                &&& r == Err::<(), MachineError>(MachineError::ProgramTooLarge)
                &&& final(self)@ == old(self)@
            },
            program@.len() <= old(self)@.len() ==> {
                &&& r is Ok
                &&& final(self)@ == load_program(old(self)@, program@).reset()
            },
    {
        let mnemos = program.memory();
        if mnemos.len() > self.memory.len() {
            return Err(MachineError::ProgramTooLarge);
        }
        let ghost m0 = self@;
        let modulus = self.cell_modulus();
        let mut i: usize = 0;
        while i < mnemos.len()
            invariant
                m0.wf(),
                mnemos@ == program@,
                mnemos@.len() <= m0.len(),
                modulus == m0.modulus(),
                i <= mnemos@.len(),
                self.memory@.len() == m0.len(),
                self.arch_width == m0.width,
                self.pc == m0.pc,
                self.sp == m0.sp,
                self.nz == m0.nz,
                forall|k: int| 0 <= k < i ==> self.memory@[k] == load_cell(program@[k], m0.width),
                forall|k: int| i <= k < m0.len() ==> self.memory@[k] == m0.memory[k],
            decreases mnemos@.len() - i,
        {
            let b = mnemos[i];
            let c = b as char;
            let v: u8 = if is_valid_mnemonic(c) {
                Instruction::from_mnemonic(c).op_code()
            } else {
                ((b as u32) % modulus) as u8
            };
            self.memory[i] = v;
            i = i + 1;
        }
        assert(self@.memory =~= load_program(m0, program@).memory);
        proof {
            assert forall|k: int| 0 <= k < self@.len() implies #[trigger] self@.memory[k] < self@.modulus() by {
                if k < program@.len() {
                    let c = program@[k] as char;
                    crate::instruction::lemma_op_code_round_trip(decode_mnemonic(c));
                }
            }
        }
        self.reset();
        Ok(())
    }

    /// `L`, the number of cells.
    pub fn arch_length(&self) -> (r: usize)
        ensures
            r == self@.len(),
    {
        self.memory.len()
    }

    /// `W`, the word width in bits.
    pub fn arch_width(&self) -> (r: usize)
        ensures
            r == self@.width,
    {
        self.arch_width as usize
    }

    /// Sets `PC`, `SP` and `NZ` back to `0`, `0` and `false`.
    pub fn reset(&mut self) -> (r: Statement)
        requires
            old(self)@.wf(),
        ensures
            final(self)@ == old(self)@.reset(),
            final(self)@.wf(),
            final(self)@.len() == old(self)@.len(),
            final(self)@.width == old(self)@.width,
            r == Statement(op_codes::RESET, true),
    {
        self.pc = 0;
        self.sp = 0;
        self.nz = false;
        Statement(op_codes::RESET, true)
    }

    fn cell_modulus(&self) -> (r: u32)
        requires
            self@.wf(),
        ensures
            r == self@.modulus(),
    {
        if self.arch_width >= 8 {
            256
        } else if self.arch_width == 7 {
            128
        } else {
            64
        }
    }

    /// `PC` moved forward by `n` cells, modulo `L`.
    fn increment_pc_n(&mut self, n: usize)
        requires
            old(self)@.wf(),
            n <= 10,
        ensures
            final(self)@ == old(self)@.advance(n as int),
            final(self)@.wf(),
    {
        proof {
            lemma_wrap_bound(self@, self.pc + n);
        }
        self.pc = ((self.pc as u64 + n as u64) % (self.memory.len() as u64)) as usize;
    }

    fn increment_pc(&mut self)
        requires
            old(self)@.wf(),
        ensures
            final(self)@ == old(self)@.advance(1),
            final(self)@.wf(),
    {
        self.increment_pc_n(1);
    }

    fn set_nz(&mut self, val: u8)
        ensures
            final(self)@ == old(self)@.with_nz(val as int),
    {
        self.nz = val != 0;
    }

    /// `SP` moved down one cell, modulo `L`.
    fn decrement_sp(&mut self)
        requires
            old(self)@.wf(),
        ensures
            final(self)@ == (Machine { sp: old(self)@.wrap(old(self)@.sp - 1), ..old(self)@ }),
            final(self)@.wf(),
    {
        proof {
            lemma_wrap_down(self@, self.sp as int);
        }
        self.sp = if self.sp == 0 { self.memory.len() - 1 } else { self.sp - 1 };
    }

    /// `SP` moved up one cell, modulo `L`.
    fn increment_sp(&mut self)
        requires
            old(self)@.wf(),
        ensures
            final(self)@ == (Machine { sp: old(self)@.wrap(old(self)@.sp + 1int), ..old(self)@ }),
            final(self)@.wf(),
    {
        proof {
            lemma_wrap_up(self@, self.sp as int);
        }
        self.sp = if self.sp + 1 == self.memory.len() { 0 } else { self.sp + 1 };
    }

    /// A value truncated to what a cell holds.
    fn trunc(&self, val: u64) -> (r: u8)
        requires
            self@.wf(),
        ensures
            r == self@.narrow(val as int),
            r < self@.modulus(),
    {
        (val % (self.cell_modulus() as u64)) as u8
    }

    /// The address `k` cells above `SP`, modulo `L`.
    fn above_sp(&self, k: usize) -> (r: usize)
        requires
            self@.wf(),
            k <= 2,
        ensures
            r == self@.wrap(self@.sp + k),
            r < self@.len(),
    {
        proof {
            lemma_wrap_bound(self@, self.sp + k);
        }
        ((self.sp as u64 + k as u64) % (self.memory.len() as u64)) as usize
    }
    /// The first cell after `PC` that holds `marker`, searching up to
    /// `L - 1` without wrapping.
    fn find_next_marker(&self, marker: u8) -> (r: Option<usize>)
        requires
            self@.wf(),
        ensures
            r is Some ==> r->Some_0 < self@.len() && self@.next_marker(marker) == Some(r->Some_0 as int),
            r is None ==> self@.next_marker(marker) is None,
    {
        let len = self.memory.len();
        let mut i: usize = self.pc + 1;
        while i < len
            invariant
                self@.wf(),
                len == self@.len(),
                self.pc < i <= len,
                forall|k: int| self.pc < k < i ==> self@.memory[k] != marker,
            decreases len - i,
        {
            if self.memory[i] == marker {
                proof {
                    crate::machine::lemma_next_marker(self@, marker, i as int);
                }
                return Some(i);
            }
            i = i + 1;
        }
        assert(forall|j: int| !self@.is_next_marker(marker, j));
        None
    }

    /// The last cell before `PC` that holds `marker`, searching down to `0`
    /// without wrapping.
    fn find_previous_marker(&self, marker: u8) -> (r: Option<usize>)
        requires
            self@.wf(),
        ensures
            r is Some ==> r->Some_0 < self@.pc && self@.previous_marker(marker) == Some(r->Some_0 as int),
            r is None ==> self@.previous_marker(marker) is None,
    {
        let mut i: usize = self.pc;
        while i > 0
            invariant
                self@.wf(),
                i <= self.pc,
                forall|k: int| i <= k < self.pc ==> self@.memory[k] != marker,
            decreases i,
        {
            i = i - 1;
            if self.memory[i] == marker {
                proof {
                    crate::machine::lemma_previous_marker(self@, marker, i as int);
                }
                return Some(i);
            }
        }
        assert(forall|j: int| !self@.is_previous_marker(marker, j));
        None
    }

    /// `SP` moved down one cell, then `val`, truncated, stored there.
    fn push_cell(&mut self, val: u64)
        requires
            old(self)@.wf(),
        ensures
            final(self)@ == old(self)@.push(val as int),
            final(self)@.wf(),
    {
        let c = self.trunc(val);
        self.decrement_sp();
        self.memory[self.sp] = c;
    }

    /// `PC` set after `found`, or moved forward by one when it is `None`.
    fn jump_after(&mut self, found: Option<usize>)
        requires
            old(self)@.wf(),
            found is Some ==> found->Some_0 < old(self)@.len(),
        ensures
            final(self)@ == old(self)@.jump_after(
                match found {
                    Some(j) => Some(j as int),
                    None => None,
                },
            ),
            final(self)@.wf(),
    {
        match found {
            Some(j) => {
                proof {
                    lemma_wrap_up(self@, j as int);
                }
                self.pc = if j + 1 == self.memory.len() { 0 } else { j + 1 };
            },
            None => self.increment_pc(),
        }
    }

    /// `PC` moved forward by two cells when `cond` holds, by one otherwise.
    fn skip_if(&mut self, cond: bool)
        requires
            old(self)@.wf(),
        ensures
            final(self)@ == old(self)@.skip_if(cond),
            final(self)@.wf(),
    {
        if cond {
            self.increment_pc_n(2);
        } else {
            self.increment_pc();
        }
    }
    /// The instructions that move words between the stack, the registers and
    /// the outside world.
    fn execute_stack(&mut self, op: Instruction, input: Option<u8>, write_ok: bool) -> (r: bool)
        requires
            old(self)@.wf(),
            op == Instruction::Nop || op == Instruction::Reset || op == Instruction::Halt
                || op == Instruction::In || op == Instruction::Out || op == Instruction::Pop
                || op == Instruction::Dup || op == Instruction::PushPc || op == Instruction::PopPc
                || op == Instruction::PopSp || op == Instruction::SpTgt || op == Instruction::PushNz
                || op == Instruction::Swap || op == Instruction::Push0,
        ensures
            (final(self)@, r) == old(self)@.execute(op, input, write_ok),
            final(self)@.wf(),
    {
        match op {
            Instruction::Reset => {
                self.reset();
                true
            },
            Instruction::Halt => true,
            Instruction::In => {
                let b: u8 = match input {
                    Some(b) => b,
                    None => 0,
                };
                self.push_cell(b as u64);
                self.set_nz(b);
                self.increment_pc();
                input.is_some()
            },
            Instruction::Out | Instruction::Pop => {
                let val = self.memory[self.sp];
                self.set_nz(val);
                self.increment_sp();
                self.increment_pc();
                match op {
                    Instruction::Out => write_ok,
                    _ => true,
                }
            },
            Instruction::Dup => {
                let val = self.memory[self.sp];
                self.push_cell(val as u64);
                self.set_nz(val);
                self.increment_pc();
                true
            },
            Instruction::PushPc => {
                let pc = self.pc;
                self.push_cell(pc as u64);
                self.increment_pc();
                true
            },
            Instruction::PopPc => {
                let val = self.memory[self.sp];
                proof {
                    lemma_wrap_bound(self@, val as int);
                }
                self.pc = (val as usize) % self.memory.len();
                self.increment_sp();
                true
            },
            Instruction::PopSp => {
                let val = self.memory[self.sp];
                proof {
                    lemma_wrap_bound(self@, val as int);
                }
                self.sp = (val as usize) % self.memory.len();
                self.increment_pc();
                true
            },
            Instruction::SpTgt => {
                match self.find_next_marker(op_codes::TARGET) {
                    Some(j) => self.sp = j,
                    None => {},
                }
                self.increment_pc();
                true
            },
            Instruction::PushNz => {
                let val: u64 = if self.nz { 1 } else { 0 };
                self.push_cell(val);
                self.increment_pc();
                true
            },
            Instruction::Swap => {
                let above = self.above_sp(1);
                let top = self.memory[self.sp];
                let second = self.memory[above];
                self.memory[self.sp] = second;
                self.memory[above] = top;
                self.increment_pc();
                true
            },
            Instruction::Push0 => {
                self.push_cell(0);
                self.set_nz(0);
                self.increment_pc();
                true
            },
            _ => {
                self.increment_pc();
                true
            },
        }
    }
    /// The arithmetic and logic instructions.
    fn execute_arith(&mut self, op: Instruction) -> (r: bool)
        requires
            old(self)@.wf(),
            op == Instruction::Add || op == Instruction::Sub || op == Instruction::Mul
                || op == Instruction::Div || op == Instruction::Xor || op == Instruction::And
                || op == Instruction::Or || op == Instruction::Inc || op == Instruction::Dec
                || op == Instruction::Shl || op == Instruction::Shr || op == Instruction::Not,
        ensures
            (final(self)@, r) == old(self)@.execute(op, None, true),
            final(self)@.wf(),
    {
        let modulus = self.cell_modulus() as u64;
        match op {
            Instruction::Inc | Instruction::Dec | Instruction::Shl | Instruction::Shr | Instruction::Not => {
                let a = self.memory[self.sp] as u64;
                let raw: u64 = match op {
                    Instruction::Inc => a + 1,
                    Instruction::Dec => a + modulus - 1,
                    Instruction::Shl => a * 2,
                    Instruction::Shr => a / 2,
                    _ => modulus - 1 - a,
                };
                proof {
                    vstd::arithmetic::div_mod::lemma_mod_add_multiples_vanish(a - 1, modulus as int);
                    vstd::arithmetic::div_mod::lemma_mod_add_multiples_vanish(-1 - a, modulus as int);
                }
                let val = self.trunc(raw);
                self.memory[self.sp] = val;
                self.set_nz(val);
                self.increment_pc();
                true
            },
            Instruction::Div => {
                self.decrement_sp();
                let above = self.above_sp(1);
                let a = self.memory[self.above_sp(2)] as u64;
                let b = self.memory[above] as u64;
                let quotient = if b == 0 { self.trunc(modulus - 1) } else { self.trunc(a / b) };
                let remainder = if b == 0 { self.trunc(0) } else { self.trunc(a % b) };
                self.memory[above] = quotient;
                self.memory[self.sp] = remainder;
                self.set_nz(quotient);
                self.increment_pc();
                true
            },
            _ => {
                self.decrement_sp();
                let a = self.memory[self.above_sp(2)] as u64;
                let b = self.memory[self.above_sp(1)] as u64;
                assert(a * b <= 255 * 255) by (nonlinear_arith)
                    requires
                        a <= 255,
                        b <= 255,
                ;
                let raw: u64 = match op {
                    Instruction::Add => a + b,
                    Instruction::Sub => a + modulus - b,
                    Instruction::Mul => a * b,
                    Instruction::Xor => (a ^ b),
                    Instruction::And => (a & b),
                    _ => (a | b),
                };
                proof {
                    vstd::arithmetic::div_mod::lemma_mod_add_multiples_vanish(a - b, modulus as int);
                }
                let val = self.trunc(raw);
                self.memory[self.sp] = val;
                self.set_nz(val);
                self.increment_pc();
                true
            },
        }
    }
    /// The instructions that only move `PC`.
    fn execute_control(&mut self, op: Instruction) -> (r: bool)
        requires
            old(self)@.wf(),
            op == Instruction::Bz || op == Instruction::Bnz || op == Instruction::Beq
                || op == Instruction::Bgt || op == Instruction::Blt || op == Instruction::Bge
                || op == Instruction::Loop || op == Instruction::EndL || op == Instruction::BraN
                || op == Instruction::BraP || op == Instruction::Target || op == Instruction::Skip1
                || op == Instruction::Skip2 || op == Instruction::Skip3 || op == Instruction::Skip4
                || op == Instruction::Skip5 || op == Instruction::Skip6 || op == Instruction::Skip7
                || op == Instruction::Skip8 || op == Instruction::Skip9,
        ensures
            (final(self)@, r) == old(self)@.execute(op, None, true),
            final(self)@.wf(),
    {
        match op {
            Instruction::Bz => self.skip_if(!self.nz),
            Instruction::Bnz => self.skip_if(self.nz),
            Instruction::Beq | Instruction::Bgt | Instruction::Blt | Instruction::Bge => {
                let second = self.memory[self.above_sp(1)];
                let top = self.memory[self.sp];
                proof {
                    vstd::arithmetic::div_mod::lemma_small_mod(self.sp as nat, self@.len());
                }
                let cond = match op {
                    Instruction::Beq => second == top,
                    Instruction::Bgt => second > top,
                    Instruction::Blt => second < top,
                    _ => second >= top,
                };
                self.skip_if(cond);
            },
            Instruction::EndL => {
                let found = self.find_previous_marker(op_codes::LOOP);
                self.jump_after(found);
            },
            Instruction::BraN => {
                let found = self.find_next_marker(op_codes::TARGET);
                self.jump_after(found);
            },
            Instruction::BraP => {
                let found = self.find_previous_marker(op_codes::TARGET);
                self.jump_after(found);
            },
            Instruction::Skip1 => self.increment_pc_n(2),
            Instruction::Skip2 => self.increment_pc_n(3),
            Instruction::Skip3 => self.increment_pc_n(4),
            Instruction::Skip4 => self.increment_pc_n(5),
            Instruction::Skip5 => self.increment_pc_n(6),
            Instruction::Skip6 => self.increment_pc_n(7),
            Instruction::Skip7 => self.increment_pc_n(8),
            Instruction::Skip8 => self.increment_pc_n(9),
            Instruction::Skip9 => self.increment_pc_n(10),
            _ => self.increment_pc(),
        }
        true
    }

    /// Executes one instruction.
    fn execute(&mut self, op: Instruction, input: Option<u8>, write_ok: bool) -> (r: Statement)
        requires
            old(self)@.wf(),
        ensures
            final(self)@ == old(self)@.execute(op, input, write_ok).0,
            r == Statement(op.spec_op_code(), old(self)@.execute(op, input, write_ok).1),
            final(self)@.wf(),
    {
        let succeeded = match op {
            Instruction::Add | Instruction::Sub | Instruction::Mul | Instruction::Div | Instruction::Xor
            | Instruction::And | Instruction::Or | Instruction::Inc | Instruction::Dec | Instruction::Shl
            | Instruction::Shr | Instruction::Not => self.execute_arith(op),
            Instruction::Bz | Instruction::Bnz | Instruction::Beq | Instruction::Bgt | Instruction::Blt
            | Instruction::Bge | Instruction::Loop | Instruction::EndL | Instruction::BraN
            | Instruction::BraP | Instruction::Target | Instruction::Skip1 | Instruction::Skip2
            | Instruction::Skip3 | Instruction::Skip4 | Instruction::Skip5 | Instruction::Skip6
            | Instruction::Skip7 | Instruction::Skip8 | Instruction::Skip9 => self.execute_control(op),
            _ => self.execute_stack(op, input, write_ok),
        };
        Statement(op.op_code(), succeeded)
    }

    /// The instruction at `PC`.
    pub fn current_instruction(&self) -> (r: Instruction)
        requires
            self@.wf(),
        ensures
            r == self@.current(),
    {
        Instruction::from_op_code(self.memory[self.pc])
    }

    /// Executes the instruction at `PC`, with its input and output given by
    /// the caller: `input` is the byte that `IN` reads (`None` at the end of
    /// the input or on a read error), and `write_ok` tells whether the byte
    /// that `OUT` writes, the word at `SP`, was accepted. Other instructions
    /// ignore both.
    pub fn step_with(&mut self, input: Option<u8>, write_ok: bool) -> (r: Statement)
        requires
            old(self)@.wf(),
        ensures
            final(self)@ == old(self)@.step(input, write_ok).0,
            r == Statement(old(self)@.current().spec_op_code(), old(self)@.step(input, write_ok).1),
            final(self)@.wf(),
            final(self)@.len() == old(self)@.len(),
            final(self)@.width == old(self)@.width,
    {
        let op = self.current_instruction();
        self.execute(op, input, write_ok)
    }

    /// Executes the instruction at `PC`. `IN` reads one byte from `input`,
    /// `OUT` writes one to `output`; no other instruction touches them. Every
    /// byte decodes, so a step always returns a statement.
    pub fn step<R: ByteRead, W: ByteWrite>(&mut self, input: &mut R, output: &mut W) -> (r: Statement)
        requires
            old(self)@.wf(),
        ensures
            final(self)@.wf(),
            final(self)@.len() == old(self)@.len(),
            final(self)@.width == old(self)@.width,
            r.0 == old(self)@.current().spec_op_code(),
            old(self)@.current() != Instruction::In && old(self)@.current() != Instruction::Out
                ==> (final(self)@, r.1) == old(self)@.step(None, true),
            old(self)@.current() == Instruction::In ==> {
                &&& (final(self)@, r.1) == old(self)@.step(first_byte(old(input).pending()), true)
                &&& final(input).pending() == after_read(old(input).pending())
            },
            old(self)@.current() == Instruction::Out ==> {
                &&& (final(self)@, r.1) == old(self)@.step(None, r.1)
                &&& r.1 ==> final(output).written() == old(output).written().push(
                    old(self)@.memory[old(self)@.sp as int],
                )
                &&& !r.1 ==> final(output).written() == old(output).written()
            },
            old(self)@.current() != Instruction::In ==> final(input).pending() == old(input).pending(),
            old(self)@.current() != Instruction::Out ==> final(output).written() == old(output).written(),
    {
        let op = self.current_instruction();
        let (read, written) = match op {
            Instruction::In => (input.read_byte(), true),
            Instruction::Out => {
                let val = self.memory[self.sp];
                (None, output.write_byte(val))
            },
            _ => (None, true),
        };
        self.execute(op, read, written)
    }

    /// A copy of the memory and the registers.
    pub fn debug_infos(&self) -> (r: DebugInfos)
        ensures
            r.memory.0@ == self@.memory,
            r.pc == self@.pc,
            r.sp == self@.sp,
            r.nz == self@.nz,
    {
        DebugInfos { memory: OpCodes(self.memory.clone()), pc: self.pc, sp: self.sp, nz: self.nz }
    }
}

} // verus!
