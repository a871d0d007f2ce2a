//! The mathematical model of the machine: its state, its invariant, and what
//! one instruction does to it.

use vstd::prelude::*;
use crate::instruction::{decode, Instruction};
use crate::op_codes;
use vstd::arithmetic::power2::{lemma2_to64, lemma_pow2_strictly_increases, pow2};

verus! {

/// The state of a machine: `L` cells of memory, the registers `PC`, `SP` and
/// `NZ`, and the word width `W` in bits.
pub struct Machine {
    pub memory: Seq<u8>,
    pub pc: nat,
    pub sp: nat,
    pub nz: bool,
    pub width: nat,
}

/// The smallest accepted word width.
pub const MIN_ARCH_WIDTH: usize = 6;

/// The largest accepted word width.
pub const MAX_ARCH_WIDTH: usize = 32;

/// The largest accepted number of memory cells, `2^32 - 1`.
pub const MAX_ARCH_LENGTH: usize = 0xffff_ffff;

/// Values stored in a cell are kept modulo this number.
///
/// A value is truncated to the low `W` bits, and a cell is one byte wide, so
/// what remains is the value modulo `2^min(W, 8)` (for `6 <= W <= 32`).
pub open spec fn cell_modulus(width: nat) -> nat {
    if width >= 8 {
        256
    } else if width == 7 {
        128
    } else {
        64
    }
}

impl Machine {
    /// `L`, the number of cells.
    pub open spec fn len(self) -> nat {
        self.memory.len()
    }

    /// What cell values are kept modulo, `2^min(W, 8)`.
    pub open spec fn modulus(self) -> nat {
        cell_modulus(self.width)
    }

    /// The invariant that holds of every machine at all times: the width and
    /// the length are in range, both registers address a cell, and every cell
    /// holds a value below `2^W`.
    pub open spec fn wf(self) -> bool {
        &&& MIN_ARCH_WIDTH <= self.width <= MAX_ARCH_WIDTH
        &&& 1 <= self.len() <= MAX_ARCH_LENGTH
        &&& self.pc < self.len()
        &&& self.sp < self.len()
        &&& forall|i: int| 0 <= i < self.len() ==> #[trigger] self.memory[i] < self.modulus()
    }

    /// An address taken modulo `L`.
    pub open spec fn wrap(self, a: int) -> nat {
        (a % (self.len() as int)) as nat
    }

    /// A value truncated to what a cell holds.
    pub open spec fn narrow(self, v: int) -> u8 {
        (v % (self.modulus() as int)) as u8
    }

    /// The cell `k` places above the stack pointer.
    pub open spec fn peek(self, k: int) -> u8 {
        self.memory[self.wrap(self.sp + k) as int]
    }

    /// `PC` moved forward by `n` cells.
    pub open spec fn advance(self, n: int) -> Machine {
        Machine { pc: self.wrap(self.pc + n), ..self }
    }

    /// `NZ` set to whether `v` is nonzero.
    pub open spec fn with_nz(self, v: int) -> Machine {
        Machine { nz: v != 0, ..self }
    }

    /// `SP` moved down one cell, then `v`, truncated, stored at the new `SP`.
    pub open spec fn push(self, v: int) -> Machine {
        let sp = self.wrap(self.sp - 1);
        Machine { sp, memory: self.memory.update(sp as int, self.narrow(v)), ..self }
    }

    /// `PC`, `SP` and `NZ` back to `0`, `0` and `false`; memory untouched.
    pub open spec fn reset(self) -> Machine {
        Machine { pc: 0, sp: 0, nz: false, ..self }
    }

    /// `j` is the first cell after `PC` (up to `L - 1`, without wrapping)
    /// that holds `marker`.
    pub open spec fn is_next_marker(self, marker: u8, j: int) -> bool {
        &&& self.pc < j < self.len()
        &&& self.memory[j] == marker
        &&& forall|k: int| self.pc < k < j ==> self.memory[k] != marker
    }

    /// `j` is the last cell before `PC` (down to `0`, without wrapping) that
    /// holds `marker`.
    pub open spec fn is_previous_marker(self, marker: u8, j: int) -> bool {
        &&& 0 <= j < self.pc
        &&& self.memory[j] == marker
        &&& forall|k: int| j < k < self.pc ==> self.memory[k] != marker
    }

    /// The cell that a forward search for `marker` finds, if any.
    pub open spec fn next_marker(self, marker: u8) -> Option<int> {
        if exists|j: int| self.is_next_marker(marker, j) {
            Some(choose|j: int| self.is_next_marker(marker, j))
        } else {
            None
        }
    }

    /// The cell that a backward search for `marker` finds, if any.
    pub open spec fn previous_marker(self, marker: u8) -> Option<int> {
        if exists|j: int| self.is_previous_marker(marker, j) {
            Some(choose|j: int| self.is_previous_marker(marker, j))
        } else {
            None
        }
    }

    /// `PC` set after the cell found by a marker search, or moved forward by
    /// one when nothing was found.
    pub open spec fn jump_after(self, found: Option<int>) -> Machine {
        match found {
            Some(j) => Machine { pc: self.wrap(j + 1), ..self },
            None => self.advance(1),
        }
    }

    /// `PC` moved forward by two cells when `cond` holds, by one otherwise.
    pub open spec fn skip_if(self, cond: bool) -> Machine {
        if cond {
            self.advance(2)
        } else {
            self.advance(1)
        }
    }

    /// The top of the stack replaced by `v`, truncated; `NZ` set from the
    /// stored value.
    pub open spec fn unary(self, v: int) -> Machine {
        let r = self.narrow(v);
        Machine { memory: self.memory.update(self.sp as int, r), nz: r != 0, ..self }.advance(1)
    }

    /// `SP` moved down one cell, then the result of `op` on the two words
    /// above it (the second word and the former top), truncated, stored at
    /// the new `SP`; `NZ` set from the stored value.
    pub open spec fn binary(self, op: Instruction) -> Machine {
        let m = Machine { sp: self.wrap(self.sp - 1), ..self };
        let r = m.narrow(binary_result(op, m.peek(2), m.peek(1)));
        Machine { memory: m.memory.update(m.sp as int, r), nz: r != 0, ..m }.advance(1)
    }

    /// `SP` moved down one cell; the quotient of the second word by the
    /// former top stored above the new `SP`, the remainder at it. A zero
    /// divisor gives the largest word as quotient and zero as remainder.
    pub open spec fn divide(self) -> Machine {
        let m = Machine { sp: self.wrap(self.sp - 1), ..self };
        let a = m.peek(2);
        let b = m.peek(1);
        let q: int = if b == 0 { m.modulus() - 1 } else { a as int / b as int };
        let r: int = if b == 0 { 0 } else { a as int % b as int };
        let above = m.wrap(m.sp + 1int);
        Machine {
            memory: m.memory.update(above as int, m.narrow(q)).update(m.sp as int, m.narrow(r)),
            nz: m.narrow(q) != 0,
            ..m
        }.advance(1)
    }

    /// What one instruction does: the next state, and whether its input or
    /// output succeeded. `input` is the byte that `In` reads (`None` at the
    /// end of the input or on a read error); `write_ok` tells whether the
    /// byte that `Out` writes was accepted. Other instructions ignore both.
    pub open spec fn execute(self, op: Instruction, input: Option<u8>, write_ok: bool) -> (Machine, bool) {
        match op {
            Instruction::Nop => (self.advance(1), true),
            Instruction::Reset => (self.reset(), true),
            Instruction::Halt => (self, true),
            Instruction::In => {
                let b: u8 = match input {
                    Some(b) => b,
                    None => 0,
                };
                (self.push(b as int).with_nz(b as int).advance(1), input is Some)
            },
            Instruction::Out => {
                let v = self.memory[self.sp as int];
                (Machine { sp: self.wrap(self.sp + 1int), nz: v != 0, ..self }.advance(1), write_ok)
            },
            Instruction::Pop => {
                let v = self.memory[self.sp as int];
                (Machine { sp: self.wrap(self.sp + 1int), nz: v != 0, ..self }.advance(1), true)
            },
            Instruction::Dup => {
                let v = self.memory[self.sp as int];
                (self.push(v as int).with_nz(v as int).advance(1), true)
            },
            Instruction::PushPc => (self.push(self.pc as int).advance(1), true),
            Instruction::PopPc => (
                Machine {
                    pc: self.wrap(self.memory[self.sp as int] as int),
                    sp: self.wrap(self.sp + 1int),
                    ..self
                },
                true,
            ),
            Instruction::PopSp => (
                Machine { sp: self.wrap(self.memory[self.sp as int] as int), ..self }.advance(1),
                true,
            ),
            Instruction::SpTgt => {
                let m = match self.next_marker(op_codes::TARGET) {
                    Some(j) => Machine { sp: j as nat, ..self },
                    None => self,
                };
                (m.advance(1), true)
            },
            Instruction::PushNz => (self.push(if self.nz { 1 } else { 0 }).advance(1), true),
            Instruction::Swap => {
                let above = self.wrap(self.sp + 1int);
                let top = self.memory[self.sp as int];
                let second = self.memory[above as int];
                (
                    Machine {
                        memory: self.memory.update(self.sp as int, second).update(above as int, top),
                        ..self
                    }.advance(1),
                    true,
                )
            },
            Instruction::Push0 => (self.push(0).with_nz(0).advance(1), true),
            Instruction::Add | Instruction::Sub | Instruction::Mul | Instruction::Xor
            | Instruction::And | Instruction::Or => (self.binary(op), true),
            Instruction::Div => (self.divide(), true),
            Instruction::Inc => (self.unary(self.memory[self.sp as int] + 1), true),
            Instruction::Dec => (self.unary(self.memory[self.sp as int] - 1), true),
            Instruction::Shl => (self.unary(self.memory[self.sp as int] * 2), true),
            Instruction::Shr => (self.unary(self.memory[self.sp as int] as int / 2), true),
            Instruction::Not => (self.unary(-1 - self.memory[self.sp as int]), true),
            Instruction::Bz => (self.skip_if(!self.nz), true),
            Instruction::Bnz => (self.skip_if(self.nz), true),
            Instruction::Beq => (self.skip_if(self.peek(1) == self.peek(0)), true),
            Instruction::Bgt => (self.skip_if(self.peek(1) > self.peek(0)), true),
            Instruction::Blt => (self.skip_if(self.peek(1) < self.peek(0)), true),
            Instruction::Bge => (self.skip_if(self.peek(1) >= self.peek(0)), true),
            Instruction::Loop | Instruction::Target => (self.advance(1), true),
            Instruction::EndL => (self.jump_after(self.previous_marker(op_codes::LOOP)), true),
            Instruction::BraN => (self.jump_after(self.next_marker(op_codes::TARGET)), true),
            Instruction::BraP => (self.jump_after(self.previous_marker(op_codes::TARGET)), true),
            Instruction::Skip1 => (self.advance(2), true),
            Instruction::Skip2 => (self.advance(3), true),
            Instruction::Skip3 => (self.advance(4), true),
            Instruction::Skip4 => (self.advance(5), true),
            Instruction::Skip5 => (self.advance(6), true),
            Instruction::Skip6 => (self.advance(7), true),
            Instruction::Skip7 => (self.advance(8), true),
            Instruction::Skip8 => (self.advance(9), true),
            Instruction::Skip9 => (self.advance(10), true),
        }
    }

    /// The instruction at `PC`.
    pub open spec fn current(self) -> Instruction {
        decode(self.memory[self.pc as int])
    }

    /// One step: the instruction at `PC`, executed.
    pub open spec fn step(self, input: Option<u8>, write_ok: bool) -> (Machine, bool) {
        self.execute(self.current(), input, write_ok)
    }
}

/// The untruncated result of a two-word instruction on the second word `a`
/// and the top `b`.
pub open spec fn binary_result(op: Instruction, a: u8, b: u8) -> int {
    match op {
        Instruction::Add => a + b,
        Instruction::Sub => a - b,
        Instruction::Mul => a * b,
        Instruction::Xor => (a ^ b) as int,
        Instruction::And => (a & b) as int,
        Instruction::Or => (a | b) as int,
        _ => 0,
    }
}

/// The cell that a forward search finds is the one that satisfies
/// `is_next_marker`: there is only one.
pub proof fn lemma_next_marker(m: Machine, marker: u8, j: int)
    requires
        m.is_next_marker(marker, j),
    ensures
        m.next_marker(marker) == Some(j),
{
    let k = choose|k: int| m.is_next_marker(marker, k);
    assert(m.is_next_marker(marker, k));
}

/// The cell that a backward search finds is the one that satisfies
/// `is_previous_marker`: there is only one.
pub proof fn lemma_previous_marker(m: Machine, marker: u8, j: int)
    requires
        m.is_previous_marker(marker, j),
    ensures
        m.previous_marker(marker) == Some(j),
{
    let k = choose|k: int| m.is_previous_marker(marker, k);
    assert(m.is_previous_marker(marker, k));
}

/// Every cell of a well-formed machine holds a value below `2^W`.
pub proof fn lemma_cells_below_word(m: Machine)
    requires
        m.wf(),
    ensures
        forall|i: int| 0 <= i < m.len() ==> #[trigger] m.memory[i] < pow2(m.width),
{
    lemma2_to64();
    if m.width > 8 {
        lemma_pow2_strictly_increases(8, m.width);
    }
}

/// Executing any instruction keeps the invariant: both registers still
/// address a cell, every cell still holds a value below `2^W`, and neither
/// the length of memory nor the width changes.
pub proof fn lemma_execute_keeps_invariant(m: Machine, op: Instruction, input: Option<u8>, write_ok: bool)
    requires
        m.wf(),
    ensures
        m.execute(op, input, write_ok).0.wf(),
        m.execute(op, input, write_ok).0.len() == m.len(),
        m.execute(op, input, write_ok).0.width == m.width,
{
    let l = m.len() as int;
    let q = m.modulus() as int;
    assert forall|a: int| 0 <= #[trigger] (a % l) < l by {
        vstd::arithmetic::div_mod::lemma_mod_bound(a, l);
    }
    assert forall|v: int| 0 <= #[trigger] (v % q) < q by {
        vstd::arithmetic::div_mod::lemma_mod_bound(v, q);
    }
    match op {
        Instruction::SpTgt | Instruction::BraN => {
            if let Some(j) = m.next_marker(op_codes::TARGET) {
                assert(m.is_next_marker(op_codes::TARGET, j));
            }
        },
        Instruction::BraP => {
            if let Some(j) = m.previous_marker(op_codes::TARGET) {
                assert(m.is_previous_marker(op_codes::TARGET, j));
            }
        },
        Instruction::EndL => {
            if let Some(j) = m.previous_marker(op_codes::LOOP) {
                assert(m.is_previous_marker(op_codes::LOOP, j));
            }
        },
        Instruction::Add | Instruction::Sub | Instruction::Mul | Instruction::Xor | Instruction::And
        | Instruction::Or => {
            let n = m.binary(op);
            assert(n.wf());
        },
        Instruction::Div => {
            let n = m.divide();
            assert(n.wf());
        },
        _ => {},
    }
}

/// One step keeps the invariant (see `lemma_execute_keeps_invariant`).
pub proof fn lemma_step_keeps_invariant(m: Machine, input: Option<u8>, write_ok: bool)
    requires
        m.wf(),
    ensures
        m.step(input, write_ok).0.wf(),
        m.step(input, write_ok).0.len() == m.len(),
        m.step(input, write_ok).0.width == m.width,
{
    lemma_execute_keeps_invariant(m, m.current(), input, write_ok);
}

/// A reset puts the registers back to zero whatever they held, so doing it
/// twice is doing it once.
pub proof fn lemma_reset_idempotent(m: Machine)
    ensures
        m.reset().reset() == m.reset(),
        m.wf() ==> m.reset().wf(),
{
}

/// `SP` moved down from address `a`.
pub proof fn lemma_wrap_down(m: Machine, a: int)
    requires
        m.len() >= 1,
        0 <= a < m.len(),
    ensures
        m.wrap(a - 1) == if a == 0 { m.len() - 1 } else { a - 1 },
{
    let l = m.len() as int;
    if a == 0 {
        vstd::arithmetic::div_mod::lemma_fundamental_div_mod_converse_mod(-1, l, -1, l - 1);
    } else {
        vstd::arithmetic::div_mod::lemma_small_mod((a - 1) as nat, l as nat);
    }
}

/// An address moved up from `a`.
pub proof fn lemma_wrap_up(m: Machine, a: int)
    requires
        m.len() >= 1,
        0 <= a < m.len(),
    ensures
        m.wrap(a + 1) == if a + 1 == m.len() { 0 } else { a + 1 },
{
    let l = m.len() as int;
    if a + 1 == l {
        vstd::arithmetic::div_mod::lemma_mod_self_0(l);
    } else {
        vstd::arithmetic::div_mod::lemma_small_mod((a + 1) as nat, l as nat);
    }
}

/// A wrapped address addresses a cell.
pub proof fn lemma_wrap_bound(m: Machine, a: int)
    requires
        m.len() >= 1,
    ensures
        m.wrap(a) < m.len(),
{
    vstd::arithmetic::div_mod::lemma_mod_bound(a, m.len() as int);
}

/// A forward search (`SPTGT`, `BRAN`) finds only a cell after `PC`; when no
/// cell after `PC` holds the marker it finds nothing, and both instructions
/// then only move `PC` forward: a `TARGET` at or before `PC` is never found.
pub proof fn lemma_forward_search_after_pc(m: Machine, marker: u8, input: Option<u8>, write_ok: bool)
    ensures
        forall|j: int| m.next_marker(marker) == Some(j) ==> m.pc < j < m.len() && m.memory[j] == marker,
        (forall|k: int| m.pc < k < m.len() ==> m.memory[k] != marker) ==> m.next_marker(marker) is None,
        (forall|k: int| m.pc < k < m.len() ==> m.memory[k] != op_codes::TARGET) ==> {
            &&& m.execute(Instruction::SpTgt, input, write_ok).0 == m.advance(1)
            &&& m.execute(Instruction::BraN, input, write_ok).0 == m.advance(1)
        },
{
    if let Some(j) = m.next_marker(marker) {
        assert(m.is_next_marker(marker, j));
    }
}

/// A backward search (`ENDL`, `BRAP`) finds only a cell before `PC`; when no
/// cell before `PC` holds the marker it finds nothing, and both instructions
/// then only move `PC` forward: a marker at or after `PC` is never found.
pub proof fn lemma_backward_search_before_pc(m: Machine, marker: u8, input: Option<u8>, write_ok: bool)
    ensures
        forall|j: int| m.previous_marker(marker) == Some(j) ==> 0 <= j < m.pc && m.memory[j] == marker,
        (forall|k: int| 0 <= k < m.pc ==> m.memory[k] != marker) ==> m.previous_marker(marker) is None,
        (forall|k: int| 0 <= k < m.pc ==> m.memory[k] != op_codes::LOOP)
            ==> m.execute(Instruction::EndL, input, write_ok).0 == m.advance(1),
        (forall|k: int| 0 <= k < m.pc ==> m.memory[k] != op_codes::TARGET)
            ==> m.execute(Instruction::BraP, input, write_ok).0 == m.advance(1),
{
    if let Some(j) = m.previous_marker(marker) {
        assert(m.is_previous_marker(marker, j));
    }
}

/// `BRAN` that finds its `TARGET` in the last cell continues at address `0`.
pub proof fn lemma_branch_to_last_cell(m: Machine, input: Option<u8>, write_ok: bool)
    requires
        m.wf(),
        m.is_next_marker(op_codes::TARGET, m.len() - 1),
    ensures
        m.execute(Instruction::BraN, input, write_ok).0.pc == 0,
{
    lemma_next_marker(m, op_codes::TARGET, m.len() - 1);
    vstd::arithmetic::div_mod::lemma_mod_self_0(m.len() as int);
}

/// `DIV` by zero stores the largest word as quotient (in the cell that held
/// the divisor) and zero as remainder (at the new `SP`), and sets `NZ`. With
/// a single cell both land in it and the remainder, written last, stays.
pub proof fn lemma_divide_by_zero(m: Machine, input: Option<u8>, write_ok: bool)
    requires
        m.wf(),
        m.memory[m.sp as int] == 0,
    ensures
        m.execute(Instruction::Div, input, write_ok).0.nz,
        m.execute(Instruction::Div, input, write_ok).0.sp == m.wrap(m.sp - 1),
        m.execute(Instruction::Div, input, write_ok).0.memory[m.wrap(m.sp - 1) as int] == 0,
        m.len() >= 2 ==> m.execute(Instruction::Div, input, write_ok).0.memory[m.sp as int] == m.modulus() - 1,
{
    lemma_wrap_down(m, m.sp as int);
    let s = m.wrap(m.sp - 1);
    lemma_wrap_up(m, s as int);
    vstd::arithmetic::div_mod::lemma_small_mod((m.modulus() - 1) as nat, m.modulus());
    vstd::arithmetic::div_mod::lemma_small_mod(0, m.modulus());
}

/// `IN` at the end of the input pushes a zero, clears `NZ` and reports
/// failure.
pub proof fn lemma_input_at_end(m: Machine, write_ok: bool)
    requires
        m.wf(),
    ensures
        !m.execute(Instruction::In, None, write_ok).1,
        !m.execute(Instruction::In, None, write_ok).0.nz,
        m.execute(Instruction::In, None, write_ok).0.sp == m.wrap(m.sp - 1),
        m.execute(Instruction::In, None, write_ok).0.memory[m.wrap(m.sp - 1) as int] == 0,
{
    lemma_wrap_down(m, m.sp as int);
    vstd::arithmetic::div_mod::lemma_small_mod(0, m.modulus());
}

impl Machine {
    /// The machine after one step for each entry of `reads` and `writes`:
    /// the `i`-th step reads `reads[i]` and writes with outcome `writes[i]`.
    pub open spec fn run(self, reads: Seq<Option<u8>>, writes: Seq<bool>) -> Machine
        decreases reads.len(),
    {
        if reads.len() == 0 || writes.len() == 0 {
            self
        } else {
            self.run(reads.drop_last(), writes.drop_last()).step(reads.last(), writes.last()).0
        }
    }

    /// None of the steps of that run starts on a `HALT`.
    pub open spec fn runs_without_halt(self, reads: Seq<Option<u8>>, writes: Seq<bool>) -> bool {
        forall|i: int|
            0 <= i < reads.len() ==> #[trigger] self.run(reads.take(i), writes.take(i)).current()
                != Instruction::Halt
    }
}

/// A run keeps the invariant.
pub proof fn lemma_run_keeps_invariant(m: Machine, reads: Seq<Option<u8>>, writes: Seq<bool>)
    requires
        m.wf(),
    ensures
        m.run(reads, writes).wf(),
        m.run(reads, writes).len() == m.len(),
        m.run(reads, writes).width == m.width,
    decreases reads.len(),
{
    if reads.len() != 0 && writes.len() != 0 {
        lemma_run_keeps_invariant(m, reads.drop_last(), writes.drop_last());
        lemma_step_keeps_invariant(m.run(reads.drop_last(), writes.drop_last()), reads.last(), writes.last());
    }
}

} // verus!
