//! A debugger: a controller that owns an optional interpreter and carries out
//! the commands of a debugging session on it.

use vstd::prelude::*;
use crate::error::MachineError;
use crate::instruction::{lemma_op_code_round_trip, Instruction};
use crate::interpreter::{
    arch_error, fresh_machine, load_program, ByteRead, ByteWrite, DebugInfos, Interpreter, Statement,
};
use crate::machine::Machine;
use crate::op_codes;
use crate::program::Program;

verus! {

/// `rest` is what is left of `all` once some first bytes are taken.
pub open spec fn is_suffix(rest: Seq<u8>, all: Seq<u8>) -> bool {
    rest.len() <= all.len() && rest == all.subrange(all.len() - rest.len(), all.len() as int)
}

/// The word width of an interpreter that the debugger creates by itself.
pub const DEFAULT_ARCH_WIDTH: usize = 8;

/// The errors of debugger commands.
#[derive(Debug, Clone, Copy, PartialEq, Eq, Structural)]
pub enum DebuggerError {
    /// The command needs an interpreter and there is none.
    NoInterpreter,
    /// The interpreter could not be built.
    InterpreterCreation(MachineError),
    /// The program could not be loaded.
    ProgramLoad(MachineError),
}

impl DebuggerError {
    pub open spec fn spec_description(self) -> Seq<char> {
        match self {
            DebuggerError::NoInterpreter => "No interpreter created"@,
            DebuggerError::InterpreterCreation(e) => e.spec_description(),
            DebuggerError::ProgramLoad(e) => e.spec_description(),
        }
    }

    /// A message that describes the error.
    pub fn description(&self) -> (r: &'static str)
        ensures
            r@ == self.spec_description(),
    {
        match self {
            DebuggerError::NoInterpreter => "No interpreter created",
            DebuggerError::InterpreterCreation(e) => e.description(),
            DebuggerError::ProgramLoad(e) => e.description(),
        }
    }
}

/// A debugging session: an optional interpreter, the number of steps
/// executed so far, the name of the last program loaded and the last
/// statement.
pub struct Debugger {
    interpreter: Option<Interpreter>,
    number_of_cycles: usize,
    program_name: Option<String>,
    statement: Option<Statement>,
}

impl Debugger {
    /// The state of the interpreter, if there is one.
    pub closed spec fn machine(&self) -> Option<Machine> {
        match self.interpreter {
            Some(i) => Some(i@),
            None => None,
        }
    }

    /// The number of steps executed in the session.
    pub closed spec fn cycles(&self) -> nat {
        self.number_of_cycles as nat
    }

    /// The statement of the last reset or step.
    pub closed spec fn last_statement(&self) -> Option<Statement> {
        self.statement
    }

    /// The name of the last program loaded.
    pub closed spec fn loaded_name(&self) -> Option<String> {
        self.program_name
    }

    /// The interpreter, if there is one, is well formed.
    pub open spec fn wf(&self) -> bool {
        self.machine() matches Some(m) ==> m.wf()
    }

    /// A session with no interpreter, no program and no step executed.
    pub fn new() -> (r: Debugger)
        ensures
            r.machine() is None,
            r.cycles() == 0,
            r.last_statement() is None,
            r.loaded_name() is None,
            r.wf(),
    {
        Debugger { interpreter: None, number_of_cycles: 0, program_name: None, statement: None }
    }

    /// The number of steps executed in this session; resets do not clear it.
    pub fn number_of_cycles(&self) -> (r: usize)
        ensures
            r == self.cycles(),
    {
        self.number_of_cycles
    }

    /// The statement of the last reset or step.
    pub fn statement(&self) -> (r: Option<Statement>)
        ensures
            r == self.last_statement(),
    {
        self.statement
    }

    /// The name of the last program loaded.
    pub fn program_name(&self) -> (r: &Option<String>)
        ensures
            *r == self.loaded_name(),
    {
        &self.program_name
    }

    /// Replaces the interpreter by a fresh one of `arch_length` cells of
    /// `arch_width` bits. When it cannot be built the session is unchanged.
    pub fn set_interpreter(&mut self, arch_length: usize, arch_width: usize) -> (r: Result<(), DebuggerError>)
        requires
            old(self).wf(),
        ensures
            final(self).wf(),
            arch_error(arch_length as nat, arch_width as nat) matches Some(e) ==> {
                &&& r == Err::<(), DebuggerError>(DebuggerError::InterpreterCreation(e))
                &&& final(self).machine() == old(self).machine()
            },
            arch_error(arch_length as nat, arch_width as nat) is None ==> {
                &&& r is Ok
                &&& final(self).machine() == Some(fresh_machine(arch_length as nat, arch_width as nat))
            },
            final(self).cycles() == old(self).cycles(),
            final(self).last_statement() == old(self).last_statement(),
            final(self).loaded_name() == old(self).loaded_name(),
    {
        match Interpreter::new(arch_length, arch_width) {
            Err(err) => Err(DebuggerError::InterpreterCreation(err)),
            Ok(interpreter) => {
                self.interpreter = Some(interpreter);
                Ok(())
            },
        }
    }

    /// Drops the interpreter.
    pub fn unset_interpreter(&mut self) -> (r: Result<(), DebuggerError>)
        ensures
            old(self).machine() is None <==> r == Err::<(), DebuggerError>(DebuggerError::NoInterpreter),
            r is Ok <==> old(self).machine() is Some,
            final(self).machine() is None,
            final(self).wf(),
            final(self).cycles() == old(self).cycles(),
            final(self).last_statement() == old(self).last_statement(),
            final(self).loaded_name() == old(self).loaded_name(),
    {
        if self.interpreter.is_none() {
            Err(DebuggerError::NoInterpreter)
        } else {
            self.interpreter = None;
            Ok(())
        }
    }

    /// The interpreter, if there is one.
    pub fn interpreter(&self) -> (r: Result<&Interpreter, DebuggerError>)
        ensures
            r is Ok <==> self.machine() is Some,
            r is Err ==> r == Err::<&Interpreter, DebuggerError>(DebuggerError::NoInterpreter),
            r is Ok ==> self.machine() == Some(r->Ok_0@),
    {
        match &self.interpreter {
            Some(interpreter) => Ok(interpreter),
            None => Err(DebuggerError::NoInterpreter),
        }
    }

    /// Loads a program and resets the registers. Without an interpreter, one
    /// is first created, with as many cells as the program has bytes and the
    /// default width. The name is recorded whatever happens.
    pub fn load_program(&mut self, name: String, program: &Program) -> (r: Result<(), DebuggerError>)
        requires
            old(self).wf(),
        ensures
            final(self).wf(),
            final(self).loaded_name() == Some(name),
            final(self).cycles() == old(self).cycles(),
            final(self).last_statement() == old(self).last_statement(),
            old(self).machine() matches Some(m) ==> {
                &&& program@.len() > m.len() ==> {
                    &&& r == Err::<(), DebuggerError>(DebuggerError::ProgramLoad(MachineError::ProgramTooLarge))
                    &&& final(self).machine() == old(self).machine()
                }
                &&& program@.len() <= m.len() ==> {
                    &&& r is Ok
                    &&& final(self).machine() == Some(load_program(m, program@).reset())
                }
            },
            old(self).machine() is None ==> {
                &&& arch_error(program@.len(), DEFAULT_ARCH_WIDTH as nat) matches Some(e) ==> {
                    &&& r == Err::<(), DebuggerError>(DebuggerError::InterpreterCreation(e))
                    &&& final(self).machine() is None
                }
                &&& arch_error(program@.len(), DEFAULT_ARCH_WIDTH as nat) is None ==> {
                    &&& r is Ok
                    &&& final(self).machine() == Some(
                        load_program(fresh_machine(program@.len(), DEFAULT_ARCH_WIDTH as nat), program@).reset(),
                    )
                }
            },
    {
        self.program_name = Some(name);
        if self.interpreter.is_none() {
            let arch_length = program.memory().len();
            match self.set_interpreter(arch_length, DEFAULT_ARCH_WIDTH) {
                Err(err) => return Err(err),
                Ok(()) => {},
            }
        }
        match self.interpreter.take() {
            Some(mut interpreter) => {
                let loaded = interpreter.copy_program(program);
                self.interpreter = Some(interpreter);
                match loaded {
                    Err(err) => Err(DebuggerError::ProgramLoad(err)),
                    Ok(()) => Ok(()),
                }
            },
            None => Err(DebuggerError::NoInterpreter),
        }
    }

    /// Resets the registers of the interpreter and records the statement.
    pub fn reset(&mut self) -> (r: Result<Statement, DebuggerError>)
        requires
            old(self).wf(),
        ensures
            final(self).wf(),
            final(self).cycles() == old(self).cycles(),
            final(self).loaded_name() == old(self).loaded_name(),
            old(self).machine() is None ==> {
                &&& r == Err::<Statement, DebuggerError>(DebuggerError::NoInterpreter)
                &&& final(self).machine() is None
                &&& final(self).last_statement() == old(self).last_statement()
            },
            old(self).machine() matches Some(m) ==> {
                &&& r == Ok::<Statement, DebuggerError>(Statement(op_codes::RESET, true))
                &&& final(self).machine() == Some(m.reset())
                &&& final(self).last_statement() == Some(Statement(op_codes::RESET, true))
            },
    {
        match self.interpreter.take() {
            Some(mut interpreter) => {
                let statement = interpreter.reset();
                self.interpreter = Some(interpreter);
                self.statement = Some(statement);
                Ok(statement)
            },
            None => Err(DebuggerError::NoInterpreter),
        }
    }

    /// A copy of the state of the interpreter.
    pub fn debug_infos(&self) -> (r: Result<DebugInfos, DebuggerError>)
        ensures
            self.machine() is None ==> r == Err::<DebugInfos, DebuggerError>(DebuggerError::NoInterpreter),
            self.machine() matches Some(m) ==> {
                &&& r is Ok
                &&& r->Ok_0.memory.0@ == m.memory
                &&& r->Ok_0.pc == m.pc
                &&& r->Ok_0.sp == m.sp
                &&& r->Ok_0.nz == m.nz
            },
    {
        match &self.interpreter {
            Some(interpreter) => Ok(interpreter.debug_infos()),
            None => Err(DebuggerError::NoInterpreter),
        }
    }
    /// Executes up to `count` steps, stopping early at a `HALT`, which is
    /// not counted. Returns the number of steps executed, a copy of the
    /// final state and the statement of the last step. The counter of
    /// cycles grows by the number executed (it stops at `usize::MAX`).
    pub fn steps<R: ByteRead, W: ByteWrite>(&mut self, count: usize, input: &mut R, output: &mut W) -> (r: Result<
        (usize, DebugInfos, Option<Statement>),
        DebuggerError,
    >)
        requires
            old(self).wf(),
        ensures
            final(self).wf(),
            final(self).loaded_name() == old(self).loaded_name(),
            old(self).machine() is None ==> {
                &&& r == Err::<(usize, DebugInfos, Option<Statement>), DebuggerError>(DebuggerError::NoInterpreter)
                &&& final(self).machine() is None
                &&& final(self).cycles() == old(self).cycles()
                &&& final(self).last_statement() == old(self).last_statement()
                &&& final(input).pending() == old(input).pending()
                &&& final(output).written() == old(output).written()
            },
            old(self).machine() matches Some(m) ==> r matches Ok((executed, infos, statement)) && {
                &&& executed <= count
                &&& is_suffix(final(input).pending(), old(input).pending())
                &&& old(output).written().is_prefix_of(final(output).written())
                &&& exists|reads: Seq<Option<u8>>, writes: Seq<bool>|
                    {
                        &&& reads.len() == executed
                        &&& writes.len() == executed
                        &&& m.runs_without_halt(reads, writes)
                        &&& final(self).machine() == Some(#[trigger] m.run(reads, writes))
                        &&& executed < count ==> m.run(reads, writes).current() == Instruction::Halt
                    }
                &&& executed < count ==> statement == Some(Statement(op_codes::HALT, true))
                &&& count == 0 <==> statement is None
                &&& executed == count && count > 0 ==> statement->Some_0.0 != op_codes::HALT
                &&& final(self).machine() matches Some(n) && {
                    &&& infos.memory.0@ == n.memory
                    &&& infos.pc == n.pc
                    &&& infos.sp == n.sp
                    &&& infos.nz == n.nz
                }
                &&& final(self).cycles() == if old(self).cycles() + executed > usize::MAX {
                    usize::MAX as nat
                } else {
                    (old(self).cycles() + executed) as nat
                }
                &&& final(self).last_statement() == if statement is Some {
                    statement
                } else {
                    old(self).last_statement()
                }
            },
    {
        let mut interpreter = match self.interpreter.take() {
            Some(interpreter) => interpreter,
            None => return Err(DebuggerError::NoInterpreter),
        };
        let ghost m0 = interpreter@;
        let ghost mut reads: Seq<Option<u8>> = Seq::empty();
        let ghost mut writes: Seq<bool> = Seq::empty();
        let mut executed: usize = 0;
        let mut statement: Option<Statement> = None;
        assert(reads.take(0) =~= reads);
        assert(old(input).pending().subrange(0, old(input).pending().len() as int) =~= old(input).pending());
        assert(old(output).written().subrange(0, old(output).written().len() as int) =~= old(output).written());
        while executed < count
            invariant_except_break
                statement is Some ==> statement->Some_0.0 != op_codes::HALT,
                executed == 0 ==> statement is None,
            invariant
                m0.wf(),
                executed <= count,
                reads.len() == executed,
                writes.len() == executed,
                interpreter@ == m0.run(reads, writes),
                interpreter@.wf(),
                m0.runs_without_halt(reads, writes),
                is_suffix(input.pending(), old(input).pending()),
                old(output).written().is_prefix_of(output.written()),
                executed > 0 ==> statement is Some,
            ensures
                m0.wf(),
                executed <= count,
                reads.len() == executed,
                writes.len() == executed,
                interpreter@ == m0.run(reads, writes),
                interpreter@.wf(),
                m0.runs_without_halt(reads, writes),
                is_suffix(input.pending(), old(input).pending()),
                old(output).written().is_prefix_of(output.written()),
                executed < count ==> {
                    &&& interpreter@.current() == Instruction::Halt
                    &&& statement == Some(Statement(op_codes::HALT, true))
                },
                count == 0 <==> statement is None,
                executed == count && count > 0 ==> statement is Some && statement->Some_0.0 != op_codes::HALT,
            decreases count - executed,
        {
            let ghost before = interpreter@;
            let ghost pending = input.pending();
            let ghost accepted = output.written();
            let stat = interpreter.step(input, output);
            let ghost read = if before.current() == Instruction::In {
                crate::interpreter::first_byte(pending)
            } else {
                None
            };
            let ghost written = if before.current() == Instruction::Out {
                stat.1
            } else {
                true
            };
            assert((interpreter@, stat.1) == before.step(read, written));
            proof {
                let all = old(input).pending();
                if pending.len() > 0 && input.pending() != pending {
                    assert(input.pending() =~= all.subrange(
                        all.len() - input.pending().len(),
                        all.len() as int,
                    ));
                }
                assert(old(output).written().is_prefix_of(accepted));
                assert(old(output).written().is_prefix_of(output.written())) by {
                    if output.written() != accepted {
                        assert(output.written().subrange(0, accepted.len() as int) =~= accepted);
                    }
                }
            }
            if stat.0 == op_codes::HALT {
                proof {
                    lemma_op_code_round_trip(before.current());
                }
                statement = Some(stat);
                break;
            }
            proof {
                let old_reads = reads;
                let old_writes = writes;
                reads = reads.push(read);
                writes = writes.push(written);
                assert(reads.drop_last() =~= old_reads);
                assert(writes.drop_last() =~= old_writes);
                assert forall|i: int| 0 <= i < reads.len() implies #[trigger] m0.run(reads.take(i), writes.take(i)).current()
                    != Instruction::Halt by {
                    if i < old_reads.len() {
                        assert(reads.take(i) =~= old_reads.take(i));
                        assert(writes.take(i) =~= old_writes.take(i));
                    } else {
                        assert(reads.take(i) =~= old_reads);
                        assert(writes.take(i) =~= old_writes);
                        assert(before.current() != Instruction::Halt);
                    }
                }
            }
            statement = Some(stat);
            executed = executed + 1;
        }
        self.number_of_cycles = self.number_of_cycles.saturating_add(executed);
        let infos = interpreter.debug_infos();
        self.interpreter = Some(interpreter);
        if statement.is_some() {
            self.statement = statement;
        }
        Ok((executed, infos, statement))
    }
}

} // verus!
