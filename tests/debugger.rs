use std::collections::VecDeque;

use reustmann::debugger::{Debugger, DebuggerError};
use reustmann::error::MachineError;
use reustmann::op_codes;
use reustmann::{Program, Statement};

#[test]
fn commands_need_an_interpreter() {
    let mut dbg = Debugger::new();
    let mut input: VecDeque<u8> = vec![1, 2].into_iter().collect();
    let mut output: Vec<u8> = Vec::new();
    assert_eq!(dbg.reset().err(), Some(DebuggerError::NoInterpreter));
    assert_eq!(dbg.unset_interpreter(), Err(DebuggerError::NoInterpreter));
    assert!(dbg.interpreter().is_err());
    assert!(dbg.debug_infos().is_err());
    assert!(matches!(dbg.steps(3, &mut input, &mut output), Err(DebuggerError::NoInterpreter)));
    assert_eq!(input.len(), 2);
    assert!(output.is_empty());
    assert_eq!(dbg.number_of_cycles(), 0);
    assert_eq!(dbg.statement(), None);
}

#[test]
fn set_and_unset_interpreter() {
    let mut dbg = Debugger::new();
    assert_eq!(dbg.set_interpreter(0, 8), Err(DebuggerError::InterpreterCreation(MachineError::ArchLength)));
    assert_eq!(dbg.set_interpreter(10, 40), Err(DebuggerError::InterpreterCreation(MachineError::ArchWidth)));
    assert!(dbg.interpreter().is_err());
    assert_eq!(dbg.set_interpreter(10, 7), Ok(()));
    let interpreter = dbg.interpreter().unwrap();
    assert_eq!((interpreter.arch_length(), interpreter.arch_width()), (10, 7));
    assert_eq!(dbg.unset_interpreter(), Ok(()));
    assert!(dbg.interpreter().is_err());
}

#[test]
fn load_creates_an_interpreter_of_the_program_size() {
    let mut dbg = Debugger::new();
    let program = Program::new(b"LIzHO]\n".to_vec(), true).unwrap();
    assert_eq!(dbg.load_program("echo.rm".to_string(), &program), Ok(()));
    let interpreter = dbg.interpreter().unwrap();
    assert_eq!((interpreter.arch_length(), interpreter.arch_width()), (6, 8));
    assert_eq!(dbg.program_name(), &Some("echo.rm".to_string()));
    let infos = dbg.debug_infos().unwrap();
    assert_eq!(infos.memory.0[0], op_codes::LOOP);
}

#[test]
fn load_into_a_small_interpreter_fails() {
    let mut dbg = Debugger::new();
    dbg.set_interpreter(2, 8).unwrap();
    let program = Program::from_iter(b"000".to_vec());
    assert_eq!(
        dbg.load_program("big".to_string(), &program),
        Err(DebuggerError::ProgramLoad(MachineError::ProgramTooLarge))
    );
    let empty = Program::from_iter(Vec::new());
    let mut fresh = Debugger::new();
    assert_eq!(
        fresh.load_program("empty".to_string(), &empty),
        Err(DebuggerError::InterpreterCreation(MachineError::ArchLength))
    );
}

#[test]
fn steps_stop_at_halt_and_count_cycles() {
    let mut dbg = Debugger::new();
    dbg.set_interpreter(15, 8).unwrap();
    dbg.load_program("echo".to_string(), &Program::from_iter(b"LIzHO]".to_vec())).unwrap();
    let mut input: VecDeque<u8> = vec![b'A', 0].into_iter().collect();
    let mut output: Vec<u8> = Vec::new();
    let (executed, infos, statement) = dbg.steps(4, &mut input, &mut output).unwrap();
    assert_eq!(executed, 4);
    assert_eq!(statement, Some(Statement(op_codes::OUT, true)));
    assert_eq!(infos.pc, 5);
    assert_eq!(output, b"A".to_vec());
    assert_eq!(dbg.number_of_cycles(), 4);
    let (executed, infos, statement) = dbg.steps(100, &mut input, &mut output).unwrap();
    assert_eq!(executed, 3);
    assert_eq!(statement, Some(Statement(op_codes::HALT, true)));
    assert_eq!(infos.pc, 3);
    assert_eq!(dbg.number_of_cycles(), 7);
    assert_eq!(dbg.statement(), Some(Statement(op_codes::HALT, true)));
    assert_eq!(dbg.reset(), Ok(Statement(op_codes::RESET, true)));
    assert_eq!(dbg.number_of_cycles(), 7);
    assert_eq!(dbg.statement(), Some(Statement(op_codes::RESET, true)));
    let (executed, _, statement) = dbg.steps(0, &mut input, &mut output).unwrap();
    assert_eq!((executed, statement), (0, None));
}

#[test]
fn debugger_error_descriptions() {
    assert_eq!(DebuggerError::NoInterpreter.description(), "No interpreter created");
    assert_eq!(
        DebuggerError::InterpreterCreation(MachineError::ArchWidth).description(),
        "Arch width needs to be in the range [6..32]"
    );
    assert_eq!(DebuggerError::ProgramLoad(MachineError::ProgramTooLarge).description(), MachineError::ProgramTooLarge.description());
}
