use std::collections::VecDeque;

use reustmann::io::sink_debug;
use reustmann::op_codes;
use reustmann::{Interpreter, Program, Statement};

fn machine_with(arch_length: usize, source: &str) -> Interpreter {
    let mut interpreter = Interpreter::new(arch_length, 8).unwrap();
    let program = Program::from_iter(source.as_bytes().to_vec());
    interpreter.copy_program(&program).unwrap();
    interpreter
}

#[test]
fn echo_until_zero() {
    let mut interpreter = machine_with(15, "LIzHO]");
    let mut input: VecDeque<u8> = vec![0x41, 0x42, 0x00].into_iter().collect();
    let mut output: Vec<u8> = Vec::new();
    let mut last = None;
    for _ in 0..60 {
        let statement = interpreter.step(&mut input, &mut output);
        last = Some(statement);
        if statement.0 == op_codes::HALT {
            break;
        }
    }
    assert_eq!(output, b"AB".to_vec());
    assert!(input.is_empty());
    assert_eq!(last, Some(Statement(op_codes::HALT, true)));
}

#[test]
fn arithmetic_outputs_three() {
    let mut interpreter = machine_with(15, "0.0..+O");
    let mut input: VecDeque<u8> = VecDeque::new();
    let mut output: Vec<u8> = Vec::new();
    for _ in 0..7 {
        interpreter.step(&mut input, &mut output);
    }
    assert_eq!(output, vec![0x03]);
    assert!(interpreter.debug_infos().nz);
}

#[test]
fn skip_lands_on_halt() {
    let mut interpreter = machine_with(15, ";2;;;H");
    let mut input: VecDeque<u8> = VecDeque::new();
    let mut output: Vec<u8> = Vec::new();
    let first = interpreter.step(&mut input, &mut output);
    assert_eq!(first, Statement(op_codes::NOP, true));
    let second = interpreter.step(&mut input, &mut output);
    assert_eq!(second, Statement(op_codes::SKIP2, true));
    assert_eq!(interpreter.debug_infos().pc, 4);
    let third = interpreter.step(&mut input, &mut output);
    assert_eq!(third, Statement(op_codes::NOP, true));
    assert_eq!(interpreter.debug_infos().pc, 5);
    let fourth = interpreter.step(&mut input, &mut output);
    assert_eq!(fourth, Statement(op_codes::HALT, true));
    assert_eq!(interpreter.debug_infos().pc, 5);
    assert!(output.is_empty());
}

#[test]
fn increments_wrap_around_memory() {
    let mut interpreter = machine_with(4, "....");
    let mut output = sink_debug();
    let mut input: VecDeque<u8> = VecDeque::new();
    for _ in 0..4 {
        assert_eq!(interpreter.step(&mut input, &mut output), Statement(op_codes::INC, true));
    }
    let infos = interpreter.debug_infos();
    // the first cell starts out holding the INC opcode itself
    assert_eq!(infos.memory.0[0], op_codes::INC + 4);
    assert_eq!(infos.pc, 0);
    assert_eq!(infos.sp, 0);
}

#[test]
fn division_by_zero() {
    let mut interpreter = machine_with(15, "00/");
    let mut input: VecDeque<u8> = VecDeque::new();
    let mut output: Vec<u8> = Vec::new();
    for _ in 0..3 {
        interpreter.step(&mut input, &mut output);
    }
    let infos = interpreter.debug_infos();
    assert_eq!(infos.sp, 12);
    // quotient above the stack pointer, remainder at it
    assert_eq!(infos.memory.0[13], 0xFF);
    assert_eq!(infos.memory.0[12], 0x00);
    assert!(infos.nz);
}

#[test]
fn branch_without_target_is_nop() {
    let mut interpreter = machine_with(15, "B;;;");
    let mut input: VecDeque<u8> = VecDeque::new();
    let mut output: Vec<u8> = Vec::new();
    assert_eq!(interpreter.step(&mut input, &mut output), Statement(op_codes::BRAN, true));
    let infos = interpreter.debug_infos();
    assert_eq!(infos.pc, 1);
    assert_eq!(infos.sp, 0);
    assert!(!infos.nz);
}
