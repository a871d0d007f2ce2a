use std::collections::VecDeque;

use reustmann::error::MachineError;
use reustmann::io::sink_debug;
use reustmann::op_codes;
use reustmann::{Interpreter, Program, Statement};

fn loaded(arch_length: usize, arch_width: usize, source: &[u8]) -> Interpreter {
    let mut interpreter = Interpreter::new(arch_length, arch_width).unwrap();
    interpreter.copy_program(&Program::from_iter(source.to_vec())).unwrap();
    interpreter
}

fn run(interpreter: &mut Interpreter, steps: usize) -> Statement {
    let mut last = Statement(op_codes::NOP, true);
    for _ in 0..steps {
        last = interpreter.step_with(None, true);
    }
    last
}

#[test]
fn new_checks_length_and_width() {
    assert_eq!(Interpreter::new(0, 8).err(), Some(MachineError::ArchLength));
    assert_eq!(Interpreter::new(0, 3).err(), Some(MachineError::ArchLength));
    assert_eq!(Interpreter::new(10, 5).err(), Some(MachineError::ArchWidth));
    assert_eq!(Interpreter::new(10, 33).err(), Some(MachineError::ArchWidth));
    assert!(Interpreter::new(1, 6).is_ok());
    assert!(Interpreter::new(10, 32).is_ok());
}

#[test]
fn new_refuses_length_of_two_to_the_thirty_two() {
    if usize::MAX as u64 > u32::MAX as u64 {
        let too_long = (u32::MAX as usize).wrapping_add(1);
        assert_eq!(Interpreter::new(too_long, 8).err(), Some(MachineError::ArchLength));
    }
}

#[test]
fn fresh_machine_state() {
    let interpreter = Interpreter::new(7, 8).unwrap();
    assert_eq!(interpreter.arch_length(), 7);
    assert_eq!(interpreter.arch_width(), 8);
    let infos = interpreter.debug_infos();
    assert_eq!(infos.memory.0, vec![op_codes::NOP; 7]);
    assert_eq!((infos.pc, infos.sp, infos.nz), (0, 0, false));
}

#[test]
fn copy_program_stores_opcodes_of_mnemonics() {
    let interpreter = loaded(8, 8, b"LIz\xc8a");
    let infos = interpreter.debug_infos();
    assert_eq!(infos.memory.0, vec![op_codes::LOOP, op_codes::IN, op_codes::BNZ, 0xc8, b'a', 0, 0, 0]);
}

#[test]
fn copy_program_truncates_raw_bytes_to_the_width() {
    let interpreter = loaded(4, 6, b"a.\x7f");
    let infos = interpreter.debug_infos();
    assert_eq!(infos.memory.0, vec![b'a' % 64, op_codes::INC, 0x7f % 64, 0]);
}

#[test]
fn copy_program_refuses_large_programs() {
    let mut interpreter = Interpreter::new(3, 8).unwrap();
    let result = interpreter.copy_program(&Program::from_iter(b"0000".to_vec()));
    assert_eq!(result, Err(MachineError::ProgramTooLarge));
    assert_eq!(interpreter.debug_infos().memory.0, vec![0, 0, 0]);
}

#[test]
fn copy_program_resets_and_keeps_later_cells() {
    let mut interpreter = loaded(8, 8, b"0.;;O");
    run(&mut interpreter, 3);
    interpreter.copy_program(&Program::from_iter(b"H".to_vec())).unwrap();
    let infos = interpreter.debug_infos();
    assert_eq!((infos.pc, infos.sp, infos.nz), (0, 0, false));
    assert_eq!(infos.memory.0[0], op_codes::HALT);
    assert_eq!(infos.memory.0[4], op_codes::OUT);
    assert_eq!(infos.memory.0[7], 1);
}

#[test]
fn reset_twice_is_reset_once() {
    let mut interpreter = loaded(6, 8, b"0.0..");
    run(&mut interpreter, 4);
    assert_eq!(interpreter.reset(), Statement(op_codes::RESET, true));
    let once = interpreter.debug_infos();
    interpreter.reset();
    let twice = interpreter.debug_infos();
    assert_eq!((once.pc, once.sp, once.nz), (0, 0, false));
    assert_eq!((twice.pc, twice.sp, twice.nz), (0, 0, false));
    assert_eq!(once.memory.0, twice.memory.0);
}

#[test]
fn in_at_end_of_input_pushes_zero() {
    let mut interpreter = loaded(5, 8, b"0.I");
    run(&mut interpreter, 2);
    let mut input: VecDeque<u8> = VecDeque::new();
    let mut output: Vec<u8> = Vec::new();
    let statement = interpreter.step(&mut input, &mut output);
    assert_eq!(statement, Statement(op_codes::IN, false));
    let infos = interpreter.debug_infos();
    assert_eq!(infos.sp, 3);
    assert_eq!(infos.memory.0[3], 0);
    assert!(!infos.nz);
}

#[test]
fn in_truncates_the_byte_read() {
    let mut interpreter = loaded(4, 7, b"I");
    let statement = interpreter.step_with(Some(0xc1), true);
    assert_eq!(statement, Statement(op_codes::IN, true));
    let infos = interpreter.debug_infos();
    assert_eq!(infos.memory.0[3], 0x41);
    assert!(infos.nz);
}

#[test]
fn out_reports_a_failed_write() {
    let mut interpreter = loaded(4, 8, b"O");
    let statement = interpreter.step_with(None, false);
    assert_eq!(statement, Statement(op_codes::OUT, false));
    let infos = interpreter.debug_infos();
    assert_eq!(infos.sp, 1);
    assert_eq!(infos.pc, 1);
    assert!(infos.nz);
}

#[test]
fn sink_accepts_output() {
    let mut interpreter = loaded(4, 8, b"O");
    let mut input: VecDeque<u8> = VecDeque::new();
    let mut output = sink_debug();
    assert_eq!(interpreter.step(&mut input, &mut output), Statement(op_codes::OUT, true));
}

#[test]
fn subtraction_wraps_modulo_the_width() {
    let mut interpreter = loaded(8, 6, b"00.-");
    run(&mut interpreter, 4);
    let infos = interpreter.debug_infos();
    assert_eq!(infos.sp, 5);
    assert_eq!(infos.memory.0[5], 63);
    assert!(infos.nz);
}

#[test]
fn multiply_and_shift_truncate() {
    let mut interpreter = loaded(10, 8, b"0~0...*");
    run(&mut interpreter, 7);
    let infos = interpreter.debug_infos();
    assert_eq!(infos.memory.0[infos.sp], ((255u32 * 3) % 256) as u8);
    let mut interpreter = loaded(6, 7, b"0~(");
    run(&mut interpreter, 3);
    let infos = interpreter.debug_infos();
    assert_eq!(infos.memory.0[infos.sp], 126);
}

#[test]
fn not_dec_and_shift_right() {
    let mut interpreter = loaded(6, 8, b"0,)~");
    run(&mut interpreter, 2);
    assert_eq!(interpreter.debug_infos().memory.0[5], 255);
    run(&mut interpreter, 1);
    assert_eq!(interpreter.debug_infos().memory.0[5], 127);
    run(&mut interpreter, 1);
    let infos = interpreter.debug_infos();
    assert_eq!(infos.memory.0[5], 128);
    assert!(infos.nz);
}

#[test]
fn bitwise_operations() {
    let mut interpreter = loaded(16, 8, b"0...0..^");
    run(&mut interpreter, 8);
    let infos = interpreter.debug_infos();
    assert_eq!(infos.memory.0[infos.sp], 3 ^ 2);
    let mut interpreter = loaded(16, 8, b"0...0..&");
    run(&mut interpreter, 8);
    let infos = interpreter.debug_infos();
    assert_eq!(infos.memory.0[infos.sp], 3 & 2);
    let mut interpreter = loaded(16, 8, b"0...0..|");
    run(&mut interpreter, 8);
    let infos = interpreter.debug_infos();
    assert_eq!(infos.memory.0[infos.sp], 3 | 2);
}

#[test]
fn division_with_remainder() {
    let mut interpreter = loaded(16, 8, b"0.......0...//");
    run(&mut interpreter, 13);
    let infos = interpreter.debug_infos();
    assert_eq!(infos.sp, 13);
    assert_eq!(infos.memory.0[14], 2);
    assert_eq!(infos.memory.0[13], 1);
    assert!(infos.nz);
}

#[test]
fn division_by_zero_on_a_narrow_machine() {
    let mut interpreter = loaded(8, 6, b"00/");
    run(&mut interpreter, 3);
    let infos = interpreter.debug_infos();
    assert_eq!(infos.memory.0[6], 63);
    assert_eq!(infos.memory.0[5], 0);
    assert!(infos.nz);
}

#[test]
fn set_target_points_sp_at_the_next_target() {
    let mut interpreter = loaded(8, 8, b"TG;T;T");
    run(&mut interpreter, 1);
    assert_eq!(interpreter.step_with(None, true), Statement(op_codes::SPTGT, true));
    let infos = interpreter.debug_infos();
    assert_eq!(infos.sp, 3);
    assert_eq!(infos.pc, 2);
}

#[test]
fn set_target_ignores_targets_before_pc() {
    let mut interpreter = loaded(8, 8, b"T;G");
    run(&mut interpreter, 3);
    let infos = interpreter.debug_infos();
    assert_eq!(infos.sp, 0);
    assert_eq!(infos.pc, 3);
}

#[test]
fn branch_to_target_in_last_cell_wraps_to_zero() {
    let mut interpreter = loaded(4, 8, b"B;;T");
    assert_eq!(interpreter.step_with(None, true), Statement(op_codes::BRAN, true));
    assert_eq!(interpreter.debug_infos().pc, 0);
}

#[test]
fn branch_forward_and_back() {
    let mut interpreter = loaded(10, 8, b"TB;;T;b");
    run(&mut interpreter, 2);
    assert_eq!(interpreter.debug_infos().pc, 5);
    run(&mut interpreter, 2);
    assert_eq!(interpreter.debug_infos().pc, 5);
}

#[test]
fn backward_searches_ignore_markers_at_or_after_pc() {
    let mut interpreter = loaded(6, 8, b"]L");
    run(&mut interpreter, 1);
    assert_eq!(interpreter.debug_infos().pc, 1);
    let mut interpreter = loaded(6, 8, b"bT");
    run(&mut interpreter, 1);
    assert_eq!(interpreter.debug_infos().pc, 1);
}

#[test]
fn end_loop_returns_after_the_nearest_loop() {
    let mut interpreter = loaded(8, 8, b"L;L;]");
    run(&mut interpreter, 5);
    assert_eq!(interpreter.debug_infos().pc, 3);
}

#[test]
fn conditional_skips() {
    let mut interpreter = loaded(8, 8, b"Z;;");
    run(&mut interpreter, 1);
    assert_eq!(interpreter.debug_infos().pc, 2);
    let mut interpreter = loaded(8, 8, b"z;;");
    run(&mut interpreter, 1);
    assert_eq!(interpreter.debug_infos().pc, 1);
    let mut interpreter = loaded(8, 8, b"0.0=;");
    run(&mut interpreter, 4);
    assert_eq!(interpreter.debug_infos().pc, 4);
    let mut interpreter = loaded(8, 8, b"0.0>;");
    run(&mut interpreter, 4);
    assert_eq!(interpreter.debug_infos().pc, 5);
    let mut interpreter = loaded(8, 8, b"0.0{;");
    run(&mut interpreter, 4);
    assert_eq!(interpreter.debug_infos().pc, 4);
    let mut interpreter = loaded(8, 8, b"00};");
    run(&mut interpreter, 3);
    assert_eq!(interpreter.debug_infos().pc, 4);
}

#[test]
fn stack_register_instructions() {
    let mut interpreter = loaded(8, 8, b";CPS");
    run(&mut interpreter, 2);
    let infos = interpreter.debug_infos();
    assert_eq!(infos.sp, 7);
    assert_eq!(infos.memory.0[7], 1);
    run(&mut interpreter, 2);
    let infos = interpreter.debug_infos();
    assert_eq!(infos.sp, 6);
    assert_eq!(infos.memory.0[6], 1);
    assert_eq!(infos.memory.0[7], 0);
    let mut interpreter = loaded(8, 8, b"0....c");
    run(&mut interpreter, 6);
    let infos = interpreter.debug_infos();
    assert_eq!(infos.pc, 4);
    assert_eq!(infos.sp, 0);
    let mut interpreter = loaded(8, 8, b"0...Y");
    run(&mut interpreter, 5);
    let infos = interpreter.debug_infos();
    assert_eq!(infos.sp, 3);
    assert_eq!(infos.pc, 5);
}

#[test]
fn dup_and_pop() {
    let mut interpreter = loaded(8, 8, b"0.Dpp");
    run(&mut interpreter, 3);
    let infos = interpreter.debug_infos();
    assert_eq!(infos.sp, 6);
    assert_eq!(infos.memory.0[6], 1);
    run(&mut interpreter, 2);
    let infos = interpreter.debug_infos();
    assert_eq!(infos.sp, 0);
    assert!(infos.nz);
}

#[test]
fn reset_instruction_and_halt() {
    let mut interpreter = loaded(8, 8, b"0.RH");
    run(&mut interpreter, 2);
    assert_eq!(interpreter.step_with(None, true), Statement(op_codes::RESET, true));
    let infos = interpreter.debug_infos();
    assert_eq!((infos.pc, infos.sp, infos.nz), (0, 0, false));
    let mut interpreter = loaded(8, 8, b"H");
    assert_eq!(interpreter.step_with(None, true), Statement(op_codes::HALT, true));
    assert_eq!(interpreter.debug_infos().pc, 0);
}

#[test]
fn unassigned_cell_executes_as_nop() {
    let mut interpreter = loaded(4, 8, b"\xf0");
    assert_eq!(interpreter.step_with(None, true), Statement(op_codes::NOP, true));
    assert_eq!(interpreter.current_instruction(), reustmann::instruction::Instruction::Nop);
    assert_eq!(interpreter.debug_infos().pc, 1);
}

#[test]
fn skips_wrap_around() {
    let mut interpreter = loaded(5, 8, b";;;9");
    run(&mut interpreter, 4);
    assert_eq!(interpreter.debug_infos().pc, (3 + 10) % 5);
}

#[test]
fn registers_and_cells_stay_in_range() {
    for &(arch_length, arch_width) in &[(300usize, 6usize), (257, 7), (40, 8), (1, 6), (2, 32)] {
        let source: Vec<u8> = (0..=255u8).rev().take(arch_length).collect();
        let mut interpreter = Interpreter::new(arch_length, arch_width).unwrap();
        interpreter.copy_program(&Program::from_iter(source)).unwrap();
        let mut input: VecDeque<u8> = (0..=255u8).collect();
        let mut output: Vec<u8> = Vec::new();
        let bound: u32 = 1 << arch_width.min(8);
        for _ in 0..3000 {
            interpreter.step(&mut input, &mut output);
            let infos = interpreter.debug_infos();
            assert!(infos.pc < arch_length);
            assert!(infos.sp < arch_length);
            assert_eq!(infos.memory.0.len(), arch_length);
            assert!(infos.memory.0.iter().all(|&cell| (cell as u32) < bound));
        }
    }
}

#[test]
fn only_in_and_out_touch_the_channels() {
    let mut interpreter = loaded(16, 8, b";T1;I0.O");
    let mut input: VecDeque<u8> = vec![7, 8].into_iter().collect();
    let mut output: Vec<u8> = Vec::new();
    for _ in 0..3 {
        interpreter.step(&mut input, &mut output);
        assert_eq!(input.len(), 2);
        assert!(output.is_empty());
    }
    assert_eq!(interpreter.step(&mut input, &mut output), Statement(op_codes::IN, true));
    assert_eq!(input, VecDeque::from(vec![8]));
    assert!(output.is_empty());
    interpreter.step(&mut input, &mut output);
    interpreter.step(&mut input, &mut output);
    assert!(output.is_empty());
    assert_eq!(interpreter.step(&mut input, &mut output), Statement(op_codes::OUT, true));
    assert_eq!(output, vec![1]);
    assert_eq!(input, VecDeque::from(vec![8]));
}

#[test]
fn out_writes_the_word_at_sp() {
    let mut interpreter = loaded(16, 8, b"0...O");
    let mut input: VecDeque<u8> = VecDeque::new();
    let mut output: Vec<u8> = Vec::new();
    for _ in 0..5 {
        interpreter.step(&mut input, &mut output);
    }
    assert_eq!(output, vec![3]);
}
