use reustmann::instruction::{is_valid_mnemonic, is_valid_op_code, Instruction};
use reustmann::op_codes;

const MNEMONICS: &str = ";RHIOpDCcYGPS0+-.,*/^&|()~Zz=>{}L]BbT123456789";

#[test]
fn every_opcode_round_trips_through_its_mnemonic() {
    for op in 0u8..46 {
        let instruction = Instruction::from_op_code(op);
        assert_eq!(instruction.op_code(), op);
        let mnemonic = instruction.mnemonic();
        assert_eq!(Instruction::from_mnemonic(mnemonic), instruction);
        assert!(is_valid_mnemonic(mnemonic));
    }
}

#[test]
fn mnemonics_in_opcode_order() {
    let chars: Vec<char> = MNEMONICS.chars().collect();
    assert_eq!(chars.len(), 46);
    for (op, c) in chars.iter().enumerate() {
        assert_eq!(Instruction::from_op_code(op as u8).mnemonic(), *c);
        assert_eq!(Instruction::from_mnemonic(*c).op_code(), op as u8);
    }
}

#[test]
fn unassigned_bytes_decode_as_nop() {
    for b in 46u16..256 {
        assert_eq!(Instruction::from_op_code(b as u8), Instruction::Nop);
        assert!(!is_valid_op_code(b as u8));
    }
    for op in 0u8..46 {
        assert!(is_valid_op_code(op));
    }
}

#[test]
fn other_characters_read_as_nop() {
    for c in ['a', 'x', ' ', '\n', 'A', '!', '#', 'é'] {
        assert_eq!(Instruction::from_mnemonic(c), Instruction::Nop);
        assert!(!is_valid_mnemonic(c));
    }
    assert!(is_valid_mnemonic(';'));
}

#[test]
fn long_mnemonics() {
    assert_eq!(Instruction::Nop.long_mnemonic(), "Nop");
    assert_eq!(Instruction::from_op_code(op_codes::SPTGT).long_mnemonic(), "SpTgt");
    assert_eq!(Instruction::from_op_code(op_codes::ENDL).long_mnemonic(), "EndL");
    assert_eq!(Instruction::from_op_code(op_codes::BRAN).long_mnemonic(), "BraN");
    assert_eq!(Instruction::from_op_code(op_codes::SKIP9).long_mnemonic(), "Skip9");
    assert_eq!(Instruction::from_mnemonic('0').long_mnemonic(), "Push0");
}

#[test]
fn named_opcodes() {
    assert_eq!(op_codes::NOP, 0);
    assert_eq!(op_codes::HALT, 2);
    assert_eq!(op_codes::LOOP, 32);
    assert_eq!(op_codes::TARGET, 36);
    assert_eq!(op_codes::SKIP9, 45);
    assert_eq!(Instruction::from_mnemonic('T').op_code(), op_codes::TARGET);
}

#[test]
fn conversions_between_representations() {
    let instruction: Instruction = op_codes::DIV.into();
    assert_eq!(instruction, Instruction::Div);
    let from_char: Instruction = '/'.into();
    assert_eq!(from_char, Instruction::Div);
    let op: u8 = Instruction::Target.into();
    assert_eq!(op, op_codes::TARGET);
    let c: char = Instruction::BraP.into();
    assert_eq!(c, 'b');
    let unknown: Instruction = 77u8.into();
    assert_eq!(unknown, Instruction::Nop);
}
