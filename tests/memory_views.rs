use reustmann::memory::{is_visible, LongMnemonics, Mnemonics, OpCodes};
use reustmann::op_codes;

#[test]
fn opcodes_from_mnemonics() {
    let mnemos = Mnemonics("LIzHO]x".chars().collect());
    let ops = OpCodes::from_mnemonics(&mnemos);
    assert_eq!(ops.0, vec![op_codes::LOOP, op_codes::IN, op_codes::BNZ, op_codes::HALT, op_codes::OUT, op_codes::ENDL, op_codes::NOP]);
}

#[test]
fn mnemonics_from_opcodes() {
    let ops = OpCodes(vec![op_codes::TARGET, 0, 200, op_codes::SKIP1, 46]);
    let mnemos = Mnemonics::from_op_codes(&ops);
    assert_eq!(mnemos.0, vec!['T', ';', ';', '1', ';']);
}

#[test]
fn long_mnemonics_from_both_views() {
    let ops = OpCodes(vec![op_codes::ADD, op_codes::DIV, 99]);
    let names = LongMnemonics::from_op_codes(&ops);
    assert_eq!(names.0, vec!["Add", "Div", "Nop"]);
    let mnemos = Mnemonics(vec!['+', '/', 'k']);
    let names = LongMnemonics::from_mnemonics(&mnemos);
    assert_eq!(names.0, vec!["Add", "Div", "Nop"]);
}

#[test]
fn printable_cells() {
    assert!(is_visible(b' '));
    assert!(is_visible(b'~'));
    assert!(is_visible(b'A'));
    assert!(!is_visible(31));
    assert!(!is_visible(127));
    assert!(!is_visible(0xc8));
}
