use chip8_decoder::instruction::{Instruction, SingleRegisterInstruction, SingleRegisterInstructionType};
use chip8_decoder::text::to_raw_instruction;

#[test]
fn to_raw_instruction_accepts_uppercase_hex() {
    assert_eq!(to_raw_instruction("F5 07"), Some((0xf5, 0x07)));
}

#[test]
fn to_raw_instruction_accepts_lowercase_and_mixed_hex() {
    assert_eq!(to_raw_instruction("ab cd"), Some((0xab, 0xcd)));
    assert_eq!(to_raw_instruction("aB Cd"), Some((0xab, 0xcd)));
    assert_eq!(to_raw_instruction("00 e0"), Some((0x00, 0xe0)));
}

#[test]
fn to_raw_instruction_rejects_wrong_length() {
    assert_eq!(to_raw_instruction(""), None);
    assert_eq!(to_raw_instruction("F5"), None);
    assert_eq!(to_raw_instruction("F5 7"), None);
    assert_eq!(to_raw_instruction("F5 007"), None);
    assert_eq!(to_raw_instruction("F5 07 "), None);
}

#[test]
fn to_raw_instruction_rejects_missing_or_misplaced_space() {
    assert_eq!(to_raw_instruction("F5107"), None);
    assert_eq!(to_raw_instruction("F 507"), None);
    assert_eq!(to_raw_instruction("F5  7"), None);
}

#[test]
fn to_raw_instruction_rejects_non_hex_digits() {
    assert_eq!(to_raw_instruction("G5 07"), None);
    assert_eq!(to_raw_instruction("F5 0x"), None);
    assert_eq!(to_raw_instruction("+5 07"), None);
    assert_eq!(to_raw_instruction("-5 07"), None);
}

#[test]
fn to_raw_instruction_feeds_the_decoder() {
    let raw_instruction = to_raw_instruction("F5 07").expect("a well-formed line");

    let parsed_instruction = Instruction::parse(raw_instruction);

    assert_eq!(
        parsed_instruction,
        Instruction::SingleRegisterInstruction(SingleRegisterInstruction {
            instruction_type: SingleRegisterInstructionType::ReadDelayTimer,
            register: 0x5,
        })
    );
}
