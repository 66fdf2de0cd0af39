use chip8_decoder::instruction::{
    AddressInstruction, AddressInstructionType, DecodeError, DrawInstruction, Instruction,
    NoArgInstructionType,
};

#[test]
fn decode_yields_address_for_every_operand_value() {
    // every address-shaped selector, with all 4096 possible low-12-bit values
    for selector in [0x1u8, 0x2, 0xa, 0xb] {
        for operand in 0u16..4096 {
            let upper_byte = (selector << 4) | (operand >> 8) as u8;
            let lower_byte = operand as u8;
            let instruction_type = match selector {
                0x1 => AddressInstructionType::JumpDirect,
                0x2 => AddressInstructionType::Call,
                0xa => AddressInstructionType::SetI,
                _ => AddressInstructionType::JumpAddV0,
            };
            let decoded = Instruction::decode((upper_byte, lower_byte));
            assert_eq!(
                decoded,
                Ok(Instruction::AddressInstruction(AddressInstruction {
                    instruction_type,
                    address: ((upper_byte as u16 & 0x0f) << 8) | lower_byte as u16,
                }))
            );
            assert_eq!(
                ((upper_byte as u16 & 0x0f) << 8) | lower_byte as u16,
                operand
            );
        }
    }
}

#[test]
fn decode_handles_clear_display_return_and_sys() {
    assert_eq!(
        Instruction::decode((0x00, 0xe0)),
        Ok(Instruction::NoArgInstruction(NoArgInstructionType::ClearDisplay))
    );
    assert_eq!(
        Instruction::decode((0x00, 0xee)),
        Ok(Instruction::NoArgInstruction(NoArgInstructionType::Return))
    );
    assert_eq!(
        Instruction::decode((0x0a, 0xbc)),
        Ok(Instruction::AddressInstruction(AddressInstruction {
            instruction_type: AddressInstructionType::SYS,
            address: 0xabc,
        }))
    );
}

#[test]
fn draw_succeeds_for_every_height_value() {
    // height 0 is a legal "no height" draw; every low nibble value succeeds
    for height in 0u8..16 {
        let decoded = Instruction::decode((0xd0, 0x10 | height));
        assert_eq!(
            decoded,
            Ok(Instruction::DrawInstruction(DrawInstruction {
                Vx: 0x0,
                Vy: 0x1,
                height,
            }))
        );
    }
}

#[test]
fn decode_rejects_undefined_arithmetic_sub_selector() {
    assert_eq!(
        Instruction::decode((0x80, 0x08)),
        Err(DecodeError::InvalidInstruction)
    );
}

#[test]
fn decode_rejects_nonzero_reserved_skip_nibble() {
    assert_eq!(
        Instruction::decode((0x56, 0x71)),
        Err(DecodeError::InvalidInstruction)
    );
}

#[test]
fn decode_rejects_unknown_key_and_timer_operations() {
    assert_eq!(
        Instruction::decode((0xe3, 0x9f)),
        Err(DecodeError::InvalidInstruction)
    );
    assert_eq!(
        Instruction::decode((0xf4, 0x66)),
        Err(DecodeError::InvalidInstruction)
    );
}

#[test]
fn encode_reproduces_every_defined_word() {
    // walk the whole 16-bit opcode space: every defined word must re-encode
    // to itself, except the non-canonical aliases of 00E0/00EE, whose
    // re-encoding must still decode to the same instruction
    let mut defined: u32 = 0;
    for word in 0u32..0x10000 {
        let upper_byte = (word >> 8) as u8;
        let lower_byte = word as u8;
        if let Ok(instruction) = Instruction::decode((upper_byte, lower_byte)) {
            defined += 1;
            let encoded = instruction.encode().expect("decoded instructions are well formed");
            let alias = upper_byte & 0xf0 == 0
                && upper_byte != 0
                && (lower_byte == 0xe0 || lower_byte == 0xee);
            if alias {
                assert_eq!(
                    Instruction::decode(encoded),
                    Instruction::decode((upper_byte, lower_byte))
                );
            } else {
                assert_eq!(encoded, (upper_byte, lower_byte));
            }
        }
    }
    // the system, address, register-immediate and draw families are total;
    // the skip, arithmetic, key and timer families are sparse
    assert_eq!(
        defined,
        4096 * 7  // selectors 0,1,2,A,B,C,D: every 12-bit operand
        + 4096 * 4  // selectors 3,4,6,7: every register and immediate
        + 16 * 16 * 2  // selectors 5,9: 16 Vx * 16 Vy, reserved nibble 0
        + 16 * 16 * 9  // selector 8: nine operations, 16 Vx * 16 Vy
        + 16 * 2  // selector E: two operations, 16 registers
        + 16 * 9  // selector F: nine operations, 16 registers
    );
}

#[test]
fn encode_gives_canonical_words() {
    assert_eq!(
        Instruction::NoArgInstruction(NoArgInstructionType::ClearDisplay).encode(),
        Some((0x00, 0xe0))
    );
    assert_eq!(
        Instruction::NoArgInstruction(NoArgInstructionType::Return).encode(),
        Some((0x00, 0xee))
    );
    assert_eq!(
        Instruction::DrawInstruction(DrawInstruction {
            Vx: 0x0,
            Vy: 0x1,
            height: 0x2
        })
        .encode(),
        Some((0xd0, 0x12))
    );
}

#[test]
fn encode_rejects_out_of_range_fields() {
    assert_eq!(
        Instruction::AddressInstruction(AddressInstruction {
            instruction_type: AddressInstructionType::JumpDirect,
            address: 4096,
        })
        .encode(),
        None
    );
    assert_eq!(
        Instruction::DrawInstruction(DrawInstruction {
            Vx: 16,
            Vy: 0,
            height: 0
        })
        .encode(),
        None
    );
}
