//! The instruction decoder: a pure, total function from a 16-bit machine word
//! to a tagged [`Instruction`] value, or to [`DecodeError::InvalidInstruction`]
//! for the bit patterns the instruction set leaves undefined.
//!
//! The word is dispatched on its *selector*, the high nibble of the first
//! byte, and then on a per-family sub-selector. The defined part of the opcode
//! space is written down once, as the spec-level tables below
//! ([`arithmetic_operation`], [`key_operation`], [`timer_memory_operation`],
//! ...), and both the executable decoder and the proofs are checked against
//! those tables.

use vstd::prelude::*;
use vstd::pervasive::unreached;

verus! {

/// Operations that carry no operand at all; the low byte is an exact match.
#[derive(Debug, PartialEq, Eq)]
pub enum NoArgInstructionType {
    ClearDisplay, // 00E0 - CLS
    Return, // 00EE - RET
}

/// Operations whose single operand is a 12-bit address.
#[derive(Debug, PartialEq, Eq)]
pub enum AddressInstructionType {
    SYS, // 0nnn - SYS
    JumpDirect, // 1nnn - JP
    Call, // 2nnn - CALL
    SetI, // Annn - LD I
    JumpAddV0, // Bnnn - JP V0
}

/// An instruction carrying a 12-bit address operand.
#[derive(Debug, PartialEq, Eq)]
pub struct AddressInstruction {
    pub instruction_type: AddressInstructionType,
    pub address: u16,
}

/// Operations on one register and an immediate byte.
#[derive(Debug, PartialEq, Eq)]
pub enum RegisterByteInstructionType {
    SkipEqual, // 3xkk - SE
    SkipNotEqual, // 4xkk - SNE
    Load, // 6xkk - LD
    Add, // 7xkk - ADD
    RandAnd, // Cxkk - RND
}

/// An instruction carrying a register index and an immediate byte.
#[derive(Debug, PartialEq, Eq)]
pub struct RegisterByteInstruction {
    pub instruction_type: RegisterByteInstructionType,
    pub register: u8,
    pub byte: u8,
}

/// Operations on a single register, selected by the full low byte.
#[derive(Debug, PartialEq, Eq)]
pub enum SingleRegisterInstructionType {
    SkipPressed, // Ex9E - SKP Vx
    SkipNotPressed, // ExA1 - SKNP Vx
    ReadDelayTimer, // Fx07 - LD Vx DT
    WaitForKeyPress, // Fx0A - LD Vx K
    SetDelayTimer, // Fx15 - LD DT Vx
    SetSoundTimer, // Fx18 - LD ST Vx
    AddI, // Fx1E - ADD I Vx
    LoadSprite, // Fx29 - LD F Vx
    StoreBCD, // Fx33 - LD B Vx
    StoreRegisters, // Fx55 - LD [I] Vx
    ReadToRegisters, // Fx65 - LD Vx [I]
}

/// An instruction carrying a single register index.
#[derive(Debug, PartialEq, Eq)]
pub struct SingleRegisterInstruction {
    pub instruction_type: SingleRegisterInstructionType,
    pub register: u8,
}

/// Operations on two registers: the skip family and the arithmetic/logic
/// family.
#[derive(Debug, PartialEq, Eq)]
pub enum TwoRegisterInstructionType {
    SkipEqual, // 5xy0 - SE Vx, Vy
    Load, // 8xy0 - LD Vx, Vy
    Or, // 8xy1 - OR Vx, Vy
    And, // 8xy2 - AND Vx, Vy
    ExclusiveOr, // 8xy3 - XOR Vx, Vy
    Add, // 8xy4 - ADD Vx, Vy
    SubtractBorrow, // 8xy5 - SUB Vx, Vy
    ShiftRight, // 8xy6 - SHR Vx
    SubtractNotBorrow, // 8xy7 - SUBN Vx, Vy
    ShiftLeft, // 8xyE - SHL Vx
    SkipNotEqual, // 9xy0 - SNE Vx, Vy
}

/// An instruction carrying the two register operand slots, Vx (destination)
/// and Vy (source).
#[allow(non_snake_case)]
#[derive(Debug, PartialEq, Eq)]
pub struct TwoRegisterInstruction {
    pub instruction_type: TwoRegisterInstructionType,
    pub Vx: u8,
    pub Vy: u8,
}

/// The sprite-drawing instruction: two registers and a 4-bit sprite height.
/// Height 0 is a legal "no height" draw.
#[allow(non_snake_case)]
#[derive(Debug, PartialEq, Eq)]
pub struct DrawInstruction {
    pub Vx: u8,
    pub Vy: u8,
    pub height: u8, // Dxyn - DRW Vx, Vy, n
}

/// A decoded instruction: one shape per operand layout of the instruction
/// set.
#[derive(Debug, PartialEq, Eq)]
pub enum Instruction {
    NoArgInstruction(NoArgInstructionType),
    AddressInstruction(AddressInstruction),
    RegisterByteInstruction(RegisterByteInstruction),
    SingleRegisterInstruction(SingleRegisterInstruction),
    TwoRegisterInstruction(TwoRegisterInstruction),
    DrawInstruction(DrawInstruction),
}

/// The one error the decoder produces: the selector/sub-selector combination
/// has no defined meaning.
#[derive(Debug, PartialEq, Eq)]
pub enum DecodeError {
    InvalidInstruction,
}

/// The high nibble of a byte.
pub open spec fn high_nibble(b: u8) -> u8 {
    (b / 16) as u8
}

/// The low nibble of a byte.
pub open spec fn low_nibble(b: u8) -> u8 {
    (b % 16) as u8
}

/// The 12-bit address operand: the low nibble of the first byte followed by
/// the whole second byte.
pub open spec fn address_operand(upper_byte: u8, lower_byte: u8) -> u16 {
    (low_nibble(upper_byte) as int * 256 + lower_byte as int) as u16
}

/// The address-shaped operations outside the `0x0` system family, keyed by
/// selector. These never fail: every 12-bit operand is a legal address.
pub open spec fn address_operation(selector: u8) -> Option<AddressInstructionType> {
    if selector == 0x1 {
        Some(AddressInstructionType::JumpDirect)
    } else if selector == 0x2 {
        Some(AddressInstructionType::Call)
    } else if selector == 0xA {
        Some(AddressInstructionType::SetI)
    } else if selector == 0xB {
        Some(AddressInstructionType::JumpAddV0)
    } else {
        None
    }
}

/// The register-plus-immediate operations, keyed by selector. These never
/// fail: every register nibble and immediate byte is legal.
pub open spec fn register_byte_operation(selector: u8) -> Option<RegisterByteInstructionType> {
    if selector == 0x3 {
        Some(RegisterByteInstructionType::SkipEqual)
    } else if selector == 0x4 {
        Some(RegisterByteInstructionType::SkipNotEqual)
    } else if selector == 0x6 {
        Some(RegisterByteInstructionType::Load)
    } else if selector == 0x7 {
        Some(RegisterByteInstructionType::Add)
    } else if selector == 0xC {
        Some(RegisterByteInstructionType::RandAnd)
    } else {
        None
    }
}

/// The arithmetic/logic family under selector `0x8`, keyed by the low nibble
/// of the second byte: exactly nine defined operations.
pub open spec fn arithmetic_operation(sub_selector: u8) -> Option<TwoRegisterInstructionType> {
    if sub_selector == 0x0 {
        Some(TwoRegisterInstructionType::Load)
    } else if sub_selector == 0x1 {
        Some(TwoRegisterInstructionType::Or)
    } else if sub_selector == 0x2 {
        Some(TwoRegisterInstructionType::And)
    } else if sub_selector == 0x3 {
        Some(TwoRegisterInstructionType::ExclusiveOr)
    } else if sub_selector == 0x4 {
        Some(TwoRegisterInstructionType::Add)
    } else if sub_selector == 0x5 {
        Some(TwoRegisterInstructionType::SubtractBorrow)
    } else if sub_selector == 0x6 {
        Some(TwoRegisterInstructionType::ShiftRight)
    } else if sub_selector == 0x7 {
        Some(TwoRegisterInstructionType::SubtractNotBorrow)
    } else if sub_selector == 0xE {
        Some(TwoRegisterInstructionType::ShiftLeft)
    } else {
        None
    }
}

/// The key-query family under selector `0xE`, keyed by the full second byte:
/// exactly two defined operations.
pub open spec fn key_operation(lower_byte: u8) -> Option<SingleRegisterInstructionType> {
    if lower_byte == 0x9E {
        Some(SingleRegisterInstructionType::SkipPressed)
    } else if lower_byte == 0xA1 {
        Some(SingleRegisterInstructionType::SkipNotPressed)
    } else {
        None
    }
}

/// The timer/memory family under selector `0xF`, keyed by the full second
/// byte: exactly nine defined operations.
pub open spec fn timer_memory_operation(lower_byte: u8) -> Option<SingleRegisterInstructionType> {
    if lower_byte == 0x07 {
        Some(SingleRegisterInstructionType::ReadDelayTimer)
    } else if lower_byte == 0x0A {
        Some(SingleRegisterInstructionType::WaitForKeyPress)
    } else if lower_byte == 0x15 {
        Some(SingleRegisterInstructionType::SetDelayTimer)
    } else if lower_byte == 0x18 {
        Some(SingleRegisterInstructionType::SetSoundTimer)
    } else if lower_byte == 0x1E {
        Some(SingleRegisterInstructionType::AddI)
    } else if lower_byte == 0x29 {
        Some(SingleRegisterInstructionType::LoadSprite)
    } else if lower_byte == 0x33 {
        Some(SingleRegisterInstructionType::StoreBCD)
    } else if lower_byte == 0x55 {
        Some(SingleRegisterInstructionType::StoreRegisters)
    } else if lower_byte == 0x65 {
        Some(SingleRegisterInstructionType::ReadToRegisters)
    } else {
        None
    }
}

/// The system family under selector `0x0`: two exact-match no-operand
/// operations, and every other low byte is a legacy SYS call on the low
/// 12 bits. This family never fails.
pub open spec fn system_instruction(upper_byte: u8, lower_byte: u8) -> Instruction {
    if lower_byte == 0xE0 {
        Instruction::NoArgInstruction(NoArgInstructionType::ClearDisplay)
    } else if lower_byte == 0xEE {
        Instruction::NoArgInstruction(NoArgInstructionType::Return)
    } else {
        Instruction::AddressInstruction(AddressInstruction {
            instruction_type: AddressInstructionType::SYS,
            address: address_operand(upper_byte, lower_byte),
        })
    }
}

/// Whether the word made of the two bytes is a defined encoding. The gaps are
/// exactly: a non-zero reserved nibble in the `0x5`/`0x9` skip family, an
/// arithmetic sub-selector outside the nine defined ones, and a low byte that
/// none of the `0xE`/`0xF` tables list.
pub open spec fn word_is_defined(upper_byte: u8, lower_byte: u8) -> bool {
    let selector = high_nibble(upper_byte);
    ||| selector == 0x0
    ||| address_operation(selector) is Some
    ||| register_byte_operation(selector) is Some
    ||| (selector == 0x5 || selector == 0x9) && low_nibble(lower_byte) == 0x0
    ||| selector == 0x8 && arithmetic_operation(low_nibble(lower_byte)) is Some
    ||| selector == 0xD
    ||| selector == 0xE && key_operation(lower_byte) is Some
    ||| selector == 0xF && timer_memory_operation(lower_byte) is Some
}

/// The canonical meaning of a word: the decoded instruction for every defined
/// encoding, and `InvalidInstruction` for every gap in the tables.
pub open spec fn spec_decode(upper_byte: u8, lower_byte: u8) -> Result<Instruction, DecodeError> {
    let selector = high_nibble(upper_byte);
    let vx = low_nibble(upper_byte);
    let vy = high_nibble(lower_byte);
    let sub_selector = low_nibble(lower_byte);
    if selector == 0x0 {
        Ok(system_instruction(upper_byte, lower_byte))
    } else if selector == 0x5 || selector == 0x9 {
        // the low nibble is a reserved slot in the skip family and must be 0
        if sub_selector == 0x0 {
            Ok(Instruction::TwoRegisterInstruction(TwoRegisterInstruction {
                instruction_type: if selector == 0x5 {
                    TwoRegisterInstructionType::SkipEqual
                } else {
                    TwoRegisterInstructionType::SkipNotEqual
                },
                Vx: vx,
                Vy: vy,
            }))
        } else {
            Err(DecodeError::InvalidInstruction)
        }
    } else if selector == 0x8 {
        match arithmetic_operation(sub_selector) {
            Some(instruction_type) => Ok(Instruction::TwoRegisterInstruction(TwoRegisterInstruction {
                instruction_type,
                Vx: vx,
                Vy: vy,
            })),
            None => Err(DecodeError::InvalidInstruction),
        }
    } else if selector == 0xD {
        Ok(Instruction::DrawInstruction(DrawInstruction { Vx: vx, Vy: vy, height: sub_selector }))
    } else if selector == 0xE {
        match key_operation(lower_byte) {
            Some(instruction_type) => Ok(Instruction::SingleRegisterInstruction(
                SingleRegisterInstruction { instruction_type, register: vx },
            )),
            None => Err(DecodeError::InvalidInstruction),
        }
    } else if selector == 0xF {
        match timer_memory_operation(lower_byte) {
            Some(instruction_type) => Ok(Instruction::SingleRegisterInstruction(
                SingleRegisterInstruction { instruction_type, register: vx },
            )),
            None => Err(DecodeError::InvalidInstruction),
        }
    } else {
        match address_operation(selector) {
            Some(instruction_type) => Ok(Instruction::AddressInstruction(AddressInstruction {
                instruction_type,
                address: address_operand(upper_byte, lower_byte),
            })),
            None => match register_byte_operation(selector) {
                Some(instruction_type) => Ok(Instruction::RegisterByteInstruction(
                    RegisterByteInstruction { instruction_type, register: vx, byte: lower_byte },
                )),
                None => Err(DecodeError::InvalidInstruction),
            },
        }
    }
}

/// Every field of a decoded instruction is bounded by its bit width: register
/// indices and heights fit in a nibble, addresses in 12 bits.
pub open spec fn instruction_well_formed(instruction: Instruction) -> bool {
    match instruction {
        Instruction::NoArgInstruction(_) => true,
        Instruction::AddressInstruction(a) => a.address < 4096,
        Instruction::RegisterByteInstruction(r) => r.register < 16,
        Instruction::SingleRegisterInstruction(s) => s.register < 16,
        Instruction::TwoRegisterInstruction(t) => t.Vx < 16 && t.Vy < 16,
        Instruction::DrawInstruction(d) => d.Vx < 16 && d.Vy < 16 && d.height < 16,
    }
}

/// A byte from its two nibbles.
pub open spec fn make_byte(high: u8, low: u8) -> u8 {
    (high as int * 16 + low as int) as u8
}

/// The selector nibble under which each address-shaped operation is encoded.
pub open spec fn address_selector(instruction_type: AddressInstructionType) -> u8 {
    match instruction_type {
        AddressInstructionType::SYS => 0x0,
        AddressInstructionType::JumpDirect => 0x1,
        AddressInstructionType::Call => 0x2,
        AddressInstructionType::SetI => 0xA,
        AddressInstructionType::JumpAddV0 => 0xB,
    }
}

/// The selector nibble under which each register-plus-immediate operation is
/// encoded.
pub open spec fn register_byte_selector(instruction_type: RegisterByteInstructionType) -> u8 {
    match instruction_type {
        RegisterByteInstructionType::SkipEqual => 0x3,
        RegisterByteInstructionType::SkipNotEqual => 0x4,
        RegisterByteInstructionType::Load => 0x6,
        RegisterByteInstructionType::Add => 0x7,
        RegisterByteInstructionType::RandAnd => 0xC,
    }
}

/// The selector nibble and reserved/arithmetic sub-selector nibble under
/// which each two-register operation is encoded.
pub open spec fn two_register_encoding(instruction_type: TwoRegisterInstructionType) -> (u8, u8) {
    match instruction_type {
        TwoRegisterInstructionType::SkipEqual => (0x5, 0x0),
        TwoRegisterInstructionType::Load => (0x8, 0x0),
        TwoRegisterInstructionType::Or => (0x8, 0x1),
        TwoRegisterInstructionType::And => (0x8, 0x2),
        TwoRegisterInstructionType::ExclusiveOr => (0x8, 0x3),
        TwoRegisterInstructionType::Add => (0x8, 0x4),
        TwoRegisterInstructionType::SubtractBorrow => (0x8, 0x5),
        TwoRegisterInstructionType::ShiftRight => (0x8, 0x6),
        TwoRegisterInstructionType::SubtractNotBorrow => (0x8, 0x7),
        TwoRegisterInstructionType::ShiftLeft => (0x8, 0xE),
        TwoRegisterInstructionType::SkipNotEqual => (0x9, 0x0),
    }
}

/// The selector nibble and full low byte under which each single-register
/// operation is encoded.
pub open spec fn single_register_encoding(
    instruction_type: SingleRegisterInstructionType,
) -> (u8, u8) {
    match instruction_type {
        SingleRegisterInstructionType::SkipPressed => (0xE, 0x9E),
        SingleRegisterInstructionType::SkipNotPressed => (0xE, 0xA1),
        SingleRegisterInstructionType::ReadDelayTimer => (0xF, 0x07),
        SingleRegisterInstructionType::WaitForKeyPress => (0xF, 0x0A),
        SingleRegisterInstructionType::SetDelayTimer => (0xF, 0x15),
        SingleRegisterInstructionType::SetSoundTimer => (0xF, 0x18),
        SingleRegisterInstructionType::AddI => (0xF, 0x1E),
        SingleRegisterInstructionType::LoadSprite => (0xF, 0x29),
        SingleRegisterInstructionType::StoreBCD => (0xF, 0x33),
        SingleRegisterInstructionType::StoreRegisters => (0xF, 0x55),
        SingleRegisterInstructionType::ReadToRegisters => (0xF, 0x65),
    }
}

/// The canonical word for an instruction: defined exactly on the well-formed
/// instructions (every field within its bit width), and for those it yields
/// the two bytes of the instruction's encoding.
pub open spec fn spec_encode(instruction: Instruction) -> Option<(u8, u8)> {
    if !instruction_well_formed(instruction) {
        None
    } else {
        match instruction {
            Instruction::NoArgInstruction(t) => match t {
                NoArgInstructionType::ClearDisplay => Some((0x00u8, 0xE0u8)),
                NoArgInstructionType::Return => Some((0x00u8, 0xEEu8)),
            },
            Instruction::AddressInstruction(a) => Some(
                (
                    make_byte(address_selector(a.instruction_type), (a.address / 256) as u8),
                    (a.address % 256) as u8,
                ),
            ),
            Instruction::RegisterByteInstruction(r) => Some(
                (make_byte(register_byte_selector(r.instruction_type), r.register), r.byte),
            ),
            Instruction::SingleRegisterInstruction(s) => {
                let (selector, lower_byte) = single_register_encoding(s.instruction_type);
                Some((make_byte(selector, s.register), lower_byte))
            },
            Instruction::TwoRegisterInstruction(t) => {
                let (selector, sub_selector) = two_register_encoding(t.instruction_type);
                Some((make_byte(selector, t.Vx), make_byte(t.Vy, sub_selector)))
            },
            Instruction::DrawInstruction(d) => Some(
                (make_byte(0xD, d.Vx), make_byte(d.Vy, d.height)),
            ),
        }
    }
}

impl Instruction {
    /// Decode a raw `(high byte, low byte)` word. Returns the instruction for
    /// every defined encoding, and `InvalidInstruction` for exactly the
    /// undefined selector/sub-selector combinations — never a silently wrong
    /// instruction.
    pub fn decode(raw: (u8, u8)) -> (result: Result<Instruction, DecodeError>)
        ensures
            result == spec_decode(raw.0, raw.1),
            result is Ok <==> word_is_defined(raw.0, raw.1),
            !word_is_defined(raw.0, raw.1) ==> result == Err::<Instruction, DecodeError>(
                DecodeError::InvalidInstruction,
            ),
            result matches Ok(instruction) ==> instruction_well_formed(instruction),
    {
        let (upper_byte, lower_byte) = raw;

        // first 4 bits are easiest to group instructions by
        let selector: u8 = upper_byte / 16;

        let vx: u8 = upper_byte % 16;
        let vy: u8 = lower_byte / 16;
        let sub_selector: u8 = lower_byte % 16;

        // address instructions use the last 12 bits as the address value
        let address: u16 = (vx as u16) * 256 + (lower_byte as u16);

        match selector {
            0x0 => match lower_byte {
                0xE0 => Ok(Instruction::NoArgInstruction(NoArgInstructionType::ClearDisplay)),
                0xEE => Ok(Instruction::NoArgInstruction(NoArgInstructionType::Return)),
                _ => Ok(Instruction::AddressInstruction(AddressInstruction {
                    instruction_type: AddressInstructionType::SYS,
                    address,
                })),
            },
            0x1 => Ok(Instruction::AddressInstruction(AddressInstruction {
                instruction_type: AddressInstructionType::JumpDirect,
                address,
            })),
            0x2 => Ok(Instruction::AddressInstruction(AddressInstruction {
                instruction_type: AddressInstructionType::Call,
                address,
            })),
            0x3 => Ok(Instruction::RegisterByteInstruction(RegisterByteInstruction {
                instruction_type: RegisterByteInstructionType::SkipEqual,
                register: vx,
                byte: lower_byte,
            })),
            0x4 => Ok(Instruction::RegisterByteInstruction(RegisterByteInstruction {
                instruction_type: RegisterByteInstructionType::SkipNotEqual,
                register: vx,
                byte: lower_byte,
            })),
            0x5 => match sub_selector {
                0x0 => Ok(Instruction::TwoRegisterInstruction(TwoRegisterInstruction {
                    instruction_type: TwoRegisterInstructionType::SkipEqual,
                    Vx: vx,
                    Vy: vy,
                })),
                _ => Err(DecodeError::InvalidInstruction),
            },
            0x6 => Ok(Instruction::RegisterByteInstruction(RegisterByteInstruction {
                instruction_type: RegisterByteInstructionType::Load,
                register: vx,
                byte: lower_byte,
            })),
            0x7 => Ok(Instruction::RegisterByteInstruction(RegisterByteInstruction {
                instruction_type: RegisterByteInstructionType::Add,
                register: vx,
                byte: lower_byte,
            })),
            0x8 => match sub_selector {
                0x0 => Ok(Instruction::TwoRegisterInstruction(TwoRegisterInstruction {
                    instruction_type: TwoRegisterInstructionType::Load,
                    Vx: vx,
                    Vy: vy,
                })),
                0x1 => Ok(Instruction::TwoRegisterInstruction(TwoRegisterInstruction {
                    instruction_type: TwoRegisterInstructionType::Or,
                    Vx: vx,
                    Vy: vy,
                })),
                0x2 => Ok(Instruction::TwoRegisterInstruction(TwoRegisterInstruction {
                    instruction_type: TwoRegisterInstructionType::And,
                    Vx: vx,
                    Vy: vy,
                })),
                0x3 => Ok(Instruction::TwoRegisterInstruction(TwoRegisterInstruction {
                    instruction_type: TwoRegisterInstructionType::ExclusiveOr,
                    Vx: vx,
                    Vy: vy,
                })),
                0x4 => Ok(Instruction::TwoRegisterInstruction(TwoRegisterInstruction {
                    instruction_type: TwoRegisterInstructionType::Add,
                    Vx: vx,
                    Vy: vy,
                })),
                0x5 => Ok(Instruction::TwoRegisterInstruction(TwoRegisterInstruction {
                    instruction_type: TwoRegisterInstructionType::SubtractBorrow,
                    Vx: vx,
                    Vy: vy,
                })),
                0x6 => Ok(Instruction::TwoRegisterInstruction(TwoRegisterInstruction {
                    instruction_type: TwoRegisterInstructionType::ShiftRight,
                    Vx: vx,
                    Vy: vy,
                })),
                0x7 => Ok(Instruction::TwoRegisterInstruction(TwoRegisterInstruction {
                    instruction_type: TwoRegisterInstructionType::SubtractNotBorrow,
                    Vx: vx,
                    Vy: vy,
                })),
                0xE => Ok(Instruction::TwoRegisterInstruction(TwoRegisterInstruction {
                    instruction_type: TwoRegisterInstructionType::ShiftLeft,
                    Vx: vx,
                    Vy: vy,
                })),
                _ => Err(DecodeError::InvalidInstruction),
            },
            0x9 => match sub_selector {
                0x0 => Ok(Instruction::TwoRegisterInstruction(TwoRegisterInstruction {
                    instruction_type: TwoRegisterInstructionType::SkipNotEqual,
                    Vx: vx,
                    Vy: vy,
                })),
                _ => Err(DecodeError::InvalidInstruction),
            },
            0xA => Ok(Instruction::AddressInstruction(AddressInstruction {
                instruction_type: AddressInstructionType::SetI,
                address,
            })),
            0xB => Ok(Instruction::AddressInstruction(AddressInstruction {
                instruction_type: AddressInstructionType::JumpAddV0,
                address,
            })),
            0xC => Ok(Instruction::RegisterByteInstruction(RegisterByteInstruction {
                instruction_type: RegisterByteInstructionType::RandAnd,
                register: vx,
                byte: lower_byte,
            })),
            0xD => Ok(Instruction::DrawInstruction(DrawInstruction {
                Vx: vx,
                Vy: vy,
                height: sub_selector,
            })),
            0xE => match lower_byte {
                0x9E => Ok(Instruction::SingleRegisterInstruction(SingleRegisterInstruction {
                    instruction_type: SingleRegisterInstructionType::SkipPressed,
                    register: vx,
                })),
                0xA1 => Ok(Instruction::SingleRegisterInstruction(SingleRegisterInstruction {
                    instruction_type: SingleRegisterInstructionType::SkipNotPressed,
                    register: vx,
                })),
                _ => Err(DecodeError::InvalidInstruction),
            },
            0xF => match lower_byte {
                0x07 => Ok(Instruction::SingleRegisterInstruction(SingleRegisterInstruction {
                    instruction_type: SingleRegisterInstructionType::ReadDelayTimer,
                    register: vx,
                })),
                0x0A => Ok(Instruction::SingleRegisterInstruction(SingleRegisterInstruction {
                    instruction_type: SingleRegisterInstructionType::WaitForKeyPress,
                    register: vx,
                })),
                0x15 => Ok(Instruction::SingleRegisterInstruction(SingleRegisterInstruction {
                    instruction_type: SingleRegisterInstructionType::SetDelayTimer,
                    register: vx,
                })),
                0x18 => Ok(Instruction::SingleRegisterInstruction(SingleRegisterInstruction {
                    instruction_type: SingleRegisterInstructionType::SetSoundTimer,
                    register: vx,
                })),
                0x1E => Ok(Instruction::SingleRegisterInstruction(SingleRegisterInstruction {
                    instruction_type: SingleRegisterInstructionType::AddI,
                    register: vx,
                })),
                0x29 => Ok(Instruction::SingleRegisterInstruction(SingleRegisterInstruction {
                    instruction_type: SingleRegisterInstructionType::LoadSprite,
                    register: vx,
                })),
                0x33 => Ok(Instruction::SingleRegisterInstruction(SingleRegisterInstruction {
                    instruction_type: SingleRegisterInstructionType::StoreBCD,
                    register: vx,
                })),
                0x55 => Ok(Instruction::SingleRegisterInstruction(SingleRegisterInstruction {
                    instruction_type: SingleRegisterInstructionType::StoreRegisters,
                    register: vx,
                })),
                0x65 => Ok(Instruction::SingleRegisterInstruction(SingleRegisterInstruction {
                    instruction_type: SingleRegisterInstructionType::ReadToRegisters,
                    register: vx,
                })),
                _ => Err(DecodeError::InvalidInstruction),
            },
            // a u8 divided by 16 cannot exceed 15
            _ => unreached(),
        }
    }

    /// Decode a word that the caller already knows to be a defined encoding,
    /// yielding the instruction directly. A caller that cannot vouch for its
    /// input uses [`Instruction::decode`] instead, which reports undefined
    /// words rather than requiring them away.
    pub fn parse(raw: (u8, u8)) -> (instruction: Instruction)
        requires
            word_is_defined(raw.0, raw.1),
        ensures
            Ok::<Instruction, DecodeError>(instruction) == spec_decode(raw.0, raw.1),
    {
        match Self::decode(raw) {
            Ok(instruction) => instruction,
            Err(_) => unreached(),
        }
    }

    /// Encode an instruction back into its canonical `(high byte, low byte)`
    /// word. Succeeds exactly on the well-formed instructions: every field
    /// within its bit width.
    pub fn encode(&self) -> (result: Option<(u8, u8)>)
        ensures
            result == spec_encode(*self),
            result is Some <==> instruction_well_formed(*self),
    {
        match self {
            Instruction::NoArgInstruction(t) => match t {
                NoArgInstructionType::ClearDisplay => Some((0x00, 0xE0)),
                NoArgInstructionType::Return => Some((0x00, 0xEE)),
            },
            Instruction::AddressInstruction(a) => {
                if a.address < 4096 {
                    let selector: u8 = match a.instruction_type {
                        AddressInstructionType::SYS => 0x0,
                        AddressInstructionType::JumpDirect => 0x1,
                        AddressInstructionType::Call => 0x2,
                        AddressInstructionType::SetI => 0xA,
                        AddressInstructionType::JumpAddV0 => 0xB,
                    };
                    Some((selector * 16 + (a.address / 256) as u8, (a.address % 256) as u8))
                } else {
                    None
                }
            },
            Instruction::RegisterByteInstruction(r) => {
                if r.register < 16 {
                    let selector: u8 = match r.instruction_type {
                        RegisterByteInstructionType::SkipEqual => 0x3,
                        RegisterByteInstructionType::SkipNotEqual => 0x4,
                        RegisterByteInstructionType::Load => 0x6,
                        RegisterByteInstructionType::Add => 0x7,
                        RegisterByteInstructionType::RandAnd => 0xC,
                    };
                    Some((selector * 16 + r.register, r.byte))
                } else {
                    None
                }
            },
            Instruction::SingleRegisterInstruction(s) => {
                if s.register < 16 {
                    let (selector, lower_byte): (u8, u8) = match s.instruction_type {
                        SingleRegisterInstructionType::SkipPressed => (0xE, 0x9E),
                        SingleRegisterInstructionType::SkipNotPressed => (0xE, 0xA1),
                        SingleRegisterInstructionType::ReadDelayTimer => (0xF, 0x07),
                        SingleRegisterInstructionType::WaitForKeyPress => (0xF, 0x0A),
                        SingleRegisterInstructionType::SetDelayTimer => (0xF, 0x15),
                        SingleRegisterInstructionType::SetSoundTimer => (0xF, 0x18),
                        SingleRegisterInstructionType::AddI => (0xF, 0x1E),
                        SingleRegisterInstructionType::LoadSprite => (0xF, 0x29),
                        SingleRegisterInstructionType::StoreBCD => (0xF, 0x33),
                        SingleRegisterInstructionType::StoreRegisters => (0xF, 0x55),
                        SingleRegisterInstructionType::ReadToRegisters => (0xF, 0x65),
                    };
                    Some((selector * 16 + s.register, lower_byte))
                } else {
                    None
                }
            },
            Instruction::TwoRegisterInstruction(t) => {
                if t.Vx < 16 && t.Vy < 16 {
                    let (selector, sub_selector): (u8, u8) = match t.instruction_type {
                        TwoRegisterInstructionType::SkipEqual => (0x5, 0x0),
                        TwoRegisterInstructionType::Load => (0x8, 0x0),
                        TwoRegisterInstructionType::Or => (0x8, 0x1),
                        TwoRegisterInstructionType::And => (0x8, 0x2),
                        TwoRegisterInstructionType::ExclusiveOr => (0x8, 0x3),
                        TwoRegisterInstructionType::Add => (0x8, 0x4),
                        TwoRegisterInstructionType::SubtractBorrow => (0x8, 0x5),
                        TwoRegisterInstructionType::ShiftRight => (0x8, 0x6),
                        TwoRegisterInstructionType::SubtractNotBorrow => (0x8, 0x7),
                        TwoRegisterInstructionType::ShiftLeft => (0x8, 0xE),
                        TwoRegisterInstructionType::SkipNotEqual => (0x9, 0x0),
                    };
                    Some((selector * 16 + t.Vx, t.Vy * 16 + sub_selector))
                } else {
                    None
                }
            },
            Instruction::DrawInstruction(d) => {
                if d.Vx < 16 && d.Vy < 16 && d.height < 16 {
                    Some((0xD0 + d.Vx, d.Vy * 16 + d.height))
                } else {
                    None
                }
            },
        }
    }
}

/// A byte is its high nibble recombined with its low nibble.
proof fn lemma_nibbles_recombine(b: u8)
    ensures
        make_byte(high_nibble(b), low_nibble(b)) == b,
        high_nibble(b) < 16,
        low_nibble(b) < 16,
{
}

/// Splitting the 12-bit address operand back into its nibble and byte
/// recovers exactly what went in.
proof fn lemma_address_operand_split(upper_byte: u8, lower_byte: u8)
    ensures
        address_operand(upper_byte, lower_byte) < 4096,
        address_operand(upper_byte, lower_byte) as int / 256 == low_nibble(upper_byte),
        address_operand(upper_byte, lower_byte) as int % 256 == lower_byte,
{
    let x = low_nibble(upper_byte) as int;
    let l = lower_byte as int;
    assert((x * 256 + l) / 256 == x && (x * 256 + l) % 256 == l) by (nonlinear_arith)
        requires
            0 <= x < 16,
            0 <= l < 256,
    ;
}

/// Every address-shaped instruction outside the system family carries the low
/// twelve bits of the word as its address, for every one of the 4096 possible
/// operand values.
pub proof fn lemma_address_instructions_take_low_twelve_bits(upper_byte: u8, lower_byte: u8)
    requires
        high_nibble(upper_byte) == 0x1 || high_nibble(upper_byte) == 0x2 || high_nibble(upper_byte)
            == 0xA || high_nibble(upper_byte) == 0xB,
    ensures
        spec_decode(upper_byte, lower_byte) matches Ok(Instruction::AddressInstruction(a))
            && address_operation(high_nibble(upper_byte)) == Some(a.instruction_type) && a.address
            == (((upper_byte & 0x0F) as u16) << 8) | (lower_byte as u16),
{
    assert((((upper_byte & 0x0F) as u16) << 8) | (lower_byte as u16) == ((upper_byte % 16) as u16)
        * 256 + (lower_byte as u16)) by (bit_vector);
}

/// A draw word never fails to decode: every value of the height nibble,
/// including 0, is legal, and the three operand nibbles land in their fields.
pub proof fn lemma_draw_never_fails(upper_byte: u8, lower_byte: u8)
    requires
        high_nibble(upper_byte) == 0xD,
    ensures
        spec_decode(upper_byte, lower_byte) matches Ok(Instruction::DrawInstruction(d)) && d.Vx
            == low_nibble(upper_byte) && d.Vy == high_nibble(lower_byte) && d.height == low_nibble(
            lower_byte,
        ),
{
}

/// Round trip: re-encoding a decoded instruction reproduces the original two
/// bytes. This holds for every defined word except the non-canonical aliases
/// of the two exact-match system words (a word such as `01E0`, whose decoding
/// `ClearDisplay` re-encodes to the canonical `00E0`); those are excluded by
/// the last precondition.
pub proof fn lemma_encode_decode_round_trip(upper_byte: u8, lower_byte: u8)
    requires
        word_is_defined(upper_byte, lower_byte),
        high_nibble(upper_byte) == 0x0 && (lower_byte == 0xE0 || lower_byte == 0xEE)
            ==> upper_byte == 0x00,
    ensures
        spec_decode(upper_byte, lower_byte) matches Ok(instruction) && spec_encode(instruction)
            == Some((upper_byte, lower_byte)),
{
    lemma_nibbles_recombine(upper_byte);
    lemma_nibbles_recombine(lower_byte);
    lemma_address_operand_split(upper_byte, lower_byte);
}

/// The alias words are nevertheless benign: for every defined word, the
/// decoding of the re-encoded word is the decoding of the word itself, so
/// re-encoding never changes what a program means.
pub proof fn lemma_reencoding_preserves_meaning(upper_byte: u8, lower_byte: u8)
    requires
        word_is_defined(upper_byte, lower_byte),
    ensures
        spec_decode(upper_byte, lower_byte) matches Ok(instruction) && spec_encode(instruction)
            matches Some(word) && spec_decode(word.0, word.1) == Ok::<Instruction, DecodeError>(
            instruction,
        ),
{
    if high_nibble(upper_byte) == 0x0 && (lower_byte == 0xE0 || lower_byte == 0xEE)
        && upper_byte != 0x00 {
        // a non-canonical system alias: its decoding re-encodes to the
        // canonical word, which decodes to the same instruction
        assert(spec_decode(0x00, lower_byte) == spec_decode(upper_byte, lower_byte));
    } else {
        lemma_encode_decode_round_trip(upper_byte, lower_byte);
    }
}

} // verus!
