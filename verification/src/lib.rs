//! Decoder for the fixed-width 16-bit instruction words of a classic 8-bit
//! virtual machine.
//!
//! The heart of the crate is [`instruction`]: a complete, exhaustive mapping
//! from the bit layout of a two-byte opcode to a strongly typed
//! [`instruction::Instruction`] value, together with a proved characterisation
//! of exactly which bit patterns are valid encodings. The [`text`] module
//! parses the one-line hexadecimal form that an interactive front end feeds to
//! the decoder.

pub mod instruction;
pub mod text;
