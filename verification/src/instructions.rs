//! The instruction catalog: an immutable descriptor for every supported
//! opcode, looked up by opcode byte. The spec-level table is
//! `machine::spec_opcode_info`; `find_instruction_by_opcode` is its
//! executable counterpart and reports an unsupported opcode by `None`
//! instead of falling back to an unrelated entry.

use crate::addressing_modes::AddressingMode;
use crate::machine::{
    is_adc_opcode, is_and_opcode, is_asl_memory_opcode, is_lda_opcode, is_sta_opcode,
    is_supported_opcode, spec_opcode_info,
};
use vstd::prelude::*;

verus! {

/// One immutable entry of the instruction catalog.
pub struct Instruction {
    /// Mnemonic, for diagnostics only.
    pub name: String,
    /// The opcode byte this entry describes.
    pub opcode: u8,
    /// How the instruction locates its operand.
    pub addressing_mode: AddressingMode,
    /// Operand length in bytes; the program counter advances by one (the
    /// opcode) plus this after execution.
    pub increment: u8,
}

impl Instruction {
    /// The entry agrees with the catalog on its opcode's mode and length.
    pub open spec fn wf(self) -> bool {
        spec_opcode_info(self.opcode) == Some((self.addressing_mode, self.increment))
    }

    fn new(name: &str, opcode: u8, addressing_mode: AddressingMode, increment: u8) -> (r:
        Instruction)
        ensures
            r.name@ == name@,
            r.opcode == opcode,
            r.addressing_mode == addressing_mode,
            r.increment == increment,
    {
        Instruction { name: name.to_owned(), opcode, addressing_mode, increment }
    }

    /// How the instruction locates its operand.
    #[allow(non_snake_case)]
    pub fn getAddressingMode(&self) -> (r: &AddressingMode)
        ensures
            *r == self.addressing_mode,
    {
        &self.addressing_mode
    }

    /// Operand length in bytes.
    #[allow(non_snake_case)]
    pub fn getIncrement(&self) -> (r: &u8)
        ensures
            *r == self.increment,
    {
        &self.increment
    }

    /// The opcode byte this entry describes.
    #[allow(non_snake_case)]
    pub fn getOpcode(&self) -> (r: &u8)
        ensures
            *r == self.opcode,
    {
        &self.opcode
    }

    /// Mnemonic, for diagnostics only.
    #[allow(non_snake_case)]
    pub fn getName(&self) -> (r: &str)
        ensures
            r@ == self.name@,
    {
        self.name.as_str()
    }
}

/// The mnemonic the catalog records for a supported opcode; empty for an
/// unsupported one.
pub open spec fn spec_mnemonic(op: u8) -> Seq<char> {
    if is_lda_opcode(op) {
        "LDA"@
    } else if op == 0x00 {
        "BRK"@
    } else if op == 0x78 {
        "SEI"@
    } else if op == 0xF8 {
        "SED"@
    } else if op == 0xAA {
        "TAX"@
    } else if op == 0xE8 {
        "INX"@
    } else if is_sta_opcode(op) {
        "STA"@
    } else if is_adc_opcode(op) {
        "ADC"@
    } else if is_and_opcode(op) {
        "AND"@
    } else if op == 0x0A || is_asl_memory_opcode(op) {
        "ASL"@
    } else {
        Seq::empty()
    }
}

/// Look an opcode up in the catalog. Returns `None` for an opcode the
/// engine does not support; the caller decides how to surface that.
pub fn find_instruction_by_opcode(opcode: u8) -> (r: Option<Instruction>)
    ensures
        match r {
            Some(instr) => instr.wf() && instr.opcode == opcode && instr.name@ == spec_mnemonic(
                opcode,
            ),
            None => !is_supported_opcode(opcode),
        },
{
    match opcode {
        0xA9 => Some(Instruction::new("LDA", 0xA9, AddressingMode::Immediate, 1)),
        0xA5 => Some(Instruction::new("LDA", 0xA5, AddressingMode::ZeroPage, 1)),
        0xB5 => Some(Instruction::new("LDA", 0xB5, AddressingMode::ZeroPageX, 1)),
        0xAD => Some(Instruction::new("LDA", 0xAD, AddressingMode::Absolute, 2)),
        0xBD => Some(Instruction::new("LDA", 0xBD, AddressingMode::AbsoluteX, 2)),
        0xB9 => Some(Instruction::new("LDA", 0xB9, AddressingMode::AbsoluteY, 2)),
        0xA1 => Some(Instruction::new("LDA", 0xA1, AddressingMode::IndirectX, 1)),
        0xB1 => Some(Instruction::new("LDA", 0xB1, AddressingMode::IndirectY, 1)),
        0x00 => Some(Instruction::new("BRK", 0x00, AddressingMode::Implied, 0)),
        0x78 => Some(Instruction::new("SEI", 0x78, AddressingMode::Implied, 0)),
        0xF8 => Some(Instruction::new("SED", 0xF8, AddressingMode::Implied, 0)),
        0xAA => Some(Instruction::new("TAX", 0xAA, AddressingMode::Implied, 0)),
        0xE8 => Some(Instruction::new("INX", 0xE8, AddressingMode::Implied, 0)),
        0x85 => Some(Instruction::new("STA", 0x85, AddressingMode::ZeroPage, 1)),
        0x95 => Some(Instruction::new("STA", 0x95, AddressingMode::ZeroPageX, 1)),
        0x8D => Some(Instruction::new("STA", 0x8D, AddressingMode::Absolute, 2)),
        0x9D => Some(Instruction::new("STA", 0x9D, AddressingMode::AbsoluteX, 2)),
        0x99 => Some(Instruction::new("STA", 0x99, AddressingMode::AbsoluteY, 2)),
        0x81 => Some(Instruction::new("STA", 0x81, AddressingMode::IndirectX, 1)),
        0x91 => Some(Instruction::new("STA", 0x91, AddressingMode::IndirectY, 1)),
        0x69 => Some(Instruction::new("ADC", 0x69, AddressingMode::Immediate, 1)),
        0x65 => Some(Instruction::new("ADC", 0x65, AddressingMode::ZeroPage, 1)),
        0x75 => Some(Instruction::new("ADC", 0x75, AddressingMode::ZeroPageX, 1)),
        0x6D => Some(Instruction::new("ADC", 0x6D, AddressingMode::Absolute, 2)),
        0x7D => Some(Instruction::new("ADC", 0x7D, AddressingMode::AbsoluteX, 2)),
        0x79 => Some(Instruction::new("ADC", 0x79, AddressingMode::AbsoluteY, 2)),
        0x61 => Some(Instruction::new("ADC", 0x61, AddressingMode::IndirectX, 1)),
        0x71 => Some(Instruction::new("ADC", 0x71, AddressingMode::IndirectY, 1)),
        0x29 => Some(Instruction::new("AND", 0x29, AddressingMode::Immediate, 1)),
        0x25 => Some(Instruction::new("AND", 0x25, AddressingMode::ZeroPage, 1)),
        0x35 => Some(Instruction::new("AND", 0x35, AddressingMode::ZeroPageX, 1)),
        0x2D => Some(Instruction::new("AND", 0x2D, AddressingMode::Absolute, 2)),
        0x3D => Some(Instruction::new("AND", 0x3D, AddressingMode::AbsoluteX, 2)),
        0x39 => Some(Instruction::new("AND", 0x39, AddressingMode::AbsoluteY, 2)),
        0x21 => Some(Instruction::new("AND", 0x21, AddressingMode::IndirectX, 1)),
        0x31 => Some(Instruction::new("AND", 0x31, AddressingMode::IndirectY, 1)),
        0x0A => Some(Instruction::new("ASL", 0x0A, AddressingMode::Implied, 0)),
        0x06 => Some(Instruction::new("ASL", 0x06, AddressingMode::ZeroPage, 1)),
        0x16 => Some(Instruction::new("ASL", 0x16, AddressingMode::ZeroPageX, 1)),
        0x0E => Some(Instruction::new("ASL", 0x0E, AddressingMode::Absolute, 2)),
        0x1E => Some(Instruction::new("ASL", 0x1E, AddressingMode::AbsoluteX, 2)),
        _ => None,
    }
}

} // verus!
