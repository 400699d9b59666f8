use vstd::prelude::*;

verus! {

/// The rule an instruction uses to locate the memory cell (or immediate
/// operand) it works on.
#[derive(Clone, Copy, Debug, PartialEq, Eq, Structural)]
pub enum AddressingMode {
    /// The operand is the byte at the program counter itself.
    Immediate,
    /// The byte at the program counter, zero-extended, addresses page zero.
    ZeroPage,
    /// Like `ZeroPage`, but the X register is added with 8-bit wraparound
    /// before zero-extension, so the effective address stays in page zero.
    ZeroPageX,
    /// The little-endian 16-bit word at the program counter.
    Absolute,
    /// `Absolute` plus the X register, wrapping modulo 65536.
    AbsoluteX,
    /// `Absolute` plus the Y register, wrapping modulo 65536.
    AbsoluteY,
    /// The byte at the program counter plus X (8-bit wraparound) names a
    /// zero-page pointer; the effective address is the little-endian word
    /// stored there.
    IndirectX,
    /// The byte at the program counter names a zero-page pointer; the
    /// little-endian word stored there plus the Y register (16-bit
    /// wraparound) is the effective address.
    IndirectY,
    /// The instruction reads no memory operand.
    Implied,
    /// Signed displacement for branch instructions; reserved for extension.
    Relative,
}

impl AddressingMode {
    /// The modes under which an instruction resolves a memory operand.
    pub open spec fn uses_memory(self) -> bool {
        !(self is Implied || self is Relative)
    }
}

} // verus!
