//! Mathematical model of the processor: an abstract machine state and a
//! step function that gives the meaning of every supported opcode.
//!
//! The executable engine in `cpu` is proved to implement `spec_step`,
//! `spec_load` and `spec_reset` exactly.

use crate::addressing_modes::AddressingMode;
use vstd::prelude::*;

verus! {

/// Carry flag: bit 0 of the flags register.
pub const FLAG_CARRY: u8 = 0x01;

/// Zero flag: bit 1 of the flags register.
pub const FLAG_ZERO: u8 = 0x02;

/// Interrupt-disable flag: bit 2 of the flags register.
pub const FLAG_INTERRUPT_DISABLE: u8 = 0x04;

/// Decimal flag: bit 3 of the flags register.
pub const FLAG_DECIMAL: u8 = 0x08;

/// Overflow flag: bit 6 of the flags register.
pub const FLAG_OVERFLOW: u8 = 0x40;

/// Negative flag: bit 7 of the flags register.
pub const FLAG_NEGATIVE: u8 = 0x80;

/// Number of addressable memory cells: the full 16-bit address space.
pub const MEMORY_SIZE: usize = 0x10000;

/// Address at which `load` places a program.
pub const PROGRAM_ORIGIN: u16 = 0x8000;

/// Address of the low byte of the reset vector.
pub const RESET_VECTOR: u16 = 0xFFFC;

/// Abstract processor state: registers, flags, program counter and the
/// byte-addressable store, free of any representation choices.
#[verifier::ext_equal]
pub struct MachineState {
    /// Accumulator register.
    pub a: u8,
    /// X index register.
    pub x: u8,
    /// Y index register.
    pub y: u8,
    /// Flags register; see the `FLAG_` constants for the bit layout.
    pub flags: u8,
    /// Program counter.
    pub pc: u16,
    /// The memory store, always `MEMORY_SIZE` cells long.
    pub mem: Seq<u8>,
}

impl MachineState {
    /// The memory store has its fixed size.
    pub open spec fn wf(self) -> bool {
        self.mem.len() == MEMORY_SIZE
    }
}

/// Reduce an integer into the 8-bit range.
pub open spec fn wrap8(n: int) -> u8 {
    (n % 0x100) as u8
}

/// Reduce an integer into the 16-bit range.
pub open spec fn wrap16(n: int) -> u16 {
    (n % 0x10000) as u16
}

/// The carry flag of a flags byte.
pub open spec fn carry_flag(flags: u8) -> bool {
    flags & FLAG_CARRY != 0
}

/// The zero flag of a flags byte.
pub open spec fn zero_flag(flags: u8) -> bool {
    flags & FLAG_ZERO != 0
}

/// The interrupt-disable flag of a flags byte.
pub open spec fn interrupt_disable_flag(flags: u8) -> bool {
    flags & FLAG_INTERRUPT_DISABLE != 0
}

/// The decimal flag of a flags byte.
pub open spec fn decimal_flag(flags: u8) -> bool {
    flags & FLAG_DECIMAL != 0
}

/// The overflow flag of a flags byte.
pub open spec fn overflow_flag(flags: u8) -> bool {
    flags & FLAG_OVERFLOW != 0
}

/// The negative flag of a flags byte.
pub open spec fn negative_flag(flags: u8) -> bool {
    flags & FLAG_NEGATIVE != 0
}

/// A flags byte with the bits of `mask` set (`on`) or cleared (`!on`) and
/// every other bit kept.
pub open spec fn spec_set_bit(flags: u8, mask: u8, on: bool) -> u8 {
    if on {
        flags | mask
    } else {
        flags & !mask
    }
}

/// The zero and negative flags recomputed from `value`: zero iff the byte
/// is 0, negative iff its bit 7 is set. All other flags are kept.
pub open spec fn spec_set_zn(flags: u8, value: u8) -> u8 {
    spec_set_bit(spec_set_bit(flags, FLAG_ZERO, value == 0), FLAG_NEGATIVE, value & 0x80 != 0)
}

/// The little-endian 16-bit word whose low byte sits at `lo_addr` and high
/// byte at `hi_addr`.
pub open spec fn word_at(mem: Seq<u8>, lo_addr: u16, hi_addr: u16) -> u16 {
    (mem[hi_addr as int] * 0x100 + mem[lo_addr as int]) as u16
}

/// The little-endian word held in page zero at `ptr` and `ptr + 1`, the
/// increment wrapping within page zero.
pub open spec fn zero_page_word(mem: Seq<u8>, ptr: u8) -> u16 {
    word_at(mem, ptr as u16, wrap8(ptr + 1) as u16)
}

/// The effective operand address of an instruction, given the machine state
/// with the program counter at the first operand byte. Address resolution
/// reads registers and memory but never changes them. `Implied` and
/// `Relative` resolve no address; the result for them is immaterial.
pub open spec fn spec_resolve(mode: AddressingMode, m: MachineState) -> u16 {
    match mode {
        AddressingMode::Immediate => m.pc,
        AddressingMode::ZeroPage => m.mem[m.pc as int] as u16,
        AddressingMode::ZeroPageX => wrap8(m.mem[m.pc as int] + m.x) as u16,
        AddressingMode::Absolute => word_at(m.mem, m.pc, wrap16(m.pc + 1)),
        AddressingMode::AbsoluteX => wrap16(word_at(m.mem, m.pc, wrap16(m.pc + 1)) + m.x),
        AddressingMode::AbsoluteY => wrap16(word_at(m.mem, m.pc, wrap16(m.pc + 1)) + m.y),
        AddressingMode::IndirectX => zero_page_word(m.mem, wrap8(m.mem[m.pc as int] + m.x)),
        AddressingMode::IndirectY => wrap16(zero_page_word(m.mem, m.mem[m.pc as int]) + m.y),
        AddressingMode::Implied => 0,
        AddressingMode::Relative => 0,
    }
}

/// Opcodes of the load-accumulator family.
pub open spec fn is_lda_opcode(op: u8) -> bool {
    op == 0xA9 || op == 0xA5 || op == 0xB5 || op == 0xAD || op == 0xBD || op == 0xB9 || op == 0xA1
        || op == 0xB1
}

/// Opcodes of the store-accumulator family.
pub open spec fn is_sta_opcode(op: u8) -> bool {
    op == 0x85 || op == 0x95 || op == 0x8D || op == 0x9D || op == 0x99 || op == 0x81 || op == 0x91
}

/// Opcodes of the add-with-carry family.
pub open spec fn is_adc_opcode(op: u8) -> bool {
    op == 0x69 || op == 0x65 || op == 0x75 || op == 0x6D || op == 0x7D || op == 0x79 || op == 0x61
        || op == 0x71
}

/// Opcodes of the logical-AND family.
pub open spec fn is_and_opcode(op: u8) -> bool {
    op == 0x29 || op == 0x25 || op == 0x35 || op == 0x2D || op == 0x3D || op == 0x39 || op == 0x21
        || op == 0x31
}

/// Opcodes of the arithmetic-shift-left family that work on memory
/// (opcode 0x0A shifts the accumulator instead).
pub open spec fn is_asl_memory_opcode(op: u8) -> bool {
    op == 0x06 || op == 0x16 || op == 0x0E || op == 0x1E
}

/// The authoritative instruction catalog: for each supported opcode its
/// addressing mode and operand length in bytes; `None` for an opcode the
/// engine does not support.
pub open spec fn spec_opcode_info(op: u8) -> Option<(AddressingMode, u8)> {
    match op {
        0xA9 => Some((AddressingMode::Immediate, 1)),
        0xA5 => Some((AddressingMode::ZeroPage, 1)),
        0xB5 => Some((AddressingMode::ZeroPageX, 1)),
        0xAD => Some((AddressingMode::Absolute, 2)),
        0xBD => Some((AddressingMode::AbsoluteX, 2)),
        0xB9 => Some((AddressingMode::AbsoluteY, 2)),
        0xA1 => Some((AddressingMode::IndirectX, 1)),
        0xB1 => Some((AddressingMode::IndirectY, 1)),
        0x00 => Some((AddressingMode::Implied, 0)),
        0x78 => Some((AddressingMode::Implied, 0)),
        0xF8 => Some((AddressingMode::Implied, 0)),
        0xAA => Some((AddressingMode::Implied, 0)),
        0xE8 => Some((AddressingMode::Implied, 0)),
        0x85 => Some((AddressingMode::ZeroPage, 1)),
        0x95 => Some((AddressingMode::ZeroPageX, 1)),
        0x8D => Some((AddressingMode::Absolute, 2)),
        0x9D => Some((AddressingMode::AbsoluteX, 2)),
        0x99 => Some((AddressingMode::AbsoluteY, 2)),
        0x81 => Some((AddressingMode::IndirectX, 1)),
        0x91 => Some((AddressingMode::IndirectY, 1)),
        0x69 => Some((AddressingMode::Immediate, 1)),
        0x65 => Some((AddressingMode::ZeroPage, 1)),
        0x75 => Some((AddressingMode::ZeroPageX, 1)),
        0x6D => Some((AddressingMode::Absolute, 2)),
        0x7D => Some((AddressingMode::AbsoluteX, 2)),
        0x79 => Some((AddressingMode::AbsoluteY, 2)),
        0x61 => Some((AddressingMode::IndirectX, 1)),
        0x71 => Some((AddressingMode::IndirectY, 1)),
        0x29 => Some((AddressingMode::Immediate, 1)),
        0x25 => Some((AddressingMode::ZeroPage, 1)),
        0x35 => Some((AddressingMode::ZeroPageX, 1)),
        0x2D => Some((AddressingMode::Absolute, 2)),
        0x3D => Some((AddressingMode::AbsoluteX, 2)),
        0x39 => Some((AddressingMode::AbsoluteY, 2)),
        0x21 => Some((AddressingMode::IndirectX, 1)),
        0x31 => Some((AddressingMode::IndirectY, 1)),
        0x0A => Some((AddressingMode::Implied, 0)),
        0x06 => Some((AddressingMode::ZeroPage, 1)),
        0x16 => Some((AddressingMode::ZeroPageX, 1)),
        0x0E => Some((AddressingMode::Absolute, 2)),
        0x1E => Some((AddressingMode::AbsoluteX, 2)),
        _ => None,
    }
}

/// An opcode the engine supports.
pub open spec fn is_supported_opcode(op: u8) -> bool {
    spec_opcode_info(op) is Some
}

/// Result and flags of add-with-carry: `a + operand + carry-in`, reduced to
/// 8 bits. Carry is set iff the unsigned sum exceeds 255; overflow iff both
/// addends share a sign bit that differs from the result's; zero and
/// negative follow the result byte.
pub open spec fn spec_adc(a: u8, operand: u8, flags: u8) -> (u8, u8) {
    let carry_in = (flags & FLAG_CARRY) as int;
    let total = a + operand + carry_in;
    let result = wrap8(total);
    let with_carry = spec_set_bit(flags, FLAG_CARRY, total > 0xFF);
    let with_overflow = spec_set_bit(
        with_carry,
        FLAG_OVERFLOW,
        (a & 0x80) == (operand & 0x80) && (result & 0x80) != (a & 0x80),
    );
    (result, spec_set_zn(with_overflow, result))
}

/// The state change of one executed (non-halt) opcode, starting from the
/// state whose program counter points at the first operand byte. The
/// program counter itself is advanced by the caller, `spec_step`.
pub open spec fn spec_exec_opcode(op: u8, mode: AddressingMode, m: MachineState) -> MachineState {
    if is_lda_opcode(op) {
        let value = m.mem[spec_resolve(mode, m) as int];
        MachineState { a: value, flags: spec_set_zn(m.flags, value), ..m }
    } else if is_sta_opcode(op) {
        MachineState { mem: m.mem.update(spec_resolve(mode, m) as int, m.a), ..m }
    } else if is_adc_opcode(op) {
        let value = m.mem[spec_resolve(mode, m) as int];
        let result = spec_adc(m.a, value, m.flags);
        MachineState { a: result.0, flags: result.1, ..m }
    } else if is_and_opcode(op) {
        let value = m.a & m.mem[spec_resolve(mode, m) as int];
        MachineState { a: value, flags: spec_set_zn(m.flags, value), ..m }
    } else if op == 0x0A {
        MachineState {
            a: m.a << 1,
            flags: spec_set_bit(m.flags, FLAG_CARRY, m.a & 0x80 != 0),
            ..m
        }
    } else if is_asl_memory_opcode(op) {
        let addr = spec_resolve(mode, m) as int;
        let value = m.mem[addr];
        MachineState {
            mem: m.mem.update(addr, value << 1),
            flags: spec_set_bit(m.flags, FLAG_CARRY, value & 0x80 != 0),
            ..m
        }
    } else if op == 0xAA {
        MachineState { x: m.a, flags: spec_set_zn(m.flags, m.a), ..m }
    } else if op == 0xE8 {
        let value = wrap8(m.x + 1);
        MachineState { x: value, flags: spec_set_zn(m.flags, value), ..m }
    } else if op == 0x78 {
        MachineState { flags: m.flags | FLAG_INTERRUPT_DISABLE, ..m }
    } else if op == 0xF8 {
        MachineState { flags: m.flags | FLAG_DECIMAL, ..m }
    } else {
        m
    }
}

/// Outcome of one fetch-decode-execute step.
#[verifier::ext_equal]
pub enum StepSpec {
    /// The halt opcode was fetched; the state with the counter advanced
    /// past it, otherwise unchanged.
    Halt(MachineState),
    /// A supported opcode executed; the state afterwards, counter at the
    /// next opcode byte.
    Next(MachineState),
    /// The fetched opcode byte is not in the instruction catalog; the
    /// state is left untouched.
    Unknown(u8),
}

/// One fetch-decode-execute step: fetch the opcode at the program counter,
/// advance the counter past it, execute the opcode's effect, then advance
/// the counter by the operand length.
pub open spec fn spec_step(m: MachineState) -> StepSpec {
    let op = m.mem[m.pc as int];
    match spec_opcode_info(op) {
        None => StepSpec::Unknown(op),
        Some(info) => {
            let fetched = MachineState { pc: wrap16(m.pc + 1), ..m };
            if op == 0x00 {
                StepSpec::Halt(fetched)
            } else {
                let done = spec_exec_opcode(op, info.0, fetched);
                StepSpec::Next(MachineState { pc: wrap16(done.pc + info.1), ..done })
            }
        },
    }
}

/// `s2` arises from `s1` by exactly `n` executed (non-halting) steps.
/// The machine is deterministic, so the whole chain is fixed by `s1`.
#[verifier::opaque]
pub open spec fn reaches(s1: MachineState, s2: MachineState, n: nat) -> bool
    decreases n,
{
    if n == 0 {
        s1 == s2
    } else {
        spec_step(s1) is Next && reaches(spec_step(s1)->Next_0, s2, (n - 1) as nat)
    }
}


/// A state reaches itself in zero steps.
pub proof fn lemma_reaches_self(s1: MachineState)
    ensures
        reaches(s1, s1, 0),
{
    reveal(reaches);
}

/// One more executed step extends a chain of steps.
pub proof fn lemma_reaches_extend(s1: MachineState, mid: MachineState, s2: MachineState, n: nat)
    requires
        reaches(s1, mid, n),
        spec_step(mid) == StepSpec::Next(s2),
    ensures
        reaches(s1, s2, (n + 1) as nat),
    decreases n,
{
    reveal(reaches);
    if n == 0 {
        assert(reaches(s2, s2, 0));
    } else {
        lemma_reaches_extend(spec_step(s1)->Next_0, mid, s2, (n - 1) as nat);
    }
}

/// `mem` with the cells from `base` on replaced by `data`, all others kept.
pub open spec fn store_range(mem: Seq<u8>, base: int, data: Seq<u8>) -> Seq<u8> {
    Seq::new(mem.len(), |i: int| if base <= i < base + data.len() { data[i - base] } else { mem[i] })
}

/// Loading a program: its bytes are copied to the program-load region and
/// the reset vector is pointed at that region's start. Registers, flags and
/// the program counter are untouched.
pub open spec fn spec_load(m: MachineState, program: Seq<u8>) -> MachineState {
    let copied = store_range(m.mem, PROGRAM_ORIGIN as int, program);
    MachineState {
        mem: copied.update(RESET_VECTOR as int, 0x00).update(RESET_VECTOR as int + 1, 0x80),
        ..m
    }
}

/// A reset: registers and flags are zeroed and the program counter is read
/// from the reset vector. Memory is untouched.
pub open spec fn spec_reset(m: MachineState) -> MachineState {
    MachineState {
        a: 0,
        x: 0,
        y: 0,
        flags: 0,
        pc: word_at(m.mem, RESET_VECTOR, wrap16(RESET_VECTOR + 1)),
        ..m
    }
}

} // verus!
