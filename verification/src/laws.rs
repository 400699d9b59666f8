//! General properties of the abstract machine, stated and proved once for
//! all inputs.

use crate::addressing_modes::AddressingMode;
use crate::machine::{
    carry_flag, decimal_flag, interrupt_disable_flag, is_lda_opcode, negative_flag,
    overflow_flag, spec_adc, spec_load, spec_opcode_info, spec_reset, spec_resolve, spec_set_bit,
    spec_set_zn, spec_step, wrap16, wrap8, zero_flag, MachineState, StepSpec, FLAG_CARRY,
    FLAG_DECIMAL, FLAG_INTERRUPT_DISABLE, FLAG_NEGATIVE, FLAG_OVERFLOW, FLAG_ZERO, PROGRAM_ORIGIN,
    RESET_VECTOR,
};
use vstd::prelude::*;

verus! {

/// Setting or clearing one flag bit changes that flag alone.
pub proof fn lemma_set_bit_flags(flags: u8, mask: u8, on: bool)
    requires
        mask == FLAG_CARRY || mask == FLAG_ZERO || mask == FLAG_INTERRUPT_DISABLE || mask
            == FLAG_DECIMAL || mask == FLAG_OVERFLOW || mask == FLAG_NEGATIVE,
    ensures
        carry_flag(spec_set_bit(flags, mask, on)) == (if mask == FLAG_CARRY {
            on
        } else {
            carry_flag(flags)
        }),
        zero_flag(spec_set_bit(flags, mask, on)) == (if mask == FLAG_ZERO {
            on
        } else {
            zero_flag(flags)
        }),
        interrupt_disable_flag(spec_set_bit(flags, mask, on)) == (if mask
            == FLAG_INTERRUPT_DISABLE {
            on
        } else {
            interrupt_disable_flag(flags)
        }),
        decimal_flag(spec_set_bit(flags, mask, on)) == (if mask == FLAG_DECIMAL {
            on
        } else {
            decimal_flag(flags)
        }),
        overflow_flag(spec_set_bit(flags, mask, on)) == (if mask == FLAG_OVERFLOW {
            on
        } else {
            overflow_flag(flags)
        }),
        negative_flag(spec_set_bit(flags, mask, on)) == (if mask == FLAG_NEGATIVE {
            on
        } else {
            negative_flag(flags)
        }),
{
    if on {
        assert((flags | mask) & 0x01 == (if mask == 0x01 { 0x01u8 } else { flags & 0x01 })
            && (flags | mask) & 0x02 == (if mask == 0x02 { 0x02u8 } else { flags & 0x02 })
            && (flags | mask) & 0x04 == (if mask == 0x04 { 0x04u8 } else { flags & 0x04 })
            && (flags | mask) & 0x08 == (if mask == 0x08 { 0x08u8 } else { flags & 0x08 })
            && (flags | mask) & 0x40 == (if mask == 0x40 { 0x40u8 } else { flags & 0x40 })
            && (flags | mask) & 0x80 == (if mask == 0x80 { 0x80u8 } else { flags & 0x80 }))
            by (bit_vector)
            requires
                mask == 0x01 || mask == 0x02 || mask == 0x04 || mask == 0x08 || mask == 0x40
                    || mask == 0x80,
        ;
    } else {
        assert((flags & !mask) & 0x01 == (if mask == 0x01 { 0x00u8 } else { flags & 0x01 })
            && (flags & !mask) & 0x02 == (if mask == 0x02 { 0x00u8 } else { flags & 0x02 })
            && (flags & !mask) & 0x04 == (if mask == 0x04 { 0x00u8 } else { flags & 0x04 })
            && (flags & !mask) & 0x08 == (if mask == 0x08 { 0x00u8 } else { flags & 0x08 })
            && (flags & !mask) & 0x40 == (if mask == 0x40 { 0x00u8 } else { flags & 0x40 })
            && (flags & !mask) & 0x80 == (if mask == 0x80 { 0x00u8 } else { flags & 0x80 }))
            by (bit_vector)
            requires
                mask == 0x01 || mask == 0x02 || mask == 0x04 || mask == 0x08 || mask == 0x40
                    || mask == 0x80,
        ;
    }
}

/// Recomputing the zero and negative flags from a byte sets zero iff the
/// byte is 0 and negative iff its bit 7 is set, and keeps every other flag.
pub proof fn lemma_set_zn_flags(flags: u8, value: u8)
    ensures
        zero_flag(spec_set_zn(flags, value)) == (value == 0),
        negative_flag(spec_set_zn(flags, value)) == (value & 0x80 != 0),
        carry_flag(spec_set_zn(flags, value)) == carry_flag(flags),
        overflow_flag(spec_set_zn(flags, value)) == overflow_flag(flags),
        interrupt_disable_flag(spec_set_zn(flags, value)) == interrupt_disable_flag(flags),
        decimal_flag(spec_set_zn(flags, value)) == decimal_flag(flags),
{
    lemma_set_bit_flags(flags, FLAG_ZERO, value == 0);
    lemma_set_bit_flags(spec_set_bit(flags, FLAG_ZERO, value == 0), FLAG_NEGATIVE, value & 0x80
        != 0);
}

/// After any load-accumulator opcode executes, the accumulator holds the
/// byte at the resolved operand address, the zero flag says whether that
/// byte is zero, and the negative flag mirrors its bit 7.
pub proof fn lemma_lda_effect(m: MachineState)
    requires
        m.wf(),
        is_lda_opcode(m.mem[m.pc as int]),
    ensures
        ({
            let fetched = MachineState { pc: wrap16(m.pc + 1), ..m };
            let mode = spec_opcode_info(m.mem[m.pc as int]).unwrap().0;
            let addr = spec_resolve(mode, fetched);
            spec_step(m) matches StepSpec::Next(next) && next.a == m.mem[addr as int] && zero_flag(
                next.flags,
            ) == (next.a == 0) && negative_flag(next.flags) == ((next.a & 0x80) == 0x80)
        }),
{
    let fetched = MachineState { pc: wrap16(m.pc + 1), ..m };
    let mode = spec_opcode_info(m.mem[m.pc as int]).unwrap().0;
    let value = m.mem[spec_resolve(mode, fetched) as int];
    lemma_set_zn_flags(m.flags, value);
    assert((value & 0x80 != 0) == ((value & 0x80) == 0x80)) by (bit_vector);
}

/// For every byte pair and carry-in, add-with-carry computes the full sum
/// `a + operand + carry-in` before truncation: the result byte is that sum
/// reduced mod 256, the carry flag says whether the sum exceeded 255, the
/// overflow flag equals the signed-overflow predicate, and zero and
/// negative follow the result byte. The carry-in is 0 or 1 as the carry
/// flag is clear or set.
pub proof fn lemma_adc_arithmetic(a: u8, operand: u8, flags: u8)
    ensures
        ({
            let carry_in = (flags & FLAG_CARRY) as int;
            let total = a + operand + carry_in;
            let r = spec_adc(a, operand, flags);
            carry_in == (if carry_flag(flags) {
                1int
            } else {
                0int
            }) && r.0 == wrap8(total) && carry_flag(r.1) == (total > 0xFF) && overflow_flag(r.1)
                == ((a & 0x80) == (operand & 0x80) && (r.0 & 0x80) != (a & 0x80)) && zero_flag(r.1)
                == (r.0 == 0) && negative_flag(r.1) == (r.0 & 0x80 != 0)
        }),
{
    assert(flags & 0x01 == 0 || flags & 0x01 == 1) by (bit_vector);
    let carry_in = (flags & FLAG_CARRY) as int;
    let total = a + operand + carry_in;
    let result = wrap8(total);
    let with_carry = spec_set_bit(flags, FLAG_CARRY, total > 0xFF);
    let overflow = (a & 0x80) == (operand & 0x80) && (result & 0x80) != (a & 0x80);
    let with_overflow = spec_set_bit(with_carry, FLAG_OVERFLOW, overflow);
    lemma_set_bit_flags(flags, FLAG_CARRY, total > 0xFF);
    lemma_set_bit_flags(with_carry, FLAG_OVERFLOW, overflow);
    lemma_set_zn_flags(with_overflow, result);
}

/// Zero-page-X addressing always resolves into page zero: for every base
/// byte and every X register value the effective address is below 0x100.
pub proof fn lemma_zero_page_x_stays_in_page_zero(m: MachineState)
    requires
        m.wf(),
    ensures
        spec_resolve(AddressingMode::ZeroPageX, m) < 0x100,
{
}

/// Loading any non-empty program of at most 32512 bytes and then
/// resetting leaves the program counter at the program-load origin.
pub proof fn lemma_load_reset_counter(m: MachineState, program: Seq<u8>)
    requires
        m.wf(),
        0 < program.len() <= 32512,
    ensures
        spec_reset(spec_load(m, program)).pc == PROGRAM_ORIGIN,
{
    let loaded = spec_load(m, program);
    assert(loaded.mem[RESET_VECTOR as int] == 0x00);
    assert(loaded.mem[RESET_VECTOR as int + 1] == 0x80);
    assert(wrap16(RESET_VECTOR + 1) == RESET_VECTOR + 1);
}

/// Resetting twice in a row, with nothing run in between, gives exactly
/// the state a single reset gives.
pub proof fn lemma_reset_idempotent(m: MachineState)
    ensures
        spec_reset(spec_reset(m)) == spec_reset(m),
{
    assert(spec_reset(spec_reset(m)) =~= spec_reset(m));
}

} // verus!
