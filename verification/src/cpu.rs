//! The execution engine: register and flag state, the memory store,
//! operand-address resolution, per-opcode effects and the
//! fetch-decode-execute loop.
//!
//! Every public operation is specified against the abstract machine in
//! `machine`: `step` implements `spec_step`, `load` implements `spec_load`,
//! `reset` implements `spec_reset`, and `run` produces a state that
//! `spec_step` chains to from the starting state.

use crate::addressing_modes::AddressingMode;
use crate::instructions::{find_instruction_by_opcode, Instruction};
use crate::machine::{
    lemma_reaches_extend, lemma_reaches_self, reaches, spec_adc, spec_load, spec_reset, spec_resolve, spec_set_bit, spec_set_zn, spec_step,
    word_at, wrap16, zero_page_word, MachineState, StepSpec, FLAG_CARRY, FLAG_DECIMAL,
    FLAG_INTERRUPT_DISABLE, FLAG_NEGATIVE, FLAG_OVERFLOW, FLAG_ZERO, MEMORY_SIZE, PROGRAM_ORIGIN,
    RESET_VECTOR,
};
use vstd::prelude::*;

verus! {

/// The conditions the engine reports instead of corrupting state.
#[derive(Clone, Copy, Debug, PartialEq, Eq, Structural)]
pub enum CpuError {
    /// The fetched opcode byte is not in the instruction catalog; the
    /// payload is that byte.
    UnimplementedOpcode(u8),
    /// A program longer than the space between the load origin and the end
    /// of memory was handed to `load`.
    ProgramTooLarge,
}

/// What a bounded `run` ended with.
#[derive(Clone, Copy, Debug, PartialEq, Eq, Structural)]
pub enum RunOutcome {
    /// The halt opcode was fetched; the machine is halted.
    Halted,
    /// The step budget ran out before the program halted.
    OutOfFuel,
}

/// The processor: registers, flags, program counter and the memory store.
///
/// A debugger or tracer may read the register fields between steps; all
/// mutation goes through the engine's operations.
pub struct CPU {
    /// Accumulator register.
    pub accumulator_register: u8,
    /// X index register.
    pub x_register: u8,
    /// Y index register.
    pub y_register: u8,
    /// Flags register; see the `FLAG_` constants for the bit layout.
    pub flags_register: u8,
    /// Program counter.
    pub program_counter: u16,
    /// The memory store; always `MEMORY_SIZE` cells (see `wf`).
    pub memory: Vec<u8>,
}

impl View for CPU {
    type V = MachineState;

    open spec fn view(&self) -> MachineState {
        MachineState {
            a: self.accumulator_register,
            x: self.x_register,
            y: self.y_register,
            flags: self.flags_register,
            pc: self.program_counter,
            mem: self.memory@,
        }
    }
}

impl CPU {
    /// The memory store has its fixed size.
    pub open spec fn wf(&self) -> bool {
        self@.wf()
    }

    /// A processor with zeroed registers, flags and memory.
    pub fn new() -> (r: CPU)
        ensures
            r.wf(),
            r@.a == 0,
            r@.x == 0,
            r@.y == 0,
            r@.flags == 0,
            r@.pc == 0,
            forall|i: int| 0 <= i < MEMORY_SIZE ==> r@.mem[i] == 0,
    {
        let mut memory: Vec<u8> = Vec::new();
        while memory.len() < MEMORY_SIZE
            invariant
                memory@.len() <= MEMORY_SIZE,
                forall|i: int| 0 <= i < memory@.len() ==> memory@[i] == 0,
            decreases MEMORY_SIZE - memory@.len(),
        {
            memory.push(0);
        }
        CPU {
            accumulator_register: 0,
            x_register: 0,
            y_register: 0,
            flags_register: 0,
            program_counter: 0,
            memory,
        }
    }

    /// The byte stored at `addr`.
    pub fn mem_read(&self, addr: u16) -> (r: u8)
        requires
            self.wf(),
        ensures
            r == self@.mem[addr as int],
    {
        self.memory[addr as usize]
    }

    /// Store `data` at `addr`.
    pub fn mem_write(&mut self, addr: u16, data: u8)
        requires
            old(self).wf(),
        ensures
            final(self).wf(),
            final(self)@ == (MachineState {
                mem: old(self)@.mem.update(addr as int, data),
                ..old(self)@
            }),
    {
        self.memory[addr as usize] = data;
    }

    /// The little-endian word at `pos` and `pos + 1`; the increment wraps
    /// at the top of the address space.
    pub fn mem_read_u16(&self, pos: u16) -> (r: u16)
        requires
            self.wf(),
        ensures
            r == word_at(self@.mem, pos, wrap16(pos + 1)),
    {
        let lo = self.mem_read(pos);
        let hi = self.mem_read(pos.wrapping_add(1));
        hi as u16 * 0x100 + lo as u16
    }

    /// Store `data` little-endian at `pos` and `pos + 1`; the increment
    /// wraps at the top of the address space.
    pub fn mem_write_u16(&mut self, pos: u16, data: u16)
        requires
            old(self).wf(),
        ensures
            final(self).wf(),
            final(self)@ == (MachineState {
                mem: old(self)@.mem.update(pos as int, (data % 0x100) as u8).update(
                    wrap16(pos + 1) as int,
                    (data / 0x100) as u8,
                ),
                ..old(self)@
            }),
    {
        let lo = (data % 0x100) as u8;
        let hi = (data / 0x100) as u8;
        self.mem_write(pos, lo);
        self.mem_write(pos.wrapping_add(1), hi);
    }

    /// The little-endian word in page zero at `ptr` and `ptr + 1`, the
    /// increment wrapping within page zero.
    fn zero_page_read_u16(&self, ptr: u8) -> (r: u16)
        requires
            self.wf(),
        ensures
            r == zero_page_word(self@.mem, ptr),
    {
        let lo = self.mem_read(ptr as u16);
        let hi = self.mem_read(ptr.wrapping_add(1) as u16);
        hi as u16 * 0x100 + lo as u16
    }

    /// Copy `program` into memory at the load origin and point the reset
    /// vector there. A program longer than the space from the origin to
    /// the end of memory is rejected unchanged.
    pub fn load(&mut self, program: Vec<u8>) -> (r: Result<(), CpuError>)
        requires
            old(self).wf(),
        ensures
            final(self).wf(),
            match r {
                Ok(_) => program@.len() <= 0x8000 && final(self)@ == spec_load(
                    old(self)@,
                    program@,
                ),
                Err(e) => program@.len() > 0x8000 && e == CpuError::ProgramTooLarge && final(self)@ == old(self)@,
            },
    {
        if program.len() > 0x8000 {
            return Err(CpuError::ProgramTooLarge);
        }
        let mut i: usize = 0;
        while i < program.len()
            invariant
                old(self).wf(),
                self.wf(),
                i <= program@.len(),
                program@.len() <= 0x8000,
                self@.a == old(self)@.a,
                self@.x == old(self)@.x,
                self@.y == old(self)@.y,
                self@.flags == old(self)@.flags,
                self@.pc == old(self)@.pc,
                forall|j: int| 0 <= j < i ==> self@.mem[PROGRAM_ORIGIN + j] == program@[j],
                forall|j: int|
                    0 <= j < MEMORY_SIZE && !(PROGRAM_ORIGIN <= j < PROGRAM_ORIGIN + i)
                        ==> self@.mem[j] == old(self)@.mem[j],
            decreases program@.len() - i,
        {
            let b = program[i];
            self.mem_write(PROGRAM_ORIGIN + i as u16, b);
            i += 1;
        }
        self.mem_write_u16(RESET_VECTOR, PROGRAM_ORIGIN);
        proof {
            assert(final(self)@.mem =~= spec_load(old(self)@, program@).mem);
        }
        Ok(())
    }

    /// Zero the registers and flags and set the program counter from the
    /// reset vector.
    pub fn reset(&mut self)
        requires
            old(self).wf(),
        ensures
            final(self).wf(),
            final(self)@ == spec_reset(old(self)@),
    {
        self.accumulator_register = 0;
        self.x_register = 0;
        self.y_register = 0;
        self.flags_register = 0;
        self.program_counter = self.mem_read_u16(RESET_VECTOR);
    }

    /// The effective operand address of the current instruction, with the
    /// program counter at the first operand byte. Resolution reads
    /// registers and memory but never changes them.
    fn match_addressing_mode(&self, instr: &Instruction) -> (addr: u16)
        requires
            self.wf(),
            instr.addressing_mode.uses_memory(),
        ensures
            addr == spec_resolve(instr.addressing_mode, self@),
    {
        let mode = *instr.getAddressingMode();
        match mode {
            AddressingMode::Immediate => self.program_counter,
            AddressingMode::ZeroPage => self.mem_read(self.program_counter) as u16,
            AddressingMode::ZeroPageX => {
                let base = self.mem_read(self.program_counter);
                base.wrapping_add(self.x_register) as u16
            },
            AddressingMode::Absolute => self.mem_read_u16(self.program_counter),
            AddressingMode::AbsoluteX => {
                let base = self.mem_read_u16(self.program_counter);
                base.wrapping_add(self.x_register as u16)
            },
            AddressingMode::AbsoluteY => {
                let base = self.mem_read_u16(self.program_counter);
                base.wrapping_add(self.y_register as u16)
            },
            AddressingMode::IndirectX => {
                let base = self.mem_read(self.program_counter);
                let ptr = base.wrapping_add(self.x_register);
                self.zero_page_read_u16(ptr)
            },
            AddressingMode::IndirectY => {
                let base = self.mem_read(self.program_counter);
                let word = self.zero_page_read_u16(base);
                word.wrapping_add(self.y_register as u16)
            },
            AddressingMode::Implied => unreached(),
            AddressingMode::Relative => unreached(),
        }
    }

    /// Load-accumulator: the accumulator takes the operand byte; zero and
    /// negative flags follow it.
    fn lda(&mut self, instr: &Instruction)
        requires
            old(self).wf(),
            instr.addressing_mode.uses_memory(),
        ensures
            final(self).wf(),
            final(self)@ == ({
                let value = old(self)@.mem[spec_resolve(instr.addressing_mode, old(self)@) as int];
                MachineState {
                    a: value,
                    flags: spec_set_zn(old(self)@.flags, value),
                    ..old(self)@
                }
            }),
    {
        let addr = self.match_addressing_mode(instr);
        let val = self.mem_read(addr);
        self.accumulator_register = val;
        self.set_neg_and_zero_flags(val);
    }

    /// Store-accumulator: the operand cell takes the accumulator; no flag
    /// changes.
    fn sta(&mut self, instr: &Instruction)
        requires
            old(self).wf(),
            instr.addressing_mode.uses_memory(),
        ensures
            final(self).wf(),
            final(self)@ == (MachineState {
                mem: old(self)@.mem.update(
                    spec_resolve(instr.addressing_mode, old(self)@) as int,
                    old(self)@.a,
                ),
                ..old(self)@
            }),
    {
        let addr = self.match_addressing_mode(instr);
        let a = self.accumulator_register;
        self.mem_write(addr, a);
    }

    /// Add-with-carry: accumulator plus operand plus carry-in, reduced to
    /// 8 bits; carry, overflow, zero and negative follow the sum.
    fn adc(&mut self, instr: &Instruction)
        requires
            old(self).wf(),
            instr.addressing_mode.uses_memory(),
        ensures
            final(self).wf(),
            final(self)@ == ({
                let value = old(self)@.mem[spec_resolve(instr.addressing_mode, old(self)@) as int];
                let result = spec_adc(old(self)@.a, value, old(self)@.flags);
                MachineState { a: result.0, flags: result.1, ..old(self)@ }
            }),
    {
        let addr = self.match_addressing_mode(instr);
        let val = self.mem_read(addr);
        let acc = self.accumulator_register;
        let carry_in = self.flags_register & FLAG_CARRY;
        let sum: u16 = val as u16 + acc as u16 + carry_in as u16;
        let result = (sum % 0x100) as u8;
        let overflow = (val & 0x80) == (acc & 0x80) && (result & 0x80) != (acc & 0x80);
        self.set_flag(FLAG_CARRY, sum > 0xFF);
        self.set_flag(FLAG_OVERFLOW, overflow);
        self.set_neg_and_zero_flags(result);
        self.accumulator_register = result;
    }

    /// Logical AND: the accumulator takes itself ANDed with the operand;
    /// zero and negative flags follow the result.
    fn and(&mut self, instr: &Instruction)
        requires
            old(self).wf(),
            instr.addressing_mode.uses_memory(),
        ensures
            final(self).wf(),
            final(self)@ == ({
                let value = old(self)@.a & old(self)@.mem[spec_resolve(
                    instr.addressing_mode,
                    old(self)@,
                ) as int];
                MachineState {
                    a: value,
                    flags: spec_set_zn(old(self)@.flags, value),
                    ..old(self)@
                }
            }),
    {
        let addr = self.match_addressing_mode(instr);
        let val = self.mem_read(addr);
        let value = self.accumulator_register & val;
        self.accumulator_register = value;
        self.set_neg_and_zero_flags(value);
    }

    /// Arithmetic shift left: the operand (the accumulator for opcode
    /// 0x0A, a memory cell otherwise) is shifted left one bit, truncating;
    /// carry takes the operand's bit 7 from before the shift.
    fn asl(&mut self, instr: &Instruction)
        requires
            old(self).wf(),
            instr.opcode == 0x0A || instr.addressing_mode.uses_memory(),
        ensures
            final(self).wf(),
            final(self)@ == (if instr.opcode == 0x0A {
                MachineState {
                    a: old(self)@.a << 1,
                    flags: spec_set_bit(old(self)@.flags, FLAG_CARRY, old(self)@.a & 0x80 != 0),
                    ..old(self)@
                }
            } else {
                let addr = spec_resolve(instr.addressing_mode, old(self)@) as int;
                let value = old(self)@.mem[addr];
                MachineState {
                    mem: old(self)@.mem.update(addr, value << 1),
                    flags: spec_set_bit(old(self)@.flags, FLAG_CARRY, value & 0x80 != 0),
                    ..old(self)@
                }
            }),
    {
        if *instr.getOpcode() == 0x0A {
            let a = self.accumulator_register;
            self.set_flag(FLAG_CARRY, a & 0x80 != 0);
            self.accumulator_register = a << 1;
        } else {
            let addr = self.match_addressing_mode(instr);
            let data = self.mem_read(addr);
            self.set_flag(FLAG_CARRY, data & 0x80 != 0);
            self.mem_write(addr, data << 1);
        }
    }

    /// Set or clear the flag bits of `mask`, keeping every other bit.
    fn set_flag(&mut self, mask: u8, on: bool)
        ensures
            final(self)@ == (MachineState {
                flags: spec_set_bit(old(self)@.flags, mask, on),
                ..old(self)@
            }),
    {
        if on {
            self.flags_register = self.flags_register | mask;
        } else {
            self.flags_register = self.flags_register & !mask;
        }
    }

    /// Recompute the zero and negative flags from `ref_point`: zero iff
    /// the byte is 0, negative iff its bit 7 is set.
    fn set_neg_and_zero_flags(&mut self, ref_point: u8)
        ensures
            final(self)@ == (MachineState {
                flags: spec_set_zn(old(self)@.flags, ref_point),
                ..old(self)@
            }),
    {
        if ref_point == 0 {
            self.flags_register = self.flags_register | FLAG_ZERO;
        } else {
            self.flags_register = self.flags_register & !FLAG_ZERO;
        }
        if ref_point & 0x80 != 0 {
            self.flags_register = self.flags_register | FLAG_NEGATIVE;
        } else {
            self.flags_register = self.flags_register & !FLAG_NEGATIVE;
        }
    }

    /// One fetch-decode-execute step. `Ok(true)` means an instruction
    /// executed and the machine is still running; `Ok(false)` means the
    /// halt opcode was fetched. An opcode absent from the catalog is
    /// reported as an error with the state untouched.
    pub fn step(&mut self) -> (r: Result<bool, CpuError>)
        requires
            old(self).wf(),
        ensures
            final(self).wf(),
            match r {
                Ok(true) => spec_step(old(self)@) matches StepSpec::Next(next) && final(self)@
                    == next,
                Ok(false) => spec_step(old(self)@) matches StepSpec::Halt(halted) && final(self)@
                    == halted,
                Err(e) => e matches CpuError::UnimplementedOpcode(op) && spec_step(old(self)@)
                    == StepSpec::Unknown(op) && final(self)@ == old(self)@,
            },
    {
        let op = self.mem_read(self.program_counter);
        match find_instruction_by_opcode(op) {
            None => Err(CpuError::UnimplementedOpcode(op)),
            Some(instr) => {
                self.program_counter = self.program_counter.wrapping_add(1);
                if op == 0x00 {
                    return Ok(false);
                }
                match op {
                    0xA9 | 0xA5 | 0xB5 | 0xAD | 0xBD | 0xB9 | 0xA1 | 0xB1 => self.lda(&instr),
                    0xAA => {
                        self.x_register = self.accumulator_register;
                        let x = self.x_register;
                        self.set_neg_and_zero_flags(x);
                    },
                    0xE8 => {
                        self.x_register = self.x_register.wrapping_add(1);
                        let x = self.x_register;
                        self.set_neg_and_zero_flags(x);
                    },
                    0x78 => {
                        self.flags_register = self.flags_register | FLAG_INTERRUPT_DISABLE;
                    },
                    0xF8 => {
                        self.flags_register = self.flags_register | FLAG_DECIMAL;
                    },
                    0x85 | 0x95 | 0x8D | 0x9D | 0x99 | 0x81 | 0x91 => self.sta(&instr),
                    0x69 | 0x65 | 0x75 | 0x6D | 0x7D | 0x79 | 0x61 | 0x71 => self.adc(&instr),
                    0x29 | 0x25 | 0x35 | 0x2D | 0x3D | 0x39 | 0x21 | 0x31 => self.and(&instr),
                    0x0A | 0x06 | 0x16 | 0x0E | 0x1E => self.asl(&instr),
                    _ => unreached(),
                }
                self.program_counter = self.program_counter.wrapping_add(instr.increment as u16);
                Ok(true)
            },
        }
    }

    /// Run the fetch-decode-execute loop until the halt opcode,
    /// executing at most `fuel` instructions so that the loop is provably
    /// finite. An opcode absent from the catalog stops the loop and is
    /// surfaced to the caller, with the state as the prior instructions
    /// left it.
    pub fn run(&mut self, fuel: u64) -> (r: Result<RunOutcome, CpuError>)
        requires
            old(self).wf(),
        ensures
            final(self).wf(),
            match r {
                Ok(RunOutcome::Halted) => exists|n: nat, m: MachineState|
                    #[trigger] reaches(old(self)@, m, n) && (spec_step(m) matches StepSpec::Halt(h)
                        && final(self)@ == h),
                Ok(RunOutcome::OutOfFuel) => reaches(old(self)@, final(self)@, fuel as nat),
                Err(e) => exists|n: nat, m: MachineState|
                    #[trigger] reaches(old(self)@, m, n) && final(self)@ == m && (
                    e matches CpuError::UnimplementedOpcode(op) && spec_step(m)
                        == StepSpec::Unknown(op)),
            },
    {
        let mut remaining: u64 = fuel;
        proof {
            lemma_reaches_self(old(self)@);
        }
        loop
            invariant
                self.wf(),
                remaining <= fuel,
                reaches(old(self)@, self@, (fuel - remaining) as nat),
            decreases remaining,
        {
            if remaining == 0 {
                return Ok(RunOutcome::OutOfFuel);
            }
            remaining = remaining - 1;
            let ghost pre = self@;
            let ghost n = (fuel - remaining - 1) as nat;
            let res = self.step();
            match res {
                Ok(true) => {
                    proof {
                        assert(spec_step(pre) == StepSpec::Next(self@));
                        lemma_reaches_extend(old(self)@, pre, self@, n);
                    }
                },
                Ok(false) => {
                    proof {
                        assert(reaches(old(self)@, pre, n));
                    }
                    return Ok(RunOutcome::Halted);
                },
                Err(e) => {
                    proof {
                        assert(reaches(old(self)@, pre, n));
                    }
                    return Err(e);
                },
            }
        }
    }

    /// Load a program, reset, and run it with the given step budget.
    pub fn load_and_run(&mut self, program: Vec<u8>, fuel: u64) -> (r: Result<
        RunOutcome,
        CpuError,
    >)
        requires
            old(self).wf(),
        ensures
            final(self).wf(),
            match r {
                Ok(RunOutcome::Halted) => program@.len() <= 0x8000 && (exists|
                    n: nat,
                    m: MachineState,
                |
                    #[trigger] reaches(spec_reset(spec_load(old(self)@, program@)), m, n) && (
                    spec_step(m) matches StepSpec::Halt(h) && final(self)@ == h)),
                Ok(RunOutcome::OutOfFuel) => program@.len() <= 0x8000 && reaches(
                    spec_reset(spec_load(old(self)@, program@)),
                    final(self)@,
                    fuel as nat,
                ),
                Err(e) => (e == CpuError::ProgramTooLarge && program@.len() > 0x8000 && final(self)@ == old(self)@) || (program@.len() <= 0x8000 && exists|n: nat, m: MachineState|
                    #[trigger] reaches(spec_reset(spec_load(old(self)@, program@)), m, n) && final(self)@ == m && (e matches CpuError::UnimplementedOpcode(op) && spec_step(m)
                    == StepSpec::Unknown(op))),
            },
    {
        match self.load(program) {
            Ok(_) => {},
            Err(e) => {
                return Err(e);
            },
        }
        self.reset();
        self.run(fuel)
    }
}

} // verus!
