use emu6502::cpu::{CpuError, RunOutcome, CPU};
use emu6502::machine::{FLAG_CARRY, FLAG_DECIMAL, FLAG_INTERRUPT_DISABLE, FLAG_NEGATIVE, FLAG_OVERFLOW, FLAG_ZERO};

const FUEL: u64 = 10_000;

fn run_program(program: Vec<u8>) -> CPU {
    let mut cpu = CPU::new();
    assert_eq!(cpu.load_and_run(program, FUEL), Ok(RunOutcome::Halted));
    cpu
}

#[test]
fn lda_immediate_loads_and_clears_flags() {
    let cpu = run_program(vec![0xA9, 0x05, 0x00]);
    assert_eq!(cpu.accumulator_register, 5);
    assert_eq!(cpu.flags_register & FLAG_ZERO, 0);
    assert_eq!(cpu.flags_register & FLAG_NEGATIVE, 0);
}

#[test]
fn lda_zero_then_transfer_to_x() {
    let cpu = run_program(vec![0xA9, 0x00, 0xAA, 0x00]);
    assert_eq!(cpu.x_register, 0);
    assert_ne!(cpu.flags_register & FLAG_ZERO, 0);
}

#[test]
fn store_then_load_round_trip() {
    let cpu = run_program(vec![0xA9, 0x2A, 0x85, 0x10, 0xA9, 0x00, 0xA5, 0x10, 0x00]);
    assert_eq!(cpu.accumulator_register, 0x2A);
}

#[test]
fn load_then_reset_sets_counter_to_origin() {
    let mut cpu = CPU::new();
    assert_eq!(cpu.load(vec![0xA9, 0x05, 0x00]), Ok(()));
    cpu.reset();
    assert_eq!(cpu.program_counter, 0x8000);
}

#[test]
fn load_accepts_a_large_program() {
    let mut cpu = CPU::new();
    assert_eq!(cpu.load(vec![0xEA; 32512]), Ok(()));
    cpu.reset();
    assert_eq!(cpu.program_counter, 0x8000);
}

#[test]
fn load_rejects_an_oversized_program() {
    let mut cpu = CPU::new();
    assert_eq!(cpu.load(vec![0x00; 0x8001]), Err(CpuError::ProgramTooLarge));
    // the store is untouched by the rejected load
    assert_eq!(cpu.mem_read(0x8000), 0);
    assert_eq!(cpu.mem_read(0xFFFD), 0);
}

#[test]
fn reset_twice_gives_identical_state() {
    let mut cpu = CPU::new();
    assert_eq!(cpu.load(vec![0xA9, 0x07, 0x00]), Ok(()));
    cpu.reset();
    let a = cpu.accumulator_register;
    let x = cpu.x_register;
    let y = cpu.y_register;
    let flags = cpu.flags_register;
    let pc = cpu.program_counter;
    let probe = cpu.mem_read(0x8001);
    cpu.reset();
    assert_eq!(cpu.accumulator_register, a);
    assert_eq!(cpu.x_register, x);
    assert_eq!(cpu.y_register, y);
    assert_eq!(cpu.flags_register, flags);
    assert_eq!(cpu.program_counter, pc);
    assert_eq!(cpu.mem_read(0x8001), probe);
}

#[test]
fn adc_signed_overflow_sets_overflow_flag() {
    // 0x50 + 0x50 = 0xA0: no carry, signed overflow, negative result
    let cpu = run_program(vec![0xA9, 0x50, 0x69, 0x50, 0x00]);
    assert_eq!(cpu.accumulator_register, 0xA0);
    assert_eq!(cpu.flags_register & FLAG_CARRY, 0);
    assert_ne!(cpu.flags_register & FLAG_OVERFLOW, 0);
    assert_ne!(cpu.flags_register & FLAG_NEGATIVE, 0);
}

#[test]
fn adc_unsigned_overflow_sets_carry_and_zero() {
    // 0xFF + 0x01 = 0x100: carry out, zero result, no signed overflow
    let cpu = run_program(vec![0xA9, 0xFF, 0x69, 0x01, 0x00]);
    assert_eq!(cpu.accumulator_register, 0x00);
    assert_ne!(cpu.flags_register & FLAG_CARRY, 0);
    assert_ne!(cpu.flags_register & FLAG_ZERO, 0);
    assert_eq!(cpu.flags_register & FLAG_OVERFLOW, 0);
}

#[test]
fn adc_adds_the_carry_in() {
    // ASL of 0x80 leaves carry set and accumulator 0; 0 + 5 + carry = 6
    let cpu = run_program(vec![0xA9, 0x80, 0x0A, 0x69, 0x05, 0x00]);
    assert_eq!(cpu.accumulator_register, 6);
}

#[test]
fn zero_page_x_wraps_within_page_zero() {
    // value 0x42 sits at $08; base 0xF8 plus X = 0x10 wraps to 0x08
    let cpu = run_program(vec![
        0xA9, 0x42, 0x85, 0x08, 0xA9, 0x10, 0xAA, 0xA9, 0x00, 0xB5, 0xF8, 0x00,
    ]);
    assert_eq!(cpu.accumulator_register, 0x42);
}

#[test]
fn asl_on_memory_shifts_and_sets_carry() {
    // 0x81 << 1 = 0x02 with bit 7 carried out
    let cpu = run_program(vec![0xA9, 0x81, 0x85, 0x10, 0x06, 0x10, 0xA5, 0x10, 0x00]);
    assert_eq!(cpu.accumulator_register, 0x02);
    assert_ne!(cpu.flags_register & FLAG_CARRY, 0);
}

#[test]
fn asl_on_accumulator_shifts_and_sets_carry() {
    let cpu = run_program(vec![0xA9, 0xC0, 0x0A, 0x00]);
    assert_eq!(cpu.accumulator_register, 0x80);
    assert_ne!(cpu.flags_register & FLAG_CARRY, 0);
}

#[test]
fn and_masks_the_accumulator() {
    let cpu = run_program(vec![0xA9, 0xF0, 0x29, 0x3C, 0x00]);
    assert_eq!(cpu.accumulator_register, 0x30);
    assert_eq!(cpu.flags_register & FLAG_ZERO, 0);
}

#[test]
fn inx_wraps_and_sets_zero() {
    let cpu = run_program(vec![0xA9, 0xFF, 0xAA, 0xE8, 0x00]);
    assert_eq!(cpu.x_register, 0);
    assert_ne!(cpu.flags_register & FLAG_ZERO, 0);
}

#[test]
fn tax_with_bit_seven_sets_negative() {
    let cpu = run_program(vec![0xA9, 0x80, 0xAA, 0x00]);
    assert_eq!(cpu.x_register, 0x80);
    assert_ne!(cpu.flags_register & FLAG_NEGATIVE, 0);
}

#[test]
fn sei_and_sed_set_their_flags() {
    let cpu = run_program(vec![0x78, 0xF8, 0x00]);
    assert_ne!(cpu.flags_register & FLAG_INTERRUPT_DISABLE, 0);
    assert_ne!(cpu.flags_register & FLAG_DECIMAL, 0);
}

#[test]
fn lda_absolute_reads_the_addressed_cell() {
    let cpu = run_program(vec![0xAD, 0x05, 0x80, 0x00, 0x00, 0x77]);
    assert_eq!(cpu.accumulator_register, 0x77);
}

#[test]
fn lda_absolute_x_adds_the_x_register() {
    let cpu = run_program(vec![0xA9, 0x02, 0xAA, 0xBD, 0x06, 0x80, 0x00, 0x00, 0x99]);
    assert_eq!(cpu.accumulator_register, 0x99);
}

#[test]
fn sta_absolute_writes_the_addressed_cell() {
    let cpu = run_program(vec![0xA9, 0x55, 0x8D, 0x00, 0x02, 0x00]);
    assert_eq!(cpu.mem_read(0x0200), 0x55);
}

#[test]
fn lda_indirect_x_follows_the_zero_page_pointer() {
    // zero-page word at $10 points at $0020, which holds 0x5A
    let cpu = run_program(vec![
        0xA9, 0x20, 0x85, 0x10, 0xA9, 0x00, 0x85, 0x11, 0xA9, 0x5A, 0x85, 0x20, 0xA1, 0x10, 0x00,
    ]);
    assert_eq!(cpu.accumulator_register, 0x5A);
}

#[test]
fn lda_indirect_y_adds_y_after_the_dereference() {
    // post-indexed: the word at $10 is 0x0020, and Y = 5 is added after
    // the dereference, so the operand comes from $0025
    let mut cpu = CPU::new();
    assert_eq!(cpu.load(vec![0xB1, 0x10, 0x00]), Ok(()));
    cpu.reset();
    cpu.y_register = 5;
    cpu.mem_write(0x0010, 0x20);
    cpu.mem_write(0x0011, 0x00);
    cpu.mem_write(0x0025, 0x77);
    assert_eq!(cpu.run(FUEL), Ok(RunOutcome::Halted));
    assert_eq!(cpu.accumulator_register, 0x77);
}

#[test]
fn unknown_opcode_is_reported_and_leaves_state() {
    let mut cpu = CPU::new();
    assert_eq!(cpu.load(vec![0xFF]), Ok(()));
    cpu.reset();
    assert_eq!(cpu.run(FUEL), Err(CpuError::UnimplementedOpcode(0xFF)));
    // the failing fetch does not move the counter
    assert_eq!(cpu.program_counter, 0x8000);
}

#[test]
fn unknown_opcode_after_work_keeps_prior_effects() {
    let mut cpu = CPU::new();
    assert_eq!(
        cpu.load_and_run(vec![0xA9, 0x11, 0xFF], FUEL),
        Err(CpuError::UnimplementedOpcode(0xFF))
    );
    assert_eq!(cpu.accumulator_register, 0x11);
}

#[test]
fn step_executes_one_instruction_at_a_time() {
    let mut cpu = CPU::new();
    assert_eq!(cpu.load(vec![0xA9, 0x05, 0x00]), Ok(()));
    cpu.reset();
    assert_eq!(cpu.step(), Ok(true));
    assert_eq!(cpu.accumulator_register, 5);
    assert_eq!(cpu.program_counter, 0x8002);
    assert_eq!(cpu.step(), Ok(false));
    assert_eq!(cpu.program_counter, 0x8003);
}

#[test]
fn run_with_no_fuel_executes_nothing() {
    let mut cpu = CPU::new();
    assert_eq!(cpu.load(vec![0xA9, 0x05, 0x00]), Ok(()));
    cpu.reset();
    assert_eq!(cpu.run(0), Ok(RunOutcome::OutOfFuel));
    assert_eq!(cpu.accumulator_register, 0);
}

#[test]
fn run_out_of_fuel_mid_program() {
    let mut cpu = CPU::new();
    assert_eq!(cpu.load(vec![0xA9, 0x05, 0x00]), Ok(()));
    cpu.reset();
    assert_eq!(cpu.run(1), Ok(RunOutcome::OutOfFuel));
    assert_eq!(cpu.accumulator_register, 5);
}

#[test]
fn memory_word_round_trip() {
    let mut cpu = CPU::new();
    cpu.mem_write_u16(0x1000, 0xABCD);
    assert_eq!(cpu.mem_read_u16(0x1000), 0xABCD);
    assert_eq!(cpu.mem_read(0x1000), 0xCD);
    assert_eq!(cpu.mem_read(0x1001), 0xAB);
}

#[test]
fn memory_word_wraps_at_the_top_of_the_address_space() {
    let mut cpu = CPU::new();
    cpu.mem_write_u16(0xFFFF, 0x1234);
    assert_eq!(cpu.mem_read(0xFFFF), 0x34);
    assert_eq!(cpu.mem_read(0x0000), 0x12);
    assert_eq!(cpu.mem_read_u16(0xFFFF), 0x1234);
}

#[test]
fn new_cpu_is_zeroed() {
    let cpu = CPU::new();
    assert_eq!(cpu.accumulator_register, 0);
    assert_eq!(cpu.x_register, 0);
    assert_eq!(cpu.y_register, 0);
    assert_eq!(cpu.flags_register, 0);
    assert_eq!(cpu.program_counter, 0);
    assert_eq!(cpu.mem_read(0x0000), 0);
    assert_eq!(cpu.mem_read(0xFFFF), 0);
}

#[test]
fn reset_zeroes_registers_and_reads_the_vector() {
    let mut cpu = CPU::new();
    cpu.accumulator_register = 9;
    cpu.x_register = 9;
    cpu.y_register = 9;
    cpu.flags_register = 0xFF;
    cpu.mem_write_u16(0xFFFC, 0x1234);
    cpu.reset();
    assert_eq!(cpu.accumulator_register, 0);
    assert_eq!(cpu.x_register, 0);
    assert_eq!(cpu.y_register, 0);
    assert_eq!(cpu.flags_register, 0);
    assert_eq!(cpu.program_counter, 0x1234);
}
