use emu6502::addressing_modes::AddressingMode;
use emu6502::instructions::find_instruction_by_opcode;

#[test]
fn lookup_of_a_supported_opcode() {
    let instr = find_instruction_by_opcode(0xA9).unwrap();
    assert_eq!(*instr.getOpcode(), 0xA9);
    assert_eq!(instr.getName(), "LDA");
    assert_eq!(*instr.getAddressingMode(), AddressingMode::Immediate);
    assert_eq!(*instr.getIncrement(), 1);
}

#[test]
fn lookup_of_a_three_byte_instruction() {
    let instr = find_instruction_by_opcode(0x8D).unwrap();
    assert_eq!(instr.getName(), "STA");
    assert_eq!(*instr.getAddressingMode(), AddressingMode::Absolute);
    assert_eq!(*instr.getIncrement(), 2);
}

#[test]
fn lookup_of_the_halt_opcode() {
    let instr = find_instruction_by_opcode(0x00).unwrap();
    assert_eq!(instr.getName(), "BRK");
    assert_eq!(*instr.getAddressingMode(), AddressingMode::Implied);
    assert_eq!(*instr.getIncrement(), 0);
}

#[test]
fn lookup_of_an_unsupported_opcode_finds_nothing() {
    assert!(find_instruction_by_opcode(0xFF).is_none());
    assert!(find_instruction_by_opcode(0x02).is_none());
    assert!(find_instruction_by_opcode(0xEA).is_none());
}

#[test]
fn every_catalog_opcode_has_a_consistent_entry() {
    let supported: [u8; 41] = [
        0xA9, 0xA5, 0xB5, 0xAD, 0xBD, 0xB9, 0xA1, 0xB1, 0x00, 0x78, 0xF8, 0xAA, 0xE8, 0x85, 0x95,
        0x8D, 0x9D, 0x99, 0x81, 0x91, 0x69, 0x65, 0x75, 0x6D, 0x7D, 0x79, 0x61, 0x71, 0x29, 0x25,
        0x35, 0x2D, 0x3D, 0x39, 0x21, 0x31, 0x0A, 0x06, 0x16, 0x0E, 0x1E,
    ];
    for op in supported {
        let instr = find_instruction_by_opcode(op).unwrap();
        assert_eq!(*instr.getOpcode(), op);
        let expected: u8 = match *instr.getAddressingMode() {
            AddressingMode::Implied => 0,
            AddressingMode::Immediate
            | AddressingMode::ZeroPage
            | AddressingMode::ZeroPageX
            | AddressingMode::IndirectX
            | AddressingMode::IndirectY => 1,
            AddressingMode::Absolute | AddressingMode::AbsoluteX | AddressingMode::AbsoluteY => 2,
            AddressingMode::Relative => panic!("no relative instruction is in the catalog"),
        };
        assert_eq!(*instr.getIncrement(), expected);
    }
}
