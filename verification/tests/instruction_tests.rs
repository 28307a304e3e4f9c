use rsc8_core::error::InstructionError;
use rsc8_core::instruction::Instruction;

#[test]
fn test_basic_instructions() {
    // 00E0 - CLS
    assert!(matches!(
        Instruction::try_from(0x00E0),
        Ok(Instruction::Ins00E0)
    ));

    // 00EE - RET
    assert!(matches!(
        Instruction::try_from(0x00EE),
        Ok(Instruction::Ins00EE)
    ));
}

#[test]
fn test_jump_and_call() {
    // 1NNN - Jump
    let opcode = 0x1123;
    if let Ok(Instruction::Ins1NNN(addr)) = Instruction::try_from(opcode) {
        assert_eq!(addr, 0x123);
    } else {
        panic!("1NNN decode failed");
    }

    // 2NNN - Call
    let opcode = 0x2FFF;
    if let Ok(Instruction::Ins2NNN(addr)) = Instruction::try_from(opcode) {
        assert_eq!(addr, 0xFFF);
    } else {
        panic!("2NNN decode failed");
    }
}

#[test]
fn test_skip_instructions() {
    // 3XNN - Skip if VX == NN
    let opcode = 0x3AFF;
    if let Ok(Instruction::Ins3XNN(x, nn)) = Instruction::try_from(opcode) {
        assert_eq!(x, 0xA);
        assert_eq!(nn, 0xFF);
    }

    // 5XY0 - Skip if VX == VY
    let valid_opcode = 0x5AB0;
    assert!(matches!(
        Instruction::try_from(valid_opcode),
        Ok(Instruction::Ins5XY0(0xA, 0xB))
    ));

    // 5XY1 is not in the table
    let invalid_opcode = 0x5CD1;
    assert!(matches!(
        Instruction::try_from(invalid_opcode),
        Err(InstructionError::UnknownOpcode(0x5CD1))
    ));
}

#[test]
fn instruction_test_arithmetic_instructions() {
    // 8XY4 - ADD
    let opcode = 0x8CD4;
    if let Ok(Instruction::Ins8XY4(x, y)) = Instruction::try_from(opcode) {
        assert_eq!(x, 0xC);
        assert_eq!(y, 0xD);
    }

    // 8XY6 - SHR
    let opcode = 0x8EF6;
    assert!(matches!(
        Instruction::try_from(opcode),
        Ok(Instruction::Ins8XY6(0xE, 0xF))
    ));
}

#[test]
fn test_fx_instructions() {
    // FX18 - Sound timer
    let opcode = 0xF718;
    assert!(matches!(
        Instruction::try_from(opcode),
        Ok(Instruction::InsFX18(0x7))
    ));

    // FX55 - Store memory
    let opcode = 0xFA55;
    assert!(matches!(
        Instruction::try_from(opcode),
        Ok(Instruction::InsFX55(0xA))
    ));
}

#[test]
fn test_special_instructions() {
    // DXYN - Draw
    let opcode = 0xD123;
    if let Ok(Instruction::InsDXYN(x, y, n)) = Instruction::try_from(opcode) {
        assert_eq!(x, 0x1);
        assert_eq!(y, 0x2);
        assert_eq!(n, 0x3);
    }

    // EXA1 - Skip if key not pressed
    let opcode = 0xEBA1;
    assert!(matches!(
        Instruction::try_from(opcode),
        Ok(Instruction::InsEXA1(0xB))
    ));
}

#[test]
fn test_invalid_opcodes() {
    // unknown instruction
    assert!(matches!(
        Instruction::try_from(0x0001),
        Err(InstructionError::UnknownOpcode(0x0001))
    ));

    // 0x0 prefix with a wrong tail
    assert!(matches!(
        Instruction::try_from(0x00F1),
        Err(InstructionError::UnknownOpcode(0x00F1))
    ));

    // 8XY form with a wrong last digit
    assert!(matches!(
        Instruction::try_from(0x8AB9),
        Err(InstructionError::UnknownOpcode(0x8AB9))
    ));
}

#[test]
fn test_edge_cases() {
    // largest address
    let _max_addr = 0xFFFF;
    assert!(matches!(
        Instruction::try_from(0xAFFF),
        Ok(Instruction::InsANNN(0xFFF))
    ));
    assert!(matches!(
        Instruction::try_from(0xBFFF),
        Ok(Instruction::InsBNNN(0xFFF))
    ));

    // highest register
    let opcode = 0x6F0F; // VF = 0x0F
    if let Ok(Instruction::Ins6XNN(x, nn)) = Instruction::try_from(opcode) {
        assert_eq!(x, 0xF);
        assert_eq!(nn, 0x0F);
    }
}

/// The opcode an instruction is written as, computed here independently of
/// the library.
fn written_as(instruction: Instruction) -> u16 {
    let reg = |x: u8| (x as u16) << 8;
    let regs = |x: u8, y: u8| ((x as u16) << 8) | ((y as u16) << 4);
    match instruction {
        Instruction::Ins00E0 => 0x00E0,
        Instruction::Ins00EE => 0x00EE,
        Instruction::Ins1NNN(nnn) => 0x1000 | nnn,
        Instruction::Ins2NNN(nnn) => 0x2000 | nnn,
        Instruction::Ins3XNN(x, nn) => 0x3000 | reg(x) | nn as u16,
        Instruction::Ins4XNN(x, nn) => 0x4000 | reg(x) | nn as u16,
        Instruction::Ins5XY0(x, y) => 0x5000 | regs(x, y),
        Instruction::Ins6XNN(x, nn) => 0x6000 | reg(x) | nn as u16,
        Instruction::Ins7XNN(x, nn) => 0x7000 | reg(x) | nn as u16,
        Instruction::Ins8XY0(x, y) => 0x8000 | regs(x, y),
        Instruction::Ins8XY1(x, y) => 0x8001 | regs(x, y),
        Instruction::Ins8XY2(x, y) => 0x8002 | regs(x, y),
        Instruction::Ins8XY3(x, y) => 0x8003 | regs(x, y),
        Instruction::Ins8XY4(x, y) => 0x8004 | regs(x, y),
        Instruction::Ins8XY5(x, y) => 0x8005 | regs(x, y),
        Instruction::Ins8XY6(x, y) => 0x8006 | regs(x, y),
        Instruction::Ins8XY7(x, y) => 0x8007 | regs(x, y),
        Instruction::Ins8XYE(x, y) => 0x800E | regs(x, y),
        Instruction::Ins9XY0(x, y) => 0x9000 | regs(x, y),
        Instruction::InsANNN(nnn) => 0xA000 | nnn,
        Instruction::InsBNNN(nnn) => 0xB000 | nnn,
        Instruction::InsCXNN(x, nn) => 0xC000 | reg(x) | nn as u16,
        Instruction::InsDXYN(x, y, n) => 0xD000 | regs(x, y) | n as u16,
        Instruction::InsEX9E(x) => 0xE09E | reg(x),
        Instruction::InsEXA1(x) => 0xE0A1 | reg(x),
        Instruction::InsFX07(x) => 0xF007 | reg(x),
        Instruction::InsFX0A(x) => 0xF00A | reg(x),
        Instruction::InsFX15(x) => 0xF015 | reg(x),
        Instruction::InsFX18(x) => 0xF018 | reg(x),
        Instruction::InsFX1E(x) => 0xF01E | reg(x),
        Instruction::InsFX29(x) => 0xF029 | reg(x),
        Instruction::InsFX33(x) => 0xF033 | reg(x),
        Instruction::InsFX55(x) => 0xF055 | reg(x),
        Instruction::InsFX65(x) => 0xF065 | reg(x),
    }
}

#[test]
fn decoding_is_total_and_repeatable() {
    for opcode in 0..=u16::MAX {
        let first = Instruction::try_from(opcode);
        let second = Instruction::try_from(opcode);
        assert_eq!(first, second);
        match first {
            Ok(instruction) => assert_eq!(written_as(instruction), opcode),
            Err(error) => assert_eq!(error, InstructionError::UnknownOpcode(opcode)),
        }
    }
}

#[test]
fn decoding_accepts_exactly_the_table() {
    // 2 fixed opcodes, 4 address families and 5 immediate families and the
    // draw family of 4096 each, 11 register-pair families of 256 each and 11
    // single-register families of 16 each.
    let known = (0..=u16::MAX)
        .filter(|opcode| Instruction::try_from(*opcode).is_ok())
        .count();
    assert_eq!(known, 2 + 10 * 4096 + 11 * 256 + 11 * 16);
}

#[test]
fn every_variant_has_its_opcode() {
    let cases: Vec<(u16, Instruction)> = vec![
        (0x00E0, Instruction::Ins00E0),
        (0x00EE, Instruction::Ins00EE),
        (0x1ABC, Instruction::Ins1NNN(0xABC)),
        (0x2ABC, Instruction::Ins2NNN(0xABC)),
        (0x3A12, Instruction::Ins3XNN(0xA, 0x12)),
        (0x4B34, Instruction::Ins4XNN(0xB, 0x34)),
        (0x5120, Instruction::Ins5XY0(0x1, 0x2)),
        (0x6C56, Instruction::Ins6XNN(0xC, 0x56)),
        (0x7D78, Instruction::Ins7XNN(0xD, 0x78)),
        (0x8120, Instruction::Ins8XY0(0x1, 0x2)),
        (0x8341, Instruction::Ins8XY1(0x3, 0x4)),
        (0x8562, Instruction::Ins8XY2(0x5, 0x6)),
        (0x8783, Instruction::Ins8XY3(0x7, 0x8)),
        (0x89A4, Instruction::Ins8XY4(0x9, 0xA)),
        (0x8BC5, Instruction::Ins8XY5(0xB, 0xC)),
        (0x8DE6, Instruction::Ins8XY6(0xD, 0xE)),
        (0x8F07, Instruction::Ins8XY7(0xF, 0x0)),
        (0x812E, Instruction::Ins8XYE(0x1, 0x2)),
        (0x9340, Instruction::Ins9XY0(0x3, 0x4)),
        (0xA123, Instruction::InsANNN(0x123)),
        (0xB456, Instruction::InsBNNN(0x456)),
        (0xC7F0, Instruction::InsCXNN(0x7, 0xF0)),
        (0xD12F, Instruction::InsDXYN(0x1, 0x2, 0xF)),
        (0xE39E, Instruction::InsEX9E(0x3)),
        (0xE4A1, Instruction::InsEXA1(0x4)),
        (0xF507, Instruction::InsFX07(0x5)),
        (0xF60A, Instruction::InsFX0A(0x6)),
        (0xF715, Instruction::InsFX15(0x7)),
        (0xF818, Instruction::InsFX18(0x8)),
        (0xF91E, Instruction::InsFX1E(0x9)),
        (0xFA29, Instruction::InsFX29(0xA)),
        (0xFB33, Instruction::InsFX33(0xB)),
        (0xFC55, Instruction::InsFX55(0xC)),
        (0xFD65, Instruction::InsFX65(0xD)),
    ];
    assert_eq!(cases.len(), 34);
    for (opcode, instruction) in cases {
        assert_eq!(Instruction::try_from(opcode), Ok(instruction));
    }
}

#[test]
fn near_misses_are_unknown() {
    for opcode in [
        0x0000u16, 0x00E1, 0x00EF, 0x00F1, 0x01E0, 0x0FFF, 0x5CD1, 0x5ABF, 0x8AB8, 0x8AB9,
        0x8ABF, 0x9AB1, 0xE09F, 0xE1A0, 0xE000, 0xF000, 0xF108, 0xF10B, 0xF11F, 0xF156,
        0xF166, 0xFFFF,
    ] {
        assert_eq!(
            Instruction::try_from(opcode),
            Err(InstructionError::UnknownOpcode(opcode))
        );
    }
}

#[test]
fn opcode_fields_are_split_on_nibble_boundaries() {
    assert_eq!(Instruction::nibbles(0xABCD), (0xA, 0xB, 0xC, 0xD));
    assert_eq!(Instruction::nibbles(0x0000), (0, 0, 0, 0));
    assert_eq!(Instruction::nibbles(0xFFFF), (0xF, 0xF, 0xF, 0xF));
    assert_eq!(Instruction::nibbles(0x1002), (0x1, 0x0, 0x0, 0x2));
    assert_eq!(Instruction::nnn(0xABCD), 0xBCD);
    assert_eq!(Instruction::nnn(0xF000), 0x000);
    assert_eq!(Instruction::nn(0xABCD), 0xCD);
    assert_eq!(Instruction::nn(0xFF00), 0x00);
}
