use rsc8_core::chip8::{Chip8, PROGRAM_START, ROM_START};
use rsc8_core::instruction::Instruction;
use rsc8_core::rng::LinearCongruentialGenerator;

fn create_chip8() -> Chip8<LinearCongruentialGenerator> {
    let mut c8 = Chip8::new(LinearCongruentialGenerator::default());
    c8.load_fontset();
    c8
}

#[test]
fn test_memory_load_fontset() {
    let c8 = create_chip8();
    // the first five bytes are the glyph for 0
    assert_eq!(&c8.memory[0..5], &[0xF0, 0x90, 0x90, 0x90, 0xF0]);
}

#[test]
fn test_rom_loading() {
    let mut c8 = create_chip8();
    let rom: [u8; 3] = [0x12, 0x34, 0x56];
    c8.load_rom(&rom);
    assert_eq!(&c8.memory[ROM_START..ROM_START + 3], &[0x12, 0x34, 0x56]);
}

#[test]
fn test_opcode_execution() {
    let mut c8 = create_chip8();
    // 6XNN (LD Vx, NN)
    c8.memory[0x200] = 0x6A; // Vx = A
    c8.memory[0x201] = 0xFF; // NN = FF
    c8.pc = PROGRAM_START;

    let opcode = c8.fetch_opcode();
    let instruction = Instruction::try_from(opcode).unwrap();
    c8.execute_instruction(&instruction);

    assert_eq!(c8.v_reg[0xA], 0xFF);
}

#[test]
fn test_jump_instruction() {
    let mut c8 = create_chip8();
    // 1NNN (JP)
    c8.memory[0x200] = 0x12;
    c8.memory[0x201] = 0x30; // JP 0x230
    c8.pc = PROGRAM_START;

    let opcode = c8.fetch_opcode();
    let instruction = Instruction::try_from(opcode).unwrap();
    c8.execute_instruction(&instruction);

    assert_eq!(c8.pc, 0x230);
}

#[test]
fn test_stack_operations() {
    let mut c8 = create_chip8();
    // 2NNN (CALL)
    c8.pc = 0x200;
    c8.memory[0x200] = 0x23;
    c8.memory[0x201] = 0x00; // CALL 0x300

    let opcode = c8.fetch_opcode();
    let instruction = Instruction::try_from(opcode).unwrap();
    c8.execute_instruction(&instruction);

    assert_eq!(c8.stack[0], 0x202); // return address
    assert_eq!(c8.stack_pointer, 1);
    assert_eq!(c8.pc, 0x300);

    // 00EE (RET)
    c8.memory[0x300] = 0x00;
    c8.memory[0x301] = 0xEE;
    c8.pc = 0x300;

    let opcode = c8.fetch_opcode();
    let instruction = Instruction::try_from(opcode).unwrap();
    c8.execute_instruction(&instruction);

    assert_eq!(c8.stack_pointer, 0);
    assert_eq!(c8.pc, 0x202);
}

#[test]
fn test_timer_decrement() {
    let mut c8 = create_chip8();
    c8.delay_timer = 5;
    c8.sound_timer = 3;

    c8.tick_timer();
    assert_eq!(c8.delay_timer, 4);
    assert_eq!(c8.sound_timer, 2);

    c8.tick_timer();
    assert_eq!(c8.delay_timer, 3);
    assert_eq!(c8.sound_timer, 1);
}

#[test]
fn test_draw_instruction() {
    let mut c8 = create_chip8();
    // sprite data
    c8.i_reg = 0x00;
    c8.memory[0] = 0b11110000; // four pixels wide

    // coordinates
    c8.v_reg[0] = 0; // V0 = X
    c8.v_reg[1] = 0; // V1 = Y

    // DXYN (D011)
    c8.execute_instruction(&Instruction::InsDXYN(0, 1, 1));

    // the first row
    assert!(c8.screen[0]);
    assert!(c8.screen[1]);
    assert!(c8.screen[2]);
    assert!(c8.screen[3]);
    assert_eq!(c8.v_reg[0xF], 0); // no collision
}

#[test]
fn chip8_test_arithmetic_instructions() {
    let mut c8 = create_chip8();

    // 8XY4 (ADD)
    c8.v_reg[0] = 0xFE;
    c8.v_reg[1] = 0x03;
    c8.execute_instruction(&Instruction::Ins8XY4(0, 1));
    assert_eq!(c8.v_reg[0], 0x01); // wrapped
    assert_eq!(c8.v_reg[0xF], 1); // carry

    // 8XY5 (SUB)
    c8.v_reg[0] = 0x05;
    c8.v_reg[1] = 0x03;
    c8.execute_instruction(&Instruction::Ins8XY5(0, 1));
    assert_eq!(c8.v_reg[0], 0x02);
    assert_eq!(c8.v_reg[0xF], 1); // no borrow
}

#[test]
fn test_keyboard_instructions() {
    let mut c8 = create_chip8();

    // EXA1 (SKNP)
    c8.v_reg[0] = 0xA; // key A
    c8.keypad[0xA] = false;
    c8.execute_instruction(&Instruction::InsEXA1(0));
    assert_eq!(c8.pc, 0x200 + 2); // skipped

    // FX0A (wait for key)
    c8.keypad[0x5] = true;
    c8.execute_instruction(&Instruction::InsFX0A(0));
    assert_eq!(c8.v_reg[0], 0x5);
}
