use chip8::machine::Chip8;

fn blank() -> Chip8 {
    Chip8::new(&[])
}

#[test]
fn store_num_in_vx() {
    let mut emulator = blank();
    emulator.run_opcode(0x60FE).unwrap();
    assert_eq!(emulator.register(0x0), 254);
}

#[test]
fn fill_registers() {
    let mut emulator = blank();
    emulator.run_opcode(0xAABC).unwrap(); // I = 2748

    for i in 0..=10u8 {
        emulator.set_memory(0xABC + i as usize, 11 - i);
    }

    emulator.run_opcode(0xFA65).unwrap(); // fill registers

    for i in 0..=10u8 {
        emulator.set_register(i, 11 - i);
    }

    assert_eq!(emulator.index(), 2748 + 10 + 1)
}

#[test]
fn load_registers_in_memmory() {
    let mut emulator = blank();
    emulator.run_opcode(0xAABC).unwrap(); // I = 2748

    emulator.run_opcode(0x600B).unwrap(); // V0 = 11
    emulator.run_opcode(0x610A).unwrap(); // V1 = 10
    emulator.run_opcode(0x6209).unwrap(); // V2 = 9
    emulator.run_opcode(0x6308).unwrap(); // V3 = 8
    emulator.run_opcode(0x6407).unwrap(); // V4 = 7
    emulator.run_opcode(0x6506).unwrap(); // V5 = 6
    emulator.run_opcode(0x6605).unwrap(); // V6 = 5
    emulator.run_opcode(0x6704).unwrap(); // V7 = 4
    emulator.run_opcode(0x6803).unwrap(); // V8 = 3
    emulator.run_opcode(0x6902).unwrap(); // V9 = 2
    emulator.run_opcode(0x6A01).unwrap(); // V10 = 1

    emulator.run_opcode(0xFA55).unwrap(); // store in memory

    for i in 0..=10u8 {
        let addr = emulator.index() as usize + i as usize;
        emulator.set_memory(addr, 11 - i);
    }

    assert_eq!(emulator.index(), 2748 + 10 + 1)
}

#[test]
fn load_index() {
    let mut emulator = blank();
    emulator.run_opcode(0xAABC).unwrap();
    assert_eq!(emulator.index(), 2748);
}

#[test]
fn add_y_to_x_flag_carry() {
    let mut emulator = blank();
    emulator.set_register(0, 10);
    emulator.set_register(1, 255);
    emulator.run_opcode(0x8014).unwrap();
    assert_eq!(emulator.register(0xF), 1);
}

#[test]
fn right_shift_carry() {
    let mut emulator = blank();
    emulator.set_register(1, 0xFF);
    emulator.run_opcode(0x8016).unwrap();

    assert_eq!(emulator.register(1), 0xFF);
    assert_eq!(emulator.register(0), 0x7F);
    assert_eq!(emulator.register(0xF), 1);
}

#[test]
fn left_shift_carry() {
    let mut emulator = blank();
    emulator.set_register(1, 0xFF);
    emulator.run_opcode(0x801E).unwrap();

    assert_eq!(emulator.register(0), 0xFE);
    assert_eq!(emulator.register(1), 0xFF);
    assert_eq!(emulator.register(0xF), 1);
}

#[test]
fn bcd_test() {
    let mut emulator = blank();
    emulator.run_opcode(0x60FE).unwrap();
    emulator.run_opcode(0xF033).unwrap();

    let i = emulator.index() as usize;
    assert_eq!(emulator.memory(i), 2);
    assert_eq!(emulator.memory(i + 1), 5);
    assert_eq!(emulator.memory(i + 2), 4);
}
