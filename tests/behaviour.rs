use chip8::{decode, keyboard_to_keypad, keypad_to_keyboard, Chip8, ExecError, Instruction, Key};

fn blank() -> Chip8 {
    Chip8::new(&[])
}

#[test]
fn rom_and_font_are_loaded() {
    let m = Chip8::new(&[0x12, 0x34, 0x56]);
    assert_eq!(m.pc(), 0x200);
    assert_eq!(m.memory(0x200), 0x12);
    assert_eq!(m.memory(0x201), 0x34);
    assert_eq!(m.memory(0x202), 0x56);
    assert_eq!(m.memory(0x203), 0);
    assert_eq!(m.memory(0x50), 0xF0);
    assert_eq!(m.memory(0x55), 0x20);
    assert_eq!(m.memory(0x9F), 0x80);
    assert_eq!(m.memory(0xA0), 0);
    assert_eq!(m.stack_depth(), 0);
    assert_eq!(m.index(), 0);
    for x in 0..64 {
        for y in 0..32 {
            assert!(!m.pixel(x, y));
        }
    }
}

#[test]
fn largest_rom_fills_memory() {
    let rom = vec![0xAB; 4096 - 0x200];
    let m = Chip8::new(&rom);
    assert_eq!(m.memory(0x200), 0xAB);
    assert_eq!(m.memory(4095), 0xAB);
}

#[test]
fn decode_picks_fields() {
    assert_eq!(decode(0x00E0), Some(Instruction::Clear));
    assert_eq!(decode(0x00EE), Some(Instruction::Return));
    assert_eq!(decode(0x1ABC), Some(Instruction::Jump(0xABC)));
    assert_eq!(decode(0x8AB4), Some(Instruction::AddYtoX(0xA, 0xB)));
    assert_eq!(decode(0xD12F), Some(Instruction::DrawSprite(1, 2, 0xF)));
    assert_eq!(decode(0xF733), Some(Instruction::StoreRegisterInBcd(7)));
    assert_eq!(decode(0xCE0F), Some(Instruction::LoadRegisterWithRandom(0xE, 0x0F)));
    assert_eq!(decode(0x5120), Some(Instruction::SkipOnXeqY(1, 2)));
    assert_eq!(decode(0x5121), None);
    assert_eq!(decode(0x9121), None);
    assert_eq!(decode(0x0123), None);
    assert_eq!(decode(0x800F), None);
    assert_eq!(decode(0xE000), None);
    assert_eq!(decode(0xF0FF), None);
}

#[test]
fn unknown_opcode_is_recoverable_and_changes_nothing() {
    let mut m = blank();
    m.set_register(3, 7);
    let r = m.run_opcode(0x5341);
    assert_eq!(r, Err(ExecError::UnknownOpcode(0x5341)));
    assert!(!ExecError::UnknownOpcode(0x5341).is_fatal());
    assert_eq!(m.pc(), 0x200);
    assert_eq!(m.register(3), 7);
}

#[test]
fn add_wraps_without_and_with_carry() {
    let mut m = blank();
    m.set_register(2, 200);
    m.set_register(3, 100);
    m.run_opcode(0x8234).unwrap();
    assert_eq!(m.register(2), 44);
    assert_eq!(m.register(0xF), 1);
    m.set_register(2, 100);
    m.run_opcode(0x8234).unwrap();
    assert_eq!(m.register(2), 200);
    assert_eq!(m.register(0xF), 0);
    m.set_register(2, 155);
    m.run_opcode(0x8234).unwrap();
    assert_eq!(m.register(2), 255);
    assert_eq!(m.register(0xF), 0);
}

#[test]
fn add_immediate_wraps_and_keeps_flag() {
    let mut m = blank();
    m.set_register(0xF, 9);
    m.set_register(4, 250);
    m.run_opcode(0x740A).unwrap();
    assert_eq!(m.register(4), 4);
    assert_eq!(m.register(0xF), 9);
}

#[test]
fn subtract_sets_inverted_borrow() {
    let mut m = blank();
    m.set_register(0, 5);
    m.set_register(1, 10);
    m.run_opcode(0x8015).unwrap();
    assert_eq!(m.register(0), 251);
    assert_eq!(m.register(0xF), 0);
    m.set_register(0, 10);
    m.set_register(1, 5);
    m.run_opcode(0x8015).unwrap();
    assert_eq!(m.register(0), 5);
    assert_eq!(m.register(0xF), 1);
    m.set_register(0, 7);
    m.set_register(1, 7);
    m.run_opcode(0x8015).unwrap();
    assert_eq!(m.register(0), 0);
    assert_eq!(m.register(0xF), 1);
}

#[test]
fn reverse_subtract_sets_inverted_borrow() {
    let mut m = blank();
    m.set_register(0, 10);
    m.set_register(1, 5);
    m.run_opcode(0x8017).unwrap();
    assert_eq!(m.register(0), 251);
    assert_eq!(m.register(0xF), 0);
    m.set_register(0, 5);
    m.set_register(1, 10);
    m.run_opcode(0x8017).unwrap();
    assert_eq!(m.register(0), 5);
    assert_eq!(m.register(0xF), 1);
}

#[test]
fn shift_right_takes_bit_zero() {
    let mut m = blank();
    m.set_register(1, 0x81);
    m.run_opcode(0x8016).unwrap();
    assert_eq!(m.register(0), 0x40);
    assert_eq!(m.register(0xF), 1);
    m.set_register(1, 0x02);
    m.run_opcode(0x8016).unwrap();
    assert_eq!(m.register(0), 0x01);
    assert_eq!(m.register(0xF), 0);
}

#[test]
fn shift_right_all_sources() {
    for src in 0..=255u8 {
        let mut m = blank();
        m.set_register(1, src);
        m.run_opcode(0x8216).unwrap();
        assert_eq!(m.register(2), src >> 1);
        assert_eq!(m.register(0xF), src & 1);
    }
}

#[test]
fn shift_left_takes_bit_seven() {
    let mut m = blank();
    m.set_register(1, 0x41);
    m.run_opcode(0x801E).unwrap();
    assert_eq!(m.register(0), 0x82);
    assert_eq!(m.register(0xF), 0);
}

#[test]
fn bitwise_operations() {
    let mut m = blank();
    m.set_register(0, 0b1100);
    m.set_register(1, 0b1010);
    m.run_opcode(0x8011).unwrap();
    assert_eq!(m.register(0), 0b1110);
    m.set_register(0, 0b1100);
    m.run_opcode(0x8012).unwrap();
    assert_eq!(m.register(0), 0b1000);
    m.set_register(0, 0b1100);
    m.run_opcode(0x8013).unwrap();
    assert_eq!(m.register(0), 0b0110);
    m.run_opcode(0x8010).unwrap();
    assert_eq!(m.register(0), 0b1010);
}

#[test]
fn random_load_is_masked() {
    let mut m = blank();
    m.run_opcode(0xC300).unwrap();
    assert_eq!(m.register(3), 0);
    for _ in 0..50 {
        m.run_opcode(0xC30F).unwrap();
        assert!(m.register(3) <= 0x0F);
    }
    m.run_opcode_with_random(0xC30F, 0xAB).unwrap();
    assert_eq!(m.register(3), 0x0B);
}

#[test]
fn draw_twice_restores_blank_screen() {
    let mut m = blank();
    for k in 0..15 {
        m.set_memory(0x300 + k, 0xFF);
    }
    m.run_opcode(0xA300).unwrap();
    m.run_opcode(0xD01F).unwrap();
    assert_eq!(m.register(0xF), 0);
    for y in 0..32 {
        for x in 0..64 {
            assert_eq!(m.pixel(x, y), x < 8 && y < 15);
        }
    }
    m.run_opcode(0xD01F).unwrap();
    assert_eq!(m.register(0xF), 1);
    for y in 0..32 {
        for x in 0..64 {
            assert!(!m.pixel(x, y));
        }
    }
}

#[test]
fn sprite_bits_are_big_endian() {
    let mut m = blank();
    m.set_memory(0x300, 0b1000_0001);
    m.run_opcode(0xA300).unwrap();
    m.set_register(0, 10);
    m.set_register(1, 4);
    m.run_opcode(0xD011).unwrap();
    assert!(m.pixel(10, 4));
    assert!(!m.pixel(11, 4));
    assert!(m.pixel(17, 4));
    assert!(!m.pixel(18, 4));
}

#[test]
fn sprite_is_clipped_not_wrapped() {
    let mut m = blank();
    // light the pixels where a wrapped sprite would land
    m.set_memory(0x300, 0xFF);
    m.run_opcode(0xA300).unwrap();
    m.run_opcode(0xD011).unwrap();
    assert!(m.pixel(0, 0));
    // a 3-row, 8-wide sprite at (60, 30) runs off both edges
    for k in 0..3 {
        m.set_memory(0x310 + k, 0xFF);
    }
    m.run_opcode(0xA310).unwrap();
    m.set_register(0, 60);
    m.set_register(1, 30);
    m.run_opcode(0xD013).unwrap();
    assert_eq!(m.register(0xF), 0);
    for y in 30..32 {
        for x in 60..64 {
            assert!(m.pixel(x, y));
        }
    }
    for x in 0..8 {
        assert!(m.pixel(x, 0));
        assert!(!m.pixel(x, 1));
        assert!(!m.pixel(x, 30));
    }
}

#[test]
fn draw_origin_wraps_modulo_screen_size() {
    let mut m = blank();
    m.set_memory(0x300, 0x80);
    m.run_opcode(0xA300).unwrap();
    m.set_register(0, 64 + 5);
    m.set_register(1, 32 + 7);
    m.run_opcode(0xD011).unwrap();
    assert!(m.pixel(5, 7));
}

#[test]
fn draw_past_memory_end_is_fatal() {
    let mut m = blank();
    m.run_opcode(0xAFFE).unwrap();
    let r = m.run_opcode(0xD013);
    assert_eq!(r, Err(ExecError::AddressOutOfRange));
    assert!(ExecError::AddressOutOfRange.is_fatal());
}

#[test]
fn clear_screen_unlights_everything() {
    let mut m = blank();
    m.run_opcode(0xA050).unwrap();
    m.run_opcode(0xD005).unwrap();
    assert!(m.pixel(0, 0));
    m.run_opcode(0x00E0).unwrap();
    for y in 0..32 {
        for x in 0..64 {
            assert!(!m.pixel(x, y));
        }
    }
}

#[test]
fn bcd_at_other_index() {
    let mut m = blank();
    m.set_register(5, 7);
    m.run_opcode(0xA400).unwrap();
    m.run_opcode(0xF533).unwrap();
    assert_eq!(m.memory(0x400), 0);
    assert_eq!(m.memory(0x401), 0);
    assert_eq!(m.memory(0x402), 7);
    m.set_register(5, 254);
    m.run_opcode(0xF533).unwrap();
    assert_eq!(m.memory(0x400), 2);
    assert_eq!(m.memory(0x401), 5);
    assert_eq!(m.memory(0x402), 4);
}

#[test]
fn bcd_past_memory_end_is_fatal() {
    let mut m = blank();
    m.run_opcode(0xAFFE).unwrap();
    assert_eq!(m.run_opcode(0xF033), Err(ExecError::AddressOutOfRange));
    assert_eq!(m.memory(0xFFE), 0);
}

#[test]
fn store_then_fill_round_trips() {
    let mut m = blank();
    for r in 0..=10u8 {
        m.set_register(r, 3 * r + 1);
    }
    m.run_opcode(0xA600).unwrap();
    m.run_opcode(0xFA55).unwrap();
    assert_eq!(m.index(), 0x600 + 11);
    assert_eq!(m.memory(0x600), 1);
    assert_eq!(m.memory(0x60A), 31);
    for r in 0..=10u8 {
        m.set_register(r, 0);
    }
    m.run_opcode(0xA600).unwrap();
    m.run_opcode(0xFA65).unwrap();
    for r in 0..=10u8 {
        assert_eq!(m.register(r), 3 * r + 1);
    }
    assert_eq!(m.index(), 0x600 + 11);
}

#[test]
fn nested_calls_unwind_in_reverse() {
    let mut m = blank();
    m.run_opcode(0x2300).unwrap();
    assert_eq!(m.pc(), 0x300);
    m.run_opcode(0x2400).unwrap();
    assert_eq!(m.pc(), 0x400);
    m.run_opcode(0x2500).unwrap();
    assert_eq!(m.pc(), 0x500);
    assert_eq!(m.stack_depth(), 3);
    m.run_opcode(0x00EE).unwrap();
    assert_eq!(m.pc(), 0x400);
    m.run_opcode(0x00EE).unwrap();
    assert_eq!(m.pc(), 0x300);
    m.run_opcode(0x00EE).unwrap();
    assert_eq!(m.pc(), 0x200);
    assert_eq!(m.stack_depth(), 0);
}

#[test]
fn return_on_empty_stack_is_fatal() {
    let mut m = blank();
    assert_eq!(m.run_opcode(0x00EE), Err(ExecError::StackUnderflow));
    assert!(ExecError::StackUnderflow.is_fatal());
    assert_eq!(m.pc(), 0x200);
}

#[test]
fn call_past_stack_limit_is_fatal() {
    let mut m = blank();
    for _ in 0..16 {
        m.run_opcode(0x2300).unwrap();
    }
    assert_eq!(m.run_opcode(0x2300), Err(ExecError::StackOverflow));
    assert!(ExecError::StackOverflow.is_fatal());
    assert_eq!(m.stack_depth(), 16);
}

#[test]
fn jumps() {
    let mut m = blank();
    m.run_opcode(0x1ABC).unwrap();
    assert_eq!(m.pc(), 0xABC);
    m.set_register(0, 0x10);
    m.run_opcode(0xB100).unwrap();
    assert_eq!(m.pc(), 0x110);
    m.set_register(0, 0xFF);
    assert_eq!(m.run_opcode(0xBFFF), Err(ExecError::AddressOutOfRange));
    assert_eq!(m.pc(), 0x110);
}

#[test]
fn skips() {
    let mut m = blank();
    m.set_register(1, 5);
    m.set_register(2, 5);
    m.run_opcode(0x3105).unwrap();
    assert_eq!(m.pc(), 0x202);
    m.run_opcode(0x3106).unwrap();
    assert_eq!(m.pc(), 0x202);
    m.run_opcode(0x4106).unwrap();
    assert_eq!(m.pc(), 0x204);
    m.run_opcode(0x5120).unwrap();
    assert_eq!(m.pc(), 0x206);
    m.run_opcode(0x9120).unwrap();
    assert_eq!(m.pc(), 0x206);
}

#[test]
fn key_skips_follow_held_keys() {
    let mut m = blank();
    m.set_register(0, 0x4);
    m.run_opcode(0xE09E).unwrap();
    assert_eq!(m.pc(), 0x200);
    m.run_opcode(0xE0A1).unwrap();
    assert_eq!(m.pc(), 0x202);
    m.set_held_keys(vec![Key::Q]);
    m.run_opcode(0xE09E).unwrap();
    assert_eq!(m.pc(), 0x204);
    m.run_opcode(0xE0A1).unwrap();
    assert_eq!(m.pc(), 0x204);
    // a register value outside the keypad is never held
    m.set_held_keys(vec![Key::Unknown]);
    m.set_register(0, 200);
    m.run_opcode(0xE09E).unwrap();
    assert_eq!(m.pc(), 0x204);
}

#[test]
fn wait_for_key_rewinds_until_one_key() {
    let mut rom = Vec::new();
    rom.push(0xF5);
    rom.push(0x0A);
    let mut m = Chip8::new(&rom);
    m.start_cycle().unwrap();
    assert_eq!(m.pc(), 0x200);
    m.set_held_keys(vec![Key::Q, Key::W]);
    m.start_cycle().unwrap();
    assert_eq!(m.pc(), 0x200);
    m.set_held_keys(vec![Key::Unknown]);
    m.start_cycle().unwrap();
    assert_eq!(m.pc(), 0x200);
    m.set_held_keys(vec![Key::V]);
    m.start_cycle().unwrap();
    assert_eq!(m.pc(), 0x202);
    assert_eq!(m.register(5), 0xF);
}

#[test]
fn keypad_table_is_a_bijection() {
    for value in 0..16u8 {
        let key = keypad_to_keyboard(value);
        assert_ne!(key, Key::Unknown);
        assert_eq!(keyboard_to_keypad(key), Some(value));
    }
    assert_eq!(keypad_to_keyboard(16), Key::Unknown);
    assert_eq!(keyboard_to_keypad(Key::Unknown), None);
    assert_eq!(keypad_to_keyboard(0x0), Key::X);
    assert_eq!(keypad_to_keyboard(0xC), Key::Key4);
}

#[test]
fn timers_count_down_and_stop_at_zero() {
    let mut m = blank();
    m.tick();
    assert_eq!(m.delay_timer(), 0);
    assert_eq!(m.sound_timer(), 0);
    assert!(!m.sound_active());
    m.set_register(0, 2);
    m.run_opcode(0xF015).unwrap();
    m.run_opcode(0xF018).unwrap();
    assert!(m.sound_active());
    m.tick();
    assert_eq!(m.delay_timer(), 1);
    assert_eq!(m.sound_timer(), 1);
    assert!(m.sound_active());
    m.tick();
    assert!(!m.sound_active());
    m.tick();
    assert_eq!(m.delay_timer(), 0);
    assert_eq!(m.sound_timer(), 0);
    m.run_opcode(0xF307).unwrap();
    assert_eq!(m.register(3), 0);
}

#[test]
fn index_operations() {
    let mut m = blank();
    m.run_opcode(0xF529).unwrap();
    assert_eq!(m.index(), 0x50 + 25);
    m.set_register(2, 0x10);
    m.run_opcode(0xF21E).unwrap();
    assert_eq!(m.index(), 0x50 + 25 + 0x10);
}

#[test]
fn cycles_run_a_program() {
    // V0 = 0x2A; jump back to the start
    let m_rom = [0x60, 0x2A, 0x12, 0x00];
    let mut m = Chip8::new(&m_rom);
    m.start_cycle().unwrap();
    assert_eq!(m.register(0), 0x2A);
    assert_eq!(m.pc(), 0x202);
    m.start_cycle().unwrap();
    assert_eq!(m.pc(), 0x200);
}

#[test]
fn fetch_at_memory_end_is_fatal() {
    let mut m = blank();
    m.run_opcode(0x1FFF).unwrap();
    assert_eq!(m.start_cycle(), Err(ExecError::AddressOutOfRange));
    assert_eq!(m.pc(), 0xFFF);
}

#[test]
fn index_can_stay_put_after_bulk_transfer() {
    let mut m = blank();
    m.set_index_advance(false);
    m.set_register(0, 9);
    m.set_register(1, 8);
    m.run_opcode(0xA700).unwrap();
    m.run_opcode(0xF155).unwrap();
    assert_eq!(m.index(), 0x700);
    assert_eq!(m.memory(0x700), 9);
    assert_eq!(m.memory(0x701), 8);
    m.set_register(0, 0);
    m.set_register(1, 0);
    m.run_opcode(0xF165).unwrap();
    assert_eq!(m.index(), 0x700);
    assert_eq!(m.register(0), 9);
    assert_eq!(m.register(1), 8);
}
