use chip8_core::CPU;

fn cpu_with(program: &[u8]) -> CPU {
    let mut cpu = CPU::new();
    cpu.load(program);
    cpu
}

#[test]
fn clear_screen_unsets_every_pixel() {
    let mut cpu = cpu_with(&[0x00, 0xE0]);
    cpu.screen[0] = true;
    cpu.screen[2047] = true;
    cpu.run().unwrap();
    assert!(cpu.screen.iter().all(|p| !*p));
    assert_eq!(cpu.pc, 0x202);
}

#[test]
fn jump_sets_program_counter() {
    let mut cpu = cpu_with(&[0x13, 0x45]);
    cpu.run().unwrap();
    assert_eq!(cpu.pc, 0x345);
}

#[test]
fn jump_with_offset_adds_register_zero() {
    let mut cpu = cpu_with(&[0xB3, 0x00]);
    cpu.registers[0] = 0x21;
    cpu.run().unwrap();
    assert_eq!(cpu.pc, 0x321);
}

#[test]
fn skip_if_equal_immediate_taken_and_not_taken() {
    let mut cpu = cpu_with(&[0x30, 0x42]);
    cpu.registers[0] = 0x42;
    cpu.run().unwrap();
    assert_eq!(cpu.pc, 0x204); // skipped
    let mut cpu = cpu_with(&[0x30, 0x42]);
    cpu.registers[0] = 0x41;
    cpu.run().unwrap();
    assert_eq!(cpu.pc, 0x202); // not skipped
}

#[test]
fn skip_if_not_equal_immediate() {
    let mut cpu = cpu_with(&[0x40, 0x42]);
    cpu.registers[0] = 0x41;
    cpu.run().unwrap();
    assert_eq!(cpu.pc, 0x204);
}

#[test]
fn skip_if_registers_equal_and_not_equal() {
    let mut cpu = cpu_with(&[0x50, 0x10]);
    cpu.registers[0] = 5;
    cpu.registers[1] = 5;
    cpu.run().unwrap();
    assert_eq!(cpu.pc, 0x204);
    let mut cpu = cpu_with(&[0x90, 0x10]);
    cpu.registers[0] = 5;
    cpu.registers[1] = 6;
    cpu.run().unwrap();
    assert_eq!(cpu.pc, 0x204);
}

#[test]
fn load_and_add_immediate_wraps() {
    let mut cpu = cpu_with(&[0x60, 0xFE, 0x70, 0x05]);
    cpu.run().unwrap();
    assert_eq!(cpu.registers[0], 0xFE);
    cpu.run().unwrap();
    assert_eq!(cpu.registers[0], 0x03); // 0xFE + 5 wraps
    assert_eq!(cpu.registers[15], 0); // add-immediate sets no carry
}

#[test]
fn register_moves_and_bitwise_ops() {
    let mut cpu = cpu_with(&[0x80, 0x10, 0x82, 0x31, 0x84, 0x52, 0x86, 0x73]);
    cpu.registers[1] = 0x5A;
    cpu.registers[2] = 0b1100;
    cpu.registers[3] = 0b1010;
    cpu.registers[4] = 0b1100;
    cpu.registers[5] = 0b1010;
    cpu.registers[6] = 0b1100;
    cpu.registers[7] = 0b1010;
    cpu.run().unwrap();
    assert_eq!(cpu.registers[0], 0x5A); // move
    cpu.run().unwrap();
    assert_eq!(cpu.registers[2], 0b1110); // or
    cpu.run().unwrap();
    assert_eq!(cpu.registers[4], 0b1000); // and
    cpu.run().unwrap();
    assert_eq!(cpu.registers[6], 0b0110); // xor
}

#[test]
fn shift_right_records_low_bit() {
    let mut cpu = cpu_with(&[0x80, 0x16]);
    cpu.registers[0] = 0b1011;
    cpu.run().unwrap();
    assert_eq!(cpu.registers[0], 0b101);
    assert_eq!(cpu.registers[15], 1);
}

#[test]
fn shift_left_records_high_bit() {
    let mut cpu = cpu_with(&[0x80, 0x1E]);
    cpu.registers[0] = 0b1000_0001;
    cpu.run().unwrap();
    assert_eq!(cpu.registers[0], 0b0000_0010);
    assert_eq!(cpu.registers[15], 1);
}

#[test]
fn load_index_and_add_to_index() {
    let mut cpu = cpu_with(&[0xA1, 0x23, 0xF0, 0x1E]);
    cpu.registers[0] = 2;
    cpu.run().unwrap();
    assert_eq!(cpu.vi, 0x123);
    cpu.run().unwrap();
    assert_eq!(cpu.vi, 0x125);
}

#[test]
fn font_address_is_five_times_digit() {
    let mut cpu = cpu_with(&[0xF0, 0x29]);
    cpu.registers[0] = 0xA;
    cpu.run().unwrap();
    assert_eq!(cpu.vi, 50);
}

#[test]
fn skip_if_key_pressed_and_not_pressed() {
    let mut cpu = cpu_with(&[0xE0, 0x9E]);
    cpu.registers[0] = 4;
    let mut keys = [false; 16];
    keys[4] = true;
    cpu.set_keys(keys);
    cpu.run().unwrap();
    assert_eq!(cpu.pc, 0x204);
    let mut cpu = cpu_with(&[0xE0, 0xA1]);
    cpu.registers[0] = 4;
    cpu.run().unwrap();
    assert_eq!(cpu.pc, 0x204); // not pressed: skip-if-not-pressed taken
}

#[test]
fn delay_and_sound_timer_transfers() {
    let mut cpu = cpu_with(&[0xF0, 0x15, 0xF1, 0x07, 0xF2, 0x18]);
    cpu.registers[0] = 42;
    cpu.registers[2] = 7;
    cpu.run().unwrap(); // delay timer = register 0
    assert_eq!(cpu.dt, 42);
    cpu.run().unwrap(); // register 1 = delay timer
    assert_eq!(cpu.registers[1], 42);
    cpu.run().unwrap(); // sound timer = register 2
    assert_eq!(cpu.st, 7);
}

#[test]
fn draw_collision_only_where_pixels_overlap() {
    // one-row sprite 0x80 (single leftmost bit) drawn at (0,0), then the
    // same bit drawn again one column over: no overlap, no collision
    let mut cpu = cpu_with(&[0xA3, 0x00, 0xD1, 0x21, 0xD3, 0x21]);
    cpu.memory[0x300] = 0x80;
    cpu.registers[1] = 0;
    cpu.registers[2] = 0;
    cpu.registers[3] = 1;
    cpu.run().unwrap(); // load index
    cpu.run().unwrap(); // draw at (0, 0)
    assert!(cpu.screen[0]);
    assert_eq!(cpu.registers[15], 0);
    cpu.run().unwrap(); // draw at (1, 0): touches no set pixel
    assert!(cpu.screen[0]);
    assert!(cpu.screen[1]);
    assert_eq!(cpu.registers[15], 0);
}
