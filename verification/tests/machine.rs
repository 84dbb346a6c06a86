use chip8_core::{Fault, CPU};

fn cpu_with(program: &[u8]) -> CPU {
    let mut cpu = CPU::new();
    cpu.load(program);
    cpu
}

#[test]
fn new_machine_has_font_and_program_base() {
    let cpu = CPU::new();
    assert_eq!(cpu.pc, 0x200);
    assert_eq!(cpu.stack_pointer, 0);
    assert_eq!(cpu.vi, 0);
    assert_eq!(cpu.dt, 0);
    assert_eq!(cpu.st, 0);
    assert!(!cpu.waiting_for_input);
    // first glyph (0) and last glyph (F) of the font table
    assert_eq!(cpu.memory[0], 0xF0);
    assert_eq!(cpu.memory[4], 0xF0);
    assert_eq!(cpu.memory[75], 0xF0);
    assert_eq!(cpu.memory[79], 0x80);
    assert!(cpu.registers.iter().all(|r| *r == 0));
    assert!(cpu.screen.iter().all(|p| !*p));
}

#[test]
fn load_copies_program_at_base() {
    let cpu = cpu_with(&[0x12, 0x34, 0x56]);
    assert_eq!(cpu.memory[0x200], 0x12);
    assert_eq!(cpu.memory[0x201], 0x34);
    assert_eq!(cpu.memory[0x202], 0x56);
    assert_eq!(cpu.memory[0x203], 0x00);
    // the font region is untouched
    assert_eq!(cpu.memory[0], 0xF0);
}

#[test]
fn add_registers_sets_carry_on_overflow() {
    // 8014: register 0 += register 1
    let mut cpu = cpu_with(&[0x80, 0x14]);
    cpu.registers[0] = 200;
    cpu.registers[1] = 100;
    cpu.run().unwrap();
    assert_eq!(cpu.registers[0], 44); // 300 truncated to 8 bits
    assert_eq!(cpu.registers[15], 1);
    assert_eq!(cpu.pc, 0x202);
}

#[test]
fn add_registers_clears_carry_without_overflow() {
    let mut cpu = cpu_with(&[0x80, 0x14]);
    cpu.registers[0] = 20;
    cpu.registers[1] = 30;
    cpu.registers[15] = 1;
    cpu.run().unwrap();
    assert_eq!(cpu.registers[0], 50);
    assert_eq!(cpu.registers[15], 0);
}

#[test]
fn subtract_flag_is_strict_greater() {
    // 8015: register 0 -= register 1
    let mut cpu = cpu_with(&[0x80, 0x15]);
    cpu.registers[0] = 7;
    cpu.registers[1] = 3;
    cpu.run().unwrap();
    assert_eq!(cpu.registers[0], 4);
    assert_eq!(cpu.registers[15], 1);
}

#[test]
fn subtract_equal_operands_gives_flag_zero() {
    let mut cpu = cpu_with(&[0x80, 0x15]);
    cpu.registers[0] = 9;
    cpu.registers[1] = 9;
    cpu.registers[15] = 1;
    cpu.run().unwrap();
    assert_eq!(cpu.registers[0], 0);
    assert_eq!(cpu.registers[15], 0);
}

#[test]
fn subtract_wraps_on_borrow() {
    let mut cpu = cpu_with(&[0x80, 0x15]);
    cpu.registers[0] = 3;
    cpu.registers[1] = 7;
    cpu.run().unwrap();
    assert_eq!(cpu.registers[0], 252);
    assert_eq!(cpu.registers[15], 0);
}

#[test]
fn subtract_reverse_flag_and_value() {
    // 8017: register 0 = register 1 - register 0
    let mut cpu = cpu_with(&[0x80, 0x17]);
    cpu.registers[0] = 3;
    cpu.registers[1] = 10;
    cpu.run().unwrap();
    assert_eq!(cpu.registers[0], 7);
    assert_eq!(cpu.registers[15], 1);
}

#[test]
fn draw_twice_restores_screen_and_reports_collision() {
    // D125: draw the 5-row sprite at the index register at (reg 1, reg 2);
    // the index register still points at the font glyph for 0.
    let mut cpu = cpu_with(&[0xD1, 0x25, 0xD1, 0x25]);
    cpu.registers[1] = 10;
    cpu.registers[2] = 5;
    cpu.run().unwrap();
    // glyph 0 starts with row 0xF0: four set pixels at (5, 10..14)
    assert!(cpu.screen[5 * 64 + 10]);
    assert!(cpu.screen[5 * 64 + 13]);
    assert!(!cpu.screen[5 * 64 + 14]);
    assert_eq!(cpu.registers[15], 0); // empty screen: no collision
    cpu.run().unwrap();
    assert!(cpu.screen.iter().all(|p| !*p)); // XOR twice restores the empty screen
    assert_eq!(cpu.registers[15], 1); // every set bit hit a set pixel
}

#[test]
fn draw_wraps_around_both_edges() {
    // a single-row sprite of eight set bits drawn at column 60, row 31
    let mut cpu = cpu_with(&[0xA3, 0x00, 0xD1, 0x21]);
    cpu.memory[0x300] = 0xFF;
    cpu.registers[1] = 60;
    cpu.registers[2] = 31;
    cpu.run().unwrap(); // load index
    cpu.run().unwrap(); // draw
    assert!(cpu.screen[31 * 64 + 60]);
    assert!(cpu.screen[31 * 64 + 63]);
    assert!(cpu.screen[31 * 64 + 0]); // wrapped to column 0
    assert!(cpu.screen[31 * 64 + 3]);
    assert!(!cpu.screen[31 * 64 + 4]);
    assert_eq!(cpu.registers[15], 0);
}

#[test]
fn store_then_load_registers_is_round_trip() {
    // F355: store registers 0..=3; F365: load registers 0..=3
    let mut cpu = cpu_with(&[0xA3, 0x00, 0xF3, 0x55, 0xF3, 0x65]);
    cpu.registers[0] = 11;
    cpu.registers[1] = 22;
    cpu.registers[2] = 33;
    cpu.registers[3] = 44;
    cpu.registers[4] = 55;
    cpu.run().unwrap(); // index = 0x300
    cpu.run().unwrap(); // store
    assert_eq!(cpu.memory[0x300], 11);
    assert_eq!(cpu.memory[0x303], 44);
    assert_eq!(cpu.vi, 0x300); // index register unchanged
    cpu.registers[0] = 0;
    cpu.registers[1] = 0;
    cpu.registers[2] = 0;
    cpu.registers[3] = 0;
    cpu.run().unwrap(); // load
    assert_eq!(cpu.registers[0], 11);
    assert_eq!(cpu.registers[1], 22);
    assert_eq!(cpu.registers[2], 33);
    assert_eq!(cpu.registers[3], 44);
    assert_eq!(cpu.registers[4], 55); // untouched above x
}

#[test]
fn bcd_of_255_and_0() {
    // F333: store the decimal digits of register 3
    let mut cpu = cpu_with(&[0xA3, 0x00, 0xF3, 0x33, 0xF3, 0x33]);
    cpu.registers[3] = 255;
    cpu.run().unwrap();
    cpu.run().unwrap();
    assert_eq!(cpu.memory[0x300], 2);
    assert_eq!(cpu.memory[0x301], 5);
    assert_eq!(cpu.memory[0x302], 5);
    cpu.registers[3] = 0;
    cpu.run().unwrap();
    assert_eq!(cpu.memory[0x300], 0);
    assert_eq!(cpu.memory[0x301], 0);
    assert_eq!(cpu.memory[0x302], 0);
}

#[test]
fn bcd_of_one_digit_value() {
    let mut cpu = cpu_with(&[0xA3, 0x00, 0xF0, 0x33]);
    cpu.registers[0] = 7;
    cpu.run().unwrap();
    cpu.run().unwrap();
    assert_eq!(cpu.memory[0x300], 0);
    assert_eq!(cpu.memory[0x301], 0);
    assert_eq!(cpu.memory[0x302], 7);
}

#[test]
fn wait_for_key_highest_index_wins() {
    // F10A: wait for a key, store its index in register 1
    let mut cpu = cpu_with(&[0xF1, 0x0A]);
    let mut keys = [false; 16];
    keys[0x3] = true;
    keys[0x7] = true;
    cpu.set_keys(keys);
    cpu.run().unwrap();
    assert_eq!(cpu.registers[1], 0x7);
    assert!(!cpu.waiting_for_input); // cleared in the same step
    assert_eq!(cpu.pc, 0x202);
}

#[test]
fn wait_for_key_blocks_until_pressed() {
    // the counter advances past the first wait before blocking, so the word
    // it is then held on is the second wait instruction
    let mut cpu = cpu_with(&[0xF1, 0x0A, 0xF1, 0x0A]);
    cpu.run().unwrap();
    assert!(cpu.waiting_for_input);
    assert_eq!(cpu.pc, 0x202); // advanced once, then held
    cpu.run().unwrap();
    assert!(cpu.waiting_for_input);
    assert_eq!(cpu.pc, 0x202); // held while blocked
    let mut keys = [false; 16];
    keys[0x0] = true;
    cpu.set_keys(keys);
    cpu.run().unwrap();
    assert!(!cpu.waiting_for_input);
    assert_eq!(cpu.registers[1], 0x0);
    assert_eq!(cpu.pc, 0x202); // the resolving cycle still held the counter
}

#[test]
fn call_then_return_round_trip() {
    let mut cpu = cpu_with(&[0x23, 0x00]);
    cpu.memory[0x300] = 0x00;
    cpu.memory[0x301] = 0xEE;
    cpu.run().unwrap(); // call 0x300
    assert_eq!(cpu.pc, 0x300);
    assert_eq!(cpu.stack_pointer, 1);
    assert_eq!(cpu.stack[0], 0x202);
    cpu.run().unwrap(); // return
    assert_eq!(cpu.pc, 0x202); // the address current just before the call
    assert_eq!(cpu.stack_pointer, 0);
}

#[test]
fn unknown_opcode_is_a_fatal_error() {
    let mut cpu = cpu_with(&[0xFF, 0xFF]);
    assert_eq!(cpu.run(), Err(Fault::UnknownOpcode));
    assert_eq!(cpu.pc, 0x200); // the machine is left untouched
}

#[test]
fn unknown_sub_case_of_family_8_is_fatal() {
    let mut cpu = cpu_with(&[0x80, 0x18]);
    assert_eq!(cpu.run(), Err(Fault::UnknownOpcode));
}

#[test]
fn return_on_empty_stack_is_fatal() {
    let mut cpu = cpu_with(&[0x00, 0xEE]);
    assert_eq!(cpu.run(), Err(Fault::StackUnderflow));
    assert_eq!(cpu.pc, 0x200);
    assert_eq!(cpu.stack_pointer, 0);
}

#[test]
fn call_on_full_stack_is_fatal() {
    let mut cpu = cpu_with(&[0x23, 0x00]);
    cpu.stack_pointer = 16;
    assert_eq!(cpu.run(), Err(Fault::StackOverflow));
    assert_eq!(cpu.pc, 0x200);
    assert_eq!(cpu.stack_pointer, 16);
}

#[test]
fn timers_decrement_independently_and_stop_at_zero() {
    let mut cpu = CPU::new();
    cpu.dt = 2;
    cpu.st = 0;
    cpu.update_timers();
    assert_eq!(cpu.dt, 1);
    assert_eq!(cpu.st, 0);
    cpu.update_timers();
    cpu.update_timers();
    assert_eq!(cpu.dt, 0);
    assert_eq!(cpu.st, 0);
}

#[test]
fn random_with_zero_mask_is_zero() {
    // C300: register 3 = random byte AND 0x00
    let mut cpu = cpu_with(&[0xC3, 0x00]);
    cpu.registers[3] = 0xAA;
    cpu.run().unwrap();
    assert_eq!(cpu.registers[3], 0);
}

#[test]
fn random_respects_mask() {
    // C30F: register 3 = random byte AND 0x0F
    let mut cpu = cpu_with(&[0xC3, 0x0F]);
    cpu.run().unwrap();
    assert_eq!(cpu.registers[3] & 0xF0, 0);
}
