use chip8::cpu::CPU;
use chip8::error::Chip8Error;
use chip8::memory::Memory;
use chip8::screen::Screen;

const NO_KEYS: [bool; 16] = [false; 16];

#[test]
fn add_with_carry_sets_flag_on_overflow() {
    let mut cpu = CPU::new();
    cpu.v[1] = 200;
    cpu.v[2] = 100;
    cpu.add_with_carrier(1, 2);
    assert_eq!(cpu.v[1], 44);
    assert_eq!(cpu.v[0xF], 1);
    assert_eq!(cpu.pc, 0x202);
}

#[test]
fn add_with_carry_clears_flag_without_overflow() {
    let mut cpu = CPU::new();
    cpu.v[1] = 200;
    cpu.v[2] = 55;
    cpu.v[0xF] = 1;
    cpu.add_with_carrier(1, 2);
    assert_eq!(cpu.v[1], 255);
    assert_eq!(cpu.v[0xF], 0);
}

#[test]
fn add_with_carry_exhaustive() {
    for a in 0..=255u16 {
        for b in (0..=255u16).step_by(7) {
            let mut cpu = CPU::new();
            cpu.v[3] = a as u8;
            cpu.v[4] = b as u8;
            cpu.add_with_carrier(3, 4);
            assert_eq!(cpu.v[3] as u16, (a + b) % 256);
            assert_eq!(cpu.v[0xF], if a + b > 255 { 1 } else { 0 });
        }
    }
}

#[test]
fn sub_with_carry_flag_is_no_borrow() {
    for (a, b, res, flag) in [(10u8, 3u8, 7u8, 1u8), (3, 10, 249, 0), (5, 5, 0, 1), (0, 255, 1, 0)] {
        let mut cpu = CPU::new();
        cpu.v[1] = a;
        cpu.v[2] = b;
        cpu.sub_with_carrier(1, 2);
        assert_eq!(cpu.v[1], res);
        assert_eq!(cpu.v[0xF], flag);
    }
}

#[test]
fn reverse_sub_flag_is_no_borrow() {
    let mut cpu = CPU::new();
    cpu.v[1] = 3;
    cpu.v[2] = 10;
    cpu.sub_not_borrow(1, 2);
    assert_eq!(cpu.v[1], 7);
    assert_eq!(cpu.v[0xF], 1);
    cpu.v[1] = 10;
    cpu.v[2] = 3;
    cpu.sub_not_borrow(1, 2);
    assert_eq!(cpu.v[1], 249);
    assert_eq!(cpu.v[0xF], 0);
}

#[test]
fn shifts_put_the_lost_bit_in_flag() {
    let mut cpu = CPU::new();
    cpu.v[5] = 0b1000_0011;
    cpu.shift_right(5);
    assert_eq!(cpu.v[5], 0b0100_0001);
    assert_eq!(cpu.v[0xF], 1);
    cpu.shift_left(5);
    assert_eq!(cpu.v[5], 0b1000_0010);
    assert_eq!(cpu.v[0xF], 0);
    cpu.shift_left(5);
    assert_eq!(cpu.v[5], 0b0000_0100);
    assert_eq!(cpu.v[0xF], 1);
    cpu.v[5] = 0b1000_0011;
    cpu.shift_right(5);
    cpu.shift_left(5);
    assert_eq!(cpu.v[5], 0b1000_0010);
}

#[test]
fn flag_register_takes_the_flag_last() {
    let mut cpu = CPU::new();
    cpu.v[0xF] = 0b0000_0011;
    cpu.shift_right(0xF);
    assert_eq!(cpu.v[0xF], 1);
}

#[test]
fn store_then_load_registers_round_trip() {
    for x in 0..16u8 {
        let mut cpu = CPU::new();
        let mut memory = Memory::new();
        for r in 0..16 {
            cpu.v[r] = (r as u8) * 17 + 3;
        }
        let before = cpu.v;
        cpu.i = 0x300;
        cpu.store_registers(x, &mut memory);
        for r in 0..=x as usize {
            assert_eq!(memory.get(0x300 + r), before[r]);
        }
        assert_eq!(memory.get(0x300 + x as usize + 1), 0);
        for r in 0..16 {
            cpu.v[r] = 0;
        }
        cpu.load_registers(x, &memory);
        for r in 0..=x as usize {
            assert_eq!(cpu.v[r], before[r]);
        }
        for r in (x as usize + 1)..16 {
            assert_eq!(cpu.v[r], 0);
        }
        assert_eq!(cpu.pc, 0x204);
    }
}

#[test]
fn store_registers_wraps_at_end_of_memory() {
    let mut cpu = CPU::new();
    let mut memory = Memory::new();
    cpu.v[0] = 7;
    cpu.v[1] = 8;
    cpu.i = 4095;
    cpu.store_registers(1, &mut memory);
    assert_eq!(memory.get(4095), 7);
    assert_eq!(memory.get(0), 8);
}

#[test]
fn store_bcd_of_255() {
    let mut cpu = CPU::new();
    let mut memory = Memory::new();
    cpu.v[4] = 255;
    cpu.i = 0x400;
    cpu.store_bcd(4, &mut memory);
    assert_eq!(memory.get(0x400), 2);
    assert_eq!(memory.get(0x401), 5);
    assert_eq!(memory.get(0x402), 5);
    assert_eq!(cpu.pc, 0x202);
}

#[test]
fn store_bcd_of_small_values() {
    let mut cpu = CPU::new();
    let mut memory = Memory::new();
    cpu.v[0] = 7;
    cpu.i = 0x400;
    cpu.store_bcd(0, &mut memory);
    assert_eq!([memory.get(0x400), memory.get(0x401), memory.get(0x402)], [0, 0, 7]);
    cpu.v[0] = 120;
    cpu.store_bcd(0, &mut memory);
    assert_eq!([memory.get(0x400), memory.get(0x401), memory.get(0x402)], [1, 2, 0]);
}

#[test]
fn call_then_return_resumes_after_call() {
    let mut cpu = CPU::new();
    assert_eq!(cpu.pc, 0x200);
    assert_eq!(cpu.call(0x300), Ok(()));
    assert_eq!(cpu.pc, 0x300);
    assert_eq!(cpu.sp, 1);
    assert_eq!(cpu.return_from_subroutine(), Ok(()));
    assert_eq!(cpu.pc, 0x202);
    assert_eq!(cpu.sp, 0);
}

#[test]
fn call_overflows_after_sixteen_frames() {
    let mut cpu = CPU::new();
    for _ in 0..16 {
        assert_eq!(cpu.call(0x300), Ok(()));
    }
    assert_eq!(cpu.call(0x300), Err(Chip8Error::StackOverflow { pc: 0x300 }));
    assert_eq!(cpu.sp, 16);
}

#[test]
fn return_with_empty_stack_underflows() {
    let mut cpu = CPU::new();
    assert_eq!(cpu.return_from_subroutine(), Err(Chip8Error::StackUnderflow { pc: 0x200 }));
    assert_eq!(cpu.pc, 0x200);
}

#[test]
fn jump_v0_adds_v0() {
    let mut cpu = CPU::new();
    cpu.v[0] = 5;
    cpu.jump_v0(0x300);
    assert_eq!(cpu.pc, 0x305);
}

#[test]
fn jump_sets_pc() {
    let mut cpu = CPU::new();
    cpu.jump(0x345);
    assert_eq!(cpu.pc, 0x345);
}

#[test]
fn skips_move_pc_by_four_or_two() {
    let mut cpu = CPU::new();
    cpu.v[1] = 9;
    cpu.skip_equal(1, 9, false);
    assert_eq!(cpu.pc, 0x204);
    cpu.skip_equal(1, 8, false);
    assert_eq!(cpu.pc, 0x206);
    cpu.skip_not_equal(1, 8, false);
    assert_eq!(cpu.pc, 0x20A);
    cpu.v[2] = 9;
    cpu.skip_equal(1, 2, true);
    assert_eq!(cpu.pc, 0x20E);
    cpu.skip_not_equal(1, 2, true);
    assert_eq!(cpu.pc, 0x210);
}

#[test]
fn skip_if_condition_moves_only_when_true() {
    let mut cpu = CPU::new();
    cpu.skip_if_condition(false);
    assert_eq!(cpu.pc, 0x200);
    cpu.skip_if_condition(true);
    assert_eq!(cpu.pc, 0x202);
}

#[test]
fn load_and_add_immediate_and_register() {
    let mut cpu = CPU::new();
    cpu.load(3, 0xF0, false);
    assert_eq!(cpu.v[3], 0xF0);
    cpu.add(3, 0x20, false);
    assert_eq!(cpu.v[3], 0x10);
    assert_eq!(cpu.v[0xF], 0);
    cpu.load(4, 3, true);
    assert_eq!(cpu.v[4], 0x10);
    cpu.add(4, 3, true);
    assert_eq!(cpu.v[4], 0x20);
    assert_eq!(cpu.pc, 0x208);
}

#[test]
fn bitwise_operations() {
    let mut cpu = CPU::new();
    cpu.v[1] = 0b1100;
    cpu.v[2] = 0b1010;
    cpu.or(1, 2);
    assert_eq!(cpu.v[1], 0b1110);
    cpu.v[1] = 0b1100;
    cpu.and(1, 2);
    assert_eq!(cpu.v[1], 0b1000);
    cpu.v[1] = 0b1100;
    cpu.xor(1, 2);
    assert_eq!(cpu.v[1], 0b0110);
}

#[test]
fn index_instructions() {
    let mut cpu = CPU::new();
    cpu.load_i(0x123);
    assert_eq!(cpu.i, 0x123);
    cpu.v[2] = 0x10;
    cpu.set_i(2);
    assert_eq!(cpu.i, 0x133);
    cpu.v[3] = 0xF;
    cpu.load_sprite(3);
    assert_eq!(cpu.i, 75);
    cpu.i = 0xFFFF;
    cpu.v[2] = 2;
    cpu.set_i(2);
    assert_eq!(cpu.i, 1);
}

#[test]
fn random_byte_is_masked() {
    let mut cpu = CPU::new();
    cpu.set_random_byte(6, 0x0F, 0xAB);
    assert_eq!(cpu.v[6], 0x0B);
    assert_eq!(cpu.pc, 0x202);
}

#[test]
fn timers_count_down_to_zero() {
    let mut cpu = CPU::new();
    cpu.v[1] = 2;
    cpu.set_delay_timer(1);
    cpu.set_sound_timer(1);
    assert_eq!((cpu.delay, cpu.sound), (2, 2));
    cpu.update();
    cpu.load_delay(7);
    assert_eq!(cpu.v[7], 1);
    cpu.update();
    cpu.update();
    assert_eq!((cpu.delay, cpu.sound), (0, 0));
    let pc = cpu.pc;
    cpu.update();
    assert_eq!(cpu.pc, pc);
}

#[test]
fn key_skips_follow_keypad() {
    let mut keys = NO_KEYS;
    keys[0xA] = true;
    let mut cpu = CPU::new();
    cpu.v[1] = 0xA;
    cpu.skip_if_key_is_pressed(1, &keys);
    assert_eq!(cpu.pc, 0x204);
    cpu.skip_if_key_is_not_pressed(1, &keys);
    assert_eq!(cpu.pc, 0x206);
    cpu.skip_if_key_is_pressed(1, &NO_KEYS);
    assert_eq!(cpu.pc, 0x208);
    cpu.v[1] = 0x20;
    cpu.skip_if_key_is_not_pressed(1, &keys);
    assert_eq!(cpu.pc, 0x20C);
}

#[test]
fn wait_for_key_holds_pc_until_a_key() {
    let mut cpu = CPU::new();
    cpu.wait_for_key_press(2, &NO_KEYS);
    assert_eq!(cpu.pc, 0x200);
    let mut keys = NO_KEYS;
    keys[9] = true;
    keys[4] = true;
    cpu.wait_for_key_press(2, &keys);
    assert_eq!(cpu.v[2], 4);
    assert_eq!(cpu.pc, 0x202);
}

#[test]
fn get_op_is_big_endian() {
    let cpu = CPU::new();
    let mut memory = Memory::new();
    memory.set(0x200, 0x12);
    memory.set(0x201, 0x34);
    assert_eq!(cpu.get_op(&memory), 0x1234);
}

#[test]
fn clear_screen_blanks_and_advances() {
    let mut cpu = CPU::new();
    let mut screen = Screen::new();
    screen.draw_sprite(0, 0, &[0xFF]);
    cpu.clear_screen(&mut screen);
    for row in 0..32 {
        for col in 0..64 {
            assert!(!screen.is_on(col, row));
        }
    }
    assert_eq!(cpu.pc, 0x202);
}

#[test]
fn update_sprite_reads_memory_at_index() {
    let mut cpu = CPU::new();
    let mut memory = Memory::new();
    let mut screen = Screen::new();
    memory.set(0x300, 0b1000_0001);
    memory.set(0x301, 0b0100_0000);
    cpu.i = 0x300;
    cpu.v[0] = 10;
    cpu.v[1] = 31;
    cpu.update_sprite(&memory, &mut screen, 0, 1, 2);
    assert!(screen.is_on(10, 31));
    assert!(screen.is_on(17, 31));
    assert!(!screen.is_on(11, 31));
    assert!(screen.is_on(11, 0));
    assert_eq!(cpu.v[0xF], 0);
    cpu.update_sprite(&memory, &mut screen, 0, 1, 2);
    assert_eq!(cpu.v[0xF], 1);
    assert!(!screen.is_on(10, 31));
    assert!(!screen.is_on(11, 0));
    assert_eq!(cpu.pc, 0x204);
}
