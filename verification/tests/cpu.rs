use chip8::cpu::alu;
use chip8::opcode::AluOp;
use chip8::{Cpu, Fault, Memory};

fn machine(program: &[u16], shiftquirk: bool) -> Cpu {
    let mut rom = Vec::new();
    for word in program {
        rom.push((word >> 8) as u8);
        rom.push((word & 0xFF) as u8);
    }
    let mut memory = Memory::new();
    memory.load_rom(&rom);
    Cpu::new(memory, shiftquirk)
}

fn steps(cpu: &mut Cpu, n: usize) {
    for _ in 0..n {
        assert_eq!(cpu.step(), Ok(()));
    }
}

fn lit(cpu: &Cpu, x: usize, y: usize) -> bool {
    cpu.display.cells[x + 64 * y]
}

#[test]
fn new_machine_is_zeroed_and_starts_at_0x200() {
    let cpu = Cpu::new(Memory::new(), true);
    assert_eq!(cpu.pc, 0x200);
    assert_eq!(cpu.sp, 0);
    assert_eq!(cpu.stack, [0u16; 16]);
    assert_eq!(cpu.registers.v, [0u8; 16]);
    assert_eq!(cpu.registers.i, 0);
    assert_eq!(cpu.registers.delay, 0);
    assert_eq!(cpu.registers.sound, 0);
    assert!(cpu.display.cells.iter().all(|&c| !c));
    assert!(cpu.shiftquirk);
    assert_eq!(cpu.memory.buf, Memory::new().buf);
}

#[test]
fn fetch_reads_a_big_endian_word() {
    let cpu = machine(&[0x1234], false);
    assert_eq!(cpu.fetch(), Some(0x1234));
    assert_eq!(cpu.pc, 0x200);
}

#[test]
fn fetch_at_the_last_two_bytes_and_beyond() {
    let mut cpu = machine(&[], false);
    cpu.memory.write(4094, 0xAB);
    cpu.memory.write(4095, 0xCD);
    cpu.pc = 4094;
    assert_eq!(cpu.fetch(), Some(0xABCD));
    cpu.pc = 4095;
    assert_eq!(cpu.fetch(), None);
    cpu.pc = 4096;
    assert_eq!(cpu.fetch(), None);
    cpu.pc = 0xFFFF;
    assert_eq!(cpu.fetch(), None);
}

#[test]
fn step_past_the_end_of_memory_faults() {
    let mut cpu = machine(&[], false);
    cpu.pc = 4095;
    assert_eq!(cpu.step(), Err(Fault::FetchOutOfRange { pc: 4095 }));
    assert_eq!(cpu.pc, 4095);
}

#[test]
fn load_sets_a_register_and_advances_by_two() {
    let mut cpu = machine(&[0x6A02], false);
    steps(&mut cpu, 1);
    assert_eq!(cpu.registers.v[0xA], 2);
    assert_eq!(cpu.pc, 0x202);
}

#[test]
fn add_byte_wraps_and_leaves_the_flag() {
    let mut cpu = machine(&[0x63FF, 0x6F07, 0x7301], false);
    steps(&mut cpu, 3);
    assert_eq!(cpu.registers.v[3], 0x00);
    assert_eq!(cpu.registers.v[0xF], 7);
}

#[test]
fn add_sets_carry() {
    // 0xFF + 0x01 -> 0x00, VF = 1
    let mut cpu = machine(&[0x61FF, 0x6201, 0x8124], false);
    steps(&mut cpu, 3);
    assert_eq!(cpu.registers.v[1], 0x00);
    assert_eq!(cpu.registers.v[0xF], 1);
    // 0x10 + 0x20 -> 0x30, VF = 0
    let mut cpu = machine(&[0x6110, 0x6220, 0x6F01, 0x8124], false);
    steps(&mut cpu, 4);
    assert_eq!(cpu.registers.v[1], 0x30);
    assert_eq!(cpu.registers.v[0xF], 0);
}

#[test]
fn add_into_vf_keeps_the_carry() {
    let mut cpu = machine(&[0x6FFF, 0x6102, 0x8F14], false);
    steps(&mut cpu, 3);
    assert_eq!(cpu.registers.v[0xF], 1);
}

#[test]
fn sub_sets_not_borrow() {
    let mut cpu = machine(&[0x6105, 0x6203, 0x8125], false);
    steps(&mut cpu, 3);
    assert_eq!(cpu.registers.v[1], 2);
    assert_eq!(cpu.registers.v[0xF], 1);
    let mut cpu = machine(&[0x6103, 0x6205, 0x8125], false);
    steps(&mut cpu, 3);
    assert_eq!(cpu.registers.v[1], 0xFE);
    assert_eq!(cpu.registers.v[0xF], 0);
    let mut cpu = machine(&[0x6103, 0x6203, 0x8125], false);
    steps(&mut cpu, 3);
    assert_eq!(cpu.registers.v[1], 0);
    assert_eq!(cpu.registers.v[0xF], 1);
}

#[test]
fn sub_from_sets_not_borrow() {
    let mut cpu = machine(&[0x6103, 0x6205, 0x8127], false);
    steps(&mut cpu, 3);
    assert_eq!(cpu.registers.v[1], 2);
    assert_eq!(cpu.registers.v[2], 5);
    assert_eq!(cpu.registers.v[0xF], 1);
    let mut cpu = machine(&[0x6105, 0x6203, 0x8127], false);
    steps(&mut cpu, 3);
    assert_eq!(cpu.registers.v[1], 0xFE);
    assert_eq!(cpu.registers.v[0xF], 0);
}

#[test]
fn copy_or_and_xor() {
    let mut cpu = machine(&[0x61F0, 0x623C, 0x8120], false);
    steps(&mut cpu, 3);
    assert_eq!(cpu.registers.v[1], 0x3C);
    let mut cpu = machine(&[0x61F0, 0x623C, 0x8121], false);
    steps(&mut cpu, 3);
    assert_eq!(cpu.registers.v[1], 0xFC);
    let mut cpu = machine(&[0x61F0, 0x623C, 0x8122], false);
    steps(&mut cpu, 3);
    assert_eq!(cpu.registers.v[1], 0x30);
    let mut cpu = machine(&[0x61F0, 0x623C, 0x6F09, 0x8123], false);
    steps(&mut cpu, 4);
    assert_eq!(cpu.registers.v[1], 0xCC);
    assert_eq!(cpu.registers.v[0xF], 9);
}

#[test]
fn shift_right_without_quirk_shifts_vy_into_vx() {
    let mut cpu = machine(&[0x6103, 0x6208, 0x8126], false);
    steps(&mut cpu, 3);
    assert_eq!(cpu.registers.v[1], 4);
    assert_eq!(cpu.registers.v[2], 8);
    assert_eq!(cpu.registers.v[0xF], 0);
}

#[test]
fn shift_right_with_quirk_shifts_vx_in_place() {
    let mut cpu = machine(&[0x6103, 0x6208, 0x8126], true);
    steps(&mut cpu, 3);
    assert_eq!(cpu.registers.v[1], 1);
    assert_eq!(cpu.registers.v[2], 8);
    assert_eq!(cpu.registers.v[0xF], 1);
}

#[test]
fn shift_left_without_quirk_shifts_vy_into_vx() {
    let mut cpu = machine(&[0x6101, 0x62C1, 0x812E], false);
    steps(&mut cpu, 3);
    assert_eq!(cpu.registers.v[1], 0x82);
    assert_eq!(cpu.registers.v[0xF], 1);
}

#[test]
fn shift_left_with_quirk_shifts_vx_in_place() {
    let mut cpu = machine(&[0x6141, 0x62C1, 0x812E], true);
    steps(&mut cpu, 3);
    assert_eq!(cpu.registers.v[1], 0x82);
    assert_eq!(cpu.registers.v[0xF], 0);
}

#[test]
fn shift_flag_is_the_bit_before_the_shift() {
    // the operand 0x81 has both its lowest and its highest bit set; after the
    // shift the result has neither at that place
    let mut cpu = machine(&[0x6181, 0x8116], true);
    steps(&mut cpu, 2);
    assert_eq!(cpu.registers.v[1], 0x40);
    assert_eq!(cpu.registers.v[0xF], 1);
    let mut cpu = machine(&[0x6181, 0x811E], true);
    steps(&mut cpu, 2);
    assert_eq!(cpu.registers.v[1], 0x02);
    assert_eq!(cpu.registers.v[0xF], 1);
}

#[test]
fn alu_is_exact_on_chosen_values() {
    assert_eq!(alu(AluOp::Add, 0xFF, 0x01, false), (0x00, Some(1)));
    assert_eq!(alu(AluOp::Add, 200, 55, false), (255, Some(0)));
    assert_eq!(alu(AluOp::Sub, 0, 1, false), (255, Some(0)));
    assert_eq!(alu(AluOp::SubFrom, 0, 1, false), (1, Some(1)));
    assert_eq!(alu(AluOp::ShiftRight, 0x03, 0x10, false), (0x08, Some(0)));
    assert_eq!(alu(AluOp::ShiftRight, 0x03, 0x10, true), (0x01, Some(1)));
    assert_eq!(alu(AluOp::ShiftLeft, 0xFF, 0x7F, false), (0xFE, Some(0)));
    assert_eq!(alu(AluOp::ShiftLeft, 0xFF, 0x7F, true), (0xFE, Some(1)));
    assert_eq!(alu(AluOp::Copy, 1, 2, true), (2, None));
    assert_eq!(alu(AluOp::Or, 0x0F, 0xF0, true), (0xFF, None));
    assert_eq!(alu(AluOp::And, 0x0F, 0xF8, true), (0x08, None));
    assert_eq!(alu(AluOp::Xor, 0xFF, 0x0F, true), (0xF0, None));
}

#[test]
fn alu_wraps_for_every_pair_of_bytes() {
    for vx in 0..=255u8 {
        for vy in 0..=255u8 {
            let (sum, carry) = alu(AluOp::Add, vx, vy, false);
            assert_eq!(sum as u16 + 256 * carry.unwrap() as u16, vx as u16 + vy as u16);
            let (diff, no_borrow) = alu(AluOp::Sub, vx, vy, false);
            assert_eq!(
                diff as i32 - 256 * (1 - no_borrow.unwrap() as i32),
                vx as i32 - vy as i32
            );
            let (rdiff, rno_borrow) = alu(AluOp::SubFrom, vx, vy, false);
            assert_eq!(
                rdiff as i32 - 256 * (1 - rno_borrow.unwrap() as i32),
                vy as i32 - vx as i32
            );
        }
    }
}

#[test]
fn jump_sets_the_program_counter() {
    let mut cpu = machine(&[0x1ABC], false);
    steps(&mut cpu, 1);
    assert_eq!(cpu.pc, 0xABC);
}

#[test]
fn call_pushes_the_advanced_counter_and_return_pops_it() {
    // 0x200: call 0x206; 0x202: load; 0x206: return
    let mut cpu = machine(&[0x2206, 0x6101, 0x0000, 0x00EE], false);
    steps(&mut cpu, 1);
    assert_eq!(cpu.pc, 0x206);
    assert_eq!(cpu.sp, 1);
    assert_eq!(cpu.stack[0], 0x202);
    steps(&mut cpu, 1);
    assert_eq!(cpu.pc, 0x202);
    assert_eq!(cpu.sp, 0);
    steps(&mut cpu, 1);
    assert_eq!(cpu.registers.v[1], 1);
}

#[test]
fn return_with_an_empty_stack_faults() {
    let mut cpu = machine(&[0x00EE], false);
    assert_eq!(cpu.step(), Err(Fault::StackUnderflow { pc: 0x200 }));
    assert_eq!(cpu.pc, 0x200);
    assert_eq!(cpu.sp, 0);
}

#[test]
fn sixteen_calls_fit_and_the_seventeenth_faults() {
    // a subroutine that calls itself
    let mut cpu = machine(&[0x2200], false);
    steps(&mut cpu, 16);
    assert_eq!(cpu.sp, 16);
    assert_eq!(cpu.stack, [0x202u16; 16]);
    assert_eq!(cpu.step(), Err(Fault::StackOverflow { pc: 0x200 }));
    assert_eq!(cpu.sp, 16);
    assert_eq!(cpu.pc, 0x200);
}

#[test]
fn return_with_a_stack_pointer_beyond_the_stack_faults() {
    let mut cpu = machine(&[0x00EE], false);
    cpu.sp = 17;
    assert_eq!(cpu.step(), Err(Fault::StackOverflow { pc: 0x200 }));
    assert_eq!(cpu.sp, 17);
}

#[test]
fn skip_if_equal_and_not_equal() {
    let mut cpu = machine(&[0x6142, 0x3142], false);
    steps(&mut cpu, 2);
    assert_eq!(cpu.pc, 0x206);
    let mut cpu = machine(&[0x6142, 0x3143], false);
    steps(&mut cpu, 2);
    assert_eq!(cpu.pc, 0x204);
    let mut cpu = machine(&[0x6142, 0x4142], false);
    steps(&mut cpu, 2);
    assert_eq!(cpu.pc, 0x204);
    let mut cpu = machine(&[0x6142, 0x4143], false);
    steps(&mut cpu, 2);
    assert_eq!(cpu.pc, 0x206);
}

#[test]
fn register_skips_look_at_the_register_names() {
    // V1 and V2 hold the same value, yet 5120 does not skip and 9120 does
    let mut cpu = machine(&[0x6107, 0x6207, 0x5120], false);
    steps(&mut cpu, 3);
    assert_eq!(cpu.pc, 0x206);
    let mut cpu = machine(&[0x6107, 0x6207, 0x9120], false);
    steps(&mut cpu, 3);
    assert_eq!(cpu.pc, 0x208);
    // the same register on both sides
    let mut cpu = machine(&[0x5330], false);
    steps(&mut cpu, 1);
    assert_eq!(cpu.pc, 0x204);
    let mut cpu = machine(&[0x9330], false);
    steps(&mut cpu, 1);
    assert_eq!(cpu.pc, 0x202);
}

#[test]
fn load_index_and_add_index() {
    let mut cpu = machine(&[0xAFFF, 0x61FF, 0xF11E], false);
    steps(&mut cpu, 3);
    assert_eq!(cpu.registers.i, 0x10FE);
}

#[test]
fn add_index_wraps_at_sixteen_bits() {
    let mut cpu = machine(&[0x6102, 0xF11E], false);
    cpu.registers.i = 0xFFFF;
    steps(&mut cpu, 2);
    assert_eq!(cpu.registers.i, 1);
}

#[test]
fn font_glyph_address_is_five_times_the_digit() {
    let mut cpu = machine(&[0x610A, 0xF129], false);
    steps(&mut cpu, 2);
    assert_eq!(cpu.registers.i, 50);
    let mut cpu = machine(&[0x61FF, 0xF129], false);
    steps(&mut cpu, 2);
    assert_eq!(cpu.registers.i, 1275);
}

#[test]
fn bcd_of_255() {
    let mut cpu = machine(&[0x61FF, 0xA300, 0xF133], false);
    steps(&mut cpu, 3);
    assert_eq!(&cpu.memory.buf[0x300..0x303], &[2, 5, 5]);
    assert_eq!(cpu.registers.i, 0x300);
}

#[test]
fn bcd_past_the_end_of_memory_faults() {
    let mut cpu = machine(&[0x61FF, 0xAFFE, 0xF133], false);
    steps(&mut cpu, 2);
    let before = cpu.memory.buf;
    assert_eq!(cpu.step(), Err(Fault::AddressOutOfRange { pc: 0x204, opcode: 0xF133 }));
    assert_eq!(cpu.memory.buf, before);
    assert_eq!(cpu.pc, 0x204);
    // three bytes up to the last one fit
    let mut cpu = machine(&[0x617B, 0xAFFD, 0xF133], false);
    steps(&mut cpu, 3);
    assert_eq!(&cpu.memory.buf[4093..4096], &[1, 2, 3]);
}

#[test]
fn store_and_load_all_sixteen_registers_round_trip() {
    let mut cpu = machine(&[0xA400, 0xFF55, 0xFF65], false);
    let values: [u8; 16] = [3, 1, 4, 1, 5, 9, 2, 6, 5, 3, 5, 8, 9, 7, 9, 250];
    cpu.registers.v = values;
    steps(&mut cpu, 2);
    assert_eq!(&cpu.memory.buf[0x400..0x410], &values[..]);
    assert_eq!(cpu.memory.buf[0x410], 0);
    assert_eq!(cpu.registers.i, 0x400);
    cpu.registers.v = [0; 16];
    steps(&mut cpu, 1);
    assert_eq!(cpu.registers.v, values);
    assert_eq!(cpu.registers.i, 0x400);
}

#[test]
fn store_and_load_stop_at_vx() {
    let mut cpu = machine(&[0xA400, 0xF255, 0xF165], false);
    cpu.registers.v = [11, 22, 33, 44, 0, 0, 0, 0, 0, 0, 0, 0, 0, 0, 0, 0];
    steps(&mut cpu, 2);
    assert_eq!(&cpu.memory.buf[0x400..0x404], &[11, 22, 33, 0]);
    cpu.registers.v = [0; 16];
    steps(&mut cpu, 1);
    assert_eq!(&cpu.registers.v[..4], &[11, 22, 0, 0]);
}

#[test]
fn store_and_load_past_the_end_of_memory_fault() {
    let mut cpu = machine(&[0xAFF1, 0xFF55], false);
    steps(&mut cpu, 1);
    assert_eq!(cpu.step(), Err(Fault::AddressOutOfRange { pc: 0x202, opcode: 0xFF55 }));
    let mut cpu = machine(&[0xAFF1, 0xFF65], false);
    steps(&mut cpu, 1);
    assert_eq!(cpu.step(), Err(Fault::AddressOutOfRange { pc: 0x202, opcode: 0xFF65 }));
    let mut cpu = machine(&[0xAFF0, 0xFF55, 0xFF65], false);
    steps(&mut cpu, 3);
}

#[test]
fn timers_are_set_and_read() {
    let mut cpu = machine(&[0x6105, 0xF115, 0xF118, 0xF207], false);
    steps(&mut cpu, 4);
    assert_eq!(cpu.registers.delay, 5);
    assert_eq!(cpu.registers.sound, 5);
    assert_eq!(cpu.registers.v[2], 5);
}

#[test]
fn timers_started_at_five_reach_zero_after_five_ticks_and_stay() {
    let mut cpu = machine(&[0x6105, 0xF115, 0xF118], false);
    steps(&mut cpu, 3);
    for left in [4u8, 3, 2, 1, 0] {
        cpu.tick();
        assert_eq!(cpu.registers.delay, left);
        assert_eq!(cpu.registers.sound, left);
    }
    for _ in 0..300 {
        cpu.tick();
        assert_eq!(cpu.registers.delay, 0);
        assert_eq!(cpu.registers.sound, 0);
    }
}

#[test]
fn wait_key_does_nothing() {
    let mut cpu = machine(&[0xF30A], false);
    let before = cpu.registers.v;
    steps(&mut cpu, 1);
    assert_eq!(cpu.pc, 0x202);
    assert_eq!(cpu.registers.v, before);
}

#[test]
fn unknown_opcode_is_reported_with_its_address() {
    let mut cpu = machine(&[0x6101, 0x00FF, 0x6102], false);
    steps(&mut cpu, 1);
    assert_eq!(cpu.step(), Err(Fault::UnknownOpcode { pc: 0x202, opcode: 0x00FF }));
    assert_eq!(cpu.pc, 0x202);
    assert_eq!(cpu.registers.v[1], 1);
    // stepping again reports the same fault and still runs nothing
    assert_eq!(cpu.step(), Err(Fault::UnknownOpcode { pc: 0x202, opcode: 0x00FF }));
    assert_eq!(cpu.registers.v[1], 1);
}

#[test]
fn run_halts_at_the_unknown_opcode() {
    let mut cpu = machine(&[0x6101, 0x6202, 0x00FF, 0x6303], false);
    assert_eq!(cpu.run(10), Err(Fault::UnknownOpcode { pc: 0x204, opcode: 0x00FF }));
    assert_eq!(cpu.registers.v[1], 1);
    assert_eq!(cpu.registers.v[2], 2);
    assert_eq!(cpu.registers.v[3], 0);
    assert_eq!(cpu.pc, 0x204);
}

#[test]
fn run_executes_exactly_the_quanta_asked_for() {
    let mut cpu = machine(&[0x7001, 0x1200], false);
    assert_eq!(cpu.run(0), Ok(()));
    assert_eq!(cpu.registers.v[0], 0);
    assert_eq!(cpu.pc, 0x200);
    assert_eq!(cpu.run(7), Ok(()));
    // add, jump, add, jump, add, jump, add
    assert_eq!(cpu.registers.v[0], 4);
    assert_eq!(cpu.pc, 0x202);
}

#[test]
fn update_ticks_before_the_instruction_runs() {
    // the delay timer is set to 8 and is read back as 7 one quantum later
    let mut cpu = machine(&[0x6108, 0xF115, 0xF207, 0xF307], false);
    assert_eq!(cpu.update(), Ok(()));
    assert_eq!(cpu.update(), Ok(()));
    assert_eq!(cpu.registers.delay, 8);
    assert_eq!(cpu.update(), Ok(()));
    assert_eq!(cpu.registers.v[2], 7);
    assert_eq!(cpu.update(), Ok(()));
    assert_eq!(cpu.registers.v[3], 6);
}

#[test]
fn update_ticks_even_when_the_instruction_faults() {
    let mut cpu = machine(&[0x00FF], false);
    cpu.registers.delay = 3;
    cpu.registers.sound = 1;
    assert_eq!(cpu.update(), Err(Fault::UnknownOpcode { pc: 0x200, opcode: 0x00FF }));
    assert_eq!(cpu.registers.delay, 2);
    assert_eq!(cpu.registers.sound, 0);
    assert_eq!(cpu.pc, 0x200);
}

#[test]
fn clear_screen_turns_every_cell_off() {
    let mut cpu = machine(&[0x00E0], false);
    cpu.display.cells[0] = true;
    cpu.display.cells[2047] = true;
    steps(&mut cpu, 1);
    assert!(cpu.display.cells.iter().all(|&c| !c));
    assert_eq!(cpu.pc, 0x202);
}

#[test]
fn draws_a_font_glyph_end_to_end() {
    // clear, VA = 2, I = glyph of the digit in VA, draw five rows at (V0, V0)
    let mut cpu = machine(&[0x00E0, 0x6A02, 0xFA29, 0xD005], false);
    assert_eq!(cpu.run(4), Ok(()));
    let glyph: [u8; 5] = [0xF0, 0x10, 0xF0, 0x80, 0xF0];
    for y in 0..32 {
        for x in 0..64 {
            let expected = y < 5 && x < 8 && (glyph[y] >> (7 - x)) & 1 == 1;
            assert_eq!(lit(&cpu, x, y), expected, "cell ({}, {})", x, y);
        }
    }
    assert_eq!(cpu.registers.v[0xF], 0);
}

#[test]
fn draws_from_the_address_in_i() {
    // I = 0x050 lies just behind the font; the program puts a sprite there
    let mut cpu = machine(&[0x00E0, 0x6A02, 0xA050, 0xD0A2], false);
    cpu.memory.write(0x050, 0b1010_0000);
    cpu.memory.write(0x051, 0b0100_0000);
    assert_eq!(cpu.run(4), Ok(()));
    // drawn at (V0, VA) = (0, 2)
    assert!(lit(&cpu, 0, 2));
    assert!(!lit(&cpu, 1, 2));
    assert!(lit(&cpu, 2, 2));
    assert!(lit(&cpu, 1, 3));
    assert_eq!(cpu.display.cells.iter().filter(|&&c| c).count(), 3);
}

#[test]
fn draw_at_60_30_wraps_around_both_edges() {
    let mut cpu = machine(&[0x613C, 0x621E, 0xA300, 0xD124], false);
    for k in 0..4 {
        cpu.memory.write(0x300 + k, 0xFF);
    }
    steps(&mut cpu, 4);
    for y in 0..32 {
        for x in 0..64 {
            let in_columns = x >= 60 || x < 4;
            let in_rows = y >= 30 || y < 2;
            assert_eq!(lit(&cpu, x, y), in_columns && in_rows, "cell ({}, {})", x, y);
        }
    }
    assert_eq!(cpu.registers.v[0xF], 0);
}

#[test]
fn draw_takes_the_position_modulo_the_screen() {
    // (VX, VY) = (64 + 3, 32 + 1) is the same place as (3, 1)
    let mut cpu = machine(&[0x6143, 0x6221, 0xA300, 0xD121], false);
    cpu.memory.write(0x300, 0x80);
    steps(&mut cpu, 4);
    assert!(lit(&cpu, 3, 1));
    assert_eq!(cpu.display.cells.iter().filter(|&&c| c).count(), 1);
}

#[test]
fn drawing_twice_erases_and_collides() {
    let mut cpu = machine(&[0xA000, 0xD005, 0xD005], false);
    steps(&mut cpu, 2);
    assert_eq!(cpu.registers.v[0xF], 0);
    assert!(cpu.display.cells.iter().any(|&c| c));
    steps(&mut cpu, 1);
    assert_eq!(cpu.registers.v[0xF], 1);
    assert!(cpu.display.cells.iter().all(|&c| !c));
}

#[test]
fn collision_needs_a_lit_pixel_on_a_lit_cell() {
    // a lit cell under a dark pixel of the sprite does not collide
    let mut cpu = machine(&[0xA300, 0xD001], false);
    cpu.memory.write(0x300, 0b1000_0000);
    cpu.display.cells[1] = true;
    steps(&mut cpu, 2);
    assert_eq!(cpu.registers.v[0xF], 0);
    assert!(lit(&cpu, 0, 0));
    assert!(lit(&cpu, 1, 0));
    // a lit cell under a lit pixel does, wherever in the sprite it is
    let mut cpu = machine(&[0x6F05, 0xA300, 0xD003], false);
    cpu.memory.write(0x300, 0b1000_0000);
    cpu.memory.write(0x301, 0b0000_0000);
    cpu.memory.write(0x302, 0b0000_0001);
    cpu.display.cells[7 + 64 * 2] = true;
    steps(&mut cpu, 3);
    assert_eq!(cpu.registers.v[0xF], 1);
    assert!(!lit(&cpu, 7, 2));
    assert!(lit(&cpu, 0, 0));
}

#[test]
fn draw_of_no_rows_clears_the_flag_and_draws_nothing() {
    let mut cpu = machine(&[0x6F01, 0xD000], false);
    cpu.registers.i = 0xFFFF;
    steps(&mut cpu, 2);
    assert_eq!(cpu.registers.v[0xF], 0);
    assert!(cpu.display.cells.iter().all(|&c| !c));
}

#[test]
fn draw_past_the_end_of_memory_faults() {
    let mut cpu = machine(&[0xAFFF, 0xD002], false);
    steps(&mut cpu, 1);
    assert_eq!(cpu.step(), Err(Fault::AddressOutOfRange { pc: 0x202, opcode: 0xD002 }));
    assert!(cpu.display.cells.iter().all(|&c| !c));
    let mut cpu = machine(&[0xAFFF, 0xD001], false);
    cpu.memory.write(0xFFF, 0x80);
    steps(&mut cpu, 2);
    assert!(lit(&cpu, 0, 0));
}
