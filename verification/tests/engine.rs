use chip8::chip8::{Chip8, OpCode};
use chip8::instructions::{
    add_and_store, bitwise_on_a_number_and_store, bitwise_on_a_random_number_and_store,
    bitwise_shift_right_and_store, can_execute, create_opcode_instructions_map, draw_sprite,
    execute_with, fill_v0_to_vx_starting_at_address_i, get_key_press_and_store, get_vx_and_number,
    get_vx_and_vy, store_binary_coded_decimal_representation_of_vx, store_msb_and_left_shift,
    store_v0_to_vx_starting_at_address_i, subtract_and_store, subtract_and_store_and_set_vf,
    Instruction,
};

fn op(code: u16) -> OpCode {
    OpCode { code, decoded: code & 0xF000, data: code & 0x0FFF }
}

fn machine_with_program(words: &[u16]) -> Chip8 {
    let mut cpu = Chip8::new();
    for (i, word) in words.iter().enumerate() {
        cpu.memory[0x200 + 2 * i] = (word >> 8) as u8;
        cpu.memory[0x200 + 2 * i + 1] = (word & 0xFF) as u8;
    }
    cpu
}

fn step(cpu: &mut Chip8) {
    assert!(cpu.can_run());
    cpu.run();
}

#[test]
fn new_machine_is_zeroed_and_starts_at_load_address() {
    let cpu = Chip8::new();
    assert_eq!(cpu.pc, 0x200);
    assert_eq!(cpu.sp, 0);
    assert_eq!(cpu.index, 0);
    assert_eq!(cpu.delay_timer, 0);
    assert_eq!(cpu.sound_timer, 0);
    assert!(!cpu.update_display);
    assert_eq!(cpu.memory.len(), 0xFFF);
    assert!(cpu.memory.iter().all(|&b| b == 0));
    assert!(cpu.registers.iter().all(|&b| b == 0));
    assert!(cpu.stack.iter().all(|&b| b == 0));
    assert!(cpu.keys.iter().all(|&b| !b));
    assert_eq!(cpu.video.len(), 2048);
    assert!(cpu.video.iter().all(|&b| b == 0));
    assert_eq!(cpu.instruction_fns.len(), 34);
}

#[test]
fn fetch_reads_big_endian_word_and_advances_by_two() {
    let mut cpu = machine_with_program(&[0xA2F0]);
    let before = cpu.memory;
    let opcode = cpu.get_next_opcode();
    assert_eq!(opcode.code, 0xA2F0);
    assert_eq!(opcode.decoded, 0xA000);
    assert_eq!(opcode.data, 0x02F0);
    assert_eq!(cpu.pc, 0x202);
    assert_eq!(cpu.memory, before);
}

#[test]
fn fetch_is_refused_at_the_end_of_memory() {
    let mut cpu = Chip8::new();
    cpu.pc = 0xFFE;
    assert!(!cpu.can_run());
    cpu.pc = 0xFFD;
    assert!(cpu.can_run());
    cpu.pc = 0xFFFF;
    assert!(!cpu.can_run());
}

#[test]
fn font_set_lands_at_0x50() {
    let mut cpu = Chip8::new();
    cpu.memory[0x4F] = 0xAA;
    cpu.memory[0xA0] = 0xBB;
    let mut font = [0u8; 80];
    for (i, byte) in font.iter_mut().enumerate() {
        *byte = (i as u8) + 1;
    }
    cpu.load_font_set(font);
    assert_eq!(cpu.memory[0x4F], 0xAA);
    assert_eq!(cpu.memory[0x50], 1);
    assert_eq!(cpu.memory[0x50 + 79], 80);
    assert_eq!(cpu.memory[0xA0], 0xBB);
    assert_eq!(&cpu.memory[0x50..0xA0], &font[..]);
}

#[test]
fn register_fields_are_decoded_from_the_word() {
    assert_eq!(get_vx_and_vy(&op(0x8AB4)), (0xA, 0xB));
    assert_eq!(get_vx_and_number(&op(0x6C7F)), (0xC, 0x7F));
    assert_eq!(get_vx_and_vy(&op(0xFFFF)), (0xF, 0xF));
    assert_eq!(get_vx_and_vy(&op(0x0000)), (0, 0));
}

#[test]
fn dispatch_key_keeps_low_byte_or_low_nibble_or_family() {
    assert_eq!(op(0x00E0).dispatch_key(), 0x00E0);
    assert_eq!(op(0x0AEE).dispatch_key(), 0x00EE);
    assert_eq!(op(0xE39E).dispatch_key(), 0xE09E);
    assert_eq!(op(0xF765).dispatch_key(), 0xF065);
    assert_eq!(op(0x8AB4).dispatch_key(), 0x8004);
    assert_eq!(op(0x8ABE).dispatch_key(), 0x800E);
    assert_eq!(op(0x1234).dispatch_key(), 0x1000);
    assert_eq!(op(0xD123).dispatch_key(), 0xD000);
}

#[test]
fn clear_screen_and_return_have_distinct_handlers() {
    let table = create_opcode_instructions_map();
    assert_eq!(table.get(&op(0x00E0).dispatch_key()), Some(&Instruction::ClearScreen));
    assert_eq!(table.get(&op(0x00EE).dispatch_key()), Some(&Instruction::ReturnFromSubroutine));
}

#[test]
fn arithmetic_family_members_have_distinct_handlers() {
    let table = create_opcode_instructions_map();
    let words = [0x8124u16, 0x8125, 0x8126, 0x8127, 0x812E];
    let expected = [
        Instruction::AddAndStore,
        Instruction::SubtractAndStore,
        Instruction::BitwiseShiftRightAndStore,
        Instruction::SubtractAndStoreAndSetVf,
        Instruction::StoreMsbAndLeftShift,
    ];
    for (word, instruction) in words.iter().zip(expected.iter()) {
        assert_eq!(table.get(&op(*word).dispatch_key()), Some(instruction));
    }
    for i in 0..expected.len() {
        for j in 0..expected.len() {
            if i != j {
                assert_ne!(expected[i], expected[j]);
            }
        }
    }
}

#[test]
fn table_has_no_shared_instruction() {
    let table = create_opcode_instructions_map();
    assert_eq!(table.len(), 34);
    let entries: Vec<(&u16, &Instruction)> = table.iter().collect();
    for (k1, i1) in entries.iter() {
        for (k2, i2) in entries.iter() {
            if k1 != k2 {
                assert_ne!(i1, i2);
            }
        }
    }
}

#[test]
fn unknown_opcode_only_moves_the_program_counter() {
    let mut cpu = machine_with_program(&[0x8128, 0x00FF, 0xF1FF, 0xE100]);
    cpu.registers[1] = 7;
    cpu.registers[2] = 9;
    let registers = cpu.registers;
    let memory = cpu.memory;
    for n in 1..=4u16 {
        step(&mut cpu);
        assert_eq!(cpu.pc, 0x200 + 2 * n);
        assert_eq!(cpu.registers, registers);
        assert_eq!(cpu.memory, memory);
        assert_eq!(cpu.sp, 0);
        assert_eq!(cpu.index, 0);
        assert!(!cpu.update_display);
    }
}

#[test]
fn add_with_carry_sets_flag_and_wraps() {
    let mut cpu = Chip8::new();
    cpu.registers[1] = 200;
    cpu.registers[2] = 100;
    cpu.registers[0xF] = 7;
    add_and_store(&mut cpu, op(0x8124));
    assert_eq!(cpu.registers[1], 44);
    assert_eq!(cpu.registers[2], 100);
    assert_eq!(cpu.registers[0xF], 1);

    cpu.registers[1] = 1;
    cpu.registers[2] = 2;
    add_and_store(&mut cpu, op(0x8124));
    assert_eq!(cpu.registers[1], 3);
    assert_eq!(cpu.registers[0xF], 0);

    cpu.registers[1] = 255;
    cpu.registers[2] = 0;
    add_and_store(&mut cpu, op(0x8124));
    assert_eq!(cpu.registers[1], 255);
    assert_eq!(cpu.registers[0xF], 0);

    cpu.registers[1] = 255;
    cpu.registers[2] = 1;
    add_and_store(&mut cpu, op(0x8124));
    assert_eq!(cpu.registers[1], 0);
    assert_eq!(cpu.registers[0xF], 1);
}

#[test]
fn add_with_carry_holds_for_every_pair() {
    let mut cpu = Chip8::new();
    for a in 0..=255u16 {
        for b in 0..=255u16 {
            cpu.registers[3] = a as u8;
            cpu.registers[4] = b as u8;
            add_and_store(&mut cpu, op(0x8344));
            assert_eq!(cpu.registers[3] as u16, (a + b) % 256);
            assert_eq!(cpu.registers[0xF] == 1, a + b > 255);
            assert!(cpu.registers[0xF] <= 1);
        }
    }
}

#[test]
fn add_into_the_flag_register_keeps_the_sum() {
    let mut cpu = Chip8::new();
    cpu.registers[0xF] = 250;
    cpu.registers[1] = 10;
    add_and_store(&mut cpu, op(0x8F14));
    assert_eq!(cpu.registers[0xF], 4);
}

#[test]
fn subtract_sets_flag_when_no_borrow_and_wraps() {
    let mut cpu = Chip8::new();
    cpu.registers[1] = 10;
    cpu.registers[2] = 3;
    subtract_and_store(&mut cpu, op(0x8125));
    assert_eq!(cpu.registers[1], 7);
    assert_eq!(cpu.registers[0xF], 1);

    cpu.registers[1] = 3;
    cpu.registers[2] = 10;
    subtract_and_store(&mut cpu, op(0x8125));
    assert_eq!(cpu.registers[1], 249);
    assert_eq!(cpu.registers[0xF], 0);

    cpu.registers[1] = 5;
    cpu.registers[2] = 5;
    subtract_and_store(&mut cpu, op(0x8125));
    assert_eq!(cpu.registers[1], 0);
    assert_eq!(cpu.registers[0xF], 1);
}

#[test]
fn subtract_holds_for_every_pair() {
    let mut cpu = Chip8::new();
    for a in 0..=255i32 {
        for b in 0..=255i32 {
            cpu.registers[3] = a as u8;
            cpu.registers[4] = b as u8;
            subtract_and_store(&mut cpu, op(0x8345));
            assert_eq!(cpu.registers[3] as i32, (a - b).rem_euclid(256));
            assert_eq!(cpu.registers[0xF] == 1, a >= b);
            assert!(cpu.registers[0xF] <= 1);
        }
    }
}

#[test]
fn reverse_subtract_flips_the_operands() {
    let mut cpu = Chip8::new();
    cpu.registers[1] = 3;
    cpu.registers[2] = 10;
    subtract_and_store_and_set_vf(&mut cpu, op(0x8127));
    assert_eq!(cpu.registers[1], 7);
    assert_eq!(cpu.registers[2], 10);
    assert_eq!(cpu.registers[0xF], 1);

    cpu.registers[1] = 10;
    cpu.registers[2] = 3;
    subtract_and_store_and_set_vf(&mut cpu, op(0x8127));
    assert_eq!(cpu.registers[1], 249);
    assert_eq!(cpu.registers[0xF], 0);

    cpu.registers[1] = 8;
    cpu.registers[2] = 8;
    subtract_and_store_and_set_vf(&mut cpu, op(0x8127));
    assert_eq!(cpu.registers[1], 0);
    assert_eq!(cpu.registers[0xF], 1);
}

#[test]
fn shift_right_captures_lowest_bit() {
    let mut cpu = Chip8::new();
    cpu.registers[1] = 0b0000_0101;
    cpu.registers[0xF] = 0;
    bitwise_shift_right_and_store(&mut cpu, op(0x8106));
    assert_eq!(cpu.registers[1], 0b0000_0010);
    assert_eq!(cpu.registers[0xF], 1);

    cpu.registers[1] = 0b1000_0100;
    cpu.registers[0xF] = 1;
    bitwise_shift_right_and_store(&mut cpu, op(0x8106));
    assert_eq!(cpu.registers[1], 0b0100_0010);
    assert_eq!(cpu.registers[0xF], 0);
}

#[test]
fn shift_left_captures_highest_bit() {
    let mut cpu = Chip8::new();
    cpu.registers[1] = 0b1000_0001;
    cpu.registers[0xF] = 0;
    store_msb_and_left_shift(&mut cpu, op(0x810E));
    assert_eq!(cpu.registers[1], 0b0000_0010);
    assert_eq!(cpu.registers[0xF], 1);

    cpu.registers[1] = 0b0100_0001;
    cpu.registers[0xF] = 1;
    store_msb_and_left_shift(&mut cpu, op(0x810E));
    assert_eq!(cpu.registers[1], 0b1000_0010);
    assert_eq!(cpu.registers[0xF], 0);
}

#[test]
fn shifts_ignore_the_former_flag_for_every_value() {
    let mut cpu = Chip8::new();
    for value in 0..=255u8 {
        for former in [0u8, 1, 200] {
            cpu.registers[2] = value;
            cpu.registers[0xF] = former;
            bitwise_shift_right_and_store(&mut cpu, op(0x8206));
            assert_eq!(cpu.registers[0xF], value & 1);
            assert_eq!(cpu.registers[2], value >> 1);

            cpu.registers[2] = value;
            cpu.registers[0xF] = former;
            store_msb_and_left_shift(&mut cpu, op(0x820E));
            assert_eq!(cpu.registers[0xF], value >> 7);
            assert_eq!(cpu.registers[2], value << 1);
        }
    }
}

#[test]
fn call_then_return_restores_pc_and_sp() {
    let mut cpu = machine_with_program(&[0x2300]);
    cpu.memory[0x300] = 0x00;
    cpu.memory[0x301] = 0xEE;
    step(&mut cpu);
    assert_eq!(cpu.pc, 0x300);
    assert_eq!(cpu.sp, 1);
    assert_eq!(cpu.stack[0], 0x202);
    step(&mut cpu);
    assert_eq!(cpu.pc, 0x202);
    assert_eq!(cpu.sp, 0);
}

#[test]
fn nested_calls_return_in_reverse_order() {
    let mut cpu = machine_with_program(&[0x2300]);
    cpu.memory[0x300] = 0x24;
    cpu.memory[0x301] = 0x00;
    cpu.memory[0x302] = 0x00;
    cpu.memory[0x303] = 0xEE;
    cpu.memory[0x400] = 0x00;
    cpu.memory[0x401] = 0xEE;
    step(&mut cpu);
    step(&mut cpu);
    assert_eq!(cpu.pc, 0x400);
    assert_eq!(cpu.sp, 2);
    step(&mut cpu);
    assert_eq!(cpu.pc, 0x302);
    assert_eq!(cpu.sp, 1);
    step(&mut cpu);
    assert_eq!(cpu.pc, 0x202);
    assert_eq!(cpu.sp, 0);
}

#[test]
fn call_on_a_full_stack_and_return_on_an_empty_one_are_refused() {
    let mut cpu = machine_with_program(&[0x2300]);
    cpu.sp = 16;
    assert!(!cpu.can_run());
    cpu.sp = 15;
    assert!(cpu.can_run());
    let mut cpu = machine_with_program(&[0x00EE]);
    assert!(!cpu.can_run());
    cpu.sp = 1;
    assert!(cpu.can_run());
    cpu.sp = 17;
    assert!(!cpu.can_run());
}

#[test]
fn draw_toggles_set_bits_and_marks_the_display() {
    let mut cpu = Chip8::new();
    cpu.memory[0x300] = 0b1010_0000;
    cpu.memory[0x301] = 0b0000_0001;
    cpu.index = 0x300;
    cpu.registers[0] = 2;
    cpu.registers[1] = 3;
    cpu.registers[0xF] = 9;
    draw_sprite(&mut cpu, op(0xD012));
    let lit: Vec<usize> = (0..2048).filter(|&c| cpu.video[c] != 0).collect();
    assert_eq!(lit, vec![3 * 64 + 2, 3 * 64 + 4, 4 * 64 + 9]);
    assert!(lit.iter().all(|&c| cpu.video[c] == 0xFFFF_FFFF));
    assert_eq!(cpu.registers[0xF], 0);
    assert!(cpu.update_display);
    assert_eq!(cpu.index, 0x300);
}

#[test]
fn drawing_twice_restores_the_frame_and_reports_collision() {
    let mut cpu = Chip8::new();
    cpu.memory[0x300] = 0xF0;
    cpu.memory[0x301] = 0x90;
    cpu.memory[0x302] = 0xF0;
    cpu.index = 0x300;
    cpu.registers[4] = 10;
    cpu.registers[5] = 20;
    cpu.video[20 * 64 + 11] = 0xFFFF_FFFF;
    cpu.video[7] = 0xFFFF_FFFF;
    let before = cpu.video;
    draw_sprite(&mut cpu, op(0xD453));
    assert_ne!(cpu.video, before);
    assert_eq!(cpu.video[20 * 64 + 11], 0);
    assert_eq!(cpu.registers[0xF], 1);
    draw_sprite(&mut cpu, op(0xD453));
    assert_eq!(cpu.video, before);
    assert_eq!(cpu.registers[0xF], 1);
}

#[test]
fn second_draw_without_lit_pixels_reports_no_collision() {
    let mut cpu = Chip8::new();
    cpu.memory[0x300] = 0x80;
    cpu.index = 0x300;
    cpu.video[0] = 0xFFFF_FFFF;
    draw_sprite(&mut cpu, op(0xD011));
    assert_eq!(cpu.video[0], 0);
    assert_eq!(cpu.registers[0xF], 1);
    draw_sprite(&mut cpu, op(0xD011));
    assert_eq!(cpu.video[0], 0xFFFF_FFFF);
    assert_eq!(cpu.registers[0xF], 0);
}

#[test]
fn draw_wraps_the_corner_and_the_pixels_past_the_edges() {
    let mut cpu = Chip8::new();
    cpu.memory[0x300] = 0xFF;
    cpu.memory[0x301] = 0x81;
    cpu.index = 0x300;
    cpu.registers[0] = 64 + 62;
    cpu.registers[1] = 32 + 31;
    draw_sprite(&mut cpu, op(0xD012));
    let mut expected: Vec<usize> = Vec::new();
    for column in [62usize, 63, 0, 1, 2, 3, 4, 5] {
        expected.push(31 * 64 + column);
    }
    expected.push(62);
    expected.push(5);
    expected.sort();
    let lit: Vec<usize> = (0..2048).filter(|&c| cpu.video[c] == 0xFFFF_FFFF).collect();
    assert_eq!(lit, expected);
    assert_eq!(cpu.video.iter().filter(|&&c| c != 0).count(), 10);
}

#[test]
fn draw_of_height_zero_only_clears_the_flag() {
    let mut cpu = Chip8::new();
    cpu.index = 0xFFF;
    cpu.registers[0xF] = 1;
    assert!(can_execute(&cpu, Instruction::DrawSprite, op(0xD010)));
    draw_sprite(&mut cpu, op(0xD010));
    assert!(cpu.video.iter().all(|&c| c == 0));
    assert_eq!(cpu.registers[0xF], 0);
    assert!(cpu.update_display);
}

#[test]
fn draw_is_refused_when_the_sprite_runs_out_of_memory() {
    let mut cpu = Chip8::new();
    cpu.index = 0xFFF - 3;
    assert!(can_execute(&cpu, Instruction::DrawSprite, op(0xD013)));
    assert!(!can_execute(&cpu, Instruction::DrawSprite, op(0xD014)));
}

#[test]
fn clear_screen_unlights_every_cell() {
    let mut cpu = machine_with_program(&[0x00E0]);
    cpu.video[0] = 0xFFFF_FFFF;
    cpu.video[2047] = 0xFFFF_FFFF;
    step(&mut cpu);
    assert!(cpu.video.iter().all(|&c| c == 0));
    assert!(cpu.update_display);
    assert_eq!(cpu.pc, 0x202);
}

#[test]
fn wait_for_key_rewinds_when_no_key_is_pressed() {
    let mut cpu = machine_with_program(&[0xF30A]);
    step(&mut cpu);
    assert_eq!(cpu.pc, 0x200);
    assert_eq!(cpu.registers[3], 0);
    step(&mut cpu);
    assert_eq!(cpu.pc, 0x200);
}

#[test]
fn wait_for_key_stores_the_pressed_key() {
    let mut cpu = machine_with_program(&[0xF30A]);
    cpu.keys[7] = true;
    step(&mut cpu);
    assert_eq!(cpu.registers[3], 7);
    assert_eq!(cpu.pc, 0x202);
}

#[test]
fn wait_for_key_takes_the_lowest_of_several() {
    let mut cpu = Chip8::new();
    cpu.pc = 0x202;
    cpu.keys[0xF] = true;
    cpu.keys[4] = true;
    cpu.keys[9] = true;
    get_key_press_and_store(&mut cpu, op(0xF20A));
    assert_eq!(cpu.registers[2], 4);
    assert_eq!(cpu.pc, 0x202);
    cpu.keys = [false; 16];
    cpu.keys[0] = true;
    get_key_press_and_store(&mut cpu, op(0xF20A));
    assert_eq!(cpu.registers[2], 0);
}

#[test]
fn skip_on_key_reads_the_key_named_by_the_register() {
    let mut cpu = machine_with_program(&[0xE29E, 0x0000, 0xE2A1, 0xE29E, 0xE2A1]);
    cpu.registers[2] = 0xB;
    cpu.keys[0xB] = true;
    cpu.keys[2] = false;
    step(&mut cpu);
    assert_eq!(cpu.pc, 0x204);
    step(&mut cpu);
    assert_eq!(cpu.pc, 0x206);
    cpu.keys[0xB] = false;
    cpu.keys[2] = true;
    step(&mut cpu);
    assert_eq!(cpu.pc, 0x208);
    step(&mut cpu);
    assert_eq!(cpu.pc, 0x20C);
}

#[test]
fn skip_on_key_is_refused_for_a_key_number_above_fifteen() {
    let mut cpu = machine_with_program(&[0xE29E]);
    cpu.registers[2] = 16;
    assert!(!cpu.can_run());
    cpu.registers[2] = 15;
    assert!(cpu.can_run());
}

#[test]
fn register_block_store_copies_v0_to_vx_inclusive() {
    let mut cpu = Chip8::new();
    cpu.registers[0] = 5;
    cpu.registers[1] = 6;
    cpu.registers[2] = 7;
    cpu.registers[3] = 9;
    cpu.index = 0x400;
    store_v0_to_vx_starting_at_address_i(&mut cpu, op(0xF255));
    assert_eq!(&cpu.memory[0x400..0x404], &[5, 6, 7, 0]);
    assert_eq!(cpu.memory[0x3FF], 0);
    assert_eq!(cpu.index, 0x400);
    assert_eq!(&cpu.registers[0..4], &[5, 6, 7, 9]);
}

#[test]
fn register_block_load_fills_v0_to_vx_inclusive() {
    let mut cpu = Chip8::new();
    cpu.memory[0x400] = 5;
    cpu.memory[0x401] = 6;
    cpu.memory[0x402] = 7;
    cpu.memory[0x403] = 9;
    cpu.registers[3] = 42;
    cpu.index = 0x400;
    fill_v0_to_vx_starting_at_address_i(&mut cpu, op(0xF265));
    assert_eq!(&cpu.registers[0..4], &[5, 6, 7, 42]);
    assert_eq!(cpu.index, 0x400);
}

#[test]
fn register_block_with_x_zero_moves_one_register() {
    let mut cpu = Chip8::new();
    cpu.registers[0] = 0x11;
    cpu.registers[1] = 0x22;
    cpu.index = 0xFFE;
    assert!(can_execute(&cpu, Instruction::StoreV0ToVxStartingAtAddressI, op(0xF055)));
    assert!(!can_execute(&cpu, Instruction::StoreV0ToVxStartingAtAddressI, op(0xF155)));
    store_v0_to_vx_starting_at_address_i(&mut cpu, op(0xF055));
    assert_eq!(cpu.memory[0xFFE], 0x11);
    assert_eq!(cpu.memory[0xFFD], 0);
}

#[test]
fn register_block_with_x_fifteen_moves_all_registers() {
    let mut cpu = Chip8::new();
    for r in 0..16 {
        cpu.registers[r] = 100 + r as u8;
    }
    cpu.index = 0x500;
    store_v0_to_vx_starting_at_address_i(&mut cpu, op(0xFF55));
    for r in 0..16 {
        assert_eq!(cpu.memory[0x500 + r], 100 + r as u8);
    }
    assert_eq!(cpu.memory[0x510], 0);
    cpu.registers = [0; 16];
    fill_v0_to_vx_starting_at_address_i(&mut cpu, op(0xFF65));
    for r in 0..16 {
        assert_eq!(cpu.registers[r], 100 + r as u8);
    }
}

#[test]
fn bcd_unpacks_hundreds_tens_units() {
    let mut cpu = Chip8::new();
    cpu.registers[6] = 205;
    cpu.index = 0x300;
    store_binary_coded_decimal_representation_of_vx(&mut cpu, op(0xF633));
    assert_eq!(&cpu.memory[0x300..0x303], &[2, 0, 5]);
    assert_eq!(cpu.memory[0x2FF], 0);
    assert_eq!(cpu.memory[0x303], 0);
}

#[test]
fn bcd_digits_give_back_every_value() {
    let mut cpu = Chip8::new();
    cpu.index = 0x300;
    for value in 0..=255u8 {
        cpu.registers[0] = value;
        store_binary_coded_decimal_representation_of_vx(&mut cpu, op(0xF033));
        let (h, t, u) = (cpu.memory[0x300], cpu.memory[0x301], cpu.memory[0x302]);
        assert!(h < 10 && t < 10 && u < 10);
        assert_eq!(100 * h as u16 + 10 * t as u16 + u as u16, value as u16);
    }
}

#[test]
fn bcd_is_refused_when_three_bytes_do_not_fit() {
    let mut cpu = Chip8::new();
    let instruction = Instruction::StoreBinaryCodedDecimalRepresentationOfVx;
    cpu.index = 0xFFC;
    assert!(can_execute(&cpu, instruction, op(0xF033)));
    cpu.index = 0xFFD;
    assert!(!can_execute(&cpu, instruction, op(0xF033)));
}

#[test]
fn random_byte_is_masked_by_the_immediate() {
    let mut cpu = Chip8::new();
    for _ in 0..200 {
        cpu.registers[5] = 0xFF;
        bitwise_on_a_random_number_and_store(&mut cpu, op(0xC50F));
        assert_eq!(cpu.registers[5] & 0xF0, 0);
    }
    cpu.registers[5] = 0xFF;
    bitwise_on_a_random_number_and_store(&mut cpu, op(0xC500));
    assert_eq!(cpu.registers[5], 0);
}

#[test]
fn random_instruction_through_a_step_is_masked() {
    let mut cpu = machine_with_program(&[0xC1F0]);
    cpu.registers[1] = 0x0F;
    step(&mut cpu);
    assert_eq!(cpu.registers[1] & 0x0F, 0);
    assert_eq!(cpu.pc, 0x202);
}

#[test]
fn given_byte_is_masked_by_the_immediate() {
    let mut cpu = Chip8::new();
    bitwise_on_a_number_and_store(&mut cpu, op(0xC33C), 0b1010_1010);
    assert_eq!(cpu.registers[3], 0b0010_1000);
    execute_with(&mut cpu, Instruction::BitwiseOnARandomNumberAndStore, op(0xC4FF), 0x5A);
    assert_eq!(cpu.registers[4], 0x5A);
}

#[test]
fn try_run_steps_where_defined_and_leaves_the_machine_where_not() {
    let mut cpu = machine_with_program(&[0x6122, 0x00EE]);
    assert!(cpu.try_run());
    assert_eq!(cpu.registers[1], 0x22);
    assert_eq!(cpu.pc, 0x202);
    let registers = cpu.registers;
    let stack = cpu.stack;
    assert!(!cpu.try_run());
    assert_eq!(cpu.pc, 0x202);
    assert_eq!(cpu.sp, 0);
    assert_eq!(cpu.registers, registers);
    assert_eq!(cpu.stack, stack);
}

#[test]
fn a_short_program_runs_step_by_step() {
    let mut cpu = machine_with_program(&[
        0x60C8, // V0 = 200
        0x6164, // V1 = 100
        0x8014, // V0 += V1, carry
        0x3F01, // skip if VF == 1
        0x1200, // (skipped)
        0xA300, // I = 0x300
        0xF033, // digits of V0 at I
        0xF265, // V0..V2 = memory at I
    ]);
    for _ in 0..7 {
        step(&mut cpu);
    }
    assert_eq!(cpu.pc, 0x210);
    assert_eq!(cpu.registers[0xF], 1);
    assert_eq!(&cpu.memory[0x300..0x303], &[0, 4, 4]);
    assert_eq!(&cpu.registers[0..3], &[0, 4, 4]);
    assert_eq!(cpu.index, 0x300);
}
