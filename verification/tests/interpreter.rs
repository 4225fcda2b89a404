use chirp8::chip::{Chip, SoundAction};
use chirp8::instruction::{decode, Instruction};
use chirp8::keyboard::{KeyCode, KeyboardInput};
use chirp8::machine::{Fault, State};
use chirp8::memory::{RomError, MAX_ROM_SIZE};

/// A machine with `program` loaded at 0x200.
fn chip_with(program: &[u16]) -> Chip {
    let mut rom = Vec::new();
    for word in program {
        rom.push((word >> 8) as u8);
        rom.push((word & 0xFF) as u8);
    }
    let mut chip = Chip::new();
    assert_eq!(chip.load_rom(&rom), Ok(()));
    chip
}

/// Fetches and executes `count` instructions, each in a draw slot.
fn run(chip: &mut Chip, count: usize) {
    for _ in 0..count {
        let word = chip.fetch_instruction();
        chip.execute_instruction(word, true);
    }
}

fn lit_count(chip: &Chip) -> u32 {
    chip.display_snapshot().iter().map(|column| column.count_ones()).sum()
}

#[test]
fn new_machine_is_at_rest() {
    let chip = Chip::new();
    assert_eq!(chip.registers().pc(), 0x200);
    assert_eq!(chip.registers().i(), 0);
    assert_eq!(chip.registers().stack_depth(), 0);
    for x in 0..16 {
        assert_eq!(chip.register(x), 0);
    }
    assert_eq!(chip.timers().delay(), 0);
    assert_eq!(chip.timers().sound(), 0);
    assert_eq!(chip.memory().read(0), 0xF0);
    assert_eq!(chip.memory().read(0x200), 0);
    assert_eq!(chip.display_snapshot(), [0u32; 64]);
    assert!(!chip.paused());
    assert!(!chip.is_paused());
    assert_eq!(chip.state(), State::Running);
    assert_eq!(chip.last_fault(), None);
    assert!(!chip.is_sound_active());
    assert_eq!(chip.keyboard().find_pressed_key(), None);
}

#[test]
fn load_rom_puts_the_program_at_0x200() {
    let chip = chip_with(&[0x00E0, 0x1200]);
    assert_eq!(chip.memory().read(0x200), 0x00);
    assert_eq!(chip.memory().read(0x201), 0xE0);
    assert_eq!(chip.memory().read(0x202), 0x12);
    assert_eq!(chip.memory().read(0x203), 0x00);
    assert_eq!(chip.registers().pc(), 0x200);
}

#[test]
fn load_rom_refuses_what_does_not_fit() {
    let mut chip = Chip::new();
    let rom = vec![0xFF; MAX_ROM_SIZE + 1];
    assert_eq!(chip.load_rom(&rom), Err(RomError::RomTooLarge));
    assert_eq!(chip.memory().read(0x200), 0);
    assert_eq!(chip.memory().read(0xFFF), 0);
    let rom = vec![0xFF; MAX_ROM_SIZE];
    assert_eq!(chip.load_rom(&rom), Ok(()));
    assert_eq!(chip.memory().read(0xFFF), 0xFF);
}

#[test]
fn fetch_reads_high_byte_first_and_advances() {
    let mut chip = chip_with(&[0x6A12, 0x7B34]);
    assert_eq!(chip.fetch_instruction(), 0x6A12);
    assert_eq!(chip.registers().pc(), 0x202);
    assert_eq!(chip.fetch_instruction(), 0x7B34);
    assert_eq!(chip.registers().pc(), 0x204);
}

#[test]
fn ld_byte_sets_a_register() {
    let mut chip = chip_with(&[0x6A12, 0x6F34]);
    run(&mut chip, 2);
    assert_eq!(chip.register(0xA), 0x12);
    assert_eq!(chip.register(0xF), 0x34);
    assert_eq!(chip.register(0), 0);
    assert_eq!(chip.registers().pc(), 0x204);
}

#[test]
fn add_byte_wraps_and_leaves_the_flag() {
    // V3 = 0xF0; VF = 7; V3 += 0x20
    let mut chip = chip_with(&[0x63F0, 0x6F07, 0x7320]);
    run(&mut chip, 3);
    assert_eq!(chip.register(3), 0x10);
    assert_eq!(chip.register(0xF), 7);
}

#[test]
fn add_byte_without_overflow() {
    let mut chip = chip_with(&[0x6305, 0x7306]);
    run(&mut chip, 2);
    assert_eq!(chip.register(3), 11);
    assert_eq!(chip.register(0xF), 0);
}

#[test]
fn add_byte_for_every_pair_of_bytes() {
    for a in 0..=255u16 {
        for b in [0u16, 1, 2, 127, 128, 200, 254, 255] {
            let mut chip = chip_with(&[0x6500 | a, 0x6F55, 0x7500 | b]);
            run(&mut chip, 3);
            assert_eq!(chip.register(5) as u16, (a + b) % 256);
            assert_eq!(chip.register(0xF), 0x55);
        }
    }
}

#[test]
fn add_registers_sets_carry() {
    // V1 = 200, V2 = 100, V1 += V2
    let mut chip = chip_with(&[0x61C8, 0x6264, 0x8124]);
    run(&mut chip, 3);
    assert_eq!(chip.register(1), 44);
    assert_eq!(chip.register(2), 100);
    assert_eq!(chip.register(0xF), 1);
}

#[test]
fn add_registers_clears_carry() {
    let mut chip = chip_with(&[0x6F09, 0x6164, 0x6264, 0x8124]);
    run(&mut chip, 4);
    assert_eq!(chip.register(1), 200);
    assert_eq!(chip.register(0xF), 0);
}

#[test]
fn add_registers_carry_at_the_boundary() {
    // 255 + 0 = 255: no carry. 255 + 1 = 256: carry.
    let mut chip = chip_with(&[0x61FF, 0x6200, 0x8124, 0x6201, 0x8124]);
    run(&mut chip, 3);
    assert_eq!(chip.register(1), 255);
    assert_eq!(chip.register(0xF), 0);
    run(&mut chip, 2);
    assert_eq!(chip.register(1), 0);
    assert_eq!(chip.register(0xF), 1);
}

#[test]
fn add_into_the_flag_register_keeps_the_flag() {
    // VF = 200, V1 = 100, VF += V1: VF holds the carry, not the sum
    let mut chip = chip_with(&[0x6FC8, 0x6164, 0x8F14]);
    run(&mut chip, 3);
    assert_eq!(chip.register(0xF), 1);
}

#[test]
fn or_and_xor_clear_the_flag() {
    let mut chip = chip_with(&[
        0x610C, 0x620A, 0x6FFF, 0x8121, // V1 = 0xC | 0xA
        0x630C, 0x6FFF, 0x8322, // V3 = 0xC & 0xA
        0x640C, 0x6FFF, 0x8423, // V4 = 0xC ^ 0xA
    ]);
    run(&mut chip, 4);
    assert_eq!(chip.register(1), 0x0E);
    assert_eq!(chip.register(0xF), 0);
    run(&mut chip, 3);
    assert_eq!(chip.register(3), 0x08);
    assert_eq!(chip.register(0xF), 0);
    run(&mut chip, 3);
    assert_eq!(chip.register(4), 0x06);
    assert_eq!(chip.register(0xF), 0);
}

#[test]
fn logic_on_the_flag_register_leaves_zero() {
    let mut chip = chip_with(&[0x6FFF, 0x61FF, 0x8F11, 0x6FFF, 0x8F12, 0x6F0F, 0x8F13]);
    run(&mut chip, 3);
    assert_eq!(chip.register(0xF), 0);
    run(&mut chip, 2);
    assert_eq!(chip.register(0xF), 0);
    run(&mut chip, 2);
    assert_eq!(chip.register(0xF), 0);
}

#[test]
fn ld_reg_copies() {
    let mut chip = chip_with(&[0x6277, 0x8120]);
    run(&mut chip, 2);
    assert_eq!(chip.register(1), 0x77);
    assert_eq!(chip.register(2), 0x77);
}

#[test]
fn sub_sets_not_borrow() {
    // 10 - 3 = 7, no borrow; 3 - 10 wraps to 249, borrow; 5 - 5 = 0, no borrow
    let mut chip = chip_with(&[0x610A, 0x6203, 0x8125, 0x6303, 0x640A, 0x8345, 0x6505, 0x8555]);
    run(&mut chip, 3);
    assert_eq!(chip.register(1), 7);
    assert_eq!(chip.register(0xF), 1);
    run(&mut chip, 3);
    assert_eq!(chip.register(3), 249);
    assert_eq!(chip.register(0xF), 0);
    run(&mut chip, 2);
    assert_eq!(chip.register(5), 0);
    assert_eq!(chip.register(0xF), 1);
}

#[test]
fn subn_subtracts_the_other_way() {
    // V1 = 3, V2 = 10: V1 = V2 - V1 = 7, VF = 1; V3 = 10, V4 = 3: V3 = V4 - V3 = 249, VF = 0
    let mut chip = chip_with(&[0x6103, 0x620A, 0x8127, 0x630A, 0x6403, 0x8347]);
    run(&mut chip, 3);
    assert_eq!(chip.register(1), 7);
    assert_eq!(chip.register(0xF), 1);
    run(&mut chip, 3);
    assert_eq!(chip.register(3), 249);
    assert_eq!(chip.register(0xF), 0);
}

#[test]
fn shr_shifts_vy_into_vx() {
    // V2 = 0b0000_0101: V1 = 0b10, VF = 1; V2 = 0b100: V1 = 0b10, VF = 0
    let mut chip = chip_with(&[0x6205, 0x8126, 0x6204, 0x8126]);
    run(&mut chip, 2);
    assert_eq!(chip.register(1), 2);
    assert_eq!(chip.register(2), 5);
    assert_eq!(chip.register(0xF), 1);
    run(&mut chip, 2);
    assert_eq!(chip.register(1), 2);
    assert_eq!(chip.register(0xF), 0);
}

#[test]
fn shl_shifts_vy_into_vx() {
    // V2 = 0x81: V1 = 0x02, VF = 1; V2 = 0x41: V1 = 0x82, VF = 0
    let mut chip = chip_with(&[0x6281, 0x812E, 0x6241, 0x812E]);
    run(&mut chip, 2);
    assert_eq!(chip.register(1), 0x02);
    assert_eq!(chip.register(2), 0x81);
    assert_eq!(chip.register(0xF), 1);
    run(&mut chip, 2);
    assert_eq!(chip.register(1), 0x82);
    assert_eq!(chip.register(0xF), 0);
}

#[test]
fn skips_on_byte_comparison() {
    // V1 = 5. SE V1, 5 skips; SE V1, 6 does not; SNE V1, 6 skips; SNE V1, 5 does not.
    let mut chip = chip_with(&[0x6105, 0x3105, 0x0000, 0x3106, 0x4106, 0x0000, 0x4105]);
    run(&mut chip, 2);
    assert_eq!(chip.registers().pc(), 0x206);
    run(&mut chip, 1);
    assert_eq!(chip.registers().pc(), 0x208);
    run(&mut chip, 1);
    assert_eq!(chip.registers().pc(), 0x20C);
    run(&mut chip, 1);
    assert_eq!(chip.registers().pc(), 0x20E);
    assert_eq!(chip.last_fault(), None);
}

#[test]
fn skips_on_register_comparison() {
    // V1 = V2 = 5, V3 = 6
    let mut chip = chip_with(&[
        0x6105, 0x6205, 0x6306, 0x5120, 0x0000, 0x5130, 0x9130, 0x0000, 0x9120,
    ]);
    run(&mut chip, 4);
    assert_eq!(chip.registers().pc(), 0x20A);
    run(&mut chip, 1);
    assert_eq!(chip.registers().pc(), 0x20C);
    run(&mut chip, 1);
    assert_eq!(chip.registers().pc(), 0x210);
    run(&mut chip, 1);
    assert_eq!(chip.registers().pc(), 0x212);
    assert_eq!(chip.last_fault(), None);
}

#[test]
fn jump_sets_the_program_counter() {
    let mut chip = chip_with(&[0x1ABC]);
    run(&mut chip, 1);
    assert_eq!(chip.registers().pc(), 0xABC);
    assert!(!chip.paused());
}

#[test]
fn jump_with_offset_adds_v0() {
    let mut chip = chip_with(&[0x6010, 0xB300]);
    run(&mut chip, 2);
    assert_eq!(chip.registers().pc(), 0x310);
    let mut chip = chip_with(&[0x60FF, 0xBFFF]);
    run(&mut chip, 2);
    assert_eq!(chip.registers().pc(), 0x10FE);
}

#[test]
fn call_and_return() {
    // 0x200: CALL 0x206; 0x202: LD V1, 1; 0x206: LD V2, 2; 0x208: RET
    let mut chip = chip_with(&[0x2206, 0x6101, 0x0000, 0x6202, 0x00EE]);
    run(&mut chip, 1);
    assert_eq!(chip.registers().pc(), 0x206);
    assert_eq!(chip.registers().stack_depth(), 1);
    run(&mut chip, 2);
    assert_eq!(chip.registers().pc(), 0x202);
    assert_eq!(chip.registers().stack_depth(), 0);
    run(&mut chip, 1);
    assert_eq!(chip.register(1), 1);
    assert_eq!(chip.register(2), 2);
    assert_eq!(chip.last_fault(), None);
}

#[test]
fn return_with_an_empty_stack_is_a_fault() {
    let mut chip = chip_with(&[0x00EE, 0x6101]);
    run(&mut chip, 1);
    assert_eq!(chip.last_fault(), Some(Fault::StackUnderflow));
    assert_eq!(chip.registers().pc(), 0x202);
    assert_eq!(chip.registers().stack_depth(), 0);
    assert!(!chip.paused());
    run(&mut chip, 1);
    assert_eq!(chip.register(1), 1);
}

#[test]
fn seventeenth_nested_call_is_a_fault() {
    // 0x200: CALL 0x200, again and again
    let mut chip = chip_with(&[0x2200]);
    run(&mut chip, 16);
    assert_eq!(chip.registers().stack_depth(), 16);
    assert_eq!(chip.last_fault(), None);
    assert_eq!(chip.registers().pc(), 0x200);
    run(&mut chip, 1);
    assert_eq!(chip.last_fault(), Some(Fault::StackOverflow));
    assert_eq!(chip.registers().stack_depth(), 16);
    assert_eq!(chip.registers().pc(), 0x202);
}

#[test]
fn invalid_word_is_a_fault_and_execution_goes_on() {
    let mut chip = chip_with(&[0x6105, 0xF1FF, 0x6207]);
    run(&mut chip, 2);
    assert_eq!(chip.last_fault(), Some(Fault::InvalidOpcode { instruction: 0xF1FF }));
    assert_eq!(chip.registers().pc(), 0x204);
    assert_eq!(chip.register(1), 5);
    assert!(!chip.paused());
    run(&mut chip, 1);
    assert_eq!(chip.register(2), 7);
    assert_eq!(chip.last_fault(), Some(Fault::InvalidOpcode { instruction: 0xF1FF }));
    chip.clear_fault();
    assert_eq!(chip.last_fault(), None);
}

#[test]
fn index_register_instructions() {
    // I = 0x123; V1 = 0x10; I += V1; V2 = 0xA; I = font sprite for V2
    let mut chip = chip_with(&[0xA123, 0x6110, 0xF11E, 0x620A, 0xF229]);
    run(&mut chip, 1);
    assert_eq!(chip.registers().i(), 0x123);
    run(&mut chip, 2);
    assert_eq!(chip.registers().i(), 0x133);
    run(&mut chip, 2);
    assert_eq!(chip.registers().i(), 50);
    assert_eq!(chip.memory().read(50), 0xF0);
}

#[test]
fn add_to_index_wraps_at_sixteen_bits() {
    // I = 0xFFF, then add 0xFF sixteen times and a bit
    let mut program = vec![0xAFFF, 0x61FF];
    for _ in 0..241 {
        program.push(0xF11E);
    }
    let mut chip = chip_with(&program);
    run(&mut chip, 2 + 240);
    // 0xFFF + 240 * 255 = 65295
    assert_eq!(chip.registers().i(), 65295);
    run(&mut chip, 1);
    // 65295 + 255 = 65550 = 65536 + 14
    assert_eq!(chip.registers().i(), 14);
}

#[test]
fn random_is_masked() {
    let mut program = Vec::new();
    for _ in 0..64 {
        program.push(0xC10F);
        program.push(0xC2F0);
        program.push(0xC300);
    }
    let mut chip = chip_with(&program);
    for _ in 0..64 {
        run(&mut chip, 3);
        assert_eq!(chip.register(1) & 0xF0, 0);
        assert_eq!(chip.register(2) & 0x0F, 0);
        assert_eq!(chip.register(3), 0);
    }
    assert_eq!(chip.register(0xF), 0);
}

#[test]
fn timer_instructions() {
    // V1 = 9; DT = V1; ST = V1; V2 = DT
    let mut chip = chip_with(&[0x6109, 0xF115, 0xF118, 0xF207]);
    run(&mut chip, 4);
    assert_eq!(chip.timers().delay(), 9);
    assert_eq!(chip.timers().sound(), 9);
    assert_eq!(chip.register(2), 9);
    assert!(chip.is_sound_active());
}

#[test]
fn bcd_of_234() {
    // V1 = 234; I = 0x300; BCD
    let mut chip = chip_with(&[0x61EA, 0xA300, 0xF133]);
    run(&mut chip, 3);
    assert_eq!(chip.memory().read(0x300), 2);
    assert_eq!(chip.memory().read(0x301), 3);
    assert_eq!(chip.memory().read(0x302), 4);
    assert_eq!(chip.memory().read(0x303), 0);
    assert_eq!(chip.registers().i(), 0x300);
}

#[test]
fn bcd_of_small_and_large_values() {
    let mut chip = chip_with(&[0x6107, 0xA300, 0xF133, 0x61FF, 0xF133, 0x6100, 0xF133]);
    run(&mut chip, 3);
    assert_eq!(chip.memory().read(0x300), 0);
    assert_eq!(chip.memory().read(0x301), 0);
    assert_eq!(chip.memory().read(0x302), 7);
    run(&mut chip, 2);
    assert_eq!(chip.memory().read(0x300), 2);
    assert_eq!(chip.memory().read(0x301), 5);
    assert_eq!(chip.memory().read(0x302), 5);
    run(&mut chip, 2);
    assert_eq!(chip.memory().read(0x300), 0);
    assert_eq!(chip.memory().read(0x301), 0);
    assert_eq!(chip.memory().read(0x302), 0);
}

#[test]
fn bcd_wraps_around_the_end_of_memory() {
    // I = 0xFFF; V1 = 123
    let mut chip = chip_with(&[0x617B, 0xAFFF, 0xF133]);
    run(&mut chip, 3);
    assert_eq!(chip.memory().read(0xFFF), 1);
    assert_eq!(chip.memory().read(0x000), 2);
    assert_eq!(chip.memory().read(0x001), 3);
}

#[test]
fn store_registers_moves_the_index() {
    // V0 = 1, V1 = 2, V2 = 3, V3 = 4; I = 0x300; store V0..=V2
    let mut chip = chip_with(&[0x6001, 0x6102, 0x6203, 0x6304, 0xA300, 0xF255]);
    run(&mut chip, 6);
    assert_eq!(chip.memory().read(0x300), 1);
    assert_eq!(chip.memory().read(0x301), 2);
    assert_eq!(chip.memory().read(0x302), 3);
    assert_eq!(chip.memory().read(0x303), 0);
    assert_eq!(chip.registers().i(), 0x303);
}

#[test]
fn load_registers_moves_the_index() {
    // I = 0x000: the font. Load V0..=V3.
    let mut chip = chip_with(&[0x6455, 0xA000, 0xF365]);
    run(&mut chip, 3);
    assert_eq!(chip.register(0), 0xF0);
    assert_eq!(chip.register(1), 0x90);
    assert_eq!(chip.register(2), 0x90);
    assert_eq!(chip.register(3), 0x90);
    assert_eq!(chip.register(4), 0x55);
    assert_eq!(chip.registers().i(), 4);
}

#[test]
fn store_and_load_of_one_register_move_the_index_by_one() {
    let mut chip = chip_with(&[0x6011, 0xA400, 0xF055, 0xF065]);
    run(&mut chip, 3);
    assert_eq!(chip.registers().i(), 0x401);
    assert_eq!(chip.memory().read(0x400), 0x11);
    run(&mut chip, 1);
    assert_eq!(chip.registers().i(), 0x402);
    assert_eq!(chip.register(0), 0);
}

#[test]
fn store_and_load_of_all_registers_move_the_index_by_sixteen() {
    let mut chip = chip_with(&[0x6A0A, 0x6F0F, 0xA500, 0xFF55, 0xA500, 0x6A00, 0x6F00, 0xFF65]);
    run(&mut chip, 4);
    assert_eq!(chip.registers().i(), 0x510);
    assert_eq!(chip.memory().read(0x50A), 0x0A);
    assert_eq!(chip.memory().read(0x50F), 0x0F);
    run(&mut chip, 4);
    assert_eq!(chip.registers().i(), 0x510);
    assert_eq!(chip.register(0xA), 0x0A);
    assert_eq!(chip.register(0xF), 0x0F);
}

#[test]
fn store_registers_wraps_around_the_end_of_memory() {
    let mut chip = chip_with(&[0x6001, 0x6102, 0xAFFF, 0xF155]);
    run(&mut chip, 4);
    assert_eq!(chip.memory().read(0xFFF), 1);
    assert_eq!(chip.memory().read(0x000), 2);
    assert_eq!(chip.registers().i(), 0x1001);
}

#[test]
fn index_can_be_told_to_stay() {
    let mut chip = chip_with(&[0x6001, 0x6102, 0xA300, 0xF155, 0xF165]);
    chip.set_index_increment(false);
    run(&mut chip, 4);
    assert_eq!(chip.registers().i(), 0x300);
    assert_eq!(chip.memory().read(0x300), 1);
    assert_eq!(chip.memory().read(0x301), 2);
    run(&mut chip, 1);
    assert_eq!(chip.registers().i(), 0x300);
    assert_eq!(chip.register(0), 1);
    assert_eq!(chip.register(1), 2);
}

#[test]
fn draw_in_the_draw_slot() {
    // I = font sprite 0; V1 = 2; V2 = 3; draw 5 rows at (V1, V2)
    let mut chip = chip_with(&[0xA000, 0x6102, 0x6203, 0x6F09, 0xD125, 0xD125]);
    run(&mut chip, 5);
    assert_eq!(lit_count(&chip), 14);
    assert!(chip.display().is_lit(2, 3));
    assert!(chip.display().is_lit(5, 3));
    assert!(!chip.display().is_lit(6, 3));
    assert!(chip.display().is_lit(2, 4));
    assert!(!chip.display().is_lit(3, 4));
    assert!(chip.display().is_lit(5, 7));
    assert_eq!(chip.register(0xF), 0);
    assert_eq!(chip.registers().pc(), 0x20A);
    run(&mut chip, 1);
    assert_eq!(lit_count(&chip), 0);
    assert_eq!(chip.register(0xF), 1);
}

#[test]
fn draw_wraps_around_the_edges() {
    // sprite 0xC0 at 0x300; V1 = 63; V2 = 0
    let mut chip = chip_with(&[0x60C0, 0xA300, 0xF055, 0xA300, 0x613F, 0x6200, 0xD121]);
    run(&mut chip, 7);
    assert!(chip.display().is_lit(63, 0));
    assert!(chip.display().is_lit(0, 0));
    assert_eq!(lit_count(&chip), 2);
    assert_eq!(chip.register(0xF), 0);
}

#[test]
fn draw_reads_its_sprite_around_the_end_of_memory() {
    // memory[0xFFF] = 0x80, memory[0x000] = 0xF0 (font); I = 0xFFF; 2 rows at (0, 0)
    let mut chip = chip_with(&[0x6080, 0xAFFF, 0xF055, 0xAFFF, 0x6000, 0xD002]);
    run(&mut chip, 6);
    assert!(chip.display().is_lit(0, 0));
    assert!(!chip.display().is_lit(1, 0));
    assert!(chip.display().is_lit(0, 1));
    assert!(chip.display().is_lit(3, 1));
    assert_eq!(lit_count(&chip), 5);
}

#[test]
fn draw_outside_the_draw_slot_waits() {
    let mut chip = chip_with(&[0xA000, 0xD005]);
    run(&mut chip, 1);
    let word = chip.fetch_instruction();
    chip.execute_instruction(word, false);
    assert_eq!(chip.registers().pc(), 0x202);
    assert_eq!(lit_count(&chip), 0);
    let word = chip.fetch_instruction();
    assert_eq!(word, 0xD005);
    chip.execute_instruction(word, true);
    assert_eq!(chip.registers().pc(), 0x204);
    assert_eq!(lit_count(&chip), 14);
}

#[test]
fn cycle_draws_once_at_most() {
    // two draws of the same sprite at the same place: the second waits for the next cycle
    let mut chip = chip_with(&[0xD005, 0xD005, 0x6101]);
    chip.cpu_cycle();
    assert_eq!(lit_count(&chip), 14);
    assert_eq!(chip.registers().pc(), 0x202);
    assert_eq!(chip.register(1), 0);
    chip.cpu_cycle();
    assert_eq!(lit_count(&chip), 0);
    assert_eq!(chip.register(0xF), 1);
    assert_eq!(chip.register(1), 1);
}

#[test]
fn cycle_defers_a_draw_that_is_not_first() {
    let mut chip = chip_with(&[0x6105, 0xD005, 0x6207]);
    chip.cpu_cycle();
    assert_eq!(chip.register(1), 5);
    assert_eq!(lit_count(&chip), 0);
    assert_eq!(chip.registers().pc(), 0x202);
    assert_eq!(chip.register(2), 0);
    chip.cpu_cycle();
    assert_eq!(lit_count(&chip), 14);
    assert_eq!(chip.register(2), 7);
}

#[test]
fn cycle_runs_ten_instructions() {
    let mut program = Vec::new();
    for _ in 0..25 {
        program.push(0x7101);
    }
    let mut chip = chip_with(&program);
    chip.cpu_cycle();
    assert_eq!(chip.register(1), 10);
    assert_eq!(chip.registers().pc(), 0x200 + 20);
    chip.cpu_cycle();
    assert_eq!(chip.register(1), 20);
}

#[test]
fn cycle_ticks_the_timers_once() {
    // V1 = 5; DT = V1; ST = V1; then jump over and over between two places
    let mut chip = chip_with(&[0x6105, 0xF115, 0xF118, 0x1208, 0x1206]);
    chip.cpu_cycle();
    assert_eq!(chip.timers().delay(), 4);
    assert_eq!(chip.timers().sound(), 4);
    assert!(!chip.paused());
    chip.cpu_cycle();
    assert_eq!(chip.timers().delay(), 3);
    for _ in 0..3 {
        chip.cpu_cycle();
    }
    assert_eq!(chip.timers().delay(), 0);
    assert_eq!(chip.timers().sound(), 0);
    assert!(!chip.is_sound_active());
    chip.cpu_cycle();
    assert_eq!(chip.timers().delay(), 0);
}

#[test]
fn self_jump_pauses() {
    let mut chip = chip_with(&[0x6105, 0x1202, 0x6207]);
    run(&mut chip, 2);
    assert!(chip.paused());
    assert_eq!(chip.state(), State::Paused);
    assert_eq!(chip.registers().pc(), 0x202);
    assert_eq!(chip.register(1), 5);
}

#[test]
fn jump_elsewhere_does_not_pause() {
    let mut chip = chip_with(&[0x1204, 0x0000, 0x1200]);
    run(&mut chip, 2);
    assert!(!chip.paused());
    assert_eq!(chip.registers().pc(), 0x200);
}

#[test]
fn paused_cycle_changes_nothing() {
    // V1 = 9; DT = V1; ST = V1; halt
    let mut chip = chip_with(&[0x6109, 0xF115, 0xF118, 0x1206]);
    chip.process_key_event(3, true);
    chip.process_key_event(3, false);
    chip.cpu_cycle();
    assert!(chip.paused());
    let pc = chip.registers().pc();
    let delay = chip.timers().delay();
    let sound = chip.timers().sound();
    assert_eq!(pc, 0x206);
    assert_eq!(delay, 9);
    assert_eq!(sound, 9);
    for _ in 0..5 {
        chip.cpu_cycle();
        assert!(chip.paused());
        assert_eq!(chip.registers().pc(), pc);
        assert_eq!(chip.timers().delay(), delay);
        assert_eq!(chip.timers().sound(), sound);
        assert_eq!(chip.register(1), 9);
        assert_eq!(chip.registers().stack_depth(), 0);
        assert_eq!(chip.display_snapshot(), [0u32; 64]);
        assert_eq!(chip.last_fault(), None);
    }
    // the release is still there: the keypad did not tick either
    chip.set_paused(false);
    assert_eq!(chip.state(), State::Running);
}

#[test]
fn unpausing_lets_the_machine_run_again() {
    let mut chip = chip_with(&[0x6105, 0xF115, 0x1204]);
    chip.cpu_cycle();
    assert!(chip.paused());
    assert_eq!(chip.timers().delay(), 5);
    chip.set_paused(false);
    assert!(!chip.paused());
    chip.cpu_cycle();
    // it jumped to itself again, and is halted again before the tick
    assert!(chip.paused());
    assert_eq!(chip.timers().delay(), 5);
    assert_eq!(chip.registers().pc(), 0x204);
}

#[test]
fn host_can_pause_a_running_machine() {
    let mut chip = chip_with(&[0x7101, 0x1200]);
    chip.set_paused(true);
    assert!(chip.is_paused());
    chip.cpu_cycle();
    assert_eq!(chip.register(1), 0);
    assert_eq!(chip.registers().pc(), 0x200);
    chip.set_paused(false);
    chip.cpu_cycle();
    assert_eq!(chip.register(1), 5);
}

#[test]
fn cls_then_self_jump_clears_and_pauses() {
    // 0x200: CLS; 0x202: jump to 0x202
    let mut chip = chip_with(&[0x00E0, 0x1202]);
    chip.cpu_cycle();
    assert_eq!(chip.display_snapshot(), [0u32; 64]);
    assert!(chip.paused());
    assert_eq!(chip.state(), State::Paused);
    assert_eq!(chip.registers().pc(), 0x202);
}

#[test]
fn cls_then_jump_back_loops_without_pausing() {
    // 0x200: CLS; 0x202: jump to 0x200. The jump is not to itself.
    let mut chip = chip_with(&[0x00E0, 0x1200]);
    chip.cpu_cycle();
    assert_eq!(chip.display_snapshot(), [0u32; 64]);
    assert!(!chip.paused());
    assert_eq!(chip.registers().pc(), 0x200);
}

#[test]
fn cls_clears_a_drawn_screen() {
    let mut chip = chip_with(&[0xD005, 0x00E0]);
    run(&mut chip, 1);
    assert_eq!(lit_count(&chip), 14);
    run(&mut chip, 1);
    assert_eq!(lit_count(&chip), 0);
}

#[test]
fn self_jump_at_program_start_pauses() {
    let mut chip = chip_with(&[0x1200]);
    chip.cpu_cycle();
    assert!(chip.paused());
    assert_eq!(chip.registers().pc(), 0x200);
}

#[test]
fn key_skips() {
    // V1 = 7. SKP V1; SKNP V1
    let mut chip = chip_with(&[0x6107, 0xE19E, 0xE1A1, 0x0000, 0xE19E, 0x0000, 0xE1A1]);
    run(&mut chip, 2);
    assert_eq!(chip.registers().pc(), 0x204);
    run(&mut chip, 1);
    assert_eq!(chip.registers().pc(), 0x208);
    chip.process_key_event(7, true);
    run(&mut chip, 1);
    assert_eq!(chip.registers().pc(), 0x20C);
    run(&mut chip, 1);
    assert_eq!(chip.registers().pc(), 0x20E);
}

#[test]
fn key_skips_with_a_value_that_is_no_key() {
    // V1 = 0x20: no such key, so it is never down
    let mut chip = chip_with(&[0x6120, 0xE19E, 0xE1A1]);
    chip.process_key_event(0, true);
    run(&mut chip, 2);
    assert_eq!(chip.registers().pc(), 0x204);
    run(&mut chip, 1);
    assert_eq!(chip.registers().pc(), 0x208);
}

#[test]
fn key_wait_keeps_the_program_counter() {
    let mut chip = chip_with(&[0xF30A, 0x6105]);
    for _ in 0..4 {
        chip.cpu_cycle();
        assert_eq!(chip.registers().pc(), 0x200);
        assert_eq!(chip.state(), State::WaitingForKey);
        assert_eq!(chip.register(1), 0);
        assert_eq!(chip.register(3), 0);
    }
}

#[test]
fn key_wait_is_not_ended_by_a_press() {
    let mut chip = chip_with(&[0xF30A, 0x6105]);
    chip.cpu_cycle();
    chip.process_key_event(0xB, true);
    chip.cpu_cycle();
    assert_eq!(chip.registers().pc(), 0x200);
    assert_eq!(chip.state(), State::WaitingForKey);
}

#[test]
fn key_wait_ends_with_a_release() {
    let mut chip = chip_with(&[0xF30A, 0x6105, 0x1204]);
    chip.cpu_cycle();
    chip.process_key_event(0xB, true);
    chip.cpu_cycle();
    chip.cpu_cycle();
    assert_eq!(chip.registers().pc(), 0x200);
    chip.process_key_event(0xB, false);
    let word = chip.fetch_instruction();
    chip.execute_instruction(word, true);
    assert_eq!(chip.register(3), 0xB);
    assert_eq!(chip.registers().pc(), 0x202);
    assert_eq!(chip.state(), State::Running);
    chip.cpu_cycle();
    assert_eq!(chip.register(1), 5);
    assert_eq!(chip.register(3), 0xB);
    assert!(chip.paused());
}

#[test]
fn key_wait_ends_within_a_cycle() {
    let mut chip = chip_with(&[0xF30A, 0x6105, 0x1204]);
    chip.cpu_cycle();
    chip.process_key_event(2, true);
    chip.process_key_event(2, false);
    chip.cpu_cycle();
    assert_eq!(chip.register(3), 2);
    assert_eq!(chip.register(1), 5);
    assert_eq!(chip.registers().pc(), 0x204);
}

#[test]
fn release_before_the_wait_is_forgotten_at_the_tick() {
    // the release happens a cycle before the wait instruction runs
    let mut program = vec![0x7101; 10];
    program.push(0xF30A);
    let mut chip = chip_with(&program);
    chip.process_key_event(2, true);
    chip.process_key_event(2, false);
    chip.cpu_cycle();
    assert_eq!(chip.register(1), 10);
    chip.cpu_cycle();
    assert_eq!(chip.registers().pc(), 0x214);
    assert_eq!(chip.state(), State::WaitingForKey);
}

#[test]
fn host_keyboard_events_reach_the_keypad() {
    let mut chip = chip_with(&[0xF30A]);
    chip.process_input(KeyboardInput { virtual_keycode: Some(KeyCode::Q), pressed: true });
    assert!(chip.keyboard().is_pressed(4));
    chip.process_input(KeyboardInput { virtual_keycode: Some(KeyCode::Other), pressed: true });
    chip.process_input(KeyboardInput { virtual_keycode: None, pressed: true });
    assert_eq!(chip.keyboard().find_pressed_key(), Some(4));
    chip.process_input(KeyboardInput { virtual_keycode: Some(KeyCode::Q), pressed: false });
    assert!(!chip.keyboard().is_pressed(4));
    run(&mut chip, 1);
    assert_eq!(chip.register(3), 4);
}

#[test]
fn key_events_out_of_range_are_ignored() {
    let mut chip = Chip::new();
    chip.process_key_event(16, true);
    chip.process_key_event(200, true);
    assert_eq!(chip.keyboard().find_pressed_key(), None);
}

#[test]
fn sound_follows_the_sound_timer() {
    let mut chip = chip_with(&[0x6102, 0xF118, 0x1204, 0x1204]);
    assert!(!chip.is_sound_active());
    assert_eq!(chip.sound_action(false), SoundAction::Keep);
    assert_eq!(chip.sound_action(true), SoundAction::Stop);
    run(&mut chip, 2);
    assert!(chip.is_sound_active());
    assert_eq!(chip.sound_action(false), SoundAction::Start);
    assert_eq!(chip.sound_action(true), SoundAction::Keep);
}

#[test]
fn program_counter_wraps_memory_on_fetch() {
    // jump to 0xFFF: the word there is memory[0xFFF], memory[0x000]
    let mut chip = chip_with(&[0x6061, 0xAFFF, 0xF055, 0x1FFF]);
    run(&mut chip, 4);
    assert_eq!(chip.registers().pc(), 0xFFF);
    let word = chip.fetch_instruction();
    // memory[0xFFF] = 0x61, memory[0] = 0xF0
    assert_eq!(word, 0x61F0);
    assert_eq!(chip.registers().pc(), 0x1001);
}

#[test]
fn random_instruction_masks_the_byte_it_is_given() {
    let mut chip = Chip::new();
    chip.execute_decoded(Instruction::Rnd { x: 1, byte: 0x0F }, true, 0xAB);
    assert_eq!(chip.register(1), 0x0B);
    chip.execute_decoded(Instruction::Rnd { x: 2, byte: 0xFF }, true, 0xAB);
    assert_eq!(chip.register(2), 0xAB);
    chip.execute_decoded(Instruction::Rnd { x: 3, byte: 0xF0 }, false, 0xFF);
    assert_eq!(chip.register(3), 0xF0);
    chip.execute_decoded(Instruction::Rnd { x: 1, byte: 0x00 }, true, 0xFF);
    assert_eq!(chip.register(1), 0);
    assert_eq!(chip.register(0xF), 0);
    assert_eq!(chip.registers().pc(), 0x200);
}

#[test]
fn other_instructions_ignore_the_random_byte() {
    let mut first = Chip::new();
    let mut second = Chip::new();
    for word in [0x6105u16, 0x7103, 0x8114, 0xA222, 0xF11E, 0xF133, 0xD005, 0x2300, 0x00EE] {
        first.execute_decoded(decode(word), true, 0x00);
        second.execute_decoded(decode(word), true, 0xFF);
    }
    for x in 0..16 {
        assert_eq!(first.register(x), second.register(x));
    }
    assert_eq!(first.registers().i(), second.registers().i());
    assert_eq!(first.registers().pc(), second.registers().pc());
    assert_eq!(first.display_snapshot(), second.display_snapshot());
    assert_eq!(first.memory().read(0x223), second.memory().read(0x223));
    assert_eq!(first.register(1), 16);
    assert_eq!(first.registers().i(), 0x222 + 16);
    assert_eq!(first.memory().read(0x232), 0);
    assert_eq!(first.memory().read(0x233), 1);
    assert_eq!(first.memory().read(0x234), 6);
}
