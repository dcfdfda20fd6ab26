use rusted_chip8::chip8::Chip8;
use rusted_chip8::display::Display;
use rusted_chip8::fault::Fault;
use rusted_chip8::instruction::{decode, Instruction};
use rusted_chip8::keypad::Keypad;
use rusted_chip8::stack::{Stack, STACK_SIZE};

const FONT: [u8; 80] = [
    0xF0, 0x90, 0x90, 0x90, 0xF0, 0x20, 0x60, 0x20, 0x20, 0x70, 0xF0, 0x10, 0xF0, 0x80, 0xF0,
    0xF0, 0x10, 0xF0, 0x10, 0xF0, 0x90, 0x90, 0xF0, 0x10, 0x10, 0xF0, 0x80, 0xF0, 0x10, 0xF0,
    0xF0, 0x80, 0xF0, 0x90, 0xF0, 0xF0, 0x10, 0x20, 0x40, 0x40, 0xF0, 0x90, 0xF0, 0x90, 0xF0,
    0xF0, 0x90, 0xF0, 0x10, 0xF0, 0xF0, 0x90, 0xF0, 0x90, 0x90, 0xE0, 0x90, 0xE0, 0x90, 0xE0,
    0xF0, 0x80, 0x80, 0x80, 0xF0, 0xE0, 0x90, 0x90, 0x90, 0xE0, 0xF0, 0x80, 0xF0, 0x80, 0xF0,
    0xF0, 0x80, 0xF0, 0x80, 0x80,
];

fn machine_with(program: &[u8]) -> Chip8 {
    let mut emu = Chip8::new();
    assert_eq!(emu.load(program.to_vec()), Ok(()));
    emu
}

#[test]
fn add_byte_wraps_without_touching_flag() {
    for x in 0..16usize {
        let mut emu = Chip8::new();
        emu.v[x] = 250;
        let before = emu.v;
        emu.opcode_adds_nn_to_vx(x, 10);
        assert_eq!(emu.v[x], 4);
        for k in 0..16usize {
            if k != x {
                assert_eq!(emu.v[k], before[k]);
            }
        }
    }
}

#[test]
fn add_registers_sets_carry() {
    for x in 0..15usize {
        for y in 0..16usize {
            if x == y {
                continue;
            }
            let mut emu = Chip8::new();
            emu.v[x] = 200;
            emu.v[y] = 100;
            emu.opcode_set_vx_to_vy(0x8004, x, y);
            assert_eq!(emu.v[x], 44);
            assert_eq!(emu.v[0xF], 1);

            let mut emu = Chip8::new();
            emu.v[x] = 10;
            emu.v[y] = 5;
            emu.opcode_set_vx_to_vy(0x8004, x, y);
            assert_eq!(emu.v[x], 15);
            assert_eq!(emu.v[0xF], 0);
        }
    }
}

#[test]
fn subtract_registers_sets_no_borrow_flag() {
    for x in 0..15usize {
        for y in 0..16usize {
            if x == y {
                continue;
            }
            let mut emu = Chip8::new();
            emu.v[x] = 5;
            emu.v[y] = 10;
            emu.opcode_set_vx_to_vy(0x8005, x, y);
            assert_eq!(emu.v[x], 251);
            assert_eq!(emu.v[0xF], 0);

            let mut emu = Chip8::new();
            emu.v[x] = 10;
            emu.v[y] = 5;
            emu.opcode_set_vx_to_vy(0x8005, x, y);
            assert_eq!(emu.v[x], 5);
            assert_eq!(emu.v[0xF], 1);
        }
    }
}

#[test]
fn flag_register_as_target_keeps_result() {
    let mut emu = Chip8::new();
    emu.v[0xF] = 200;
    emu.v[1] = 100;
    assert_eq!(emu.opcode_set_vx_to_vy(0x8F14, 0xF, 1), Ok(()));
    assert_eq!(emu.v[0xF], 44);
}

#[test]
fn drawing_digit_zero_twice_restores_screen() {
    let mut emu = Chip8::new();
    assert_eq!(emu.draw_sprite(2, 3, 0, 5), Ok(false));
    assert!(emu.display.is_on(2, 3));
    assert!(emu.display.is_on(5, 3));
    assert!(!emu.display.is_on(3, 4));
    assert!(emu.display.is_on(5, 7));
    assert_eq!(emu.draw_sprite(2, 3, 0, 5), Ok(true));
    assert!(emu.display.cells().iter().all(|c| !*c));
}

#[test]
fn draw_instruction_sets_collision_flag() {
    // A000: I = 0; D015: draw 5 rows at (V0, V1), twice.
    let mut emu = machine_with(&[0xA0, 0x00, 0xD0, 0x15, 0xD0, 0x15]);
    emu.v[0] = 10;
    emu.v[1] = 20;
    assert_eq!(emu.tick(), Ok(()));
    assert_eq!(emu.tick(), Ok(()));
    assert_eq!(emu.v[0xF], 0);
    assert!(emu.display.is_on(10, 20));
    assert_eq!(emu.tick(), Ok(()));
    assert_eq!(emu.v[0xF], 1);
    assert!(emu.display.cells().iter().all(|c| !*c));
}

#[test]
fn sprite_wraps_at_screen_edges() {
    let mut emu = Chip8::new();
    // Row 0 of digit 0 is 0xF0: four pixels from column 62 wrap to 0 and 1.
    assert_eq!(emu.draw_sprite(62, 31, 0, 2), Ok(false));
    assert!(emu.display.is_on(62, 31));
    assert!(emu.display.is_on(63, 31));
    assert!(emu.display.is_on(0, 31));
    assert!(emu.display.is_on(1, 31));
    assert!(!emu.display.is_on(2, 31));
    // Row 1 (0x90) wraps to line 0.
    assert!(emu.display.is_on(62, 0));
    assert!(!emu.display.is_on(63, 0));
    assert!(emu.display.is_on(1, 0));
}

#[test]
fn call_then_return_restores_pc() {
    // 0x200: call 0x204; 0x202: (next); 0x204: return.
    let mut emu = machine_with(&[0x22, 0x04, 0x00, 0xE0, 0x00, 0xEE]);
    assert_eq!(emu.tick(), Ok(()));
    assert_eq!(emu.pc, 0x204);
    assert_eq!(emu.stack.len(), 1);
    assert_eq!(emu.tick(), Ok(()));
    assert_eq!(emu.pc, 0x202);
    assert!(emu.stack.is_empty());
}

#[test]
fn pop_of_empty_stack_underflows() {
    let mut stack = Stack::new();
    assert_eq!(stack.pop(), Err(Fault::StackUnderflow));
    assert_eq!(stack.push(0), Ok(()));
    assert_eq!(stack.pop(), Ok(0));
    assert_eq!(stack.pop(), Err(Fault::StackUnderflow));
}

#[test]
fn return_with_empty_stack_faults_and_changes_nothing() {
    let mut emu = machine_with(&[0x00, 0xEE]);
    assert_eq!(emu.tick(), Err(Fault::StackUnderflow));
    assert_eq!(emu.pc, 0x200);
}

#[test]
fn push_beyond_capacity_overflows() {
    let mut stack = Stack::new();
    for k in 0..STACK_SIZE {
        assert_eq!(stack.push(k as u16), Ok(()));
    }
    assert_eq!(stack.push(99), Err(Fault::StackOverflow));
    assert_eq!(stack.len(), STACK_SIZE);
    assert_eq!(stack.pop(), Ok((STACK_SIZE - 1) as u16));
}

#[test]
fn recursive_call_overflows_stack() {
    // 0x200: call 0x200, forever.
    let mut emu = machine_with(&[0x22, 0x00]);
    for _ in 0..STACK_SIZE {
        assert_eq!(emu.tick(), Ok(()));
    }
    assert_eq!(emu.tick(), Err(Fault::StackOverflow));
    assert_eq!(emu.stack.len(), STACK_SIZE);
}

#[test]
fn store_then_load_registers_round_trips() {
    for x in 0..16usize {
        let mut emu = Chip8::new();
        for k in 0..16usize {
            emu.v[k] = (k as u8) * 7 + 3;
        }
        let before = emu.v;
        emu.address_register = 0x300;
        assert_eq!(emu.opcode_dump_v_to_memory(x), Ok(()));
        assert_eq!(emu.address_register, 0x300 + x as u16 + 1);
        for k in 0..=x {
            assert_eq!(emu.memory[0x300 + k], before[k]);
            emu.v[k] = 0;
        }
        emu.address_register = 0x300;
        assert_eq!(emu.opcode_fill_v_with_memory(x), Ok(()));
        assert_eq!(emu.address_register, 0x300 + x as u16 + 1);
        assert_eq!(emu.v, before);
    }
}

#[test]
fn random_with_zero_mask_is_zero() {
    for x in 0..16usize {
        for _ in 0..20 {
            let mut emu = Chip8::new();
            emu.v[x] = 0xAB;
            emu.opcode_set_vx_random(x, 0x00);
            assert_eq!(emu.v[x], 0);
        }
    }
}

#[test]
fn random_with_mask_keeps_only_masked_bits() {
    for _ in 0..50 {
        let mut emu = Chip8::new();
        emu.opcode_set_vx_random(3, 0x0F);
        assert_eq!(emu.v[3] & 0xF0, 0);
    }
}

#[test]
fn masked_byte_is_byte_and_mask() {
    let mut emu = Chip8::new();
    emu.opcode_set_vx_to_masked(2, 0x3C, 0xF5);
    assert_eq!(emu.v[2], 0x34);
}

#[test]
fn reset_after_load_restores_pc_and_font() {
    let mut emu = machine_with(&[0x12, 0x34, 0x56]);
    assert_eq!(emu.memory[0x200], 0x12);
    emu.pc = 0x300;
    emu.memory[0] = 0;
    emu.v[4] = 9;
    emu.reset();
    assert_eq!(emu.pc, 0x200);
    assert_eq!(&emu.memory[..80], &FONT[..]);
    assert_eq!(emu.memory[0x200], 0);
    assert_eq!(emu.v, [0u8; 16]);
}

#[test]
fn new_machine_is_reset() {
    let emu = Chip8::new();
    assert_eq!(emu.pc, 0x200);
    assert_eq!(&emu.memory[..80], &FONT[..]);
    assert!(emu.memory[80..].iter().all(|b| *b == 0));
    assert!(emu.stack.is_empty());
    assert_eq!(emu.sound_timer(), 0);
    assert_eq!(emu.delay_timer(), 0);
}

#[test]
fn load_copies_program_and_refuses_oversized() {
    let mut emu = Chip8::new();
    let program: Vec<u8> = (0..3584usize).map(|k| (k % 251) as u8).collect();
    assert_eq!(emu.load(program.clone()), Ok(()));
    assert_eq!(&emu.memory[0x200..], &program[..]);
    let too_long = vec![1u8; 3585];
    emu.pc = 0x208;
    assert_eq!(emu.load(too_long), Err(Fault::RomTooLarge { len: 3585 }));
    assert_eq!(emu.pc, 0x208);
    assert_eq!(&emu.memory[0x200..], &program[..]);
}

#[test]
fn unknown_opcode_faults_with_opcode_and_pc() {
    let mut emu = machine_with(&[0x01, 0x23]);
    assert_eq!(emu.tick(), Err(Fault::UnknownOpcode { opcode: 0x0123, pc: 0x200 }));
    assert_eq!(emu.pc, 0x200);
    let mut emu = machine_with(&[0x80, 0x18]);
    assert_eq!(emu.tick(), Err(Fault::UnknownOpcode { opcode: 0x8018, pc: 0x200 }));
    let mut emu = machine_with(&[0xE0, 0x00]);
    assert_eq!(emu.tick(), Err(Fault::UnknownOpcode { opcode: 0xE000, pc: 0x200 }));
    let mut emu = machine_with(&[0xF0, 0x99]);
    assert_eq!(emu.tick(), Err(Fault::UnknownOpcode { opcode: 0xF099, pc: 0x200 }));
}

#[test]
fn fetch_past_memory_end_faults() {
    let mut emu = Chip8::new();
    emu.pc = 0xFFF;
    assert_eq!(emu.tick(), Err(Fault::MemoryOutOfBounds { address: 0x1000 }));
    assert_eq!(emu.pc, 0xFFF);
}

#[test]
fn memory_instructions_fault_out_of_bounds() {
    let mut emu = Chip8::new();
    emu.address_register = 0xFFE;
    emu.v[0] = 77;
    assert_eq!(emu.opcode_dump_v_to_memory(2), Err(Fault::MemoryOutOfBounds { address: 0x1000 }));
    assert_eq!(emu.address_register, 0xFFE);
    assert_eq!(emu.opcode_fill_v_with_memory(2), Err(Fault::MemoryOutOfBounds { address: 0x1000 }));
    assert_eq!(emu.v[0], 77);
    assert_eq!(emu.opcode_save_bin_vx(0), Err(Fault::MemoryOutOfBounds { address: 0x1000 }));
    assert_eq!(emu.opcode_draw(0, 0, 3), Err(Fault::MemoryOutOfBounds { address: 0x1000 }));
    assert!(emu.display.cells().iter().all(|c| !*c));
}

#[test]
fn fault_inside_tick_leaves_state_unchanged() {
    // AFFF: I = 0xFFF; F155: store V0..V1 at 0xFFF, which runs off memory.
    let mut emu = machine_with(&[0xAF, 0xFF, 0xF1, 0x55]);
    emu.timer_delay = 5;
    assert_eq!(emu.tick(), Ok(()));
    assert_eq!(emu.timer_delay, 4);
    assert_eq!(emu.tick(), Err(Fault::MemoryOutOfBounds { address: 0x1000 }));
    assert_eq!(emu.pc, 0x202);
    assert_eq!(emu.timer_delay, 4);
    assert_eq!(emu.address_register, 0xFFF);
}

#[test]
fn skip_instruction_skips_next_during_tick() {
    // 3000: skip if V0 == 0; 6001: V0 = 1 (skipped); 6102: V1 = 2.
    let mut emu = machine_with(&[0x30, 0x00, 0x60, 0x01, 0x61, 0x02]);
    assert_eq!(emu.tick(), Ok(()));
    assert_eq!(emu.pc, 0x204);
    assert_eq!(emu.tick(), Ok(()));
    assert_eq!(emu.v[0], 0);
    assert_eq!(emu.v[1], 2);
    assert_eq!(emu.pc, 0x206);
}

#[test]
fn jump_sets_pc() {
    let mut emu = machine_with(&[0x13, 0x45]);
    assert_eq!(emu.tick(), Ok(()));
    assert_eq!(emu.pc, 0x345);
    assert!(emu.skip_increment_pc);
}

#[test]
fn wait_key_refetches_until_pressed() {
    // F30A: wait for a key into V3.
    let mut emu = machine_with(&[0xF3, 0x0A]);
    assert_eq!(emu.tick(), Ok(()));
    assert_eq!(emu.pc, 0x200);
    assert_eq!(emu.tick(), Ok(()));
    assert_eq!(emu.pc, 0x200);
    emu.keypad.press(5);
    assert_eq!(emu.tick(), Ok(()));
    assert_eq!(emu.v[3], 5);
    assert_eq!(emu.pc, 0x202);
}

#[test]
fn wait_key_takes_highest_pressed_key() {
    let mut emu = Chip8::new();
    emu.keypad.press(2);
    emu.keypad.press(11);
    emu.opcode_wait_key(0);
    assert_eq!(emu.v[0], 11);
}

#[test]
fn key_value_above_f_is_never_pressed() {
    let mut emu = Chip8::new();
    emu.v[0] = 0x20;
    emu.keypad.press(0);
    emu.opcode_skip_key_pressed_in_vx(0);
    assert_eq!(emu.pc, 0x200);
    emu.opcode_skip_key_not_pressed_in_vx(0);
    assert_eq!(emu.pc, 0x202);
}

#[test]
fn bcd_stores_three_digits() {
    let mut emu = Chip8::new();
    emu.v[1] = 234;
    emu.address_register = 0x300;
    assert_eq!(emu.opcode_save_bin_vx(1), Ok(()));
    assert_eq!(&emu.memory[0x300..0x303], &[2, 3, 4]);
    emu.v[1] = 7;
    assert_eq!(emu.opcode_save_bin_vx(1), Ok(()));
    assert_eq!(&emu.memory[0x300..0x303], &[0, 0, 7]);
}

#[test]
fn add_to_index_flags_past_fff() {
    let mut emu = Chip8::new();
    emu.address_register = 0xFFF;
    emu.v[2] = 1;
    emu.opcode_adds_vx_to_i(2);
    assert_eq!(emu.address_register, 0x1000);
    assert_eq!(emu.v[0xF], 1);
    emu.address_register = 0x100;
    emu.opcode_adds_vx_to_i(2);
    assert_eq!(emu.address_register, 0x101);
    assert_eq!(emu.v[0xF], 0);
}

#[test]
fn font_char_points_at_glyph() {
    let mut emu = Chip8::new();
    emu.v[4] = 0xA;
    emu.opcode_set_i_with_vx(4);
    assert_eq!(emu.address_register, 50);
    emu.v[4] = 0xFF;
    emu.opcode_set_i_with_vx(4);
    assert_eq!(emu.address_register, 1275);
}

#[test]
fn timers_count_down_once_per_tick_and_stop_at_zero() {
    // 6302: V3 = 2; F315: delay = V3; F318: sound = V3; F407: V4 = delay.
    let mut emu = machine_with(&[0x63, 0x02, 0xF3, 0x15, 0xF3, 0x18, 0xF4, 0x07, 0x12, 0x08]);
    assert_eq!(emu.tick(), Ok(()));
    assert_eq!(emu.tick(), Ok(()));
    assert_eq!(emu.delay_timer(), 1);
    assert_eq!(emu.tick(), Ok(()));
    assert_eq!(emu.sound_timer(), 1);
    assert_eq!(emu.delay_timer(), 0);
    assert_eq!(emu.tick(), Ok(()));
    assert_eq!(emu.v[4], 0);
    assert_eq!(emu.sound_timer(), 0);
    assert_eq!(emu.tick(), Ok(()));
    assert_eq!(emu.sound_timer(), 0);
    assert_eq!(emu.delay_timer(), 0);
}

#[test]
fn clear_screen_and_high_resolution_opcodes() {
    // D015 with I = 0 draws; 00E0 clears; 00FF changes nothing.
    let mut emu = machine_with(&[0xD0, 0x15, 0x00, 0xE0, 0x00, 0xFF]);
    assert_eq!(emu.tick(), Ok(()));
    assert!(emu.display.is_on(0, 0));
    assert_eq!(emu.tick(), Ok(()));
    assert!(emu.display.cells().iter().all(|c| !*c));
    assert_eq!(emu.tick(), Ok(()));
    assert_eq!(emu.pc, 0x206);
}

#[test]
fn run_ticks_only_when_started() {
    let mut emu = machine_with(&[0x60, 0x05]);
    assert_eq!(emu.run(), Ok(()));
    assert_eq!(emu.pc, 0x200);
    emu.start();
    assert_eq!(emu.run(), Ok(()));
    assert_eq!(emu.v[0], 5);
    assert_eq!(emu.pc, 0x202);
    emu.pause();
    assert_eq!(emu.run(), Ok(()));
    assert_eq!(emu.pc, 0x202);
    emu.start();
    emu.stop();
    assert!(!emu.play);
}

#[test]
fn step_uses_given_random_byte() {
    // C50F: V5 = random & 0x0F.
    let mut emu = machine_with(&[0xC5, 0x0F]);
    assert_eq!(emu.step(0xAB), Ok(()));
    assert_eq!(emu.v[5], 0x0B);
}

#[test]
fn decode_recognises_instruction_families() {
    assert_eq!(decode(0x00E0), Some(Instruction::ClearScreen));
    assert_eq!(decode(0x00EE), Some(Instruction::Return));
    assert_eq!(decode(0x1ABC), Some(Instruction::Jump { addr: 0xABC }));
    assert_eq!(decode(0x8AB4), Some(Instruction::Arith { x: 0xA, y: 0xB, kind: 4 }));
    assert_eq!(decode(0x8ABE), Some(Instruction::Arith { x: 0xA, y: 0xB, kind: 0xE }));
    assert_eq!(decode(0xD12F), Some(Instruction::Draw { x: 1, y: 2, n: 0xF }));
    assert_eq!(decode(0xE49E), Some(Instruction::SkipIfKeyPressed { x: 4 }));
    assert_eq!(decode(0xF765), Some(Instruction::LoadRegs { x: 7 }));
    assert_eq!(decode(0x0000), None);
    assert_eq!(decode(0x800F), None);
    assert_eq!(decode(0x5120), Some(Instruction::SkipIfEqualReg { x: 1, y: 2 }));
    assert_eq!(decode(0x5121), None);
    assert_eq!(decode(0x9AB0), Some(Instruction::SkipIfNotEqualReg { x: 0xA, y: 0xB }));
    assert_eq!(decode(0x912F), None);
}

#[test]
fn display_draw_toggles_wrapped_cell() {
    let mut display = Display::new();
    assert!(display.draw(65, 34));
    assert!(display.is_on(1, 2));
    assert!(!display.draw(1, 2));
    assert!(!display.is_on(1, 2));
    display.draw(3, 3);
    display.clear();
    assert!(display.cells().iter().all(|c| !*c));
    assert_eq!(display.cells().len(), 2048);
}

#[test]
fn keypad_press_release_status() {
    let mut keypad = Keypad::new();
    assert_eq!(keypad.status(7), 0);
    keypad.press(7);
    assert_eq!(keypad.status(7), 1);
    assert!(keypad.is_pressed(7));
    assert_eq!(keypad.status(6), 0);
    keypad.release(7);
    assert_eq!(keypad.status(7), 0);
}

#[test]
fn stores_below_program_area_fault() {
    let mut emu = Chip8::new();
    emu.v[0] = 0x55;
    emu.v[1] = 123;
    emu.address_register = 0;
    assert_eq!(emu.opcode_dump_v_to_memory(0), Err(Fault::MemoryOutOfBounds { address: 0 }));
    assert_eq!(emu.memory[0], 0xF0);
    assert_eq!(emu.address_register, 0);
    emu.address_register = 0x1FF;
    assert_eq!(emu.opcode_save_bin_vx(1), Err(Fault::MemoryOutOfBounds { address: 0x1FF }));
    assert_eq!(emu.memory[0x1FF], 0);
    assert_eq!(emu.memory[0x200], 0);
    // Reading below the program area is allowed.
    emu.address_register = 0;
    assert_eq!(emu.opcode_fill_v_with_memory(0), Ok(()));
    assert_eq!(emu.v[0], 0xF0);
}

#[test]
fn store_below_program_area_faults_during_tick() {
    // A000: I = 0; F055: store V0 at 0, refused.
    let mut emu = machine_with(&[0xA0, 0x00, 0xF0, 0x55]);
    emu.v[0] = 9;
    assert_eq!(emu.tick(), Ok(()));
    assert_eq!(emu.tick(), Err(Fault::MemoryOutOfBounds { address: 0 }));
    assert_eq!(&emu.memory[..80], &FONT[..]);
    assert_eq!(emu.pc, 0x202);
}

#[test]
fn register_operation_with_unknown_nibble_faults() {
    for kind in [0x8u16, 0x9, 0xA, 0xB, 0xC, 0xD, 0xF] {
        let mut emu = Chip8::new();
        emu.v[0] = 3;
        emu.v[1] = 4;
        let opcode = 0x8010 + kind;
        assert_eq!(
            emu.opcode_set_vx_to_vy(opcode, 0, 1),
            Err(Fault::UnknownOpcode { opcode, pc: 0x200 })
        );
        assert_eq!(emu.v[0], 3);
        assert_eq!(emu.v[0xF], 0);
    }
}

#[test]
fn sprite_past_memory_end_faults() {
    let mut emu = Chip8::new();
    assert_eq!(emu.draw_sprite(0, 0, 0xFFE, 3), Err(Fault::MemoryOutOfBounds { address: 0x1000 }));
    assert!(emu.display.cells().iter().all(|c| !*c));
    assert_eq!(emu.draw_sprite(0, 0, 0xFFE, 2), Ok(false));
}

#[test]
fn skip_register_opcodes_with_nonzero_low_nibble_fault() {
    let mut emu = machine_with(&[0x51, 0x21]);
    assert_eq!(emu.tick(), Err(Fault::UnknownOpcode { opcode: 0x5121, pc: 0x200 }));
    assert_eq!(emu.pc, 0x200);
    let mut emu = machine_with(&[0x91, 0x2F]);
    assert_eq!(emu.tick(), Err(Fault::UnknownOpcode { opcode: 0x912F, pc: 0x200 }));
    assert_eq!(emu.pc, 0x200);
}

#[test]
fn sprite_taller_than_screen_wraps_onto_itself() {
    // Rows 0 and 32 both hold 0x80 and land on the same pixel: the first
    // lights it, the second turns it off again and collides.
    let mut emu = Chip8::new();
    emu.memory[0x300] = 0x80;
    emu.memory[0x320] = 0x80;
    emu.memory[0x301] = 0x40;
    assert_eq!(emu.draw_sprite(5, 5, 0x300, 33), Ok(true));
    assert!(!emu.display.is_on(5, 5));
    assert!(emu.display.is_on(6, 6));
    assert_eq!(emu.draw_sprite(5, 5, 0x300, 255), Ok(true));
    assert!(!emu.display.is_on(6, 6));
}
