use chip8::isa::{decode, Chip8Error};
use chip8::state::{Chip8, FONT};

fn machine() -> Chip8 {
    Chip8::new()
}

#[test]
fn new_machine_initial_state() {
    let c = machine();
    assert_eq!(c.pc, 0x200);
    assert_eq!(c.index, 0);
    assert_eq!(c.delay_timer, 0);
    assert_eq!(c.sound_timer, 0);
    assert!(c.stack.is_empty());
    assert!(c.fb().iter().all(|p| !p));
    assert!(c.reg.iter().all(|&r| r == 0));
    // the font sits at 0x50, five bytes per glyph
    for (i, &b) in FONT.iter().enumerate() {
        assert_eq!(c.mem[0x50 + i], b);
    }
    assert_eq!(c.mem[0x4F], 0);
    assert_eq!(c.mem[0xA0], 0);
}

#[test]
fn load_places_program_bytes() {
    let mut c = machine();
    let program = vec![0x12u8, 0x34, 0x56];
    c.load(0x200, &program);
    assert_eq!(c.mem[0x200], 0x12);
    assert_eq!(c.mem[0x201], 0x34);
    assert_eq!(c.mem[0x202], 0x56);
    assert_eq!(c.mem[0x203], 0x00);
}

#[test]
fn add_reg_sets_carry_iff_sum_exceeds_255() {
    let mut c = machine();
    c.reg[0] = 200;
    c.reg[1] = 100;
    c.ADD8xy4(0, 1);
    assert_eq!(c.reg[0], 44); // 300 mod 256
    assert_eq!(c.reg[15], 1);

    c.reg[2] = 10;
    c.reg[3] = 20;
    c.ADD8xy4(2, 3);
    assert_eq!(c.reg[2], 30);
    assert_eq!(c.reg[15], 0);

    // exact boundary: 255 + 0 does not carry, 255 + 1 does
    c.reg[4] = 255;
    c.reg[5] = 0;
    c.ADD8xy4(4, 5);
    assert_eq!(c.reg[4], 255);
    assert_eq!(c.reg[15], 0);
    c.reg[6] = 255;
    c.reg[7] = 1;
    c.ADD8xy4(6, 7);
    assert_eq!(c.reg[6], 0);
    assert_eq!(c.reg[15], 1);
}

#[test]
fn sub_and_subn_borrow_flags() {
    let mut c = machine();
    c.reg[0] = 20;
    c.reg[1] = 10;
    c.SUB8xy5(0, 1);
    assert_eq!(c.reg[0], 10);
    assert_eq!(c.reg[15], 1); // Vx > Vy

    c.reg[2] = 10;
    c.reg[3] = 20;
    c.SUB8xy5(2, 3);
    assert_eq!(c.reg[2], 246); // wraps mod 256
    assert_eq!(c.reg[15], 0);

    c.reg[4] = 10;
    c.reg[5] = 20;
    c.SUBN8xy7(4, 5);
    assert_eq!(c.reg[4], 10);
    assert_eq!(c.reg[15], 1); // Vy > Vx

    c.reg[6] = 20;
    c.reg[7] = 10;
    c.SUBN8xy7(6, 7);
    assert_eq!(c.reg[6], 246);
    assert_eq!(c.reg[15], 0);

    // equal operands: no borrow flag either way
    c.reg[8] = 7;
    c.reg[9] = 7;
    c.SUB8xy5(8, 9);
    assert_eq!(c.reg[8], 0);
    assert_eq!(c.reg[15], 0);
}

#[test]
fn shifts_capture_bit_before_mutating() {
    let mut c = machine();
    c.reg[0] = 5;
    c.SHR8xy6(0);
    assert_eq!(c.reg[15], 1); // low bit captured first
    assert_eq!(c.reg[0], 2);

    c.reg[1] = 4;
    c.SHR8xy6(1);
    assert_eq!(c.reg[15], 0);
    assert_eq!(c.reg[1], 2);

    c.reg[2] = 0x81;
    c.SHL8xyE(2);
    assert_eq!(c.reg[15], 1); // high bit captured first
    assert_eq!(c.reg[2], 2);

    c.reg[3] = 0x40;
    c.SHL8xyE(3);
    assert_eq!(c.reg[15], 0);
    assert_eq!(c.reg[3], 0x80);
}

#[test]
fn call_then_ret_restores_pc() {
    let mut c = machine();
    // 0x200: CALL 0x300; 0x300: RET
    let program = vec![0x23u8, 0x00];
    c.load(0x200, &program);
    let body = vec![0x00u8, 0xEE];
    c.load(0x300, &body);
    c.step_with(0).unwrap();
    assert_eq!(c.pc, 0x300);
    assert_eq!(c.stack.len(), 1);
    c.step_with(0).unwrap();
    assert_eq!(c.pc, 0x202); // the address immediately after the CALL
    assert!(c.stack.is_empty());
}

#[test]
fn bcd_writes_three_digits() {
    let mut c = machine();
    c.index = 0x300;
    c.reg[3] = 234;
    c.LDFx33(3).unwrap();
    assert_eq!(c.mem[0x300], 2);
    assert_eq!(c.mem[0x301], 3);
    assert_eq!(c.mem[0x302], 4);

    c.index = 0x310;
    c.reg[4] = 7;
    c.LDFx33(4).unwrap();
    assert_eq!(c.mem[0x310], 0);
    assert_eq!(c.mem[0x311], 0);
    assert_eq!(c.mem[0x312], 7);
}

#[test]
fn draw_wraps_and_self_collides() {
    let mut c = machine();
    c.index = 0x400;
    c.mem[0x400] = 0xFF; // an 8x1 all-ones sprite
    c.reg[0] = 60;
    c.reg[1] = 0;
    c.DRWDxyn(0, 1, 1).unwrap();
    // four pixels at columns 60..63, four wrapped onto columns 0..3
    for col in [60usize, 61, 62, 63, 0, 1, 2, 3] {
        assert!(c.fb()[col], "column {col} should be on");
    }
    assert_eq!(c.fb().iter().filter(|&&p| p).count(), 8);
    assert_eq!(c.reg[15], 0);
    assert!(c.display_changed);

    // the identical draw erases every touched pixel and reports collision
    c.DRWDxyn(0, 1, 1).unwrap();
    assert!(c.fb().iter().all(|p| !p));
    assert_eq!(c.reg[15], 1);
}

#[test]
fn draw_collision_is_or_across_whole_sprite() {
    let mut c = machine();
    c.index = 0x400;
    c.mem[0x400] = 0x80; // single pixel at (10, 0)
    c.reg[0] = 10;
    c.reg[1] = 0;
    c.DRWDxyn(0, 1, 1).unwrap();
    assert_eq!(c.reg[15], 0);
    // a wider sprite whose first pixel collides but whose last does not
    c.mem[0x400] = 0xC0;
    c.DRWDxyn(0, 1, 1).unwrap();
    assert_eq!(c.reg[15], 1);
    assert!(!c.fb()[10]);
    assert!(c.fb()[11]);
}

#[test]
fn cls_then_frame_clears_display() {
    let mut c = machine();
    c.index = 0x400;
    c.mem[0x400] = 0xFF;
    // 0x200: DRW V0,V1,1 ; 0x202: CLS
    let program = vec![0xD0u8, 0x11, 0x00, 0xE0];
    c.load(0x200, &program);
    c.frame(1).unwrap(); // the DRW frame
    assert!(c.display_changed);
    assert!(c.fb().iter().any(|&p| p));
    c.frame(1).unwrap(); // the CLS frame
    assert!(c.fb().iter().all(|p| !p));
    // the hint is observed only on frames containing a draw
    assert!(!c.display_changed);
}

#[test]
fn display_hint_cleared_each_frame() {
    let mut c = machine();
    // a frame with no instructions still clears the stale hint
    c.display_changed = true;
    c.frame(0).unwrap();
    assert!(!c.display_changed);
}

#[test]
fn key_wait_blocks_until_key_pressed() {
    let mut c = machine();
    // 0x200: LD V0,K
    let program = vec![0xF0u8, 0x0A];
    c.load(0x200, &program);
    for _ in 0..3 {
        c.step_with(0).unwrap();
        assert_eq!(c.pc, 0x200); // no net progress while blocked
    }
    let mut keys = vec![false; 16];
    keys[7] = true;
    keys[3] = true;
    c.update_keys(&keys);
    c.step_with(0).unwrap();
    assert_eq!(c.pc, 0x202); // exactly one step advances normally
    assert_eq!(c.reg[0], 3); // the lowest-indexed pressed key
}

#[test]
fn invalid_low_nibble_raises_decode_error() {
    assert!(decode(0x5001).is_none());
    let mut c = machine();
    let program = vec![0x50u8, 0x01];
    c.load(0x200, &program);
    let e = c.step_with(0).unwrap_err();
    assert_eq!(e, Chip8Error::InvalidOpcode { addr: 0x200, opcode: 0x5001 });
}

#[test]
fn invalid_opcode_families_rejected() {
    assert!(decode(0x0000).is_none());
    assert!(decode(0x8008).is_none());
    assert!(decode(0x9005).is_none());
    assert!(decode(0xE000).is_none());
    assert!(decode(0xF0FF).is_none());
    assert!(decode(0x00E1).is_none());
    // and the legal neighbours decode
    assert!(decode(0x00E0).is_some());
    assert!(decode(0x00EE).is_some());
    assert!(decode(0x5230).is_some());
    assert!(decode(0x800E).is_some());
}

#[test]
fn timers_floor_at_zero() {
    let mut c = machine();
    c.delay_timer = 2;
    c.sound_timer = 1;
    for i in 0..5 {
        c.frame(0).unwrap();
        let expect_delay = if i == 0 { 1 } else { 0 };
        assert_eq!(c.delay_timer, expect_delay);
        assert_eq!(c.sound_timer, 0);
    }
}

#[test]
fn stack_overflow_and_underflow_are_errors() {
    let mut c = machine();
    for i in 0u16..16 {
        assert_eq!(c.push(0x200 + i), Ok(()));
    }
    assert_eq!(c.push(0x999), Err(Chip8Error::StackOverflow));
    assert_eq!(c.stack.len(), 16);
    for _ in 0..16 {
        assert!(c.pop().is_ok());
    }
    assert_eq!(c.pop(), Err(Chip8Error::StackUnderflow));

    // seventeen nested CALLs end in the overflow error
    let mut d = machine();
    // 0x200: CALL 0x200, forever
    let program = vec![0x22u8, 0x00];
    d.load(0x200, &program);
    for _ in 0..16 {
        d.step_with(0).unwrap();
    }
    assert_eq!(d.step_with(0), Err(Chip8Error::StackOverflow));
}

#[test]
fn memory_bound_violations_are_errors() {
    let mut c = machine();
    c.index = 4095;
    assert_eq!(c.LDFx33(0), Err(Chip8Error::MemoryOutOfRange { addr: 4095 }));

    c.index = 4090;
    assert_eq!(c.DRWDxyn(0, 1, 10), Err(Chip8Error::MemoryOutOfRange { addr: 4090 }));

    c.index = 4090;
    assert_eq!(c.LDFx55(15), Err(Chip8Error::MemoryOutOfRange { addr: 4090 }));
    assert_eq!(c.LDFx65(15), Err(Chip8Error::MemoryOutOfRange { addr: 4090 }));

    // a program counter past the end of memory cannot fetch
    c.pc = 4095;
    assert_eq!(c.step_with(0), Err(Chip8Error::MemoryOutOfRange { addr: 4095 }));
}

#[test]
fn key_index_out_of_latch_is_error() {
    let mut c = machine();
    c.reg[0] = 200;
    assert_eq!(c.SKPEx9E(0), Err(Chip8Error::KeyOutOfRange { key: 200 }));
    assert_eq!(c.SKNPExA1(0), Err(Chip8Error::KeyOutOfRange { key: 200 }));
}

#[test]
fn rnd_masks_with_immediate() {
    let mut c = machine();
    c.RNDCxkk(2, 0x0F, 0xAA);
    assert_eq!(c.reg[2], 0x0A);
    c.RNDCxkk(3, 0x00, 0xFF);
    assert_eq!(c.reg[3], 0x00);

    // through the real random source: a zero mask pins the result
    c.reg[4] = 0xFF;
    let program = vec![0xC4u8, 0x00];
    c.load(0x200, &program);
    c.cycle().unwrap();
    assert_eq!(c.reg[4], 0x00);
}

#[test]
fn font_pointer_uses_low_nibble() {
    let mut c = machine();
    c.reg[0] = 0xAB;
    c.LDFx29(0);
    assert_eq!(c.index, 0x50 + 5 * 0xB);
    c.reg[1] = 0x03;
    c.LDFx29(1);
    assert_eq!(c.index, 0x50 + 15);
}

#[test]
fn skips_advance_pc_by_two() {
    let mut c = machine();
    c.reg[0] = 5;
    c.SE3xkk(0, 5);
    assert_eq!(c.pc, 0x202);
    c.SE3xkk(0, 6);
    assert_eq!(c.pc, 0x202);
    c.SNE4xkk(0, 6);
    assert_eq!(c.pc, 0x204);
    c.reg[1] = 5;
    c.SE5xy0(0, 1);
    assert_eq!(c.pc, 0x206);
    c.SNE9xy0(0, 1);
    assert_eq!(c.pc, 0x206);

    let mut keys = vec![false; 16];
    keys[5] = true;
    c.update_keys(&keys);
    c.reg[2] = 5;
    c.SKPEx9E(2).unwrap();
    assert_eq!(c.pc, 0x208);
    c.SKNPExA1(2).unwrap();
    assert_eq!(c.pc, 0x208);
}

#[test]
fn jump_with_offset_adds_v0() {
    let mut c = machine();
    c.reg[0] = 0x10;
    c.JPBnnn(0x300);
    assert_eq!(c.pc, 0x310);
    c.JP1nnn(0x456);
    assert_eq!(c.pc, 0x456);
}

#[test]
fn store_and_load_registers_round_trip() {
    let mut c = machine();
    for i in 0..16 {
        c.reg[i] = (i as u8) * 3 + 1;
    }
    c.index = 0x500;
    c.LDFx55(4).unwrap();
    for i in 0..=4usize {
        assert_eq!(c.mem[0x500 + i], (i as u8) * 3 + 1);
    }
    assert_eq!(c.mem[0x505], 0); // V5 on were not stored

    let mut d = machine();
    d.mem[0x500..0x510].copy_from_slice(&c.mem[0x500..0x510]);
    d.index = 0x500;
    d.LDFx65(4).unwrap();
    for i in 0..=4usize {
        assert_eq!(d.reg[i], (i as u8) * 3 + 1);
    }
    assert_eq!(d.reg[5], 0); // V5 on were not loaded
}

#[test]
fn index_addition_wraps_sixteen_bits() {
    let mut c = machine();
    c.index = 0xFFFF;
    c.reg[0] = 2;
    c.ADDFx1E(0);
    assert_eq!(c.index, 1);
    c.index = 0x100;
    c.ADDFx1E(0);
    assert_eq!(c.index, 0x102);
}

#[test]
fn arithmetic_and_logic_instructions() {
    let mut c = machine();
    c.LD6xkk(0, 0xF0);
    assert_eq!(c.reg[0], 0xF0);
    c.ADD7xkk(0, 0x20); // wraps, no flag
    assert_eq!(c.reg[0], 0x10);
    assert_eq!(c.reg[15], 0);
    c.LD6xkk(1, 0x0F);
    c.OR8xy1(0, 1);
    assert_eq!(c.reg[0], 0x1F);
    c.AND8xy2(0, 1);
    assert_eq!(c.reg[0], 0x0F);
    c.XOR8xy3(0, 1);
    assert_eq!(c.reg[0], 0x00);
    c.LD8xy0(2, 1);
    assert_eq!(c.reg[2], 0x0F);
}

#[test]
fn timer_transfer_instructions() {
    let mut c = machine();
    c.reg[0] = 42;
    c.LDFx15(0);
    assert_eq!(c.delay_timer, 42);
    c.LDFx18(0);
    assert_eq!(c.sound_timer, 42);
    c.LDFx07(1);
    assert_eq!(c.reg[1], 42);
}

#[test]
fn frame_runs_exactly_count_instructions() {
    let mut c = machine();
    // 0x200: ADD V0,1 repeated
    let program = vec![0x70u8, 0x01, 0x70, 0x01, 0x70, 0x01];
    c.load(0x200, &program);
    c.delay_timer = 10;
    c.frame(3).unwrap();
    assert_eq!(c.reg[0], 3);
    assert_eq!(c.pc, 0x206);
    assert_eq!(c.delay_timer, 9); // timers tick once per frame, not per step
}

#[test]
fn frame_halts_on_first_error() {
    let mut c = machine();
    // 0x200: ADD V0,1 ; 0x202: invalid opcode
    let program = vec![0x70u8, 0x01, 0x50, 0x01];
    c.load(0x200, &program);
    c.delay_timer = 5;
    let e = c.frame(10).unwrap_err();
    assert_eq!(e, Chip8Error::InvalidOpcode { addr: 0x202, opcode: 0x5001 });
    assert_eq!(c.reg[0], 1); // the first instruction did run
    assert_eq!(c.delay_timer, 5); // a halted frame does not tick the timers
}

#[test]
fn update_keys_replaces_snapshot() {
    let mut c = machine();
    let mut keys = vec![false; 16];
    keys[0] = true;
    keys[15] = true;
    c.update_keys(&keys);
    assert!(c.keys[0]);
    assert!(c.keys[15]);
    assert!(!c.keys[7]);
    let cleared = vec![false; 16];
    c.update_keys(&cleared);
    assert!(c.keys.iter().all(|&k| !k));
}
