use chip8::cpu::CPU;
use chip8::isa::{decode, Instr, ShiftPolicy, StepEvent, VmError};

fn cpu() -> CPU {
    CPU::new(ShiftPolicy::ShiftVx)
}

fn cpu_with(rom: Vec<u8>) -> CPU {
    let mut c = cpu();
    c.load(&rom).unwrap();
    c
}

#[test]
fn initial_state() {
    let c = cpu();
    assert_eq!(c.pc(), 0x200);
    assert_eq!(c.index(), 0);
    assert_eq!(c.delay(), 0);
    assert_eq!(c.sound(), 0);
    assert_eq!(c.stack_depth(), 0);
    assert!(!c.is_waiting());
    assert!(!c.sound_on());
    for i in 0..16 {
        assert_eq!(c.reg(i), 0);
    }
    // The font region: glyph 0 starts with 0xF0, glyph F ends with 0x80.
    assert_eq!(c.mem_at(0x050), 0xF0);
    assert_eq!(c.mem_at(0x09F), 0x80);
    assert_eq!(c.mem_at(0x04F), 0);
    assert_eq!(c.mem_at(0x0A0), 0);
    assert_eq!(c.mem_at(0x200), 0);
}

#[test]
fn load_exactly_full_rom_succeeds() {
    let mut c = cpu();
    let mut rom = vec![0u8; 3584];
    rom[0] = 0xAB;
    rom[3583] = 0xCD;
    assert_eq!(c.load(&rom), Ok(()));
    assert_eq!(c.mem_at(0x200), 0xAB);
    assert_eq!(c.mem_at(0xFFF), 0xCD);
}

#[test]
fn load_one_byte_over_fails() {
    let mut c = cpu();
    let rom = vec![0x55u8; 3585];
    assert_eq!(c.load(&rom), Err(VmError::OversizedRom));
    // Nothing was written.
    assert_eq!(c.mem_at(0x200), 0);
    assert_eq!(c.mem_at(0xFFF), 0);
}

#[test]
fn jump_sets_pc_exactly() {
    let mut c = cpu_with(vec![0x12, 0xF0]);
    assert_eq!(c.run(0, None), Ok(StepEvent::Ran));
    assert_eq!(c.pc(), 0x2F0);
    assert_eq!(c.index(), 0);
    assert_eq!(c.stack_depth(), 0);
    for i in 0..16 {
        assert_eq!(c.reg(i), 0);
    }
}

#[test]
fn call_then_return_restores_pc() {
    let mut c = cpu_with(vec![0x22, 0x06, 0, 0, 0, 0, 0x00, 0xEE]);
    assert_eq!(c.run(0, None), Ok(StepEvent::Ran));
    assert_eq!(c.pc(), 0x206);
    assert_eq!(c.stack_depth(), 1);
    assert_eq!(c.run(0, None), Ok(StepEvent::Ran));
    assert_eq!(c.pc(), 0x202);
    assert_eq!(c.stack_depth(), 0);
}

#[test]
fn return_with_empty_stack_is_fatal() {
    let mut c = cpu_with(vec![0x00, 0xEE]);
    assert_eq!(c.run(0, None), Err(VmError::StackUnderflow));
}

#[test]
fn skip_if_value_equal() {
    // V0 = 5, then 3005: skip taken.
    let mut c = cpu_with(vec![0x60, 0x05, 0x30, 0x05]);
    c.run(0, None).unwrap();
    c.run(0, None).unwrap();
    assert_eq!(c.pc(), 0x206);
    // V0 = 5, then 3006: skip not taken.
    let mut d = cpu_with(vec![0x60, 0x05, 0x30, 0x06]);
    d.run(0, None).unwrap();
    d.run(0, None).unwrap();
    assert_eq!(d.pc(), 0x204);
}

#[test]
fn skip_if_registers_differ() {
    // V0 = 5, V1 = 6, then 9010: skip taken.
    let mut c = cpu_with(vec![0x60, 0x05, 0x61, 0x06, 0x90, 0x10]);
    c.run(0, None).unwrap();
    c.run(0, None).unwrap();
    c.run(0, None).unwrap();
    assert_eq!(c.pc(), 0x208);
}

#[test]
fn unknown_opcode_is_skipped() {
    let mut c = cpu_with(vec![0xB1, 0x23]);
    assert_eq!(c.run(0, None), Ok(StepEvent::UnknownOpcode(0xB123)));
    assert_eq!(c.pc(), 0x202);
    assert_eq!(c.stack_depth(), 0);
    for i in 0..16 {
        assert_eq!(c.reg(i), 0);
    }
}

#[test]
fn fetch_past_memory_end_is_fatal() {
    let mut c = cpu();
    c.jump(4095);
    assert_eq!(c.run(0, None), Err(VmError::OutOfBoundsAccess(4095)));
    assert_eq!(c.pc(), 4095);
}

#[test]
fn timers_decrement_and_clamp() {
    let mut c = cpu();
    c.set_as_value(0, 2);
    c.set_delay_timer(0);
    c.set_as_value(0, 1);
    c.set_sound_timer(0);
    assert_eq!(c.delay(), 2);
    assert_eq!(c.sound(), 1);
    assert!(c.sound_on());
    c.update_timers();
    assert_eq!(c.delay(), 1);
    assert_eq!(c.sound(), 0);
    assert!(!c.sound_on());
    c.update_timers();
    assert_eq!(c.delay(), 0);
    assert_eq!(c.sound(), 0);
    c.update_timers();
    assert_eq!(c.delay(), 0);
    assert_eq!(c.sound(), 0);
}

#[test]
fn delay_timer_read_back() {
    let mut c = cpu();
    c.set_as_value(0, 42);
    c.set_delay_timer(0);
    c.get_delay_timer(5);
    assert_eq!(c.reg(5), 42);
}

#[test]
fn bcd_writes_three_digits() {
    let mut c = cpu();
    c.set_as_value(3, 157);
    c.set_index(0x300);
    assert_eq!(c.binary_to_decimal(3), Ok(()));
    assert_eq!(c.mem_at(0x300), 1);
    assert_eq!(c.mem_at(0x301), 5);
    assert_eq!(c.mem_at(0x302), 7);
    assert_eq!(c.index(), 0x300);
}

#[test]
fn bcd_small_value() {
    let mut c = cpu();
    c.set_as_value(3, 7);
    c.set_index(0x300);
    c.binary_to_decimal(3).unwrap();
    assert_eq!(c.mem_at(0x300), 0);
    assert_eq!(c.mem_at(0x301), 0);
    assert_eq!(c.mem_at(0x302), 7);
}

#[test]
fn bcd_out_of_bounds_is_fatal() {
    let mut c = cpu();
    c.set_index(4094);
    assert_eq!(c.binary_to_decimal(0), Err(VmError::OutOfBoundsAccess(4094)));
    assert_eq!(c.mem_at(4094), 0);
    assert_eq!(c.mem_at(4095), 0);
}

#[test]
fn store_then_load_round_trips() {
    let mut c = cpu();
    c.set_as_value(0, 11);
    c.set_as_value(1, 22);
    c.set_as_value(2, 33);
    c.set_as_value(3, 44);
    c.set_index(0x400);
    assert_eq!(c.save_registers(3), Ok(()));
    assert_eq!(c.mem_at(0x400), 11);
    assert_eq!(c.mem_at(0x403), 44);
    assert_eq!(c.mem_at(0x404), 0);
    // Clobber, then load back through the same region.
    c.set_as_value(0, 0xFF);
    c.set_as_value(1, 0xFF);
    c.set_as_value(2, 0xFF);
    c.set_as_value(3, 0xFF);
    assert_eq!(c.load_registers(3), Ok(()));
    assert_eq!(c.reg(0), 11);
    assert_eq!(c.reg(1), 22);
    assert_eq!(c.reg(2), 33);
    assert_eq!(c.reg(3), 44);
    // The count is inclusive: V4 was never touched.
    assert_eq!(c.reg(4), 0);
    assert_eq!(c.index(), 0x400);
}

#[test]
fn store_registers_out_of_bounds_is_fatal() {
    let mut c = cpu();
    c.set_index(4093);
    assert_eq!(c.save_registers(5), Err(VmError::OutOfBoundsAccess(4093)));
}

#[test]
fn load_registers_out_of_bounds_is_fatal() {
    let mut c = cpu();
    c.set_index(4091);
    assert_eq!(c.load_registers(5), Err(VmError::OutOfBoundsAccess(4091)));
}

#[test]
fn font_character_points_into_font_region() {
    let mut c = cpu();
    c.set_as_value(0, 0);
    c.get_font_character(0);
    assert_eq!(c.index(), 0x050);
    assert_eq!(c.mem_at(c.index()), 0xF0);
    c.set_as_value(0, 0xF);
    c.get_font_character(0);
    assert_eq!(c.index(), 0x050 + 75);
    assert_eq!(c.mem_at(c.index()), 0xF0);
}

#[test]
fn add_to_index_accumulates() {
    let mut c = cpu();
    c.set_index(100);
    c.set_as_value(0, 7);
    c.add_to_index(0);
    assert_eq!(c.index(), 107);
}

#[test]
fn wait_key_blocks_until_event() {
    let mut c = cpu_with(vec![0xF1, 0x0A, 0x62, 0x09]);
    assert_eq!(c.run(0, None), Ok(StepEvent::AwaitingKey));
    assert!(c.is_waiting());
    assert_eq!(c.pc(), 0x202);
    // Steps without an event do nothing, even with keys held down.
    assert_eq!(c.run(0xFFFF, None), Ok(StepEvent::AwaitingKey));
    assert_eq!(c.pc(), 0x202);
    assert_eq!(c.reg(1), 0);
    // The event is consumed and stored; the machine resumes.
    assert_eq!(c.run(0, Some(7)), Ok(StepEvent::Ran));
    assert!(!c.is_waiting());
    assert_eq!(c.reg(1), 7);
    assert_eq!(c.pc(), 0x202);
    // The next step executes the following instruction normally.
    assert_eq!(c.run(0, None), Ok(StepEvent::Ran));
    assert_eq!(c.reg(2), 9);
    assert_eq!(c.pc(), 0x204);
}

#[test]
fn skip_if_key_pressed() {
    // V0 = 5, then E09E with key 5 down: skip taken.
    let mut c = cpu_with(vec![0x60, 0x05, 0xE0, 0x9E]);
    c.run(0, None).unwrap();
    assert_eq!(c.run(1 << 5, None), Ok(StepEvent::Ran));
    assert_eq!(c.pc(), 0x206);
    // Same with the key up: skip not taken.
    let mut d = cpu_with(vec![0x60, 0x05, 0xE0, 0x9E]);
    d.run(0, None).unwrap();
    d.run(1 << 4, None).unwrap();
    assert_eq!(d.pc(), 0x204);
}

#[test]
fn skip_if_key_not_pressed() {
    // V0 = 5, then E0A1 with key 5 up: skip taken.
    let mut c = cpu_with(vec![0x60, 0x05, 0xE0, 0xA1]);
    c.run(0, None).unwrap();
    c.run(0, None).unwrap();
    assert_eq!(c.pc(), 0x206);
    // With the key down: skip not taken.
    let mut d = cpu_with(vec![0x60, 0x05, 0xE0, 0xA1]);
    d.run(0, None).unwrap();
    d.run(1 << 5, None).unwrap();
    assert_eq!(d.pc(), 0x204);
}

#[test]
fn random_through_run_respects_immediate() {
    // V0 = 0xFF, then C000: the zero immediate masks every drawn byte to
    // zero and the old register value plays no part.
    let mut c = cpu_with(vec![0x60, 0xFF, 0xC0, 0x00, 0xC1, 0x0F]);
    c.run(0, None).unwrap();
    assert_eq!(c.run(0, None), Ok(StepEvent::Ran));
    assert_eq!(c.reg(0), 0);
    // C10F: whatever byte was drawn, the result stays within the mask.
    assert_eq!(c.run(0, None), Ok(StepEvent::Ran));
    assert_eq!(c.reg(1) & 0xF0, 0);
}

#[test]
fn decode_documented_table() {
    assert_eq!(decode(0x00E0), Instr::ClearScreen);
    assert_eq!(decode(0x00EE), Instr::Return);
    assert_eq!(decode(0x1234), Instr::Jump { nnn: 0x234 });
    assert_eq!(decode(0x2ABC), Instr::Call { nnn: 0xABC });
    assert_eq!(decode(0x3A7F), Instr::SkipEqVal { x: 0xA, nn: 0x7F });
    assert_eq!(decode(0x4A7F), Instr::SkipNeVal { x: 0xA, nn: 0x7F });
    assert_eq!(decode(0x5AB0), Instr::SkipEqReg { x: 0xA, y: 0xB });
    assert_eq!(decode(0x6C42), Instr::SetVal { x: 0xC, nn: 0x42 });
    assert_eq!(decode(0x7C42), Instr::AddVal { x: 0xC, nn: 0x42 });
    assert_eq!(decode(0x8120), Instr::SetReg { x: 1, y: 2 });
    assert_eq!(decode(0x8121), Instr::OrReg { x: 1, y: 2 });
    assert_eq!(decode(0x8122), Instr::AndReg { x: 1, y: 2 });
    assert_eq!(decode(0x8123), Instr::XorReg { x: 1, y: 2 });
    assert_eq!(decode(0x8124), Instr::AddReg { x: 1, y: 2 });
    assert_eq!(decode(0x8125), Instr::SubXY { x: 1, y: 2 });
    assert_eq!(decode(0x8126), Instr::ShiftRight { x: 1, y: 2 });
    assert_eq!(decode(0x8127), Instr::SubYX { x: 1, y: 2 });
    assert_eq!(decode(0x812E), Instr::ShiftLeft { x: 1, y: 2 });
    assert_eq!(decode(0x9AB0), Instr::SkipNeReg { x: 0xA, y: 0xB });
    assert_eq!(decode(0xA123), Instr::SetIndex { nnn: 0x123 });
    assert_eq!(decode(0xC742), Instr::Random { x: 7, nn: 0x42 });
    assert_eq!(decode(0xD125), Instr::Draw { x: 1, y: 2, n: 5 });
    assert_eq!(decode(0xE19E), Instr::SkipIfKey { x: 1 });
    assert_eq!(decode(0xE1A1), Instr::SkipIfNotKey { x: 1 });
    assert_eq!(decode(0xF107), Instr::GetDelay { x: 1 });
    assert_eq!(decode(0xF10A), Instr::WaitKey { x: 1 });
    assert_eq!(decode(0xF115), Instr::SetDelay { x: 1 });
    assert_eq!(decode(0xF118), Instr::SetSound { x: 1 });
    assert_eq!(decode(0xF11E), Instr::AddIndex { x: 1 });
    assert_eq!(decode(0xF129), Instr::FontChar { x: 1 });
    assert_eq!(decode(0xF133), Instr::Bcd { x: 1 });
    assert_eq!(decode(0xF155), Instr::StoreRegs { x: 1 });
    assert_eq!(decode(0xF165), Instr::LoadRegs { x: 1 });
}

#[test]
fn decode_unknown_opcodes() {
    assert_eq!(decode(0x0123), Instr::Unknown { op: 0x0123 });
    assert_eq!(decode(0x8128), Instr::Unknown { op: 0x8128 });
    assert_eq!(decode(0xB123), Instr::Unknown { op: 0xB123 });
    assert_eq!(decode(0xE1A2), Instr::Unknown { op: 0xE1A2 });
    assert_eq!(decode(0xF108), Instr::Unknown { op: 0xF108 });
}

#[test]
fn alu_program_through_run() {
    // V0 = 200; V1 = 100; V0 += V1; then the delay timer takes V0 and is
    // read back into V5.
    let rom = vec![0x60, 200, 0x61, 100, 0x80, 0x14, 0xF0, 0x15, 0xF5, 0x07];
    let mut c = cpu_with(rom);
    for _ in 0..5 {
        assert_eq!(c.run(0, None), Ok(StepEvent::Ran));
    }
    assert_eq!(c.reg(0), 44);
    assert_eq!(c.reg(0xF), 1);
    assert_eq!(c.delay(), 44);
    assert_eq!(c.reg(5), 44);
    assert_eq!(c.pc(), 0x20A);
}

#[test]
fn sound_gating_through_run() {
    // V0 = 2; sound timer = V0: the tone turns on, then ticks away.
    let mut c = cpu_with(vec![0x60, 0x02, 0xF0, 0x18]);
    c.run(0, None).unwrap();
    assert!(!c.sound_on());
    c.run(0, None).unwrap();
    assert!(c.sound_on());
    c.update_timers();
    assert!(c.sound_on());
    c.update_timers();
    assert!(!c.sound_on());
}
