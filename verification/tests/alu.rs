use chip8::cpu::CPU;
use chip8::isa::ShiftPolicy;

fn cpu() -> CPU {
    CPU::new(ShiftPolicy::ShiftVx)
}

#[test]
fn add_sets_carry_and_wraps() {
    let mut c = cpu();
    c.set_as_value(0, 200);
    c.set_as_value(1, 100);
    c.add_as_register(0, 1);
    assert_eq!(c.reg(0), 44);
    assert_eq!(c.reg(0xF), 1);
}

#[test]
fn add_without_carry_clears_flag() {
    let mut c = cpu();
    c.set_as_value(0xF, 1);
    c.set_as_value(0, 3);
    c.set_as_value(1, 4);
    c.add_as_register(0, 1);
    assert_eq!(c.reg(0), 7);
    assert_eq!(c.reg(0xF), 0);
}

#[test]
fn add_carry_boundary() {
    let mut c = cpu();
    c.set_as_value(0, 255);
    c.set_as_value(1, 1);
    c.add_as_register(0, 1);
    assert_eq!(c.reg(0), 0);
    assert_eq!(c.reg(0xF), 1);
}

#[test]
fn sub_xy_without_borrow() {
    let mut c = cpu();
    c.set_as_value(0, 7);
    c.set_as_value(1, 5);
    c.sub_vx_xy(0, 1);
    assert_eq!(c.reg(0), 2);
    assert_eq!(c.reg(0xF), 1);
}

#[test]
fn sub_xy_with_borrow() {
    let mut c = cpu();
    c.set_as_value(0, 5);
    c.set_as_value(1, 7);
    c.sub_vx_xy(0, 1);
    assert_eq!(c.reg(0), 254);
    assert_eq!(c.reg(0xF), 0);
}

#[test]
fn sub_xy_equal_operands_sets_flag() {
    let mut c = cpu();
    c.set_as_value(0, 9);
    c.set_as_value(1, 9);
    c.sub_vx_xy(0, 1);
    assert_eq!(c.reg(0), 0);
    assert_eq!(c.reg(0xF), 1);
}

#[test]
fn sub_yx_without_borrow() {
    let mut c = cpu();
    c.set_as_value(0, 5);
    c.set_as_value(1, 7);
    c.sub_vy_xx(0, 1);
    assert_eq!(c.reg(0), 2);
    assert_eq!(c.reg(0xF), 1);
}

#[test]
fn sub_yx_with_borrow() {
    let mut c = cpu();
    c.set_as_value(0, 7);
    c.set_as_value(1, 5);
    c.sub_vy_xx(0, 1);
    assert_eq!(c.reg(0), 254);
    assert_eq!(c.reg(0xF), 0);
}

#[test]
fn shift_right_scenario() {
    let mut c = cpu();
    c.set_as_value(2, 0b0000_0011);
    c.shift_register_right(2, 0);
    assert_eq!(c.reg(2), 0b0000_0001);
    assert_eq!(c.reg(0xF), 1);
}

#[test]
fn shift_right_even_value_clears_flag() {
    let mut c = cpu();
    c.set_as_value(2, 0b0000_0100);
    c.shift_register_right(2, 0);
    assert_eq!(c.reg(2), 0b0000_0010);
    assert_eq!(c.reg(0xF), 0);
}

#[test]
fn shift_left_scenario() {
    let mut c = cpu();
    c.set_as_value(2, 0b1000_0001);
    c.shift_register_left(2, 0);
    assert_eq!(c.reg(2), 0b0000_0010);
    assert_eq!(c.reg(0xF), 1);
}

#[test]
fn shift_left_low_value_clears_flag() {
    let mut c = cpu();
    c.set_as_value(2, 0b0100_0000);
    c.shift_register_left(2, 0);
    assert_eq!(c.reg(2), 0b1000_0000);
    assert_eq!(c.reg(0xF), 0);
}

#[test]
fn shift_legacy_policy_reads_source_register() {
    let mut c = CPU::new(ShiftPolicy::ShiftVy);
    c.set_as_value(1, 0b0000_0110);
    c.set_as_value(2, 0xAA);
    c.shift_register_right(2, 1);
    assert_eq!(c.reg(2), 0b0000_0011);
    assert_eq!(c.reg(0xF), 0);
    assert_eq!(c.reg(1), 0b0000_0110);
}

#[test]
fn add_value_wraps_without_flag() {
    let mut c = cpu();
    c.set_as_value(0xF, 1);
    c.set_as_value(3, 250);
    c.add_as_value(3, 10);
    assert_eq!(c.reg(3), 4);
    assert_eq!(c.reg(0xF), 1);
}

#[test]
fn logic_ops() {
    let mut c = cpu();
    c.set_as_value(0, 0b1100);
    c.set_as_value(1, 0b1010);
    c.or_register(0, 1);
    assert_eq!(c.reg(0), 0b1110);
    c.set_as_value(0, 0b1100);
    c.and_register(0, 1);
    assert_eq!(c.reg(0), 0b1000);
    c.set_as_value(0, 0b1100);
    c.xor_register(0, 1);
    assert_eq!(c.reg(0), 0b0110);
    c.set_as_register(0, 1);
    assert_eq!(c.reg(0), 0b1010);
}

#[test]
fn random_with_zero_immediate_yields_zero() {
    // The mask keeps no bit of any drawn byte, and the old register value
    // plays no part.
    let mut c = cpu();
    c.set_as_value(0, 0xFF);
    c.random(0, 0);
    assert_eq!(c.reg(0), 0);
}

#[test]
fn random_result_stays_within_immediate() {
    let mut c = cpu();
    c.set_as_value(0, 0xFF);
    c.random(0, 0x0F);
    assert_eq!(c.reg(0) & 0xF0, 0);
}

#[test]
fn apply_random_masks_drawn_byte() {
    // The destination takes the drawn byte masked by the immediate; what
    // the register held before is overwritten.
    let mut c = cpu();
    c.set_as_value(0, 0xFF);
    c.apply_random(0, 0b0000_1111, 0b1010_1010);
    assert_eq!(c.reg(0), 0b0000_1010);
}
