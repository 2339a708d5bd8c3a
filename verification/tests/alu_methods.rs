use gb_core::cpu::CPU;
use gb_core::instruction::ArithmeticTarget;
use gb_core::instruction::Instruction;

fn cpu_with_a(a: u8) -> CPU {
    let mut cpu = CPU::new();
    cpu.registers.a = a;
    cpu
}

#[test]
fn add_into_a_updates_a_and_flags() {
    let mut cpu = cpu_with_a(0x3A);
    cpu.add_into_a(0xC6);
    assert_eq!(cpu.registers.a, 0x00);
    assert_eq!(cpu.registers.f.zero, true);
    assert_eq!(cpu.registers.f.carry, true);
    assert_eq!(cpu.registers.f.half_carry, true);
    assert_eq!(cpu.registers.f.subtract, false);
}

#[test]
fn add_into_a_plain_sum() {
    let mut cpu = cpu_with_a(0x12);
    cpu.add_into_a(0x34);
    assert_eq!(cpu.registers.a, 0x46);
    assert_eq!(cpu.registers.f.zero, false);
    assert_eq!(cpu.registers.f.carry, false);
    assert_eq!(cpu.registers.f.half_carry, false);
}

#[test]
fn sub_from_a_stores_the_difference() {
    let mut cpu = cpu_with_a(0x3E);
    cpu.sub_from_a(0x0F);
    assert_eq!(cpu.registers.a, 0x2F);
    assert_eq!(cpu.registers.f.subtract, true);
    assert_eq!(cpu.registers.f.half_carry, true);
    assert_eq!(cpu.registers.f.carry, false);
    assert_eq!(cpu.registers.f.zero, false);
}

#[test]
fn and_from_a_masks_a() {
    let mut cpu = cpu_with_a(0x5A);
    cpu.and_from_a(0x38);
    assert_eq!(cpu.registers.a, 0x18);
    assert_eq!(cpu.registers.f.half_carry, true);
    assert_eq!(cpu.registers.f.carry, false);
}

#[test]
fn or_with_a_merges_bits() {
    let mut cpu = cpu_with_a(0x5A);
    cpu.or_with_a(0x03);
    assert_eq!(cpu.registers.a, 0x5B);
    assert_eq!(cpu.registers.f.half_carry, false);
    assert_eq!(cpu.registers.f.zero, false);
}

#[test]
fn xor_with_a_toggles_bits() {
    let mut cpu = cpu_with_a(0xFF);
    cpu.xor_with_a(0x0F);
    assert_eq!(cpu.registers.a, 0xF0);
    assert_eq!(cpu.registers.f.zero, false);
    assert_eq!(cpu.registers.f.carry, false);
}

#[test]
fn compare_with_a_leaves_a_untouched() {
    let mut cpu = cpu_with_a(0x90);
    cpu.compare_with_a(0x90);
    assert_eq!(cpu.registers.a, 0x90);
    assert_eq!(cpu.registers.f.zero, true);
    assert_eq!(cpu.registers.f.subtract, true);
    cpu.compare_with_a(0xA0);
    assert_eq!(cpu.registers.a, 0x90);
    assert_eq!(cpu.registers.f.carry, true);
    assert_eq!(cpu.registers.f.zero, false);
}

#[test]
fn sbc_wraps_a_full_period() {
    let mut cpu = cpu_with_a(0x00);
    cpu.registers.b = 0xFF;
    cpu.registers.f.carry = true;
    cpu.execute(Instruction::SBC(ArithmeticTarget::B));
    assert_eq!(cpu.registers.a, 0x00);
    assert_eq!(cpu.registers.f.zero, true);
    assert_eq!(cpu.registers.f.carry, true);
    assert_eq!(cpu.registers.f.half_carry, true);
    assert_eq!(cpu.registers.f.subtract, true);
}
