use gb_core::registers::Flags;
use gb_core::registers::Registers;

fn flags(zero: bool, subtract: bool, half_carry: bool, carry: bool) -> Flags {
    Flags { zero, subtract, half_carry, carry }
}

#[test]
fn byte_to_flags_to_byte_masks_low_nibble() {
    for b in 0..=255u8 {
        assert_eq!(Flags::from_byte(b).to_byte(), b & 0xF0);
    }
}

#[test]
fn flags_to_byte_to_flags_is_identity() {
    for bits in 0..16u8 {
        let f = flags(bits & 8 != 0, bits & 4 != 0, bits & 2 != 0, bits & 1 != 0);
        assert_eq!(Flags::from_byte(f.to_byte()), f);
    }
}

#[test]
fn flags_byte_layout_is_fixed() {
    assert_eq!(flags(true, false, false, false).to_byte(), 0x80);
    assert_eq!(flags(false, true, false, false).to_byte(), 0x40);
    assert_eq!(flags(false, false, true, false).to_byte(), 0x20);
    assert_eq!(flags(false, false, false, true).to_byte(), 0x10);
    assert_eq!(flags(true, true, true, true).to_byte(), 0xF0);
    assert_eq!(flags(false, false, false, false).to_byte(), 0x00);
}

#[test]
fn from_byte_ignores_low_nibble() {
    assert_eq!(Flags::from_byte(0xB5), Flags::from_byte(0xB0));
    assert_eq!(Flags::from_byte(0x0F), flags(false, false, false, false));
}

#[test]
fn af_round_trip_forces_low_nibble_zero() {
    let mut regs = Registers::default();
    regs.set_af(0xABCD);
    assert_eq!(regs.get_af(), 0xABC0);
    for v in [0x0000u16, 0x00FF, 0x1234, 0xFFFF, 0x8010] {
        regs.set_af(v);
        assert_eq!(regs.get_af(), v & 0xFFF0);
    }
}

#[test]
fn af_view_composes_a_and_flags() {
    let mut regs = Registers::default();
    regs.a = 0x12;
    regs.f = flags(true, false, true, false);
    assert_eq!(regs.get_af(), 0x12A0);
    regs.set_af(0x34B0);
    assert_eq!(regs.a, 0x34);
    assert_eq!(regs.f, flags(true, false, true, true));
}

#[test]
fn bc_round_trip_is_exact() {
    let mut regs = Registers::default();
    for v in [0x0000u16, 0x00FF, 0xFF00, 0xBEEF, 0xFFFF] {
        regs.set_bc(v);
        assert_eq!(regs.get_bc(), v);
    }
    regs.set_bc(0x1234);
    assert_eq!(regs.b, 0x12);
    assert_eq!(regs.c, 0x34);
}

#[test]
fn de_round_trip_is_exact() {
    let mut regs = Registers::default();
    regs.set_de(0xC0DE);
    assert_eq!(regs.d, 0xC0);
    assert_eq!(regs.e, 0xDE);
    assert_eq!(regs.get_de(), 0xC0DE);
}

#[test]
fn hl_round_trip_is_exact() {
    let mut regs = Registers::default();
    regs.set_hl(0x8001);
    assert_eq!(regs.h, 0x80);
    assert_eq!(regs.l, 0x01);
    assert_eq!(regs.get_hl(), 0x8001);
}

#[test]
fn default_registers_are_cleared() {
    let regs = Registers::default();
    assert_eq!(regs.a, 0);
    assert_eq!(regs.b, 0);
    assert_eq!(regs.c, 0);
    assert_eq!(regs.d, 0);
    assert_eq!(regs.e, 0);
    assert_eq!(regs.h, 0);
    assert_eq!(regs.l, 0);
    assert_eq!(regs.f, flags(false, false, false, false));
}
