use gbc_core::registers::{flags, DReg, Reg, Registers};

#[test]
fn new_is_zeroed() {
    let r = Registers::new();
    for reg in [Reg::B, Reg::C, Reg::D, Reg::E, Reg::H, Reg::L, Reg::F, Reg::A] {
        assert_eq!(r.read(reg), 0);
    }
    assert_eq!(r.sp, 0);
    assert_eq!(r.pc, 0);
}

#[test]
fn pair_round_trip() {
    let mut r = Registers::new();
    for (p, hi, lo) in [(DReg::BC, Reg::B, Reg::C), (DReg::DE, Reg::D, Reg::E), (DReg::HL, Reg::H, Reg::L), (DReg::AF, Reg::A, Reg::F)] {
        r.write_pair(p, 0x1234);
        assert_eq!(r.read_pair(p), 0x1234);
        assert_eq!(r.read(hi), 0x12);
        assert_eq!(r.read(lo), 0x34);
        assert_eq!(((r.read(hi) as u16) << 8) | r.read(lo) as u16, 0x1234);
    }
}

#[test]
fn add_sets_flags() {
    let mut r = Registers::new();
    r.write(Reg::B, 0xff);
    assert_eq!(r.add(Reg::B, 1, None), 0);
    assert_eq!(r.read(Reg::B), 0xff);
    assert!(r.zero_flag());
    assert!(r.carry_flag());
    assert_eq!(r.f, 0xb0);
    assert_eq!(r.add(Reg::B, 0, None), 0xff);
    assert_eq!(r.f, 0x00);
}

#[test]
fn add_computes_sum() {
    let mut r = Registers::new();
    r.write(Reg::A, 0x10);
    assert_eq!(r.add(Reg::A, 0x20, None), 0x30);
    assert_eq!(r.f, 0);
    assert_eq!(r.add_values(0x0f, 0x01), 0x10);
    assert_eq!(r.f, 0x20);
}

#[test]
fn sub_sets_flags() {
    let mut r = Registers::new();
    assert_eq!(r.sub(Reg::C, 1, None), 0xff);
    assert_eq!(r.f, 0x70);
    r.write(Reg::C, 5);
    assert_eq!(r.sub(Reg::C, 5, None), 0);
    assert_eq!(r.f, 0xc0);
    assert_eq!(r.sub_values(0x20, 0x10), 0x10);
    assert_eq!(r.f, 0x40);
}

#[test]
fn field_decoding() {
    assert_eq!(Reg::from_field(0), Reg::B);
    assert_eq!(Reg::from_field(6), Reg::F);
    assert_eq!(Reg::from_field(0x7f), Reg::A);
    assert_eq!(DReg::AF.high(), Reg::A);
    assert_eq!(DReg::AF.low(), Reg::F);
}

#[test]
fn flag_byte_layout() {
    assert_eq!(flags(true, false, false, false), 0x80);
    assert_eq!(flags(false, true, false, false), 0x40);
    assert_eq!(flags(false, false, true, false), 0x20);
    assert_eq!(flags(false, false, false, true), 0x10);
    assert_eq!(flags(true, true, true, true), 0xf0);
}
