use rustboy::registers::{ByteRegister, Flag, Registers, WordRegister};

#[test]
fn new_registers_are_zero() {
    let r = Registers::new();
    assert_eq!(r.af(), 0);
    assert_eq!(r.bc(), 0);
    assert_eq!(r.de(), 0);
    assert_eq!(r.hl(), 0);
    assert_eq!(r.sp, 0);
    assert_eq!(r.pc, 0);
}

#[test]
fn pairs_split_into_high_and_low_bytes() {
    let mut r = Registers::new();
    r.set_af(0x1234);
    r.set_bc(0x5678);
    r.set_de(0x9ABC);
    r.set_hl(0xDEF0);
    assert_eq!((r.a, r.f), (0x12, 0x34));
    assert_eq!((r.b, r.c), (0x56, 0x78));
    assert_eq!((r.d, r.e), (0x9A, 0xBC));
    assert_eq!((r.h, r.l), (0xDE, 0xF0));
    assert_eq!(r.af(), 0x1234);
    assert_eq!(r.bc(), 0x5678);
    assert_eq!(r.de(), 0x9ABC);
    assert_eq!(r.hl(), 0xDEF0);
}

#[test]
fn writing_a_pair_with_its_own_value_changes_nothing() {
    let mut r = Registers::new();
    r.h = 0xAB;
    r.l = 0xCD;
    let v = r.hl();
    r.set_hl(v);
    assert_eq!((r.h, r.l), (0xAB, 0xCD));
}

#[test]
fn flags_live_in_the_upper_nibble_of_f() {
    let mut r = Registers::new();
    r.set_flag(Flag::Z);
    assert_eq!(r.f, 0x80);
    r.set_flag(Flag::N);
    assert_eq!(r.f, 0xC0);
    r.set_flag(Flag::H);
    assert_eq!(r.f, 0xE0);
    r.set_flag(Flag::C);
    assert_eq!(r.f, 0xF0);
    r.clear_flag(Flag::N);
    assert_eq!(r.f, 0xB0);
    assert!(r.get_flag(Flag::Z));
    assert!(!r.get_flag(Flag::N));
    assert!(r.get_flag(Flag::H));
    assert!(r.get_flag(Flag::C));
}

#[test]
fn set_and_clear_leave_other_flags_and_low_bits() {
    let mut r = Registers::new();
    r.f = 0x0F;
    r.set_flag(Flag::H);
    assert_eq!(r.f, 0x2F);
    r.clear_flag(Flag::H);
    assert_eq!(r.f, 0x0F);
    assert!(!r.get_flag(Flag::Z));
}

#[test]
fn clear_flags_zeroes_f() {
    let mut r = Registers::new();
    r.f = 0xFF;
    r.clear_flags();
    assert_eq!(r.f, 0);
    assert!(!r.get_flag(Flag::Z));
    assert!(!r.get_flag(Flag::C));
}

#[test]
fn inc_b_sets_half_carry_from_bit_three() {
    let mut r = Registers::new();
    r.c = 0x0F;
    r.set_flag(Flag::N);
    r.inc_b(ByteRegister::C);
    assert_eq!(r.c, 0x10);
    assert!(r.get_flag(Flag::H));
    assert!(!r.get_flag(Flag::Z));
    assert!(!r.get_flag(Flag::N));
}

#[test]
fn inc_b_wraps_to_zero_and_sets_zero_flag() {
    let mut r = Registers::new();
    r.a = 0xFF;
    r.inc_b(ByteRegister::A);
    assert_eq!(r.a, 0);
    assert!(r.get_flag(Flag::Z));
    assert!(r.get_flag(Flag::H));
}

#[test]
fn inc_b_flags_describe_this_increment_only() {
    let mut r = Registers::new();
    r.set_flag(Flag::Z);
    r.set_flag(Flag::H);
    r.set_flag(Flag::C);
    r.b = 1;
    r.inc_b(ByteRegister::B);
    assert_eq!(r.b, 2);
    assert!(!r.get_flag(Flag::Z));
    assert!(!r.get_flag(Flag::H));
    assert!(r.get_flag(Flag::C));
}

#[test]
fn inc_b_on_f_applies_flags_to_the_new_value() {
    let mut r = Registers::new();
    r.f = 0x4F;
    r.inc_b(ByteRegister::F);
    // 0x4F + 1 = 0x50, then N (0x40) is cleared
    assert_eq!(r.f, 0x10);
}

#[test]
fn dec_b_sets_subtract_and_zero_only_on_zero() {
    let mut r = Registers::new();
    r.b = 2;
    r.set_flag(Flag::H);
    r.dec_b(ByteRegister::B);
    assert_eq!(r.b, 1);
    assert!(!r.get_flag(Flag::Z));
    assert!(r.get_flag(Flag::N));
    assert!(!r.get_flag(Flag::H));
    r.dec_b(ByteRegister::B);
    assert_eq!(r.b, 0);
    assert!(r.get_flag(Flag::Z));
    r.b = 0x80;
    r.dec_b(ByteRegister::B);
    assert_eq!(r.b, 0x7F);
    assert!(!r.get_flag(Flag::Z));
    // the low nibble borrowed
    assert!(r.get_flag(Flag::H));
    assert!(r.get_flag(Flag::N));
}

#[test]
fn inc_then_dec_gives_the_value_back() {
    let mut r = Registers::new();
    r.e = 0x41;
    r.inc_b(ByteRegister::E);
    r.dec_b(ByteRegister::E);
    assert_eq!(r.e, 0x41);
}

#[test]
fn inc_w_carries_into_the_high_byte() {
    let mut r = Registers::new();
    r.set_hl(0x00FF);
    r.inc_w(WordRegister::HL);
    assert_eq!(r.hl(), 0x0100);
    assert_eq!((r.h, r.l), (0x01, 0x00));
    assert!(r.get_flag(Flag::H));
}

#[test]
fn inc_w_wraps_and_sets_zero_flag() {
    let mut r = Registers::new();
    r.sp = 0xFFFF;
    r.inc_w(WordRegister::SP);
    assert_eq!(r.sp, 0);
    assert!(r.get_flag(Flag::Z));
    assert!(r.get_flag(Flag::H));
    r.pc = 0x1234;
    r.inc_w(WordRegister::PC);
    assert_eq!(r.pc, 0x1235);
    assert!(!r.get_flag(Flag::Z));
    assert!(!r.get_flag(Flag::H));
}

#[test]
fn dec_w_borrows_from_the_high_byte() {
    let mut r = Registers::new();
    r.set_de(0x0100);
    r.dec_w(WordRegister::DE);
    assert_eq!(r.de(), 0x00FF);
    assert!(!r.get_flag(Flag::Z));
    assert!(r.get_flag(Flag::N));
    assert!(r.get_flag(Flag::H));
    r.set_bc(1);
    r.dec_w(WordRegister::BC);
    assert_eq!(r.bc(), 0);
    assert!(r.get_flag(Flag::Z));
    assert!(r.get_flag(Flag::N));
    assert!(!r.get_flag(Flag::H));
}

#[test]
fn dec_w_on_af_writes_the_pair_before_the_flags() {
    let mut r = Registers::new();
    r.set_af(0x0100);
    r.dec_w(WordRegister::AF);
    // 0x0100 - 1 = 0x00FF; Z is then cleared and N set on the new F
    assert_eq!(r.a, 0x00);
    assert_eq!(r.f, 0x7F);
}
