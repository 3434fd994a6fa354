use lib::cpu::i8088::alu::{add16, add8, and8, dec16, dec8, inc16, inc8, neg8, not16, not8, or8, sub16, sub8, xor8};
use lib::cpu::i8088::flags::{self, normalize, Flag};

fn f() -> u16 {
    normalize(0)
}

#[test]
fn add8_basic() {
    let mut flags = f();
    assert_eq!(add8(&mut flags, 0x10, 0x20, false), 0x30);
    assert!(!flags::get(flags, Flag::CF));
    assert!(!flags::get(flags, Flag::OF));
    assert!(!flags::get(flags, Flag::ZF));
    assert!(!flags::get(flags, Flag::SF));
}

#[test]
fn add8_carry() {
    let mut flags = f();
    assert_eq!(add8(&mut flags, 0xFF, 0x01, false), 0x00);
    assert!(flags::get(flags, Flag::CF));
    assert!(flags::get(flags, Flag::ZF));
}

#[test]
fn add8_overflow() {
    let mut flags = f();
    assert_eq!(add8(&mut flags, 0x7F, 0x01, false), 0x80);
    assert!(flags::get(flags, Flag::OF));
    assert!(flags::get(flags, Flag::SF));
    assert!(flags::get(flags, Flag::AF));
}

#[test]
fn add8_with_carry_in() {
    let mut flags = f();
    assert_eq!(add8(&mut flags, 0x10, 0x20, true), 0x31);
}

#[test]
fn add8_carry_in_overflow() {
    let mut flags = f();
    assert_eq!(add8(&mut flags, 0xFF, 0x00, true), 0x00);
    assert!(flags::get(flags, Flag::CF));
    assert!(flags::get(flags, Flag::ZF));
}

#[test]
fn add16_carry() {
    let mut flags = f();
    assert_eq!(add16(&mut flags, 0xFFFF, 0x0001, false), 0x0000);
    assert!(flags::get(flags, Flag::CF));
    assert!(flags::get(flags, Flag::ZF));
}

#[test]
fn add16_overflow() {
    let mut flags = f();
    assert_eq!(add16(&mut flags, 0x7FFF, 0x0001, false), 0x8000);
    assert!(flags::get(flags, Flag::OF));
    assert!(flags::get(flags, Flag::SF));
}

#[test]
fn sub8_basic() {
    let mut flags = f();
    assert_eq!(sub8(&mut flags, 0x30, 0x10, false), 0x20);
    assert!(!flags::get(flags, Flag::CF));
    assert!(!flags::get(flags, Flag::OF));
}

#[test]
fn sub8_borrow() {
    let mut flags = f();
    assert_eq!(sub8(&mut flags, 0x00, 0x01, false), 0xFF);
    assert!(flags::get(flags, Flag::CF));
    assert!(flags::get(flags, Flag::SF));
}

#[test]
fn sub8_overflow() {
    let mut flags = f();
    assert_eq!(sub8(&mut flags, 0x80, 0x01, false), 0x7F);
    assert!(flags::get(flags, Flag::OF));
}

#[test]
fn sub8_with_borrow() {
    let mut flags = f();
    assert_eq!(sub8(&mut flags, 0x30, 0x10, true), 0x1F);
}

#[test]
fn sub16_borrow() {
    let mut flags = f();
    assert_eq!(sub16(&mut flags, 0x0000, 0x0001, false), 0xFFFF);
    assert!(flags::get(flags, Flag::CF));
}

#[test]
fn inc8_basic() {
    let mut flags = f();
    flags::set(&mut flags, Flag::CF, true);
    assert_eq!(inc8(&mut flags, 0x41), 0x42);
    assert!(flags::get(flags, Flag::CF));
    assert!(!flags::get(flags, Flag::ZF));
}

#[test]
fn inc8_overflow() {
    let mut flags = f();
    assert_eq!(inc8(&mut flags, 0x7F), 0x80);
    assert!(flags::get(flags, Flag::OF));
    assert!(flags::get(flags, Flag::SF));
}

#[test]
fn inc8_wrap() {
    let mut flags = f();
    assert_eq!(inc8(&mut flags, 0xFF), 0x00);
    assert!(flags::get(flags, Flag::ZF));
    assert!(flags::get(flags, Flag::AF));
}

#[test]
fn dec8_basic() {
    let mut flags = f();
    flags::set(&mut flags, Flag::CF, true);
    assert_eq!(dec8(&mut flags, 0x42), 0x41);
    assert!(flags::get(flags, Flag::CF));
}

#[test]
fn dec8_overflow() {
    let mut flags = f();
    assert_eq!(dec8(&mut flags, 0x80), 0x7F);
    assert!(flags::get(flags, Flag::OF));
}

#[test]
fn dec8_to_zero() {
    let mut flags = f();
    assert_eq!(dec8(&mut flags, 0x01), 0x00);
    assert!(flags::get(flags, Flag::ZF));
}

#[test]
fn inc16_overflow() {
    let mut flags = f();
    assert_eq!(inc16(&mut flags, 0x7FFF), 0x8000);
    assert!(flags::get(flags, Flag::OF));
}

#[test]
fn dec16_overflow() {
    let mut flags = f();
    assert_eq!(dec16(&mut flags, 0x8000), 0x7FFF);
    assert!(flags::get(flags, Flag::OF));
}

#[test]
fn neg8_basic() {
    let mut flags = f();
    assert_eq!(neg8(&mut flags, 0x01), 0xFF);
    assert!(flags::get(flags, Flag::CF));
    assert!(flags::get(flags, Flag::SF));
}

#[test]
fn neg8_zero() {
    let mut flags = f();
    assert_eq!(neg8(&mut flags, 0x00), 0x00);
    assert!(!flags::get(flags, Flag::CF));
    assert!(flags::get(flags, Flag::ZF));
}

#[test]
fn neg8_min() {
    let mut flags = f();
    assert_eq!(neg8(&mut flags, 0x80), 0x80);
    assert!(flags::get(flags, Flag::OF));
    assert!(flags::get(flags, Flag::CF));
}

#[test]
fn and8_basic() {
    let mut flags = f();
    assert_eq!(and8(&mut flags, 0xF0, 0x0F), 0x00);
    assert!(flags::get(flags, Flag::ZF));
    assert!(!flags::get(flags, Flag::CF));
    assert!(!flags::get(flags, Flag::OF));
}

#[test]
fn or8_basic() {
    let mut flags = f();
    assert_eq!(or8(&mut flags, 0xF0, 0x0F), 0xFF);
    assert!(flags::get(flags, Flag::SF));
    assert!(!flags::get(flags, Flag::CF));
}

#[test]
fn xor8_self() {
    let mut flags = f();
    assert_eq!(xor8(&mut flags, 0xAB, 0xAB), 0x00);
    assert!(flags::get(flags, Flag::ZF));
}

#[test]
fn not8_basic() {
    assert_eq!(not8(0x00), 0xFF);
    assert_eq!(not8(0xFF), 0x00);
    assert_eq!(not8(0xA5), 0x5A);
}

#[test]
fn not16_basic() {
    assert_eq!(not16(0x0000), 0xFFFF);
    assert_eq!(not16(0xFFFF), 0x0000);
}

