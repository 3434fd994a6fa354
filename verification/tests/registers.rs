use lib::cpu::i8088::registers::SegReg;
use lib::cpu::i8088::I8088;

fn new_cpu() -> I8088 {
    I8088::new()
}

#[test]
fn reg8_al_ah() {
    let mut cpu = new_cpu();
    cpu.ax = 0x1234;
    assert_eq!(cpu.al(), 0x34);
    assert_eq!(cpu.ah(), 0x12);
    assert_eq!(cpu.get_reg8(0), 0x34);
    assert_eq!(cpu.get_reg8(4), 0x12);

    cpu.set_al(0xAB);
    assert_eq!(cpu.ax, 0x12AB);
    cpu.set_ah(0xCD);
    assert_eq!(cpu.ax, 0xCDAB);
}

#[test]
fn reg8_all_halves() {
    let mut cpu = new_cpu();
    cpu.ax = 0xAABB;
    cpu.cx = 0xCCDD;
    cpu.dx = 0xEEFF;
    cpu.bx = 0x1122;

    assert_eq!(cpu.get_reg8(0), 0xBB);
    assert_eq!(cpu.get_reg8(1), 0xDD);
    assert_eq!(cpu.get_reg8(2), 0xFF);
    assert_eq!(cpu.get_reg8(3), 0x22);
    assert_eq!(cpu.get_reg8(4), 0xAA);
    assert_eq!(cpu.get_reg8(5), 0xCC);
    assert_eq!(cpu.get_reg8(6), 0xEE);
    assert_eq!(cpu.get_reg8(7), 0x11);
}

#[test]
fn set_reg8_preserves_other_half() {
    let mut cpu = new_cpu();
    cpu.ax = 0x0000;
    cpu.set_reg8(0, 0xFF);
    assert_eq!(cpu.ax, 0x00FF);
    cpu.set_reg8(4, 0xAA);
    assert_eq!(cpu.ax, 0xAAFF);
}

#[test]
fn reg16_round_trip() {
    let mut cpu = new_cpu();
    for reg in 0..8u8 {
        cpu.set_reg16(reg, 0x1234 + reg as u16);
        assert_eq!(cpu.get_reg16(reg), 0x1234 + reg as u16);
    }
}

#[test]
fn seg_round_trip() {
    let mut cpu = new_cpu();
    for &seg in &[SegReg::ES, SegReg::CS, SegReg::SS, SegReg::DS] {
        cpu.set_seg(seg, 0xABCD);
        assert_eq!(cpu.get_seg(seg), 0xABCD);
    }
}

#[test]
fn decode_seg_all() {
    assert_eq!(I8088::decode_seg(0), SegReg::ES);
    assert_eq!(I8088::decode_seg(1), SegReg::CS);
    assert_eq!(I8088::decode_seg(2), SegReg::SS);
    assert_eq!(I8088::decode_seg(3), SegReg::DS);
}

#[test]
fn physical_addr_basic() {
    assert_eq!(I8088::physical_addr(0x1000, 0x0234), 0x10234);
}

#[test]
fn physical_addr_wrap_20bit() {
    assert_eq!(I8088::physical_addr(0xFFFF, 0x0010), 0x00000);
}

#[test]
fn physical_addr_reset_vector() {
    assert_eq!(I8088::physical_addr(0xFFFF, 0x0000), 0xFFFF0);
}

#[test]
fn physical_addr_zero() {
    assert_eq!(I8088::physical_addr(0x0000, 0x0000), 0x00000);
}
