use lib::cpu::i8088::decode::{decode_prefix, ModRM, Prefix};
use lib::cpu::i8088::registers::SegReg;

#[test]
fn modrm_decode_reg_mode() {
    let m = ModRM::decode(0xD1);
    assert_eq!(m.mod_bits, 3);
    assert_eq!(m.reg, 2);
    assert_eq!(m.rm, 1);
    assert!(m.is_reg());
}

#[test]
fn modrm_decode_mem_mode() {
    let m = ModRM::decode(0x3E);
    assert_eq!(m.mod_bits, 0);
    assert_eq!(m.reg, 7);
    assert_eq!(m.rm, 6);
    assert!(!m.is_reg());
}

#[test]
fn modrm_decode_disp8_mode() {
    let m = ModRM::decode(0x44);
    assert_eq!(m.mod_bits, 1);
    assert_eq!(m.reg, 0);
    assert_eq!(m.rm, 4);
    assert!(!m.is_reg());
}

#[test]
fn modrm_decode_disp16_mode() {
    let m = ModRM::decode(0xAB);
    assert_eq!(m.mod_bits, 2);
    assert_eq!(m.reg, 5);
    assert_eq!(m.rm, 3);
    assert!(!m.is_reg());
}

#[test]
fn decode_prefix_segment_overrides() {
    assert_eq!(
        decode_prefix(0x26),
        Some(Prefix::SegmentOverride(SegReg::ES))
    );
    assert_eq!(
        decode_prefix(0x2E),
        Some(Prefix::SegmentOverride(SegReg::CS))
    );
    assert_eq!(
        decode_prefix(0x36),
        Some(Prefix::SegmentOverride(SegReg::SS))
    );
    assert_eq!(
        decode_prefix(0x3E),
        Some(Prefix::SegmentOverride(SegReg::DS))
    );
}

#[test]
fn decode_prefix_rep_lock() {
    assert_eq!(decode_prefix(0xF0), Some(Prefix::Lock));
    assert_eq!(decode_prefix(0xF2), Some(Prefix::Repnz));
    assert_eq!(decode_prefix(0xF3), Some(Prefix::Rep));
}

#[test]
fn decode_prefix_non_prefix() {
    assert_eq!(decode_prefix(0x90), None);
    assert_eq!(decode_prefix(0x00), None);
    assert_eq!(decode_prefix(0xFF), None);
}

#[test]
fn modrm_all_reg_encodings() {
    for reg in 0..8u8 {
        let byte = 0xC0 | (reg << 3);
        let m = ModRM::decode(byte);
        assert_eq!(m.reg, reg);
        assert_eq!(m.mod_bits, 3);
        assert_eq!(m.rm, 0);
    }
}

#[test]
fn modrm_all_rm_encodings() {
    for rm in 0..8u8 {
        let byte = rm;
        let m = ModRM::decode(byte);
        assert_eq!(m.rm, rm);
        assert_eq!(m.mod_bits, 0);
        assert_eq!(m.reg, 0);
    }
}
