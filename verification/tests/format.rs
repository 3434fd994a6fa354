use lib::cpu::i8088::format::{displacement_len, format_of, Format, Imm};

const BARE: Format = Format { modrm: false, imm: Imm::Zero };
const MODRM: Format = Format { modrm: true, imm: Imm::Zero };
const IMM8: Format = Format { modrm: false, imm: Imm::Byte };
const IMM16: Format = Format { modrm: false, imm: Imm::Word };

#[test]
fn the_unary_group_takes_an_immediate_only_for_test() {
    assert_eq!(Imm::ByteIfTest.len(Some(0b11_000_000)), 1);
    assert_eq!(Imm::ByteIfTest.len(Some(0b11_001_000)), 1);
    assert_eq!(Imm::WordIfTest.len(Some(0b11_000_000)), 2);
    assert_eq!(Imm::WordIfTest.len(Some(0b11_001_000)), 2);
    for reg in 2..8u8 {
        assert_eq!(Imm::ByteIfTest.len(Some(reg << 3)), 0, "reg={reg}");
        assert_eq!(Imm::WordIfTest.len(Some(reg << 3)), 0, "reg={reg}");
    }
}

#[test]
fn the_direct_address_escape_is_two_bytes_and_bp_is_not() {
    assert_eq!(
        displacement_len(0b00_000_110),
        2,
        "mod=00 rm=110 is [disp16]"
    );
    assert_eq!(displacement_len(0b00_000_111), 0, "mod=00 rm=111 is [BX]");
    assert_eq!(displacement_len(0b01_000_110), 1);
    assert_eq!(displacement_len(0b10_000_110), 2);
}

#[test]
fn a_register_operand_has_no_displacement() {
    for rm in 0..8u8 {
        assert_eq!(displacement_len(0b11_000_000 | rm), 0, "rm={rm}");
    }
}

#[test]
fn every_mod_01_form_has_a_signed_byte_displacement() {
    for rm in 0..8u8 {
        assert_eq!(displacement_len(0b01_000_000 | rm), 1, "rm={rm}");
    }
}

#[test]
fn the_alu_block_repeats_the_same_six_forms_eight_times() {
    for base in (0x00..0x40).step_by(8) {
        assert_eq!(format_of(base), MODRM, "{base:#04X}");
        assert_eq!(format_of(base + 1), MODRM, "{:#04X}", base + 1);
        assert_eq!(format_of(base + 2), MODRM, "{:#04X}", base + 2);
        assert_eq!(format_of(base + 3), MODRM, "{:#04X}", base + 3);
        assert_eq!(format_of(base + 4), IMM8, "{:#04X}", base + 4);
        assert_eq!(format_of(base + 5), IMM16, "{:#04X}", base + 5);
        assert_eq!(format_of(base + 6), BARE, "{:#04X}", base + 6);
        assert_eq!(format_of(base + 7), BARE, "{:#04X}", base + 7);
    }
}

#[test]
fn only_the_far_transfers_carry_a_four_byte_operand() {
    assert_eq!(format_of(0x9A).imm, Imm::FarPointer);
    assert_eq!(format_of(0xEA).imm, Imm::FarPointer);
    assert_eq!(Imm::FarPointer.len(None), 4);
    for op in 0..=0xFFu8 {
        if op != 0x9A && op != 0xEA {
            assert_ne!(format_of(op).imm, Imm::FarPointer, "{op:#04X}");
        }
    }
}

#[test]
fn the_mov_immediate_block_changes_width_at_its_midpoint() {
    for op in 0xB0..=0xB7u8 {
        assert_eq!(format_of(op), IMM8, "{op:#04X}");
    }
    for op in 0xB8..=0xBFu8 {
        assert_eq!(format_of(op), IMM16, "{op:#04X}");
    }
}

#[test]
fn the_ret_aliases_match_the_instructions_they_alias() {
    assert_eq!(format_of(0xC0), format_of(0xC2), "RET imm16");
    assert_eq!(format_of(0xC1), format_of(0xC3), "RET");
    assert_eq!(format_of(0xC8), format_of(0xCA), "RETF imm16");
    assert_eq!(format_of(0xC9), format_of(0xCB), "RETF");
}

#[test]
fn the_alias_block_takes_a_rel8_like_the_jumps_it_aliases() {
    for op in 0x60..=0x7Fu8 {
        assert_eq!(format_of(op), IMM8, "{op:#04X}");
    }
}

#[test]
fn some_instructions_carry_a_modrm_and_an_immediate() {
    for op in [0x80u8, 0x81, 0x82, 0x83, 0xC6, 0xC7] {
        let f = format_of(op);
        assert!(f.modrm, "{op:#04X}");
        assert_ne!(f.imm, Imm::Zero, "{op:#04X}");
    }
}

#[test]
fn every_opcode_has_a_format_including_the_ones_between_ranges() {
    for op in 0..=0xFFu8 {
        let _ = format_of(op);
    }
    assert_eq!(format_of(0x99), BARE, "CWD");
    assert_eq!(format_of(0x9A).imm, Imm::FarPointer, "CALL far");
    assert_eq!(format_of(0x9B), BARE, "WAIT");
}
