use lib::cpu::i8088::access::{ea_post_disp_cycles, operand_access, Access, Width};
use lib::cpu::i8088::timing::{self, LoaderStall};

const NONE: Access = Access { reads: false, writes: false, width: Width::Byte };
const READ_B: Access = Access { reads: true, writes: false, width: Width::Byte };
const READ_W: Access = Access { reads: true, writes: false, width: Width::Word };
const RMW_B: Access = Access { reads: true, writes: true, width: Width::Byte };
const RMW_W: Access = Access { reads: true, writes: true, width: Width::Word };
const READ_FAR: Access = Access { reads: true, writes: false, width: Width::FarPointer };

#[test]
fn lea_addresses_memory_without_touching_it() {
    assert_eq!(operand_access(0x8D, 0x06), NONE);
}

#[test]
fn cmp_reads_its_operand_and_does_not_write_it() {
    let cmp = operand_access(0x38, 0x06);
    assert!(cmp.reads);
    assert!(!cmp.writes);
    let cmp_imm = operand_access(0x80, 0b00_111_110);
    assert!(cmp_imm.reads);
    assert!(!cmp_imm.writes);
    assert!(operand_access(0x80, 0b00_000_110).writes, "ADD writes back");
}

#[test]
fn the_rest_of_the_alu_block_writes_back_to_a_memory_destination() {
    for op in 0..7u8 {
        let opcode = op << 3;
        assert_eq!(operand_access(opcode, 0x06), RMW_B, "{opcode:#04X}");
        assert_eq!(operand_access(opcode | 1, 0x06), RMW_W, "{opcode:#04X}+1");
        assert_eq!(operand_access(opcode | 2, 0x06), READ_B);
        assert_eq!(operand_access(opcode | 3, 0x06), READ_W);
    }
}

#[test]
fn the_unary_group_splits_on_its_reg_field() {
    assert_eq!(operand_access(0xF6, 0b00_000_110), READ_B, "TEST");
    assert_eq!(operand_access(0xF6, 0b00_001_110), READ_B, "TEST alias");
    assert_eq!(operand_access(0xF6, 0b00_010_110), RMW_B, "NOT");
    assert_eq!(operand_access(0xF6, 0b00_011_110), RMW_B, "NEG");
    assert_eq!(operand_access(0xF6, 0b00_100_110), READ_B, "MUL");
    assert_eq!(operand_access(0xF7, 0b00_110_110), READ_W, "DIV");
}

#[test]
fn far_pointers_are_four_bytes_wide() {
    assert_eq!(operand_access(0xC4, 0x06), READ_FAR, "LES");
    assert_eq!(operand_access(0xC5, 0x06), READ_FAR, "LDS");
    assert_eq!(operand_access(0xFF, 0b00_011_110), READ_FAR, "CALL far");
    assert_eq!(operand_access(0xFF, 0b00_101_110), READ_FAR, "JMP far");
    assert_eq!(Width::FarPointer.bytes(), 4);
    assert_eq!(Width::Word.bytes(), 2);
    assert_eq!(Width::Byte.bytes(), 1);
}

#[test]
fn a_store_does_not_read_its_destination() {
    for op in [0x88u8, 0x89, 0x8C, 0xC6, 0xC7, 0x8F] {
        let a = operand_access(op, 0x06);
        assert!(!a.reads, "{op:#04X} should not read");
        assert!(a.writes, "{op:#04X} should write");
    }
}

#[test]
fn every_opcode_and_reg_field_has_an_answer() {
    for opcode in 0..=0xFFu8 {
        for reg in 0..8u8 {
            let _ = operand_access(opcode, reg << 3);
        }
    }
}

#[test]
fn a_byte_displacement_finishes_slower_than_a_word_one() {
    assert_eq!(ea_post_disp_cycles(0b01_000_111), 3, "[BX+d8]");
    assert_eq!(ea_post_disp_cycles(0b10_000_111), 2, "[BX+d16]");
}

#[test]
fn the_halves_of_the_address_split_by_whether_there_is_a_displacement() {
    for rm in [0u8, 1, 2, 3, 4, 5, 7] {
        assert_eq!(ea_post_disp_cycles(rm), 0, "mod=00 rm={rm}");
    }
    assert_eq!(ea_post_disp_cycles(0b00_000_110), 1, "[disp16]");
}

#[test]
fn a_register_operand_costs_nothing_to_address() {
    for rm in 0..8u8 {
        assert_eq!(ea_post_disp_cycles(0b11_000_000 | rm), 0, "rm={rm}");
    }
}

#[test]
fn the_two_halves_match_the_published_per_mode_table() {

    let published: &[(u8, u8, u8, u8)] = &[
        (0, 0, 4, 0),
        (0, 1, 5, 0),
        (0, 2, 5, 0),
        (0, 3, 4, 0),
        (0, 4, 2, 0),
        (0, 5, 2, 0),
        (0, 6, 0, 1),
        (0, 7, 2, 0),
        (1, 0, 4, 3),
        (1, 1, 5, 3),
        (1, 2, 5, 3),
        (1, 3, 4, 3),
        (1, 4, 2, 3),
        (1, 5, 2, 3),
        (1, 6, 2, 3),
        (1, 7, 2, 3),
        (2, 0, 4, 2),
        (2, 1, 5, 2),
        (2, 2, 5, 2),
        (2, 3, 4, 2),
        (2, 4, 2, 2),
        (2, 5, 2, 2),
        (2, 6, 2, 2),
        (2, 7, 2, 2),
    ];

    for &(mod_bits, rm, pre, post) in published {
        let modrm = (mod_bits << 6) | rm;
        assert_eq!(
            ea_post_disp_cycles(modrm),
            post,
            "mod={mod_bits} rm={rm}: after the displacement"
        );
        let want = match timing::loader_stall(0x8B, modrm) {
            LoaderStall::BeforeDisplacement(n) => n,
            _ => 0,
        };
        let expected = if mod_bits == 0 && rm != 6 {
            0
        } else {
            1 + pre
        };
        assert_eq!(
            want, expected,
            "mod={mod_bits} rm={rm}: before the displacement"
        );
    }
}
