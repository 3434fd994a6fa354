use lib::cpu::i8088::access;
use lib::cpu::i8088::microcode::{self, Step};
use lib::cpu::i8088::timing::{
    aam_routine_cycles, branch_cycles, branches_on_state, cord, corx_cycles, divide_routine_cycles,
    eu_cycles, is_modeled, multiply_routine_cycles, shift_count_cycles, signed_divide_cycles,
    signed_divide_routine_cycles, signed_multiply_cycles, signed_multiply_routine_cycles, Loop,
};

#[test]
fn byte_and_word_forms_cost_the_eu_the_same() {
    let mem = 0b00_000_100;
    let reg = 0b11_000_001;
    for (byte_op, word_op, carries_immediate) in [
        (0x00u8, 0x01u8, false),
        (0x02, 0x03, false),    
        (0x38, 0x39, false),    
        (0x3A, 0x3B, false),    
        (0x84, 0x85, false),    
        (0x86, 0x87, false),    
        (0x88, 0x89, false),    
        (0x8A, 0x8B, false),    
        (0xC6, 0xC7, true),     
        (0xD0, 0xD1, false),    
        (0xD2, 0xD3, false),    
        (0xF6, 0xF7, true), 
        (0xFE, 0xFF, false),
    ] {
        for modrm in [mem, reg] {
            let what = if modrm == mem { "memory" } else { "register" };
            assert_eq!(
                eu_cycles(byte_op, modrm),
                eu_cycles(word_op, modrm),
                "{byte_op:#04X} and {word_op:#04X} disagree on a {what} operand"
            );
            let by = microcode::routine(byte_op, modrm, false, 0, None);
            let wo = microcode::routine(word_op, modrm, false, 0, None);
            if carries_immediate {
                let (Some(by), Some(wo)) = (by, wo) else {
                    continue;
                };
                assert_eq!(
                    by.clocks(),
                    wo.clocks() + 1,
                    "{byte_op:#04X} and {word_op:#04X} differ by other than \
                     the immediate's jump on a {what} operand"
                );
            } else {
                assert_eq!(
                    by, wo,
                    "{byte_op:#04X} and {word_op:#04X} run different \
                     routines on a {what} operand"
                );
            }
        }
    }
}

#[test]
fn cmp_costs_less_than_the_alu_operations_it_resembles() {
    let mem = 0b00_000_100;
    let add =
        microcode::routine(0x00, mem, false, 0, None).expect("ADD r/m8, reg8");
    let cmp =
        microcode::routine(0x38, mem, false, 0, None).expect("CMP r/m8, reg8");
    assert_ne!(add, cmp, "CMP must not run the writing routine");
    let add_imm = microcode::routine(0x80, 0b00_000_100, false, 0, None)
        .expect("ADD r/m8, imm8");
    let cmp_imm = microcode::routine(0x80, 0b00_111_100, false, 0, None)
        .expect("CMP r/m8, imm8");
    assert!(add_imm.contains(Step::WriteOperand), "ADD writes back");
    assert!(
        !cmp_imm.contains(Step::WriteOperand),
        "CMP must stay cheaper than the operations that write back"
    );
}

#[test]
fn the_multiplies_and_divides_cost_both_operand_forms_alike() {
    for op in [0xF6u8, 0xF7] {
        for reg in 4u8..=7 {
            assert_eq!(
                eu_cycles(op, 0b11_000_000 | (reg << 3)),
                0,
                "{op:#04X} /{reg} register form"
            );
            assert_eq!(
                eu_cycles(op, 0b00_000_100 | (reg << 3)),
                0,
                "{op:#04X} /{reg} memory form"
            );
        }
    }
}

#[test]
fn a_mov_store_does_more_than_a_load() {
    let mem = 0b00_000_100;
    let store = microcode::routine(0x88, mem, false, 0, None).expect("MOV r/m8, reg8");
    let load = microcode::routine(0x8A, mem, false, 0, None).expect("MOV reg8, r/m8");
    assert!(store.contains(Step::WriteOperand), "a store writes back");
    assert!(
        !load.contains(Step::WriteOperand),
        "a load's destination is a register"
    );
    assert_ne!(store, load);
}

#[test]
fn lea_is_two_clocks_and_no_transfers() {
    assert_eq!(eu_cycles(0x8D, 0b00_000_100), 0, "no row");
    assert_eq!(
        microcode::routine(0x8D, 0b00_000_100, false, 0, None)
            .expect("LEA runs a routine")
            .clocks(),
        2
    );
}

#[test]
fn the_multiplies_and_divides_are_modeled_outside_the_table() {
    for reg in [4u8, 5, 6, 7] {
        let modrm = 0b11_000_000 | (reg << 3);
        assert_eq!(eu_cycles(0xF6, modrm), 0);
        assert!(is_modeled(0xF6, modrm), "reg={reg}");
        assert!(is_modeled(0xF7, modrm), "reg={reg}");
    }
    for reg in [0u8, 1, 2, 3] {
        assert!(is_modeled(0xF7, 0b11_000_000 | (reg << 3)), "reg={reg}");
    }
}

#[test]
fn a_divide_error_costs_the_same_however_it_was_caused() {
    for (word, dividend, divisor) in [
        (false, 0x1234, 0),
        (true, 0x1234_5678, 0),
        (false, 0xFF00, 1),
        (true, 0xFFFF_0000, 1),
    ] {
        assert!(
            matches!(
                divide_routine_cycles(word, dividend, divisor),
                Loop::Faulted(_)
            ),
            "{dividend:#X}/{divisor}"
        );
    }
    assert!(
        matches!(aam_routine_cycles(0x42, 0), Loop::Faulted(_)),
        "AAM by zero"
    );
}

#[test]
fn aam_and_divide_walk_the_same_loop() {
    for imm in 1..=255u8 {
        for al in [0u8, 1, 7, 8, 9, 10, 63, 64, 127, 128, 200, 255] {
            let div = divide_routine_cycles(false, u32::from(al), u32::from(imm));
            let aam = aam_routine_cycles(al, imm);
            match (div, aam) {
                (Loop::Completed(div), Loop::Completed(aam)) => {
                    assert_eq!(div - aam, 4, "AL={al} imm={imm}");
                }
                (Loop::Faulted(div), Loop::Faulted(aam)) => {
                    assert_eq!(div - aam, 3, "AL={al} imm={imm}");
                }
                _ => panic!("AL={al} imm={imm}: one faulted and the other did not"),
            }
        }
    }
}

#[test]
fn the_odd_quotient_term_does_not_stand_on_its_own() {
    let (Loop::Completed(odd), Loop::Completed(even)) = (
        divide_routine_cycles(false, 202, 2),
        divide_routine_cycles(false, 200, 2),
    ) else {
        panic!("neither divide faults");
    };
    assert_eq!(odd, even + 3);
}

#[test]
fn the_ascii_multiply_counts_the_immediates_bits() {
    for (imm, bits) in [(0u8, 0u32), (0x0A, 2), (0xFF, 8)] {
        assert_eq!(imm.count_ones(), bits, "{imm:#04X}");
        assert_eq!(
            microcode::routine(0xD5, imm, false, 0, None)
                .expect("AAD runs a routine")
                .clocks(),
            corx_cycles(8, bits) + 5,
            "{imm:#04X}"
        );
    }
    assert_eq!(corx_cycles(8, 0), 51);
    assert_eq!(corx_cycles(8, 8), 59);
    assert_eq!(corx_cycles(16, 0), 99);
}

#[test]
fn divide_timing_lands_inside_the_published_range() {
    for divisor in 1..=255u32 {
        for dividend in [1u32, 0x0100, 0x3FFF, 0x7F00] {
            let Loop::Completed(c) = divide_routine_cycles(false, dividend, divisor) else {
                continue;
            };
            assert!(
                (80 - PUBLISHED_OVERHEAD..=90 - PUBLISHED_OVERHEAD).contains(&c),
                "{dividend}/{divisor} gave {c}"
            );
        }
    }
}

const PUBLISHED_OVERHEAD: u16 = 2;

#[test]
fn the_multiply_rules_reproduce_the_published_ranges() {
    for (word, multiplier, published) in [
        (false, 0x0001u16, 70u16),
        (false, 0x00FF, 77),
        (true, 0x0001, 118),
        (true, 0xFFFF, 133),
    ] {
        assert_eq!(
            multiply_routine_cycles(word, multiplier, false) + PUBLISHED_OVERHEAD,
            published,
            "word={word} multiplier={multiplier:#06X}"
        );
    }
}

#[test]
fn the_signed_multiply_reproduces_its_measured_sign_combinations() {
    for (word, base) in [(false, 79), (true, 127)] {
        let (positive, negative) = if word {
            (0x0100, -0x0100)
        } else {
            (0x10, -0x10)
        };
        let other = if word { 0x0FF0 } else { 0x7F };
        assert_eq!(
            signed_multiply_cycles(word, other, positive, false),
            base + 1,
            "neither negative, word={word}"
        );
        assert_eq!(
            signed_multiply_cycles(word, -other, positive, false),
            base + 1 + 11,
            "multiplicand negative, word={word}"
        );
        assert_eq!(
            signed_multiply_cycles(word, other, negative, false),
            base + 1 + 14,
            "multiplier negative, word={word}"
        );
        assert_eq!(
            signed_multiply_cycles(word, -other, negative, false),
            base + 1 + 1,
            "both negative, word={word}"
        );
    }
}

#[test]
fn the_signed_multiply_is_the_unsigned_one_plus_ten() {
    for (word, multiplier) in [(false, 0x0F), (true, 0x0FFF)] {
        assert_eq!(
            signed_multiply_cycles(word, 1, multiplier, false),
            multiply_routine_cycles(word, multiplier as u16, false) + 10 + PUBLISHED_OVERHEAD,
            "word={word}"
        );
    }
}

#[test]
fn the_counted_signed_routines_reproduce_the_measured_table() {
    for word in [false, true] {
        let (a, b) = if word {
            (0x0FFFi32, 0x0033)
        } else {
            (0x0Fi32, 0x33)
        };
        for (multiplicand, multiplier) in [(b, a), (-b, a), (b, -a), (-b, -a)] {
            assert_eq!(
                signed_multiply_routine_cycles(word, multiplicand, multiplier, false)
                    + PUBLISHED_OVERHEAD,
                signed_multiply_cycles(word, multiplicand, multiplier, false),
                "IMUL word={word} {multiplicand}x{multiplier}"
            );
        }
        let (dividend, divisor) = if word {
            (0x4000i64, 0x1000i64)
        } else {
            (0x40, 0x10)
        };
        for (dividend, divisor) in [
            (dividend, divisor),
            (-dividend, divisor),
            (dividend, -divisor),
            (-dividend, -divisor),
        ] {
            let Loop::Completed(counted) =
                signed_divide_routine_cycles(word, dividend, divisor)
            else {
                panic!("IDIV word={word} {dividend}/{divisor} should divide");
            };
            assert_eq!(
                counted + PUBLISHED_OVERHEAD,
                signed_divide_cycles(word, dividend, divisor),
                "IDIV word={word} {dividend}/{divisor}"
            );
        }
    }
}

#[test]
fn the_signed_divide_reproduces_its_three_populations() {
    for (word, base) in [(false, 101u16), (true, 165)] {
        let (dividend, divisor) = if word { (0x4000, 0x1000) } else { (0x40, 0x10) };
        let plain = signed_divide_cycles(word, dividend, divisor);
        assert!(plain >= base, "word={word} gave {plain}");
        assert_eq!(
            signed_divide_cycles(word, -dividend, divisor),
            plain + 4,
            "word={word}"
        );
        assert_eq!(
            signed_divide_cycles(word, dividend, -divisor),
            plain - 1,
            "word={word}"
        );
        assert_eq!(
            signed_divide_cycles(word, -dividend, -divisor),
            plain + 3,
            "word={word}"
        );
        let late: i64 = if word { 0x9000 } else { 0x90 };
        let width = if word { 16 } else { 8 };
        let (compared, last_bit) = cord(late as u32, 1, width);
        assert_eq!(
            signed_divide_cycles(word, late, 1),
            base + compared + 2 * u16::from(last_bit) + 59 - 31,
            "word={word}"
        );
        assert_eq!(signed_divide_cycles(word, dividend, 0), 89 - 31);
        let huge = if word { 0x7FFF_FFFF } else { 0x7FFF };
        assert_eq!(signed_divide_cycles(word, huge, 1), 89 - 31);
    }
}

#[test]
fn a_product_with_a_zero_high_half_costs_one_more() {
    for multiplier in [0x0001u16, 0x00FF] {
        assert_eq!(
            multiply_routine_cycles(false, multiplier, true),
            multiply_routine_cycles(false, multiplier, false) + 1,
            "multiplier={multiplier:#06X}"
        );
    }
}

#[test]
fn the_byte_multiply_ignores_the_high_half_of_the_accumulator() {
    assert_eq!(
        multiply_routine_cycles(false, 0x0001, false),
        multiply_routine_cycles(false, 0xFF01, false),
        "AH must not affect a byte multiply"
    );
    assert_ne!(
        multiply_routine_cycles(true, 0x0001, false),
        multiply_routine_cycles(true, 0xFF01, false)
    );
}

#[test]
fn an_opcode_with_a_routine_has_no_row() {
    for opcode in 0..=u8::MAX {
        for modrm in [0x00u8, 0xC0, 0x10, 0xD0, 0x20, 0xE0, 0x30, 0xF0] {
            for branch in [false, true] {
                if microcode::routine(opcode, modrm, branch, 0, None).is_none() {
                    continue;
                }
                assert_eq!(
                    eu_cycles(opcode, modrm),
                    0,
                    "{opcode:#04X}/{modrm:#04X} is priced by a routine and by a row"
                );
                if branches_on_state(opcode) {
                    assert_eq!(
                        branch_cycles(opcode, branch),
                        0,
                        "{opcode:#04X} is priced by a routine and by a branch row"
                    );
                }
            }
        }
    }
}

#[test]
fn pop_cs_is_not_an_alu_operation() {
    assert_eq!(eu_cycles(0x0F, 0), 4, "POP CS");
}

#[test]
fn the_single_byte_increments_are_the_word_form() {
    for op in 0x40u8..=0x4F {
        assert_eq!(eu_cycles(op, 0), 2, "{op:#04X}");
        assert!(
            microcode::routine(op, 0, false, 0, None).is_none(),
            "{op:#04X} is a row, not a routine"
        );
    }
    assert_eq!(
        eu_cycles(0xFE, 0b11_000_000),
        0,
        "the group form has no row"
    );
    assert_eq!(
        microcode::routine(0xFE, 0b11_000_000, false, 0, None)
            .expect("INC reg8 runs a routine")
            .clocks(),
        1,
        "INC reg8 spends 0x020 and nothing else"
    );
}

#[test]
fn the_bcd_adjusts_are_not_alu_operations() {
    for op in [0x27u8, 0x2F] {
        assert_eq!(eu_cycles(op, 0), 4, "{op:#04X}");
        assert!(is_modeled(op, 0), "{op:#04X}");
    }
    for op in [0x37u8, 0x3F] {
        assert!(is_modeled(op, 0), "{op:#04X}");
        assert!(branches_on_state(op), "{op:#04X}");
        assert!(branch_cycles(op, true) >= 8, "{op:#04X}");
    }
}

#[test]
fn a_shift_by_cl_costs_four_clocks_per_bit_unmasked() {
    assert_eq!(shift_count_cycles(0), 0);
    assert_eq!(shift_count_cycles(1), 4);
    assert_eq!(shift_count_cycles(255), 1020);
}

#[test]
fn every_opcode_and_form_gives_a_sane_answer() {
    for opcode in 0..=0xFFu8 {
        for modrm in [0b00_000_100u8, 0b11_000_001, 0b01_111_110, 0b10_100_010] {
            let c = eu_cycles(opcode, modrm);
            let limit = if matches!(opcode, 0xCC | 0xCD) {
                40
            } else {
                20
            };
            assert!(c <= limit, "{opcode:#04X}/{modrm:#04X} gave {c}");
        }
    }
}

#[test]
fn a_conditional_transfer_costs_more_when_it_transfers() {
    for opcode in [0x60u8, 0x70, 0x7F, 0xE0, 0xE1, 0xE2, 0xE3, 0xCE] {
        let taken = microcode::routine(opcode, 0, true, 0, None);
        let untaken = microcode::routine(opcode, 0, false, 0, None);
        match (taken, untaken) {
            (Some(taken), Some(untaken)) => {
                assert!(taken.clocks() > untaken.clocks(), "{opcode:#04X} routine")
            }
            _ => assert!(
                branch_cycles(opcode, true) > branch_cycles(opcode, false),
                "{opcode:#04X} row"
            ),
        }
        assert!(branches_on_state(opcode), "{opcode:#04X}");
    }
    for opcode in [0x9Au8, 0xC3, 0xCB, 0xCF, 0xE8, 0xE9, 0xEA, 0xEB] {
        assert!(!branches_on_state(opcode), "{opcode:#04X}");
        assert!(
            eu_cycles(opcode, 0) > 0
                || microcode::routine(opcode, 0, false, 0, None).is_some(),
            "{opcode:#04X}"
        );
    }
}

#[test]
fn the_adjusts_and_the_sign_extension_branch_the_other_way() {
    for opcode in [0x37u8, 0x3F] {
        assert_eq!(branch_cycles(opcode, true), 8, "{opcode:#04X} adjusting");
        assert_eq!(branch_cycles(opcode, false), 9, "{opcode:#04X} not");
        assert!(branches_on_state(opcode));
    }
    assert_eq!(branch_cycles(0x99, true), 6, "AX negative");
    assert_eq!(branch_cycles(0x99, false), 5, "AX positive");
    for opcode in [0x27u8, 0x2F] {
        assert!(!branches_on_state(opcode), "{opcode:#04X}");
        assert_eq!(eu_cycles(opcode, 0), 4, "{opcode:#04X}");
    }
}

#[test]
fn the_direct_address_moves_and_xlat_are_modeled() {
    for opcode in [0xA0u8, 0xA1, 0xA2, 0xA3] {
        assert_eq!(eu_cycles(opcode, 0), 0, "{opcode:#04X} has no row");
        let stores = opcode & 0x02 != 0;
        assert_eq!(
            microcode::routine(opcode, 0, false, 0, None)
                .expect("a direct-address move runs a routine")
                .clocks(),
            u16::from(stores),
            "{opcode:#04X} spends 0x066 only when it writes"
        );
    }
    assert_eq!(eu_cycles(0xD7, 0), 0, "XLAT has no row");
    assert_eq!(
        microcode::routine(0xD7, 0, false, 0, None)
            .expect("XLAT runs a routine")
            .clocks(),
        3,
        "0x10c, 0x10d and 0x10e, all three in front of the read"
    );
    assert!(
        access::reads_from_its_routine(0xD7),
        "and the pipeline leaves the read to it"
    );
    for opcode in [0xA0u8, 0xA1, 0xA2, 0xA3, 0xD7] {
        assert!(is_modeled(opcode, 0), "{opcode:#04X}");
    }
}

#[test]
fn the_return_aliases_run_what_they_alias() {
    for (alias, documented) in [(0xC0u8, 0xC2u8), (0xC1, 0xC3), (0xC8, 0xCA), (0xC9, 0xCB)] {
        assert_eq!(
            microcode::routine(alias, 0, false, 0, None),
            microcode::routine(documented, 0, false, 0, None),
            "{alias:#04X} against {documented:#04X}"
        );
    }
}
