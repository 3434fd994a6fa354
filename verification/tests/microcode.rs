use lib::cpu::i8088::microcode::{interrupt, routine, Routine, Step};

fn count(r: &Routine, step: Step) -> usize {
    r.steps().iter().filter(|s| **s == step).count()
}

fn position(r: &Routine, step: Step) -> Option<usize> {
    r.steps().iter().position(|s| *s == step)
}

fn every_routine() -> Vec<(u8, u8, Routine)> {
    let mut out = Vec::new();
    for opcode in 0..=u8::MAX {
        for modrm in [0x00u8, 0xC0, 0x10, 0xD0, 0x20, 0xE0, 0x30, 0xF0] {
            if let Some(r) = routine(opcode, modrm, false, 0, None) {
                out.push((opcode, modrm, r));
            }
        }
    }
    out
}

#[test]
fn the_interrupt_routine_pushes_the_three_words_it_stages() {
    for entry in [0, 3, 9, 12] {
        for first_line in [false, true] {
            assert_eq!(
                count(&interrupt(entry, first_line), Step::Push),
                3,
                "the interrupt pushes the flags, the return segment and the return offset"
            );
        }
    }
}

#[test]
fn int_3_is_the_interrupt_routine_with_an_entry_cost() {
    let n = interrupt(0, true);
    let three = interrupt(3, true);
    assert_eq!(
        three.steps()[0],
        Step::Spend(3),
        "INT 3 spends 0x1b1, 0x1b2 and the jump"
    );
    assert_eq!(
        &three.steps()[1..],
        n.steps(),
        "everything behind the entry is the same routine"
    );
}

#[test]
fn the_vector_is_read_before_the_transfer_is_computed() {
    let r = interrupt(0, true);
    let run = position(&r, Step::Run).expect("the routine runs the instruction");
    let reads = r.steps()[..run]
        .iter()
        .filter(|s| **s == Step::ReadVectorWord)
        .count();
    assert_eq!(reads, 2, "both vector words are read before the transfer");
}

#[test]
fn the_flush_lands_between_the_second_push_and_the_third() {
    let r = interrupt(0, true);
    let flush = position(&r, Step::Flush).expect("the routine flushes");
    let before = r.steps()[..flush]
        .iter()
        .filter(|s| **s == Step::Push)
        .count();
    assert_eq!(before, 2, "two words are on the stack when the queue goes");
}

#[test]
fn no_routine_spends_zero_clocks() {
    for (opcode, modrm, r) in every_routine() {
        assert!(
            !r.steps().contains(&Step::Spend(0)),
            "{opcode:02X}/{modrm:02X}: a zero-clock spend never retires"
        );
    }
}

#[test]
fn a_transfer_reads_words_the_routine_actually_popped() {
    for (opcode, modrm, r) in every_routine() {
        for far in [false, true] {
            let Some(at) = position(&r, Step::Transfer { far }) else {
                continue;
            };
            let popped = r.steps()[..at].iter().filter(|s| **s == Step::Pop).count();
            let wanted = if far { 2 } else { 1 };
            assert_eq!(
                popped,
                wanted,
                "{opcode:02X}/{modrm:02X}: a {} transfer wants {wanted} words, \
                 the routine popped {popped}",
                if far { "far" } else { "near" },
            );
        }
    }
}

#[test]
fn every_routine_runs_or_flushes() {
    for (opcode, modrm, r) in every_routine() {
        assert!(
            position(&r, Step::Run).is_some() || position(&r, Step::Flush).is_some(),
            "{opcode:02X}/{modrm:02X}: a routine that neither runs nor flushes"
        );
    }
}

#[test]
fn every_suspend_is_followed_by_a_flush() {
    for (opcode, modrm, r) in every_routine() {
        let Some(susp) = position(&r, Step::Susp) else {
            continue;
        };
        assert!(
            r.steps()[susp..].contains(&Step::Flush),
            "{opcode:02X}/{modrm:02X}: SUSP with no flush behind it"
        );
    }
}
