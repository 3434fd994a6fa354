use lib::cpu::i8088::registers::SegReg;
use lib::cpu::i8088::{Biu, QueueStatus, Stage, I8088};

#[test]
fn new_reset_state() {
    let cpu = I8088::new();
    assert_eq!(cpu.cs, 0xFFFF);
    assert_eq!(cpu.ip, 0x0000);
    assert_eq!(cpu.ax, 0);
    assert_eq!(cpu.ds, 0);
    assert_eq!(cpu.sp, 0);
    assert!(cpu.at_instruction_boundary());
}

#[test]
fn flags_normalized_on_new() {
    let cpu = I8088::new();
    assert_ne!(cpu.flags & 0x0002, 0);
    assert_eq!(cpu.flags & 0xF000, 0xF000);
}

#[test]
fn snapshot_round_trip() {
    let mut cpu = I8088::new();
    cpu.ax = 0x1234;
    cpu.bx = 0x5678;
    cpu.cs = 0xABCD;
    cpu.ip = 0xEF01;
    let snap = cpu.snapshot();
    assert_eq!(snap.ax, 0x1234);
    assert_eq!(snap.bx, 0x5678);
    assert_eq!(snap.cs, 0xABCD);
    assert_eq!(snap.ip, 0xEF01);
}

#[test]
fn default_segment_for_bp() {
    let cpu = I8088::new();
    assert_eq!(cpu.default_segment_for_rm(6, 1), SegReg::SS);
    assert_eq!(cpu.default_segment_for_rm(6, 2), SegReg::SS);
    assert_eq!(cpu.default_segment_for_rm(6, 0), SegReg::DS);
    assert_eq!(cpu.default_segment_for_rm(2, 0), SegReg::SS);
    assert_eq!(cpu.default_segment_for_rm(2, 1), SegReg::SS);
    assert_eq!(cpu.default_segment_for_rm(7, 0), SegReg::DS);
}

#[test]
fn effective_segment_default() {
    let mut cpu = I8088::new();
    cpu.ds = 0x1000;
    cpu.ss = 0x2000;
    cpu.segment_override = None;
    assert_eq!(cpu.effective_segment(SegReg::DS), 0x1000);
    assert_eq!(cpu.effective_segment(SegReg::SS), 0x2000);
}

#[test]
fn effective_segment_override() {
    let mut cpu = I8088::new();
    cpu.ds = 0x1000;
    cpu.es = 0x3000;
    cpu.segment_override = Some(SegReg::ES);
    assert_eq!(cpu.effective_segment(SegReg::DS), 0x3000);
}

#[test]
fn is_sleeping_when_halted() {
    let mut cpu = I8088::new();
    assert!(!cpu.is_sleeping());
    cpu.halted = true;
    assert!(cpu.is_sleeping());
}

fn load(bytes: &[u8]) -> (I8088, Vec<Stage>) {
    let mut cpu = I8088::new();
    let mut seen = vec![cpu.stage];
    for &b in bytes {
        cpu.instr[cpu.instr_len as usize] = b;
        cpu.instr_len += 1;
        if cpu.advance_stage() {
            break;
        }
        seen.push(cpu.stage);
    }
    (cpu, seen)
}

#[test]
fn the_loader_walks_opcode_modrm_and_a_byte_displacement() {
    let (cpu, seen) = load(&[0x00, 0x75, 0x9C]);
    assert_eq!(
        seen,
        vec![Stage::Opcode, Stage::Modrm, Stage::Displacement(1)]
    );
    assert_eq!(cpu.instr_len, 3, "three bytes and no more");
    assert_eq!(cpu.opcode_at, 0);
}

#[test]
fn a_prefix_keeps_the_loader_in_the_opcode_stage() {
    let (cpu, seen) = load(&[0x36, 0x00, 0x06, 0x34, 0x12]);
    assert_eq!(
        seen,
        vec![
            Stage::Opcode,
            Stage::Opcode,
            Stage::Modrm,
            Stage::Displacement(2),
            Stage::Displacement(1),
        ]
    );
    assert_eq!(cpu.opcode_at, 1, "the opcode is behind the prefix");
    assert_eq!(cpu.instr_len, 5);
}

#[test]
fn the_direct_address_form_takes_two_displacement_bytes() {
    let (cpu, _) = load(&[0x8A, 0x06, 0x34, 0x12]);
    assert_eq!(cpu.instr_len, 4, "MOV AL, [1234h] is four bytes");
}

#[test]
fn a_displacement_and_an_immediate_are_both_fetched() {
    let (cpu, seen) = load(&[0x81, 0x87, 0x34, 0x12, 0x78, 0x56]);
    assert_eq!(
        seen,
        vec![
            Stage::Opcode,
            Stage::Modrm,
            Stage::Displacement(2),
            Stage::Displacement(1),
            Stage::Immediate(2),
            Stage::Immediate(1),
        ]
    );
    assert_eq!(cpu.instr_len, 6);
}

#[test]
fn the_unary_group_fetches_an_immediate_only_for_test() {
    let (test, _) = load(&[0xF6, 0x07, 0x42]);
    assert_eq!(test.instr_len, 3);

    let (not, _) = load(&[0xF6, 0x17, 0x42]);
    assert_eq!(not.instr_len, 2, "NOT takes no immediate");
}

#[test]
fn a_far_jump_fetches_all_four_pointer_bytes() {
    let (cpu, _) = load(&[0xEA, 0x00, 0x10, 0x00, 0x20]);
    assert_eq!(cpu.instr_len, 5);
}

#[test]
fn a_bare_opcode_is_complete_the_moment_it_arrives() {
    let (cpu, seen) = load(&[0x90]);
    assert_eq!(seen, vec![Stage::Opcode], "no stage after the opcode");
    assert_eq!(cpu.instr_len, 1);
    assert_eq!(cpu.stage, Stage::Opcode, "reset for the next instruction");
}

#[test]
fn an_installed_queue_puts_the_prefetch_pointer_past_it() {
    let mut cpu = I8088::new();
    cpu.cs = 0x1000;
    cpu.ip = 0x0100;
    cpu.load_prefetch_queue(&[0x90, 0x91, 0x92]);

    assert_eq!(cpu.prefetch_queue(), &[0x90, 0x91, 0x92]);
    assert_eq!(cpu.ip, 0x0100);
    assert_eq!(cpu.prefetch_ip, 0x0103);
}

#[test]
fn a_flush_restarts_prefetching_at_the_new_address() {
    let mut cpu = I8088::new();
    cpu.cs = 0x1000;
    cpu.ip = 0x0100;
    cpu.load_prefetch_queue(&[0x90, 0x91, 0x92, 0x93]);
    assert_eq!(
        cpu.biu,
        Biu::Idle,
        "a full queue leaves the BIU nothing to do"
    );

    cpu.set_ip(0x0200);
    cpu.flush_queue();

    assert!(cpu.prefetch_queue().is_empty());
    assert_eq!(cpu.prefetch_ip, 0x0200);
    assert_eq!(cpu.biu, Biu::Idle);
    assert_eq!(
        cpu.queue_status,
        Some((QueueStatus::Emptied, 0)),
        "a flush is reported on QS0/QS1 as E"
    );
}

#[test]
fn the_queue_is_first_in_first_out() {
    let mut cpu = I8088::new();
    cpu.load_prefetch_queue(&[0x11, 0x22]);
    cpu.push_queue(0x33);

    assert_eq!(cpu.pop_queue(), 0x11);
    assert_eq!(cpu.pop_queue(), 0x22);
    assert_eq!(cpu.pop_queue(), 0x33);
    assert_eq!(cpu.queue_len, 0);
}

#[test]
fn the_biu_wants_to_fetch_whenever_one_byte_is_free() {
    let mut cpu = I8088::new();
    cpu.load_prefetch_queue(&[0, 1, 2, 3]);
    assert!(!cpu.queue_has_room(), "a full queue has no room");
    cpu.pop_queue();
    assert!(cpu.queue_has_room(), "one byte free is enough");
}

#[test]
fn a_branch_to_the_next_instruction_still_counts_as_a_transfer() {
    let mut cpu = I8088::new();
    cpu.ip = 0x0100;
    cpu.transferred = false;

    cpu.set_ip(0x0100);

    assert_eq!(cpu.ip, 0x0100, "the address did not move");
    assert!(cpu.transferred, "but control was transferred");
}
