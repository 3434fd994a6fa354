use lib::bus::{Bus, BusMaster, InterruptState};
use lib::cpu::m6502::{ExecState, M6502};

struct Ram {
    mem: Vec<u8>,
    irq: bool,
    nmi: bool,
}

impl Ram {
    fn new() -> Self {
        Ram { mem: vec![0u8; 0x10000], irq: false, nmi: false }
    }

    fn load(&mut self, addr: u16, bytes: &[u8]) {
        for (i, b) in bytes.iter().enumerate() {
            self.mem[addr as usize + i] = *b;
        }
    }
}

impl Bus for Ram {
    type Address = u16;
    type Data = u8;

    fn read(&mut self, _master: BusMaster, addr: u16) -> u8 {
        self.mem[addr as usize]
    }

    fn write(&mut self, _master: BusMaster, addr: u16, data: u8) {
        self.mem[addr as usize] = data;
    }

    fn is_halted_for(&self, _master: BusMaster) -> bool {
        false
    }

    fn check_interrupts(&mut self, _target: BusMaster) -> InterruptState {
        InterruptState { nmi: self.nmi, irq: self.irq, firq: false, irq_vector: 0 }
    }
}

const M: BusMaster = BusMaster::Cpu(0);

/// Runs one whole instruction and returns the clocks it took.
fn step(cpu: &mut M6502, bus: &mut Ram) -> u32 {
    let mut n = 1;
    cpu.execute_cycle(bus, M);
    while cpu.state != ExecState::Fetch {
        cpu.execute_cycle(bus, M);
        n += 1;
    }
    n
}

fn setup(program: &[u8]) -> (M6502, Ram) {
    let mut cpu = M6502::new();
    cpu.pc = 0x0200;
    let mut bus = Ram::new();
    bus.load(0x0200, program);
    (cpu, bus)
}

#[test]
fn m6502_power_on_state() {
    let cpu = M6502::new();
    assert_eq!(cpu.sp, 0xFD);
    assert_eq!(cpu.p, 0x24);
    assert_eq!(cpu.pc, 0);
    assert_eq!(cpu.state, ExecState::Fetch);
    assert!(!cpu.is_sleeping());
}

#[test]
fn m6502_reset_keeps_registers() {
    let mut cpu = M6502::new();
    cpu.a = 0x12;
    cpu.pc = 0x4000;
    cpu.sp = 0x10;
    cpu.p = 0xFF;
    cpu.reset();
    assert_eq!(cpu.a, 0x12);
    assert_eq!(cpu.pc, 0);
    assert_eq!(cpu.sp, 0xFD);
    assert_eq!(cpu.p, 0x24);
}

#[test]
fn m6502_lda_immediate_sets_flags() {
    let (mut cpu, mut bus) = setup(&[0xA9, 0x00, 0xA9, 0x80]);
    assert_eq!(step(&mut cpu, &mut bus), 2);
    assert_eq!(cpu.a, 0);
    assert_ne!(cpu.p & 0x02, 0);
    assert_eq!(step(&mut cpu, &mut bus), 2);
    assert_eq!(cpu.a, 0x80);
    assert_ne!(cpu.p & 0x80, 0);
    assert_eq!(cpu.p & 0x02, 0);
    assert_eq!(cpu.pc, 0x0204);
}

#[test]
fn m6502_adc_binary_overflow() {
    let (mut cpu, mut bus) = setup(&[0x18, 0xA9, 0x50, 0x69, 0x50]);
    step(&mut cpu, &mut bus);
    step(&mut cpu, &mut bus);
    step(&mut cpu, &mut bus);
    assert_eq!(cpu.a, 0xA0);
    assert_ne!(cpu.p & 0x40, 0);
    assert_ne!(cpu.p & 0x80, 0);
    assert_eq!(cpu.p & 0x01, 0);
}

#[test]
fn m6502_adc_decimal() {
    let mut cpu = M6502::new();
    cpu.p = 0x08;
    cpu.a = 0x58;
    cpu.perform_adc(0x46);
    assert_eq!(cpu.a, 0x04);
    assert_ne!(cpu.p & 0x01, 0);
    cpu.p = 0x08;
    cpu.a = 0x12;
    cpu.perform_adc(0x34);
    assert_eq!(cpu.a, 0x46);
    assert_eq!(cpu.p & 0x01, 0);
}

#[test]
fn m6502_sbc_binary_and_complement_adc() {
    let mut cpu = M6502::new();
    cpu.p = 0x01;
    cpu.a = 0x50;
    cpu.perform_sbc(0xF0);
    let (a1, p1) = (cpu.a, cpu.p);
    let mut other = M6502::new();
    other.p = 0x01;
    other.a = 0x50;
    other.perform_adc(!0xF0u8);
    assert_eq!(a1, 0x60);
    assert_eq!((a1, p1), (other.a, other.p));
}

#[test]
fn m6502_sbc_decimal() {
    let mut cpu = M6502::new();
    cpu.p = 0x09;
    cpu.a = 0x46;
    cpu.perform_sbc(0x12);
    assert_eq!(cpu.a, 0x34);
    cpu.p = 0x09;
    cpu.a = 0x10;
    cpu.perform_sbc(0x20);
    assert_eq!(cpu.a, 0x90);
    assert_eq!(cpu.p & 0x01, 0);
}

#[test]
fn m6502_compare_sets_carry_and_zero() {
    let mut cpu = M6502::new();
    cpu.perform_compare(0x40, 0x40);
    assert_eq!(cpu.p & 0x03, 0x03);
    cpu.perform_compare(0x10, 0x20);
    assert_eq!(cpu.p & 0x01, 0);
    assert_ne!(cpu.p & 0x80, 0);
}

#[test]
fn m6502_bit_test() {
    let mut cpu = M6502::new();
    cpu.a = 0x01;
    cpu.perform_bit(0xC0);
    assert_ne!(cpu.p & 0x80, 0);
    assert_ne!(cpu.p & 0x40, 0);
    assert_ne!(cpu.p & 0x02, 0);
}

#[test]
fn m6502_shifts_and_rotates() {
    let mut cpu = M6502::new();
    cpu.p = 0x00;
    assert_eq!(cpu.perform_asl(0x81), 0x02);
    assert_ne!(cpu.p & 0x01, 0);
    assert_eq!(cpu.perform_rol(0x40), 0x81);
    assert_eq!(cpu.p & 0x01, 0);
    assert_eq!(cpu.perform_lsr(0x03), 0x01);
    assert_ne!(cpu.p & 0x01, 0);
    assert_eq!(cpu.perform_ror(0x02), 0x81);
    assert_eq!(cpu.p & 0x01, 0);
    assert_ne!(cpu.p & 0x80, 0);
}

#[test]
fn m6502_store_and_load_zero_page_x() {
    let (mut cpu, mut bus) = setup(&[0xA2, 0x05, 0xA9, 0x77, 0x95, 0x10, 0xB5, 0x10]);
    step(&mut cpu, &mut bus);
    step(&mut cpu, &mut bus);
    assert_eq!(step(&mut cpu, &mut bus), 4);
    assert_eq!(bus.mem[0x15], 0x77);
    cpu.a = 0;
    assert_eq!(step(&mut cpu, &mut bus), 4);
    assert_eq!(cpu.a, 0x77);
}

#[test]
fn m6502_absolute_x_page_cross_costs_a_cycle() {
    let (mut cpu, mut bus) = setup(&[0xBD, 0xF0, 0x30, 0xBD, 0x00, 0x30]);
    bus.mem[0x3100] = 0x11;
    bus.mem[0x3010] = 0x22;
    cpu.x = 0x10;
    assert_eq!(step(&mut cpu, &mut bus), 5);
    assert_eq!(cpu.a, 0x11);
    assert_eq!(step(&mut cpu, &mut bus), 4);
    assert_eq!(cpu.a, 0x22);
}

#[test]
fn m6502_indirect_y_reads_through_pointer() {
    let (mut cpu, mut bus) = setup(&[0xB1, 0x40]);
    bus.mem[0x40] = 0x00;
    bus.mem[0x41] = 0x50;
    bus.mem[0x5003] = 0x9A;
    cpu.y = 3;
    assert_eq!(step(&mut cpu, &mut bus), 5);
    assert_eq!(cpu.a, 0x9A);
}

#[test]
fn m6502_indirect_x_store() {
    let (mut cpu, mut bus) = setup(&[0x81, 0x20]);
    bus.mem[0x24] = 0x34;
    bus.mem[0x25] = 0x12;
    cpu.x = 4;
    cpu.a = 0x5C;
    assert_eq!(step(&mut cpu, &mut bus), 6);
    assert_eq!(bus.mem[0x1234], 0x5C);
}

#[test]
fn m6502_inc_memory_read_modify_write() {
    let (mut cpu, mut bus) = setup(&[0xEE, 0x00, 0x40]);
    bus.mem[0x4000] = 0xFF;
    assert_eq!(step(&mut cpu, &mut bus), 6);
    assert_eq!(bus.mem[0x4000], 0x00);
    assert_ne!(cpu.p & 0x02, 0);
}

#[test]
fn m6502_branch_timing() {
    let (mut cpu, mut bus) = setup(&[0xD0, 0x02, 0xF0, 0x10]);
    cpu.p = 0x24;
    assert_eq!(step(&mut cpu, &mut bus), 3);
    assert_eq!(cpu.pc, 0x0204);
    let (mut cpu, mut bus) = setup(&[0xF0, 0x10]);
    cpu.p = 0x24;
    assert_eq!(step(&mut cpu, &mut bus), 2);
    assert_eq!(cpu.pc, 0x0202);
    let (mut cpu, mut bus) = setup(&[0xD0, 0xF0]);
    assert_eq!(step(&mut cpu, &mut bus), 4);
    assert_eq!(cpu.pc, 0x01F2);
}

#[test]
fn m6502_jsr_rts_round_trip() {
    let (mut cpu, mut bus) = setup(&[0x20, 0x00, 0x30]);
    bus.mem[0x3000] = 0x60;
    assert_eq!(step(&mut cpu, &mut bus), 6);
    assert_eq!(cpu.pc, 0x3000);
    assert_eq!(cpu.sp, 0xFB);
    assert_eq!(bus.mem[0x01FD], 0x02);
    assert_eq!(bus.mem[0x01FC], 0x02);
    assert_eq!(step(&mut cpu, &mut bus), 6);
    assert_eq!(cpu.pc, 0x0203);
    assert_eq!(cpu.sp, 0xFD);
}

#[test]
fn m6502_jmp_indirect_page_wrap() {
    let (mut cpu, mut bus) = setup(&[0x6C, 0xFF, 0x30]);
    bus.mem[0x30FF] = 0x34;
    bus.mem[0x3000] = 0x12;
    bus.mem[0x3100] = 0x99;
    assert_eq!(step(&mut cpu, &mut bus), 5);
    assert_eq!(cpu.pc, 0x1234);
}

#[test]
fn m6502_push_pull() {
    let (mut cpu, mut bus) = setup(&[0x48, 0xA9, 0x00, 0x68, 0x08, 0x28]);
    cpu.a = 0x81;
    assert_eq!(step(&mut cpu, &mut bus), 3);
    assert_eq!(bus.mem[0x01FD], 0x81);
    step(&mut cpu, &mut bus);
    assert_eq!(step(&mut cpu, &mut bus), 4);
    assert_eq!(cpu.a, 0x81);
    assert_eq!(cpu.sp, 0xFD);
    assert_ne!(cpu.p & 0x80, 0);
    let before = cpu.p;
    step(&mut cpu, &mut bus);
    assert_eq!(bus.mem[0x01FD], before | 0x30);
    step(&mut cpu, &mut bus);
    assert_eq!(cpu.p, (before | 0x20) & !0x10);
}

#[test]
fn m6502_brk_pushes_and_vectors() {
    let (mut cpu, mut bus) = setup(&[0x00, 0xEA]);
    bus.mem[0xFFFE] = 0x00;
    bus.mem[0xFFFF] = 0x80;
    cpu.p = 0x20;
    assert_eq!(step(&mut cpu, &mut bus), 7);
    assert_eq!(cpu.pc, 0x8000);
    assert_eq!(bus.mem[0x01FD], 0x02);
    assert_eq!(bus.mem[0x01FC], 0x02);
    assert_eq!(bus.mem[0x01FB], 0x30);
    assert_ne!(cpu.p & 0x04, 0);
}

#[test]
fn m6502_irq_masked_by_i_and_nmi_on_edge() {
    let (mut cpu, mut bus) = setup(&[0xEA, 0xEA, 0xEA]);
    bus.mem[0xFFFE] = 0x00;
    bus.mem[0xFFFF] = 0x90;
    bus.mem[0xFFFA] = 0x00;
    bus.mem[0xFFFB] = 0xA0;
    bus.mem[0xA000] = 0xEA;
    bus.irq = true;
    step(&mut cpu, &mut bus);
    assert_eq!(cpu.pc, 0x0201);
    cpu.p = 0x20;
    assert_eq!(step(&mut cpu, &mut bus), 7);
    assert_eq!(cpu.pc, 0x9000);
    assert_eq!(bus.mem[0x01FB], 0x20);
    bus.irq = false;
    bus.nmi = true;
    step(&mut cpu, &mut bus);
    assert_eq!(cpu.pc, 0xA000);
    step(&mut cpu, &mut bus);
    assert_eq!(cpu.pc, 0xA001);
}

#[test]
fn m6502_transfers_and_register_steps() {
    let (mut cpu, mut bus) = setup(&[0xAA, 0xE8, 0x9A, 0xBA, 0xCA, 0xA8, 0x88, 0x98]);
    cpu.a = 0xFF;
    step(&mut cpu, &mut bus);
    assert_eq!(cpu.x, 0xFF);
    step(&mut cpu, &mut bus);
    assert_eq!(cpu.x, 0x00);
    assert_ne!(cpu.p & 0x02, 0);
    step(&mut cpu, &mut bus);
    assert_eq!(cpu.sp, 0x00);
    step(&mut cpu, &mut bus);
    assert_eq!(cpu.x, 0x00);
    step(&mut cpu, &mut bus);
    assert_eq!(cpu.x, 0xFF);
    step(&mut cpu, &mut bus);
    assert_eq!(cpu.y, 0xFF);
    step(&mut cpu, &mut bus);
    assert_eq!(cpu.y, 0xFE);
    step(&mut cpu, &mut bus);
    assert_eq!(cpu.a, 0xFE);
}

#[test]
fn m6502_unknown_opcode_is_one_step() {
    let (mut cpu, mut bus) = setup(&[0x02, 0xEA]);
    assert_eq!(step(&mut cpu, &mut bus), 2);
    assert_eq!(cpu.pc, 0x0201);
}

#[test]
fn m6502_snapshot() {
    let mut cpu = M6502::new();
    cpu.a = 1;
    cpu.x = 2;
    cpu.y = 3;
    let s = cpu.snapshot();
    assert_eq!((s.a, s.x, s.y, s.sp, s.p), (1, 2, 3, 0xFD, 0x24));
}
