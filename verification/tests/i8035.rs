use lib::bus::{Bus, BusMaster, InterruptState};
use lib::cpu::i8035::{ExecState, I8035, PswFlag};

struct Board {
    rom: Vec<u8>,
    ports: Vec<u8>,
    writes: Vec<(u16, u8)>,
    irq: bool,
}

impl Board {
    fn new(program: &[u8]) -> Self {
        let mut rom = vec![0u8; 0x1000];
        rom[..program.len()].copy_from_slice(program);
        Board { rom, ports: vec![0u8; 0x200], writes: Vec::new(), irq: false }
    }
}

impl Bus for Board {
    type Address = u16;
    type Data = u8;

    fn read(&mut self, _master: BusMaster, addr: u16) -> u8 {
        self.rom[(addr & 0x0FFF) as usize]
    }

    fn write(&mut self, _master: BusMaster, _addr: u16, _data: u8) {}

    fn is_halted_for(&self, _master: BusMaster) -> bool {
        false
    }

    fn check_interrupts(&mut self, _target: BusMaster) -> InterruptState {
        InterruptState { nmi: false, irq: self.irq, firq: false, irq_vector: 0 }
    }

    fn io_read(&mut self, _master: BusMaster, port: u16) -> u8 {
        self.ports[port as usize]
    }

    fn io_write(&mut self, _master: BusMaster, port: u16, data: u8) {
        self.ports[port as usize] = data;
        self.writes.push((port, data));
    }
}

const M: BusMaster = BusMaster::Cpu(0);

#[test]
fn i8035_power_on_state() {
    let cpu = I8035::new();
    assert_eq!(cpu.pc, 0);
    assert_eq!(cpu.psw, 0);
    assert_eq!((cpu.dbbb, cpu.p1, cpu.p2), (0xFF, 0xFF, 0xFF));
    assert_eq!(cpu.ram_mask, 0x3F);
    assert_eq!(cpu.state, ExecState::Fetch);
    assert!(!cpu.is_sleeping());
}

#[test]
fn i8035_flags_and_register_banks() {
    let mut cpu = I8035::new();
    cpu.set_flag(PswFlag::CY, true);
    assert!(cpu.flag_set(PswFlag::CY));
    assert_eq!(cpu.psw, 0x80);
    cpu.set_reg(3, 0x11);
    assert_eq!(cpu.ram[3], 0x11);
    cpu.set_flag(PswFlag::BS, true);
    assert_eq!(cpu.reg_bank_offset(), 0x18);
    cpu.set_reg(3, 0x22);
    assert_eq!(cpu.ram[0x1B], 0x22);
    assert_eq!(cpu.get_reg(3), 0x22);
    cpu.set_flag(PswFlag::BS, false);
    assert_eq!(cpu.get_reg(3), 0x11);
}

#[test]
fn i8035_ram_is_masked() {
    let mut cpu = I8035::new();
    cpu.write_ram(0x45, 0x99);
    assert_eq!(cpu.read_ram(0x05), 0x99);
}

#[test]
fn i8035_push_then_pop_restores_pc_and_psw() {
    let mut cpu = I8035::new();
    cpu.pc = 0x0ABC;
    cpu.psw = 0xC2;
    cpu.push_pc_psw();
    assert_eq!(cpu.psw, 0xC3);
    assert_eq!(cpu.ram[12], 0xBC);
    assert_eq!(cpu.ram[13], 0xCA);
    cpu.pc = 0;
    cpu.psw = 0x03;
    cpu.pop_pc_psw(true);
    assert_eq!(cpu.pc, 0x0ABC);
    assert_eq!(cpu.psw, 0xC2);
    cpu.psw = 0x03;
    cpu.pop_pc_psw(false);
    assert_eq!(cpu.pc, 0x0ABC);
    assert_eq!(cpu.psw, 0x02);
}

#[test]
fn i8035_timer_overflow_requests_interrupt() {
    let mut cpu = I8035::new();
    cpu.t = 0xFF;
    cpu.tcnti_enabled = true;
    cpu.increment_t();
    assert_eq!(cpu.t, 0);
    assert!(cpu.timer_overflow);
    assert!(cpu.timer_irq_pending);
}

#[test]
fn i8035_counter_counts_falling_edges_of_t1() {
    let mut cpu = I8035::new();
    let mut bus = Board::new(&[]);
    cpu.counter_enabled = true;
    bus.ports[0x111] = 1;
    cpu.tick_timer_counter(&mut bus, M);
    assert_eq!(cpu.t, 0);
    bus.ports[0x111] = 0;
    cpu.tick_timer_counter(&mut bus, M);
    assert_eq!(cpu.t, 1);
    cpu.tick_timer_counter(&mut bus, M);
    assert_eq!(cpu.t, 1);
}

#[test]
fn i8035_fetch_advances_pc_within_4k() {
    let mut cpu = I8035::new();
    let mut bus = Board::new(&[]);
    cpu.pc = 0x0FFF;
    cpu.timer_enabled = true;
    cpu.execute_cycle(&mut bus, M);
    assert_eq!(cpu.pc, 0);
    assert_eq!(cpu.t, 1);
}

#[test]
fn i8035_external_interrupt_sequence() {
    let mut cpu = I8035::new();
    let mut bus = Board::new(&[]);
    cpu.pc = 0x123;
    cpu.int_enabled = true;
    bus.irq = true;
    cpu.execute_cycle(&mut bus, M);
    assert_eq!(cpu.state, ExecState::Interrupt(0));
    cpu.execute_cycle(&mut bus, M);
    assert!(cpu.in_interrupt);
    cpu.execute_cycle(&mut bus, M);
    assert_eq!(cpu.pc, 0x003);
    assert_eq!(cpu.ram[8], 0x23);
    assert_eq!(cpu.ram[9], 0x01);
    cpu.op_retr(1);
    assert_eq!(cpu.pc, 0x123);
    assert!(!cpu.in_interrupt);
}

#[test]
fn i8035_timer_interrupt_vectors_to_7() {
    let mut cpu = I8035::new();
    cpu.tcnti_enabled = true;
    cpu.timer_irq_pending = true;
    assert!(cpu.handle_interrupts(InterruptState::default()));
    cpu.execute_interrupt(0);
    cpu.execute_interrupt(1);
    assert_eq!(cpu.pc, 0x007);
    assert!(!cpu.timer_irq_pending);
}

#[test]
fn i8035_reset_keeps_a_and_ram() {
    let mut cpu = I8035::new();
    cpu.a = 5;
    cpu.ram[1] = 6;
    cpu.pc = 0x200;
    cpu.int_enabled = true;
    cpu.reset();
    assert_eq!((cpu.a, cpu.ram[1], cpu.pc), (5, 6, 0));
    assert!(!cpu.int_enabled);
    let s = cpu.snapshot();
    assert_eq!(s.a, 5);
}

#[test]
fn i8035_add_and_decimal_adjust() {
    let mut cpu = I8035::new();
    cpu.a = 0x38;
    cpu.perform_add(0x45);
    assert_eq!(cpu.a, 0x7D);
    cpu.perform_da();
    assert_eq!(cpu.a, 0x83);
    assert!(!cpu.flag_set(PswFlag::CY));
    cpu.a = 0x99;
    cpu.perform_add(0x01);
    cpu.perform_da();
    assert_eq!(cpu.a, 0x00);
    assert!(cpu.flag_set(PswFlag::CY));
}

#[test]
fn i8035_decimal_adjust_loses_the_low_digit_carry() {
    let mut cpu = I8035::new();
    cpu.a = 0x95;
    cpu.perform_add(0x65);
    cpu.perform_da();
    assert_eq!(cpu.a, 0x00);
    assert!(!cpu.flag_set(PswFlag::CY));
}

#[test]
fn i8035_addc_and_logic() {
    let mut cpu = I8035::new();
    cpu.set_flag(PswFlag::CY, true);
    cpu.a = 0x0F;
    cpu.perform_addc(0x00);
    assert_eq!(cpu.a, 0x10);
    assert!(cpu.flag_set(PswFlag::AC));
    assert!(!cpu.flag_set(PswFlag::CY));
    cpu.perform_anl(0x30);
    assert_eq!(cpu.a, 0x10);
    cpu.perform_orl(0x01);
    assert_eq!(cpu.a, 0x11);
    cpu.perform_xrl(0x10);
    assert_eq!(cpu.a, 0x01);
    assert_eq!(I8035::perform_inc(0xFF), 0);
    assert_eq!(I8035::perform_dec(0), 0xFF);
    cpu.perform_cpl_a();
    assert_eq!(cpu.a, 0xFE);
    cpu.perform_clr_a();
    assert_eq!(cpu.a, 0);
}

#[test]
fn i8035_rotates_and_swap() {
    let mut cpu = I8035::new();
    cpu.a = 0x81;
    cpu.perform_rl();
    assert_eq!(cpu.a, 0x03);
    cpu.perform_rr();
    assert_eq!(cpu.a, 0x81);
    cpu.perform_rlc();
    assert_eq!(cpu.a, 0x02);
    assert!(cpu.flag_set(PswFlag::CY));
    cpu.perform_rrc();
    assert_eq!(cpu.a, 0x81);
    assert!(!cpu.flag_set(PswFlag::CY));
    cpu.perform_swap();
    assert_eq!(cpu.a, 0x18);
}

#[test]
fn i8035_jmp_and_call() {
    let mut cpu = I8035::new();
    let mut bus = Board::new(&[0x00, 0x42]);
    cpu.pc = 1;
    cpu.opcode = 0x24;
    cpu.a11_pending = true;
    cpu.op_jmp(0, &mut bus, M);
    assert_eq!(cpu.state, ExecState::Execute(0x24));
    cpu.op_jmp(1, &mut bus, M);
    assert_eq!(cpu.pc, 0x942);
    let mut cpu = I8035::new();
    cpu.pc = 1;
    cpu.opcode = 0x34;
    cpu.op_call(1, &mut bus, M);
    assert_eq!(cpu.pc, 0x142);
    assert_eq!(cpu.psw & 7, 1);
    assert_eq!(cpu.ram[8], 0x02);
    cpu.op_ret(1);
    assert_eq!(cpu.pc, 0x002);
}

#[test]
fn i8035_conditional_jumps() {
    let mut bus = Board::new(&[0x00, 0x80]);
    let mut cpu = I8035::new();
    cpu.pc = 1;
    cpu.a = 0;
    cpu.op_jz(0, &mut bus, M);
    assert_eq!(cpu.temp_data, 1);
    cpu.op_jz(1, &mut bus, M);
    assert_eq!(cpu.pc, 0x080);
    let mut cpu = I8035::new();
    cpu.pc = 1;
    cpu.op_jc(0, &mut bus, M);
    cpu.op_jc(1, &mut bus, M);
    assert_eq!(cpu.pc, 2);
    let mut cpu = I8035::new();
    cpu.a = 0x04;
    cpu.op_jbb(2, 0, &mut bus, M);
    assert_eq!(cpu.temp_data, 1);
    cpu.op_jbb(3, 0, &mut bus, M);
    assert_eq!(cpu.temp_data, 0);
    bus.ports[0x110] = 1;
    cpu.op_jt0(0, &mut bus, M);
    assert_eq!(cpu.temp_data, 1);
    cpu.op_jnt0(0, &mut bus, M);
    assert_eq!(cpu.temp_data, 0);
    cpu.timer_overflow = true;
    cpu.op_jtf(0, &mut bus, M);
    assert_eq!(cpu.temp_data, 1);
    assert!(!cpu.timer_overflow);
}

#[test]
fn i8035_djnz_counts_down() {
    let mut bus = Board::new(&[0x00, 0x10]);
    let mut cpu = I8035::new();
    cpu.pc = 1;
    cpu.set_reg(2, 2);
    cpu.op_djnz(2, 0, &mut bus, M);
    assert_eq!(cpu.get_reg(2), 1);
    cpu.op_djnz(2, 1, &mut bus, M);
    assert_eq!(cpu.pc, 0x010);
    cpu.pc = 1;
    cpu.op_djnz(2, 0, &mut bus, M);
    assert_eq!(cpu.get_reg(2), 0);
    cpu.op_djnz(2, 1, &mut bus, M);
    assert_eq!(cpu.pc, 2);
}

#[test]
fn i8035_register_and_memory_moves() {
    let mut cpu = I8035::new();
    cpu.a = 0x21;
    cpu.op_mov_rn_a(0);
    cpu.op_mov_indirect_a(0);
    assert_eq!(cpu.ram[0x21], 0x21);
    cpu.a = 0x5A;
    cpu.op_xch_a_indirect(0);
    assert_eq!(cpu.a, 0x21);
    assert_eq!(cpu.ram[0x21], 0x5A);
    cpu.op_xchd_a_indirect(0);
    assert_eq!(cpu.a, 0x2A);
    assert_eq!(cpu.ram[0x21], 0x51);
    cpu.op_xch_a_rn(0);
    assert_eq!(cpu.a, 0x21);
    assert_eq!(cpu.get_reg(0), 0x2A);
    cpu.op_mov_a_rn(0);
    assert_eq!(cpu.a, 0x2A);
    cpu.op_mov_a_indirect(0);
    assert_eq!(cpu.a, 0x00);
    cpu.op_mov_t_a();
    cpu.a = 7;
    cpu.op_mov_a_t();
    assert_eq!(cpu.a, 0);
    cpu.a = 0x18;
    cpu.op_mov_psw_a();
    cpu.op_mov_a_psw();
    assert_eq!(cpu.a, 0x18);
    assert_eq!(cpu.reg_bank_offset(), 0x18);
}

#[test]
fn i8035_immediate_and_port_moves() {
    let mut bus = Board::new(&[0x00, 0x3C, 0x0F]);
    let mut cpu = I8035::new();
    cpu.pc = 1;
    cpu.op_mov_a_imm(1, &mut bus, M);
    assert_eq!(cpu.a, 0x3C);
    assert_eq!(cpu.pc, 2);
    cpu.op_outl_p1_a(1, &mut bus, M);
    assert_eq!(cpu.p1, 0x3C);
    assert_eq!(bus.ports[0x101], 0x3C);
    cpu.op_anl_p1_imm(1, &mut bus, M);
    assert_eq!(cpu.p1, 0x0C);
    assert_eq!(cpu.pc, 3);
    bus.ports[0x105] = 0xA5;
    cpu.op_movd_a_pp(1, 1, &mut bus, M);
    assert_eq!(cpu.a, 0x05);
    cpu.a = 0x03;
    cpu.op_orld_pp_a(1, 1, &mut bus, M);
    assert_eq!(bus.ports[0x105], 0x07);
    cpu.op_anld_pp_a(1, 1, &mut bus, M);
    assert_eq!(bus.ports[0x105], 0x03);
    cpu.op_movx_indirect_a(0, 1, &mut bus, M);
    assert_eq!(bus.ports[0], 0x03);
    bus.ports[0] = 0x44;
    cpu.op_movx_a_indirect(0, 1, &mut bus, M);
    assert_eq!(cpu.a, 0x44);
}

#[test]
fn i8035_program_memory_reads() {
    let mut program = vec![0u8; 0x400];
    program[0x105] = 0x77;
    program[0x305] = 0x66;
    let mut bus = Board::new(&program);
    let mut cpu = I8035::new();
    cpu.pc = 0x120;
    cpu.a = 5;
    cpu.op_movp_a(1, &mut bus, M);
    assert_eq!(cpu.a, 0x77);
    cpu.a = 5;
    cpu.op_movp3_a(1, &mut bus, M);
    assert_eq!(cpu.a, 0x66);
    cpu.a = 5;
    cpu.op_jmpp(1, &mut bus, M);
    assert_eq!(cpu.pc, 0x177);
}
