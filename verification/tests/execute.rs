use lib::bus::{Bus, BusMaster, InterruptState};
use lib::cpu::i8088::flags::{self, Flag};
use lib::cpu::i8088::registers::SegReg;
use lib::cpu::i8088::I8088;

struct TestBus {
    mem: Box<[u8; 0x10_0000]>,
}

impl TestBus {
    fn new() -> Self {
        Self { mem: vec![0u8; 0x10_0000].into_boxed_slice().try_into().unwrap() }
    }
}

impl Bus for TestBus {
    type Address = u32;
    type Data = u8;

    fn read(&mut self, _master: BusMaster, addr: u32) -> u8 {
        self.mem[(addr & 0xF_FFFF) as usize]
    }

    fn write(&mut self, _master: BusMaster, addr: u32, data: u8) {
        self.mem[(addr & 0xF_FFFF) as usize] = data;
    }

    fn is_halted_for(&self, _master: BusMaster) -> bool {
        false
    }

    fn check_interrupts(&mut self, _target: BusMaster) -> InterruptState {
        InterruptState::default()
    }
}

const M: BusMaster = BusMaster::Cpu(0);

fn setup() -> (I8088, TestBus) {
    let mut cpu = I8088::new();
    cpu.cs = 0x0000;
    cpu.ip = 0x0100;
    cpu.ds = 0x2000;
    cpu.ss = 0x3000;
    cpu.es = 0x4000;
    cpu.sp = 0x0200;
    (cpu, TestBus::new())
}

#[test]
fn mov_al_imm8() {
    let (mut cpu, mut bus) = setup();
    bus.mem[0x100] = 0x42;
    cpu.execute(0xB0, &mut bus, M);
    assert_eq!(cpu.al(), 0x42);
    assert_eq!(cpu.ip, 0x101);
}

#[test]
fn mov_all_reg8_imm8() {
    let (mut cpu, mut bus) = setup();
    for reg in 0..8u8 {
        cpu.ip = 0x100;
        bus.mem[0x100] = 0x10 + reg;
        cpu.execute(0xB0 + reg, &mut bus, M);
        assert_eq!(cpu.get_reg8(reg), 0x10 + reg);
    }
}

#[test]
fn mov_ax_imm16() {
    let (mut cpu, mut bus) = setup();
    bus.mem[0x100] = 0x34;
    bus.mem[0x101] = 0x12;
    cpu.execute(0xB8, &mut bus, M);
    assert_eq!(cpu.ax, 0x1234);
    assert_eq!(cpu.ip, 0x102);
}

#[test]
fn mov_all_reg16_imm16() {
    let (mut cpu, mut bus) = setup();
    for reg in 0..8u8 {
        cpu.ip = 0x100;
        let val = 0x1000 + reg as u16;
        bus.mem[0x100] = val as u8;
        bus.mem[0x101] = (val >> 8) as u8;
        cpu.execute(0xB8 + reg, &mut bus, M);
        assert_eq!(cpu.get_reg16(reg), val);
    }
}

#[test]
fn mov_rm8_reg8() {
    let (mut cpu, mut bus) = setup();
    cpu.set_al(0xAB);
    cpu.bx = 0x0050;
    bus.mem[0x100] = 0x07;
    cpu.execute(0x88, &mut bus, M);
    assert_eq!(bus.mem[0x20050], 0xAB);
}

#[test]
fn mov_reg8_rm8() {
    let (mut cpu, mut bus) = setup();
    cpu.bx = 0x0050;
    bus.mem[0x20050] = 0xCD;
    bus.mem[0x100] = 0x0F;
    cpu.execute(0x8A, &mut bus, M);
    assert_eq!(cpu.cl(), 0xCD);
}

#[test]
fn mov_rm16_reg16() {
    let (mut cpu, mut bus) = setup();
    cpu.ax = 0x1234;
    cpu.si = 0x0080;
    bus.mem[0x100] = 0x04;
    cpu.execute(0x89, &mut bus, M);
    assert_eq!(bus.mem[0x20080], 0x34);
    assert_eq!(bus.mem[0x20081], 0x12);
}

#[test]
fn mov_reg16_rm16() {
    let (mut cpu, mut bus) = setup();
    cpu.di = 0x0060;
    bus.mem[0x20060] = 0x78;
    bus.mem[0x20061] = 0x56;
    bus.mem[0x100] = 0x1D;
    cpu.execute(0x8B, &mut bus, M);
    assert_eq!(cpu.bx, 0x5678);
}

#[test]
fn mov_reg_reg() {
    let (mut cpu, mut bus) = setup();
    cpu.ax = 0xAABB;
    bus.mem[0x100] = 0xC1;
    cpu.execute(0x89, &mut bus, M);
    assert_eq!(cpu.cx, 0xAABB);
}

#[test]
fn mov_rm16_segreg() {
    let (mut cpu, mut bus) = setup();
    cpu.ds = 0x1234;
    bus.mem[0x100] = 0xD8;
    cpu.execute(0x8C, &mut bus, M);
    assert_eq!(cpu.ax, 0x1234);
}

#[test]
fn mov_segreg_rm16() {
    let (mut cpu, mut bus) = setup();
    cpu.ax = 0x5000;
    bus.mem[0x100] = 0xC0;
    cpu.execute(0x8E, &mut bus, M);
    assert_eq!(cpu.es, 0x5000);
}

#[test]
fn mov_al_moffs() {
    let (mut cpu, mut bus) = setup();
    bus.mem[0x100] = 0x50;
    bus.mem[0x101] = 0x00;
    bus.mem[0x20050] = 0xEF;
    cpu.execute(0xA0, &mut bus, M);
    assert_eq!(cpu.al(), 0xEF);
}

#[test]
fn mov_ax_moffs() {
    let (mut cpu, mut bus) = setup();
    bus.mem[0x100] = 0x60;
    bus.mem[0x101] = 0x00;
    bus.mem[0x20060] = 0x34;
    bus.mem[0x20061] = 0x12;
    cpu.execute(0xA1, &mut bus, M);
    assert_eq!(cpu.ax, 0x1234);
}

#[test]
fn mov_moffs_al() {
    let (mut cpu, mut bus) = setup();
    cpu.set_al(0x42);
    bus.mem[0x100] = 0x70;
    bus.mem[0x101] = 0x00;
    cpu.execute(0xA2, &mut bus, M);
    assert_eq!(bus.mem[0x20070], 0x42);
}

#[test]
fn mov_moffs_ax() {
    let (mut cpu, mut bus) = setup();
    cpu.ax = 0xABCD;
    bus.mem[0x100] = 0x80;
    bus.mem[0x101] = 0x00;
    cpu.execute(0xA3, &mut bus, M);
    assert_eq!(bus.mem[0x20080], 0xCD);
    assert_eq!(bus.mem[0x20081], 0xAB);
}

#[test]
fn mov_rm8_imm8() {
    let (mut cpu, mut bus) = setup();
    cpu.bx = 0x0040;
    bus.mem[0x100] = 0x07;
    bus.mem[0x101] = 0xFF;
    cpu.execute(0xC6, &mut bus, M);
    assert_eq!(bus.mem[0x20040], 0xFF);
}

#[test]
fn mov_rm16_imm16() {
    let (mut cpu, mut bus) = setup();
    cpu.si = 0x0040;
    bus.mem[0x100] = 0x04;
    bus.mem[0x101] = 0x34;
    bus.mem[0x102] = 0x12;
    cpu.execute(0xC7, &mut bus, M);
    assert_eq!(bus.mem[0x20040], 0x34);
    assert_eq!(bus.mem[0x20041], 0x12);
}

#[test]
fn push_pop_reg16() {
    let (mut cpu, mut bus) = setup();
    cpu.ax = 0x1234;
    cpu.bx = 0x5678;

    cpu.execute(0x50, &mut bus, M);
    assert_eq!(cpu.sp, 0x01FE);
    cpu.execute(0x53, &mut bus, M);
    assert_eq!(cpu.sp, 0x01FC);

    cpu.execute(0x59, &mut bus, M);
    assert_eq!(cpu.cx, 0x5678);
    assert_eq!(cpu.sp, 0x01FE);
    cpu.execute(0x5A, &mut bus, M);
    assert_eq!(cpu.dx, 0x1234);
    assert_eq!(cpu.sp, 0x0200);
}

#[test]
fn push_sp_pushes_old_value() {
    let (mut cpu, mut bus) = setup();
    let old_sp = cpu.sp;
    cpu.execute(0x54, &mut bus, M);
    let pushed_val = cpu.read_word(&mut bus, M, cpu.ss, cpu.sp);
    assert_eq!(pushed_val, old_sp);
}

#[test]
fn push_pop_es() {
    let (mut cpu, mut bus) = setup();
    cpu.es = 0xABCD;
    cpu.execute(0x06, &mut bus, M);
    cpu.es = 0x0000;
    cpu.execute(0x07, &mut bus, M);
    assert_eq!(cpu.es, 0xABCD);
}

#[test]
fn push_pop_ds() {
    let (mut cpu, mut bus) = setup();
    cpu.ds = 0x1234;
    cpu.execute(0x1E, &mut bus, M);
    cpu.ds = 0x0000;
    cpu.execute(0x1F, &mut bus, M);
    assert_eq!(cpu.ds, 0x1234);
}

#[test]
fn push_cs() {
    let (mut cpu, mut bus) = setup();
    cpu.cs = 0xF000;
    cpu.execute(0x0E, &mut bus, M);
    let val = cpu.read_word(&mut bus, M, cpu.ss, cpu.sp);
    assert_eq!(val, 0xF000);
}

#[test]
fn push_rm16_mem() {
    let (mut cpu, mut bus) = setup();
    cpu.bx = 0x0020;
    bus.mem[0x20020] = 0xEF;
    bus.mem[0x20021] = 0xBE;
    bus.mem[0x100] = 0x37;
    cpu.execute(0xFF, &mut bus, M);
    let val = cpu.read_word(&mut bus, M, cpu.ss, cpu.sp);
    assert_eq!(val, 0xBEEF);
}

#[test]
fn pop_rm16_mem() {
    let (mut cpu, mut bus) = setup();
    cpu.push16(&mut bus, M, 0xDEAD);
    cpu.bx = 0x0030;
    bus.mem[0x100] = 0x07;
    cpu.execute(0x8F, &mut bus, M);
    assert_eq!(bus.mem[0x20030], 0xAD);
    assert_eq!(bus.mem[0x20031], 0xDE);
}

#[test]
fn nop() {
    let (mut cpu, mut bus) = setup();
    cpu.ax = 0x1234;
    let old_ip = cpu.ip;
    cpu.execute(0x90, &mut bus, M);
    assert_eq!(cpu.ax, 0x1234);
    assert_eq!(cpu.ip, old_ip);
}

#[test]
fn xchg_ax_cx() {
    let (mut cpu, mut bus) = setup();
    cpu.ax = 0x1111;
    cpu.cx = 0x2222;
    cpu.execute(0x91, &mut bus, M);
    assert_eq!(cpu.ax, 0x2222);
    assert_eq!(cpu.cx, 0x1111);
}

#[test]
fn xchg_rm8_reg8() {
    let (mut cpu, mut bus) = setup();
    cpu.set_al(0xAA);
    cpu.set_bl(0xBB);
    bus.mem[0x100] = 0xC3;
    cpu.execute(0x86, &mut bus, M);
    assert_eq!(cpu.al(), 0xBB);
    assert_eq!(cpu.bl(), 0xAA);
}

#[test]
fn xchg_rm16_reg16_mem() {
    let (mut cpu, mut bus) = setup();
    cpu.ax = 0x1234;
    cpu.bx = 0x0050;
    bus.mem[0x20050] = 0x78;
    bus.mem[0x20051] = 0x56;
    bus.mem[0x100] = 0x07;
    cpu.execute(0x87, &mut bus, M);
    assert_eq!(cpu.ax, 0x5678);
    assert_eq!(bus.mem[0x20050], 0x34);
    assert_eq!(bus.mem[0x20051], 0x12);
}

#[test]
fn lea_reg16_bx_si() {
    let (mut cpu, mut bus) = setup();
    cpu.bx = 0x1000;
    cpu.si = 0x0234;
    bus.mem[0x100] = 0x08;
    cpu.execute(0x8D, &mut bus, M);
    assert_eq!(cpu.cx, 0x1234);
}

#[test]
fn lea_reg16_bp_disp8() {
    let (mut cpu, mut bus) = setup();
    cpu.bp = 0x0100;
    bus.mem[0x100] = 0x56;
    bus.mem[0x101] = 0x10;
    cpu.execute(0x8D, &mut bus, M);
    assert_eq!(cpu.dx, 0x0110);
}

#[test]
fn lea_direct() {
    let (mut cpu, mut bus) = setup();
    bus.mem[0x100] = 0x06;
    bus.mem[0x101] = 0x00;
    bus.mem[0x102] = 0x80;
    cpu.execute(0x8D, &mut bus, M);
    assert_eq!(cpu.ax, 0x8000);
}

#[test]
fn les_reg16() {
    let (mut cpu, mut bus) = setup();
    cpu.bx = 0x0040;
    bus.mem[0x20040] = 0x34;
    bus.mem[0x20041] = 0x12;
    bus.mem[0x20042] = 0x00;
    bus.mem[0x20043] = 0x50;
    bus.mem[0x100] = 0x0F;
    cpu.execute(0xC4, &mut bus, M);
    assert_eq!(cpu.cx, 0x1234);
    assert_eq!(cpu.es, 0x5000);
}

#[test]
fn lds_reg16() {
    let (mut cpu, mut bus) = setup();
    cpu.si = 0x0060;
    bus.mem[0x20060] = 0xCD;
    bus.mem[0x20061] = 0xAB;
    bus.mem[0x20062] = 0x00;
    bus.mem[0x20063] = 0x60;
    bus.mem[0x100] = 0x14;
    cpu.execute(0xC5, &mut bus, M);
    assert_eq!(cpu.dx, 0xABCD);
    assert_eq!(cpu.ds, 0x6000);
}

#[test]
fn sahf_loads_flags_from_ah() {
    let (mut cpu, mut bus) = setup();
    cpu.set_ah(0xC5);
    cpu.execute(0x9E, &mut bus, M);
    assert!(flags::get(cpu.flags, Flag::CF));
    assert!(flags::get(cpu.flags, Flag::PF));
    assert!(flags::get(cpu.flags, Flag::ZF));
    assert!(flags::get(cpu.flags, Flag::SF));
    assert!(!flags::get(cpu.flags, Flag::AF));
    assert_ne!(cpu.flags & 0x0002, 0);
}

#[test]
fn lahf_stores_flags_to_ah() {
    let (mut cpu, mut bus) = setup();
    flags::set(&mut cpu.flags, Flag::CF, true);
    flags::set(&mut cpu.flags, Flag::ZF, true);
    cpu.execute(0x9F, &mut bus, M);
    let ah = cpu.ah();
    assert_ne!(ah & 0x01, 0);
    assert_ne!(ah & 0x40, 0);
}

#[test]
fn xlat_table_lookup() {
    let (mut cpu, mut bus) = setup();
    cpu.bx = 0x0100;
    cpu.set_al(0x05);
    bus.mem[0x20105] = 0x42;
    cpu.execute(0xD7, &mut bus, M);
    assert_eq!(cpu.al(), 0x42);
}

#[test]
fn mov_with_segment_override() {
    let (mut cpu, mut bus) = setup();
    cpu.segment_override = Some(SegReg::ES);
    cpu.es = 0x5000;
    cpu.bx = 0x0010;
    bus.mem[0x50010] = 0xAB;
    bus.mem[0x100] = 0x07;
    cpu.execute(0x8A, &mut bus, M);
    assert_eq!(cpu.al(), 0xAB);
}

#[test]
fn mov_reg_mem_disp8() {
    let (mut cpu, mut bus) = setup();
    cpu.bx = 0x0100;
    bus.mem[0x20110] = 0x99;
    bus.mem[0x100] = 0x47;
    bus.mem[0x101] = 0x10;
    cpu.execute(0x8A, &mut bus, M);
    assert_eq!(cpu.al(), 0x99);
}

#[test]
fn mov_reg_mem_disp16() {
    let (mut cpu, mut bus) = setup();
    cpu.bx = 0x0100;
    bus.mem[0x21100] = 0x77;
    bus.mem[0x100] = 0x8F;
    bus.mem[0x101] = 0x00;
    bus.mem[0x102] = 0x10;
    cpu.execute(0x8A, &mut bus, M);
    assert_eq!(cpu.cl(), 0x77);
}

#[test]
fn mov_mem_direct_imm16() {
    let (mut cpu, mut bus) = setup();
    bus.mem[0x100] = 0x06;
    bus.mem[0x101] = 0x50;
    bus.mem[0x102] = 0x00;
    bus.mem[0x103] = 0xEF;
    bus.mem[0x104] = 0xBE;
    cpu.execute(0xC7, &mut bus, M);
    assert_eq!(bus.mem[0x20050], 0xEF);
    assert_eq!(bus.mem[0x20051], 0xBE);
}
