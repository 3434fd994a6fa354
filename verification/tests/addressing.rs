use lib::bus::{Bus, BusMaster, InterruptState};
use lib::cpu::i8088::addressing::Operand;
use lib::cpu::i8088::decode::ModRM;
use lib::cpu::i8088::registers::SegReg;
use lib::cpu::i8088::{RepPrefix, I8088};

struct TestBus {
    mem: Box<[u8; 0x10_0000]>,
}

impl TestBus {
    fn new() -> Self {
        Self { mem: vec![0u8; 0x10_0000].into_boxed_slice().try_into().unwrap() }
    }
}

impl Bus for TestBus {
    type Address = u32;
    type Data = u8;

    fn read(&mut self, _master: BusMaster, addr: u32) -> u8 {
        self.mem[(addr & 0xF_FFFF) as usize]
    }

    fn write(&mut self, _master: BusMaster, addr: u32, data: u8) {
        self.mem[(addr & 0xF_FFFF) as usize] = data;
    }

    fn is_halted_for(&self, _master: BusMaster) -> bool {
        false
    }

    fn check_interrupts(&mut self, _target: BusMaster) -> InterruptState {
        InterruptState::default()
    }
}

fn setup() -> (I8088, TestBus) {
    let mut cpu = I8088::new();
    cpu.cs = 0x0000;
    cpu.ip = 0x0100;
    cpu.ds = 0x2000;
    cpu.ss = 0x3000;
    cpu.es = 0x4000;
    (cpu, TestBus::new())
}

const MASTER: BusMaster = BusMaster::Cpu(0);

fn stage(cpu: &mut I8088, bytes: &[u8]) {
    cpu.instr[..bytes.len()].copy_from_slice(bytes);
    cpu.instr_len = bytes.len() as u8;
    cpu.instr_pos = 0;
}

#[test]
fn resolve_reg_mode() {
    let (mut cpu, _bus) = setup();
    let modrm = ModRM {
        mod_bits: 3,
        reg: 0,
        rm: 5,
    };
    let op = cpu.resolve_modrm(modrm);
    assert_eq!(op, Operand::Register(5));
}

#[test]
fn resolve_bx_si() {
    let (mut cpu, _bus) = setup();
    cpu.bx = 0x0100;
    cpu.si = 0x0050;
    let modrm = ModRM {
        mod_bits: 0,
        reg: 0,
        rm: 0,
    };
    let op = cpu.resolve_modrm(modrm);
    assert_eq!(
        op,
        Operand::Memory {
            segment: 0x2000,
            offset: 0x0150,
        }
    );
}

#[test]
fn resolve_bx_di() {
    let (mut cpu, _bus) = setup();
    cpu.bx = 0x0200;
    cpu.di = 0x0030;
    let modrm = ModRM {
        mod_bits: 0,
        reg: 0,
        rm: 1,
    };
    let op = cpu.resolve_modrm(modrm);
    assert_eq!(
        op,
        Operand::Memory {
            segment: 0x2000,
            offset: 0x0230,
        }
    );
}

#[test]
fn resolve_bp_si_uses_ss() {
    let (mut cpu, _bus) = setup();
    cpu.bp = 0x0100;
    cpu.si = 0x0010;
    let modrm = ModRM {
        mod_bits: 0,
        reg: 0,
        rm: 2,
    };
    let op = cpu.resolve_modrm(modrm);
    assert_eq!(
        op,
        Operand::Memory {
            segment: 0x3000,
            offset: 0x0110,
        }
    );
}

#[test]
fn resolve_bp_di_uses_ss() {
    let (mut cpu, _bus) = setup();
    cpu.bp = 0x0200;
    cpu.di = 0x0020;
    let modrm = ModRM {
        mod_bits: 0,
        reg: 0,
        rm: 3,
    };
    let op = cpu.resolve_modrm(modrm);
    assert_eq!(
        op,
        Operand::Memory {
            segment: 0x3000,
            offset: 0x0220,
        }
    );
}

#[test]
fn resolve_si() {
    let (mut cpu, _bus) = setup();
    cpu.si = 0x0300;
    let modrm = ModRM {
        mod_bits: 0,
        reg: 0,
        rm: 4,
    };
    let op = cpu.resolve_modrm(modrm);
    assert_eq!(
        op,
        Operand::Memory {
            segment: 0x2000,
            offset: 0x0300,
        }
    );
}

#[test]
fn resolve_di() {
    let (mut cpu, _bus) = setup();
    cpu.di = 0x0400;
    let modrm = ModRM {
        mod_bits: 0,
        reg: 0,
        rm: 5,
    };
    let op = cpu.resolve_modrm(modrm);
    assert_eq!(
        op,
        Operand::Memory {
            segment: 0x2000,
            offset: 0x0400,
        }
    );
}

#[test]
fn resolve_direct_addressing() {
    let (mut cpu, _bus) = setup();
    stage(&mut cpu, &[0x34, 0x12]);

    let modrm = ModRM {
        mod_bits: 0,
        reg: 0,
        rm: 6,
    };
    let op = cpu.resolve_modrm(modrm);
    assert_eq!(
        op,
        Operand::Memory {
            segment: 0x2000,
            offset: 0x1234,
        }
    );
    assert_eq!(cpu.ip, 0x0102);
    assert_eq!(cpu.instr_pos, 2, "both offset bytes were consumed");
}

#[test]
fn resolve_bx() {
    let (mut cpu, _bus) = setup();
    cpu.bx = 0x0500;
    let modrm = ModRM {
        mod_bits: 0,
        reg: 0,
        rm: 7,
    };
    let op = cpu.resolve_modrm(modrm);
    assert_eq!(
        op,
        Operand::Memory {
            segment: 0x2000,
            offset: 0x0500,
        }
    );
}

#[test]
fn resolve_bx_si_disp8() {
    let (mut cpu, _bus) = setup();
    cpu.bx = 0x0100;
    cpu.si = 0x0050;
    stage(&mut cpu, &[0x10]);

    let modrm = ModRM {
        mod_bits: 1,
        reg: 0,
        rm: 0,
    };
    let op = cpu.resolve_modrm(modrm);
    assert_eq!(
        op,
        Operand::Memory {
            segment: 0x2000,
            offset: 0x0160,
        }
    );
}

#[test]
fn resolve_bp_disp8_uses_ss() {
    let (mut cpu, _bus) = setup();
    cpu.bp = 0x0200;
    stage(&mut cpu, &[0x04]);

    let modrm = ModRM {
        mod_bits: 1,
        reg: 0,
        rm: 6,
    };
    let op = cpu.resolve_modrm(modrm);
    assert_eq!(
        op,
        Operand::Memory {
            segment: 0x3000,
            offset: 0x0204,
        }
    );
}

#[test]
fn resolve_disp8_negative() {
    let (mut cpu, _bus) = setup();
    cpu.si = 0x0100;
    stage(&mut cpu, &[0xF0]);

    let modrm = ModRM {
        mod_bits: 1,
        reg: 0,
        rm: 4,
    };
    let op = cpu.resolve_modrm(modrm);
    assert_eq!(
        op,
        Operand::Memory {
            segment: 0x2000,
            offset: 0x00F0,
        }
    );
}

#[test]
fn resolve_bx_disp16() {
    let (mut cpu, _bus) = setup();
    cpu.bx = 0x0100;
    stage(&mut cpu, &[0x34, 0x12]);

    let modrm = ModRM {
        mod_bits: 2,
        reg: 0,
        rm: 7,
    };
    let op = cpu.resolve_modrm(modrm);
    assert_eq!(
        op,
        Operand::Memory {
            segment: 0x2000,
            offset: 0x1334,
        }
    );
}

#[test]
fn resolve_bp_disp16_uses_ss() {
    let (mut cpu, _bus) = setup();
    cpu.bp = 0x0500;
    stage(&mut cpu, &[0x02, 0x00]);

    let modrm = ModRM {
        mod_bits: 2,
        reg: 0,
        rm: 6,
    };
    let op = cpu.resolve_modrm(modrm);
    assert_eq!(
        op,
        Operand::Memory {
            segment: 0x3000,
            offset: 0x0502,
        }
    );
}

#[test]
fn resolve_with_segment_override() {
    let (mut cpu, _bus) = setup();
    cpu.bx = 0x0100;
    cpu.segment_override = Some(SegReg::ES);

    let modrm = ModRM {
        mod_bits: 0,
        reg: 0,
        rm: 7,
    };
    let op = cpu.resolve_modrm(modrm);
    assert_eq!(
        op,
        Operand::Memory {
            segment: 0x4000,
            offset: 0x0100,
        }
    );
}

#[test]
fn resolve_bp_with_cs_override() {
    let (mut cpu, _bus) = setup();
    cpu.bp = 0x0100;
    cpu.si = 0x0010;
    cpu.cs = 0x5000;
    cpu.segment_override = Some(SegReg::CS);

    let modrm = ModRM {
        mod_bits: 0,
        reg: 0,
        rm: 2,
    };
    let op = cpu.resolve_modrm(modrm);
    assert_eq!(
        op,
        Operand::Memory {
            segment: 0x5000,
            offset: 0x0110,
        }
    );
}

#[test]
fn read_write_operand8_register() {
    let (mut cpu, mut bus) = setup();
    cpu.ax = 0x0042;
    let op = Operand::Register(0);
    assert_eq!(cpu.read_operand8(op, &mut bus, MASTER), 0x42);

    cpu.write_operand8(op, &mut bus, MASTER, 0xFF);
    assert_eq!(cpu.al(), 0xFF);
}

#[test]
fn read_write_operand8_memory() {
    let (mut cpu, mut bus) = setup();
    let op = Operand::Memory {
        segment: 0x2000,
        offset: 0x0050,
    };
    cpu.write_operand8(op, &mut bus, MASTER, 0xAB);
    assert_eq!(cpu.read_operand8(op, &mut bus, MASTER), 0xAB);
    assert_eq!(bus.mem[0x20050], 0xAB);
}

#[test]
fn read_write_operand16_register() {
    let (mut cpu, mut bus) = setup();
    cpu.bx = 0x1234;
    let op = Operand::Register(3);
    assert_eq!(cpu.read_operand16(op, &mut bus, MASTER), 0x1234);

    cpu.write_operand16(op, &mut bus, MASTER, 0xABCD);
    assert_eq!(cpu.bx, 0xABCD);
}

#[test]
fn read_write_operand16_memory() {
    let (mut cpu, mut bus) = setup();
    let op = Operand::Memory {
        segment: 0x2000,
        offset: 0x0060,
    };
    cpu.write_operand16(op, &mut bus, MASTER, 0x1234);
    assert_eq!(cpu.read_operand16(op, &mut bus, MASTER), 0x1234);
    assert_eq!(bus.mem[0x20060], 0x34);
    assert_eq!(bus.mem[0x20061], 0x12);
}

#[test]
fn consume_no_prefixes() {
    let (mut cpu, _bus) = setup();
    stage(&mut cpu, &[0x90]);
    let opcode = cpu.consume_prefixes();
    assert_eq!(opcode, 0x90);
    assert_eq!(cpu.segment_override, None);
    assert_eq!(cpu.rep_prefix, None);
}

#[test]
fn consume_segment_override_prefix() {
    let (mut cpu, _bus) = setup();
    stage(&mut cpu, &[0x26, 0x90]);
    let opcode = cpu.consume_prefixes();
    assert_eq!(opcode, 0x90);
    assert_eq!(cpu.segment_override, Some(SegReg::ES));
}

#[test]
fn consume_rep_prefix() {
    let (mut cpu, _bus) = setup();
    stage(&mut cpu, &[0xF3, 0xA4]);
    let opcode = cpu.consume_prefixes();
    assert_eq!(opcode, 0xA4);
    assert_eq!(cpu.rep_prefix, Some(RepPrefix::Rep));
}

#[test]
fn consume_multiple_prefixes() {
    let (mut cpu, _bus) = setup();
    stage(&mut cpu, &[0xF0, 0x26, 0xF2, 0xA6]);
    let opcode = cpu.consume_prefixes();
    assert_eq!(opcode, 0xA6);
    assert_eq!(cpu.segment_override, Some(SegReg::ES));
    assert_eq!(cpu.rep_prefix, Some(RepPrefix::Repnz));
}

#[test]
fn consume_last_segment_override_wins() {
    let (mut cpu, _bus) = setup();
    stage(&mut cpu, &[0x26, 0x36, 0x90]);
    let opcode = cpu.consume_prefixes();
    assert_eq!(opcode, 0x90);
    assert_eq!(cpu.segment_override, Some(SegReg::SS));
}

#[test]
fn push_pop_round_trip() {
    let (mut cpu, mut bus) = setup();
    cpu.ss = 0x0000;
    cpu.sp = 0x0100;

    cpu.push16(&mut bus, MASTER, 0x1234);
    assert_eq!(cpu.sp, 0x00FE);
    cpu.push16(&mut bus, MASTER, 0x5678);
    assert_eq!(cpu.sp, 0x00FC);

    let val1 = cpu.pop16(&mut bus, MASTER);
    assert_eq!(val1, 0x5678);
    assert_eq!(cpu.sp, 0x00FE);

    let val2 = cpu.pop16(&mut bus, MASTER);
    assert_eq!(val2, 0x1234);
    assert_eq!(cpu.sp, 0x0100);
}

#[test]
fn ea_offset_wraps_16bit() {
    let (mut cpu, _bus) = setup();
    cpu.bx = 0xFFF0;
    cpu.si = 0x0020;
    let modrm = ModRM {
        mod_bits: 0,
        reg: 0,
        rm: 0,
    };
    let op = cpu.resolve_modrm(modrm);
    assert_eq!(
        op,
        Operand::Memory {
            segment: 0x2000,
            offset: 0x0010,
        }
    );
}

#[test]
fn fetch_word_little_endian() {
    let (mut cpu, _bus) = setup();
    let ip = cpu.ip;
    stage(&mut cpu, &[0x34, 0x12]);
    let val = cpu.fetch_word();
    assert_eq!(val, 0x1234);
    assert_eq!(cpu.ip, ip + 2);
}

#[test]
fn read_write_word_memory() {
    let (cpu, mut bus) = setup();
    cpu.write_word(&mut bus, MASTER, 0x1000, 0x0050, 0xABCD);
    let val = cpu.read_word(&mut bus, MASTER, 0x1000, 0x0050);
    assert_eq!(val, 0xABCD);
    assert_eq!(bus.mem[0x10050], 0xCD);
    assert_eq!(bus.mem[0x10051], 0xAB);
}
