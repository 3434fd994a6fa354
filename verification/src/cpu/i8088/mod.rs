//! Intel 8088 CPU emulation.
//!
//! The 8088 is the 8-bit external data bus variant of the 8086: 16-bit
//! registers, a segmented 20-bit address space, and a four-byte prefetch
//! queue filled by a bus interface unit (BIU) that runs alongside the
//! execution unit (EU). Each call to `execute_cycle` runs one T-state.

pub mod access;
pub mod addressing;
pub mod alu;
pub mod decode;
pub mod execute;
pub mod flags;
pub mod format;
pub mod microcode;
pub mod registers;
pub mod timing;

pub use registers::SegReg;

use vstd::prelude::*;
use crate::bus::{Bus, BusAccess, BusMaster, InterruptState};
use crate::debug::DebugRegister;
use decode::{
    decode_prefix, prefix_of, last_seg_override, last_rep, lemma_first_non_prefix_at, pop_reads,
    push_writes,
};
use execute::{accesses_of, effect, executed, only_regs_changed};
use flags::Flag;
use registers::phys;
use format::{format_of, format_spec, disp_len, imm_len, operand_len, Imm};

verus! {

/// The longest byte sequence the loader holds, prefixes included: four
/// prefixes ahead of the longest (six-byte) instruction. The part accepts
/// any number of prefixes; a longer sequence is not loaded.
pub const MAX_INSTRUCTION: usize = 10;

/// Bytes the BIU's instruction queue holds.
pub const QUEUE_LEN: usize = 4;

/// Idle cycles between the queue gaining room and the T1 of the fetch that
/// refills it.
pub const PREFETCH_RESTART_CYCLES: u8 = 2;

/// What the EU did to the queue on a given cycle: the QS0/QS1 status lines.
#[derive(Clone, Copy, Debug, PartialEq, Eq, Structural)]
pub enum QueueStatus {
    /// First byte of an instruction, or of one of its prefixes.
    First,
    /// A subsequent byte: ModR/M, displacement or immediate.
    Subsequent,
    /// The queue was flushed by a control transfer.
    Emptied,
}

/// The bus interface unit's prefetch state machine.
#[derive(Clone, Copy, Debug, PartialEq, Eq, Structural)]
pub enum Biu {
    /// Not fetching, because the queue is full.
    Idle,
    /// The queue has room and the BIU is counting idle cycles before T1.
    Restarting(u8),
    /// Inside a CODE bus cycle: `t` is 1 through 4, `addr` the address latched
    /// on T1.
    Fetching { t: u8, addr: u32 },
}

/// Which part of the instruction the loader's next fetched byte belongs to.
#[derive(Clone, Copy, Debug, PartialEq, Eq, Structural)]
pub enum Stage {
    /// The opcode, or one of the prefixes ahead of it.
    Opcode,
    /// The ModR/M byte.
    Modrm,
    /// Displacement bytes, with the number still to fetch.
    Displacement(u8),
    /// Immediate bytes, with the number still to fetch.
    Immediate(u8),
}

/// REP/REPZ/REPNZ prefix state.
#[derive(Copy, Clone, Debug, PartialEq, Eq, Structural)]
pub enum RepPrefix {
    /// REP (MOVS/STOS/LODS) or REPZ (CMPS/SCAS).
    Rep,
    /// REPNZ (CMPS/SCAS).
    Repnz,
}

/// The Intel 8088.
pub struct I8088 {
    pub ax: u16,
    pub bx: u16,
    pub cx: u16,
    pub dx: u16,
    pub si: u16,
    pub di: u16,
    pub bp: u16,
    pub sp: u16,
    pub cs: u16,
    pub ds: u16,
    pub es: u16,
    pub ss: u16,
    pub ip: u16,
    pub flags: u16,
    pub nmi_prev: bool,
    pub nmi_pending: bool,
    /// Halted by HLT, waiting for an interrupt.
    pub halted: bool,
    /// Instruction bytes fetched so far, prefixes included.
    pub instr: [u8; 10],
    /// How many bytes of `instr` the loader has fetched.
    pub instr_len: u8,
    /// How many of those the executor has consumed.
    pub instr_pos: u8,
    /// Where in `instr` the opcode byte sits, past any prefixes.
    pub opcode_at: u8,
    /// Which part of the instruction the loader is fetching.
    pub stage: Stage,
    /// Set for the one T-state on which an instruction retires.
    pub retired: bool,
    /// This instruction transferred control, so the queue holds bytes from the
    /// path not taken.
    pub transferred: bool,
    /// A control transfer has run and the queue must be flushed on the next
    /// T-state.
    pub pending_flush: bool,
    /// The instruction queue, oldest byte first.
    pub queue: [u8; 4],
    /// How many bytes of `queue` are live.
    pub queue_len: u8,
    /// The address the BIU will fetch next.
    pub prefetch_ip: u16,
    /// The BIU's own state machine.
    pub biu: Biu,
    /// What the EU did to the queue on this T-state.
    pub queue_status: Option<(QueueStatus, u8)>,
    pub segment_override: Option<SegReg>,
    pub rep_prefix: Option<RepPrefix>,
    pub irq_line: bool,
    /// Total T-states executed.
    pub clock: u64,
}

/// A snapshot of the architectural registers.
#[derive(Debug, Clone, PartialEq, Eq)]
pub struct I8088State {
    pub ax: u16,
    pub bx: u16,
    pub cx: u16,
    pub dx: u16,
    pub si: u16,
    pub di: u16,
    pub bp: u16,
    pub sp: u16,
    pub cs: u16,
    pub ds: u16,
    pub es: u16,
    pub ss: u16,
    pub ip: u16,
    pub flags: u16,
}

/// Whether a byte is a prefix.
pub open spec fn is_prefix(b: u8) -> bool {
    prefix_of(b) is Some
}

impl I8088 {
    /// The opcode byte, at `opcode_at`.
    pub open spec fn op_byte(&self) -> u8 {
        self.instr@[self.opcode_at as int]
    }

    /// The byte after the opcode: its ModR/M byte when it takes one.
    pub open spec fn after_op(&self) -> u8 {
        self.instr@[self.opcode_at + 1]
    }

    /// How long the instruction being loaded is, prefixes included, as the
    /// opcode table gives it.
    pub open spec fn full_len(&self) -> int {
        self.opcode_at + 1 + operand_len(self.op_byte(), self.after_op())
    }

    /// The first `n` buffered bytes are all prefixes.
    pub open spec fn prefixes_below(&self, n: int) -> bool {
        forall|j: int| 0 <= j < n ==> is_prefix(#[trigger] self.instr@[j])
    }

    /// The loader has found the opcode: it sits behind the prefixes and is
    /// not one itself.
    pub open spec fn opcode_found(&self) -> bool {
        &&& self.opcode_at < self.instr_len
        &&& !is_prefix(self.op_byte())
        &&& self.prefixes_below(self.opcode_at as int)
    }

    /// The BIU only counts down to, or runs, a fetch while the queue has
    /// room for the byte it brings.
    pub open spec fn biu_ok(&self) -> bool {
        match self.biu {
            Biu::Idle => true,
            Biu::Restarting(_) => self.queue_len < QUEUE_LEN,
            Biu::Fetching { t, .. } => t <= 3 ==> self.queue_len < QUEUE_LEN,
        }
    }

    /// The loader's bookkeeping is consistent: the buffer indices are in
    /// range, each stage counts exactly the bytes the opcode table still
    /// owes, and the BIU only fetches into a queue with room.
    pub open spec fn wf(&self) -> bool {
        &&& self.instr_len <= MAX_INSTRUCTION
        &&& self.instr_pos <= self.instr_len
        &&& self.queue_len <= QUEUE_LEN
        &&& self.opcode_at < MAX_INSTRUCTION
        &&& self.biu_ok()
        &&& match self.stage {
            Stage::Opcode => self.prefixes_below(self.instr_len as int),
            Stage::Modrm => self.opcode_found() && self.instr_len == self.opcode_at + 1
                && format_spec(self.op_byte()).modrm,
            Stage::Displacement(n) => self.opcode_found() && format_spec(self.op_byte()).modrm
                && 1 <= n <= 2 && self.opcode_at + 2 <= self.instr_len && self.instr_len + n
                == self.opcode_at + 2 + disp_len(self.after_op()),
            Stage::Immediate(n) => self.opcode_found() && 1 <= n <= 4 && self.instr_len + n
                == self.full_len() && (format_spec(self.op_byte()).modrm ==> self.opcode_at + 2
                <= self.instr_len),
        }
    }

    /// A whole instruction sits in the buffer, ready to run: its prefixes, its
    /// opcode and exactly the operand bytes the opcode table asks for.
    pub open spec fn instruction_loaded(&self) -> bool {
        &&& self.instr_len <= MAX_INSTRUCTION
        &&& self.queue_len <= QUEUE_LEN
        &&& self.biu_ok()
        &&& self.opcode_found()
        &&& self.instr_len == self.full_len()
        &&& self.stage == Stage::Opcode
        &&& self.instr_pos == 0
    }

    /// Between bytes of an instruction the executor has read nothing.
    pub open spec fn loader_ready(&self) -> bool {
        self.instr_pos == 0
    }

    /// The bytes live in the prefetch queue, oldest first.
    pub open spec fn queued(&self) -> Seq<u8> {
        self.queue@.take(self.queue_len as int)
    }

    /// The power-on state: CS:IP = FFFF:0000, every other register zero,
    /// FLAGS normalized, nothing loaded, an empty queue and an idle BIU.
    pub open spec fn is_power_on(&self) -> bool {
        &&& self.ax == 0 && self.bx == 0 && self.cx == 0 && self.dx == 0
        &&& self.si == 0 && self.di == 0 && self.bp == 0 && self.sp == 0
        &&& self.cs == 0xFFFF && self.ds == 0 && self.es == 0 && self.ss == 0
        &&& self.ip == 0
        &&& self.flags == flags::normal(0)
        &&& !self.nmi_prev && !self.nmi_pending && !self.halted
        &&& forall|k: int| 0 <= k < 10 ==> self.instr@[k] == 0
        &&& self.instr_len == 0 && self.instr_pos == 0 && self.opcode_at == 0
        &&& self.stage == Stage::Opcode
        &&& !self.retired && !self.transferred && !self.pending_flush
        &&& forall|k: int| 0 <= k < 4 ==> self.queue@[k] == 0
        &&& self.queue_len == 0 && self.prefetch_ip == 0
        &&& self.biu == Biu::Idle
        &&& self.queue_status is None
        &&& self.segment_override is None
        &&& self.rep_prefix is None
        &&& !self.irq_line
        &&& self.clock == 0
    }

    /// A CPU in its power-on state.
    pub fn new() -> (r: Self)
        ensures
            r.is_power_on(),
            r.wf(),
    {
        I8088 {
            ax: 0,
            bx: 0,
            cx: 0,
            dx: 0,
            si: 0,
            di: 0,
            bp: 0,
            sp: 0,
            cs: 0xFFFF,
            ds: 0,
            es: 0,
            ss: 0,
            ip: 0,
            flags: flags::normalize(0),
            nmi_prev: false,
            nmi_pending: false,
            halted: false,
            instr: [0u8; 10],
            instr_len: 0,
            instr_pos: 0,
            opcode_at: 0,
            stage: Stage::Opcode,
            retired: false,
            transferred: false,
            pending_flush: false,
            queue: [0u8; 4],
            queue_len: 0,
            prefetch_ip: 0,
            biu: Biu::Idle,
            queue_status: None,
            segment_override: None,
            rep_prefix: None,
            irq_line: false,
            clock: 0,
        }
    }

    /// True when the CPU is between instructions: not halted and nothing
    /// loaded.
    pub fn at_instruction_boundary(&self) -> (r: bool)
        ensures
            r == (!self.halted && self.instr_len == 0),
    {
        !self.halted && self.instr_len == 0
    }

    /// Total T-states executed since creation.
    pub fn clock(&self) -> (r: u64)
        ensures
            r == self.clock,
    {
        self.clock
    }

    /// Whether the CPU is halted, waiting for an interrupt.
    pub fn is_sleeping(&self) -> (r: bool)
        ensures
            r == self.halted,
    {
        self.halted
    }

    /// Whether the BIU may start another fetch: one free byte is enough.
    pub fn queue_has_room(&self) -> (r: bool)
        ensures
            r == (self.queue_len < QUEUE_LEN),
    {
        (self.queue_len as usize) < QUEUE_LEN
    }

    /// Take the oldest byte out of the queue.
    pub fn pop_queue(&mut self) -> (byte: u8)
        requires
            old(self).wf(),
            old(self).queue_len > 0,
        ensures
            final(self).wf(),
            byte == old(self).queued()[0],
            final(self).queued() == old(self).queued().drop_first(),
            *final(self) == (I8088 { queue: final(self).queue, queue_len: final(self).queue_len, ..*old(self) }),
    {
        let byte = self.queue[0];
        let q1 = self.queue[1];
        let q2 = self.queue[2];
        let q3 = self.queue[3];
        self.queue[0] = q1;
        self.queue[1] = q2;
        self.queue[2] = q3;
        self.queue_len = self.queue_len - 1;
        assert(self.queued() =~= old(self).queued().drop_first());
        byte
    }

    /// Append a freshly fetched byte.
    pub fn push_queue(&mut self, byte: u8)
        requires
            old(self).queue_len < QUEUE_LEN,
        ensures
            final(self).queue_len == old(self).queue_len + 1,
            final(self).queued() == old(self).queued().push(byte),
            *final(self) == (I8088 { queue: final(self).queue, queue_len: final(self).queue_len, ..*old(self) }),
    {
        let i = self.queue_len as usize;
        self.queue[i] = byte;
        self.queue_len = self.queue_len + 1;
        assert(self.queued() =~= old(self).queued().push(byte));
    }

    /// Transfer control to a new offset, flushing the queue when the
    /// instruction retires.
    pub fn set_ip(&mut self, ip: u16)
        ensures
            *final(self) == (I8088 { ip, transferred: true, ..*old(self) }),
    {
        self.ip = ip;
        self.transferred = true;
    }

    /// Transfer control to a new segment. See `set_ip`.
    pub fn set_cs(&mut self, cs: u16)
        ensures
            *final(self) == (I8088 { cs, transferred: true, ..*old(self) }),
    {
        self.cs = cs;
        self.transferred = true;
    }

    /// Install a prefetch queue and point the BIU past it. IP is left alone;
    /// the BIU's pointer goes past the installed bytes.
    pub fn load_prefetch_queue(&mut self, bytes: &[u8])
        requires
            old(self).wf(),
            bytes@.len() <= QUEUE_LEN,
        ensures
            final(self).wf(),
            final(self).queued() == bytes@,
            final(self).prefetch_ip == (old(self).ip + bytes@.len()) % 65536,
            final(self).biu == Biu::Idle,
            *final(self) == (I8088 {
                queue: final(self).queue,
                queue_len: final(self).queue_len,
                prefetch_ip: final(self).prefetch_ip,
                biu: Biu::Idle,
                ..*old(self)
            }),
    {
        let n = bytes.len();
        let mut i: usize = 0;
        while i < n
            invariant
                n == bytes@.len(),
                n <= 4,
                i <= n,
                self.queue@.len() == 4,
                forall|k: int| 0 <= k < i ==> self.queue@[k] == bytes@[k],
                *self == (I8088 { queue: self.queue, ..*old(self) }),
            decreases n - i,
        {
            self.queue[i] = bytes[i];
            i += 1;
        }
        self.queue_len = n as u8;
        self.prefetch_ip = ((self.ip as usize + n) % 65536) as u16;
        self.biu = Biu::Idle;
        assert(self.queued() =~= bytes@);
    }

    /// The bytes currently queued, oldest first.
    pub fn prefetch_queue(&self) -> (r: &[u8])
        requires
            self.wf(),
        ensures
            r@ == self.queued(),
    {
        let n = self.queue_len as usize;
        slice_prefix(&self.queue, n)
    }

    /// Throw the queue away and restart prefetching at CS:IP.
    pub fn flush_queue(&mut self)
        requires
            old(self).wf(),
        ensures
            *final(self) == (I8088 {
                queue_len: 0,
                prefetch_ip: old(self).ip,
                biu: Biu::Idle,
                instr_len: 0,
                instr_pos: 0,
                stage: Stage::Opcode,
                queue_status: Some((QueueStatus::Emptied, 0u8)),
                ..*old(self)
            }),
            final(self).wf(),
    {
        self.queue_len = 0;
        self.prefetch_ip = self.ip;
        self.biu = Biu::Idle;
        self.instr_len = 0;
        self.instr_pos = 0;
        self.stage = Stage::Opcode;
        self.queue_status = Some((QueueStatus::Emptied, 0));
    }

    /// The opcode byte of the instruction currently loaded.
    pub fn opcode(&self) -> (r: u8)
        requires
            self.opcode_at < MAX_INSTRUCTION,
        ensures
            r == self.instr@[self.opcode_at as int],
    {
        self.instr[self.opcode_at as usize]
    }

    /// Default segment for a given addressing mode: BP-based forms use SS,
    /// everything else DS (mod=00 rm=110 is a direct address, so DS).
    pub fn default_segment_for_rm(&self, rm: u8, mod_bits: u8) -> (r: SegReg)
        ensures
            r == if rm % 8 == 2 || rm % 8 == 3 || (rm % 8 == 6 && mod_bits != 0) {
                SegReg::SS
            } else {
                SegReg::DS
            },
    {
        match rm % 8 {
            2 | 3 => SegReg::SS,
            6 if mod_bits != 0 => SegReg::SS,
            _ => SegReg::DS,
        }
    }

    /// The segment an access uses: the override when one is active, the
    /// default otherwise.
    pub open spec fn eff_seg(&self, default: SegReg) -> u16 {
        match self.segment_override {
            Some(s) => self.seg(s),
            None => self.seg(default),
        }
    }

    /// Resolve the effective segment: the override if active, else the
    /// default.
    pub fn effective_segment(&self, default: SegReg) -> (r: u16)
        ensures
            r == self.eff_seg(default),
    {
        let s = match self.segment_override {
            Some(s) => s,
            None => default,
        };
        self.get_seg(s)
    }

    /// The architectural registers.
    pub fn snapshot(&self) -> (r: I8088State)
        ensures
            r == (I8088State {
                ax: self.ax,
                bx: self.bx,
                cx: self.cx,
                dx: self.dx,
                si: self.si,
                di: self.di,
                bp: self.bp,
                sp: self.sp,
                cs: self.cs,
                ds: self.ds,
                es: self.es,
                ss: self.ss,
                ip: self.ip,
                flags: self.flags,
            }),
    {
        I8088State {
            ax: self.ax,
            bx: self.bx,
            cx: self.cx,
            dx: self.dx,
            si: self.si,
            di: self.di,
            bp: self.bp,
            sp: self.sp,
            cs: self.cs,
            ds: self.ds,
            es: self.es,
            ss: self.ss,
            ip: self.ip,
            flags: self.flags,
        }
    }

    /// Decide what the loader fetches next, having just taken delivery of a
    /// byte. Returns true when the instruction is complete.
    ///
    /// A prefix keeps the loader in the opcode stage, however many there are.
    #[verifier::spinoff_prover]
    #[verifier::rlimit(50)]
    pub fn advance_stage(&mut self) -> (done: bool)
        requires
            1 <= old(self).instr_len <= MAX_INSTRUCTION,
            ({
                let pre = I8088 { instr_len: (old(self).instr_len - 1) as u8, ..*old(self) };
                pre.wf() && pre.loader_ready()
            }),
        ensures
            (done, *final(self)) == stage_next(*old(self)),
            !done ==> final(self).wf() && final(self).loader_ready(),
            done ==> final(self).instruction_loaded(),
    {
        let just_fetched = self.instr[(self.instr_len - 1) as usize];
        match self.stage {
            Stage::Opcode => {
                if decode_prefix(just_fetched).is_some() {
                    return false;
                }
                self.opcode_at = self.instr_len - 1;
                proof {
                    lemma_full_len_bound(*self);
                }
                let f = format_of(just_fetched);
                if f.modrm {
                    self.stage = Stage::Modrm;
                    false
                } else {
                    proof {
                        format::law_far_pointer_only_on_far_transfers(just_fetched, None);
                    }
                    self.begin_immediate(f.imm, None)
                }
            },
            Stage::Modrm => {
                proof {
                    lemma_full_len_bound(*self);
                }
                let disp = format::displacement_len(just_fetched);
                if disp > 0 {
                    self.stage = Stage::Displacement(disp);
                    false
                } else {
                    let op = self.opcode();
                    let imm = format_of(op).imm;
                    proof {
                        format::law_far_pointer_only_on_far_transfers(op, Some(just_fetched));
                    }
                    self.begin_immediate(imm, Some(just_fetched))
                }
            },
            Stage::Displacement(n) => {
                if n > 1 {
                    self.stage = Stage::Displacement((n - 1) as u8);
                    false
                } else {
                    proof {
                        lemma_full_len_bound(*self);
                    }
                    let op = self.opcode();
                    let imm = format_of(op).imm;
                    let modrm = self.instr[(self.opcode_at + 1) as usize];
                    proof {
                        format::law_far_pointer_only_on_far_transfers(op, Some(modrm));
                    }
                    self.begin_immediate(imm, Some(modrm))
                }
            },
            Stage::Immediate(n) => {
                if n > 1 {
                    self.stage = Stage::Immediate((n - 1) as u8);
                    false
                } else {
                    self.stage = Stage::Opcode;
                    true
                }
            },
        }
    }

    /// Enter the immediate stage, or finish the instruction when there is no
    /// immediate to fetch.
    fn begin_immediate(&mut self, imm: Imm, modrm: Option<u8>) -> (done: bool)
        requires
            old(self).opcode_found(),
            old(self).instr_len <= MAX_INSTRUCTION,
            old(self).instr_pos == 0,
            old(self).queue_len <= QUEUE_LEN,
            old(self).opcode_at < MAX_INSTRUCTION,
            old(self).instr_len + imm_len(imm, modrm) == old(self).full_len(),
            format_spec(old(self).op_byte()).modrm ==> old(self).opcode_at + 2 <= old(self).instr_len,
            imm_len(imm, modrm) <= 4,
            old(self).biu_ok(),
        ensures
            (done, *final(self)) == immediate_next(*old(self), imm, modrm),
            done ==> final(self).instruction_loaded(),
            !done ==> final(self).wf() && final(self).loader_ready(),
    {
        let n = imm.len(modrm);
        if n == 0 {
            self.stage = Stage::Opcode;
            true
        } else {
            self.stage = Stage::Immediate(n);
            false
        }
    }
}

impl I8088State {
    /// The registers as a debugger lists them: CS:IP as one value (CS in the
    /// upper half), then the general, pointer, index and segment registers
    /// and FLAGS. Every entry is shown 16 bits wide, a width the debug panel
    /// takes.
    pub fn debug_registers(&self) -> (r: Vec<DebugRegister>)
        ensures
            r@.len() == 13,
            r@[0].name@ == "CS:IP"@ && r@[0].value == (self.cs as u64) * 65536 + self.ip as u64 && r@[0].width == 16,
            r@[1].name@ == "AX"@ && r@[1].value == self.ax as u64 && r@[1].width == 16,
            r@[2].name@ == "BX"@ && r@[2].value == self.bx as u64 && r@[2].width == 16,
            r@[3].name@ == "CX"@ && r@[3].value == self.cx as u64 && r@[3].width == 16,
            r@[4].name@ == "DX"@ && r@[4].value == self.dx as u64 && r@[4].width == 16,
            r@[5].name@ == "SI"@ && r@[5].value == self.si as u64 && r@[5].width == 16,
            r@[6].name@ == "DI"@ && r@[6].value == self.di as u64 && r@[6].width == 16,
            r@[7].name@ == "BP"@ && r@[7].value == self.bp as u64 && r@[7].width == 16,
            r@[8].name@ == "SP"@ && r@[8].value == self.sp as u64 && r@[8].width == 16,
            r@[9].name@ == "DS"@ && r@[9].value == self.ds as u64 && r@[9].width == 16,
            r@[10].name@ == "ES"@ && r@[10].value == self.es as u64 && r@[10].width == 16,
            r@[11].name@ == "SS"@ && r@[11].value == self.ss as u64 && r@[11].width == 16,
            r@[12].name@ == "FLAGS"@ && r@[12].value == self.flags as u64 && r@[12].width == 16,
    {
        let mut v: Vec<DebugRegister> = Vec::new();
        v.push(DebugRegister { name: "CS:IP", value: (self.cs as u64) * 65536 + self.ip as u64, width: 16 });
        v.push(DebugRegister { name: "AX", value: self.ax as u64, width: 16 });
        v.push(DebugRegister { name: "BX", value: self.bx as u64, width: 16 });
        v.push(DebugRegister { name: "CX", value: self.cx as u64, width: 16 });
        v.push(DebugRegister { name: "DX", value: self.dx as u64, width: 16 });
        v.push(DebugRegister { name: "SI", value: self.si as u64, width: 16 });
        v.push(DebugRegister { name: "DI", value: self.di as u64, width: 16 });
        v.push(DebugRegister { name: "BP", value: self.bp as u64, width: 16 });
        v.push(DebugRegister { name: "SP", value: self.sp as u64, width: 16 });
        v.push(DebugRegister { name: "DS", value: self.ds as u64, width: 16 });
        v.push(DebugRegister { name: "ES", value: self.es as u64, width: 16 });
        v.push(DebugRegister { name: "SS", value: self.ss as u64, width: 16 });
        v.push(DebugRegister { name: "FLAGS", value: self.flags as u64, width: 16 });
        v
    }
}

impl Default for I8088 {
    /// A CPU in its power-on state.
    fn default() -> (r: Self)
        ensures
            r.is_power_on(),
            r.wf(),
    {
        I8088::new()
    }
}

/// `s` with its queue thrown away and prefetching restarted at CS:IP.
pub open spec fn flushed(s: I8088) -> I8088 {
    I8088 {
        queue_len: 0,
        prefetch_ip: s.ip,
        biu: Biu::Idle,
        instr_len: 0,
        instr_pos: 0,
        stage: Stage::Opcode,
        queue_status: Some((QueueStatus::Emptied, 0u8)),
        ..s
    }
}

/// The CPU once the prefixes of its loaded instruction have been read: the
/// executor sits past the opcode, IP has moved over the prefixes and the
/// opcode, and the segment override and REP state are the last ones given.
pub open spec fn after_prefixes(s: I8088) -> I8088 {
    I8088 {
        instr_pos: (s.opcode_at + 1) as u8,
        ip: ((s.ip + s.opcode_at + 1) % 65536) as u16,
        segment_override: last_seg_override(s.instr@, 0, s.opcode_at as int),
        rep_prefix: last_rep(s.instr@, 0, s.opcode_at as int),
        transferred: false,
        ..s
    }
}

/// An executed instruction's CPU, its buffer emptied: retired, or, when it
/// transferred control, with a flush pending for the next T-state.
pub open spec fn retire(e: I8088) -> I8088 {
    I8088 {
        instr_len: 0,
        instr_pos: 0,
        pending_flush: e.transferred || e.pending_flush,
        retired: !e.transferred || e.retired,
        ..e
    }
}

/// `b` is `a` after taking an interrupt: FLAGS, CS and IP pushed, IF and TF
/// cleared, and CS:IP loaded from the vector table (what the table holds is
/// the bus's to say).
pub open spec fn interrupted(a: I8088, b: I8088) -> bool {
    b == (I8088 {
        sp: ((a.sp + 65530) % 65536) as u16,
        flags: flags::with(flags::with(a.flags, Flag::IF, false), Flag::TF, false),
        ip: b.ip,
        cs: b.cs,
        transferred: true,
        ..a
    })
}

/// The bus accesses of an interrupt through `vector` from `s` that lands
/// at `ip`:`cs`: FLAGS, CS and IP pushed in that order, each low byte
/// first, then the new IP and CS read from the vector's entry at
/// 0:vector*4.
pub open spec fn interrupt_accesses(
    s: I8088,
    vector: u8,
    ip: u16,
    cs: u16,
    before: Seq<BusAccess<u32, u8>>,
) -> Seq<BusAccess<u32, u8>> {
    let sp1 = s.sp.wrapping_sub(2);
    let sp2 = sp1.wrapping_sub(2);
    let sp3 = sp2.wrapping_sub(2);
    let entry = (vector * 4) as u16;
    before.push(push_writes(s.ss, sp1, s.flags).0).push(push_writes(s.ss, sp1, s.flags).1).push(
        push_writes(s.ss, sp2, s.cs).0,
    ).push(push_writes(s.ss, sp2, s.cs).1).push(push_writes(s.ss, sp3, s.ip).0).push(
        push_writes(s.ss, sp3, s.ip).1,
    ).push(pop_reads(0, entry, ip).0).push(pop_reads(0, entry, ip).1).push(
        pop_reads(0, (entry + 2) as u16, cs).0,
    ).push(pop_reads(0, (entry + 2) as u16, cs).1)
}

/// The loader entering its immediate stage for an immediate of
/// `imm_len(imm, modrm)` bytes, or finishing the instruction when there is
/// none: whether it finished, and the CPU after.
pub open spec fn immediate_next(s: I8088, imm: Imm, modrm: Option<u8>) -> (bool, I8088) {
    let n = imm_len(imm, modrm);
    if n == 0 {
        (true, I8088 { stage: Stage::Opcode, ..s })
    } else {
        (false, I8088 { stage: Stage::Immediate(n), ..s })
    }
}

/// The loader's decision once byte `instr_len - 1` of `s` has arrived:
/// whether the instruction is complete, and the CPU after. A prefix keeps
/// the opcode stage; the opcode is recorded where it sits and leads to its
/// ModR/M byte or its immediate; a ModR/M byte leads to its displacement or
/// the immediate; each displacement and immediate byte counts down. The
/// buffer is left as it is.
pub open spec fn stage_next(s: I8088) -> (bool, I8088) {
    let last = s.instr@[s.instr_len - 1];
    match s.stage {
        Stage::Opcode => if is_prefix(last) {
            (false, s)
        } else {
            let t = I8088 { opcode_at: (s.instr_len - 1) as u8, ..s };
            if format_spec(last).modrm {
                (false, I8088 { stage: Stage::Modrm, ..t })
            } else {
                immediate_next(t, format_spec(last).imm, None)
            }
        },
        Stage::Modrm => if disp_len(last) > 0 {
            (false, I8088 { stage: Stage::Displacement(disp_len(last)), ..s })
        } else {
            immediate_next(s, format_spec(s.op_byte()).imm, Some(last))
        },
        Stage::Displacement(n) => if n > 1 {
            (false, I8088 { stage: Stage::Displacement((n - 1) as u8), ..s })
        } else {
            immediate_next(s, format_spec(s.op_byte()).imm, Some(s.after_op()))
        },
        Stage::Immediate(n) => if n > 1 {
            (false, I8088 { stage: Stage::Immediate((n - 1) as u8), ..s })
        } else {
            (true, I8088 { stage: Stage::Opcode, ..s })
        },
    }
}

/// One T-state of the execution unit, from `a` to `b`, with the bus record
/// going from `before` to `after`: with the queue empty nothing happens;
/// otherwise the oldest queued byte is appended to the loader's buffer with
/// its queue status and the loader takes its next stage (`stage_next`), and
/// when that completes the instruction, the instruction runs on the loaded
/// CPU `l` and retires, its accesses appended to the record.
/// The BIU, the clock and the interrupt bookkeeping are left alone.
pub open spec fn eu_step(
    a: I8088,
    b: I8088,
    before: Seq<BusAccess<u32, u8>>,
    after: Seq<BusAccess<u32, u8>>,
) -> bool {
    &&& a.queue_len == 0 ==> b == a && after == before
    &&& b.instr_len != 0 ==> after == before
    &&& (a.queue_len > 0 && b.instr_len != 0) ==> {
        &&& b.instr_len == a.instr_len + 1
        &&& b.instr@ == a.instr@.update(a.instr_len as int, a.queued()[0])
        &&& stage_next(I8088 { stage: a.stage, opcode_at: a.opcode_at, ..b }) == (false, b)
    }
    &&& (a.queue_len > 0 && b.instr_len == 0) ==> exists|l: I8088, v1: u16, v2: u16|
        #![trigger effect(after_prefixes(l), l.op_byte(), v1, v2)]
        {
            &&& l.instruction_loaded()
            &&& l == (I8088 {
                instr: l.instr,
                instr_len: l.instr_len,
                opcode_at: l.opcode_at,
                stage: l.stage,
                queue: l.queue,
                queue_len: l.queue_len,
                queue_status: l.queue_status,
                ..a
            })
            &&& l.queued() == a.queued().drop_first()
            &&& l.instr_len == a.instr_len + 1
            &&& l.instr@ == a.instr@.update(a.instr_len as int, a.queued()[0])
            &&& stage_next(I8088 { stage: a.stage, opcode_at: a.opcode_at, ..l }) == (true, l)
            &&& b == retire(effect(after_prefixes(l), l.op_byte(), v1, v2))
            &&& after == before + accesses_of(after_prefixes(l), l.op_byte(), v1, v2)
        }
    &&& a.queue_len > 0 ==> b.queued() == a.queued().drop_first()
    &&& a.queue_len > 0 ==> b.queue_status == Some(
        (
            if a.stage == Stage::Opcode {
                QueueStatus::First
            } else {
                QueueStatus::Subsequent
            },
            a.queued()[0],
        ),
    )
    &&& b.biu == a.biu
    &&& b.prefetch_ip == a.prefetch_ip
    &&& b.clock == a.clock
    &&& b.halted == a.halted
    &&& b.nmi_prev == a.nmi_prev
    &&& b.nmi_pending == a.nmi_pending
}

/// One T-state of the bus interface unit, from `a` to `b`, with the bus
/// record going from `before` to `after`: an idle BIU with room in the
/// queue starts the restart delay, the delay counts down to T1 of a fetch at
/// CS:prefetch IP, T1 and T2 advance, T3 reads the byte into the queue, and
/// T4 runs into the next T1 while there is room. Only T3 touches the bus.
pub open spec fn biu_step(
    a: I8088,
    b: I8088,
    before: Seq<BusAccess<u32, u8>>,
    after: Seq<BusAccess<u32, u8>>,
) -> bool {
    &&& b == (I8088 {
        biu: b.biu,
        queue: b.queue,
        queue_len: b.queue_len,
        prefetch_ip: b.prefetch_ip,
        ..a
    })
    &&& match a.biu {
        Biu::Fetching { t, addr } => if t == 3 {
            &&& b.biu == (Biu::Fetching { t: 4, addr })
            &&& exists|x: u8|
                b.queued() == #[trigger] a.queued().push(x) && after == before.push(
                    BusAccess::Read(addr, x),
                )
            &&& b.prefetch_ip == (a.prefetch_ip + 1) % 65536
        } else {
            &&& b.queued() == a.queued()
            &&& b.queue_len == a.queue_len
            &&& b.prefetch_ip == a.prefetch_ip
            &&& after == before
            &&& b.biu == if 1 <= t <= 2 {
                Biu::Fetching { t: (t + 1) as u8, addr }
            } else if a.queue_len < QUEUE_LEN {
                Biu::Fetching { t: 1, addr: phys(a.cs, a.prefetch_ip) }
            } else {
                Biu::Idle
            }
        },
        Biu::Restarting(n) => {
            &&& b.queued() == a.queued()
            &&& b.queue_len == a.queue_len
            &&& b.prefetch_ip == a.prefetch_ip
            &&& after == before
            &&& b.biu == if n == 0 {
                Biu::Fetching { t: 1, addr: phys(a.cs, a.prefetch_ip) }
            } else {
                Biu::Restarting((n - 1) as u8)
            }
        },
        Biu::Idle => {
            &&& b.queued() == a.queued()
            &&& b.queue_len == a.queue_len
            &&& b.prefetch_ip == a.prefetch_ip
            &&& after == before
            &&& b.biu == if a.queue_len < QUEUE_LEN {
                Biu::Restarting((PREFETCH_RESTART_CYCLES - 1) as u8)
            } else {
                Biu::Idle
            }
        },
    }
}

/// One T-state of a running CPU: the EU's, then the BIU's, through some
/// middle state `m` and bus record `log`.
pub open spec fn units_step(
    a: I8088,
    b: I8088,
    before: Seq<BusAccess<u32, u8>>,
    after: Seq<BusAccess<u32, u8>>,
) -> bool {
    exists|m: I8088, log: Seq<BusAccess<u32, u8>>|
        #[trigger] eu_step(a, m, before, log) && biu_step(m, b, log, after)
}

/// `r` is `a` after taking an interrupt through `vector` and flushing the
/// queue, the bus record going from `before` to `after` by the interrupt's
/// accesses.
pub open spec fn took_interrupt(
    a: I8088,
    vector: u8,
    r: I8088,
    before: Seq<BusAccess<u32, u8>>,
    after: Seq<BusAccess<u32, u8>>,
) -> bool {
    exists|x: I8088|
        #[trigger] interrupted(a, x) && r == flushed(x) && after == interrupt_accesses(
            a,
            vector,
            x.ip,
            x.cs,
            before,
        )
}

/// `s` as a T-state starts: the clock advanced, no queue status yet, and
/// no instruction retired.
pub open spec fn tstate_start(s: I8088) -> I8088 {
    I8088 { clock: (s.clock + 1) as u64, queue_status: None, retired: false, ..s }
}

/// One T-state of a halted CPU `s` whose look
/// at the interrupt lines showed `ints`: an NMI (pending, or a rising edge
/// now) wakes it through vector 2; otherwise an IRQ with IF set wakes it
/// through the vector the bus gave; otherwise it stays halted, noting the
/// NMI line. The poll is recorded first.
pub open spec fn halted_cycle(
    s: I8088,
    ints: InterruptState,
    r: I8088,
    before: Seq<BusAccess<u32, u8>>,
    after: Seq<BusAccess<u32, u8>>,
) -> bool {
    let c = tstate_start(s);
    let polled = before.push(BusAccess::Poll(ints));
    let noted = I8088 { nmi_prev: ints.nmi, nmi_pending: false, ..c };
    let woken = I8088 { halted: false, ..noted };
    if c.nmi_pending || (ints.nmi && !c.nmi_prev) {
        took_interrupt(woken, 2, r, polled, after)
    } else if ints.irq && flags::is_set(c.flags, Flag::IF) {
        took_interrupt(woken, ints.irq_vector, r, polled, after)
    } else {
        r == noted && after == polled
    }
}

/// One T-state of a running CPU `s` at an
/// instruction boundary, whose look at the interrupt lines showed `ints`:
/// an NMI (pending, or a rising edge now) is taken through vector 2;
/// otherwise an IRQ with IF set through the vector the bus gave; otherwise
/// the EU and BIU run their T-state. The poll is recorded first.
pub open spec fn boundary_cycle(
    s: I8088,
    ints: InterruptState,
    r: I8088,
    before: Seq<BusAccess<u32, u8>>,
    after: Seq<BusAccess<u32, u8>>,
) -> bool {
    let c = tstate_start(s);
    let polled = before.push(BusAccess::Poll(ints));
    let noted = I8088 { nmi_prev: ints.nmi, nmi_pending: false, ..c };
    if c.nmi_pending || (ints.nmi && !c.nmi_prev) {
        took_interrupt(noted, 2, r, polled, after)
    } else if ints.irq && flags::is_set(c.flags, Flag::IF) {
        took_interrupt(noted, ints.irq_vector, r, polled, after)
    } else {
        units_step(noted, r, polled, after)
    }
}


/// The fields the executor never touches: the queue, the BIU and the
/// interrupt bookkeeping.
pub open spec fn loader_frame(a: I8088, b: I8088) -> bool {
    &&& b.queue == a.queue
    &&& b.queue_len == a.queue_len
    &&& b.queue_status == a.queue_status
    &&& b.biu == a.biu
    &&& b.prefetch_ip == a.prefetch_ip
    &&& b.clock == a.clock
    &&& b.halted == a.halted
    &&& b.nmi_prev == a.nmi_prev
    &&& b.nmi_pending == a.nmi_pending
    &&& b.irq_line == a.irq_line
}

impl I8088 {
    /// Run the instruction the loader has just finished fetching: read its
    /// prefixes, execute it, and empty the buffer.
    ///
    /// For every instruction this core executes, the executor consumes
    /// exactly the bytes the loader fetched, so IP moves on by the loaded
    /// length.
    pub fn run_loaded_instruction<B: Bus<Address = u32, Data = u8> + ?Sized>(
        &mut self,
        bus: &mut B,
        master: BusMaster,
    )
        requires
            old(self).instruction_loaded(),
        ensures
            exists|v1: u16, v2: u16|
                #![trigger effect(after_prefixes(*old(self)), old(self).op_byte(), v1, v2)]
                *final(self) == retire(
                    effect(after_prefixes(*old(self)), old(self).op_byte(), v1, v2),
                ) && final(bus).accesses() == old(bus).accesses() + accesses_of(
                    after_prefixes(*old(self)),
                    old(self).op_byte(),
                    v1,
                    v2,
                ),
            executed(old(self).op_byte()) ==> final(self).ip == (old(self).ip
                + old(self).instr_len) % 65536,
            loader_frame(*old(self), *final(self)),
            final(self).wf(),
            final(self).loader_ready(),
    {
        let ghost s0 = *self;
        self.transferred = false;
        self.instr_pos = 0;
        proof {
            lemma_full_len_bound(s0);
            lemma_first_non_prefix_at(
                self.instr@,
                0,
                self.instr_len as int,
                self.opcode_at as int,
            );
        }
        let opcode = self.consume_prefixes();
        let ghost t = *self;
        assert(t == after_prefixes(s0));
        let ghost log0 = bus.accesses();
        self.run_instruction(opcode, bus, master);
        let ghost e = *self;
        self.instr_len = 0;
        self.instr_pos = 0;
        if self.transferred {
            self.pending_flush = true;
        } else {
            self.retired = true;
        }
        proof {
            let (v1, v2) = choose|v1: u16, v2: u16|
                e == effect(t, opcode, v1, v2) && bus.accesses() == log0 + accesses_of(
                    t,
                    opcode,
                    v1,
                    v2,
                );
            assert(*self == retire(effect(t, opcode, v1, v2)));
            let a: int = s0.opcode_at + 1;
            let b: int = s0.instr_len - a;
            assert(((s0.ip + a) % 65536 + b) % 65536 == (s0.ip + a + b) % 65536)
                by (nonlinear_arith)
                requires
                    a >= 0,
                    b >= 0,
            ;
        }
    }

    /// The execution unit's T-state: take one byte from the queue, if there
    /// is one, into the loader, and run the instruction once it is complete.
    /// The byte's queue status is First in the opcode stage (prefixes
    /// included) and Subsequent after it.
    #[verifier::spinoff_prover]
    #[verifier::rlimit(100)]
    pub fn tick_eu<B: Bus<Address = u32, Data = u8> + ?Sized>(
        &mut self,
        bus: &mut B,
        master: BusMaster,
    )
        requires
            old(self).wf(),
            old(self).loader_ready(),
            old(self).queue_len > 0 ==> old(self).instr_len < MAX_INSTRUCTION,
        ensures
            final(self).wf(),
            final(self).loader_ready(),
            eu_step(*old(self), *final(self), old(bus).accesses(), final(bus).accesses()),
    {
        if self.queue_len == 0 {
            return;
        }
        let byte = self.pop_queue();
        let status = if self.stage == Stage::Opcode {
            QueueStatus::First
        } else {
            QueueStatus::Subsequent
        };
        self.queue_status = Some((status, byte));
        let ghost q = self.queued();
        self.instr[self.instr_len as usize] = byte;
        self.instr_len = self.instr_len + 1;
        proof {
            if self.stage != Stage::Opcode {
                lemma_full_len_bound(*self);
            }
        }
        let done = self.advance_stage();
        assert(self.queued() == q);
        if done {
            let ghost l = *self;
            self.run_loaded_instruction(bus, master);
            proof {
                let (v1, v2) = choose|v1: u16, v2: u16|
                    *self == retire(effect(after_prefixes(l), l.op_byte(), v1, v2))
                        && bus.accesses() == old(bus).accesses() + accesses_of(
                        after_prefixes(l),
                        l.op_byte(),
                        v1,
                        v2,
                    );
                assert(effect(after_prefixes(l), l.op_byte(), v1, v2) == effect(
                    after_prefixes(l),
                    l.op_byte(),
                    v1,
                    v2,
                ));
            }
        }
    }

    /// The bus interface unit's T-state: keep the queue full. A fetch from
    /// idle starts after `PREFETCH_RESTART_CYCLES`; T1 latches the address,
    /// T3 brings the byte in, and a T4 with room left runs straight into the
    /// next T1.
    pub fn tick_biu<B: Bus<Address = u32, Data = u8> + ?Sized>(
        &mut self,
        bus: &mut B,
        master: BusMaster,
    )
        requires
            old(self).wf(),
        ensures
            final(self).wf(),
            biu_step(*old(self), *final(self), old(bus).accesses(), final(bus).accesses()),
    {
        match self.biu {
            Biu::Idle => {
                if self.queue_has_room() {
                    self.biu = Biu::Restarting(PREFETCH_RESTART_CYCLES - 1);
                }
            },
            Biu::Restarting(n) => {
                if n == 0 {
                    self.biu = Biu::Fetching {
                        t: 1,
                        addr: I8088::physical_addr(self.cs, self.prefetch_ip),
                    };
                } else {
                    self.biu = Biu::Restarting(n - 1);
                }
            },
            Biu::Fetching { t, addr } => {
                if t >= 1 && t <= 2 {
                    self.biu = Biu::Fetching { t: t + 1, addr };
                } else if t == 3 {
                    let byte = bus.read(master, addr);
                    assert(bus.accesses() == old(bus).accesses().push(BusAccess::Read(addr, byte)));
                    self.push_queue(byte);
                    self.prefetch_ip = self.prefetch_ip.wrapping_add(1);
                    self.biu = Biu::Fetching { t: 4, addr };
                } else if self.queue_has_room() {
                    self.biu = Biu::Fetching {
                        t: 1,
                        addr: I8088::physical_addr(self.cs, self.prefetch_ip),
                    };
                } else {
                    self.biu = Biu::Idle;
                }
            },
        }
    }

    /// Take an interrupt through `vector`: push FLAGS, clear IF and TF, push
    /// CS and IP, then load IP and CS from the vector's entry at 0:vector*4.
    pub fn interrupt<B: Bus<Address = u32, Data = u8> + ?Sized>(
        &mut self,
        bus: &mut B,
        master: BusMaster,
        vector: u8,
    )
        ensures
            interrupted(*old(self), *final(self)),
            final(bus).accesses() == interrupt_accesses(
                *old(self),
                vector,
                final(self).ip,
                final(self).cs,
                old(bus).accesses(),
            ),
    {
        let f = self.flags;
        self.push16(bus, master, f);
        flags::set(&mut self.flags, Flag::IF, false);
        flags::set(&mut self.flags, Flag::TF, false);
        let cs = self.cs;
        self.push16(bus, master, cs);
        let ip = self.ip;
        self.push16(bus, master, ip);
        let entry: u16 = (vector as u16) * 4;
        let new_ip = self.read_word(bus, master, 0, entry);
        let new_cs = self.read_word(bus, master, 0, entry + 2);
        self.set_ip(new_ip);
        self.set_cs(new_cs);
    }

    /// Check the interrupt lines. NMI is edge-triggered and wins; IRQ is
    /// level-triggered and masked by IF. Returns whether one was taken.
    pub fn handle_interrupts<B: Bus<Address = u32, Data = u8> + ?Sized>(
        &mut self,
        ints: InterruptState,
        bus: &mut B,
        master: BusMaster,
    ) -> (taken: bool)
        ensures
            ({
                let pending = old(self).nmi_pending || (ints.nmi && !old(self).nmi_prev);
                let noted = I8088 { nmi_prev: ints.nmi, nmi_pending: false, ..*old(self) };
                &&& taken == (pending || (ints.irq && flags::is_set(old(self).flags, Flag::IF)))
                &&& taken ==> interrupted(noted, *final(self))
                &&& taken ==> final(bus).accesses() == interrupt_accesses(
                    noted,
                    if pending {
                        2u8
                    } else {
                        ints.irq_vector
                    },
                    final(self).ip,
                    final(self).cs,
                    old(bus).accesses(),
                )
                &&& !taken ==> *final(self) == noted
                &&& !taken ==> final(bus).accesses() == old(bus).accesses()
            }),
    {
        let nmi_edge = crate::cpu::flags::detect_rising_edge(ints.nmi, &mut self.nmi_prev);
        if nmi_edge {
            self.nmi_pending = true;
        }
        if self.nmi_pending {
            self.nmi_pending = false;
            self.interrupt(bus, master, 2);
            return true;
        }
        if ints.irq && flags::get(self.flags, Flag::IF) {
            self.interrupt(bus, master, ints.irq_vector);
            return true;
        }
        false
    }

    /// Execute one T-state.
    ///
    /// A flush left pending by a control transfer happens first, on its own
    /// T-state, and retires the instruction. A halted CPU does not prefetch:
    /// it only watches the interrupt lines. Otherwise interrupts are taken
    /// between instructions, and then the EU and the BIU each run their
    /// T-state, the EU first. The EU takes a byte only while the loader's
    /// buffer has room for it: an instruction longer than `MAX_INSTRUCTION`
    /// bytes, prefixes included, is outside what this core loads.
    pub fn execute_cycle<B: Bus<Address = u32, Data = u8> + ?Sized>(
        &mut self,
        bus: &mut B,
        master: BusMaster,
    )
        requires
            old(self).wf(),
            old(self).loader_ready(),
            old(self).clock < u64::MAX,
            (!old(self).pending_flush && !old(self).halted && old(self).queue_len > 0)
                ==> old(self).instr_len < MAX_INSTRUCTION,
        ensures
            final(self).wf(),
            final(self).loader_ready(),
            final(self).clock == old(self).clock + 1,
            ({
                let c = I8088 {
                    clock: (old(self).clock + 1) as u64,
                    queue_status: None,
                    retired: false,
                    ..*old(self)
                };
                &&& old(self).pending_flush ==> *final(self) == flushed(
                    I8088 { pending_flush: false, retired: true, ..c },
                )
                &&& old(self).pending_flush ==> final(bus).accesses() == old(bus).accesses()
                &&& (!old(self).pending_flush && old(self).halted) ==> exists|ints: InterruptState|
                    #[trigger] halted_cycle(
                        *old(self),
                        ints,
                        *final(self),
                        old(bus).accesses(),
                        final(bus).accesses(),
                    )
                &&& (!old(self).pending_flush && !old(self).halted && old(self).instr_len == 0)
                    ==> exists|ints: InterruptState|
                    #[trigger] boundary_cycle(
                        *old(self),
                        ints,
                        *final(self),
                        old(bus).accesses(),
                        final(bus).accesses(),
                    )
                &&& (!old(self).pending_flush && !old(self).halted && old(self).instr_len != 0)
                    ==> units_step(c, *final(self), old(bus).accesses(), final(bus).accesses())
            }),
    {
        let ghost s0 = *self;
        self.clock = self.clock + 1;
        self.queue_status = None;
        self.retired = false;
        let ghost log_start = bus.accesses();
        if self.pending_flush {
            self.pending_flush = false;
            self.flush_queue();
            self.retired = true;
            return;
        }
        if self.halted {
            let ints = bus.check_interrupts(master);
            let nmi_edge = crate::cpu::flags::detect_rising_edge(ints.nmi, &mut self.nmi_prev);
            if nmi_edge {
                self.nmi_pending = true;
            }
            let ghost log0 = bus.accesses();
            if self.nmi_pending {
                self.nmi_pending = false;
                self.halted = false;
                let ghost w = *self;
                self.interrupt(bus, master, 2);
                let ghost x = *self;
                self.flush_queue();
                assert(*self == flushed(x));
                assert(took_interrupt(w, 2, *self, log0, bus.accesses()));
            } else if ints.irq && flags::get(self.flags, Flag::IF) {
                self.halted = false;
                let ghost w = *self;
                self.interrupt(bus, master, ints.irq_vector);
                let ghost x = *self;
                self.flush_queue();
                assert(*self == flushed(x));
                assert(took_interrupt(w, ints.irq_vector, *self, log0, bus.accesses()));
            }
            assert(halted_cycle(s0, ints, *self, log_start, bus.accesses()));
            return;
        }
        if self.at_instruction_boundary() {
            let ints = bus.check_interrupts(master);
            let ghost log0 = bus.accesses();
            let ghost w = *self;
            if self.handle_interrupts(ints, bus, master) {
                let ghost x = *self;
                self.flush_queue();
                assert(*self == flushed(x));
                proof {
                    let noted = I8088 { nmi_prev: ints.nmi, nmi_pending: false, ..w };
                    let v: u8 = if w.nmi_pending || (ints.nmi && !w.nmi_prev) {
                        2u8
                    } else {
                        ints.irq_vector
                    };
                    assert(interrupted(noted, x));
                    assert(took_interrupt(noted, v, *self, log0, bus.accesses()));
                }
                assert(boundary_cycle(s0, ints, *self, log_start, bus.accesses()));
                return;
            }
            let ghost a = *self;
            self.tick_eu(bus, master);
            let ghost m = *self;
            let ghost log_m = bus.accesses();
            self.tick_biu(bus, master);
            assert(eu_step(a, m, log0, log_m) && biu_step(m, *self, log_m, bus.accesses()));
            assert(units_step(a, *self, log0, bus.accesses()));
            assert(boundary_cycle(s0, ints, *self, log_start, bus.accesses()));
            return;
        }
        let ghost a = *self;
        let ghost log_a = bus.accesses();
        self.tick_eu(bus, master);
        let ghost m = *self;
        let ghost log_m = bus.accesses();
        self.tick_biu(bus, master);
        assert(eu_step(a, m, log_a, log_m) && biu_step(m, *self, log_m, bus.accesses()));
    }

    /// One T-state as a bus master, then whether an instruction retired on
    /// it.
    pub fn tick_with_bus<B: Bus<Address = u32, Data = u8> + ?Sized>(
        &mut self,
        bus: &mut B,
        master: BusMaster,
    ) -> (retired: bool)
        requires
            old(self).wf(),
            old(self).loader_ready(),
            old(self).clock < u64::MAX,
            (!old(self).pending_flush && !old(self).halted && old(self).queue_len > 0)
                ==> old(self).instr_len < MAX_INSTRUCTION,
        ensures
            final(self).wf(),
            final(self).loader_ready(),
            retired == final(self).retired,
            final(self).clock == old(self).clock + 1,
            old(self).pending_flush ==> *final(self) == flushed(
                I8088 { pending_flush: false, retired: true, ..tstate_start(*old(self)) },
            ),
            old(self).pending_flush ==> final(bus).accesses() == old(bus).accesses(),
            (!old(self).pending_flush && old(self).halted) ==> exists|ints: InterruptState|
                #[trigger] halted_cycle(
                    *old(self),
                    ints,
                    *final(self),
                    old(bus).accesses(),
                    final(bus).accesses(),
                ),
            (!old(self).pending_flush && !old(self).halted && old(self).instr_len == 0)
                ==> exists|ints: InterruptState|
                #[trigger] boundary_cycle(
                    *old(self),
                    ints,
                    *final(self),
                    old(bus).accesses(),
                    final(bus).accesses(),
                ),
            (!old(self).pending_flush && !old(self).halted && old(self).instr_len != 0)
                ==> units_step(
                tstate_start(*old(self)),
                *final(self),
                old(bus).accesses(),
                final(bus).accesses(),
            ),
    {
        self.execute_cycle(bus, master);
        self.retired
    }

    /// Put the CPU in its reset state: CS:IP = FFFF:0000, every other
    /// register zero, FLAGS normalized, the queue flushed, and no prefix,
    /// pending interrupt or halt. The first byte at FFFF0 is read, as the
    /// part's first fetch does.
    pub fn reset<B: Bus<Address = u32, Data = u8> + ?Sized>(&mut self, bus: &mut B, master: BusMaster)
        ensures
            *final(self) == (I8088 {
                ax: 0,
                bx: 0,
                cx: 0,
                dx: 0,
                si: 0,
                di: 0,
                bp: 0,
                sp: 0,
                cs: 0xFFFF,
                ds: 0,
                es: 0,
                ss: 0,
                ip: 0,
                flags: flags::normal(0),
                halted: false,
                opcode_at: 0,
                retired: false,
                pending_flush: false,
                queue_len: 0,
                prefetch_ip: 0,
                biu: Biu::Idle,
                instr_len: 0,
                instr_pos: 0,
                stage: Stage::Opcode,
                queue_status: None,
                segment_override: None,
                rep_prefix: None,
                nmi_pending: false,
                nmi_prev: false,
                irq_line: false,
                ..*old(self)
            }),
            final(self).wf(),
            final(self).loader_ready(),
            exists|b: u8| final(bus).accesses() == old(bus).accesses().push(BusAccess::Read(0xFFFF0, b)),
    {
        self.ax = 0;
        self.bx = 0;
        self.cx = 0;
        self.dx = 0;
        self.si = 0;
        self.di = 0;
        self.bp = 0;
        self.sp = 0;
        self.cs = 0xFFFF;
        self.ds = 0;
        self.es = 0;
        self.ss = 0;
        self.ip = 0;
        self.flags = flags::normalize(0);
        self.halted = false;
        self.opcode_at = 0;
        self.retired = false;
        self.pending_flush = false;
        self.queue_len = 0;
        self.prefetch_ip = self.ip;
        self.biu = Biu::Idle;
        self.instr_len = 0;
        self.instr_pos = 0;
        self.stage = Stage::Opcode;
        self.queue_status = None;
        self.segment_override = None;
        self.rep_prefix = None;
        self.nmi_pending = false;
        self.nmi_prev = false;
        self.irq_line = false;
        let _first = bus.read(master, 0xFFFF0);
    }
}

/// An instruction reaches past its opcode, and one with a ModR/M byte past
/// that too.
pub proof fn lemma_full_len_bound(s: I8088)
    ensures
        s.full_len() >= s.opcode_at + 1,
        format_spec(s.op_byte()).modrm ==> s.full_len() >= s.opcode_at + 2,
{
    format::law_far_pointer_only_on_far_transfers(s.op_byte(), Some(s.after_op()));
    format::law_far_pointer_only_on_far_transfers(s.op_byte(), None);
}

/// The first `n` bytes of a four-byte array, as a slice.
fn slice_prefix(a: &[u8; 4], n: usize) -> (r: &[u8])
    requires
        n <= 4,
    ensures
        r@ == a@.take(n as int),
{
    let s: &[u8] = vstd::array::array_as_slice(a);
    proof {
        vstd::array::axiom_spec_array_as_slice(a);
    }
    vstd::slice::slice_subrange(s, 0, n)
}

} // verus!
