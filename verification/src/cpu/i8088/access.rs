//! What an instruction does to its ModR/M operand, and how wide.
//!
//! `format` says how many bytes an instruction *is*. This says what it does
//! to the operand those bytes address: reads it, writes it, both, or neither,
//! and whether that is a byte, a word, or the four bytes of a far pointer.
//! An operand read is a bus cycle that has to happen before the instruction
//! computes anything, and an operand write one that has to happen after, so a
//! per-cycle core needs to know both ahead of running the instruction.

use vstd::prelude::*;
use super::format::format_spec;

verus! {

/// How wide an operand access is.
#[derive(Copy, Clone, Debug, PartialEq, Eq, Structural)]
pub enum Width {
    /// One byte: one bus cycle.
    Byte,
    /// Two bytes, low then high: two bus cycles on the byte-wide bus.
    Word,
    /// Four bytes: a far pointer in memory, offset then segment.
    FarPointer,
}

/// The bus cycles an access of a width costs.
pub open spec fn width_bytes(w: Width) -> u8 {
    match w {
        Width::Byte => 1,
        Width::Word => 2,
        Width::FarPointer => 4,
    }
}

impl Width {
    /// How many bus cycles an access of this width costs.
    pub fn bytes(self) -> (r: u8)
        ensures
            r == width_bytes(self),
    {
        match self {
            Width::Byte => 1,
            Width::Word => 2,
            Width::FarPointer => 4,
        }
    }
}

/// What an instruction does to the operand its ModR/M byte addresses.
#[derive(Copy, Clone, Debug, PartialEq, Eq, Structural)]
pub struct Access {
    pub reads: bool,
    pub writes: bool,
    pub width: Width,
}

/// An access, by its three parts.
pub open spec fn acc(reads: bool, writes: bool, width: Width) -> Access {
    Access { reads, writes, width }
}

impl Access {
    /// An access that reads, writes, or both, at a width.
    pub fn new(reads: bool, writes: bool, width: Width) -> (r: Self)
        ensures
            r == acc(reads, writes, width),
    {
        Access { reads, writes, width }
    }
}

/// How many words an instruction takes off the stack before it runs, and how
/// many it puts back after.
#[derive(Copy, Clone, Debug, Default, PartialEq, Eq, Structural)]
pub struct StackAccess {
    /// Words read from the stack before the instruction runs.
    pub pops: u8,
    /// Words written to the stack after it has run.
    pub pushes: u8,
}

/// A stack use, by its pops and pushes.
pub open spec fn stk(pops: u8, pushes: u8) -> StackAccess {
    StackAccess { pops, pushes }
}

/// The ModR/M `reg` field, which selects the operation inside a group opcode.
pub open spec fn reg_bits(modrm: u8) -> u8 {
    (modrm / 8) % 8
}

/// What `opcode` does to the stack. Conditional stack use (INTO, and the
/// divides and AAM when they fault) is not counted here.
pub open spec fn stack_of(opcode: u8, modrm: u8) -> StackAccess {
    if opcode == 0x06 || opcode == 0x0E || opcode == 0x16 || opcode == 0x1E {
        stk(0, 1)
    } else if opcode == 0x07 || opcode == 0x0F || opcode == 0x17 || opcode == 0x1F {
        stk(1, 0)
    } else if 0x50 <= opcode <= 0x57 {
        stk(0, 1)
    } else if 0x58 <= opcode <= 0x5F {
        stk(1, 0)
    } else if opcode == 0x8F {
        stk(1, 0)
    } else if opcode == 0x9A {
        stk(0, 2)
    } else if opcode == 0x9C {
        stk(0, 1)
    } else if opcode == 0x9D {
        stk(1, 0)
    } else if 0xC0 <= opcode <= 0xC3 {
        stk(1, 0)
    } else if 0xC8 <= opcode <= 0xCB {
        stk(2, 0)
    } else if opcode == 0xCC || opcode == 0xCD {
        stk(0, 3)
    } else if opcode == 0xCF {
        stk(3, 0)
    } else if opcode == 0xE8 {
        stk(0, 1)
    } else if opcode == 0xFF {
        let r = reg_bits(modrm);
        if r == 2 {
            stk(0, 1)
        } else if r == 3 {
            stk(0, 2)
        } else if r == 6 || r == 7 {
            stk(0, 1)
        } else {
            stk(0, 0)
        }
    } else {
        stk(0, 0)
    }
}

/// What `opcode` does to the stack: words popped before it runs and pushed
/// after.
pub fn stack_access(opcode: u8, modrm: u8) -> (r: StackAccess)
    ensures
        r == stack_of(opcode, modrm),
{
    let pushes = |n: u8| -> (s: StackAccess)
        ensures
            s == stk(0, n),
        { StackAccess { pops: 0, pushes: n } };
    let pops = |n: u8| -> (s: StackAccess)
        ensures
            s == stk(n, 0),
        { StackAccess { pops: n, pushes: 0 } };
    match opcode {
        0x06 | 0x0E | 0x16 | 0x1E => pushes(1),
        0x07 | 0x0F | 0x17 | 0x1F => pops(1),
        0x50..=0x57 => pushes(1),
        0x58..=0x5F => pops(1),
        0x8F => pops(1),
        0x9A => pushes(2),
        0x9C => pushes(1),
        0x9D => pops(1),
        0xC0..=0xC3 => pops(1),
        0xC8..=0xCB => pops(2),
        0xCC | 0xCD => pushes(3),
        0xCF => pops(3),
        0xE8 => pushes(1),
        0xFF => match (modrm / 8) % 8 {
            2 => pushes(1),
            3 => pushes(2),
            6 | 7 => pushes(1),
            _ => StackAccess { pops: 0, pushes: 0 },
        },
        _ => StackAccess { pops: 0, pushes: 0 },
    }
}

/// What one iteration of a string operation touches: `[DS:SI]` as source
/// (segment overridable), `[ES:DI]` as destination.
#[derive(Copy, Clone, Debug, PartialEq, Eq, Structural)]
pub struct StringAccess {
    /// `MOVS`, `CMPS` and `LODS` read `[DS:SI]`.
    pub reads_source: bool,
    /// `CMPS` and `SCAS` read `[ES:DI]`.
    pub reads_dest: bool,
    /// `MOVS` and `STOS` write `[ES:DI]`.
    pub writes_dest: bool,
    /// One byte or two, from the opcode's low bit.
    pub width: u8,
}

/// What `opcode`'s string operation touches, if it is one.
pub open spec fn string_of(opcode: u8) -> Option<StringAccess> {
    let width: u8 = if opcode % 2 == 0 { 1 } else { 2 };
    let s = |rs: bool, rd: bool, wd: bool|
        StringAccess { reads_source: rs, reads_dest: rd, writes_dest: wd, width };
    if opcode == 0xA4 || opcode == 0xA5 {
        Some(s(true, false, true))
    } else if opcode == 0xA6 || opcode == 0xA7 {
        Some(s(true, true, false))
    } else if opcode == 0xAA || opcode == 0xAB {
        Some(s(false, false, true))
    } else if opcode == 0xAC || opcode == 0xAD {
        Some(s(true, false, false))
    } else if opcode == 0xAE || opcode == 0xAF {
        Some(s(false, true, false))
    } else {
        None
    }
}

/// What `opcode`'s string operation touches, or `None` if it is not one.
pub fn string_access(opcode: u8) -> (r: Option<StringAccess>)
    ensures
        r == string_of(opcode),
{
    let width: u8 = if opcode % 2 == 0 {
        1
    } else {
        2
    };
    let (reads_source, reads_dest, writes_dest) = match opcode {
        0xA4 | 0xA5 => (true, false, true),
        0xA6 | 0xA7 => (true, true, false),
        0xAA | 0xAB => (false, false, true),
        0xAC | 0xAD => (true, false, false),
        0xAE | 0xAF => (false, true, false),
        _ => return None,
    };
    Some(StringAccess { reads_source, reads_dest, writes_dest, width })
}

/// What `opcode` does to an I/O port, and how wide, if it is `IN` or `OUT`.
pub open spec fn port_of_op(opcode: u8) -> Option<Access> {
    if opcode == 0xE4 || opcode == 0xEC {
        Some(acc(true, false, Width::Byte))
    } else if opcode == 0xE5 || opcode == 0xED {
        Some(acc(true, false, Width::Word))
    } else if opcode == 0xE6 || opcode == 0xEE {
        Some(acc(false, true, Width::Byte))
    } else if opcode == 0xE7 || opcode == 0xEF {
        Some(acc(false, true, Width::Word))
    } else {
        None
    }
}

/// What `opcode` does to an I/O port: `IN` reads, `OUT` writes, a byte or
/// a word. The port itself comes from an immediate or DX.
pub fn port_access(opcode: u8) -> (r: Option<Access>)
    ensures
        r == port_of_op(opcode),
{
    match opcode {
        0xE4 | 0xEC => Some(Access::new(true, false, Width::Byte)),
        0xE5 | 0xED => Some(Access::new(true, false, Width::Word)),
        0xE6 | 0xEE => Some(Access::new(false, true, Width::Byte)),
        0xE7 | 0xEF => Some(Access::new(false, true, Width::Word)),
        _ => None,
    }
}

/// Clocks the effective-address microcode spends after the displacement.
pub open spec fn post_disp(modrm: u8) -> u8 {
    let m = modrm / 64;
    if m == 3 {
        0
    } else if m == 0 {
        if modrm % 8 == 6 { 1 } else { 0 }
    } else if m == 1 {
        3
    } else {
        2
    }
}

/// Clocks the effective-address microcode spends **after** the displacement
/// has been read. An eight-bit displacement costs one more to finish than a
/// sixteen-bit one: the byte path takes an extra jump.
pub fn ea_post_disp_cycles(modrm: u8) -> (r: u8)
    ensures
        r == post_disp(modrm),
{
    match modrm / 64 {
        3 => 0,
        0 => if modrm % 8 == 6 {
            1
        } else {
            0
        },
        1 => 3,
        _ => 2,
    }
}

/// The first half of the address calculation: the jump into the routine plus
/// the arithmetic on the register components, for any memory mode.
pub open spec fn pre_disp(modrm: u8) -> u8 {
    let m = modrm / 64;
    let rm = modrm % 8;
    if m == 3 {
        0
    } else if m == 0 && rm == 6 {
        1
    } else if rm == 0 || rm == 3 {
        5
    } else if rm == 1 || rm == 2 {
        6
    } else {
        3
    }
}

/// The first half of the address calculation: the jump into the address
/// routine plus the arithmetic on the register components. Spent for every
/// memory mode, displacement or not; a register operand costs nothing.
pub fn ea_pre_disp_cycles(modrm: u8) -> (r: u8)
    ensures
        r == pre_disp(modrm),
{
    let pre: u8 = match modrm / 64 {
        3 => return 0,
        0 if modrm % 8 == 6 => 0,
        _ => match modrm % 8 {
            0 | 3 => 4,
            1 | 2 => 5,
            _ => 2,
        },
    };
    1 + pre
}

/// The ModR/M `reg` field.
pub fn reg_of(modrm: u8) -> (r: u8)
    ensures
        r == reg_bits(modrm),
{
    (modrm / 8) % 8
}

/// Whether the operand read belongs to the instruction's own routine rather
/// than to the phase in front of it. XLAT is the only such instruction.
pub fn reads_from_its_routine(opcode: u8) -> (r: bool)
    ensures
        r == (opcode == 0xD7),
{
    opcode == 0xD7
}

/// What `opcode` does to the operand `modrm` addresses.
pub open spec fn access_of(opcode: u8, modrm: u8) -> Access {
    let none = acc(false, false, Width::Byte);
    let rb = acc(true, false, Width::Byte);
    let rw = acc(true, false, Width::Word);
    let wb = acc(false, true, Width::Byte);
    let ww = acc(false, true, Width::Word);
    let xb = acc(true, true, Width::Byte);
    let xw = acc(true, true, Width::Word);
    let far = acc(true, false, Width::FarPointer);
    let r = reg_bits(modrm);
    if opcode <= 0x3F {
        let is_cmp = (opcode / 8) % 8 == 7;
        let form = opcode % 8;
        if form == 0 {
            acc(true, !is_cmp, Width::Byte)
        } else if form == 1 {
            acc(true, !is_cmp, Width::Word)
        } else if form == 2 {
            rb
        } else if form == 3 {
            rw
        } else {
            none
        }
    } else if opcode == 0x80 || opcode == 0x82 {
        acc(true, r != 7, Width::Byte)
    } else if opcode == 0x81 || opcode == 0x83 {
        acc(true, r != 7, Width::Word)
    } else if opcode == 0x84 || opcode == 0x8A || opcode == 0xA0 || opcode == 0xD7 {
        rb
    } else if opcode == 0x85 || opcode == 0x8B || opcode == 0x8E || opcode == 0xA1 {
        rw
    } else if opcode == 0x86 || opcode == 0xD0 || opcode == 0xD2 || opcode == 0xFE {
        xb
    } else if opcode == 0x87 || opcode == 0xD1 || opcode == 0xD3 {
        xw
    } else if opcode == 0x88 || opcode == 0xA2 || opcode == 0xC6 {
        wb
    } else if opcode == 0x89 || opcode == 0x8C || opcode == 0x8F || opcode == 0xA3 || opcode
        == 0xC7 {
        ww
    } else if opcode == 0xC4 || opcode == 0xC5 {
        far
    } else if 0xD8 <= opcode <= 0xDF {
        rw
    } else if opcode == 0xF6 {
        if r == 2 || r == 3 { xb } else { rb }
    } else if opcode == 0xF7 {
        if r == 2 || r == 3 { xw } else { rw }
    } else if opcode == 0xFF {
        if r == 0 || r == 1 {
            xw
        } else if r == 3 || r == 5 {
            far
        } else {
            rw
        }
    } else {
        none
    }
}

/// What `opcode` does to the operand `modrm` addresses. `modrm` is only
/// consulted for the group opcodes, whose `reg` field picks the operation.
pub fn operand_access(opcode: u8, modrm: u8) -> (r: Access)
    ensures
        r == access_of(opcode, modrm),
{
    let none = Access::new(false, false, Width::Byte);
    let rb = Access::new(true, false, Width::Byte);
    let rw = Access::new(true, false, Width::Word);
    let wb = Access::new(false, true, Width::Byte);
    let ww = Access::new(false, true, Width::Word);
    let xb = Access::new(true, true, Width::Byte);
    let xw = Access::new(true, true, Width::Word);
    let far = Access::new(true, false, Width::FarPointer);
    match opcode {
        0x00..=0x3F => {
            let is_cmp = (opcode / 8) % 8 == 7;
            match opcode % 8 {
                0 => Access::new(true, !is_cmp, Width::Byte),
                1 => Access::new(true, !is_cmp, Width::Word),
                2 => rb,
                3 => rw,
                _ => none,
            }
        },
        0x80 | 0x82 => Access::new(true, reg_of(modrm) != 7, Width::Byte),
        0x81 | 0x83 => Access::new(true, reg_of(modrm) != 7, Width::Word),
        0x84 => rb,
        0x85 => rw,
        0x86 => xb,
        0x87 => xw,
        0x88 => wb,
        0x89 => ww,
        0x8A => rb,
        0x8B => rw,
        0x8C => ww,
        0x8E => rw,
        0x8D => none,
        0x8F => ww,
        0xA0 => rb,
        0xA1 => rw,
        0xA2 => wb,
        0xA3 => ww,
        0xD7 => rb,
        0xC4 | 0xC5 => far,
        0xC6 => wb,
        0xC7 => ww,
        0xD0 | 0xD2 => xb,
        0xD1 | 0xD3 => xw,
        0xD8..=0xDF => rw,
        0xF6 => match reg_of(modrm) {
            2 | 3 => xb,
            _ => rb,
        },
        0xF7 => match reg_of(modrm) {
            2 | 3 => xw,
            _ => rw,
        },
        0xFE => xb,
        0xFF => match reg_of(modrm) {
            0 | 1 => xw,
            3 | 5 => far,
            _ => rw,
        },
        _ => none,
    }
}

/// No instruction both pops and pushes: the counts the opcode fixes are one
/// or the other.
pub proof fn law_nothing_both_pops_and_pushes(opcode: u8, modrm: u8)
    ensures
        stack_of(opcode, modrm).pops == 0 || stack_of(opcode, modrm).pushes == 0,
{
}

/// LEA is the only opcode with a ModR/M byte whose operand is neither read
/// nor written: every other ModR/M instruction reaches the memory it
/// addresses.
pub proof fn law_lea_alone_leaves_its_operand_alone(opcode: u8, modrm: u8)
    ensures
        format_spec(opcode).modrm ==> (access_of(opcode, modrm).reads || access_of(
            opcode,
            modrm,
        ).writes <==> opcode != 0x8D),
{
}

/// The stores (`MOV r/m, reg`, `MOV r/m, sreg`, `MOV r/m, imm`, `POP r/m`)
/// write their operand without reading it first.
pub proof fn law_a_store_does_not_read_its_destination(opcode: u8, modrm: u8)
    requires
        opcode == 0x88 || opcode == 0x89 || opcode == 0x8C || opcode == 0xC6 || opcode == 0xC7
            || opcode == 0x8F,
    ensures
        !access_of(opcode, modrm).reads,
        access_of(opcode, modrm).writes,
{
}

/// The two halves of the address calculation: a register operand costs
/// nothing, the direct form costs a clock before and a clock after, and a
/// byte displacement costs one clock more to finish than a word one.
pub proof fn law_address_halves(modrm: u8)
    ensures
        modrm / 64 == 3 ==> pre_disp(modrm) == 0 && post_disp(modrm) == 0,
        modrm / 64 == 0 && modrm % 8 == 6 ==> pre_disp(modrm) == 1 && post_disp(modrm) == 1,
        modrm / 64 == 0 && modrm % 8 != 6 ==> post_disp(modrm) == 0,
        modrm / 64 == 1 ==> post_disp(modrm) == post_disp((modrm + 64) as u8) + 1,
{
}

} // verus!
