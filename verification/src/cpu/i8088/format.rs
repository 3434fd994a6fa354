//! How long an 8088 instruction is, decided one byte at a time.
//!
//! After any prefixes the instruction stream is
//! `opcode [ModR/M] [displacement 0/1/2] [immediate 0/1/2/4]`. Only the first
//! two lengths are fixed by the opcode; the displacement length comes from
//! the ModR/M byte, and two opcode groups take an immediate whose presence
//! depends on the ModR/M `reg` field.

use vstd::prelude::*;

verus! {

/// The immediate that follows an instruction's ModR/M and displacement.
#[derive(Copy, Clone, Debug, PartialEq, Eq, Structural)]
pub enum Imm {
    Zero,
    /// One byte: `imm8`, `rel8`, a port number, or an interrupt vector.
    Byte,
    /// Two bytes: `imm16`, `rel16`, or a direct memory offset.
    Word,
    /// Four bytes: a far pointer, offset first and then segment.
    FarPointer,
    /// One byte, but only when the ModR/M `reg` field is 0 or 1 (group 0xF6).
    ByteIfTest,
    /// Two bytes under the same rule (group 0xF7).
    WordIfTest,
}

/// The ModR/M `reg` field.
pub open spec fn reg_field(modrm: u8) -> u8 {
    (modrm / 8) % 8
}

/// How many immediate bytes `imm` stands for, given the ModR/M byte when
/// there is one (a missing one reads as zero).
pub open spec fn imm_len(imm: Imm, modrm: Option<u8>) -> u8 {
    match imm {
        Imm::Zero => 0,
        Imm::Byte => 1,
        Imm::Word => 2,
        Imm::FarPointer => 4,
        Imm::ByteIfTest => if reg_field(modrm.unwrap_or(0)) < 2 { 1 } else { 0 },
        Imm::WordIfTest => if reg_field(modrm.unwrap_or(0)) < 2 { 2 } else { 0 },
    }
}

impl Imm {
    /// How many bytes to fetch, given the ModR/M byte when there is one.
    pub fn len(self, modrm: Option<u8>) -> (r: u8)
        ensures
            r == imm_len(self, modrm),
    {
        match self {
            Imm::Zero => 0,
            Imm::Byte => 1,
            Imm::Word => 2,
            Imm::FarPointer => 4,
            Imm::ByteIfTest | Imm::WordIfTest => {
                let m = match modrm {
                    Some(b) => b,
                    None => 0,
                };
                let reg = (m / 8) % 8;
                if reg < 2 {
                    match self {
                        Imm::ByteIfTest => 1,
                        _ => 2,
                    }
                } else {
                    0
                }
            },
        }
    }
}

/// What follows an opcode byte.
#[derive(Copy, Clone, Debug, PartialEq, Eq, Structural)]
pub struct Format {
    /// Whether a ModR/M byte follows the opcode.
    pub modrm: bool,
    /// The immediate after any ModR/M and displacement.
    pub imm: Imm,
}

/// No ModR/M, no immediate: the opcode is the whole instruction.
pub open spec fn bare() -> Format {
    Format { modrm: false, imm: Imm::Zero }
}

/// The displacement length a ModR/M byte encodes: none for mod=00 except the
/// direct-address form (rm=110), which takes two; a byte for mod=01; a word
/// for mod=10; nothing for a register operand.
pub open spec fn disp_len(modrm: u8) -> u8 {
    let mod_bits = modrm / 64;
    if mod_bits == 0 {
        if modrm % 8 == 6 { 2 } else { 0 }
    } else if mod_bits == 1 {
        1
    } else if mod_bits == 2 {
        2
    } else {
        0
    }
}

/// The displacement length encoded by a ModR/M byte.
pub fn displacement_len(modrm: u8) -> (r: u8)
    ensures
        r == disp_len(modrm),
{
    let mod_bits = modrm / 64;
    let rm = modrm % 8;
    match mod_bits {
        0 => {
            if rm == 6 {
                2
            } else {
                0
            }
        },
        1 => 1,
        2 => 2,
        _ => 0,
    }
}

/// The opcode table: what follows each opcode in the instruction stream.
pub open spec fn format_spec(opcode: u8) -> Format {
    let f = |m: bool, i: Imm| Format { modrm: m, imm: i };
    if opcode <= 0x3F {
        let low = opcode % 8;
        if low <= 3 {
            f(true, Imm::Zero)
        } else if low == 4 {
            f(false, Imm::Byte)
        } else if low == 5 {
            f(false, Imm::Word)
        } else {
            f(false, Imm::Zero)
        }
    } else if opcode <= 0x5F {
        f(false, Imm::Zero)
    } else if opcode <= 0x7F {
        f(false, Imm::Byte)
    } else if opcode == 0x80 || opcode == 0x82 || opcode == 0x83 {
        f(true, Imm::Byte)
    } else if opcode == 0x81 {
        f(true, Imm::Word)
    } else if opcode <= 0x8F {
        f(true, Imm::Zero)
    } else if opcode <= 0x99 {
        f(false, Imm::Zero)
    } else if opcode == 0x9A {
        f(false, Imm::FarPointer)
    } else if opcode <= 0x9F {
        f(false, Imm::Zero)
    } else if opcode <= 0xA3 {
        f(false, Imm::Word)
    } else if opcode <= 0xA7 {
        f(false, Imm::Zero)
    } else if opcode == 0xA8 {
        f(false, Imm::Byte)
    } else if opcode == 0xA9 {
        f(false, Imm::Word)
    } else if opcode <= 0xAF {
        f(false, Imm::Zero)
    } else if opcode <= 0xB7 {
        f(false, Imm::Byte)
    } else if opcode <= 0xBF {
        f(false, Imm::Word)
    } else if opcode == 0xC0 || opcode == 0xC2 || opcode == 0xC8 || opcode == 0xCA {
        f(false, Imm::Word)
    } else if opcode == 0xC1 || opcode == 0xC3 || opcode == 0xC9 || opcode == 0xCB {
        f(false, Imm::Zero)
    } else if opcode == 0xC4 || opcode == 0xC5 {
        f(true, Imm::Zero)
    } else if opcode == 0xC6 {
        f(true, Imm::Byte)
    } else if opcode == 0xC7 {
        f(true, Imm::Word)
    } else if opcode == 0xCD {
        f(false, Imm::Byte)
    } else if opcode <= 0xCF {
        f(false, Imm::Zero)
    } else if opcode <= 0xD3 {
        f(true, Imm::Zero)
    } else if opcode <= 0xD5 {
        f(false, Imm::Byte)
    } else if opcode <= 0xD7 {
        f(false, Imm::Zero)
    } else if opcode <= 0xDF {
        f(true, Imm::Zero)
    } else if opcode <= 0xE7 {
        f(false, Imm::Byte)
    } else if opcode <= 0xE9 {
        f(false, Imm::Word)
    } else if opcode == 0xEA {
        f(false, Imm::FarPointer)
    } else if opcode == 0xEB {
        f(false, Imm::Byte)
    } else if opcode <= 0xF5 {
        f(false, Imm::Zero)
    } else if opcode == 0xF6 {
        f(true, Imm::ByteIfTest)
    } else if opcode == 0xF7 {
        f(true, Imm::WordIfTest)
    } else if opcode <= 0xFD {
        f(false, Imm::Zero)
    } else {
        f(true, Imm::Zero)
    }
}

/// What follows `opcode` in the instruction stream. Prefix bytes are not in
/// this table: the loader recognizes them separately.
pub fn format_of(opcode: u8) -> (r: Format)
    ensures
        r == format_spec(opcode),
{
    let bare = Format { modrm: false, imm: Imm::Zero };
    let imm8 = Format { modrm: false, imm: Imm::Byte };
    let imm16 = Format { modrm: false, imm: Imm::Word };
    let modrm = Format { modrm: true, imm: Imm::Zero };
    let modrm_imm8 = Format { modrm: true, imm: Imm::Byte };
    let modrm_imm16 = Format { modrm: true, imm: Imm::Word };
    match opcode {
        0x00..=0x3F => match opcode % 8 {
            0..=3 => modrm,
            4 => imm8,
            5 => imm16,
            _ => bare,
        },
        0x40..=0x5F => bare,
        0x60..=0x7F => imm8,
        0x80 => modrm_imm8,
        0x81 => modrm_imm16,
        0x82 => modrm_imm8,
        0x83 => modrm_imm8,
        0x84..=0x8F => modrm,
        0x90..=0x99 => bare,
        0x9A => Format { modrm: false, imm: Imm::FarPointer },
        0x9B..=0x9F => bare,
        0xA0..=0xA3 => imm16,
        0xA4..=0xA7 => bare,
        0xA8 => imm8,
        0xA9 => imm16,
        0xAA..=0xAF => bare,
        0xB0..=0xB7 => imm8,
        0xB8..=0xBF => imm16,
        0xC0 | 0xC2 | 0xC8 | 0xCA => imm16,
        0xC1 | 0xC3 | 0xC9 | 0xCB => bare,
        0xC4 | 0xC5 => modrm,
        0xC6 => modrm_imm8,
        0xC7 => modrm_imm16,
        0xCC => bare,
        0xCD => imm8,
        0xCE | 0xCF => bare,
        0xD0..=0xD3 => modrm,
        0xD4 | 0xD5 => imm8,
        0xD6 | 0xD7 => bare,
        0xD8..=0xDF => modrm,
        0xE0..=0xE3 => imm8,
        0xE4..=0xE7 => imm8,
        0xE8 | 0xE9 => imm16,
        0xEA => Format { modrm: false, imm: Imm::FarPointer },
        0xEB => imm8,
        0xEC..=0xEF => bare,
        0xF0..=0xF5 => bare,
        0xF6 => Format { modrm: true, imm: Imm::ByteIfTest },
        0xF7 => Format { modrm: true, imm: Imm::WordIfTest },
        0xF8..=0xFD => bare,
        0xFE | 0xFF => modrm,
    }
}

/// The number of bytes an instruction takes after its opcode, given the byte
/// that follows the opcode (its ModR/M byte when it has one).
pub open spec fn operand_len(opcode: u8, next: u8) -> int {
    let f = format_spec(opcode);
    if f.modrm {
        1 + disp_len(next) + imm_len(f.imm, Some(next))
    } else {
        imm_len(f.imm, None) as int
    }
}

/// Only the two far transfers carry a four-byte operand, and no opcode with a
/// ModR/M byte carries an immediate longer than a word.
pub proof fn law_far_pointer_only_on_far_transfers(opcode: u8, modrm: Option<u8>)
    ensures
        format_spec(opcode).imm == Imm::FarPointer <==> (opcode == 0x9A || opcode == 0xEA),
        format_spec(opcode).modrm ==> imm_len(format_spec(opcode).imm, modrm) <= 2,
        imm_len(format_spec(opcode).imm, modrm) <= 4,
{
}


/// The immediate group (0x80-0x83) takes a ModR/M byte, its displacement
/// and an immediate that is a word exactly when the width bit (bit 0) is
/// set and the sign-extend bit (bit 1) clear, as for 0x81; 0x80, 0x82 and
/// 0x83 carry one byte, 0x83 sign-extending it to a word. So 0x83 is one
/// byte shorter than 0x81 with the same ModR/M.
pub proof fn law_immediate_group_lengths(opcode: u8, modrm: u8)
    requires
        0x80 <= opcode <= 0x83,
    ensures
        format_spec(opcode).modrm,
        operand_len(opcode, modrm) == 1 + disp_len(modrm) + if opcode % 2 == 1 && (opcode / 2) % 2
            == 0 {
            2int
        } else {
            1
        },
        operand_len(0x83, modrm) + 1 == operand_len(0x81, modrm),
        operand_len(0x80, modrm) == operand_len(0x82, modrm),
        operand_len(0x82, modrm) == operand_len(0x83, modrm),
{
}

} // verus!
