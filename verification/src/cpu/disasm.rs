//! What a disassembler gives back for one instruction, and its text.

use vstd::prelude::*;

verus! {

/// One disassembled instruction.
#[derive(Debug, Clone, PartialEq)]
pub struct DisassembledInstruction {
    /// The mnemonic, such as "LDA" or "MOV".
    pub mnemonic: &'static str,
    /// The operands as text, such as "#$42" or "$1234,X".
    pub operands: String,
    /// The instruction's length in bytes, opcode included.
    pub byte_len: u8,
    /// The instruction's bytes; the first `byte_len` are meaningful.
    pub bytes: [u8; 6],
    /// The absolute target of a branch, jump or call.
    pub target_addr: Option<u16>,
}

/// A CPU's disassembler: one instruction from the bytes at `addr`.
///
/// Six bytes are enough for every supported CPU. Given fewer than an
/// instruction needs, a disassembler answers with the mnemonic "???" and a
/// length of 1.
pub trait Disassemble {
    /// Disassemble the instruction whose first byte `bytes[0]` is at `addr`
    /// (the address matters for relative branch targets).
    fn disassemble(addr: u16, bytes: &[u8]) -> DisassembledInstruction;
}

/// An upper-case hexadecimal digit.
pub open spec fn hex_char(d: int) -> char {
    if d < 10 {
        ('0' as int + d) as char
    } else {
        ('A' as int + d - 10) as char
    }
}

/// The last `n` hexadecimal digits of `v`, most significant first.
pub open spec fn hex_digits(v: int, n: nat) -> Seq<char>
    decreases n,
{
    if n == 0 {
        Seq::empty()
    } else {
        hex_digits(v / 16, (n - 1) as nat).push(hex_char(v % 16))
    }
}

/// An address as an operand: `$` and `n` hexadecimal digits.
pub open spec fn hex_operand(v: int, n: nat) -> Seq<char> {
    seq!['$'] + hex_digits(v, n)
}

/// `s` with every match of `from` replaced by `to`, matches taken left to
/// right without overlapping.
pub open spec fn replaced(s: Seq<char>, from: Seq<char>, to: Seq<char>) -> Seq<char>
    decreases s.len(),
{
    if from.len() == 0 || s.len() < from.len() {
        s
    } else if s.subrange(0, from.len() as int) == from {
        to + replaced(s.skip(from.len() as int), from, to)
    } else {
        seq![s[0]] + replaced(s.skip(1), from, to)
    }
}

/// `m` padded with spaces on the right to `w` characters.
pub open spec fn padded(m: Seq<char>, w: nat) -> Seq<char> {
    if m.len() >= w {
        m
    } else {
        m + Seq::new((w - m.len()) as nat, |i: int| ' ')
    }
}

/// `format!` with an upper-case hexadecimal field `digits` wide,
/// zero-padded, after a `$`. Claimed: the text is `$` and the value's last
/// `digits` digits, which is all of them while the value fits.
#[verifier::external_body]
fn hex_text(v: u16, digits: usize) -> (r: String)
    requires
        digits == 2 && v <= 0xFF || digits == 4,
    ensures
        r@ == hex_operand(v as int, digits as nat),
{
    format!("${:0width$X}", v, width = digits)
}

/// `str::replace`. Claimed: every match of the nonempty `from`, taken
/// left to right without overlap, replaced by `to`.
#[verifier::external_body]
fn replace_text(s: &str, from: &str, to: &str) -> (r: String)
    requires
        from@.len() > 0,
    ensures
        r@ == replaced(s@, from@, to@),
{
    s.replace(from, to)
}

/// `format!` with the mnemonic left-aligned in a field six characters wide,
/// then the operands. Claimed: the mnemonic, spaces up to six characters,
/// then the operands.
#[verifier::external_body]
fn padded_line(mnemonic: &str, operands: &str) -> (r: String)
    ensures
        r@ == padded(mnemonic@, 6) + operands@,
{
    format!("{:<6}{}", mnemonic, operands)
}

impl DisassembledInstruction {
    /// The instruction as text: the mnemonic alone, or the mnemonic in a
    /// six-character column followed by the operands.
    pub open spec fn text(&self) -> Seq<char> {
        if self.operands@.len() == 0 {
            self.mnemonic@
        } else {
            padded(self.mnemonic@, 6) + self.operands@
        }
    }

    /// The text with `name` in place of the target address: its four-digit
    /// form, or, where that does not occur and the target fits a byte, its
    /// two-digit form.
    pub open spec fn text_with_symbol(&self, target: u16, name: Seq<char>) -> Seq<char> {
        let long = replaced(self.operands@, hex_operand(target as int, 4), name);
        let shown = if long == self.operands@ && target <= 0xFF {
            replaced(self.operands@, hex_operand(target as int, 2), name)
        } else {
            long
        };
        if self.operands@.len() == 0 {
            self.mnemonic@
        } else {
            padded(self.mnemonic@, 6) + shown
        }
    }

    /// The instruction as text.
    pub fn display_text(&self) -> (r: String)
        ensures
            r@ == self.text(),
    {
        if self.operands.as_str().is_empty() {
            self.mnemonic.to_owned()
        } else {
            padded_line(self.mnemonic, self.operands.as_str())
        }
    }

    /// The instruction as text, with the target address replaced by the
    /// name `resolve` gives it, where it gives one.
    pub fn format_with_symbols<'a>(&self, resolve: impl Fn(u16) -> Option<&'a str>) -> (r: String)
        requires
            forall|t: u16| resolve.requires((t,)),
        ensures
            match self.target_addr {
                None => r@ == self.text(),
                Some(t) => exists|found: Option<&'a str>|
                    #[trigger] resolve.ensures((t,), found) && r@ == match found {
                        None => self.text(),
                        Some(name) => self.text_with_symbol(t, name@),
                    },
            },
    {
        if let Some(target) = self.target_addr {
            let found = resolve(target);
            if let Some(name) = found {
                let hex4 = hex_text(target, 4);
                proof {
                    reveal_with_fuel(hex_digits, 5);
                }
                let substituted = replace_text(self.operands.as_str(), hex4.as_str(), name);
                let substituted = if substituted == self.operands && target <= 0xFF {
                    let hex2 = hex_text(target, 2);
                    proof {
                        reveal_with_fuel(hex_digits, 3);
                    }
                    replace_text(self.operands.as_str(), hex2.as_str(), name)
                } else {
                    substituted
                };
                if self.operands.as_str().is_empty() {
                    return self.mnemonic.to_owned();
                }
                return padded_line(self.mnemonic, substituted.as_str());
            }
            return self.display_text();
        }
        self.display_text()
    }
}

} // verus!
