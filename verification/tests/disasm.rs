use lib::cpu::disasm::DisassembledInstruction;

fn instr(mnemonic: &'static str, operands: &str, target: Option<u16>) -> DisassembledInstruction {
    DisassembledInstruction {
        mnemonic,
        operands: operands.to_string(),
        byte_len: 3,
        bytes: [0; 6],
        target_addr: target,
    }
}

#[test]
fn text_pads_the_mnemonic() {
    assert_eq!(instr("LDA", "#$42", None).display_text(), "LDA   #$42");
    assert_eq!(instr("RTS", "", None).display_text(), "RTS");
    assert_eq!(instr("CMPXCHG", "A", None).display_text(), "CMPXCHGA");
}

#[test]
fn symbol_replaces_four_digit_address() {
    let i = instr("JMP", "$1234", Some(0x1234));
    let s = i.format_with_symbols(|a| if a == 0x1234 { Some("main") } else { None });
    assert_eq!(s, "JMP   main");
}

#[test]
fn symbol_replaces_two_digit_zero_page_address() {
    let i = instr("LDA", "$42,X", Some(0x0042));
    let s = i.format_with_symbols(|_| Some("counter"));
    assert_eq!(s, "LDA   counter,X");
}

#[test]
fn unresolved_target_keeps_the_hex() {
    let i = instr("JSR", "$C000", Some(0xC000));
    assert_eq!(i.format_with_symbols(|_| None), "JSR   $C000");
    let j = instr("NOP", "", None);
    assert_eq!(j.format_with_symbols(|_| Some("x")), "NOP");
}

#[test]
fn four_digit_form_wins_over_two_digit_form() {
    let i = instr("LD", "($0012)", Some(0x0012));
    assert_eq!(i.format_with_symbols(|_| Some("ptr")), "LD    (ptr)");
}
