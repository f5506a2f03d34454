use disasmap::disasm::disassemble;

#[test]
fn single_byte_instructions_decode_one_per_byte() {
    let code = vec![0x90u8; 4];
    let r = disassemble(&code, 0x1000);
    assert_eq!(r.instructions.len(), 4);
    assert_eq!(r.undecoded_tail, 0);
    for (k, instr) in r.instructions.iter().enumerate() {
        assert_eq!(instr.runtime_ip, 0x1000 + k as u64);
        assert_eq!(instr.byte_length, 1);
        assert_eq!(instr.mnemonic_text, "nop");
    }
}

#[test]
fn multi_byte_instruction_reports_full_length() {
    // mov eax, 0x2010 is five bytes long.
    let code = vec![0xb8u8, 0x10, 0x20, 0x00, 0x00];
    let r = disassemble(&code, 0x400000);
    assert_eq!(r.instructions.len(), 1);
    assert_eq!(r.instructions[0].byte_length, 5);
    assert_eq!(r.instructions[0].runtime_ip, 0x400000);
    assert_eq!(r.undecoded_tail, 0);
}

#[test]
fn invalid_encoding_is_marked_and_alignment_kept() {
    // 0x06 is not a valid 64-bit instruction; the decoder reports it as an
    // explicit marker covering the bytes it read (the opcode and one more),
    // and decoding goes on at the next position.
    let code = vec![0x06u8, 0x90, 0x90];
    let r = disassemble(&code, 0x2000);
    assert_eq!(r.instructions.len(), 2);
    assert_eq!(r.instructions[0].mnemonic_text, "(bad)");
    assert_eq!(r.instructions[0].byte_length, 2);
    assert_eq!(r.instructions[1].mnemonic_text, "nop");
    assert_eq!(r.instructions[1].runtime_ip, 0x2002);
    assert_eq!(r.undecoded_tail, 0);
}

#[test]
fn truncated_trailing_instruction_is_reported_not_padded() {
    // mov eax, imm32 needs five bytes; only three are present, so nothing
    // decodes and the remainder is reported explicitly.
    let code = vec![0xb8u8, 0x01, 0x02];
    let r = disassemble(&code, 0x3000);
    assert_eq!(r.instructions.len(), 0);
    assert_eq!(r.undecoded_tail, 3);
}

#[test]
fn truncation_after_valid_instructions_keeps_them() {
    let code = vec![0x90u8, 0x90, 0xb8, 0x01, 0x02];
    let r = disassemble(&code, 0x3000);
    assert_eq!(r.instructions.len(), 2);
    assert_eq!(r.undecoded_tail, 3);
}

#[test]
fn byte_lengths_and_remainder_add_up_to_slice_length() {
    let cases: Vec<Vec<u8>> = vec![
        vec![],
        vec![0x90],
        vec![0x90, 0xc3],
        vec![0xb8, 0x10, 0x20, 0x00, 0x00, 0x90],
        vec![0x90, 0xb8, 0x01],
        vec![0x06, 0x06, 0x06],
    ];
    for code in cases {
        let r = disassemble(&code, 0x1000);
        let total: usize = r.instructions.iter().map(|i| i.byte_length).sum();
        assert_eq!(total + r.undecoded_tail, code.len());
    }
}

#[test]
fn decoding_twice_yields_identical_sequences() {
    let code = vec![0x90u8, 0xb8, 0x10, 0x20, 0x00, 0x00, 0x06, 0xc3];
    let first = disassemble(&code, 0x7ff0_0000);
    let second = disassemble(&code, 0x7ff0_0000);
    assert_eq!(first.instructions.len(), second.instructions.len());
    assert_eq!(first.undecoded_tail, second.undecoded_tail);
    for (a, b) in first.instructions.iter().zip(second.instructions.iter()) {
        assert_eq!(a.runtime_ip, b.runtime_ip);
        assert_eq!(a.byte_length, b.byte_length);
        assert_eq!(a.mnemonic_text, b.mnemonic_text);
    }
}

#[test]
fn reported_pointers_accumulate_consumed_bytes() {
    let code = vec![0xb8u8, 0x10, 0x20, 0x00, 0x00, 0x90, 0xc3];
    let r = disassemble(&code, 0x5000);
    assert_eq!(r.instructions[0].runtime_ip, 0x5000);
    assert_eq!(r.instructions[1].runtime_ip, 0x5005);
    assert_eq!(r.instructions[2].runtime_ip, 0x5006);
}
