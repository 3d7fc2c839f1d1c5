use x86_decoder::registers::{Register, RegisterBank, Segment, Width};

fn name(bank: RegisterBank, index: u8) -> String {
    Register { bank, index }.name()
}

#[test]
fn legacy_names() {
    let qword = ["rax", "rcx", "rdx", "rbx", "rsp", "rbp", "rsi", "rdi"];
    let dword = ["eax", "ecx", "edx", "ebx", "esp", "ebp", "esi", "edi"];
    let word = ["ax", "cx", "dx", "bx", "sp", "bp", "si", "di"];
    let low = ["al", "cl", "dl", "bl", "spl", "bpl", "sil", "dil"];
    for i in 0..8u8 {
        assert_eq!(name(RegisterBank::Qword, i), qword[i as usize]);
        assert_eq!(name(RegisterBank::Dword, i), dword[i as usize]);
        assert_eq!(name(RegisterBank::Word, i), word[i as usize]);
        assert_eq!(name(RegisterBank::ByteLow, i), low[i as usize]);
    }
}

#[test]
fn high_byte_names() {
    assert_eq!(name(RegisterBank::ByteHigh, 4), "ah");
    assert_eq!(name(RegisterBank::ByteHigh, 5), "ch");
    assert_eq!(name(RegisterBank::ByteHigh, 6), "dh");
    assert_eq!(name(RegisterBank::ByteHigh, 7), "bh");
}

#[test]
fn numbered_names() {
    for i in 8..16u8 {
        assert_eq!(name(RegisterBank::Qword, i), format!("r{}", i));
        assert_eq!(name(RegisterBank::Dword, i), format!("r{}d", i));
        assert_eq!(name(RegisterBank::Word, i), format!("r{}w", i));
        assert_eq!(name(RegisterBank::ByteLow, i), format!("r{}b", i));
    }
    for i in 0..16u8 {
        assert_eq!(name(RegisterBank::Control, i), format!("cr{}", i));
        assert_eq!(name(RegisterBank::Debug, i), format!("dr{}", i));
    }
}

#[test]
fn segment_and_instruction_pointer_names() {
    let segments = ["es", "cs", "ss", "ds", "fs", "gs"];
    for i in 0..6u8 {
        assert_eq!(name(RegisterBank::Segment, i), segments[i as usize]);
        assert_eq!(Segment::from_index(i).unwrap().name(), segments[i as usize]);
    }
    assert_eq!(Segment::from_index(6), None);
    assert_eq!(Segment::from_index(7), None);
    assert_eq!(name(RegisterBank::Segment, 6), "?");
    assert_eq!(name(RegisterBank::Rip, 0), "rip");
    assert_eq!(name(RegisterBank::Eip, 0), "eip");
}

#[test]
fn push_name_appends() {
    let mut out = String::from("mov ");
    Register { bank: RegisterBank::Dword, index: 9 }.push_name(&mut out);
    assert_eq!(out, "mov r9d");
    Register { bank: RegisterBank::ByteHigh, index: 4 }.push_name(&mut out);
    assert_eq!(out, "mov r9dah");
}

#[test]
fn general_registers_by_width() {
    for i in 0..16u8 {
        for rex in [false, true] {
            assert_eq!(Register::general(i, Width::Qword, rex), Register { bank: RegisterBank::Qword, index: i });
            assert_eq!(Register::general(i, Width::Dword, rex), Register { bank: RegisterBank::Dword, index: i });
            assert_eq!(Register::general(i, Width::Word, rex), Register { bank: RegisterBank::Word, index: i });
        }
        assert_eq!(Register::general(i, Width::Byte, true), Register { bank: RegisterBank::ByteLow, index: i });
        let expected = if (4..8).contains(&i) { RegisterBank::ByteHigh } else { RegisterBank::ByteLow };
        assert_eq!(Register::general(i, Width::Byte, false), Register { bank: expected, index: i });
    }
}

#[test]
fn widths() {
    assert_eq!(Width::Byte.bytes(), 1);
    assert_eq!(Width::Word.bytes(), 2);
    assert_eq!(Width::Dword.bytes(), 4);
    assert_eq!(Width::Qword.bytes(), 8);
    assert_eq!(Register { bank: RegisterBank::ByteLow, index: 0 }.width(), Some(Width::Byte));
    assert_eq!(Register { bank: RegisterBank::ByteHigh, index: 4 }.width(), Some(Width::Byte));
    assert_eq!(Register { bank: RegisterBank::Word, index: 0 }.width(), Some(Width::Word));
    assert_eq!(Register { bank: RegisterBank::Segment, index: 0 }.width(), Some(Width::Word));
    assert_eq!(Register { bank: RegisterBank::Dword, index: 0 }.width(), Some(Width::Dword));
    assert_eq!(Register { bank: RegisterBank::Eip, index: 0 }.width(), Some(Width::Dword));
    assert_eq!(Register { bank: RegisterBank::Qword, index: 0 }.width(), Some(Width::Qword));
    assert_eq!(Register { bank: RegisterBank::Rip, index: 0 }.width(), Some(Width::Qword));
    assert_eq!(Register { bank: RegisterBank::Control, index: 0 }.width(), None);
    assert_eq!(Register { bank: RegisterBank::Debug, index: 0 }.width(), None);
}
