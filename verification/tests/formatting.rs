use x86_decoder::instruction::{
    Condition, Instruction, MemoryOperand, Mnemonic, Operand, ScaledIndex, StringOperation,
};
use x86_decoder::registers::{Register, RegisterBank, Segment, Width};

fn text(mnemonic: Mnemonic, operands: Vec<Operand>, size_hint: Option<Width>) -> String {
    x86_decoder::format::format(&Instruction { mnemonic, operands, size_hint, length: 1 })
}

fn qword(index: u8) -> Register {
    Register { bank: RegisterBank::Qword, index }
}

fn memory(
    base: Option<Register>,
    index: Option<ScaledIndex>,
    displacement: i64,
    segment: Option<Segment>,
) -> Operand {
    Operand::Memory(MemoryOperand { base, index, displacement, segment })
}

fn immediate(value: i64) -> Operand {
    Operand::Immediate { value, width: Width::Qword }
}

#[test]
fn mnemonic_alone() {
    assert_eq!(text(Mnemonic::Ret, vec![], None), "ret");
    assert_eq!(text(Mnemonic::Ret, vec![], Some(Width::Byte)), "ret");
}

#[test]
fn operands_are_separated_by_comma_and_space() {
    let r = |i| Operand::Register(qword(i));
    assert_eq!(text(Mnemonic::Push, vec![r(0)], None), "push rax");
    assert_eq!(text(Mnemonic::Mov, vec![r(0), r(1)], None), "mov rax, rcx");
    assert_eq!(text(Mnemonic::Imul, vec![r(0), r(1), immediate(2)], None), "imul rax, rcx, 0x2");
    assert_eq!(
        text(Mnemonic::Imul, vec![r(0), r(1), r(2), r(3)], None),
        "imul rax, rcx, rdx, rbx"
    );
}

#[test]
fn immediates_are_signed_hexadecimal() {
    assert_eq!(text(Mnemonic::Push, vec![immediate(0)], None), "push 0x0");
    assert_eq!(text(Mnemonic::Push, vec![immediate(9)], None), "push 0x9");
    assert_eq!(text(Mnemonic::Push, vec![immediate(10)], None), "push 0xa");
    assert_eq!(text(Mnemonic::Push, vec![immediate(15)], None), "push 0xf");
    assert_eq!(text(Mnemonic::Push, vec![immediate(16)], None), "push 0x10");
    assert_eq!(text(Mnemonic::Push, vec![immediate(255)], None), "push 0xff");
    assert_eq!(text(Mnemonic::Push, vec![immediate(0xabcdef)], None), "push 0xabcdef");
    assert_eq!(text(Mnemonic::Push, vec![immediate(-1)], None), "push -0x1");
    assert_eq!(text(Mnemonic::Push, vec![immediate(-0xfff)], None), "push -0xfff");
    assert_eq!(
        text(Mnemonic::Push, vec![immediate(i64::MAX)], None),
        "push 0x7fffffffffffffff"
    );
    assert_eq!(
        text(Mnemonic::Push, vec![immediate(i64::MIN)], None),
        "push -0x8000000000000000"
    );
    assert_eq!(
        text(Mnemonic::Push, vec![immediate(i64::MIN + 1)], None),
        "push -0x7fffffffffffffff"
    );
}

#[test]
fn the_width_of_an_immediate_does_not_change_its_text() {
    for width in [Width::Byte, Width::Word, Width::Dword, Width::Qword] {
        let o = Operand::Immediate { value: -0x10, width };
        assert_eq!(text(Mnemonic::Push, vec![o], None), "push -0x10");
    }
}

#[test]
fn relative_offsets_are_signed_hexadecimal() {
    let jz = Mnemonic::Jcc(Condition::Z);
    assert_eq!(text(jz, vec![Operand::RelativeOffset { value: 0x47 }], None), "jz 0x47");
    assert_eq!(text(jz, vec![Operand::RelativeOffset { value: -0x47 }], None), "jz -0x47");
    assert_eq!(text(jz, vec![Operand::RelativeOffset { value: 0 }], None), "jz 0x0");
}

#[test]
fn memory_terms() {
    let index = |i, scale| Some(ScaledIndex { register: qword(i), scale });
    let m = |o| text(Mnemonic::Inc, vec![o], None);
    assert_eq!(m(memory(Some(qword(5)), None, 0, None)), "inc [rbp]");
    assert_eq!(m(memory(Some(qword(5)), None, 0x48, None)), "inc [rbp + 0x48]");
    assert_eq!(m(memory(Some(qword(5)), None, -0x48, None)), "inc [rbp - 0x48]");
    assert_eq!(m(memory(Some(qword(7)), index(0, 8), 0x12000020, None)), "inc [rdi + rax * 8 + 0x12000020]");
    assert_eq!(m(memory(Some(qword(2)), index(2, 1), 0, None)), "inc [rdx + rdx]");
    assert_eq!(m(memory(Some(qword(2)), index(2, 2), 0, None)), "inc [rdx + rdx * 2]");
    assert_eq!(m(memory(Some(qword(2)), index(2, 4), -1, None)), "inc [rdx + rdx * 4 - 0x1]");
    assert_eq!(m(memory(None, index(3, 4), 0, None)), "inc [rbx * 4]");
    assert_eq!(m(memory(None, index(3, 1), 0, None)), "inc [rbx]");
    assert_eq!(m(memory(None, index(3, 4), 0x10, None)), "inc [rbx * 4 + 0x10]");
    assert_eq!(m(memory(None, index(3, 4), -0x10, None)), "inc [rbx * 4 - 0x10]");
    assert_eq!(m(memory(None, None, 0x1a8, None)), "inc [0x1a8]");
    assert_eq!(m(memory(None, None, 0, None)), "inc [0x0]");
    assert_eq!(m(memory(None, None, -0x10, None)), "inc [-0x10]");
    assert_eq!(
        m(memory(Some(qword(0)), None, i64::MIN, None)),
        "inc [rax - 0x8000000000000000]"
    );
    assert_eq!(
        m(memory(Some(Register { bank: RegisterBank::Rip, index: 0 }), None, 0x24727e, None)),
        "inc [rip + 0x24727e]"
    );
}

#[test]
fn segment_override_stands_before_the_bracket() {
    let segments = [
        (Segment::Es, "es"),
        (Segment::Cs, "cs"),
        (Segment::Ss, "ss"),
        (Segment::Ds, "ds"),
        (Segment::Fs, "fs"),
        (Segment::Gs, "gs"),
    ];
    for (segment, name) in segments {
        assert_eq!(segment.name(), name);
        assert_eq!(
            text(Mnemonic::Inc, vec![memory(None, None, 0x1a8, Some(segment))], None),
            format!("inc {}:[0x1a8]", name)
        );
    }
    assert_eq!(
        text(
            Mnemonic::Mov,
            vec![memory(Some(qword(0)), None, 8, Some(Segment::Fs)), Operand::Register(qword(8))],
            None
        ),
        "mov fs:[rax + 0x8], r8"
    );
}

#[test]
fn the_size_hint_is_obeyed_for_every_memory_operand() {
    let m = memory(Some(qword(6)), None, 0, None);
    let r = Operand::Register(Register { bank: RegisterBank::Dword, index: 0 });
    assert_eq!(text(Mnemonic::Movzx, vec![r, m], Some(Width::Byte)), "movzx eax, byte [rsi]");
    assert_eq!(text(Mnemonic::Movzx, vec![r, m], Some(Width::Word)), "movzx eax, word [rsi]");
    assert_eq!(text(Mnemonic::Movzx, vec![r, m], Some(Width::Dword)), "movzx eax, dword [rsi]");
    assert_eq!(text(Mnemonic::Movzx, vec![r, m], Some(Width::Qword)), "movzx eax, qword [rsi]");
    assert_eq!(text(Mnemonic::Movzx, vec![r, m], None), "movzx eax, [rsi]");
    assert_eq!(text(Mnemonic::Movzx, vec![r, r], Some(Width::Byte)), "movzx eax, eax");
    assert_eq!(
        text(Mnemonic::Mov, vec![memory(None, None, 1, Some(Segment::Gs)), immediate(0)], Some(Width::Qword)),
        "mov qword gs:[0x1], 0x0"
    );
    assert_eq!(Width::Byte.keyword(), "byte");
    assert_eq!(Width::Word.keyword(), "word");
    assert_eq!(Width::Dword.keyword(), "dword");
    assert_eq!(Width::Qword.keyword(), "qword");
}

#[test]
fn composed_mnemonics() {
    assert_eq!(text(Mnemonic::Jcc(Condition::Nb), vec![], None), "jnb");
    assert_eq!(text(Mnemonic::Cmovcc(Condition::Nb), vec![], None), "cmovnb");
    assert_eq!(text(Mnemonic::Setcc(Condition::Ge), vec![], None), "setge");
    assert_eq!(text(Mnemonic::String(StringOperation::Movs, Width::Byte), vec![], None), "movsb");
    assert_eq!(text(Mnemonic::String(StringOperation::Stos, Width::Word), vec![], None), "stosw");
    assert_eq!(text(Mnemonic::String(StringOperation::Lods, Width::Dword), vec![], None), "lodsd");
    assert_eq!(text(Mnemonic::String(StringOperation::Scas, Width::Qword), vec![], None), "scasq");
    assert_eq!(text(Mnemonic::String(StringOperation::Cmps, Width::Qword), vec![], None), "cmpsq");
    assert_eq!(text(Mnemonic::String(StringOperation::Ins, Width::Byte), vec![], None), "insb");
    assert_eq!(text(Mnemonic::String(StringOperation::Outs, Width::Byte), vec![], None), "outsb");
    for code in 0..16u8 {
        assert_eq!(Condition::from_code(code).suffix().len() <= 2, true);
    }
    assert_eq!(Condition::from_code(0), Condition::O);
    assert_eq!(Condition::from_code(3), Condition::Nb);
    assert_eq!(Condition::from_code(6), Condition::Na);
    assert_eq!(Condition::from_code(15), Condition::G);
}

#[test]
fn pieces_of_a_memory_operand() {
    let mut out = String::from("x");
    x86_decoder::format::push_index(&mut out, &ScaledIndex { register: qword(9), scale: 4 });
    assert_eq!(out, "xr9 * 4");
    let mut out = String::new();
    x86_decoder::format::push_displacement(&mut out, 0, false);
    assert_eq!(out, "");
    x86_decoder::format::push_displacement(&mut out, 0, true);
    assert_eq!(out, "0x0");
    x86_decoder::format::push_displacement(&mut out, 5, false);
    assert_eq!(out, "0x0 + 0x5");
    x86_decoder::format::push_displacement(&mut out, -5, false);
    assert_eq!(out, "0x0 + 0x5 - 0x5");
    let m = MemoryOperand { base: Some(qword(1)), index: None, displacement: 2, segment: Some(Segment::Ss) };
    let mut out = String::new();
    x86_decoder::format::push_address(&mut out, &m);
    assert_eq!(out, "rcx + 0x2");
    let mut out = String::from("> ");
    x86_decoder::format::push_memory(&mut out, &m);
    assert_eq!(out, "> ss:[rcx + 0x2]");
    let mut out = String::from("> ");
    x86_decoder::format::push_operand(&mut out, &Operand::Memory(m), Some(Width::Word));
    assert_eq!(out, "> word ss:[rcx + 0x2]");
}
