use x86_decoder::decode::decode;

fn text(bytes: &[u8]) -> String {
    x86_decoder::format::format(&decode(bytes).unwrap())
}

#[test]
fn arithmetic_rows() {
    assert_eq!(text(&[0x00, 0xd8]), "add al, bl");
    assert_eq!(text(&[0x09, 0xd8]), "or eax, ebx");
    assert_eq!(text(&[0x12, 0xd8]), "adc bl, al");
    assert_eq!(text(&[0x1b, 0xd8]), "sbb ebx, eax");
    assert_eq!(text(&[0x24, 0x0f]), "and al, 0xf");
    assert_eq!(text(&[0x2d, 0x00, 0x01, 0x00, 0x00]), "sub eax, 0x100");
    assert_eq!(text(&[0x30, 0xd8]), "xor al, bl");
    assert_eq!(text(&[0x3b, 0x03]), "cmp eax, [rbx]");
    assert_eq!(text(&[0x4c, 0x01, 0xf8]), "add rax, r15");
    assert_eq!(text(&[0x49, 0x01, 0xc7]), "add r15, rax");
}

#[test]
fn arithmetic_group() {
    assert_eq!(text(&[0x80, 0xc3, 0x01]), "add bl, 0x1");
    assert_eq!(text(&[0x81, 0xcb, 0x00, 0x00, 0x01, 0x00]), "or ebx, 0x10000");
    assert_eq!(text(&[0x83, 0xd3, 0x01]), "adc ebx, 0x1");
    assert_eq!(text(&[0x83, 0xdb, 0x01]), "sbb ebx, 0x1");
    assert_eq!(text(&[0x83, 0xe3, 0xf0]), "and ebx, -0x10");
    assert_eq!(text(&[0x48, 0x83, 0xec, 0x28]), "sub rsp, 0x28");
    assert_eq!(text(&[0x83, 0xf3, 0x01]), "xor ebx, 0x1");
    assert_eq!(text(&[0x83, 0x3b, 0x00]), "cmp [rbx], 0x0");
    assert_eq!(text(&[0x80, 0xc0, 0x80]), "add al, -0x80");
}

#[test]
fn moves() {
    assert_eq!(text(&[0x88, 0xc3]), "mov bl, al");
    assert_eq!(text(&[0x8a, 0x03]), "mov al, [rbx]");
    assert_eq!(text(&[0xb0, 0xff]), "mov al, -0x1");
    assert_eq!(text(&[0xb8, 0x78, 0x56, 0x34, 0x12]), "mov eax, 0x12345678");
    assert_eq!(text(&[0x66, 0xb8, 0x34, 0x12]), "mov ax, 0x1234");
    assert_eq!(text(&[0x41, 0xbf, 0x01, 0x00, 0x00, 0x00]), "mov r15d, 0x1");
    assert_eq!(
        text(&[0x48, 0xb8, 0x88, 0x77, 0x66, 0x55, 0x44, 0x33, 0x22, 0x11]),
        "mov rax, 0x1122334455667788"
    );
    assert_eq!(
        text(&[0x48, 0xb8, 0xff, 0xff, 0xff, 0xff, 0xff, 0xff, 0xff, 0xff]),
        "mov rax, -0x1"
    );
    assert_eq!(
        text(&[0x48, 0xb8, 0x00, 0x00, 0x00, 0x00, 0x00, 0x00, 0x00, 0x80]),
        "mov rax, -0x8000000000000000"
    );
    assert_eq!(text(&[0xc6, 0x00, 0x7f]), "mov [rax], 0x7f");
    assert_eq!(text(&[0xc7, 0xc0, 0x01, 0x00, 0x00, 0x00]), "mov eax, 0x1");
    assert_eq!(text(&[0x66, 0xc7, 0x00, 0x34, 0x12]), "mov [rax], 0x1234");
    assert_eq!(text(&[0x8c, 0xd8]), "mov eax, ds");
    assert_eq!(text(&[0x8e, 0xc0]), "mov es, ax");
    assert_eq!(text(&[0x8e, 0x00]), "mov es, word [rax]");
    assert_eq!(text(&[0xa0, 0x10, 0x00, 0x00, 0x00]), "mov al, [0x10]");
    assert_eq!(text(&[0xa3, 0x10, 0x00, 0x00, 0x00]), "mov [0x10], eax");
    assert_eq!(text(&[0x48, 0xa3, 0x10, 0x00, 0x00, 0x00]), "mov [0x10], rax");
    assert_eq!(text(&[0x64, 0xa1, 0x30, 0x00, 0x00, 0x00]), "mov eax, fs:[0x30]");
    assert_eq!(text(&[0xa1, 0xf0, 0xff, 0xff, 0xff]), "mov eax, [-0x10]");
}

#[test]
fn extending_moves_announce_the_memory_width() {
    assert_eq!(text(&[0x0f, 0xb6, 0xc1]), "movzx eax, cl");
    assert_eq!(text(&[0x0f, 0xb7, 0xc1]), "movzx eax, cx");
    assert_eq!(text(&[0x48, 0x0f, 0xbe, 0x03]), "movsx rax, byte [rbx]");
    assert_eq!(text(&[0x0f, 0xbf, 0x43, 0x02]), "movsx eax, word [rbx + 0x2]");
    assert_eq!(text(&[0x48, 0x63, 0xc1]), "movsxd rax, ecx");
    assert_eq!(text(&[0x48, 0x63, 0x04, 0x88]), "movsxd rax, dword [rax + rcx * 4]");
    assert_eq!(text(&[0x0f, 0xb6, 0xc4]), "movzx eax, ah");
    assert_eq!(text(&[0x40, 0x0f, 0xb6, 0xc4]), "movzx eax, spl");
    let with_hint = decode(&[0x0f, 0xb6, 0x06]).unwrap();
    assert_eq!(with_hint.size_hint, Some(x86_decoder::registers::Width::Byte));
    let without = decode(&[0x0f, 0xb6, 0xc1]).unwrap();
    assert_eq!(without.size_hint, None);
    let plain = decode(&[0x8b, 0x06]).unwrap();
    assert_eq!(plain.size_hint, None);
}

#[test]
fn stack() {
    assert_eq!(text(&[0x55]), "push rbp");
    assert_eq!(text(&[0x41, 0x57]), "push r15");
    assert_eq!(text(&[0x5d]), "pop rbp");
    assert_eq!(text(&[0x66, 0x5d]), "pop bp");
    assert_eq!(text(&[0x6a, 0xff]), "push -0x1");
    assert_eq!(text(&[0x6a, 0x10]), "push 0x10");
    assert_eq!(text(&[0x68, 0xff, 0xff, 0xff, 0xff]), "push -0x1");
    assert_eq!(text(&[0x66, 0x68, 0x34, 0x12]), "push 0x1234");
    assert_eq!(text(&[0x8f, 0x00]), "pop [rax]");
    assert_eq!(text(&[0x8f, 0xc3]), "pop rbx");
    assert_eq!(text(&[0xff, 0xf3]), "push rbx");
    assert_eq!(text(&[0x0f, 0xa0]), "push fs");
    assert_eq!(text(&[0x0f, 0xa1]), "pop fs");
    assert_eq!(text(&[0x0f, 0xa8]), "push gs");
    assert_eq!(text(&[0x0f, 0xa9]), "pop gs");
    assert_eq!(text(&[0x9c]), "pushf");
    assert_eq!(text(&[0x9d]), "popf");
    assert_eq!(text(&[0xc8, 0x10, 0x00, 0x01]), "enter 0x10, 0x1");
    assert_eq!(text(&[0xc9]), "leave");
}

#[test]
fn branches() {
    let names = [
        "jo", "jno", "jb", "jnb", "jz", "jnz", "jna", "ja", "js", "jns", "jp", "jnp", "jl", "jge",
        "jle", "jg",
    ];
    for (code, name) in names.iter().enumerate() {
        assert_eq!(text(&[0x70 + code as u8, 0x10]), format!("{} 0x10", name));
        assert_eq!(text(&[0x0f, 0x80 + code as u8, 0x10, 0, 0, 0]), format!("{} 0x10", name));
    }
    assert_eq!(text(&[0x74, 0xfe]), "jz -0x2");
    assert_eq!(text(&[0x0f, 0x84, 0xfa, 0xff, 0xff, 0xff]), "jz -0x6");
    assert_eq!(text(&[0xe8, 0x00, 0x01, 0x00, 0x00]), "call 0x100");
    assert_eq!(text(&[0xe8, 0xfb, 0xff, 0xff, 0xff]), "call -0x5");
    assert_eq!(text(&[0xe9, 0x00, 0x00, 0x00, 0x80]), "jmp -0x80000000");
    assert_eq!(text(&[0xeb, 0x7f]), "jmp 0x7f");
    assert_eq!(text(&[0xeb, 0x80]), "jmp -0x80");
    assert_eq!(text(&[0xeb, 0x00]), "jmp 0x0");
    assert_eq!(text(&[0xe0, 0x02]), "loopnz 0x2");
    assert_eq!(text(&[0xe1, 0x02]), "loopz 0x2");
    assert_eq!(text(&[0xe2, 0xfe]), "loop -0x2");
    assert_eq!(text(&[0xe3, 0x02]), "jrcxz 0x2");
    assert_eq!(text(&[0xff, 0xd0]), "call rax");
    assert_eq!(text(&[0x41, 0xff, 0xd7]), "call r15");
    assert_eq!(text(&[0xff, 0xe0]), "jmp rax");
    assert_eq!(text(&[0xff, 0x25, 0x10, 0x00, 0x00, 0x00]), "jmp [rip + 0x10]");
    assert_eq!(text(&[0xff, 0x24, 0xc5, 0x00, 0x10, 0x00, 0x00]), "jmp [rax * 8 + 0x1000]");
    assert_eq!(text(&[0xc3]), "ret");
    assert_eq!(text(&[0xc2, 0x08, 0x00]), "ret 0x8");
    assert_eq!(text(&[0xc2, 0xff, 0xff]), "ret 0xffff");
    assert_eq!(text(&[0xcb]), "retf");
    assert_eq!(text(&[0xca, 0x08, 0x00]), "retf 0x8");
}

#[test]
fn conditional_moves_and_sets() {
    let suffixes = [
        "o", "no", "b", "nb", "z", "nz", "na", "a", "s", "ns", "p", "np", "l", "ge", "le", "g",
    ];
    for (code, suffix) in suffixes.iter().enumerate() {
        assert_eq!(text(&[0x0f, 0x40 + code as u8, 0xc1]), format!("cmov{} eax, ecx", suffix));
        assert_eq!(text(&[0x0f, 0x90 + code as u8, 0xc1]), format!("set{} cl", suffix));
    }
    assert_eq!(text(&[0x0f, 0x94, 0x00]), "setz [rax]");
    assert_eq!(text(&[0x41, 0x0f, 0x95, 0xc0]), "setnz r8b");
}

#[test]
fn shifts_and_rotates() {
    let names = ["rol", "ror", "rcl", "rcr", "shl", "shr", "sal", "sar"];
    for (code, name) in names.iter().enumerate() {
        let modrm = 0xc0 | ((code as u8) << 3);
        assert_eq!(text(&[0xc1, modrm, 0x04]), format!("{} eax, 0x4", name));
        assert_eq!(text(&[0xd1, modrm]), format!("{} eax, 0x1", name));
        assert_eq!(text(&[0xd3, modrm]), format!("{} eax, cl", name));
        assert_eq!(text(&[0xc0, modrm, 0x04]), format!("{} al, 0x4", name));
        assert_eq!(text(&[0xd0, modrm]), format!("{} al, 0x1", name));
        assert_eq!(text(&[0xd2, modrm]), format!("{} al, cl", name));
    }
    assert_eq!(text(&[0x48, 0xc1, 0xe0, 0x3f]), "shl rax, 0x3f");
    assert_eq!(text(&[0xc1, 0xe0, 0xff]), "shl eax, 0xff");
    assert_eq!(text(&[0x0f, 0xa4, 0xd8, 0x04]), "shld eax, ebx, 0x4");
    assert_eq!(text(&[0x0f, 0xa5, 0xd8]), "shld eax, ebx, cl");
    assert_eq!(text(&[0x0f, 0xac, 0xd8, 0x04]), "shrd eax, ebx, 0x4");
    assert_eq!(text(&[0x0f, 0xad, 0xd8]), "shrd eax, ebx, cl");
}

#[test]
fn unary_group() {
    assert_eq!(text(&[0xf6, 0xc3, 0x01]), "test bl, 0x1");
    assert_eq!(text(&[0xf6, 0xcb, 0x01]), "test bl, 0x1");
    assert_eq!(text(&[0xf7, 0xc3, 0x00, 0x01, 0x00, 0x00]), "test ebx, 0x100");
    assert_eq!(text(&[0xf7, 0xd3]), "not ebx");
    assert_eq!(text(&[0xf7, 0xdb]), "neg ebx");
    assert_eq!(text(&[0xf7, 0xe3]), "mul ebx");
    assert_eq!(text(&[0xf7, 0xeb]), "imul ebx");
    assert_eq!(text(&[0xf7, 0xf3]), "div ebx");
    assert_eq!(text(&[0x48, 0xf7, 0xfb]), "idiv rbx");
    assert_eq!(text(&[0xf6, 0xd3]), "not bl");
    assert_eq!(text(&[0xf6, 0x18]), "neg [rax]");
    assert_eq!(decode(&[0xf7, 0xd3]).unwrap().length, 2);
    assert_eq!(decode(&[0xf7, 0xc3, 0, 1, 0, 0]).unwrap().length, 6);
}

#[test]
fn step_and_indirect_groups() {
    assert_eq!(text(&[0xfe, 0xc0]), "inc al");
    assert_eq!(text(&[0xfe, 0xc8]), "dec al");
    assert_eq!(text(&[0xff, 0xc0]), "inc eax");
    assert_eq!(text(&[0x48, 0xff, 0xc8]), "dec rax");
    assert_eq!(text(&[0x66, 0xff, 0xc0]), "inc ax");
    assert_eq!(text(&[0xff, 0x00]), "inc [rax]");
    assert_eq!(text(&[0x66, 0xff, 0xf0]), "push ax");
}

#[test]
fn multiplication() {
    assert_eq!(text(&[0x0f, 0xaf, 0xc3]), "imul eax, ebx");
    assert_eq!(text(&[0x6b, 0xc3, 0x10]), "imul eax, ebx, 0x10");
    assert_eq!(text(&[0x6b, 0xc3, 0xf0]), "imul eax, ebx, -0x10");
    assert_eq!(text(&[0x69, 0xc3, 0x00, 0x01, 0x00, 0x00]), "imul eax, ebx, 0x100");
    assert_eq!(text(&[0x66, 0x69, 0xc3, 0x00, 0x01]), "imul ax, bx, 0x100");
    assert_eq!(text(&[0x48, 0x69, 0x03, 0x00, 0x01, 0x00, 0x00]), "imul rax, [rbx], 0x100");
}

#[test]
fn exchanges_and_tests() {
    assert_eq!(text(&[0x90]), "nop");
    assert_eq!(text(&[0x41, 0x90]), "xchg r8d, eax");
    assert_eq!(text(&[0x49, 0x90]), "xchg r8, rax");
    assert_eq!(text(&[0x48, 0x90]), "nop");
    assert_eq!(text(&[0x93]), "xchg ebx, eax");
    assert_eq!(text(&[0x48, 0x97]), "xchg rdi, rax");
    assert_eq!(text(&[0x86, 0xd8]), "xchg al, bl");
    assert_eq!(text(&[0x87, 0x18]), "xchg [rax], ebx");
    assert_eq!(text(&[0x84, 0xc0]), "test al, al");
    assert_eq!(text(&[0x85, 0xc0]), "test eax, eax");
    assert_eq!(text(&[0xa8, 0x01]), "test al, 0x1");
    assert_eq!(text(&[0xa9, 0x00, 0x00, 0x00, 0x80]), "test eax, -0x80000000");
    assert_eq!(text(&[0x0f, 0xb0, 0x18]), "cmpxchg [rax], bl");
    assert_eq!(text(&[0x0f, 0xb1, 0x18]), "cmpxchg [rax], ebx");
    assert_eq!(text(&[0x0f, 0xc0, 0xd8]), "xadd al, bl");
    assert_eq!(text(&[0x0f, 0xc1, 0xd8]), "xadd eax, ebx");
    assert_eq!(text(&[0x0f, 0xc8]), "bswap eax");
    assert_eq!(text(&[0x49, 0x0f, 0xcf]), "bswap r15");
}

#[test]
fn bit_instructions() {
    assert_eq!(text(&[0x0f, 0xa3, 0xd8]), "bt eax, ebx");
    assert_eq!(text(&[0x0f, 0xab, 0xd8]), "bts eax, ebx");
    assert_eq!(text(&[0x0f, 0xb3, 0xd8]), "btr eax, ebx");
    assert_eq!(text(&[0x0f, 0xbb, 0xd8]), "btc eax, ebx");
    assert_eq!(text(&[0x0f, 0xba, 0xe0, 0x05]), "bt eax, 0x5");
    assert_eq!(text(&[0x0f, 0xba, 0xe8, 0x05]), "bts eax, 0x5");
    assert_eq!(text(&[0x0f, 0xba, 0xf0, 0x05]), "btr eax, 0x5");
    assert_eq!(text(&[0x0f, 0xba, 0xf8, 0x05]), "btc eax, 0x5");
    assert_eq!(text(&[0x0f, 0xbc, 0xc3]), "bsf eax, ebx");
    assert_eq!(text(&[0x0f, 0xbd, 0xc3]), "bsr eax, ebx");
}

#[test]
fn width_named_instructions() {
    assert_eq!(text(&[0x66, 0x98]), "cbw");
    assert_eq!(text(&[0x98]), "cwde");
    assert_eq!(text(&[0x48, 0x98]), "cdqe");
    assert_eq!(text(&[0x66, 0x99]), "cwd");
    assert_eq!(text(&[0x99]), "cdq");
    assert_eq!(text(&[0x48, 0x99]), "cqo");
    assert_eq!(text(&[0xa4]), "movsb");
    assert_eq!(text(&[0x66, 0xa5]), "movsw");
    assert_eq!(text(&[0xa5]), "movsd");
    assert_eq!(text(&[0x48, 0xa5]), "movsq");
    assert_eq!(text(&[0xf3, 0xa4]), "movsb");
    assert_eq!(text(&[0xa6]), "cmpsb");
    assert_eq!(text(&[0xa7]), "cmpsd");
    assert_eq!(text(&[0xaa]), "stosb");
    assert_eq!(text(&[0x48, 0xab]), "stosq");
    assert_eq!(text(&[0xac]), "lodsb");
    assert_eq!(text(&[0x66, 0xad]), "lodsw");
    assert_eq!(text(&[0xae]), "scasb");
    assert_eq!(text(&[0xaf]), "scasd");
    assert_eq!(text(&[0x6c]), "insb");
    assert_eq!(text(&[0x6d]), "insd");
    assert_eq!(text(&[0x48, 0x6d]), "insd");
    assert_eq!(text(&[0x66, 0x6d]), "insw");
    assert_eq!(text(&[0x6e]), "outsb");
    assert_eq!(text(&[0x6f]), "outsd");
}

#[test]
fn input_and_output() {
    assert_eq!(text(&[0xe4, 0x60]), "in al, 0x60");
    assert_eq!(text(&[0xe5, 0xff]), "in eax, 0xff");
    assert_eq!(text(&[0xe6, 0x60]), "out 0x60, al");
    assert_eq!(text(&[0xe7, 0x60]), "out 0x60, eax");
    assert_eq!(text(&[0xec]), "in al, dx");
    assert_eq!(text(&[0xee]), "out dx, al");
    assert_eq!(text(&[0xef]), "out dx, eax");
}

#[test]
fn instructions_without_operands() {
    let cases: [(&[u8], &str); 24] = [
        (&[0x9b], "wait"),
        (&[0x9e], "sahf"),
        (&[0x9f], "lahf"),
        (&[0xcc], "int3"),
        (&[0xcf], "iret"),
        (&[0xd7], "xlat"),
        (&[0xf1], "int1"),
        (&[0xf4], "hlt"),
        (&[0xf5], "cmc"),
        (&[0xf8], "clc"),
        (&[0xf9], "stc"),
        (&[0xfa], "cli"),
        (&[0xfb], "sti"),
        (&[0xfc], "cld"),
        (&[0xfd], "std"),
        (&[0x0f, 0x05], "syscall"),
        (&[0x0f, 0x07], "sysret"),
        (&[0x0f, 0x0b], "ud2"),
        (&[0x0f, 0x30], "wrmsr"),
        (&[0x0f, 0x31], "rdtsc"),
        (&[0x0f, 0x32], "rdmsr"),
        (&[0x0f, 0xa2], "cpuid"),
        (&[0xc9], "leave"),
        (&[0x90], "nop"),
    ];
    for (bytes, expected) in cases {
        let instruction = decode(bytes).unwrap();
        assert_eq!(x86_decoder::format::format(&instruction), expected);
        assert!(instruction.operands.is_empty());
        assert_eq!(instruction.length as usize, bytes.len());
    }
    assert_eq!(text(&[0xcd, 0x80]), "int 0x80");
    assert_eq!(text(&[0x0f, 0x1f, 0x00]), "nop [rax]");
    assert_eq!(text(&[0x0f, 0x1f, 0x44, 0x00, 0x00]), "nop [rax + rax]");
    assert_eq!(text(&[0x66, 0x0f, 0x1f, 0x84, 0x00, 0, 0, 0, 0]), "nop [rax + rax]");
}

#[test]
fn control_and_debug_registers_up_to_fifteen() {
    assert_eq!(text(&[0x0f, 0x20, 0xc0]), "mov rax, cr0");
    assert_eq!(text(&[0x0f, 0x20, 0xf8]), "mov rax, cr7");
    assert_eq!(text(&[0x44, 0x0f, 0x20, 0xc0]), "mov rax, cr8");
    assert_eq!(text(&[0x44, 0x0f, 0x20, 0xf8]), "mov rax, cr15");
    assert_eq!(text(&[0x45, 0x0f, 0x23, 0xff]), "mov dr15, r15");
    assert_eq!(text(&[0x41, 0x0f, 0x21, 0xd2]), "mov r10, dr2");
}
