//! The decoded instruction: mnemonic, operands, and what the text needs.

use vstd::prelude::*;
use vstd::string::StringExecFns;
use crate::registers::{Register, RegisterBank, Segment, Width};

verus! {

/// The condition of a conditional jump, move or set, in the order of its
/// encoding.
#[derive(Clone, Copy, Debug, PartialEq, Eq, Structural)]
pub enum Condition {
    O,
    No,
    B,
    Nb,
    Z,
    Nz,
    Na,
    A,
    S,
    Ns,
    P,
    Np,
    L,
    Ge,
    Le,
    G,
}

impl Condition {
    /// The condition that the low four bits of an opcode encode.
    pub open spec fn from_code_spec(code: u8) -> Condition {
        if code == 0 {
            Condition::O
        } else if code == 1 {
            Condition::No
        } else if code == 2 {
            Condition::B
        } else if code == 3 {
            Condition::Nb
        } else if code == 4 {
            Condition::Z
        } else if code == 5 {
            Condition::Nz
        } else if code == 6 {
            Condition::Na
        } else if code == 7 {
            Condition::A
        } else if code == 8 {
            Condition::S
        } else if code == 9 {
            Condition::Ns
        } else if code == 10 {
            Condition::P
        } else if code == 11 {
            Condition::Np
        } else if code == 12 {
            Condition::L
        } else if code == 13 {
            Condition::Ge
        } else if code == 14 {
            Condition::Le
        } else {
            Condition::G
        }
    }

    /// The condition that the low four bits of an opcode encode.
    #[verifier::when_used_as_spec(from_code_spec)]
    pub fn from_code(code: u8) -> (c: Condition)
        ensures
            c == Self::from_code_spec(code),
    {
        match code {
            0 => Condition::O,
            1 => Condition::No,
            2 => Condition::B,
            3 => Condition::Nb,
            4 => Condition::Z,
            5 => Condition::Nz,
            6 => Condition::Na,
            7 => Condition::A,
            8 => Condition::S,
            9 => Condition::Ns,
            10 => Condition::P,
            11 => Condition::Np,
            12 => Condition::L,
            13 => Condition::Ge,
            14 => Condition::Le,
            _ => Condition::G,
        }
    }

    /// The letters that name the condition in a mnemonic.
    pub open spec fn suffix_text(self) -> Seq<char> {
        match self {
            Condition::O => "o"@,
            Condition::No => "no"@,
            Condition::B => "b"@,
            Condition::Nb => "nb"@,
            Condition::Z => "z"@,
            Condition::Nz => "nz"@,
            Condition::Na => "na"@,
            Condition::A => "a"@,
            Condition::S => "s"@,
            Condition::Ns => "ns"@,
            Condition::P => "p"@,
            Condition::Np => "np"@,
            Condition::L => "l"@,
            Condition::Ge => "ge"@,
            Condition::Le => "le"@,
            Condition::G => "g"@,
        }
    }

    /// The letters that name the condition in a mnemonic.
    pub fn suffix(self) -> (s: &'static str)
        ensures
            s@ == self.suffix_text(),
    {
        match self {
            Condition::O => "o",
            Condition::No => "no",
            Condition::B => "b",
            Condition::Nb => "nb",
            Condition::Z => "z",
            Condition::Nz => "nz",
            Condition::Na => "na",
            Condition::A => "a",
            Condition::S => "s",
            Condition::Ns => "ns",
            Condition::P => "p",
            Condition::Np => "np",
            Condition::L => "l",
            Condition::Ge => "ge",
            Condition::Le => "le",
            Condition::G => "g",
        }
    }
}

/// A string instruction; its mnemonic ends in a letter for the width.
#[derive(Clone, Copy, Debug, PartialEq, Eq, Structural)]
pub enum StringOperation {
    Ins,
    Outs,
    Movs,
    Cmps,
    Stos,
    Lods,
    Scas,
}

impl StringOperation {
    /// The mnemonic without its width letter.
    pub open spec fn stem_text(self) -> Seq<char> {
        match self {
            StringOperation::Ins => "ins"@,
            StringOperation::Outs => "outs"@,
            StringOperation::Movs => "movs"@,
            StringOperation::Cmps => "cmps"@,
            StringOperation::Stos => "stos"@,
            StringOperation::Lods => "lods"@,
            StringOperation::Scas => "scas"@,
        }
    }

    /// The mnemonic without its width letter.
    pub fn stem(self) -> (s: &'static str)
        ensures
            s@ == self.stem_text(),
    {
        match self {
            StringOperation::Ins => "ins",
            StringOperation::Outs => "outs",
            StringOperation::Movs => "movs",
            StringOperation::Cmps => "cmps",
            StringOperation::Stos => "stos",
            StringOperation::Lods => "lods",
            StringOperation::Scas => "scas",
        }
    }
}

/// The letter that a string instruction's mnemonic ends in.
pub open spec fn width_letter_text(width: Width) -> Seq<char> {
    match width {
        Width::Byte => "b"@,
        Width::Word => "w"@,
        Width::Dword => "d"@,
        Width::Qword => "q"@,
    }
}

/// The letter that a string instruction's mnemonic ends in.
pub fn width_letter(width: Width) -> (s: &'static str)
    ensures
        s@ == width_letter_text(width),
{
    match width {
        Width::Byte => "b",
        Width::Word => "w",
        Width::Dword => "d",
        Width::Qword => "q",
    }
}

/// What an instruction does.
#[derive(Clone, Copy, Debug, PartialEq, Eq, Structural)]
pub enum Mnemonic {
    Add,
    Or,
    Adc,
    Sbb,
    And,
    Sub,
    Xor,
    Cmp,
    Push,
    Pop,
    Movsxd,
    Imul,
    Test,
    Xchg,
    Mov,
    Lea,
    Nop,
    Cbw,
    Cwde,
    Cdqe,
    Cwd,
    Cdq,
    Cqo,
    Wait,
    Pushf,
    Popf,
    Sahf,
    Lahf,
    Rol,
    Ror,
    Rcl,
    Rcr,
    Shl,
    Shr,
    Sal,
    Sar,
    Ret,
    Retf,
    Enter,
    Leave,
    Int3,
    Int,
    Iret,
    Loopnz,
    Loopz,
    Loop,
    Jrcxz,
    In,
    Out,
    Call,
    Jmp,
    Int1,
    Hlt,
    Cmc,
    Clc,
    Stc,
    Cli,
    Sti,
    Cld,
    Std,
    Not,
    Neg,
    Mul,
    Div,
    Idiv,
    Inc,
    Dec,
    Xlat,
    Syscall,
    Sysret,
    Ud2,
    Wrmsr,
    Rdtsc,
    Rdmsr,
    Cpuid,
    Bt,
    Bts,
    Btr,
    Btc,
    Shld,
    Shrd,
    Cmpxchg,
    Movzx,
    Movsx,
    Bsf,
    Bsr,
    Xadd,
    Bswap,
    /// A conditional jump.
    Jcc(Condition),
    /// A conditional move.
    Cmovcc(Condition),
    /// A conditional set.
    Setcc(Condition),
    /// A string instruction on elements of a width.
    String(StringOperation, Width),
}

impl Mnemonic {
    /// The mnemonic as it is written.
    pub open spec fn text(self) -> Seq<char> {
        match self {
            Mnemonic::Add => "add"@,
            Mnemonic::Or => "or"@,
            Mnemonic::Adc => "adc"@,
            Mnemonic::Sbb => "sbb"@,
            Mnemonic::And => "and"@,
            Mnemonic::Sub => "sub"@,
            Mnemonic::Xor => "xor"@,
            Mnemonic::Cmp => "cmp"@,
            Mnemonic::Push => "push"@,
            Mnemonic::Pop => "pop"@,
            Mnemonic::Movsxd => "movsxd"@,
            Mnemonic::Imul => "imul"@,
            Mnemonic::Test => "test"@,
            Mnemonic::Xchg => "xchg"@,
            Mnemonic::Mov => "mov"@,
            Mnemonic::Lea => "lea"@,
            Mnemonic::Nop => "nop"@,
            Mnemonic::Cbw => "cbw"@,
            Mnemonic::Cwde => "cwde"@,
            Mnemonic::Cdqe => "cdqe"@,
            Mnemonic::Cwd => "cwd"@,
            Mnemonic::Cdq => "cdq"@,
            Mnemonic::Cqo => "cqo"@,
            Mnemonic::Wait => "wait"@,
            Mnemonic::Pushf => "pushf"@,
            Mnemonic::Popf => "popf"@,
            Mnemonic::Sahf => "sahf"@,
            Mnemonic::Lahf => "lahf"@,
            Mnemonic::Rol => "rol"@,
            Mnemonic::Ror => "ror"@,
            Mnemonic::Rcl => "rcl"@,
            Mnemonic::Rcr => "rcr"@,
            Mnemonic::Shl => "shl"@,
            Mnemonic::Shr => "shr"@,
            Mnemonic::Sal => "sal"@,
            Mnemonic::Sar => "sar"@,
            Mnemonic::Ret => "ret"@,
            Mnemonic::Retf => "retf"@,
            Mnemonic::Enter => "enter"@,
            Mnemonic::Leave => "leave"@,
            Mnemonic::Int3 => "int3"@,
            Mnemonic::Int => "int"@,
            Mnemonic::Iret => "iret"@,
            Mnemonic::Loopnz => "loopnz"@,
            Mnemonic::Loopz => "loopz"@,
            Mnemonic::Loop => "loop"@,
            Mnemonic::Jrcxz => "jrcxz"@,
            Mnemonic::In => "in"@,
            Mnemonic::Out => "out"@,
            Mnemonic::Call => "call"@,
            Mnemonic::Jmp => "jmp"@,
            Mnemonic::Int1 => "int1"@,
            Mnemonic::Hlt => "hlt"@,
            Mnemonic::Cmc => "cmc"@,
            Mnemonic::Clc => "clc"@,
            Mnemonic::Stc => "stc"@,
            Mnemonic::Cli => "cli"@,
            Mnemonic::Sti => "sti"@,
            Mnemonic::Cld => "cld"@,
            Mnemonic::Std => "std"@,
            Mnemonic::Not => "not"@,
            Mnemonic::Neg => "neg"@,
            Mnemonic::Mul => "mul"@,
            Mnemonic::Div => "div"@,
            Mnemonic::Idiv => "idiv"@,
            Mnemonic::Inc => "inc"@,
            Mnemonic::Dec => "dec"@,
            Mnemonic::Xlat => "xlat"@,
            Mnemonic::Syscall => "syscall"@,
            Mnemonic::Sysret => "sysret"@,
            Mnemonic::Ud2 => "ud2"@,
            Mnemonic::Wrmsr => "wrmsr"@,
            Mnemonic::Rdtsc => "rdtsc"@,
            Mnemonic::Rdmsr => "rdmsr"@,
            Mnemonic::Cpuid => "cpuid"@,
            Mnemonic::Bt => "bt"@,
            Mnemonic::Bts => "bts"@,
            Mnemonic::Btr => "btr"@,
            Mnemonic::Btc => "btc"@,
            Mnemonic::Shld => "shld"@,
            Mnemonic::Shrd => "shrd"@,
            Mnemonic::Cmpxchg => "cmpxchg"@,
            Mnemonic::Movzx => "movzx"@,
            Mnemonic::Movsx => "movsx"@,
            Mnemonic::Bsf => "bsf"@,
            Mnemonic::Bsr => "bsr"@,
            Mnemonic::Xadd => "xadd"@,
            Mnemonic::Bswap => "bswap"@,
            Mnemonic::Jcc(c) => "j"@ + c.suffix_text(),
            Mnemonic::Cmovcc(c) => "cmov"@ + c.suffix_text(),
            Mnemonic::Setcc(c) => "set"@ + c.suffix_text(),
            Mnemonic::String(op, width) => op.stem_text() + width_letter_text(width),
        }
    }

    /// Appends the mnemonic to `out`.
    pub fn push_text(&self, out: &mut String)
        ensures
            final(out)@ == old(out)@ + self.text(),
    {
        match self {
            Mnemonic::Add => out.append("add"),
            Mnemonic::Or => out.append("or"),
            Mnemonic::Adc => out.append("adc"),
            Mnemonic::Sbb => out.append("sbb"),
            Mnemonic::And => out.append("and"),
            Mnemonic::Sub => out.append("sub"),
            Mnemonic::Xor => out.append("xor"),
            Mnemonic::Cmp => out.append("cmp"),
            Mnemonic::Push => out.append("push"),
            Mnemonic::Pop => out.append("pop"),
            Mnemonic::Movsxd => out.append("movsxd"),
            Mnemonic::Imul => out.append("imul"),
            Mnemonic::Test => out.append("test"),
            Mnemonic::Xchg => out.append("xchg"),
            Mnemonic::Mov => out.append("mov"),
            Mnemonic::Lea => out.append("lea"),
            Mnemonic::Nop => out.append("nop"),
            Mnemonic::Cbw => out.append("cbw"),
            Mnemonic::Cwde => out.append("cwde"),
            Mnemonic::Cdqe => out.append("cdqe"),
            Mnemonic::Cwd => out.append("cwd"),
            Mnemonic::Cdq => out.append("cdq"),
            Mnemonic::Cqo => out.append("cqo"),
            Mnemonic::Wait => out.append("wait"),
            Mnemonic::Pushf => out.append("pushf"),
            Mnemonic::Popf => out.append("popf"),
            Mnemonic::Sahf => out.append("sahf"),
            Mnemonic::Lahf => out.append("lahf"),
            Mnemonic::Rol => out.append("rol"),
            Mnemonic::Ror => out.append("ror"),
            Mnemonic::Rcl => out.append("rcl"),
            Mnemonic::Rcr => out.append("rcr"),
            Mnemonic::Shl => out.append("shl"),
            Mnemonic::Shr => out.append("shr"),
            Mnemonic::Sal => out.append("sal"),
            Mnemonic::Sar => out.append("sar"),
            Mnemonic::Ret => out.append("ret"),
            Mnemonic::Retf => out.append("retf"),
            Mnemonic::Enter => out.append("enter"),
            Mnemonic::Leave => out.append("leave"),
            Mnemonic::Int3 => out.append("int3"),
            Mnemonic::Int => out.append("int"),
            Mnemonic::Iret => out.append("iret"),
            Mnemonic::Loopnz => out.append("loopnz"),
            Mnemonic::Loopz => out.append("loopz"),
            Mnemonic::Loop => out.append("loop"),
            Mnemonic::Jrcxz => out.append("jrcxz"),
            Mnemonic::In => out.append("in"),
            Mnemonic::Out => out.append("out"),
            Mnemonic::Call => out.append("call"),
            Mnemonic::Jmp => out.append("jmp"),
            Mnemonic::Int1 => out.append("int1"),
            Mnemonic::Hlt => out.append("hlt"),
            Mnemonic::Cmc => out.append("cmc"),
            Mnemonic::Clc => out.append("clc"),
            Mnemonic::Stc => out.append("stc"),
            Mnemonic::Cli => out.append("cli"),
            Mnemonic::Sti => out.append("sti"),
            Mnemonic::Cld => out.append("cld"),
            Mnemonic::Std => out.append("std"),
            Mnemonic::Not => out.append("not"),
            Mnemonic::Neg => out.append("neg"),
            Mnemonic::Mul => out.append("mul"),
            Mnemonic::Div => out.append("div"),
            Mnemonic::Idiv => out.append("idiv"),
            Mnemonic::Inc => out.append("inc"),
            Mnemonic::Dec => out.append("dec"),
            Mnemonic::Xlat => out.append("xlat"),
            Mnemonic::Syscall => out.append("syscall"),
            Mnemonic::Sysret => out.append("sysret"),
            Mnemonic::Ud2 => out.append("ud2"),
            Mnemonic::Wrmsr => out.append("wrmsr"),
            Mnemonic::Rdtsc => out.append("rdtsc"),
            Mnemonic::Rdmsr => out.append("rdmsr"),
            Mnemonic::Cpuid => out.append("cpuid"),
            Mnemonic::Bt => out.append("bt"),
            Mnemonic::Bts => out.append("bts"),
            Mnemonic::Btr => out.append("btr"),
            Mnemonic::Btc => out.append("btc"),
            Mnemonic::Shld => out.append("shld"),
            Mnemonic::Shrd => out.append("shrd"),
            Mnemonic::Cmpxchg => out.append("cmpxchg"),
            Mnemonic::Movzx => out.append("movzx"),
            Mnemonic::Movsx => out.append("movsx"),
            Mnemonic::Bsf => out.append("bsf"),
            Mnemonic::Bsr => out.append("bsr"),
            Mnemonic::Xadd => out.append("xadd"),
            Mnemonic::Bswap => out.append("bswap"),
            Mnemonic::Jcc(c) => {
                out.append("j");
                out.append(c.suffix());
            },
            Mnemonic::Cmovcc(c) => {
                out.append("cmov");
                out.append(c.suffix());
            },
            Mnemonic::Setcc(c) => {
                out.append("set");
                out.append(c.suffix());
            },
            Mnemonic::String(op, width) => {
                out.append(op.stem());
                out.append(width_letter(*width));
            },
        }
        assert(final(out)@ =~= old(out)@ + self.text());
    }
}

/// An index register and the factor that it is multiplied by.
#[derive(Clone, Copy, Debug, PartialEq, Eq)]
pub struct ScaledIndex {
    pub register: Register,
    /// 1, 2, 4 or 8.
    pub scale: u8,
}

/// A memory operand: `segment:[base + index * scale + displacement]`, each
/// part but the displacement optional. One relative to the next instruction
/// has `rip` as its base.
#[derive(Clone, Copy, Debug, PartialEq, Eq)]
pub struct MemoryOperand {
    pub base: Option<Register>,
    pub index: Option<ScaledIndex>,
    /// The displacement, sign-extended from the width it was encoded in.
    pub displacement: i64,
    pub segment: Option<Segment>,
}

/// One operand of an instruction.
#[derive(Clone, Copy, Debug, PartialEq, Eq)]
pub enum Operand {
    Register(Register),
    Memory(MemoryOperand),
    /// An immediate, sign- or zero-extended from `width`, the width it was
    /// encoded in.
    Immediate { value: i64, width: Width },
    /// The displacement of a relative jump or call, sign-extended.
    RelativeOffset { value: i64 },
}

impl MemoryOperand {
    /// The registers are registers that can stand in an address, and the
    /// scale is one that can be encoded.
    pub open spec fn wf(self) -> bool {
        &&& match self.base {
            Some(r) => r.wf() && (r.bank == RegisterBank::Qword || r.bank == RegisterBank::Dword
                || r.bank == RegisterBank::Rip || r.bank == RegisterBank::Eip),
            None => true,
        }
        &&& match self.index {
            Some(i) => i.register.wf() && (i.register.bank == RegisterBank::Qword
                || i.register.bank == RegisterBank::Dword) && (i.scale == 1 || i.scale == 2
                || i.scale == 4 || i.scale == 8),
            None => true,
        }
    }
}

impl Operand {
    /// Every register in the operand exists, and a memory operand is one
    /// that can be encoded.
    pub open spec fn wf(self) -> bool {
        match self {
            Operand::Register(r) => r.wf(),
            Operand::Memory(m) => m.wf(),
            Operand::Immediate { .. } => true,
            Operand::RelativeOffset { .. } => true,
        }
    }
}

/// The mathematical value of a decoded instruction.
pub struct InstructionView {
    pub mnemonic: Mnemonic,
    /// The operands in the order in which they are written.
    pub operands: Seq<Operand>,
    /// The width that a memory operand is announced with, where no register
    /// operand implies it.
    pub size_hint: Option<Width>,
    /// The number of bytes that encode the instruction.
    pub length: int,
}

impl InstructionView {
    /// At most three operands, each well-formed, and a length that an
    /// instruction can have.
    pub open spec fn wf(self) -> bool {
        &&& self.operands.len() <= 3
        &&& forall|i: int| 0 <= i < self.operands.len() ==> (#[trigger] self.operands[i]).wf()
        &&& 1 <= self.length <= 15
    }
}

/// A decoded instruction.
#[derive(Clone, Debug, PartialEq, Eq)]
pub struct Instruction {
    pub mnemonic: Mnemonic,
    /// The operands in the order in which they are written.
    pub operands: Vec<Operand>,
    /// The width that a memory operand is announced with, where no register
    /// operand implies it.
    pub size_hint: Option<Width>,
    /// The number of bytes that encode the instruction.
    pub length: u8,
}

impl View for Instruction {
    type V = InstructionView;

    open spec fn view(&self) -> InstructionView {
        InstructionView {
            mnemonic: self.mnemonic,
            operands: self.operands@,
            size_hint: self.size_hint,
            length: self.length as int,
        }
    }
}

impl Instruction {
    /// The number of bytes that encode the instruction.
    pub fn len(&self) -> (n: usize)
        ensures
            n == self@.length,
    {
        self.length as usize
    }
}

} // verus!
