//! The opcode resolver: from the opcode to its template.
//!
//! The one-byte map and the map behind the escape byte `0f` are tables of
//! templates. An opcode outside them is either one that encodes nothing in
//! 64-bit mode, or one of an extension that this decoder leaves aside.

use vstd::prelude::*;
use crate::error::{DecodeError, same_step};
use crate::instruction::{Condition, Mnemonic, StringOperation};
use crate::prefix::PrefixState;
use crate::registers::{Register, RegisterBank, Width};
use crate::template::{
    Group,
    ImmediateRule,
    MnemonicRule,
    OpcodeTemplate,
    Slot,
    WidthRule,
    template,
};

verus! {

/// The template of an instruction without operands.
pub open spec fn plain_spec(m: Mnemonic, width: WidthRule) -> OpcodeTemplate {
    template(MnemonicRule::Fixed(m), width, Slot::Absent, Slot::Absent, Slot::Absent)
}

/// The template of an instruction without operands.
#[verifier::when_used_as_spec(plain_spec)]
pub fn plain(m: Mnemonic, width: WidthRule) -> (t: OpcodeTemplate)
    ensures
        t == plain_spec(m, width),
{
    template(MnemonicRule::Fixed(m), width, Slot::Absent, Slot::Absent, Slot::Absent)
}

/// The template of an instruction with one operand.
pub open spec fn unary_spec(m: Mnemonic, width: WidthRule, first: Slot) -> OpcodeTemplate {
    template(MnemonicRule::Fixed(m), width, first, Slot::Absent, Slot::Absent)
}

/// The template of an instruction with one operand.
#[verifier::when_used_as_spec(unary_spec)]
pub fn unary(m: Mnemonic, width: WidthRule, first: Slot) -> (t: OpcodeTemplate)
    ensures
        t == unary_spec(m, width, first),
{
    template(MnemonicRule::Fixed(m), width, first, Slot::Absent, Slot::Absent)
}

/// The template of an instruction with two operands.
pub open spec fn binary_spec(
    m: Mnemonic,
    width: WidthRule,
    first: Slot,
    second: Slot,
) -> OpcodeTemplate {
    template(MnemonicRule::Fixed(m), width, first, second, Slot::Absent)
}

/// The template of an instruction with two operands.
#[verifier::when_used_as_spec(binary_spec)]
pub fn binary(m: Mnemonic, width: WidthRule, first: Slot, second: Slot) -> (t: OpcodeTemplate)
    ensures
        t == binary_spec(m, width, first, second),
{
    template(MnemonicRule::Fixed(m), width, first, second, Slot::Absent)
}

/// The template of an instruction with three operands.
pub open spec fn ternary_spec(
    m: Mnemonic,
    width: WidthRule,
    first: Slot,
    second: Slot,
    third: Slot,
) -> OpcodeTemplate {
    template(MnemonicRule::Fixed(m), width, first, second, third)
}

/// The template of an instruction with three operands.
#[verifier::when_used_as_spec(ternary_spec)]
pub fn ternary(m: Mnemonic, width: WidthRule, first: Slot, second: Slot, third: Slot) -> (t:
    OpcodeTemplate)
    ensures
        t == ternary_spec(m, width, first, second, third),
{
    template(MnemonicRule::Fixed(m), width, first, second, third)
}

/// The provisional template of a group opcode: the reg field of the ModRM
/// byte has yet to choose the instruction.
pub open spec fn grouped_spec(
    g: Group,
    width: WidthRule,
    first: Slot,
    second: Slot,
) -> OpcodeTemplate {
    template(MnemonicRule::Group(g), width, first, second, Slot::Absent)
}

/// The provisional template of a group opcode: the reg field of the ModRM
/// byte has yet to choose the instruction.
#[verifier::when_used_as_spec(grouped_spec)]
pub fn grouped(g: Group, width: WidthRule, first: Slot, second: Slot) -> (t: OpcodeTemplate)
    ensures
        t == grouped_spec(g, width, first, second),
{
    template(MnemonicRule::Group(g), width, first, second, Slot::Absent)
}

/// The template of an instruction without operands whose mnemonic goes by
/// the operand width.
pub open spec fn sized_spec(
    word: Mnemonic,
    dword: Mnemonic,
    qword: Mnemonic,
    width: WidthRule,
) -> OpcodeTemplate {
    template(
        MnemonicRule::ByWidth(word, dword, qword),
        width,
        Slot::Absent,
        Slot::Absent,
        Slot::Absent,
    )
}

/// The template of an instruction without operands whose mnemonic goes by
/// the operand width.
#[verifier::when_used_as_spec(sized_spec)]
pub fn sized(word: Mnemonic, dword: Mnemonic, qword: Mnemonic, width: WidthRule) -> (t:
    OpcodeTemplate)
    ensures
        t == sized_spec(word, dword, qword, width),
{
    template(
        MnemonicRule::ByWidth(word, dword, qword),
        width,
        Slot::Absent,
        Slot::Absent,
        Slot::Absent,
    )
}

/// The eight arithmetic instructions, in the order of their encoding.
pub open spec fn arithmetic_spec(code: u8) -> Mnemonic {
    if code == 0 {
        Mnemonic::Add
    } else if code == 1 {
        Mnemonic::Or
    } else if code == 2 {
        Mnemonic::Adc
    } else if code == 3 {
        Mnemonic::Sbb
    } else if code == 4 {
        Mnemonic::And
    } else if code == 5 {
        Mnemonic::Sub
    } else if code == 6 {
        Mnemonic::Xor
    } else {
        Mnemonic::Cmp
    }
}

/// The eight arithmetic instructions, in the order of their encoding.
#[verifier::when_used_as_spec(arithmetic_spec)]
pub fn arithmetic(code: u8) -> (m: Mnemonic)
    ensures
        m == arithmetic_spec(code),
{
    match code {
        0 => Mnemonic::Add,
        1 => Mnemonic::Or,
        2 => Mnemonic::Adc,
        3 => Mnemonic::Sbb,
        4 => Mnemonic::And,
        5 => Mnemonic::Sub,
        6 => Mnemonic::Xor,
        _ => Mnemonic::Cmp,
    }
}

/// The eight rotates and shifts, in the order of their encoding.
pub open spec fn shift_spec(code: u8) -> Mnemonic {
    if code == 0 {
        Mnemonic::Rol
    } else if code == 1 {
        Mnemonic::Ror
    } else if code == 2 {
        Mnemonic::Rcl
    } else if code == 3 {
        Mnemonic::Rcr
    } else if code == 4 {
        Mnemonic::Shl
    } else if code == 5 {
        Mnemonic::Shr
    } else if code == 6 {
        Mnemonic::Sal
    } else {
        Mnemonic::Sar
    }
}

/// The eight rotates and shifts, in the order of their encoding.
#[verifier::when_used_as_spec(shift_spec)]
pub fn shift(code: u8) -> (m: Mnemonic)
    ensures
        m == shift_spec(code),
{
    match code {
        0 => Mnemonic::Rol,
        1 => Mnemonic::Ror,
        2 => Mnemonic::Rcl,
        3 => Mnemonic::Rcr,
        4 => Mnemonic::Shl,
        5 => Mnemonic::Shr,
        6 => Mnemonic::Sal,
        _ => Mnemonic::Sar,
    }
}

/// The template of an opcode below `40`. The opcode is an arithmetic
/// instruction, eight opcodes to each, and one of six operand forms; the
/// two opcodes left in each eight encode nothing in 64-bit mode.
pub open spec fn arithmetic_row_spec(op: u8) -> Result<OpcodeTemplate, DecodeError> {
    let m = arithmetic(op / 8);
    let form = op % 8;
    if form == 0 {
        Ok(binary(m, WidthRule::Byte, Slot::Rm, Slot::Reg))
    } else if form == 1 {
        Ok(binary(m, WidthRule::General, Slot::Rm, Slot::Reg))
    } else if form == 2 {
        Ok(binary(m, WidthRule::Byte, Slot::Reg, Slot::Rm))
    } else if form == 3 {
        Ok(binary(m, WidthRule::General, Slot::Reg, Slot::Rm))
    } else if form == 4 {
        Ok(binary(m, WidthRule::Byte, Slot::Accumulator, Slot::Immediate(ImmediateRule::Natural)))
    } else if form == 5 {
        Ok(
            binary(
                m,
                WidthRule::General,
                Slot::Accumulator,
                Slot::Immediate(ImmediateRule::Natural),
            ),
        )
    } else {
        Err(DecodeError::UnassignedOpcode)
    }
}

/// The template of an opcode below `40`.
#[verifier::when_used_as_spec(arithmetic_row_spec)]
pub fn arithmetic_row(op: u8) -> (r: Result<OpcodeTemplate, DecodeError>)
    ensures
        r == arithmetic_row_spec(op),
{
    let m = arithmetic(op / 8);
    match op % 8 {
        0 => Ok(binary(m, WidthRule::Byte, Slot::Rm, Slot::Reg)),
        1 => Ok(binary(m, WidthRule::General, Slot::Rm, Slot::Reg)),
        2 => Ok(binary(m, WidthRule::Byte, Slot::Reg, Slot::Rm)),
        3 => Ok(binary(m, WidthRule::General, Slot::Reg, Slot::Rm)),
        4 => Ok(
            binary(
                m,
                WidthRule::Byte,
                Slot::Accumulator,
                Slot::Immediate(ImmediateRule::Natural),
            ),
        ),
        5 => Ok(
            binary(m, WidthRule::General, Slot::Accumulator, Slot::Immediate(ImmediateRule::Natural)),
        ),
        _ => Err(DecodeError::UnassignedOpcode),
    }
}

/// Whether the one-byte opcode belongs to an extension that is left aside:
/// the VEX and EVEX prefixes and the x87 escapes.
pub open spec fn one_byte_out_of_scope(op: u8) -> bool {
    op == 0x62 || op == 0xc4 || op == 0xc5 || 0xd8 <= op <= 0xdf
}

/// Whether the opcode behind `0f` belongs to what is left aside: system
/// instructions, hints, the vector extensions and the further escapes. The
/// ranges are those of the opcode map, and take in the few reserved opcodes
/// that lie inside them.
pub open spec fn two_byte_out_of_scope(op: u8) -> bool {
    op <= 0x03 || op == 0x06 || op == 0x08 || op == 0x09 || 0x0d <= op <= 0x1e || 0x28 <= op
        <= 0x2f || 0x33 <= op <= 0x35 || op == 0x37 || op == 0x38 || op == 0x3a || 0x50 <= op
        <= 0x7f || op == 0xaa || op == 0xae || op == 0xb2 || op == 0xb4 || op == 0xb5 || op
        == 0xb8 || op == 0xb9 || 0xc2 <= op <= 0xc7 || 0xd0 <= op
}

/// The template of an opcode of the one-byte map. `p` matters to `90`
/// alone, which is `nop` unless REX.B makes it an exchange with `r8`. The
/// bytes that are prefixes have no row: the scanner has taken them.
pub open spec fn one_byte_template_spec(op: u8, p: PrefixState) -> Result<
    OpcodeTemplate,
    DecodeError,
> {
    if op < 0x40 {
        arithmetic_row(op)
    } else if 0x50 <= op <= 0x57 {
        Ok(unary(Mnemonic::Push, WidthRule::Stack, Slot::OpcodeReg(op % 8)))
    } else if 0x58 <= op <= 0x5f {
        Ok(unary(Mnemonic::Pop, WidthRule::Stack, Slot::OpcodeReg(op % 8)))
    } else if op == 0x63 {
        Ok(binary(Mnemonic::Movsxd, WidthRule::General, Slot::Reg, Slot::RmOf(Width::Dword)))
    } else if op == 0x68 {
        Ok(unary(Mnemonic::Push, WidthRule::Stack, Slot::Immediate(ImmediateRule::Natural)))
    } else if op == 0x69 {
        Ok(
            ternary(
                Mnemonic::Imul,
                WidthRule::General,
                Slot::Reg,
                Slot::Rm,
                Slot::Immediate(ImmediateRule::Natural),
            ),
        )
    } else if op == 0x6a {
        Ok(unary(Mnemonic::Push, WidthRule::Stack, Slot::Immediate(ImmediateRule::SignedByte)))
    } else if op == 0x6b {
        Ok(
            ternary(
                Mnemonic::Imul,
                WidthRule::General,
                Slot::Reg,
                Slot::Rm,
                Slot::Immediate(ImmediateRule::SignedByte),
            ),
        )
    } else if op == 0x6c {
        Ok(plain(Mnemonic::String(StringOperation::Ins, Width::Byte), WidthRule::Byte))
    } else if op == 0x6d {
        Ok(
            sized(
                Mnemonic::String(StringOperation::Ins, Width::Word),
                Mnemonic::String(StringOperation::Ins, Width::Dword),
                Mnemonic::String(StringOperation::Ins, Width::Dword),
                WidthRule::Narrow,
            ),
        )
    } else if op == 0x6e {
        Ok(plain(Mnemonic::String(StringOperation::Outs, Width::Byte), WidthRule::Byte))
    } else if op == 0x6f {
        Ok(
            sized(
                Mnemonic::String(StringOperation::Outs, Width::Word),
                Mnemonic::String(StringOperation::Outs, Width::Dword),
                Mnemonic::String(StringOperation::Outs, Width::Dword),
                WidthRule::Narrow,
            ),
        )
    } else if 0x70 <= op <= 0x7f {
        Ok(
            unary(
                Mnemonic::Jcc(Condition::from_code(op % 16)),
                WidthRule::Stack,
                Slot::Relative(Width::Byte),
            ),
        )
    } else if op == 0x80 {
        Ok(
            grouped(
                Group::Arithmetic,
                WidthRule::Byte,
                Slot::Rm,
                Slot::Immediate(ImmediateRule::Natural),
            ),
        )
    } else if op == 0x81 {
        Ok(
            grouped(
                Group::Arithmetic,
                WidthRule::General,
                Slot::Rm,
                Slot::Immediate(ImmediateRule::Natural),
            ),
        )
    } else if op == 0x83 {
        Ok(
            grouped(
                Group::Arithmetic,
                WidthRule::General,
                Slot::Rm,
                Slot::Immediate(ImmediateRule::SignedByte),
            ),
        )
    } else if op == 0x84 {
        Ok(binary(Mnemonic::Test, WidthRule::Byte, Slot::Rm, Slot::Reg))
    } else if op == 0x85 {
        Ok(binary(Mnemonic::Test, WidthRule::General, Slot::Rm, Slot::Reg))
    } else if op == 0x86 {
        Ok(binary(Mnemonic::Xchg, WidthRule::Byte, Slot::Rm, Slot::Reg))
    } else if op == 0x87 {
        Ok(binary(Mnemonic::Xchg, WidthRule::General, Slot::Rm, Slot::Reg))
    } else if op == 0x88 {
        Ok(binary(Mnemonic::Mov, WidthRule::Byte, Slot::Rm, Slot::Reg))
    } else if op == 0x89 {
        Ok(binary(Mnemonic::Mov, WidthRule::General, Slot::Rm, Slot::Reg))
    } else if op == 0x8a {
        Ok(binary(Mnemonic::Mov, WidthRule::Byte, Slot::Reg, Slot::Rm))
    } else if op == 0x8b {
        Ok(binary(Mnemonic::Mov, WidthRule::General, Slot::Reg, Slot::Rm))
    } else if op == 0x8c {
        Ok(binary(Mnemonic::Mov, WidthRule::General, Slot::Rm, Slot::SegmentReg))
    } else if op == 0x8d {
        Ok(binary(Mnemonic::Lea, WidthRule::General, Slot::Reg, Slot::RmMemory))
    } else if op == 0x8e {
        Ok(binary(Mnemonic::Mov, WidthRule::General, Slot::SegmentReg, Slot::RmOf(Width::Word)))
    } else if op == 0x8f {
        Ok(grouped(Group::Pop, WidthRule::Stack, Slot::Rm, Slot::Absent))
    } else if op == 0x90 {
        if p.rex_b {
            Ok(
                binary(
                    Mnemonic::Xchg,
                    WidthRule::General,
                    Slot::OpcodeReg(op % 8),
                    Slot::Accumulator,
                ),
            )
        } else {
            Ok(plain(Mnemonic::Nop, WidthRule::General))
        }
    } else if 0x91 <= op <= 0x97 {
        Ok(binary(Mnemonic::Xchg, WidthRule::General, Slot::OpcodeReg(op % 8), Slot::Accumulator))
    } else if op == 0x98 {
        Ok(sized(Mnemonic::Cbw, Mnemonic::Cwde, Mnemonic::Cdqe, WidthRule::General))
    } else if op == 0x99 {
        Ok(sized(Mnemonic::Cwd, Mnemonic::Cdq, Mnemonic::Cqo, WidthRule::General))
    } else if op == 0x9b {
        Ok(plain(Mnemonic::Wait, WidthRule::General))
    } else if op == 0x9c {
        Ok(plain(Mnemonic::Pushf, WidthRule::Stack))
    } else if op == 0x9d {
        Ok(plain(Mnemonic::Popf, WidthRule::Stack))
    } else if op == 0x9e {
        Ok(plain(Mnemonic::Sahf, WidthRule::General))
    } else if op == 0x9f {
        Ok(plain(Mnemonic::Lahf, WidthRule::General))
    } else if op == 0xa0 {
        Ok(binary(Mnemonic::Mov, WidthRule::Byte, Slot::Accumulator, Slot::Offset))
    } else if op == 0xa1 {
        Ok(binary(Mnemonic::Mov, WidthRule::General, Slot::Accumulator, Slot::Offset))
    } else if op == 0xa2 {
        Ok(binary(Mnemonic::Mov, WidthRule::Byte, Slot::Offset, Slot::Accumulator))
    } else if op == 0xa3 {
        Ok(binary(Mnemonic::Mov, WidthRule::General, Slot::Offset, Slot::Accumulator))
    } else if op == 0xa4 {
        Ok(plain(Mnemonic::String(StringOperation::Movs, Width::Byte), WidthRule::Byte))
    } else if op == 0xa5 {
        Ok(
            sized(
                Mnemonic::String(StringOperation::Movs, Width::Word),
                Mnemonic::String(StringOperation::Movs, Width::Dword),
                Mnemonic::String(StringOperation::Movs, Width::Qword),
                WidthRule::General,
            ),
        )
    } else if op == 0xa6 {
        Ok(plain(Mnemonic::String(StringOperation::Cmps, Width::Byte), WidthRule::Byte))
    } else if op == 0xa7 {
        Ok(
            sized(
                Mnemonic::String(StringOperation::Cmps, Width::Word),
                Mnemonic::String(StringOperation::Cmps, Width::Dword),
                Mnemonic::String(StringOperation::Cmps, Width::Qword),
                WidthRule::General,
            ),
        )
    } else if op == 0xa8 {
        Ok(
            binary(
                Mnemonic::Test,
                WidthRule::Byte,
                Slot::Accumulator,
                Slot::Immediate(ImmediateRule::Natural),
            ),
        )
    } else if op == 0xa9 {
        Ok(
            binary(
                Mnemonic::Test,
                WidthRule::General,
                Slot::Accumulator,
                Slot::Immediate(ImmediateRule::Natural),
            ),
        )
    } else if op == 0xaa {
        Ok(plain(Mnemonic::String(StringOperation::Stos, Width::Byte), WidthRule::Byte))
    } else if op == 0xab {
        Ok(
            sized(
                Mnemonic::String(StringOperation::Stos, Width::Word),
                Mnemonic::String(StringOperation::Stos, Width::Dword),
                Mnemonic::String(StringOperation::Stos, Width::Qword),
                WidthRule::General,
            ),
        )
    } else if op == 0xac {
        Ok(plain(Mnemonic::String(StringOperation::Lods, Width::Byte), WidthRule::Byte))
    } else if op == 0xad {
        Ok(
            sized(
                Mnemonic::String(StringOperation::Lods, Width::Word),
                Mnemonic::String(StringOperation::Lods, Width::Dword),
                Mnemonic::String(StringOperation::Lods, Width::Qword),
                WidthRule::General,
            ),
        )
    } else if op == 0xae {
        Ok(plain(Mnemonic::String(StringOperation::Scas, Width::Byte), WidthRule::Byte))
    } else if op == 0xaf {
        Ok(
            sized(
                Mnemonic::String(StringOperation::Scas, Width::Word),
                Mnemonic::String(StringOperation::Scas, Width::Dword),
                Mnemonic::String(StringOperation::Scas, Width::Qword),
                WidthRule::General,
            ),
        )
    } else if 0xb0 <= op <= 0xb7 {
        Ok(
            binary(
                Mnemonic::Mov,
                WidthRule::Byte,
                Slot::OpcodeReg(op % 8),
                Slot::Immediate(ImmediateRule::Full),
            ),
        )
    } else if 0xb8 <= op <= 0xbf {
        Ok(
            binary(
                Mnemonic::Mov,
                WidthRule::General,
                Slot::OpcodeReg(op % 8),
                Slot::Immediate(ImmediateRule::Full),
            ),
        )
    } else if op == 0xc0 {
        Ok(
            grouped(
                Group::Shift,
                WidthRule::Byte,
                Slot::Rm,
                Slot::Immediate(ImmediateRule::UnsignedByte),
            ),
        )
    } else if op == 0xc1 {
        Ok(
            grouped(
                Group::Shift,
                WidthRule::General,
                Slot::Rm,
                Slot::Immediate(ImmediateRule::UnsignedByte),
            ),
        )
    } else if op == 0xc2 {
        Ok(unary(Mnemonic::Ret, WidthRule::Stack, Slot::Immediate(ImmediateRule::UnsignedWord)))
    } else if op == 0xc3 {
        Ok(plain(Mnemonic::Ret, WidthRule::Stack))
    } else if op == 0xc6 {
        Ok(grouped(Group::Move, WidthRule::Byte, Slot::Rm, Slot::Immediate(ImmediateRule::Natural)))
    } else if op == 0xc7 {
        Ok(
            grouped(
                Group::Move,
                WidthRule::General,
                Slot::Rm,
                Slot::Immediate(ImmediateRule::Natural),
            ),
        )
    } else if op == 0xc8 {
        Ok(
            binary(
                Mnemonic::Enter,
                WidthRule::Stack,
                Slot::Immediate(ImmediateRule::UnsignedWord),
                Slot::Immediate(ImmediateRule::UnsignedByte),
            ),
        )
    } else if op == 0xc9 {
        Ok(plain(Mnemonic::Leave, WidthRule::Stack))
    } else if op == 0xca {
        Ok(unary(Mnemonic::Retf, WidthRule::General, Slot::Immediate(ImmediateRule::UnsignedWord)))
    } else if op == 0xcb {
        Ok(plain(Mnemonic::Retf, WidthRule::General))
    } else if op == 0xcc {
        Ok(plain(Mnemonic::Int3, WidthRule::General))
    } else if op == 0xcd {
        Ok(unary(Mnemonic::Int, WidthRule::General, Slot::Immediate(ImmediateRule::UnsignedByte)))
    } else if op == 0xcf {
        Ok(plain(Mnemonic::Iret, WidthRule::General))
    } else if op == 0xd0 {
        Ok(grouped(Group::Shift, WidthRule::Byte, Slot::Rm, Slot::One))
    } else if op == 0xd1 {
        Ok(grouped(Group::Shift, WidthRule::General, Slot::Rm, Slot::One))
    } else if op == 0xd2 {
        Ok(
            grouped(
                Group::Shift,
                WidthRule::Byte,
                Slot::Rm,
                Slot::Fixed(Register { bank: RegisterBank::ByteLow, index: 1 }),
            ),
        )
    } else if op == 0xd3 {
        Ok(
            grouped(
                Group::Shift,
                WidthRule::General,
                Slot::Rm,
                Slot::Fixed(Register { bank: RegisterBank::ByteLow, index: 1 }),
            ),
        )
    } else if op == 0xd7 {
        Ok(plain(Mnemonic::Xlat, WidthRule::General))
    } else if op == 0xe0 {
        Ok(unary(Mnemonic::Loopnz, WidthRule::Stack, Slot::Relative(Width::Byte)))
    } else if op == 0xe1 {
        Ok(unary(Mnemonic::Loopz, WidthRule::Stack, Slot::Relative(Width::Byte)))
    } else if op == 0xe2 {
        Ok(unary(Mnemonic::Loop, WidthRule::Stack, Slot::Relative(Width::Byte)))
    } else if op == 0xe3 {
        Ok(unary(Mnemonic::Jrcxz, WidthRule::Stack, Slot::Relative(Width::Byte)))
    } else if op == 0xe4 {
        Ok(
            binary(
                Mnemonic::In,
                WidthRule::Byte,
                Slot::Accumulator,
                Slot::Immediate(ImmediateRule::UnsignedByte),
            ),
        )
    } else if op == 0xe5 {
        Ok(
            binary(
                Mnemonic::In,
                WidthRule::Narrow,
                Slot::Accumulator,
                Slot::Immediate(ImmediateRule::UnsignedByte),
            ),
        )
    } else if op == 0xe6 {
        Ok(
            binary(
                Mnemonic::Out,
                WidthRule::Byte,
                Slot::Immediate(ImmediateRule::UnsignedByte),
                Slot::Accumulator,
            ),
        )
    } else if op == 0xe7 {
        Ok(
            binary(
                Mnemonic::Out,
                WidthRule::Narrow,
                Slot::Immediate(ImmediateRule::UnsignedByte),
                Slot::Accumulator,
            ),
        )
    } else if op == 0xe8 {
        Ok(unary(Mnemonic::Call, WidthRule::Stack, Slot::Relative(Width::Dword)))
    } else if op == 0xe9 {
        Ok(unary(Mnemonic::Jmp, WidthRule::Stack, Slot::Relative(Width::Dword)))
    } else if op == 0xeb {
        Ok(unary(Mnemonic::Jmp, WidthRule::Stack, Slot::Relative(Width::Byte)))
    } else if op == 0xec {
        Ok(
            binary(
                Mnemonic::In,
                WidthRule::Byte,
                Slot::Accumulator,
                Slot::Fixed(Register { bank: RegisterBank::Word, index: 2 }),
            ),
        )
    } else if op == 0xed {
        Ok(
            binary(
                Mnemonic::In,
                WidthRule::Narrow,
                Slot::Accumulator,
                Slot::Fixed(Register { bank: RegisterBank::Word, index: 2 }),
            ),
        )
    } else if op == 0xee {
        Ok(
            binary(
                Mnemonic::Out,
                WidthRule::Byte,
                Slot::Fixed(Register { bank: RegisterBank::Word, index: 2 }),
                Slot::Accumulator,
            ),
        )
    } else if op == 0xef {
        Ok(
            binary(
                Mnemonic::Out,
                WidthRule::Narrow,
                Slot::Fixed(Register { bank: RegisterBank::Word, index: 2 }),
                Slot::Accumulator,
            ),
        )
    } else if op == 0xf1 {
        Ok(plain(Mnemonic::Int1, WidthRule::General))
    } else if op == 0xf4 {
        Ok(plain(Mnemonic::Hlt, WidthRule::General))
    } else if op == 0xf5 {
        Ok(plain(Mnemonic::Cmc, WidthRule::General))
    } else if op == 0xf6 {
        Ok(
            grouped(
                Group::Unary,
                WidthRule::Byte,
                Slot::Rm,
                Slot::Immediate(ImmediateRule::Natural),
            ),
        )
    } else if op == 0xf7 {
        Ok(
            grouped(
                Group::Unary,
                WidthRule::General,
                Slot::Rm,
                Slot::Immediate(ImmediateRule::Natural),
            ),
        )
    } else if op == 0xf8 {
        Ok(plain(Mnemonic::Clc, WidthRule::General))
    } else if op == 0xf9 {
        Ok(plain(Mnemonic::Stc, WidthRule::General))
    } else if op == 0xfa {
        Ok(plain(Mnemonic::Cli, WidthRule::General))
    } else if op == 0xfb {
        Ok(plain(Mnemonic::Sti, WidthRule::General))
    } else if op == 0xfc {
        Ok(plain(Mnemonic::Cld, WidthRule::General))
    } else if op == 0xfd {
        Ok(plain(Mnemonic::Std, WidthRule::General))
    } else if op == 0xfe {
        Ok(grouped(Group::Step, WidthRule::Byte, Slot::Rm, Slot::Absent))
    } else if op == 0xff {
        Ok(grouped(Group::Indirect, WidthRule::General, Slot::Rm, Slot::Absent))
    } else if one_byte_out_of_scope(op) {
        Err(DecodeError::UnsupportedEncoding)
    } else {
        Err(DecodeError::UnassignedOpcode)
    }
}

/// The template of an opcode of the one-byte map.
pub fn one_byte_template(op: u8, p: &PrefixState) -> (r: Result<OpcodeTemplate, DecodeError>)
    ensures
        r == one_byte_template_spec(op, *p),
{
    match op {
        0x00..=0x3f => arithmetic_row(op),
        0x50..=0x57 => Ok(unary(Mnemonic::Push, WidthRule::Stack, Slot::OpcodeReg(op % 8))),
        0x58..=0x5f => Ok(unary(Mnemonic::Pop, WidthRule::Stack, Slot::OpcodeReg(op % 8))),
        0x63 => Ok(
            binary(
                Mnemonic::Movsxd,
                WidthRule::General,
                Slot::Reg,
                Slot::RmOf(Width::Dword),
            ),
        ),
        0x68 => Ok(
            unary(
                Mnemonic::Push,
                WidthRule::Stack,
                Slot::Immediate(ImmediateRule::Natural),
            ),
        ),
        0x69 => Ok(
            ternary(
                Mnemonic::Imul,
                WidthRule::General,
                Slot::Reg,
                Slot::Rm,
                Slot::Immediate(ImmediateRule::Natural),
            ),
        ),
        0x6a => Ok(
            unary(
                Mnemonic::Push,
                WidthRule::Stack,
                Slot::Immediate(ImmediateRule::SignedByte),
            ),
        ),
        0x6b => Ok(
            ternary(
                Mnemonic::Imul,
                WidthRule::General,
                Slot::Reg,
                Slot::Rm,
                Slot::Immediate(ImmediateRule::SignedByte),
            ),
        ),
        0x6c => Ok(plain(Mnemonic::String(StringOperation::Ins, Width::Byte), WidthRule::Byte)),
        0x6d => Ok(
            sized(
                Mnemonic::String(StringOperation::Ins, Width::Word),
                Mnemonic::String(StringOperation::Ins, Width::Dword),
                Mnemonic::String(StringOperation::Ins, Width::Dword),
                WidthRule::Narrow,
            ),
        ),
        0x6e => Ok(plain(Mnemonic::String(StringOperation::Outs, Width::Byte), WidthRule::Byte)),
        0x6f => Ok(
            sized(
                Mnemonic::String(StringOperation::Outs, Width::Word),
                Mnemonic::String(StringOperation::Outs, Width::Dword),
                Mnemonic::String(StringOperation::Outs, Width::Dword),
                WidthRule::Narrow,
            ),
        ),
        0x70..=0x7f => Ok(
            unary(
                Mnemonic::Jcc(Condition::from_code(op % 16)),
                WidthRule::Stack,
                Slot::Relative(Width::Byte),
            ),
        ),
        0x80 => Ok(
            grouped(
                Group::Arithmetic,
                WidthRule::Byte,
                Slot::Rm,
                Slot::Immediate(ImmediateRule::Natural),
            ),
        ),
        0x81 => Ok(
            grouped(
                Group::Arithmetic,
                WidthRule::General,
                Slot::Rm,
                Slot::Immediate(ImmediateRule::Natural),
            ),
        ),
        0x83 => Ok(
            grouped(
                Group::Arithmetic,
                WidthRule::General,
                Slot::Rm,
                Slot::Immediate(ImmediateRule::SignedByte),
            ),
        ),
        0x84 => Ok(binary(Mnemonic::Test, WidthRule::Byte, Slot::Rm, Slot::Reg)),
        0x85 => Ok(binary(Mnemonic::Test, WidthRule::General, Slot::Rm, Slot::Reg)),
        0x86 => Ok(binary(Mnemonic::Xchg, WidthRule::Byte, Slot::Rm, Slot::Reg)),
        0x87 => Ok(binary(Mnemonic::Xchg, WidthRule::General, Slot::Rm, Slot::Reg)),
        0x88 => Ok(binary(Mnemonic::Mov, WidthRule::Byte, Slot::Rm, Slot::Reg)),
        0x89 => Ok(binary(Mnemonic::Mov, WidthRule::General, Slot::Rm, Slot::Reg)),
        0x8a => Ok(binary(Mnemonic::Mov, WidthRule::Byte, Slot::Reg, Slot::Rm)),
        0x8b => Ok(binary(Mnemonic::Mov, WidthRule::General, Slot::Reg, Slot::Rm)),
        0x8c => Ok(binary(Mnemonic::Mov, WidthRule::General, Slot::Rm, Slot::SegmentReg)),
        0x8d => Ok(binary(Mnemonic::Lea, WidthRule::General, Slot::Reg, Slot::RmMemory)),
        0x8e => Ok(
            binary(
                Mnemonic::Mov,
                WidthRule::General,
                Slot::SegmentReg,
                Slot::RmOf(Width::Word),
            ),
        ),
        0x8f => Ok(grouped(Group::Pop, WidthRule::Stack, Slot::Rm, Slot::Absent)),
        0x90 => if p.rex_b {
            Ok(
                binary(
                    Mnemonic::Xchg,
                    WidthRule::General,
                    Slot::OpcodeReg(op % 8),
                    Slot::Accumulator,
                ),
            )
        } else {
            Ok(plain(Mnemonic::Nop, WidthRule::General))
        },
        0x91..=0x97 => Ok(
            binary(
                Mnemonic::Xchg,
                WidthRule::General,
                Slot::OpcodeReg(op % 8),
                Slot::Accumulator,
            ),
        ),
        0x98 => Ok(sized(Mnemonic::Cbw, Mnemonic::Cwde, Mnemonic::Cdqe, WidthRule::General)),
        0x99 => Ok(sized(Mnemonic::Cwd, Mnemonic::Cdq, Mnemonic::Cqo, WidthRule::General)),
        0x9b => Ok(plain(Mnemonic::Wait, WidthRule::General)),
        0x9c => Ok(plain(Mnemonic::Pushf, WidthRule::Stack)),
        0x9d => Ok(plain(Mnemonic::Popf, WidthRule::Stack)),
        0x9e => Ok(plain(Mnemonic::Sahf, WidthRule::General)),
        0x9f => Ok(plain(Mnemonic::Lahf, WidthRule::General)),
        0xa0 => Ok(binary(Mnemonic::Mov, WidthRule::Byte, Slot::Accumulator, Slot::Offset)),
        0xa1 => Ok(binary(Mnemonic::Mov, WidthRule::General, Slot::Accumulator, Slot::Offset)),
        0xa2 => Ok(binary(Mnemonic::Mov, WidthRule::Byte, Slot::Offset, Slot::Accumulator)),
        0xa3 => Ok(binary(Mnemonic::Mov, WidthRule::General, Slot::Offset, Slot::Accumulator)),
        0xa4 => Ok(plain(Mnemonic::String(StringOperation::Movs, Width::Byte), WidthRule::Byte)),
        0xa5 => Ok(
            sized(
                Mnemonic::String(StringOperation::Movs, Width::Word),
                Mnemonic::String(StringOperation::Movs, Width::Dword),
                Mnemonic::String(StringOperation::Movs, Width::Qword),
                WidthRule::General,
            ),
        ),
        0xa6 => Ok(plain(Mnemonic::String(StringOperation::Cmps, Width::Byte), WidthRule::Byte)),
        0xa7 => Ok(
            sized(
                Mnemonic::String(StringOperation::Cmps, Width::Word),
                Mnemonic::String(StringOperation::Cmps, Width::Dword),
                Mnemonic::String(StringOperation::Cmps, Width::Qword),
                WidthRule::General,
            ),
        ),
        0xa8 => Ok(
            binary(
                Mnemonic::Test,
                WidthRule::Byte,
                Slot::Accumulator,
                Slot::Immediate(ImmediateRule::Natural),
            ),
        ),
        0xa9 => Ok(
            binary(
                Mnemonic::Test,
                WidthRule::General,
                Slot::Accumulator,
                Slot::Immediate(ImmediateRule::Natural),
            ),
        ),
        0xaa => Ok(plain(Mnemonic::String(StringOperation::Stos, Width::Byte), WidthRule::Byte)),
        0xab => Ok(
            sized(
                Mnemonic::String(StringOperation::Stos, Width::Word),
                Mnemonic::String(StringOperation::Stos, Width::Dword),
                Mnemonic::String(StringOperation::Stos, Width::Qword),
                WidthRule::General,
            ),
        ),
        0xac => Ok(plain(Mnemonic::String(StringOperation::Lods, Width::Byte), WidthRule::Byte)),
        0xad => Ok(
            sized(
                Mnemonic::String(StringOperation::Lods, Width::Word),
                Mnemonic::String(StringOperation::Lods, Width::Dword),
                Mnemonic::String(StringOperation::Lods, Width::Qword),
                WidthRule::General,
            ),
        ),
        0xae => Ok(plain(Mnemonic::String(StringOperation::Scas, Width::Byte), WidthRule::Byte)),
        0xaf => Ok(
            sized(
                Mnemonic::String(StringOperation::Scas, Width::Word),
                Mnemonic::String(StringOperation::Scas, Width::Dword),
                Mnemonic::String(StringOperation::Scas, Width::Qword),
                WidthRule::General,
            ),
        ),
        0xb0..=0xb7 => Ok(
            binary(
                Mnemonic::Mov,
                WidthRule::Byte,
                Slot::OpcodeReg(op % 8),
                Slot::Immediate(ImmediateRule::Full),
            ),
        ),
        0xb8..=0xbf => Ok(
            binary(
                Mnemonic::Mov,
                WidthRule::General,
                Slot::OpcodeReg(op % 8),
                Slot::Immediate(ImmediateRule::Full),
            ),
        ),
        0xc0 => Ok(
            grouped(
                Group::Shift,
                WidthRule::Byte,
                Slot::Rm,
                Slot::Immediate(ImmediateRule::UnsignedByte),
            ),
        ),
        0xc1 => Ok(
            grouped(
                Group::Shift,
                WidthRule::General,
                Slot::Rm,
                Slot::Immediate(ImmediateRule::UnsignedByte),
            ),
        ),
        0xc2 => Ok(
            unary(
                Mnemonic::Ret,
                WidthRule::Stack,
                Slot::Immediate(ImmediateRule::UnsignedWord),
            ),
        ),
        0xc3 => Ok(plain(Mnemonic::Ret, WidthRule::Stack)),
        0xc6 => Ok(
            grouped(
                Group::Move,
                WidthRule::Byte,
                Slot::Rm,
                Slot::Immediate(ImmediateRule::Natural),
            ),
        ),
        0xc7 => Ok(
            grouped(
                Group::Move,
                WidthRule::General,
                Slot::Rm,
                Slot::Immediate(ImmediateRule::Natural),
            ),
        ),
        0xc8 => Ok(
            binary(
                Mnemonic::Enter,
                WidthRule::Stack,
                Slot::Immediate(ImmediateRule::UnsignedWord),
                Slot::Immediate(ImmediateRule::UnsignedByte),
            ),
        ),
        0xc9 => Ok(plain(Mnemonic::Leave, WidthRule::Stack)),
        0xca => Ok(
            unary(
                Mnemonic::Retf,
                WidthRule::General,
                Slot::Immediate(ImmediateRule::UnsignedWord),
            ),
        ),
        0xcb => Ok(plain(Mnemonic::Retf, WidthRule::General)),
        0xcc => Ok(plain(Mnemonic::Int3, WidthRule::General)),
        0xcd => Ok(
            unary(
                Mnemonic::Int,
                WidthRule::General,
                Slot::Immediate(ImmediateRule::UnsignedByte),
            ),
        ),
        0xcf => Ok(plain(Mnemonic::Iret, WidthRule::General)),
        0xd0 => Ok(grouped(Group::Shift, WidthRule::Byte, Slot::Rm, Slot::One)),
        0xd1 => Ok(grouped(Group::Shift, WidthRule::General, Slot::Rm, Slot::One)),
        0xd2 => Ok(
            grouped(
                Group::Shift,
                WidthRule::Byte,
                Slot::Rm,
                Slot::Fixed(Register { bank: RegisterBank::ByteLow, index: 1 }),
            ),
        ),
        0xd3 => Ok(
            grouped(
                Group::Shift,
                WidthRule::General,
                Slot::Rm,
                Slot::Fixed(Register { bank: RegisterBank::ByteLow, index: 1 }),
            ),
        ),
        0xd7 => Ok(plain(Mnemonic::Xlat, WidthRule::General)),
        0xe0 => Ok(unary(Mnemonic::Loopnz, WidthRule::Stack, Slot::Relative(Width::Byte))),
        0xe1 => Ok(unary(Mnemonic::Loopz, WidthRule::Stack, Slot::Relative(Width::Byte))),
        0xe2 => Ok(unary(Mnemonic::Loop, WidthRule::Stack, Slot::Relative(Width::Byte))),
        0xe3 => Ok(unary(Mnemonic::Jrcxz, WidthRule::Stack, Slot::Relative(Width::Byte))),
        0xe4 => Ok(
            binary(
                Mnemonic::In,
                WidthRule::Byte,
                Slot::Accumulator,
                Slot::Immediate(ImmediateRule::UnsignedByte),
            ),
        ),
        0xe5 => Ok(
            binary(
                Mnemonic::In,
                WidthRule::Narrow,
                Slot::Accumulator,
                Slot::Immediate(ImmediateRule::UnsignedByte),
            ),
        ),
        0xe6 => Ok(
            binary(
                Mnemonic::Out,
                WidthRule::Byte,
                Slot::Immediate(ImmediateRule::UnsignedByte),
                Slot::Accumulator,
            ),
        ),
        0xe7 => Ok(
            binary(
                Mnemonic::Out,
                WidthRule::Narrow,
                Slot::Immediate(ImmediateRule::UnsignedByte),
                Slot::Accumulator,
            ),
        ),
        0xe8 => Ok(unary(Mnemonic::Call, WidthRule::Stack, Slot::Relative(Width::Dword))),
        0xe9 => Ok(unary(Mnemonic::Jmp, WidthRule::Stack, Slot::Relative(Width::Dword))),
        0xeb => Ok(unary(Mnemonic::Jmp, WidthRule::Stack, Slot::Relative(Width::Byte))),
        0xec => Ok(
            binary(
                Mnemonic::In,
                WidthRule::Byte,
                Slot::Accumulator,
                Slot::Fixed(Register { bank: RegisterBank::Word, index: 2 }),
            ),
        ),
        0xed => Ok(
            binary(
                Mnemonic::In,
                WidthRule::Narrow,
                Slot::Accumulator,
                Slot::Fixed(Register { bank: RegisterBank::Word, index: 2 }),
            ),
        ),
        0xee => Ok(
            binary(
                Mnemonic::Out,
                WidthRule::Byte,
                Slot::Fixed(Register { bank: RegisterBank::Word, index: 2 }),
                Slot::Accumulator,
            ),
        ),
        0xef => Ok(
            binary(
                Mnemonic::Out,
                WidthRule::Narrow,
                Slot::Fixed(Register { bank: RegisterBank::Word, index: 2 }),
                Slot::Accumulator,
            ),
        ),
        0xf1 => Ok(plain(Mnemonic::Int1, WidthRule::General)),
        0xf4 => Ok(plain(Mnemonic::Hlt, WidthRule::General)),
        0xf5 => Ok(plain(Mnemonic::Cmc, WidthRule::General)),
        0xf6 => Ok(
            grouped(
                Group::Unary,
                WidthRule::Byte,
                Slot::Rm,
                Slot::Immediate(ImmediateRule::Natural),
            ),
        ),
        0xf7 => Ok(
            grouped(
                Group::Unary,
                WidthRule::General,
                Slot::Rm,
                Slot::Immediate(ImmediateRule::Natural),
            ),
        ),
        0xf8 => Ok(plain(Mnemonic::Clc, WidthRule::General)),
        0xf9 => Ok(plain(Mnemonic::Stc, WidthRule::General)),
        0xfa => Ok(plain(Mnemonic::Cli, WidthRule::General)),
        0xfb => Ok(plain(Mnemonic::Sti, WidthRule::General)),
        0xfc => Ok(plain(Mnemonic::Cld, WidthRule::General)),
        0xfd => Ok(plain(Mnemonic::Std, WidthRule::General)),
        0xfe => Ok(grouped(Group::Step, WidthRule::Byte, Slot::Rm, Slot::Absent)),
        0xff => Ok(grouped(Group::Indirect, WidthRule::General, Slot::Rm, Slot::Absent)),
        0x62 | 0xc4 | 0xc5 | 0xd8..=0xdf => Err(DecodeError::UnsupportedEncoding),
        _ => Err(DecodeError::UnassignedOpcode),
    }
}

/// The template of an opcode behind the escape byte `0f`.
pub open spec fn two_byte_template_spec(op: u8) -> Result<OpcodeTemplate, DecodeError> {
    if op == 0x05 {
        Ok(plain(Mnemonic::Syscall, WidthRule::General))
    } else if op == 0x07 {
        Ok(plain(Mnemonic::Sysret, WidthRule::General))
    } else if op == 0x0b {
        Ok(plain(Mnemonic::Ud2, WidthRule::General))
    } else if op == 0x1f {
        Ok(unary(Mnemonic::Nop, WidthRule::General, Slot::Rm))
    } else if op == 0x20 {
        Ok(
            binary(
                Mnemonic::Mov,
                WidthRule::Qword,
                Slot::RmRegister(Width::Qword),
                Slot::ControlReg,
            ),
        )
    } else if op == 0x21 {
        Ok(binary(Mnemonic::Mov, WidthRule::Qword, Slot::RmRegister(Width::Qword), Slot::DebugReg))
    } else if op == 0x22 {
        Ok(
            binary(
                Mnemonic::Mov,
                WidthRule::Qword,
                Slot::ControlReg,
                Slot::RmRegister(Width::Qword),
            ),
        )
    } else if op == 0x23 {
        Ok(binary(Mnemonic::Mov, WidthRule::Qword, Slot::DebugReg, Slot::RmRegister(Width::Qword)))
    } else if op == 0x30 {
        Ok(plain(Mnemonic::Wrmsr, WidthRule::General))
    } else if op == 0x31 {
        Ok(plain(Mnemonic::Rdtsc, WidthRule::General))
    } else if op == 0x32 {
        Ok(plain(Mnemonic::Rdmsr, WidthRule::General))
    } else if 0x40 <= op <= 0x4f {
        Ok(
            binary(
                Mnemonic::Cmovcc(Condition::from_code(op % 16)),
                WidthRule::General,
                Slot::Reg,
                Slot::Rm,
            ),
        )
    } else if 0x80 <= op <= 0x8f {
        Ok(
            unary(
                Mnemonic::Jcc(Condition::from_code(op % 16)),
                WidthRule::Stack,
                Slot::Relative(Width::Dword),
            ),
        )
    } else if 0x90 <= op <= 0x9f {
        Ok(unary(Mnemonic::Setcc(Condition::from_code(op % 16)), WidthRule::Byte, Slot::Rm))
    } else if op == 0xa0 {
        Ok(
            unary(
                Mnemonic::Push,
                WidthRule::Stack,
                Slot::Fixed(Register { bank: RegisterBank::Segment, index: 4 }),
            ),
        )
    } else if op == 0xa1 {
        Ok(
            unary(
                Mnemonic::Pop,
                WidthRule::Stack,
                Slot::Fixed(Register { bank: RegisterBank::Segment, index: 4 }),
            ),
        )
    } else if op == 0xa2 {
        Ok(plain(Mnemonic::Cpuid, WidthRule::General))
    } else if op == 0xa3 {
        Ok(binary(Mnemonic::Bt, WidthRule::General, Slot::Rm, Slot::Reg))
    } else if op == 0xa4 {
        Ok(
            ternary(
                Mnemonic::Shld,
                WidthRule::General,
                Slot::Rm,
                Slot::Reg,
                Slot::Immediate(ImmediateRule::UnsignedByte),
            ),
        )
    } else if op == 0xa5 {
        Ok(
            ternary(
                Mnemonic::Shld,
                WidthRule::General,
                Slot::Rm,
                Slot::Reg,
                Slot::Fixed(Register { bank: RegisterBank::ByteLow, index: 1 }),
            ),
        )
    } else if op == 0xa8 {
        Ok(
            unary(
                Mnemonic::Push,
                WidthRule::Stack,
                Slot::Fixed(Register { bank: RegisterBank::Segment, index: 5 }),
            ),
        )
    } else if op == 0xa9 {
        Ok(
            unary(
                Mnemonic::Pop,
                WidthRule::Stack,
                Slot::Fixed(Register { bank: RegisterBank::Segment, index: 5 }),
            ),
        )
    } else if op == 0xab {
        Ok(binary(Mnemonic::Bts, WidthRule::General, Slot::Rm, Slot::Reg))
    } else if op == 0xac {
        Ok(
            ternary(
                Mnemonic::Shrd,
                WidthRule::General,
                Slot::Rm,
                Slot::Reg,
                Slot::Immediate(ImmediateRule::UnsignedByte),
            ),
        )
    } else if op == 0xad {
        Ok(
            ternary(
                Mnemonic::Shrd,
                WidthRule::General,
                Slot::Rm,
                Slot::Reg,
                Slot::Fixed(Register { bank: RegisterBank::ByteLow, index: 1 }),
            ),
        )
    } else if op == 0xaf {
        Ok(binary(Mnemonic::Imul, WidthRule::General, Slot::Reg, Slot::Rm))
    } else if op == 0xb0 {
        Ok(binary(Mnemonic::Cmpxchg, WidthRule::Byte, Slot::Rm, Slot::Reg))
    } else if op == 0xb1 {
        Ok(binary(Mnemonic::Cmpxchg, WidthRule::General, Slot::Rm, Slot::Reg))
    } else if op == 0xb3 {
        Ok(binary(Mnemonic::Btr, WidthRule::General, Slot::Rm, Slot::Reg))
    } else if op == 0xb6 {
        Ok(binary(Mnemonic::Movzx, WidthRule::General, Slot::Reg, Slot::RmOf(Width::Byte)))
    } else if op == 0xb7 {
        Ok(binary(Mnemonic::Movzx, WidthRule::General, Slot::Reg, Slot::RmOf(Width::Word)))
    } else if op == 0xba {
        Ok(
            grouped(
                Group::BitTest,
                WidthRule::General,
                Slot::Rm,
                Slot::Immediate(ImmediateRule::UnsignedByte),
            ),
        )
    } else if op == 0xbb {
        Ok(binary(Mnemonic::Btc, WidthRule::General, Slot::Rm, Slot::Reg))
    } else if op == 0xbc {
        Ok(binary(Mnemonic::Bsf, WidthRule::General, Slot::Reg, Slot::Rm))
    } else if op == 0xbd {
        Ok(binary(Mnemonic::Bsr, WidthRule::General, Slot::Reg, Slot::Rm))
    } else if op == 0xbe {
        Ok(binary(Mnemonic::Movsx, WidthRule::General, Slot::Reg, Slot::RmOf(Width::Byte)))
    } else if op == 0xbf {
        Ok(binary(Mnemonic::Movsx, WidthRule::General, Slot::Reg, Slot::RmOf(Width::Word)))
    } else if op == 0xc0 {
        Ok(binary(Mnemonic::Xadd, WidthRule::Byte, Slot::Rm, Slot::Reg))
    } else if op == 0xc1 {
        Ok(binary(Mnemonic::Xadd, WidthRule::General, Slot::Rm, Slot::Reg))
    } else if 0xc8 <= op <= 0xcf {
        Ok(unary(Mnemonic::Bswap, WidthRule::General, Slot::OpcodeReg(op % 8)))
    } else if two_byte_out_of_scope(op) {
        Err(DecodeError::UnsupportedEncoding)
    } else {
        Err(DecodeError::UnassignedOpcode)
    }
}

/// The template of an opcode behind the escape byte `0f`.
pub fn two_byte_template(op: u8) -> (r: Result<OpcodeTemplate, DecodeError>)
    ensures
        r == two_byte_template_spec(op),
{
    match op {
        0x05 => Ok(plain(Mnemonic::Syscall, WidthRule::General)),
        0x07 => Ok(plain(Mnemonic::Sysret, WidthRule::General)),
        0x0b => Ok(plain(Mnemonic::Ud2, WidthRule::General)),
        0x1f => Ok(unary(Mnemonic::Nop, WidthRule::General, Slot::Rm)),
        0x20 => Ok(
            binary(
                Mnemonic::Mov,
                WidthRule::Qword,
                Slot::RmRegister(Width::Qword),
                Slot::ControlReg,
            ),
        ),
        0x21 => Ok(
            binary(
                Mnemonic::Mov,
                WidthRule::Qword,
                Slot::RmRegister(Width::Qword),
                Slot::DebugReg,
            ),
        ),
        0x22 => Ok(
            binary(
                Mnemonic::Mov,
                WidthRule::Qword,
                Slot::ControlReg,
                Slot::RmRegister(Width::Qword),
            ),
        ),
        0x23 => Ok(
            binary(
                Mnemonic::Mov,
                WidthRule::Qword,
                Slot::DebugReg,
                Slot::RmRegister(Width::Qword),
            ),
        ),
        0x30 => Ok(plain(Mnemonic::Wrmsr, WidthRule::General)),
        0x31 => Ok(plain(Mnemonic::Rdtsc, WidthRule::General)),
        0x32 => Ok(plain(Mnemonic::Rdmsr, WidthRule::General)),
        0x40..=0x4f => Ok(
            binary(
                Mnemonic::Cmovcc(Condition::from_code(op % 16)),
                WidthRule::General,
                Slot::Reg,
                Slot::Rm,
            ),
        ),
        0x80..=0x8f => Ok(
            unary(
                Mnemonic::Jcc(Condition::from_code(op % 16)),
                WidthRule::Stack,
                Slot::Relative(Width::Dword),
            ),
        ),
        0x90..=0x9f => Ok(
            unary(
                Mnemonic::Setcc(Condition::from_code(op % 16)),
                WidthRule::Byte,
                Slot::Rm,
            ),
        ),
        0xa0 => Ok(
            unary(
                Mnemonic::Push,
                WidthRule::Stack,
                Slot::Fixed(Register { bank: RegisterBank::Segment, index: 4 }),
            ),
        ),
        0xa1 => Ok(
            unary(
                Mnemonic::Pop,
                WidthRule::Stack,
                Slot::Fixed(Register { bank: RegisterBank::Segment, index: 4 }),
            ),
        ),
        0xa2 => Ok(plain(Mnemonic::Cpuid, WidthRule::General)),
        0xa3 => Ok(binary(Mnemonic::Bt, WidthRule::General, Slot::Rm, Slot::Reg)),
        0xa4 => Ok(
            ternary(
                Mnemonic::Shld,
                WidthRule::General,
                Slot::Rm,
                Slot::Reg,
                Slot::Immediate(ImmediateRule::UnsignedByte),
            ),
        ),
        0xa5 => Ok(
            ternary(
                Mnemonic::Shld,
                WidthRule::General,
                Slot::Rm,
                Slot::Reg,
                Slot::Fixed(Register { bank: RegisterBank::ByteLow, index: 1 }),
            ),
        ),
        0xa8 => Ok(
            unary(
                Mnemonic::Push,
                WidthRule::Stack,
                Slot::Fixed(Register { bank: RegisterBank::Segment, index: 5 }),
            ),
        ),
        0xa9 => Ok(
            unary(
                Mnemonic::Pop,
                WidthRule::Stack,
                Slot::Fixed(Register { bank: RegisterBank::Segment, index: 5 }),
            ),
        ),
        0xab => Ok(binary(Mnemonic::Bts, WidthRule::General, Slot::Rm, Slot::Reg)),
        0xac => Ok(
            ternary(
                Mnemonic::Shrd,
                WidthRule::General,
                Slot::Rm,
                Slot::Reg,
                Slot::Immediate(ImmediateRule::UnsignedByte),
            ),
        ),
        0xad => Ok(
            ternary(
                Mnemonic::Shrd,
                WidthRule::General,
                Slot::Rm,
                Slot::Reg,
                Slot::Fixed(Register { bank: RegisterBank::ByteLow, index: 1 }),
            ),
        ),
        0xaf => Ok(binary(Mnemonic::Imul, WidthRule::General, Slot::Reg, Slot::Rm)),
        0xb0 => Ok(binary(Mnemonic::Cmpxchg, WidthRule::Byte, Slot::Rm, Slot::Reg)),
        0xb1 => Ok(binary(Mnemonic::Cmpxchg, WidthRule::General, Slot::Rm, Slot::Reg)),
        0xb3 => Ok(binary(Mnemonic::Btr, WidthRule::General, Slot::Rm, Slot::Reg)),
        0xb6 => Ok(binary(Mnemonic::Movzx, WidthRule::General, Slot::Reg, Slot::RmOf(Width::Byte))),
        0xb7 => Ok(binary(Mnemonic::Movzx, WidthRule::General, Slot::Reg, Slot::RmOf(Width::Word))),
        0xba => Ok(
            grouped(
                Group::BitTest,
                WidthRule::General,
                Slot::Rm,
                Slot::Immediate(ImmediateRule::UnsignedByte),
            ),
        ),
        0xbb => Ok(binary(Mnemonic::Btc, WidthRule::General, Slot::Rm, Slot::Reg)),
        0xbc => Ok(binary(Mnemonic::Bsf, WidthRule::General, Slot::Reg, Slot::Rm)),
        0xbd => Ok(binary(Mnemonic::Bsr, WidthRule::General, Slot::Reg, Slot::Rm)),
        0xbe => Ok(binary(Mnemonic::Movsx, WidthRule::General, Slot::Reg, Slot::RmOf(Width::Byte))),
        0xbf => Ok(binary(Mnemonic::Movsx, WidthRule::General, Slot::Reg, Slot::RmOf(Width::Word))),
        0xc0 => Ok(binary(Mnemonic::Xadd, WidthRule::Byte, Slot::Rm, Slot::Reg)),
        0xc1 => Ok(binary(Mnemonic::Xadd, WidthRule::General, Slot::Rm, Slot::Reg)),
        0xc8..=0xcf => Ok(unary(Mnemonic::Bswap, WidthRule::General, Slot::OpcodeReg(op % 8))),
        0x00..=0x03 | 0x06 | 0x08 | 0x09 | 0x0d..=0x1e | 0x28..=0x2f | 0x33..=0x35 | 0x37 | 0x38
        | 0x3a | 0x50..=0x7f | 0xaa | 0xae | 0xb2 | 0xb4 | 0xb5 | 0xb8 | 0xb9 | 0xc2..=0xc7
        | 0xd0..=0xff => Err(DecodeError::UnsupportedEncoding),
        _ => Err(DecodeError::UnassignedOpcode),
    }
}

/// The template of the opcode at `pos` and the position behind the opcode:
/// behind one byte, or behind two where the first is the escape byte `0f`.
pub open spec fn resolve_opcode_spec(bytes: Seq<u8>, pos: int, p: PrefixState) -> Result<
    (OpcodeTemplate, int),
    DecodeError,
> {
    if !(0 <= pos < bytes.len()) {
        Err(DecodeError::TruncatedInput)
    } else if bytes[pos] != 0x0f {
        match one_byte_template_spec(bytes[pos], p) {
            Ok(t) => Ok((t, pos + 1)),
            Err(e) => Err(e),
        }
    } else if pos + 1 >= bytes.len() {
        Err(DecodeError::TruncatedInput)
    } else {
        match two_byte_template_spec(bytes[pos + 1]) {
            Ok(t) => Ok((OpcodeTemplate { two_byte: true, ..t }, pos + 2)),
            Err(e) => Err(e),
        }
    }
}

/// Resolves the opcode at `pos`, behind the prefixes `p`.
pub fn resolve_opcode(bytes: &[u8], pos: usize, p: &PrefixState) -> (r: Result<
    (OpcodeTemplate, usize),
    DecodeError,
>)
    ensures
        same_step(r, resolve_opcode_spec(bytes@, pos as int, *p)),
{
    if pos >= bytes.len() {
        return Err(DecodeError::TruncatedInput);
    }
    let op = bytes[pos];
    if op != 0x0f {
        match one_byte_template(op, p) {
            Ok(t) => Ok((t, pos + 1)),
            Err(e) => Err(e),
        }
    } else if bytes.len() - pos < 2 {
        Err(DecodeError::TruncatedInput)
    } else {
        match two_byte_template(bytes[pos + 1]) {
            Ok(t) => Ok((OpcodeTemplate { two_byte: true, ..t }, pos + 2)),
            Err(e) => Err(e),
        }
    }
}

/// The instruction of a group opcode that the reg field `reg` of the ModRM
/// byte selects, as a template without a group. A template that is no group
/// stays as it is.
pub open spec fn resolve_group_spec(t: OpcodeTemplate, reg: u8) -> Result<
    OpcodeTemplate,
    DecodeError,
> {
    match t.mnemonic {
        MnemonicRule::Group(Group::Arithmetic) => Ok(t.named(arithmetic(reg))),
        MnemonicRule::Group(Group::Shift) => Ok(t.named(shift(reg))),
        MnemonicRule::Group(Group::Pop) => if reg == 0 {
            Ok(t.named(Mnemonic::Pop))
        } else {
            Err(DecodeError::UnassignedOpcode)
        },
        MnemonicRule::Group(Group::Move) => if reg == 0 {
            Ok(t.named(Mnemonic::Mov))
        } else {
            Err(DecodeError::UnassignedOpcode)
        },
        MnemonicRule::Group(Group::Unary) => if reg < 2 {
            Ok(t.named(Mnemonic::Test))
        } else {
            Ok(OpcodeTemplate { second: Slot::Absent, ..t.named(unary_operation(reg)) })
        },
        MnemonicRule::Group(Group::Step) => if reg == 0 {
            Ok(t.named(Mnemonic::Inc))
        } else if reg == 1 {
            Ok(t.named(Mnemonic::Dec))
        } else {
            Err(DecodeError::UnassignedOpcode)
        },
        MnemonicRule::Group(Group::Indirect) => if reg == 0 {
            Ok(t.named(Mnemonic::Inc))
        } else if reg == 1 {
            Ok(t.named(Mnemonic::Dec))
        } else if reg == 2 {
            Ok(OpcodeTemplate { width: WidthRule::Stack, ..t.named(Mnemonic::Call) })
        } else if reg == 4 {
            Ok(OpcodeTemplate { width: WidthRule::Stack, ..t.named(Mnemonic::Jmp) })
        } else if reg == 6 {
            Ok(OpcodeTemplate { width: WidthRule::Stack, ..t.named(Mnemonic::Push) })
        } else if reg == 3 || reg == 5 {
            Err(DecodeError::UnsupportedEncoding)
        } else {
            Err(DecodeError::UnassignedOpcode)
        },
        MnemonicRule::Group(Group::BitTest) => if reg == 4 {
            Ok(t.named(Mnemonic::Bt))
        } else if reg == 5 {
            Ok(t.named(Mnemonic::Bts))
        } else if reg == 6 {
            Ok(t.named(Mnemonic::Btr))
        } else if reg == 7 {
            Ok(t.named(Mnemonic::Btc))
        } else {
            Err(DecodeError::UnassignedOpcode)
        },
        _ => Ok(t),
    }
}

/// The instructions of the group of `f6` and `f7` that take one operand.
pub open spec fn unary_operation_spec(reg: u8) -> Mnemonic {
    if reg == 2 {
        Mnemonic::Not
    } else if reg == 3 {
        Mnemonic::Neg
    } else if reg == 4 {
        Mnemonic::Mul
    } else if reg == 5 {
        Mnemonic::Imul
    } else if reg == 6 {
        Mnemonic::Div
    } else {
        Mnemonic::Idiv
    }
}

/// The instructions of the group of `f6` and `f7` that take one operand.
#[verifier::when_used_as_spec(unary_operation_spec)]
pub fn unary_operation(reg: u8) -> (m: Mnemonic)
    ensures
        m == unary_operation_spec(reg),
{
    match reg {
        2 => Mnemonic::Not,
        3 => Mnemonic::Neg,
        4 => Mnemonic::Mul,
        5 => Mnemonic::Imul,
        6 => Mnemonic::Div,
        _ => Mnemonic::Idiv,
    }
}

/// Resolves a group opcode by the reg field of its ModRM byte.
pub fn resolve_group(t: OpcodeTemplate, reg: u8) -> (r: Result<OpcodeTemplate, DecodeError>)
    ensures
        r == resolve_group_spec(t, reg),
        r is Ok ==> !(r->Ok_0.mnemonic is Group),
{
    let g = match t.mnemonic {
        MnemonicRule::Group(g) => g,
        _ => {
            return Ok(t);
        },
    };
    match g {
        Group::Arithmetic => Ok(t.named(arithmetic(reg))),
        Group::Shift => Ok(t.named(shift(reg))),
        Group::Pop => match reg {
            0 => Ok(t.named(Mnemonic::Pop)),
            _ => Err(DecodeError::UnassignedOpcode),
        },
        Group::Move => match reg {
            0 => Ok(t.named(Mnemonic::Mov)),
            _ => Err(DecodeError::UnassignedOpcode),
        },
        Group::Unary => if reg < 2 {
            Ok(t.named(Mnemonic::Test))
        } else {
            Ok(OpcodeTemplate { second: Slot::Absent, ..t.named(unary_operation(reg)) })
        },
        Group::Step => match reg {
            0 => Ok(t.named(Mnemonic::Inc)),
            1 => Ok(t.named(Mnemonic::Dec)),
            _ => Err(DecodeError::UnassignedOpcode),
        },
        Group::Indirect => match reg {
            0 => Ok(t.named(Mnemonic::Inc)),
            1 => Ok(t.named(Mnemonic::Dec)),
            2 => Ok(OpcodeTemplate { width: WidthRule::Stack, ..t.named(Mnemonic::Call) }),
            4 => Ok(OpcodeTemplate { width: WidthRule::Stack, ..t.named(Mnemonic::Jmp) }),
            6 => Ok(OpcodeTemplate { width: WidthRule::Stack, ..t.named(Mnemonic::Push) }),
            3 | 5 => Err(DecodeError::UnsupportedEncoding),
            _ => Err(DecodeError::UnassignedOpcode),
        },
        Group::BitTest => match reg {
            4 => Ok(t.named(Mnemonic::Bt)),
            5 => Ok(t.named(Mnemonic::Bts)),
            6 => Ok(t.named(Mnemonic::Btr)),
            7 => Ok(t.named(Mnemonic::Btc)),
            _ => Err(DecodeError::UnassignedOpcode),
        },
    }
}

} // verus!
