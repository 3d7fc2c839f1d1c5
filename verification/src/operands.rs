//! The operand builder: from a template's slots to the operands.

use vstd::prelude::*;
use crate::bytes::{
    lemma_unsigned_at_bounds,
    read_signed,
    read_signed_spec,
    read_unsigned,
    read_unsigned_spec,
};
use crate::error::{DecodeError, same_step};
use crate::instruction::{MemoryOperand, Operand};
use crate::modrm::{Resolved, RmOperand, extended};
use crate::prefix::PrefixState;
use crate::registers::{Register, RegisterBank, Width};
use crate::template::{ImmediateRule, Slot};

verus! {

/// The operand that the rm field of a ModRM byte selects: the general
/// register of `width`, or the memory operand.
pub open spec fn rm_operand_spec(rm: RmOperand, width: Width, rex_present: bool) -> Operand {
    match rm {
        RmOperand::Register(index) => Operand::Register(
            Register::general_spec(index, width, rex_present),
        ),
        RmOperand::Memory(m) => Operand::Memory(m),
    }
}

/// The operand that the rm field of a ModRM byte selects.
#[verifier::when_used_as_spec(rm_operand_spec)]
pub fn rm_operand(rm: RmOperand, width: Width, rex_present: bool) -> (o: Operand)
    ensures
        o == rm_operand_spec(rm, width, rex_present),
{
    match rm {
        RmOperand::Register(index) => Operand::Register(Register::general(index, width, rex_present)),
        RmOperand::Memory(m) => Operand::Memory(m),
    }
}

/// The immediate at `pos` that follows `rule`, for an operand of `width`:
/// its value, extended as the rule says, with the width that it is encoded
/// in, and the position behind it.
pub open spec fn immediate_spec(bytes: Seq<u8>, pos: int, rule: ImmediateRule, width: Width) -> Result<
    (Operand, int),
    DecodeError,
> {
    let encoded = rule.width_spec(width);
    let value = if rule.signed_spec() {
        read_signed_spec(bytes, pos, encoded)
    } else {
        read_unsigned_spec(bytes, pos, encoded)
    };
    match value {
        Some(v) => Ok(
            (Operand::Immediate { value: v as i64, width: encoded }, pos + encoded.byte_count()),
        ),
        None => Err(DecodeError::TruncatedInput),
    }
}

/// Reads the immediate at `pos`.
pub fn read_immediate(bytes: &[u8], pos: usize, rule: ImmediateRule, width: Width) -> (r: Result<
    (Operand, usize),
    DecodeError,
>)
    ensures
        same_step(r, immediate_spec(bytes@, pos as int, rule, width)),
{
    let encoded = rule.width(width);
    let value = match rule {
        ImmediateRule::UnsignedByte | ImmediateRule::UnsignedWord => {
            proof {
                lemma_unsigned_at_bounds(bytes@, pos as int, encoded);
            }
            match read_unsigned(bytes, pos, encoded) {
                Some(v) => Some(v as i64),
                None => None,
            }
        },
        _ => read_signed(bytes, pos, encoded),
    };
    match value {
        Some(value) => Ok((Operand::Immediate { value, width: encoded }, pos + encoded.bytes())),
        None => Err(DecodeError::TruncatedInput),
    }
}

/// The operand of one slot, or none for an absent slot, and the position
/// behind the bytes that the slot reads at `pos`. Only immediates, branch
/// displacements and absolute addresses read any.
///
/// `width` is the operand width of the instruction. A segment register
/// with a number above 5 does not exist: the slot fails as an unassigned
/// opcode.
pub open spec fn build_operand_spec(
    bytes: Seq<u8>,
    pos: int,
    p: PrefixState,
    r: Resolved,
    width: Width,
    slot: Slot,
) -> Result<(Option<Operand>, int), DecodeError> {
    match slot {
        Slot::Absent => Ok((None, pos)),
        Slot::Rm | Slot::RmMemory => Ok((Some(rm_operand(r.rm, width, p.rex_present)), pos)),
        Slot::RmOf(w) => Ok((Some(rm_operand(r.rm, w, p.rex_present)), pos)),
        Slot::RmRegister(w) => Ok((Some(rm_operand(r.rm, w, p.rex_present)), pos)),
        Slot::Reg => Ok(
            (Some(Operand::Register(Register::general_spec(r.reg, width, p.rex_present))), pos),
        ),
        Slot::SegmentReg => if r.reg % 8 < 6 {
            Ok(
                (
                    Some(Operand::Register(Register { bank: RegisterBank::Segment, index: r.reg % 8 })),
                    pos,
                ),
            )
        } else {
            Err(DecodeError::UnassignedOpcode)
        },
        Slot::ControlReg => Ok(
            (Some(Operand::Register(Register { bank: RegisterBank::Control, index: r.reg })), pos),
        ),
        Slot::DebugReg => Ok(
            (Some(Operand::Register(Register { bank: RegisterBank::Debug, index: r.reg })), pos),
        ),
        Slot::OpcodeReg(low) => Ok(
            (
                Some(
                    Operand::Register(
                        Register::general_spec(extended(low % 8, p.rex_b), width, p.rex_present),
                    ),
                ),
                pos,
            ),
        ),
        Slot::Accumulator => Ok(
            (Some(Operand::Register(Register::general_spec(0, width, p.rex_present))), pos),
        ),
        Slot::Fixed(register) => Ok((Some(Operand::Register(register)), pos)),
        Slot::One => Ok((Some(Operand::Immediate { value: 1, width: Width::Byte }), pos)),
        Slot::Immediate(rule) => match immediate_spec(bytes, pos, rule, width) {
            Ok((o, end)) => Ok((Some(o), end)),
            Err(e) => Err(e),
        },
        Slot::Relative(w) => match read_signed_spec(bytes, pos, w) {
            Some(v) => Ok((Some(Operand::RelativeOffset { value: v as i64 }), pos + w.byte_count())),
            None => Err(DecodeError::TruncatedInput),
        },
        Slot::Offset => match read_signed_spec(bytes, pos, Width::Dword) {
            Some(v) => Ok(
                (
                    Some(
                        Operand::Memory(
                            MemoryOperand {
                                base: None,
                                index: None,
                                displacement: v as i64,
                                segment: p.segment,
                            },
                        ),
                    ),
                    pos + 4,
                ),
            ),
            None => Err(DecodeError::TruncatedInput),
        },
    }
}

/// Builds the operand of one slot.
pub fn build_operand(
    bytes: &[u8],
    pos: usize,
    p: &PrefixState,
    r: &Resolved,
    width: Width,
    slot: Slot,
) -> (out: Result<(Option<Operand>, usize), DecodeError>)
    ensures
        same_step(out, build_operand_spec(bytes@, pos as int, *p, *r, width, slot)),
{
    match slot {
        Slot::Absent => Ok((None, pos)),
        Slot::Rm | Slot::RmMemory => Ok((Some(rm_operand(r.rm, width, p.rex_present)), pos)),
        Slot::RmOf(w) => Ok((Some(rm_operand(r.rm, w, p.rex_present)), pos)),
        Slot::RmRegister(w) => Ok((Some(rm_operand(r.rm, w, p.rex_present)), pos)),
        Slot::Reg => Ok(
            (Some(Operand::Register(Register::general(r.reg, width, p.rex_present))), pos),
        ),
        Slot::SegmentReg => {
            let index = r.reg % 8;
            if index < 6 {
                Ok((Some(Operand::Register(Register { bank: RegisterBank::Segment, index })), pos))
            } else {
                Err(DecodeError::UnassignedOpcode)
            }
        },
        Slot::ControlReg => Ok(
            (Some(Operand::Register(Register { bank: RegisterBank::Control, index: r.reg })), pos),
        ),
        Slot::DebugReg => Ok(
            (Some(Operand::Register(Register { bank: RegisterBank::Debug, index: r.reg })), pos),
        ),
        Slot::OpcodeReg(low) => {
            let index = extended(low % 8, p.rex_b);
            Ok((Some(Operand::Register(Register::general(index, width, p.rex_present))), pos))
        },
        Slot::Accumulator => Ok(
            (Some(Operand::Register(Register::general(0, width, p.rex_present))), pos),
        ),
        Slot::Fixed(register) => Ok((Some(Operand::Register(register)), pos)),
        Slot::One => Ok((Some(Operand::Immediate { value: 1, width: Width::Byte }), pos)),
        Slot::Immediate(rule) => match read_immediate(bytes, pos, rule, width) {
            Ok((o, end)) => Ok((Some(o), end)),
            Err(e) => Err(e),
        },
        Slot::Relative(w) => match read_signed(bytes, pos, w) {
            Some(value) => Ok((Some(Operand::RelativeOffset { value }), pos + w.bytes())),
            None => Err(DecodeError::TruncatedInput),
        },
        Slot::Offset => match read_signed(bytes, pos, Width::Dword) {
            Some(displacement) => Ok(
                (
                    Some(
                        Operand::Memory(
                            MemoryOperand { base: None, index: None, displacement, segment: p.segment },
                        ),
                    ),
                    pos + 4,
                ),
            ),
            None => Err(DecodeError::TruncatedInput),
        },
    }
}

/// The operand of a slot as a sequence: empty for an absent slot.
pub open spec fn present(o: Option<Operand>) -> Seq<Operand> {
    match o {
        Some(operand) => seq![operand],
        None => Seq::empty(),
    }
}

/// The operands of the template's three slots, in their order, and the
/// position behind the last byte that they read: the end of the instruction.
pub open spec fn build_operands_spec(bytes: Seq<u8>, pos: int, p: PrefixState, r: Resolved) -> Result<
    (Seq<Operand>, int),
    DecodeError,
> {
    let width = r.template.width.resolve_spec(p);
    match build_operand_spec(bytes, pos, p, r, width, r.template.first) {
        Err(e) => Err(e),
        Ok((first, pos1)) => match build_operand_spec(bytes, pos1, p, r, width, r.template.second) {
            Err(e) => Err(e),
            Ok((second, pos2)) => match build_operand_spec(
                bytes,
                pos2,
                p,
                r,
                width,
                r.template.third,
            ) {
                Err(e) => Err(e),
                Ok((third, end)) => Ok((present(first) + present(second) + present(third), end)),
            },
        },
    }
}

/// Builds the operands of the template's three slots.
pub fn build_operands(bytes: &[u8], pos: usize, p: &PrefixState, r: &Resolved) -> (out: Result<
    (Vec<Operand>, usize),
    DecodeError,
>)
    ensures
        match out {
            Ok((operands, end)) => build_operands_spec(bytes@, pos as int, *p, *r) == Ok::<
                (Seq<Operand>, int),
                DecodeError,
            >((operands@, end as int)),
            Err(e) => build_operands_spec(bytes@, pos as int, *p, *r) == Err::<
                (Seq<Operand>, int),
                DecodeError,
            >(e),
        },
{
    let width = r.template.width.resolve(p);
    let mut operands: Vec<Operand> = Vec::new();
    let (first, pos1) = match build_operand(bytes, pos, p, r, width, r.template.first) {
        Ok(o) => o,
        Err(e) => {
            return Err(e);
        },
    };
    if let Some(o) = first {
        operands.push(o);
    }
    let (second, pos2) = match build_operand(bytes, pos1, p, r, width, r.template.second) {
        Ok(o) => o,
        Err(e) => {
            return Err(e);
        },
    };
    if let Some(o) = second {
        operands.push(o);
    }
    let (third, end) = match build_operand(bytes, pos2, p, r, width, r.template.third) {
        Ok(o) => o,
        Err(e) => {
            return Err(e);
        },
    };
    if let Some(o) = third {
        operands.push(o);
    }
    assert(operands@ =~= present(first) + present(second) + present(third));
    Ok((operands, end))
}

/// The width that the text announces a memory operand with: that of a slot
/// that gives the rm field a width of its own, where the field selects
/// memory.
pub open spec fn size_hint_spec(r: Resolved) -> Option<Width> {
    if r.rm is Memory {
        match (r.template.first, r.template.second, r.template.third) {
            (Slot::RmOf(w), _, _) => Some(w),
            (_, Slot::RmOf(w), _) => Some(w),
            (_, _, Slot::RmOf(w)) => Some(w),
            _ => None,
        }
    } else {
        None
    }
}

/// The width that the text announces a memory operand with.
pub fn size_hint(r: &Resolved) -> (hint: Option<Width>)
    ensures
        hint == size_hint_spec(*r),
{
    match r.rm {
        RmOperand::Memory(_) => match (r.template.first, r.template.second, r.template.third) {
            (Slot::RmOf(w), _, _) => Some(w),
            (_, Slot::RmOf(w), _) => Some(w),
            (_, _, Slot::RmOf(w)) => Some(w),
            _ => None,
        },
        RmOperand::Register(_) => None,
    }
}

} // verus!
