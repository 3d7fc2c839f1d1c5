//! The ModRM and SIB decoder: from the addressing bytes to a register or a
//! memory operand.

use vstd::prelude::*;
use crate::bytes::{read_signed, read_signed_spec};
use crate::error::{DecodeError, same_step};
use crate::instruction::{MemoryOperand, ScaledIndex};
use crate::opcode::{resolve_group, resolve_group_spec};
use crate::prefix::PrefixState;
use crate::registers::{Register, RegisterBank, Width};
use crate::template::OpcodeTemplate;

verus! {

/// What the rm field of a ModRM byte selects.
#[derive(Clone, Copy, Debug, PartialEq, Eq)]
pub enum RmOperand {
    /// A register, by its index with the extension of REX.B.
    Register(u8),
    /// Memory.
    Memory(MemoryOperand),
}

/// A template with what the ModRM byte adds to it. Where the template has
/// no ModRM byte, `reg` is 0 and `rm` is the register 0, and no slot reads
/// them.
#[derive(Clone, Copy, Debug, PartialEq, Eq)]
pub struct Resolved {
    /// The template; one of a group opcode names its instruction now.
    pub template: OpcodeTemplate,
    /// The reg field with the extension of REX.R.
    pub reg: u8,
    pub rm: RmOperand,
}

/// The top two bits of a ModRM or SIB byte.
pub open spec fn top_field(b: u8) -> u8 {
    b / 64
}

/// The middle three bits of a ModRM or SIB byte.
pub open spec fn middle_field(b: u8) -> u8 {
    (b / 8) % 8
}

/// The low three bits of a ModRM or SIB byte.
pub open spec fn low_field(b: u8) -> u8 {
    b % 8
}

/// A three-bit register field with the fourth bit that a REX prefix adds.
pub open spec fn extended_spec(field: u8, rex_bit: bool) -> u8 {
    if rex_bit {
        (field + 8) as u8
    } else {
        field
    }
}

/// A three-bit register field with the fourth bit that a REX prefix adds.
#[verifier::when_used_as_spec(extended_spec)]
pub fn extended(field: u8, rex_bit: bool) -> (index: u8)
    requires
        field < 8,
    ensures
        index == extended_spec(field, rex_bit),
        index < 16,
{
    if rex_bit {
        field + 8
    } else {
        field
    }
}

/// The three fields of a ModRM or SIB byte: the top two bits, the middle
/// three and the low three.
pub fn split_fields(b: u8) -> (f: (u8, u8, u8))
    ensures
        f.0 == top_field(b),
        f.1 == middle_field(b),
        f.2 == low_field(b),
        f.0 < 4,
        f.1 < 8,
        f.2 < 8,
{
    assert(b >> 6 == b / 64 && (b >> 3) & 7 == (b / 8) % 8 && b & 7 == b % 8) by (bit_vector);
    (b >> 6, (b >> 3) & 7, b & 7)
}

/// The register with the index `index` that can stand in an address: 64
/// bits wide, or 32 under the address-size override.
pub open spec fn address_register_spec(index: u8, p: PrefixState) -> Register {
    Register {
        bank: if p.address_size {
            RegisterBank::Dword
        } else {
            RegisterBank::Qword
        },
        index,
    }
}

/// The register with the index `index` that can stand in an address.
#[verifier::when_used_as_spec(address_register_spec)]
pub fn address_register(index: u8, p: PrefixState) -> (r: Register)
    ensures
        r == address_register_spec(index, p),
{
    Register {
        bank: if p.address_size {
            RegisterBank::Dword
        } else {
            RegisterBank::Qword
        },
        index,
    }
}

/// The register that an address relative to the next instruction is based on.
pub open spec fn instruction_pointer_spec(p: PrefixState) -> Register {
    Register {
        bank: if p.address_size {
            RegisterBank::Eip
        } else {
            RegisterBank::Rip
        },
        index: 0,
    }
}

/// The register that an address relative to the next instruction is based on.
#[verifier::when_used_as_spec(instruction_pointer_spec)]
pub fn instruction_pointer(p: PrefixState) -> (r: Register)
    ensures
        r == instruction_pointer_spec(p),
{
    Register {
        bank: if p.address_size {
            RegisterBank::Eip
        } else {
            RegisterBank::Rip
        },
        index: 0,
    }
}

/// The width of the displacement that follows the addressing bytes: none
/// for mode 0, one byte for mode 1, four bytes for mode 2.
pub open spec fn displacement_width_spec(mode: u8) -> Option<Width> {
    if mode == 1 {
        Some(Width::Byte)
    } else if mode == 2 {
        Some(Width::Dword)
    } else {
        None
    }
}

/// The width of the displacement that follows the addressing bytes.
#[verifier::when_used_as_spec(displacement_width_spec)]
pub fn displacement_width(mode: u8) -> (w: Option<Width>)
    ensures
        w == displacement_width_spec(mode),
{
    match mode {
        1 => Some(Width::Byte),
        2 => Some(Width::Dword),
        _ => None,
    }
}

/// The displacement at `pos`, sign-extended, and the position behind it;
/// zero and `pos` where there is none.
pub open spec fn displacement_spec(bytes: Seq<u8>, pos: int, width: Option<Width>) -> Result<
    (i64, int),
    DecodeError,
> {
    match width {
        None => Ok((0i64, pos)),
        Some(w) => match read_signed_spec(bytes, pos, w) {
            Some(v) => Ok((v as i64, pos + w.byte_count())),
            None => Err(DecodeError::TruncatedInput),
        },
    }
}

/// Reads the displacement at `pos`.
pub fn read_displacement(bytes: &[u8], pos: usize, width: Option<Width>) -> (r: Result<
    (i64, usize),
    DecodeError,
>)
    ensures
        same_step(r, displacement_spec(bytes@, pos as int, width)),
{
    match width {
        None => Ok((0, pos)),
        Some(w) => match read_signed(bytes, pos, w) {
            Some(v) => Ok((v, pos + w.bytes())),
            None => Err(DecodeError::TruncatedInput),
        },
    }
}

/// The factor that the top field of a SIB byte stands for.
pub open spec fn scale_spec(field: u8) -> u8 {
    if field == 0 {
        1
    } else if field == 1 {
        2
    } else if field == 2 {
        4
    } else {
        8
    }
}

/// The factor that the top field of a SIB byte stands for.
#[verifier::when_used_as_spec(scale_spec)]
pub fn scale(field: u8) -> (s: u8)
    ensures
        s == scale_spec(field),
{
    match field {
        0 => 1,
        1 => 2,
        2 => 4,
        _ => 8,
    }
}

/// The index of a SIB byte: none where the field is 4 and REX.X is not set.
pub open spec fn sib_index_spec(sib: u8, p: PrefixState) -> Option<ScaledIndex> {
    if middle_field(sib) == 4 && !p.rex_x {
        None
    } else {
        Some(
            ScaledIndex {
                register: address_register(extended(middle_field(sib), p.rex_x), p),
                scale: scale(top_field(sib)),
            },
        )
    }
}

/// The memory operand that a ModRM byte with a mode below 3 selects. `pos`
/// is the position behind the ModRM byte, where a SIB byte and a
/// displacement may follow.
///
/// - An rm field of 4 announces a SIB byte, whose base field of 5 under
///   mode 0 means no base and a displacement of four bytes.
/// - An rm field of 5 under mode 0 means an address relative to the next
///   instruction, with a displacement of four bytes.
/// - Else the rm field is the base, and the mode gives the displacement.
pub open spec fn decode_memory_spec(bytes: Seq<u8>, pos: int, modrm: u8, p: PrefixState) -> Result<
    (MemoryOperand, int),
    DecodeError,
> {
    let mode = top_field(modrm);
    let rm = low_field(modrm);
    if rm == 4 {
        if !(0 <= pos < bytes.len()) {
            Err(DecodeError::TruncatedInput)
        } else {
            let sib = bytes[pos];
            let no_base = low_field(sib) == 5 && mode == 0;
            let width = if no_base {
                Some(Width::Dword)
            } else {
                displacement_width(mode)
            };
            match displacement_spec(bytes, pos + 1, width) {
                Err(e) => Err(e),
                Ok((displacement, end)) => Ok(
                    (
                        MemoryOperand {
                            base: if no_base {
                                None
                            } else {
                                Some(address_register(extended(low_field(sib), p.rex_b), p))
                            },
                            index: sib_index_spec(sib, p),
                            displacement,
                            segment: p.segment,
                        },
                        end,
                    ),
                ),
            }
        }
    } else {
        let relative = rm == 5 && mode == 0;
        let width = if relative {
            Some(Width::Dword)
        } else {
            displacement_width(mode)
        };
        match displacement_spec(bytes, pos, width) {
            Err(e) => Err(e),
            Ok((displacement, end)) => Ok(
                (
                    MemoryOperand {
                        base: if relative {
                            Some(instruction_pointer(p))
                        } else {
                            Some(address_register(extended(rm, p.rex_b), p))
                        },
                        index: None,
                        displacement,
                        segment: p.segment,
                    },
                    end,
                ),
            ),
        }
    }
}

/// Decodes the memory operand of a ModRM byte with a mode below 3.
pub fn decode_memory(bytes: &[u8], pos: usize, modrm: u8, p: &PrefixState) -> (r: Result<
    (MemoryOperand, usize),
    DecodeError,
>)
    requires
        pos <= bytes@.len(),
    ensures
        same_step(r, decode_memory_spec(bytes@, pos as int, modrm, *p)),
{
    let (mode, _, rm) = split_fields(modrm);
    if rm == 4 {
        if pos >= bytes.len() {
            return Err(DecodeError::TruncatedInput);
        }
        let (top, middle, low) = split_fields(bytes[pos]);
        let no_base = low == 5 && mode == 0;
        let width = if no_base {
            Some(Width::Dword)
        } else {
            displacement_width(mode)
        };
        let (displacement, end) = match read_displacement(bytes, pos + 1, width) {
            Ok(d) => d,
            Err(e) => {
                return Err(e);
            },
        };
        let base = if no_base {
            None
        } else {
            Some(address_register(extended(low, p.rex_b), *p))
        };
        let index = if middle == 4 && !p.rex_x {
            None
        } else {
            Some(
                ScaledIndex {
                    register: address_register(extended(middle, p.rex_x), *p),
                    scale: scale(top),
                },
            )
        };
        Ok((MemoryOperand { base, index, displacement, segment: p.segment }, end))
    } else {
        let relative = rm == 5 && mode == 0;
        let width = if relative {
            Some(Width::Dword)
        } else {
            displacement_width(mode)
        };
        let (displacement, end) = match read_displacement(bytes, pos, width) {
            Ok(d) => d,
            Err(e) => {
                return Err(e);
            },
        };
        let base = if relative {
            Some(instruction_pointer(*p))
        } else {
            Some(address_register(extended(rm, p.rex_b), *p))
        };
        Ok((MemoryOperand { base, index: None, displacement, segment: p.segment }, end))
    }
}

/// The template `t` without a ModRM byte.
pub open spec fn without_modrm_spec(t: OpcodeTemplate) -> Resolved {
    Resolved { template: t, reg: 0, rm: RmOperand::Register(0) }
}

/// What the ModRM byte at `pos` and the bytes behind it add to the template
/// `t`, and the position behind them.
///
/// The reg field first resolves a group opcode. A template whose rm field
/// must select a register fails on a mode below 3, and one whose rm field
/// must select memory fails on mode 3, both as an unassigned opcode and
/// before any further byte is read. Mode 3 selects a register; the other
/// modes select memory.
pub open spec fn decode_modrm_spec(bytes: Seq<u8>, pos: int, p: PrefixState, t: OpcodeTemplate) -> Result<
    (Resolved, int),
    DecodeError,
> {
    if !(0 <= pos < bytes.len()) {
        Err(DecodeError::TruncatedInput)
    } else {
        let modrm = bytes[pos];
        let mode = top_field(modrm);
        match resolve_group_spec(t, middle_field(modrm)) {
            Err(e) => Err(e),
            Ok(template) => {
                let reg = extended(middle_field(modrm), p.rex_r);
                if mode == 3 {
                    if template.memory_only_spec() {
                        Err(DecodeError::UnassignedOpcode)
                    } else {
                        Ok(
                            (
                                Resolved {
                                    template,
                                    reg,
                                    rm: RmOperand::Register(extended(low_field(modrm), p.rex_b)),
                                },
                                pos + 1,
                            ),
                        )
                    }
                } else if template.register_only_spec() {
                    Err(DecodeError::UnassignedOpcode)
                } else {
                    match decode_memory_spec(bytes, pos + 1, modrm, p) {
                        Err(e) => Err(e),
                        Ok((m, end)) => Ok((Resolved { template, reg, rm: RmOperand::Memory(m) }, end)),
                    }
                }
            },
        }
    }
}

/// The template with what its ModRM byte adds, where it has one, and the
/// position of the first byte behind the addressing bytes.
pub open spec fn resolve_addressing_spec(bytes: Seq<u8>, pos: int, p: PrefixState, t: OpcodeTemplate) -> Result<
    (Resolved, int),
    DecodeError,
> {
    if t.needs_modrm_spec() {
        decode_modrm_spec(bytes, pos, p, t)
    } else {
        Ok((without_modrm_spec(t), pos))
    }
}

/// Decodes the ModRM byte at `pos` and the SIB byte and displacement that
/// it announces.
pub fn decode_modrm(bytes: &[u8], pos: usize, p: &PrefixState, t: OpcodeTemplate) -> (r: Result<
    (Resolved, usize),
    DecodeError,
>)
    ensures
        same_step(r, decode_modrm_spec(bytes@, pos as int, *p, t)),
        r is Ok ==> !(r->Ok_0.0.template.mnemonic is Group),
{
    if pos >= bytes.len() {
        return Err(DecodeError::TruncatedInput);
    }
    let modrm = bytes[pos];
    let (mode, middle, low) = split_fields(modrm);
    let template = match resolve_group(t, middle) {
        Ok(template) => template,
        Err(e) => {
            return Err(e);
        },
    };
    let reg = extended(middle, p.rex_r);
    if mode == 3 {
        if template.memory_only() {
            Err(DecodeError::UnassignedOpcode)
        } else {
            Ok((Resolved { template, reg, rm: RmOperand::Register(extended(low, p.rex_b)) }, pos + 1))
        }
    } else if template.register_only() {
        Err(DecodeError::UnassignedOpcode)
    } else {
        match decode_memory(bytes, pos + 1, modrm, p) {
            Ok((m, end)) => Ok((Resolved { template, reg, rm: RmOperand::Memory(m) }, end)),
            Err(e) => Err(e),
        }
    }
}

/// Decodes the addressing bytes of the template `t`, where it has any.
pub fn resolve_addressing(bytes: &[u8], pos: usize, p: &PrefixState, t: OpcodeTemplate) -> (r:
    Result<(Resolved, usize), DecodeError>)
    ensures
        same_step(r, resolve_addressing_spec(bytes@, pos as int, *p, t)),
        r is Ok ==> !(r->Ok_0.0.template.mnemonic is Group),
{
    if t.needs_modrm() {
        decode_modrm(bytes, pos, p, t)
    } else {
        Ok((Resolved { template: t, reg: 0, rm: RmOperand::Register(0) }, pos))
    }
}

} // verus!
