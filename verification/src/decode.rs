//! The decoder: prefixes, opcode, addressing bytes and operands in turn.

use vstd::prelude::*;
use vstd::slice::slice_subrange;
use crate::error::DecodeError;
use crate::instruction::{Instruction, InstructionView};
use crate::modrm::{
    Resolved,
    decode_memory_spec,
    displacement_spec,
    resolve_addressing,
    resolve_addressing_spec,
};
use crate::opcode::{resolve_opcode, resolve_opcode_spec};
use crate::operands::{
    build_operand_spec,
    build_operands,
    build_operands_spec,
    size_hint,
    size_hint_spec,
};
use crate::prefix::{PrefixState, lemma_prefix_end_bounds, scan_prefixes, scan_prefixes_spec};
use crate::registers::Width;
use crate::template::{OpcodeTemplate, Slot};
use crate::wellformed::lemma_decode_window_wf;

verus! {

/// The greatest number of bytes that an instruction can have. The decoder
/// reads no byte behind them.
pub const MAX_INSTRUCTION_LENGTH: usize = 15;

/// The bytes that a decode looks at: the first fifteen.
pub open spec fn window_spec(bytes: Seq<u8>) -> Seq<u8> {
    if bytes.len() > MAX_INSTRUCTION_LENGTH {
        bytes.take(MAX_INSTRUCTION_LENGTH as int)
    } else {
        bytes
    }
}

/// The instruction that stands at the start of `window`.
///
/// The prefixes are scanned; the opcode behind them selects a template; the
/// ModRM byte, where the template has one, resolves a group opcode and gives
/// the register or memory operand; the slots of the template give the
/// operands and read the immediates. The first step that fails gives the
/// error. The length is the position behind the last byte read.
pub open spec fn decode_window_spec(window: Seq<u8>) -> Result<InstructionView, DecodeError> {
    match scan_prefixes_spec(window) {
        Err(e) => Err(e),
        Ok((p, opcode_at)) => match resolve_opcode_spec(window, opcode_at, p) {
            Err(e) => Err(e),
            Ok((t, modrm_at)) => match resolve_addressing_spec(window, modrm_at, p, t) {
                Err(e) => Err(e),
                Ok((r, immediate_at)) => match build_operands_spec(window, immediate_at, p, r) {
                    Err(e) => Err(e),
                    Ok((operands, end)) => Ok(
                        InstructionView {
                            mnemonic: r.template.mnemonic.select_spec(
                                r.template.width.resolve_spec(p),
                            ),
                            operands,
                            size_hint: size_hint_spec(r),
                            length: end,
                        },
                    ),
                },
            },
        },
    }
}

/// The instruction that stands at the start of `bytes`, or why there is none.
pub open spec fn decode_spec(bytes: Seq<u8>) -> Result<InstructionView, DecodeError> {
    decode_window_spec(window_spec(bytes))
}

/// A displacement ends behind where it starts and inside the input.
pub proof fn lemma_displacement_end(bytes: Seq<u8>, pos: int, width: Option<Width>)
    requires
        0 <= pos <= bytes.len(),
    ensures
        displacement_spec(bytes, pos, width) matches Ok((_, end)) ==> pos <= end <= bytes.len(),
{
}

/// The addressing bytes end behind where they start and inside the input.
pub proof fn lemma_addressing_end(bytes: Seq<u8>, pos: int, p: PrefixState, t: OpcodeTemplate)
    requires
        0 <= pos <= bytes.len(),
    ensures
        resolve_addressing_spec(bytes, pos, p, t) matches Ok((_, end)) ==> pos <= end
            <= bytes.len(),
{
    if t.needs_modrm_spec() && pos < bytes.len() {
        let modrm = bytes[pos];
        if decode_memory_spec(bytes, pos + 1, modrm, p) is Ok {
            lemma_displacement_end(bytes, pos + 1, None);
        }
    }
}

/// The bytes of one slot end behind where they start and inside the input.
pub proof fn lemma_operand_end(
    bytes: Seq<u8>,
    pos: int,
    p: PrefixState,
    r: Resolved,
    width: Width,
    slot: Slot,
)
    requires
        0 <= pos <= bytes.len(),
    ensures
        build_operand_spec(bytes, pos, p, r, width, slot) matches Ok((_, end)) ==> pos <= end
            <= bytes.len(),
{
}

/// The operands end behind where they start and inside the input.
pub proof fn lemma_operands_end(bytes: Seq<u8>, pos: int, p: PrefixState, r: Resolved)
    requires
        0 <= pos <= bytes.len(),
    ensures
        build_operands_spec(bytes, pos, p, r) matches Ok((_, end)) ==> pos <= end <= bytes.len(),
{
    let width = r.template.width.resolve_spec(p);
    lemma_operand_end(bytes, pos, p, r, width, r.template.first);
    if let Ok((_, pos1)) = build_operand_spec(bytes, pos, p, r, width, r.template.first) {
        lemma_operand_end(bytes, pos1, p, r, width, r.template.second);
        if let Ok((_, pos2)) = build_operand_spec(bytes, pos1, p, r, width, r.template.second) {
            lemma_operand_end(bytes, pos2, p, r, width, r.template.third);
        }
    }
}

/// An instruction has at least one byte and no more than its window.
pub proof fn lemma_decode_window_length(window: Seq<u8>)
    ensures
        decode_window_spec(window) matches Ok(i) ==> 1 <= i.length <= window.len(),
{
    lemma_prefix_end_bounds(window, 0);
    if let Ok((p, opcode_at)) = scan_prefixes_spec(window) {
        if let Ok((t, modrm_at)) = resolve_opcode_spec(window, opcode_at, p) {
            lemma_addressing_end(window, modrm_at, p, t);
            if let Ok((r, immediate_at)) = resolve_addressing_spec(window, modrm_at, p, t) {
                lemma_operands_end(window, immediate_at, p, r);
            }
        }
    }
}

/// Decodes the instruction at the start of `bytes`.
///
/// Reads the first fifteen bytes at most, and of those only the bytes of
/// the instruction: what follows them is ignored. Fails with
/// `TruncatedInput` where the bytes end inside the instruction, with
/// `UnassignedOpcode` where they encode none, and with
/// `UnsupportedEncoding` where they encode one of an extension that is
/// left aside.
pub fn decode(bytes: &[u8]) -> (r: Result<Instruction, DecodeError>)
    ensures
        match r {
            Ok(i) => decode_spec(bytes@) == Ok::<InstructionView, DecodeError>(i@),
            Err(e) => decode_spec(bytes@) == Err::<InstructionView, DecodeError>(e),
        },
        r matches Ok(i) ==> i@.wf() && i@.length <= bytes@.len(),
{
    let window = if bytes.len() > MAX_INSTRUCTION_LENGTH {
        slice_subrange(bytes, 0, MAX_INSTRUCTION_LENGTH)
    } else {
        bytes
    };
    proof {
        lemma_decode_window_length(window@);
        lemma_decode_window_wf(window@);
    }
    let (p, opcode_at) = match scan_prefixes(window) {
        Ok(s) => s,
        Err(e) => {
            return Err(e);
        },
    };
    let (t, modrm_at) = match resolve_opcode(window, opcode_at, &p) {
        Ok(s) => s,
        Err(e) => {
            return Err(e);
        },
    };
    let (resolved, immediate_at) = match resolve_addressing(window, modrm_at, &p, t) {
        Ok(s) => s,
        Err(e) => {
            return Err(e);
        },
    };
    let (operands, end) = match build_operands(window, immediate_at, &p, &resolved) {
        Ok(s) => s,
        Err(e) => {
            return Err(e);
        },
    };
    let width = resolved.template.width.resolve(&p);
    Ok(
        Instruction {
            mnemonic: resolved.template.mnemonic.select(width),
            operands,
            size_hint: size_hint(&resolved),
            length: end as u8,
        },
    )
}

} // verus!
