//! What a decode makes of a shortened input.
//!
//! The decoder reads from left to right and decides by the bytes it has
//! read. So a cut behind the instruction changes nothing, and a cut inside
//! it ends every decode in `TruncatedInput`. The lemmas here show that of
//! each step, and then of the whole.

use vstd::prelude::*;
use crate::bytes::lemma_read_truncated;
use crate::decode::{
    decode_spec,
    decode_window_spec,
    lemma_addressing_end,
    lemma_decode_window_length,
    lemma_displacement_end,
    lemma_operand_end,
    lemma_operands_end,
    window_spec,
};
use crate::error::DecodeError;
use crate::instruction::InstructionView;
use crate::modrm::{
    Resolved,
    decode_memory_spec,
    decode_modrm_spec,
    displacement_spec,
    resolve_addressing_spec,
};
use crate::opcode::resolve_opcode_spec;
use crate::operands::{build_operand_spec, build_operands_spec, immediate_spec};
use crate::prefix::{
    PrefixState,
    lemma_prefix_end_bounds,
    lemma_prefix_end_truncated,
    prefix_end,
    scan_prefixes_spec,
};
use crate::registers::Width;
use crate::template::{ImmediateRule, OpcodeTemplate, Slot};

verus! {

/// How the result `short` of a step on an input cut at `cut` relates to the
/// result `full` of the step on the whole input: the same where the step
/// ends at or before the cut, `TruncatedInput` where it ends behind it, and
/// an error where the step fails.
pub open spec fn cut_step<V>(
    full: Result<(V, int), DecodeError>,
    short: Result<(V, int), DecodeError>,
    cut: int,
) -> bool {
    match full {
        Ok((_, end)) => if end <= cut {
            short == full
        } else {
            short == Err::<(V, int), DecodeError>(DecodeError::TruncatedInput)
        },
        Err(e) => short == Err::<(V, int), DecodeError>(e) || short == Err::<
            (V, int),
            DecodeError,
        >(DecodeError::TruncatedInput),
    }
}

/// How the decode `short` of an input cut at `cut` relates to the decode
/// `full` of the whole input.
pub open spec fn cut_decode(
    full: Result<InstructionView, DecodeError>,
    short: Result<InstructionView, DecodeError>,
    cut: int,
) -> bool {
    match full {
        Ok(i) => if i.length <= cut {
            short == full
        } else {
            short == Err::<InstructionView, DecodeError>(DecodeError::TruncatedInput)
        },
        Err(e) => short == Err::<InstructionView, DecodeError>(e) || short == Err::<
            InstructionView,
            DecodeError,
        >(DecodeError::TruncatedInput),
    }
}

/// The prefix scan of a cut input. The scan looks at the opcode byte, so it
/// needs the cut behind that byte.
pub proof fn lemma_scan_cut(bytes: Seq<u8>, cut: int)
    requires
        0 <= cut <= bytes.len(),
    ensures
        cut_step(scan_prefixes_spec(bytes), scan_prefixes_spec(bytes.take(cut)), cut - 1),
{
    lemma_prefix_end_truncated(bytes, cut, 0);
    lemma_prefix_end_bounds(bytes, 0);
    let end = prefix_end(bytes, 0);
    if end < cut {
        assert(bytes.take(cut).take(end) =~= bytes.take(end));
    }
}

/// The opcode of a cut input.
pub proof fn lemma_opcode_cut(bytes: Seq<u8>, cut: int, pos: int, p: PrefixState)
    requires
        0 <= pos <= cut <= bytes.len(),
    ensures
        cut_step(
            resolve_opcode_spec(bytes, pos, p),
            resolve_opcode_spec(bytes.take(cut), pos, p),
            cut,
        ),
{
}

/// The displacement of a cut input.
pub proof fn lemma_displacement_cut(bytes: Seq<u8>, cut: int, pos: int, width: Option<Width>)
    requires
        0 <= pos <= cut <= bytes.len(),
    ensures
        cut_step(
            displacement_spec(bytes, pos, width),
            displacement_spec(bytes.take(cut), pos, width),
            cut,
        ),
{
    if let Some(w) = width {
        lemma_read_truncated(bytes, cut, pos, w);
    }
}

/// The memory operand of a cut input. `pos` may lie one behind the cut:
/// it is the position behind the ModRM byte.
pub proof fn lemma_memory_cut(bytes: Seq<u8>, cut: int, pos: int, modrm: u8, p: PrefixState)
    requires
        0 <= pos <= cut <= bytes.len(),
    ensures
        cut_step(
            decode_memory_spec(bytes, pos, modrm, p),
            decode_memory_spec(bytes.take(cut), pos, modrm, p),
            cut,
        ),
{
    let short = bytes.take(cut);
    if modrm % 8 == 4 {
        if pos < cut {
            assert(short[pos] == bytes[pos]);
            lemma_displacement_cut(bytes, cut, pos + 1, Some(Width::Dword));
            lemma_displacement_cut(bytes, cut, pos + 1, Some(Width::Byte));
            lemma_displacement_cut(bytes, cut, pos + 1, None);
        } else if pos < bytes.len() {
            lemma_read_truncated(bytes, bytes.len() as int, pos + 1, Width::Dword);
            lemma_read_truncated(bytes, bytes.len() as int, pos + 1, Width::Byte);
        }
    } else {
        lemma_displacement_cut(bytes, cut, pos, Some(Width::Dword));
        lemma_displacement_cut(bytes, cut, pos, Some(Width::Byte));
        lemma_displacement_cut(bytes, cut, pos, None);
    }
}

/// The addressing bytes of a cut input.
pub proof fn lemma_addressing_cut(
    bytes: Seq<u8>,
    cut: int,
    pos: int,
    p: PrefixState,
    t: OpcodeTemplate,
)
    requires
        0 <= pos <= cut <= bytes.len(),
    ensures
        cut_step(
            resolve_addressing_spec(bytes, pos, p, t),
            resolve_addressing_spec(bytes.take(cut), pos, p, t),
            cut,
        ),
{
    let short = bytes.take(cut);
    if t.needs_modrm_spec() {
        if pos < cut {
            assert(short[pos] == bytes[pos]);
            lemma_memory_cut(bytes, cut, pos + 1, bytes[pos], p);
        } else if pos < bytes.len() {
            lemma_modrm_is_read(bytes, pos, p, t);
        }
    }
}

/// The ModRM byte at `pos` belongs to what a decode of the addressing bytes
/// reads: where it succeeds, it ends behind `pos`.
proof fn lemma_modrm_is_read(bytes: Seq<u8>, pos: int, p: PrefixState, t: OpcodeTemplate)
    requires
        0 <= pos < bytes.len(),
    ensures
        decode_modrm_spec(bytes, pos, p, t) matches Ok((_, end)) ==> end > pos,
{
    let modrm = bytes[pos];
    if decode_memory_spec(bytes, pos + 1, modrm, p) is Ok {
        lemma_displacement_end(bytes, pos + 1, None);
    }
}

/// The immediate of a cut input.
pub proof fn lemma_immediate_cut(
    bytes: Seq<u8>,
    cut: int,
    pos: int,
    rule: ImmediateRule,
    width: Width,
)
    requires
        0 <= pos <= cut <= bytes.len(),
    ensures
        cut_step(
            immediate_spec(bytes, pos, rule, width),
            immediate_spec(bytes.take(cut), pos, rule, width),
            cut,
        ),
{
    lemma_read_truncated(bytes, cut, pos, rule.width_spec(width));
}

/// The operand of one slot of a cut input.
pub proof fn lemma_operand_cut(
    bytes: Seq<u8>,
    cut: int,
    pos: int,
    p: PrefixState,
    r: Resolved,
    width: Width,
    slot: Slot,
)
    requires
        0 <= pos <= cut <= bytes.len(),
    ensures
        cut_step(
            build_operand_spec(bytes, pos, p, r, width, slot),
            build_operand_spec(bytes.take(cut), pos, p, r, width, slot),
            cut,
        ),
{
    match slot {
        Slot::Immediate(rule) => {
            lemma_immediate_cut(bytes, cut, pos, rule, width);
        },
        Slot::Relative(w) => {
            lemma_read_truncated(bytes, cut, pos, w);
        },
        Slot::Offset => {
            lemma_read_truncated(bytes, cut, pos, Width::Dword);
        },
        _ => {},
    }
}

/// The operands of a cut input.
pub proof fn lemma_operands_cut(bytes: Seq<u8>, cut: int, pos: int, p: PrefixState, r: Resolved)
    requires
        0 <= pos <= cut <= bytes.len(),
    ensures
        cut_step(
            build_operands_spec(bytes, pos, p, r),
            build_operands_spec(bytes.take(cut), pos, p, r),
            cut,
        ),
{
    let width = r.template.width.resolve_spec(p);
    lemma_operand_cut(bytes, cut, pos, p, r, width, r.template.first);
    lemma_operand_end(bytes, pos, p, r, width, r.template.first);
    if let Ok((_, pos1)) = build_operand_spec(bytes, pos, p, r, width, r.template.first) {
        lemma_operand_end(bytes, pos1, p, r, width, r.template.second);
        if pos1 <= cut {
            lemma_operand_cut(bytes, cut, pos1, p, r, width, r.template.second);
            if let Ok((_, pos2)) = build_operand_spec(bytes, pos1, p, r, width, r.template.second) {
                lemma_operand_end(bytes, pos2, p, r, width, r.template.third);
                if pos2 <= cut {
                    lemma_operand_cut(bytes, cut, pos2, p, r, width, r.template.third);
                }
            }
        } else {
            if let Ok((_, pos2)) = build_operand_spec(bytes, pos1, p, r, width, r.template.second) {
                lemma_operand_end(bytes, pos2, p, r, width, r.template.third);
            }
        }
    }
}

/// The decode of a cut window.
pub proof fn lemma_decode_window_cut(window: Seq<u8>, cut: int)
    requires
        0 <= cut <= window.len(),
    ensures
        cut_decode(decode_window_spec(window), decode_window_spec(window.take(cut)), cut),
{
    lemma_scan_cut(window, cut);
    lemma_prefix_end_bounds(window, 0);
    lemma_decode_window_length(window);
    if let Ok((p, opcode_at)) = scan_prefixes_spec(window) {
        if let Ok((t, modrm_at)) = resolve_opcode_spec(window, opcode_at, p) {
            lemma_addressing_end(window, modrm_at, p, t);
            if let Ok((r, immediate_at)) = resolve_addressing_spec(window, modrm_at, p, t) {
                lemma_operands_end(window, immediate_at, p, r);
            }
        }
        if opcode_at < cut {
            lemma_opcode_cut(window, cut, opcode_at, p);
            if let Ok((t, modrm_at)) = resolve_opcode_spec(window, opcode_at, p) {
                if modrm_at <= cut {
                    lemma_addressing_cut(window, cut, modrm_at, p, t);
                    if let Ok((r, immediate_at)) = resolve_addressing_spec(window, modrm_at, p, t) {
                        if immediate_at <= cut {
                            lemma_operands_cut(window, cut, immediate_at, p, r);
                        }
                    }
                }
            }
        }
    }
}

/// An input that ends inside a valid instruction decodes to
/// `TruncatedInput`, wherever the cut lies.
pub proof fn lemma_decode_truncated(bytes: Seq<u8>, cut: int)
    requires
        decode_spec(bytes) is Ok,
        0 <= cut < decode_spec(bytes)->Ok_0.length,
    ensures
        decode_spec(bytes.take(cut)) == Err::<InstructionView, DecodeError>(
            DecodeError::TruncatedInput,
        ),
{
    let window = window_spec(bytes);
    lemma_decode_window_length(window);
    lemma_decode_window_cut(window, cut);
    assert(window_spec(bytes.take(cut)) =~= window.take(cut));
}

/// What follows an instruction is ignored: an input cut at the end of the
/// instruction or behind it decodes as the whole input does.
pub proof fn lemma_decode_ignores_rest(bytes: Seq<u8>, cut: int)
    requires
        decode_spec(bytes) is Ok,
        decode_spec(bytes)->Ok_0.length <= cut <= bytes.len(),
    ensures
        decode_spec(bytes.take(cut)) == decode_spec(bytes),
{
    let window = window_spec(bytes);
    lemma_decode_window_length(window);
    if cut <= window.len() {
        lemma_decode_window_cut(window, cut);
        assert(window_spec(bytes.take(cut)) =~= window.take(cut));
    } else {
        assert(window_spec(bytes.take(cut)) =~= window);
    }
}

/// Two inputs that begin with the same instruction decode alike: where `a`
/// decodes to an instruction and `b` has the bytes of that instruction at
/// its start, `b` decodes to the same instruction.
pub proof fn lemma_decode_same_start(a: Seq<u8>, b: Seq<u8>)
    requires
        decode_spec(a) is Ok,
        decode_spec(a)->Ok_0.length <= b.len(),
        a.take(decode_spec(a)->Ok_0.length) == b.take(decode_spec(a)->Ok_0.length),
    ensures
        decode_spec(b) == decode_spec(a),
{
    let n = decode_spec(a)->Ok_0.length;
    lemma_decode_window_length(window_spec(a));
    lemma_decode_ignores_rest(a, n);
    let wb = window_spec(b);
    lemma_decode_window_length(wb);
    lemma_decode_window_cut(wb, n);
    assert(window_spec(b.take(n)) =~= wb.take(n));
}

/// A failure other than `TruncatedInput` is final: where a start of the
/// input fails with it, the whole input fails with it too, whatever
/// follows.
pub proof fn lemma_decode_error_is_final(bytes: Seq<u8>, cut: int)
    requires
        0 <= cut <= bytes.len(),
        decode_spec(bytes.take(cut)) is Err,
        decode_spec(bytes.take(cut)) != Err::<InstructionView, DecodeError>(
            DecodeError::TruncatedInput,
        ),
    ensures
        decode_spec(bytes) == decode_spec(bytes.take(cut)),
{
    let window = window_spec(bytes);
    if cut <= window.len() {
        lemma_decode_window_cut(window, cut);
        assert(window_spec(bytes.take(cut)) =~= window.take(cut));
    } else {
        assert(window_spec(bytes.take(cut)) =~= window);
    }
}

/// A decode reads no byte behind the fifteenth.
pub proof fn lemma_decode_reads_window(a: Seq<u8>, b: Seq<u8>)
    requires
        window_spec(a) == window_spec(b),
    ensures
        decode_spec(a) == decode_spec(b),
{
}

/// An instruction has at least one byte, at most fifteen, and no more than
/// the input.
pub proof fn lemma_decode_length(bytes: Seq<u8>)
    ensures
        decode_spec(bytes) matches Ok(i) ==> 1 <= i.length <= 15 && i.length <= bytes.len(),
{
    lemma_decode_window_length(window_spec(bytes));
}

} // verus!
