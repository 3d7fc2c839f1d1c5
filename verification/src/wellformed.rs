//! What holds of every decoded instruction: its registers exist, its
//! memory operands can be encoded, and its register widths follow the
//! prefixes.

use vstd::prelude::*;
use crate::decode::{decode_spec, decode_window_spec, lemma_decode_window_length, window_spec};
use crate::instruction::Operand;
use crate::modrm::{
    Resolved,
    RmOperand,
    decode_memory_spec,
    resolve_addressing_spec,
};
use crate::opcode::{
    one_byte_template_spec,
    resolve_opcode_spec,
    two_byte_template_spec,
};
use crate::operands::{build_operand_spec, build_operands_spec, present};
use crate::prefix::{PrefixState, scan_prefixes_spec};
use crate::registers::Width;
use crate::template::{OpcodeTemplate, Slot};

verus! {

/// A register that a slot implies exists.
pub open spec fn slot_wf(slot: Slot) -> bool {
    slot matches Slot::Fixed(r) ==> r.wf()
}

/// The registers that the slots of a template imply exist.
pub open spec fn template_wf(t: OpcodeTemplate) -> bool {
    slot_wf(t.first) && slot_wf(t.second) && slot_wf(t.third)
}

/// The register indices that a ModRM byte gave are below 16, and its memory
/// operand can be encoded.
pub open spec fn resolved_wf(r: Resolved) -> bool {
    &&& template_wf(r.template)
    &&& r.reg < 16
    &&& match r.rm {
        RmOperand::Register(index) => index < 16,
        RmOperand::Memory(m) => m.wf(),
    }
}

/// The templates of the one-byte map imply only registers that exist.
pub proof fn lemma_one_byte_template_wf(op: u8, p: PrefixState)
    ensures
        one_byte_template_spec(op, p) matches Ok(t) ==> template_wf(t),
{
}

/// The templates behind the escape byte imply only registers that exist.
pub proof fn lemma_two_byte_template_wf(op: u8)
    ensures
        two_byte_template_spec(op) matches Ok(t) ==> template_wf(t),
{
}

/// Every template that an opcode resolves to implies only registers that
/// exist.
pub proof fn lemma_opcode_wf(bytes: Seq<u8>, pos: int, p: PrefixState)
    ensures
        resolve_opcode_spec(bytes, pos, p) matches Ok((t, _)) ==> template_wf(t),
{
    if 0 <= pos < bytes.len() {
        lemma_one_byte_template_wf(bytes[pos], p);
        if pos + 1 < bytes.len() {
            lemma_two_byte_template_wf(bytes[pos + 1]);
        }
    }
}

/// A memory operand that the addressing bytes give can be encoded.
pub proof fn lemma_memory_wf(bytes: Seq<u8>, pos: int, modrm: u8, p: PrefixState)
    ensures
        decode_memory_spec(bytes, pos, modrm, p) matches Ok((m, _)) ==> m.wf(),
{
}

/// What the addressing bytes add to a well-formed template is well-formed.
pub proof fn lemma_addressing_wf(bytes: Seq<u8>, pos: int, p: PrefixState, t: OpcodeTemplate)
    requires
        template_wf(t),
    ensures
        resolve_addressing_spec(bytes, pos, p, t) matches Ok((r, _)) ==> resolved_wf(r),
{
    if t.needs_modrm_spec() && 0 <= pos < bytes.len() {
        lemma_memory_wf(bytes, pos + 1, bytes[pos], p);
    }
}

/// The operand of a slot is well-formed.
pub proof fn lemma_operand_wf(
    bytes: Seq<u8>,
    pos: int,
    p: PrefixState,
    r: Resolved,
    width: Width,
    slot: Slot,
)
    requires
        resolved_wf(r),
        slot_wf(slot),
    ensures
        build_operand_spec(bytes, pos, p, r, width, slot) matches Ok((Some(o), _)) ==> o.wf(),
{
}

/// There are at most three operands, and each is well-formed.
pub proof fn lemma_operands_wf(bytes: Seq<u8>, pos: int, p: PrefixState, r: Resolved)
    requires
        resolved_wf(r),
    ensures
        build_operands_spec(bytes, pos, p, r) matches Ok((operands, _)) ==> operands.len() <= 3
            && forall|i: int| 0 <= i < operands.len() ==> (#[trigger] operands[i]).wf(),
{
    let width = r.template.width.resolve_spec(p);
    if let Ok((first, pos1)) = build_operand_spec(bytes, pos, p, r, width, r.template.first) {
        lemma_operand_wf(bytes, pos, p, r, width, r.template.first);
        if let Ok((second, pos2)) = build_operand_spec(bytes, pos1, p, r, width, r.template.second) {
            lemma_operand_wf(bytes, pos1, p, r, width, r.template.second);
            if let Ok((third, _)) = build_operand_spec(bytes, pos2, p, r, width, r.template.third) {
                lemma_operand_wf(bytes, pos2, p, r, width, r.template.third);
                let operands = present(first) + present(second) + present(third);
                assert forall|i: int| 0 <= i < operands.len() implies (#[trigger] operands[i]).wf() by {
                    let a = present(first);
                    let b = present(second);
                    if i < a.len() {
                        assert(operands[i] == a[i]);
                    } else if i < a.len() + b.len() {
                        assert(operands[i] == b[i - a.len()]);
                    } else {
                        assert(operands[i] == present(third)[i - a.len() - b.len()]);
                    }
                }
            }
        }
    }
}

/// Every instruction that a window decodes to is well-formed.
pub proof fn lemma_decode_window_wf(window: Seq<u8>)
    requires
        window.len() <= 15,
    ensures
        decode_window_spec(window) matches Ok(i) ==> i.wf(),
{
    lemma_decode_window_length(window);
    if let Ok((p, opcode_at)) = scan_prefixes_spec(window) {
        lemma_opcode_wf(window, opcode_at, p);
        if let Ok((t, modrm_at)) = resolve_opcode_spec(window, opcode_at, p) {
            lemma_addressing_wf(window, modrm_at, p, t);
            if let Ok((r, immediate_at)) = resolve_addressing_spec(window, modrm_at, p, t) {
                lemma_operands_wf(window, immediate_at, p, r);
            }
        }
    }
}

/// Every decoded instruction is well-formed: at most three operands, each
/// register one that exists, each memory operand one that can be encoded,
/// and a length from 1 to 15.
pub proof fn lemma_decode_wf(bytes: Seq<u8>)
    ensures
        decode_spec(bytes) matches Ok(i) ==> i.wf(),
{
    lemma_decode_window_wf(window_spec(bytes));
}

/// Whether the slot holds a general-purpose register of the instruction's
/// operand width, where it holds a register.
pub open spec fn follows_operand_width(slot: Slot) -> bool {
    slot is Rm || slot is Reg || slot is OpcodeReg || slot is Accumulator
}

/// The width of a register operand follows the prefixes. In an instruction
/// whose opcode does not fix the width, a register in a slot of the operand
/// width is as wide as the rule of the opcode resolves to: as wide as the
/// rule allows under REX.W, whatever else the prefixes say; without REX.W,
/// 16 bits under the operand-size override; without either, as wide as the
/// rule's default.
pub proof fn lemma_register_width(
    bytes: Seq<u8>,
    pos: int,
    p: PrefixState,
    r: Resolved,
    slot: Slot,
)
    requires
        !r.template.width.is_fixed_spec(),
        follows_operand_width(slot),
        build_operand_spec(bytes, pos, p, r, r.template.width.resolve_spec(p), slot) matches Ok(
            (Some(Operand::Register(_)), _),
        ),
    ensures
        ({
            let built = build_operand_spec(
                bytes,
                pos,
                p,
                r,
                r.template.width.resolve_spec(p),
                slot,
            );
            let register = built->Ok_0.0->Some_0->Register_0;
            &&& register.width_spec() == Some(r.template.width.resolve_spec(p))
            &&& p.rex_w ==> register.width_spec() == Some(r.template.width.widest_spec())
            &&& !p.rex_w && p.operand_size ==> register.width_spec() == Some(Width::Word)
            &&& !p.rex_w && !p.operand_size ==> register.width_spec() == Some(
                r.template.width.default_spec(),
            )
        }),
{
}

} // verus!
