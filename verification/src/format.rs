//! The text formatter: from an instruction to its assembly text.
//!
//! The text is the mnemonic and, behind a space, the operands with `, `
//! between them. It is a function of the instruction alone.

use vstd::prelude::*;
use vstd::string::StringExecFns;
use crate::instruction::{Instruction, InstructionView, MemoryOperand, Operand, ScaledIndex};
use crate::registers::{Segment, Width};
use crate::text::{
    decimal_digits,
    hex_text,
    magnitude,
    push_decimal_digits,
    push_hex,
    push_signed_hex,
    signed_hex_text,
    unsigned_magnitude,
};

verus! {

/// An index register as a term of an address: its name and, unless the
/// scale is 1, ` * ` and the scale.
pub open spec fn index_text(i: ScaledIndex) -> Seq<char> {
    if i.scale == 1 {
        i.register.name_text()
    } else {
        i.register.name_text() + " * "@ + decimal_digits(i.scale as nat)
    }
}

/// The displacement as a term of an address. Alone in the brackets it is a
/// signed number. Behind a register, zero is left out, and any other value
/// is ` + ` or ` - ` and its magnitude.
pub open spec fn displacement_text(displacement: int, alone: bool) -> Seq<char> {
    if alone {
        signed_hex_text(displacement)
    } else if displacement == 0 {
        Seq::empty()
    } else if displacement < 0 {
        " - "@ + hex_text(magnitude(displacement))
    } else {
        " + "@ + hex_text(magnitude(displacement))
    }
}

/// What stands between the brackets of a memory operand: base, index and
/// displacement, as far as they are there, with ` + ` between base and
/// index.
pub open spec fn address_text(m: MemoryOperand) -> Seq<char> {
    let base = match m.base {
        Some(r) => r.name_text(),
        None => Seq::empty(),
    };
    let index = match m.index {
        Some(i) => if m.base is Some {
            " + "@ + index_text(i)
        } else {
            index_text(i)
        },
        None => Seq::empty(),
    };
    base + index + displacement_text(m.displacement as int, m.base is None && m.index is None)
}

/// A segment override before a memory operand: the segment's name and `:`.
pub open spec fn segment_text(segment: Option<Segment>) -> Seq<char> {
    match segment {
        Some(s) => s.name_text() + ":"@,
        None => Seq::empty(),
    }
}

/// A memory operand: the segment override, where there is one, and the
/// address in brackets.
pub open spec fn memory_text(m: MemoryOperand) -> Seq<char> {
    segment_text(m.segment) + "["@ + address_text(m) + "]"@
}

/// The keyword and the space that announce the width of a memory operand.
pub open spec fn hint_text(hint: Option<Width>) -> Seq<char> {
    match hint {
        Some(w) => w.keyword_text() + " "@,
        None => Seq::empty(),
    }
}

/// One operand. A register is its name; an immediate and a branch
/// displacement are signed numbers in base 16; a memory operand is
/// announced by the width keyword where the instruction carries a hint.
pub open spec fn operand_text(o: Operand, hint: Option<Width>) -> Seq<char> {
    match o {
        Operand::Register(r) => r.name_text(),
        Operand::Memory(m) => hint_text(hint) + memory_text(m),
        Operand::Immediate { value, .. } => signed_hex_text(value as int),
        Operand::RelativeOffset { value } => signed_hex_text(value as int),
    }
}

/// The operands with `, ` between them.
pub open spec fn operands_text(operands: Seq<Operand>, hint: Option<Width>) -> Seq<char>
    decreases operands.len(),
{
    if operands.len() == 0 {
        Seq::empty()
    } else if operands.len() == 1 {
        operand_text(operands[0], hint)
    } else {
        operands_text(operands.drop_last(), hint) + ", "@ + operand_text(operands.last(), hint)
    }
}

/// The text of an instruction: the mnemonic, and behind a space the
/// operands, where it has any.
pub open spec fn format_spec(i: InstructionView) -> Seq<char> {
    if i.operands.len() == 0 {
        i.mnemonic.text()
    } else {
        i.mnemonic.text() + " "@ + operands_text(i.operands, i.size_hint)
    }
}

/// Appends an index register as a term of an address to `out`.
pub fn push_index(out: &mut String, i: &ScaledIndex)
    ensures
        final(out)@ == old(out)@ + index_text(*i),
{
    i.register.push_name(out);
    if i.scale != 1 {
        out.append(" * ");
        push_decimal_digits(out, i.scale as u64);
    }
    assert(final(out)@ =~= old(out)@ + index_text(*i));
}

/// Appends the displacement as a term of an address to `out`.
pub fn push_displacement(out: &mut String, displacement: i64, alone: bool)
    ensures
        final(out)@ == old(out)@ + displacement_text(displacement as int, alone),
{
    if alone {
        push_signed_hex(out, displacement);
    } else if displacement < 0 {
        out.append(" - ");
        push_hex(out, unsigned_magnitude(displacement));
    } else if displacement > 0 {
        out.append(" + ");
        push_hex(out, unsigned_magnitude(displacement));
    }
    assert(final(out)@ =~= old(out)@ + displacement_text(displacement as int, alone));
}

/// Appends what stands between the brackets of a memory operand to `out`.
pub fn push_address(out: &mut String, m: &MemoryOperand)
    ensures
        final(out)@ == old(out)@ + address_text(*m),
{
    let ghost start = out@;
    if let Some(r) = m.base {
        r.push_name(out);
    }
    let ghost with_base = out@;
    if let Some(i) = m.index {
        if m.base.is_some() {
            out.append(" + ");
        }
        push_index(out, &i);
    }
    let ghost with_index = out@;
    push_displacement(out, m.displacement, m.base.is_none() && m.index.is_none());
    proof {
        let base = match m.base {
            Some(r) => r.name_text(),
            None => Seq::empty(),
        };
        let index = match m.index {
            Some(i) => if m.base is Some {
                " + "@ + index_text(i)
            } else {
                index_text(i)
            },
            None => Seq::empty(),
        };
        assert(with_base =~= start + base);
        assert(with_index =~= start + base + index);
        assert(out@ =~= start + address_text(*m));
    }
}

/// Appends a memory operand to `out`.
pub fn push_memory(out: &mut String, m: &MemoryOperand)
    ensures
        final(out)@ == old(out)@ + memory_text(*m),
{
    let ghost start = out@;
    if let Some(s) = m.segment {
        out.append(s.name());
        out.append(":");
    }
    assert(out@ =~= start + segment_text(m.segment));
    out.append("[");
    push_address(out, m);
    out.append("]");
    assert(out@ =~= start + memory_text(*m));
}

/// Appends one operand to `out`.
pub fn push_operand(out: &mut String, o: &Operand, hint: Option<Width>)
    ensures
        final(out)@ == old(out)@ + operand_text(*o, hint),
{
    match o {
        Operand::Register(r) => r.push_name(out),
        Operand::Memory(m) => {
            if let Some(w) = hint {
                out.append(w.keyword());
                out.append(" ");
            }
            push_memory(out, m);
            assert(final(out)@ =~= old(out)@ + operand_text(*o, hint));
        },
        Operand::Immediate { value, .. } => push_signed_hex(out, *value),
        Operand::RelativeOffset { value } => push_signed_hex(out, *value),
    }
}

/// Renders an instruction as assembly text.
pub fn format(instruction: &Instruction) -> (text: String)
    ensures
        text@ == format_spec(instruction@),
{
    let mut out = String::new();
    instruction.mnemonic.push_text(&mut out);
    let ghost head = instruction.mnemonic.text();
    let n = instruction.operands.len();
    let mut k: usize = 0;
    while k < n
        invariant
            n == instruction.operands@.len(),
            k <= n,
            head == instruction.mnemonic.text(),
            k == 0 ==> out@ == head,
            k > 0 ==> out@ == head + " "@ + operands_text(
                instruction.operands@.take(k as int),
                instruction.size_hint,
            ),
        decreases n - k,
    {
        let ghost before = out@;
        if k == 0 {
            out.append(" ");
        } else {
            out.append(", ");
        }
        push_operand(&mut out, &instruction.operands[k], instruction.size_hint);
        proof {
            let done = instruction.operands@.take(k + 1);
            assert(done.drop_last() =~= instruction.operands@.take(k as int));
            assert(done.last() == instruction.operands@[k as int]);
            assert(out@ =~= head + " "@ + operands_text(done, instruction.size_hint));
        }
        k = k + 1;
    }
    proof {
        assert(instruction.operands@.take(n as int) =~= instruction.operands@);
        assert(out@ =~= format_spec(instruction@));
    }
    out
}

} // verus!
