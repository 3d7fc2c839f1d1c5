//! Opcode templates: what an opcode says of its operands before the bytes
//! behind it are read.

use vstd::prelude::*;
use crate::instruction::Mnemonic;
use crate::prefix::PrefixState;
use crate::registers::{Register, Width};

verus! {

/// How the prefixes decide the operand width of an instruction.
///
/// Two rules fix the width. Under the others REX.W decides first: with it
/// the operand has the greatest width that the rule allows, and the
/// operand-size override is ignored. Without it the override makes the
/// operand 16 bits wide. Without either the operand has the rule's default
/// width.
#[derive(Clone, Copy, Debug, PartialEq, Eq, Structural)]
pub enum WidthRule {
    /// Eight bits, whatever the prefixes say.
    Byte,
    /// 32 bits by default, 64 bits with REX.W.
    General,
    /// 64 bits by default and with REX.W: the stack instructions and the
    /// near branches.
    Stack,
    /// 32 bits by default and with REX.W: `in`, `out` and their string
    /// forms, which have no 64-bit form.
    Narrow,
    /// 64 bits, whatever the prefixes say.
    Qword,
}

impl WidthRule {
    /// Whether the prefixes have no say.
    pub open spec fn is_fixed_spec(self) -> bool {
        self == WidthRule::Byte || self == WidthRule::Qword
    }

    /// Whether the prefixes have no say.
    pub fn is_fixed(self) -> (r: bool)
        ensures
            r == self.is_fixed_spec(),
    {
        match self {
            WidthRule::Byte | WidthRule::Qword => true,
            _ => false,
        }
    }

    /// The width without REX.W and without the operand-size override.
    pub open spec fn default_spec(self) -> Width {
        match self {
            WidthRule::Byte => Width::Byte,
            WidthRule::General | WidthRule::Narrow => Width::Dword,
            WidthRule::Stack | WidthRule::Qword => Width::Qword,
        }
    }

    /// The width with REX.W.
    pub open spec fn widest_spec(self) -> Width {
        match self {
            WidthRule::Byte => Width::Byte,
            WidthRule::Narrow => Width::Dword,
            WidthRule::General | WidthRule::Stack | WidthRule::Qword => Width::Qword,
        }
    }

    /// The operand width under the prefixes `p`.
    pub open spec fn resolve_spec(self, p: PrefixState) -> Width {
        if self.is_fixed_spec() {
            self.default_spec()
        } else if p.rex_w {
            self.widest_spec()
        } else if p.operand_size {
            Width::Word
        } else {
            self.default_spec()
        }
    }

    /// The operand width under the prefixes `p`.
    pub fn resolve(self, p: &PrefixState) -> (w: Width)
        ensures
            w == self.resolve_spec(*p),
    {
        match self {
            WidthRule::Byte => Width::Byte,
            WidthRule::Qword => Width::Qword,
            WidthRule::General => if p.rex_w {
                Width::Qword
            } else if p.operand_size {
                Width::Word
            } else {
                Width::Dword
            },
            WidthRule::Stack => if p.operand_size && !p.rex_w {
                Width::Word
            } else {
                Width::Qword
            },
            WidthRule::Narrow => if p.operand_size && !p.rex_w {
                Width::Word
            } else {
                Width::Dword
            },
        }
    }
}

/// How many bytes an immediate has and how they are extended.
#[derive(Clone, Copy, Debug, PartialEq, Eq, Structural)]
pub enum ImmediateRule {
    /// One byte, sign-extended.
    SignedByte,
    /// One byte, zero-extended.
    UnsignedByte,
    /// Two bytes, zero-extended.
    UnsignedWord,
    /// As wide as the operand, but four bytes for a 64-bit operand;
    /// sign-extended.
    Natural,
    /// As wide as the operand.
    Full,
}

impl ImmediateRule {
    /// The width that the immediate is encoded in, for an operand of `width`.
    pub open spec fn width_spec(self, width: Width) -> Width {
        match self {
            ImmediateRule::SignedByte | ImmediateRule::UnsignedByte => Width::Byte,
            ImmediateRule::UnsignedWord => Width::Word,
            ImmediateRule::Natural => if width == Width::Qword {
                Width::Dword
            } else {
                width
            },
            ImmediateRule::Full => width,
        }
    }

    /// The width that the immediate is encoded in, for an operand of `width`.
    pub fn width(self, width: Width) -> (w: Width)
        ensures
            w == self.width_spec(width),
    {
        match self {
            ImmediateRule::SignedByte | ImmediateRule::UnsignedByte => Width::Byte,
            ImmediateRule::UnsignedWord => Width::Word,
            ImmediateRule::Natural => match width {
                Width::Qword => Width::Dword,
                _ => width,
            },
            ImmediateRule::Full => width,
        }
    }

    /// Whether the immediate is sign-extended.
    pub open spec fn signed_spec(self) -> bool {
        !(self == ImmediateRule::UnsignedByte || self == ImmediateRule::UnsignedWord)
    }

    /// Whether the immediate is sign-extended.
    pub fn signed(self) -> (s: bool)
        ensures
            s == self.signed_spec(),
    {
        match self {
            ImmediateRule::UnsignedByte | ImmediateRule::UnsignedWord => false,
            _ => true,
        }
    }
}

/// Where one operand of an instruction comes from.
#[derive(Clone, Copy, Debug, PartialEq, Eq, Structural)]
pub enum Slot {
    /// No operand.
    Absent,
    /// The rm field of the ModRM byte: a register or memory, of the operand
    /// width.
    Rm,
    /// The rm field: a register or memory of a width of its own, which the
    /// text announces before a memory operand.
    RmOf(Width),
    /// The rm field, which must select memory.
    RmMemory,
    /// The rm field, which must select a register, of the given width.
    RmRegister(Width),
    /// The reg field of the ModRM byte: a general-purpose register of the
    /// operand width.
    Reg,
    /// The reg field: a segment register.
    SegmentReg,
    /// The reg field: a control register.
    ControlReg,
    /// The reg field: a debug register.
    DebugReg,
    /// The general-purpose register that the low three bits of the opcode
    /// select, of the operand width.
    OpcodeReg(u8),
    /// The accumulator, of the operand width.
    Accumulator,
    /// A register that the opcode implies.
    Fixed(Register),
    /// The number one, which the opcode implies: the count of a shift by one.
    One,
    /// An immediate.
    Immediate(ImmediateRule),
    /// The displacement of a relative branch, of the given width.
    Relative(Width),
    /// A memory operand whose address stands in the instruction.
    Offset,
}

impl Slot {
    /// Whether the slot is filled from the ModRM byte.
    pub open spec fn uses_modrm_spec(self) -> bool {
        match self {
            Slot::Rm | Slot::RmOf(_) | Slot::RmMemory | Slot::RmRegister(_) | Slot::Reg
            | Slot::SegmentReg | Slot::ControlReg | Slot::DebugReg => true,
            _ => false,
        }
    }

    /// Whether the slot is filled from the ModRM byte.
    pub fn uses_modrm(self) -> (r: bool)
        ensures
            r == self.uses_modrm_spec(),
    {
        match self {
            Slot::Rm | Slot::RmOf(_) | Slot::RmMemory | Slot::RmRegister(_) | Slot::Reg
            | Slot::SegmentReg | Slot::ControlReg | Slot::DebugReg => true,
            _ => false,
        }
    }
}

/// An opcode whose instruction the reg field of the ModRM byte selects.
#[derive(Clone, Copy, Debug, PartialEq, Eq, Structural)]
pub enum Group {
    /// `80`, `81`, `83`: add, or, adc, sbb, and, sub, xor, cmp.
    Arithmetic,
    /// `8f`: pop.
    Pop,
    /// `c0`, `c1`, `d0` to `d3`: rotates and shifts.
    Shift,
    /// `c6`, `c7`: mov.
    Move,
    /// `f6`, `f7`: test, not, neg, mul, imul, div, idiv.
    Unary,
    /// `fe`: inc, dec.
    Step,
    /// `ff`: inc, dec, call, jmp, push.
    Indirect,
    /// `0f ba`: bt, bts, btr, btc.
    BitTest,
}

/// How a template names its instruction.
#[derive(Clone, Copy, Debug, PartialEq, Eq, Structural)]
pub enum MnemonicRule {
    /// One mnemonic.
    Fixed(Mnemonic),
    /// A mnemonic for each of the operand widths of 16, 32 and 64 bits.
    ByWidth(Mnemonic, Mnemonic, Mnemonic),
    /// The reg field of the ModRM byte decides.
    Group(Group),
}

impl MnemonicRule {
    /// The mnemonic for an operand of `width`. A group has none before the
    /// ModRM byte has resolved it; it stands as `nop` here.
    pub open spec fn select_spec(self, width: Width) -> Mnemonic {
        match self {
            MnemonicRule::Fixed(m) => m,
            MnemonicRule::ByWidth(word, dword, qword) => match width {
                Width::Qword => qword,
                Width::Dword => dword,
                _ => word,
            },
            MnemonicRule::Group(_) => Mnemonic::Nop,
        }
    }

    /// The mnemonic for an operand of `width`.
    pub fn select(self, width: Width) -> (m: Mnemonic)
        ensures
            m == self.select_spec(width),
    {
        match self {
            MnemonicRule::Fixed(m) => m,
            MnemonicRule::ByWidth(word, dword, qword) => match width {
                Width::Qword => qword,
                Width::Dword => dword,
                _ => word,
            },
            MnemonicRule::Group(_) => Mnemonic::Nop,
        }
    }
}

/// What an opcode says of its instruction.
#[derive(Clone, Copy, Debug, PartialEq, Eq, Structural)]
pub struct OpcodeTemplate {
    pub mnemonic: MnemonicRule,
    /// How the prefixes decide the operand width.
    pub width: WidthRule,
    /// The operands in the order in which they are written.
    pub first: Slot,
    pub second: Slot,
    pub third: Slot,
    /// Whether the opcode stands behind the escape byte `0f`.
    pub two_byte: bool,
}

impl OpcodeTemplate {
    /// Whether a ModRM byte follows the opcode.
    pub open spec fn needs_modrm_spec(self) -> bool {
        self.mnemonic is Group || self.first.uses_modrm_spec() || self.second.uses_modrm_spec()
            || self.third.uses_modrm_spec()
    }

    /// Whether a ModRM byte follows the opcode.
    pub fn needs_modrm(&self) -> (r: bool)
        ensures
            r == self.needs_modrm_spec(),
    {
        let group = match self.mnemonic {
            MnemonicRule::Group(_) => true,
            _ => false,
        };
        group || self.first.uses_modrm() || self.second.uses_modrm() || self.third.uses_modrm()
    }

    /// Whether the rm field must select a register.
    pub open spec fn register_only_spec(self) -> bool {
        self.first is RmRegister || self.second is RmRegister || self.third is RmRegister
    }

    /// Whether the rm field must select a register.
    pub fn register_only(&self) -> (r: bool)
        ensures
            r == self.register_only_spec(),
    {
        matches!(self.first, Slot::RmRegister(_)) || matches!(self.second, Slot::RmRegister(_))
            || matches!(self.third, Slot::RmRegister(_))
    }

    /// Whether the rm field must select memory.
    pub open spec fn memory_only_spec(self) -> bool {
        self.first is RmMemory || self.second is RmMemory || self.third is RmMemory
    }

    /// Whether the rm field must select memory.
    pub fn memory_only(&self) -> (r: bool)
        ensures
            r == self.memory_only_spec(),
    {
        matches!(self.first, Slot::RmMemory) || matches!(self.second, Slot::RmMemory) || matches!(
            self.third,
            Slot::RmMemory
        )
    }

    /// The template with `mnemonic` in place of its own.
    pub open spec fn named_spec(self, mnemonic: Mnemonic) -> OpcodeTemplate {
        OpcodeTemplate { mnemonic: MnemonicRule::Fixed(mnemonic), ..self }
    }

    /// The template with `mnemonic` in place of its own.
    #[verifier::when_used_as_spec(named_spec)]
    pub fn named(self, mnemonic: Mnemonic) -> (t: OpcodeTemplate)
        ensures
            t == self.named_spec(mnemonic),
    {
        OpcodeTemplate { mnemonic: MnemonicRule::Fixed(mnemonic), ..self }
    }
}

/// The template of an instruction of the one-byte map.
pub open spec fn template_spec(
    mnemonic: MnemonicRule,
    width: WidthRule,
    first: Slot,
    second: Slot,
    third: Slot,
) -> OpcodeTemplate {
    OpcodeTemplate { mnemonic, width, first, second, third, two_byte: false }
}

/// The template of an instruction of the one-byte map.
#[verifier::when_used_as_spec(template_spec)]
pub fn template(
    mnemonic: MnemonicRule,
    width: WidthRule,
    first: Slot,
    second: Slot,
    third: Slot,
) -> (t: OpcodeTemplate)
    ensures
        t == template_spec(mnemonic, width, first, second, third),
{
    OpcodeTemplate { mnemonic, width, first, second, third, two_byte: false }
}

/// The order of the prefixes' say over the width, under every rule that
/// does not fix it. REX.W wins over the operand-size override: with REX.W
/// the width is the same with and without the override. The override wins
/// over the default: without REX.W it makes the width 16 bits. Under the
/// general rule that is 64 bits with REX.W, else 16 bits with the override,
/// else 32 bits.
pub proof fn lemma_width_resolution(rule: WidthRule, p: PrefixState)
    requires
        !rule.is_fixed_spec(),
    ensures
        p.rex_w ==> rule.resolve_spec(p) == rule.widest_spec(),
        p.rex_w ==> rule.resolve_spec(p) == rule.resolve_spec(
            PrefixState { operand_size: !p.operand_size, ..p },
        ),
        !p.rex_w && p.operand_size ==> rule.resolve_spec(p) == Width::Word,
        !p.rex_w && !p.operand_size ==> rule.resolve_spec(p) == rule.default_spec(),
        rule == WidthRule::General ==> rule.resolve_spec(p) == if p.rex_w {
            Width::Qword
        } else if p.operand_size {
            Width::Word
        } else {
            Width::Dword
        },
{
}

/// A fixed width is the same under all prefixes.
pub proof fn lemma_fixed_width(rule: WidthRule, p: PrefixState, q: PrefixState)
    requires
        rule.is_fixed_spec(),
    ensures
        rule.resolve_spec(p) == rule.resolve_spec(q),
{
}

} // verus!
