//! Register identities and their display names.
//!
//! A register is a bank and an index in it. The eight-bit registers with
//! the indices 4 to 7 are the irregular part: without a REX prefix these
//! indices name `ah`, `ch`, `dh` and `bh`, with one they name `spl`, `bpl`,
//! `sil` and `dil`. The two sets live in different banks, so that a
//! register's name never depends on anything but the register.

use vstd::prelude::*;
use vstd::string::StringExecFns;
use crate::text::{decimal_digits, push_decimal_digits};

verus! {

/// The width of an operand.
#[derive(Clone, Copy, Debug, PartialEq, Eq, Structural)]
pub enum Width {
    Byte,
    Word,
    Dword,
    Qword,
}

impl Width {
    /// The number of bytes an operand of this width occupies.
    pub open spec fn byte_count(self) -> int {
        match self {
            Width::Byte => 1,
            Width::Word => 2,
            Width::Dword => 4,
            Width::Qword => 8,
        }
    }

    /// The number of bytes an operand of this width occupies.
    pub fn bytes(self) -> (n: usize)
        ensures
            n == self.byte_count(),
    {
        match self {
            Width::Byte => 1,
            Width::Word => 2,
            Width::Dword => 4,
            Width::Qword => 8,
        }
    }

    /// The keyword that announces a memory operand of this width.
    pub open spec fn keyword_text(self) -> Seq<char> {
        match self {
            Width::Byte => "byte"@,
            Width::Word => "word"@,
            Width::Dword => "dword"@,
            Width::Qword => "qword"@,
        }
    }

    /// The keyword that announces a memory operand of this width.
    pub fn keyword(self) -> (s: &'static str)
        ensures
            s@ == self.keyword_text(),
    {
        match self {
            Width::Byte => "byte",
            Width::Word => "word",
            Width::Dword => "dword",
            Width::Qword => "qword",
        }
    }
}

/// A segment register, in the order of its encoding.
#[derive(Clone, Copy, Debug, PartialEq, Eq, Structural)]
pub enum Segment {
    Es,
    Cs,
    Ss,
    Ds,
    Fs,
    Gs,
}

impl Segment {
    /// The segment's name.
    pub open spec fn name_text(self) -> Seq<char> {
        match self {
            Segment::Es => "es"@,
            Segment::Cs => "cs"@,
            Segment::Ss => "ss"@,
            Segment::Ds => "ds"@,
            Segment::Fs => "fs"@,
            Segment::Gs => "gs"@,
        }
    }

    /// The segment's name.
    pub fn name(self) -> (s: &'static str)
        ensures
            s@ == self.name_text(),
    {
        match self {
            Segment::Es => "es",
            Segment::Cs => "cs",
            Segment::Ss => "ss",
            Segment::Ds => "ds",
            Segment::Fs => "fs",
            Segment::Gs => "gs",
        }
    }

    /// The segment that the number `index` encodes, if it encodes one.
    pub open spec fn from_index_spec(index: int) -> Option<Segment> {
        if index == 0 {
            Some(Segment::Es)
        } else if index == 1 {
            Some(Segment::Cs)
        } else if index == 2 {
            Some(Segment::Ss)
        } else if index == 3 {
            Some(Segment::Ds)
        } else if index == 4 {
            Some(Segment::Fs)
        } else if index == 5 {
            Some(Segment::Gs)
        } else {
            None
        }
    }

    /// The segment that the number `index` encodes, if it encodes one.
    pub fn from_index(index: u8) -> (s: Option<Segment>)
        ensures
            s == Self::from_index_spec(index as int),
    {
        match index {
            0 => Some(Segment::Es),
            1 => Some(Segment::Cs),
            2 => Some(Segment::Ss),
            3 => Some(Segment::Ds),
            4 => Some(Segment::Fs),
            5 => Some(Segment::Gs),
            _ => None,
        }
    }
}

/// The families of registers.
#[derive(Clone, Copy, Debug, PartialEq, Eq, Structural)]
pub enum RegisterBank {
    /// The low bytes `al` to `r15b`, with `spl`, `bpl`, `sil`, `dil` at 4 to 7.
    ByteLow,
    /// The high bytes `ah`, `ch`, `dh`, `bh`, at the indices 4 to 7.
    ByteHigh,
    /// `ax` to `r15w`.
    Word,
    /// `eax` to `r15d`.
    Dword,
    /// `rax` to `r15`.
    Qword,
    /// `es` to `gs`.
    Segment,
    /// `cr0` to `cr15`.
    Control,
    /// `dr0` to `dr15`.
    Debug,
    /// `rip`, the base of a memory operand relative to the next instruction.
    Rip,
    /// `eip`, what `rip` becomes under an address-size override.
    Eip,
}

/// A register: a bank and an index in it.
#[derive(Clone, Copy, Debug, PartialEq, Eq, Structural)]
pub struct Register {
    pub bank: RegisterBank,
    pub index: u8,
}

/// The bank of the general-purpose registers that are `width` wide, as the
/// index and the presence of a REX prefix select it.
pub open spec fn general_bank(index: int, width: Width, rex_present: bool) -> RegisterBank {
    match width {
        Width::Byte => if !rex_present && 4 <= index < 8 {
            RegisterBank::ByteHigh
        } else {
            RegisterBank::ByteLow
        },
        Width::Word => RegisterBank::Word,
        Width::Dword => RegisterBank::Dword,
        Width::Qword => RegisterBank::Qword,
    }
}

/// The name of the sixteen-bit register with an index below 8. The names of
/// the wider and narrower registers with that index derive from it.
pub open spec fn legacy_stem(index: int) -> Seq<char> {
    if index == 0 {
        "ax"@
    } else if index == 1 {
        "cx"@
    } else if index == 2 {
        "dx"@
    } else if index == 3 {
        "bx"@
    } else if index == 4 {
        "sp"@
    } else if index == 5 {
        "bp"@
    } else if index == 6 {
        "si"@
    } else {
        "di"@
    }
}

/// The name of the low byte of the register with an index below 8.
pub open spec fn legacy_low_byte(index: int) -> Seq<char> {
    if index == 0 {
        "al"@
    } else if index == 1 {
        "cl"@
    } else if index == 2 {
        "dl"@
    } else if index == 3 {
        "bl"@
    } else if index == 4 {
        "spl"@
    } else if index == 5 {
        "bpl"@
    } else if index == 6 {
        "sil"@
    } else {
        "dil"@
    }
}

/// The name of the high-byte register with an index from 4 to 7.
pub open spec fn legacy_high_byte(index: int) -> Seq<char> {
    if index == 4 {
        "ah"@
    } else if index == 5 {
        "ch"@
    } else if index == 6 {
        "dh"@
    } else {
        "bh"@
    }
}

impl Register {
    /// Whether the index names a register of the bank.
    pub open spec fn wf(self) -> bool {
        match self.bank {
            RegisterBank::ByteHigh => 4 <= self.index < 8,
            RegisterBank::Segment => self.index < 6,
            RegisterBank::Rip | RegisterBank::Eip => self.index == 0,
            _ => self.index < 16,
        }
    }

    /// The general-purpose register that an encoded index selects.
    pub open spec fn general_spec(index: u8, width: Width, rex_present: bool) -> Register {
        Register { bank: general_bank(index as int, width, rex_present), index }
    }

    /// The general-purpose register that an encoded index selects: `index`
    /// is the register field with its REX extension, `width` the operand
    /// width, and `rex_present` says whether the instruction has a REX prefix.
    pub fn general(index: u8, width: Width, rex_present: bool) -> (r: Register)
        ensures
            r == Self::general_spec(index, width, rex_present),
            index < 16 ==> r.wf(),
    {
        let bank = match width {
            Width::Byte => if !rex_present && 4 <= index && index < 8 {
                RegisterBank::ByteHigh
            } else {
                RegisterBank::ByteLow
            },
            Width::Word => RegisterBank::Word,
            Width::Dword => RegisterBank::Dword,
            Width::Qword => RegisterBank::Qword,
        };
        Register { bank, index }
    }

    /// The width of the register, where its bank has one.
    pub open spec fn width_spec(self) -> Option<Width> {
        match self.bank {
            RegisterBank::ByteLow | RegisterBank::ByteHigh => Some(Width::Byte),
            RegisterBank::Word | RegisterBank::Segment => Some(Width::Word),
            RegisterBank::Dword | RegisterBank::Eip => Some(Width::Dword),
            RegisterBank::Qword | RegisterBank::Rip => Some(Width::Qword),
            RegisterBank::Control | RegisterBank::Debug => None,
        }
    }

    /// The width of the register, where its bank has one.
    pub fn width(&self) -> (w: Option<Width>)
        ensures
            w == self.width_spec(),
    {
        match self.bank {
            RegisterBank::ByteLow | RegisterBank::ByteHigh => Some(Width::Byte),
            RegisterBank::Word | RegisterBank::Segment => Some(Width::Word),
            RegisterBank::Dword | RegisterBank::Eip => Some(Width::Dword),
            RegisterBank::Qword | RegisterBank::Rip => Some(Width::Qword),
            RegisterBank::Control | RegisterBank::Debug => None,
        }
    }

    /// The register's display name. A general-purpose register with an index
    /// of 8 or more is `r`, the index, and a letter for its width; control
    /// and debug registers are `cr` and `dr` with the index.
    pub open spec fn name_text(self) -> Seq<char> {
        let i = self.index as int;
        match self.bank {
            RegisterBank::ByteLow => if i < 8 {
                legacy_low_byte(i)
            } else {
                "r"@ + decimal_digits(i as nat) + "b"@
            },
            RegisterBank::ByteHigh => legacy_high_byte(i),
            RegisterBank::Word => if i < 8 {
                legacy_stem(i)
            } else {
                "r"@ + decimal_digits(i as nat) + "w"@
            },
            RegisterBank::Dword => if i < 8 {
                "e"@ + legacy_stem(i)
            } else {
                "r"@ + decimal_digits(i as nat) + "d"@
            },
            RegisterBank::Qword => if i < 8 {
                "r"@ + legacy_stem(i)
            } else {
                "r"@ + decimal_digits(i as nat)
            },
            RegisterBank::Segment => match Segment::from_index_spec(i) {
                Some(s) => s.name_text(),
                None => "?"@,
            },
            RegisterBank::Control => "cr"@ + decimal_digits(i as nat),
            RegisterBank::Debug => "dr"@ + decimal_digits(i as nat),
            RegisterBank::Rip => "rip"@,
            RegisterBank::Eip => "eip"@,
        }
    }

    /// Appends the register's display name to `out`.
    pub fn push_name(&self, out: &mut String)
        ensures
            final(out)@ == old(out)@ + self.name_text(),
    {
        let i = self.index;
        match self.bank {
            RegisterBank::ByteLow => {
                if i < 8 {
                    out.append(low_byte_name(i));
                } else {
                    push_numbered(out, i, "b");
                }
            },
            RegisterBank::ByteHigh => {
                out.append(high_byte_name(i));
            },
            RegisterBank::Word => {
                if i < 8 {
                    out.append(stem_name(i));
                } else {
                    push_numbered(out, i, "w");
                }
            },
            RegisterBank::Dword => {
                if i < 8 {
                    out.append("e");
                    out.append(stem_name(i));
                } else {
                    push_numbered(out, i, "d");
                }
            },
            RegisterBank::Qword => {
                out.append("r");
                if i < 8 {
                    out.append(stem_name(i));
                } else {
                    push_decimal_digits(out, i as u64);
                }
            },
            RegisterBank::Segment => {
                match Segment::from_index(i) {
                    Some(s) => out.append(s.name()),
                    None => out.append("?"),
                }
            },
            RegisterBank::Control => {
                out.append("cr");
                push_decimal_digits(out, i as u64);
            },
            RegisterBank::Debug => {
                out.append("dr");
                push_decimal_digits(out, i as u64);
            },
            RegisterBank::Rip => {
                out.append("rip");
            },
            RegisterBank::Eip => {
                out.append("eip");
            },
        }
        assert(final(out)@ =~= old(out)@ + self.name_text());
    }

    /// The register's display name.
    pub fn name(&self) -> (s: String)
        ensures
            s@ == self.name_text(),
    {
        let mut s = String::new();
        self.push_name(&mut s);
        assert(s@ =~= self.name_text());
        s
    }
}

/// The name of the sixteen-bit register with the index `i`, taken modulo 8.
fn stem_name(i: u8) -> (s: &'static str)
    requires
        i < 8,
    ensures
        s@ == legacy_stem(i as int),
{
    match i {
        0 => "ax",
        1 => "cx",
        2 => "dx",
        3 => "bx",
        4 => "sp",
        5 => "bp",
        6 => "si",
        _ => "di",
    }
}

fn low_byte_name(i: u8) -> (s: &'static str)
    requires
        i < 8,
    ensures
        s@ == legacy_low_byte(i as int),
{
    match i {
        0 => "al",
        1 => "cl",
        2 => "dl",
        3 => "bl",
        4 => "spl",
        5 => "bpl",
        6 => "sil",
        _ => "dil",
    }
}

fn high_byte_name(i: u8) -> (s: &'static str)
    ensures
        s@ == legacy_high_byte(i as int),
{
    match i {
        4 => "ah",
        5 => "ch",
        6 => "dh",
        _ => "bh",
    }
}

/// Appends `r`, the number `i` and `suffix`.
fn push_numbered(out: &mut String, i: u8, suffix: &str)
    ensures
        final(out)@ == old(out)@ + "r"@ + decimal_digits(i as nat) + suffix@,
{
    out.append("r");
    push_decimal_digits(out, i as u64);
    out.append(suffix);
}

} // verus!
