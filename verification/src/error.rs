//! Why a decode fails.

use vstd::prelude::*;

verus! {

/// Why a byte sequence does not decode.
#[derive(Clone, Copy, Debug, PartialEq, Eq, Structural)]
pub enum DecodeError {
    /// The input ended inside the instruction.
    TruncatedInput,
    /// The bytes encode no instruction.
    UnassignedOpcode,
    /// The bytes encode an instruction outside the supported set.
    UnsupportedEncoding,
}

impl DecodeError {
    /// A short description of the failure.
    pub open spec fn message_text(self) -> Seq<char> {
        match self {
            DecodeError::TruncatedInput => "truncated input"@,
            DecodeError::UnassignedOpcode => "unassigned opcode"@,
            DecodeError::UnsupportedEncoding => "unsupported encoding"@,
        }
    }

    /// A short description of the failure.
    pub fn message(&self) -> (s: &'static str)
        ensures
            s@ == self.message_text(),
    {
        match self {
            DecodeError::TruncatedInput => "truncated input",
            DecodeError::UnassignedOpcode => "unassigned opcode",
            DecodeError::UnsupportedEncoding => "unsupported encoding",
        }
    }
}

/// Whether a decoding step's result `r` is what its model `m` gives: the
/// same value and the same end position, or the same error.
pub open spec fn same_step<V>(
    r: Result<(V, usize), DecodeError>,
    m: Result<(V, int), DecodeError>,
) -> bool {
    match r {
        Ok((v, end)) => m == Ok::<(V, int), DecodeError>((v, end as int)),
        Err(e) => m == Err::<(V, int), DecodeError>(e),
    }
}

} // verus!
