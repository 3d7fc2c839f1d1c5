//! The prefix scanner: legacy prefixes and the REX byte.
//!
//! The model describes the outcome by what the run of leading prefix bytes
//! holds, not by the order in which a scanner meets them: an override is in
//! force if its byte occurs in the run, the segment is that of the last
//! segment byte, and a REX byte counts only as the last byte of the run.

use vstd::prelude::*;
use crate::error::{DecodeError, same_step};
use crate::registers::Segment;

verus! {

/// What the prefixes of one instruction say.
#[derive(Clone, Copy, Debug, PartialEq, Eq)]
pub struct PrefixState {
    /// The operand-size override, `66`.
    pub operand_size: bool,
    /// The address-size override, `67`.
    pub address_size: bool,
    /// The segment override that is in force.
    pub segment: Option<Segment>,
    /// `f0`.
    pub lock: bool,
    /// `f2`.
    pub repne: bool,
    /// `f3`.
    pub rep: bool,
    /// Whether a REX byte stands directly before the opcode.
    pub rex_present: bool,
    pub rex_w: bool,
    pub rex_r: bool,
    pub rex_x: bool,
    pub rex_b: bool,
}

impl PrefixState {
    /// No REX bit is set without a REX byte.
    pub open spec fn wf(self) -> bool {
        !self.rex_present ==> !self.rex_w && !self.rex_r && !self.rex_x && !self.rex_b
    }

    /// The state of an instruction without prefixes.
    pub open spec fn none_spec() -> PrefixState {
        prefix_state(Seq::<u8>::empty())
    }

    /// The state of an instruction without prefixes.
    pub fn none() -> (p: PrefixState)
        ensures
            p == Self::none_spec(),
            p.wf(),
    {
        PrefixState {
            operand_size: false,
            address_size: false,
            segment: None,
            lock: false,
            repne: false,
            rep: false,
            rex_present: false,
            rex_w: false,
            rex_r: false,
            rex_x: false,
            rex_b: false,
        }
    }

    /// The state after one more prefix byte, `b`: a legacy prefix sets its
    /// flag and cancels an earlier REX byte, a REX byte replaces one.
    pub open spec fn absorb_spec(self, b: u8) -> PrefixState {
        PrefixState {
            operand_size: self.operand_size || b == 0x66,
            address_size: self.address_size || b == 0x67,
            segment: if segment_override(b) is Some {
                segment_override(b)
            } else {
                self.segment
            },
            lock: self.lock || b == 0xf0,
            repne: self.repne || b == 0xf2,
            rep: self.rep || b == 0xf3,
            rex_present: is_rex(b),
            rex_w: is_rex(b) && bit_set(b, 8),
            rex_r: is_rex(b) && bit_set(b, 4),
            rex_x: is_rex(b) && bit_set(b, 2),
            rex_b: is_rex(b) && bit_set(b, 1),
        }
    }

    /// The state after one more prefix byte.
    pub fn absorb(self, b: u8) -> (p: PrefixState)
        ensures
            p == self.absorb_spec(b),
    {
        let rex = 0x40 <= b && b <= 0x4f;
        assert((b & 8 != 0) == bit_set(b, 8)) by (bit_vector);
        assert((b & 4 != 0) == bit_set(b, 4)) by (bit_vector);
        assert((b & 2 != 0) == bit_set(b, 2)) by (bit_vector);
        assert((b & 1 != 0) == bit_set(b, 1)) by (bit_vector);
        PrefixState {
            operand_size: self.operand_size || b == 0x66,
            address_size: self.address_size || b == 0x67,
            segment: match segment_of(b) {
                Some(s) => Some(s),
                None => self.segment,
            },
            lock: self.lock || b == 0xf0,
            repne: self.repne || b == 0xf2,
            rep: self.rep || b == 0xf3,
            rex_present: rex,
            rex_w: rex && b & 8 != 0,
            rex_r: rex && b & 4 != 0,
            rex_x: rex && b & 2 != 0,
            rex_b: rex && b & 1 != 0,
        }
    }
}

/// Whether the bit of `b` with the value `bit`, a power of two, is set.
pub open spec fn bit_set(b: u8, bit: u8) -> bool {
    (b / bit) % 2 == 1
}

/// Whether `b` is a REX byte.
pub open spec fn is_rex(b: u8) -> bool {
    0x40 <= b <= 0x4f
}

/// The segment that `b` selects, if `b` is a segment-override prefix.
pub open spec fn segment_override(b: u8) -> Option<Segment> {
    if b == 0x26 {
        Some(Segment::Es)
    } else if b == 0x2e {
        Some(Segment::Cs)
    } else if b == 0x36 {
        Some(Segment::Ss)
    } else if b == 0x3e {
        Some(Segment::Ds)
    } else if b == 0x64 {
        Some(Segment::Fs)
    } else if b == 0x65 {
        Some(Segment::Gs)
    } else {
        None
    }
}

/// Whether `b` is a legacy prefix.
pub open spec fn is_legacy_prefix(b: u8) -> bool {
    segment_override(b) is Some || b == 0x66 || b == 0x67 || b == 0xf0 || b == 0xf2 || b == 0xf3
}

/// Whether `b` is a prefix byte of either kind.
pub open spec fn is_prefix(b: u8) -> bool {
    is_legacy_prefix(b) || is_rex(b)
}

/// The position of the first byte from `pos` on that is no prefix, or the
/// length of `bytes` where none follows.
pub open spec fn prefix_end(bytes: Seq<u8>, pos: int) -> int
    decreases bytes.len() - pos,
{
    if 0 <= pos < bytes.len() && is_prefix(bytes[pos]) {
        prefix_end(bytes, pos + 1)
    } else {
        pos
    }
}

/// The segment of the last segment-override byte in `run`.
pub open spec fn last_segment(run: Seq<u8>) -> Option<Segment>
    decreases run.len(),
{
    if run.len() == 0 {
        None
    } else if segment_override(run.last()) is Some {
        segment_override(run.last())
    } else {
        last_segment(run.drop_last())
    }
}

/// Whether `run` ends in a REX byte in which `bit` is set.
pub open spec fn rex_bit(run: Seq<u8>, bit: u8) -> bool {
    run.len() > 0 && is_rex(run.last()) && bit_set(run.last(), bit)
}

/// What a run of prefix bytes says.
pub open spec fn prefix_state(run: Seq<u8>) -> PrefixState {
    PrefixState {
        operand_size: run.contains(0x66u8),
        address_size: run.contains(0x67u8),
        segment: last_segment(run),
        lock: run.contains(0xf0u8),
        repne: run.contains(0xf2u8),
        rep: run.contains(0xf3u8),
        rex_present: run.len() > 0 && is_rex(run.last()),
        rex_w: rex_bit(run, 8),
        rex_r: rex_bit(run, 4),
        rex_x: rex_bit(run, 2),
        rex_b: rex_bit(run, 1),
    }
}

/// The prefix state of an instruction and the position of its opcode: the
/// run of prefix bytes at the start of `bytes` is read, and the byte behind
/// it must exist.
pub open spec fn scan_prefixes_spec(bytes: Seq<u8>) -> Result<(PrefixState, int), DecodeError> {
    let end = prefix_end(bytes, 0);
    if end >= bytes.len() {
        Err(DecodeError::TruncatedInput)
    } else {
        Ok((prefix_state(bytes.take(end)), end))
    }
}

/// The prefix run ends inside the input or at its end, behind where it starts.
pub proof fn lemma_prefix_end_bounds(bytes: Seq<u8>, pos: int)
    requires
        0 <= pos <= bytes.len(),
    ensures
        pos <= prefix_end(bytes, pos) <= bytes.len(),
        forall|i: int| pos <= i < prefix_end(bytes, pos) ==> is_prefix(#[trigger] bytes[i]),
        prefix_end(bytes, pos) < bytes.len() ==> !is_prefix(bytes[prefix_end(bytes, pos)]),
    decreases bytes.len() - pos,
{
    if pos < bytes.len() && is_prefix(bytes[pos]) {
        lemma_prefix_end_bounds(bytes, pos + 1);
    }
}

/// The state of a run sets no REX bit without a REX byte.
pub proof fn lemma_prefix_state_wf(run: Seq<u8>)
    ensures
        prefix_state(run).wf(),
{
}

/// One more byte behind a run changes the run's state as `absorb_spec` says.
pub proof fn lemma_prefix_state_push(run: Seq<u8>, b: u8)
    ensures
        prefix_state(run.push(b)) == prefix_state(run).absorb_spec(b),
{
    let next = run.push(b);
    assert(next.drop_last() =~= run);
    assert(next.last() == b);
    assert forall|x: u8| next.contains(x) == (run.contains(x) || b == x) by {
        if run.contains(x) {
            let i = choose|i: int| 0 <= i < run.len() && run[i] == x;
            assert(next[i] == x);
        }
        if b == x {
            assert(next[run.len() as int] == x);
        }
        if next.contains(x) {
            let i = choose|i: int| 0 <= i < next.len() && next[i] == x;
            if i < run.len() {
                assert(run[i] == x);
            }
        }
    }
    if !is_rex(b) {
        assert(!rex_bit(next, 8) && !rex_bit(next, 4) && !rex_bit(next, 2) && !rex_bit(next, 1));
    }
}

/// The prefix run of a shortened input is that of the whole input, cut off.
pub proof fn lemma_prefix_end_truncated(bytes: Seq<u8>, cut: int, pos: int)
    requires
        0 <= pos <= cut <= bytes.len(),
    ensures
        prefix_end(bytes.take(cut), pos) == if prefix_end(bytes, pos) <= cut {
            prefix_end(bytes, pos)
        } else {
            cut
        },
    decreases cut - pos,
{
    let short = bytes.take(cut);
    if pos < cut {
        assert(short[pos] == bytes[pos]);
        if is_prefix(bytes[pos]) {
            lemma_prefix_end_truncated(bytes, cut, pos + 1);
        }
    } else {
        lemma_prefix_end_bounds(bytes, pos);
    }
}

/// The segment that `b` selects, if `b` is a segment-override prefix.
pub fn segment_of(b: u8) -> (s: Option<Segment>)
    ensures
        s == segment_override(b),
{
    match b {
        0x26 => Some(Segment::Es),
        0x2e => Some(Segment::Cs),
        0x36 => Some(Segment::Ss),
        0x3e => Some(Segment::Ds),
        0x64 => Some(Segment::Fs),
        0x65 => Some(Segment::Gs),
        _ => None,
    }
}

/// Whether `b` is a prefix byte of either kind.
pub fn is_prefix_byte(b: u8) -> (r: bool)
    ensures
        r == is_prefix(b),
{
    match b {
        0x26 | 0x2e | 0x36 | 0x3e | 0x64 | 0x65 | 0x66 | 0x67 | 0xf0 | 0xf2 | 0xf3 => true,
        _ => 0x40 <= b && b <= 0x4f,
    }
}

/// Reads the prefixes at the start of `bytes`. Returns their state and the
/// position of the first byte that is no prefix, or `TruncatedInput` where
/// every byte is a prefix.
pub fn scan_prefixes(bytes: &[u8]) -> (r: Result<(PrefixState, usize), DecodeError>)
    ensures
        same_step(r, scan_prefixes_spec(bytes@)),
        r matches Ok((p, at)) ==> p.wf() && at < bytes@.len() && !is_prefix(bytes@[at as int]),
{
    let mut state = PrefixState::none();
    let mut i: usize = 0;
    proof {
        assert(bytes@.take(0) =~= Seq::<u8>::empty());
    }
    while i < bytes.len() && is_prefix_byte(bytes[i])
        invariant
            i <= bytes@.len(),
            prefix_end(bytes@, 0) == prefix_end(bytes@, i as int),
            state == prefix_state(bytes@.take(i as int)),
        decreases bytes@.len() - i,
    {
        proof {
            lemma_prefix_state_push(bytes@.take(i as int), bytes@[i as int]);
            assert(bytes@.take(i as int).push(bytes@[i as int]) =~= bytes@.take(i + 1));
        }
        state = state.absorb(bytes[i]);
        i = i + 1;
    }
    proof {
        lemma_prefix_state_wf(bytes@.take(i as int));
    }
    if i < bytes.len() {
        Ok((state, i))
    } else {
        Err(DecodeError::TruncatedInput)
    }
}

} // verus!
