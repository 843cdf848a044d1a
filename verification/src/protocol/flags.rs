//! Bit flags carried in the header `flags` field.

use vstd::prelude::*;

verus! {

/// Bit flags carried in the header `flags` field.
///
/// Multiple flags may be combined in a single frame; for example `SYN |
/// ACK` on the first `Data` frame echoed back to confirm a stream open.
/// Only the four low bits are defined; [`Flags::from_bits`] refuses others.
#[derive(Debug, Clone, Copy, PartialEq, Eq, Hash, Structural)]
pub struct Flags {
    pub bits: u16,
}

/// The union of all defined flag bits.
pub const ALL_FLAG_BITS: u16 = 0xF;

impl Flags {
    /// New stream is being opened.
    pub fn syn() -> (f: Flags)
        ensures
            f.bits == 1,
    {
        Flags { bits: 1 }
    }

    /// Acknowledgement of a SYN.
    pub fn ack() -> (f: Flags)
        ensures
            f.bits == 2,
    {
        Flags { bits: 2 }
    }

    /// Sender will not transmit any more data on this stream.
    pub fn fin() -> (f: Flags)
        ensures
            f.bits == 4,
    {
        Flags { bits: 4 }
    }

    /// Stream is being abruptly reset.
    pub fn rst() -> (f: Flags)
        ensures
            f.bits == 8,
    {
        Flags { bits: 8 }
    }

    /// Only defined bits are set.
    pub open spec fn wf(self) -> bool {
        self.bits <= ALL_FLAG_BITS
    }

    /// Whether every bit of `other` is set in `self`.
    pub open spec fn spec_contains(self, other: Flags) -> bool {
        self.bits & other.bits == other.bits
    }

    /// The flag set with no bit set.
    pub fn empty() -> (f: Flags)
        ensures
            f.bits == 0,
            f.wf(),
    {
        Flags { bits: 0 }
    }

    /// The raw bits.
    pub fn bits(&self) -> (b: u16)
        ensures
            b == self.bits,
    {
        self.bits
    }

    /// The flag set with exactly these bits, or `None` when a bit outside the
    /// defined flags is set.
    pub fn from_bits(bits: u16) -> (r: Option<Flags>)
        ensures
            bits <= ALL_FLAG_BITS ==> r == Some(Flags { bits }),
            bits > ALL_FLAG_BITS ==> r is None,
    {
        if bits <= ALL_FLAG_BITS {
            Some(Flags { bits })
        } else {
            None
        }
    }

    /// Whether every bit of `other` is set in `self`.
    pub fn contains(&self, other: Flags) -> (b: bool)
        ensures
            b == self.spec_contains(other),
    {
        self.bits & other.bits == other.bits
    }

    /// Whether no bit is set.
    pub fn is_empty(&self) -> (b: bool)
        ensures
            b == (self.bits == 0),
    {
        self.bits == 0
    }

    /// The bits set in either operand.
    pub fn union(self, other: Flags) -> (f: Flags)
        ensures
            f.bits == self.bits | other.bits,
            self.wf() && other.wf() ==> f.wf(),
    {
        let x = self.bits;
        let y = other.bits;
        let b = x | y;
        assert(x <= 0xF && y <= 0xF ==> b <= 0xF) by (bit_vector)
            requires
                b == x | y,
        ;
        Flags { bits: b }
    }
}

impl core::ops::BitOr for Flags {
    type Output = Flags;

    fn bitor(self, other: Flags) -> (f: Flags) {
        self.union(other)
    }
}

impl vstd::std_specs::ops::BitOrSpecImpl for Flags {
    open spec fn obeys_bitor_spec() -> bool {
        true
    }

    open spec fn bitor_req(self, rhs: Flags) -> bool {
        true
    }

    open spec fn bitor_spec(self, rhs: Flags) -> Flags {
        Flags { bits: self.bits | rhs.bits }
    }
}

} // verus!
