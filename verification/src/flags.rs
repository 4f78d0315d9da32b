//! The fixed set of control bits carried in every packet header.
//!
//! The wire field is 16 bits wide; only the bits named below are assigned.
//! All other bits are reserved and must be zero in a well-formed flag set.

use vstd::prelude::*;

verus! {

/// Connection open request.
pub const FLAG_SYN: u16 = 0x0001;

/// Acknowledge.
pub const FLAG_ACK: u16 = 0x0002;

/// Close request (reserved for a close-handshake extension).
pub const FLAG_FIN: u16 = 0x0004;

/// Reset (reserved).
pub const FLAG_RST: u16 = 0x0008;

/// Segmentation bit: more segments of the same message follow (declared,
/// not acted upon by the core transition logic).
pub const FLAG_SEG: u16 = 0x0010;

/// Liveness probe (declared, not acted upon).
pub const FLAG_KEEP_ALIVE: u16 = 0x0080;

/// Every assigned bit; a well-formed flag word has no bit outside this mask.
pub const FLAG_MASK: u16 = 0x009F;

/// A flag word is well formed when every reserved bit is zero.
pub open spec fn flag_bits_wf(bits: u16) -> bool {
    bits & !FLAG_MASK == 0
}

/// `a` contains every bit of `b`.
pub open spec fn spec_contains(a: u16, b: u16) -> bool {
    a & b == b
}

/// A set of control bits, any subset of the declared flags combinable.
#[derive(Clone, Copy, PartialEq, Eq, Structural, Debug)]
pub struct AzukiFlags {
    pub bits: u16,
}

impl View for AzukiFlags {
    type V = u16;

    open spec fn view(&self) -> u16 {
        self.bits
    }
}

impl AzukiFlags {
    /// The set with no bit set.
    pub fn empty() -> (r: AzukiFlags)
        ensures
            r@ == 0,
    {
        AzukiFlags { bits: 0 }
    }

    /// Builds a flag set from a raw word known to be well formed.
    pub fn new(bits: u16) -> (r: AzukiFlags)
        requires
            flag_bits_wf(bits),
        ensures
            r@ == bits,
    {
        AzukiFlags { bits }
    }

    /// Builds a flag set from an arbitrary raw word; rejects any word with a
    /// reserved bit set.
    pub fn from_bits(bits: u16) -> (r: Option<AzukiFlags>)
        ensures
            r is Some <==> flag_bits_wf(bits),
            r matches Some(f) ==> f@ == bits,
    {
        if bits & !FLAG_MASK == 0 {
            Some(AzukiFlags { bits })
        } else {
            None
        }
    }

    /// The raw 16-bit word.
    pub fn bits(self) -> (r: u16)
        ensures
            r == self@,
    {
        self.bits
    }

    /// No reserved bit is set.
    pub open spec fn wf(self) -> bool {
        flag_bits_wf(self@)
    }

    /// `self` has every bit of `other`.
    pub fn contains(self, other: AzukiFlags) -> (r: bool)
        ensures
            r == spec_contains(self@, other@),
    {
        self.bits & other.bits == other.bits
    }

    /// The union of the two bit sets.
    pub fn union(self, other: AzukiFlags) -> (r: AzukiFlags)
        ensures
            r@ == (self@ | other@),
    {
        AzukiFlags { bits: self.bits | other.bits }
    }
}

} // verus!
