//! Drivers for USB controllers, and the USB route string.
use vstd::prelude::*;
use crate::bitfield::{get_bits, read_bits};

pub mod xhci;

verus! {

/// A USB route string: which port a device is plugged into on each hub between it and its root port,
/// four bits per hub tier, in the low 20 bits.
#[derive(Debug, Clone, Copy, PartialEq, Eq, Hash)]
pub struct RouteString(u32);

impl View for RouteString {
    type V = u32;

    closed spec fn view(&self) -> u32 {
        self.0
    }
}

/// The port offset at a 1-based hub tier of a route string: four bits per tier.
pub open spec fn offset_at_tier_of(route: u32, tier: u8) -> u8 {
    get_bits(route, (4 * (tier - 1)) as u32, 4) as u8
}

impl RouteString {
    #[verifier::type_invariant]
    spec fn valid(self) -> bool {
        self.0 < 0x10_0000
    }

    /// Gets the port offset at the given `tier`. The tier is 1-based and does not count the root hub:
    /// tier 1 is the port on the hub directly connected to the root hub. The result is in `0..=15`.
    pub fn offset_at_tier(&self, tier: u8) -> (r: u8)
        requires
            1 <= tier <= 5,
        ensures
            r == offset_at_tier_of(self@, tier),
            r <= 15,
    {
        read_bits(self.0, 4 * ((tier - 1) as u32), 4) as u8
    }

    /// The port offsets of the five tiers, starting at the hub closest to the root hub.
    pub fn offsets(&self) -> (r: Vec<u8>)
        ensures
            r.len() == 5,
            forall|i: int| 0 <= i < 5 ==> #[trigger] r@[i] == offset_at_tier_of(self@, (i + 1) as u8),
    {
        let mut r: Vec<u8> = Vec::new();
        let mut tier: u8 = 1;
        while tier <= 5
            invariant
                1 <= tier <= 6,
                r.len() == tier - 1,
                forall|i: int| 0 <= i < tier - 1 ==> #[trigger] r@[i] == offset_at_tier_of(self@, (i + 1) as u8),
            decreases 6 - tier,
        {
            r.push(self.offset_at_tier(tier));
            tier = tier + 1;
        }
        r
    }

    /// Constructs a route string from its bit representation, in which only the low 20 bits may be set.
    pub fn from_bits(bits: u32) -> (r: Self)
        requires
            bits < 0x10_0000,
        ensures
            r@ == bits,
    {
        RouteString(bits)
    }

    /// Converts a route string into its bit representation.
    pub fn into_bits(self) -> (r: u32)
        ensures
            r == self@,
            r < 0x10_0000,
    {
        proof {
            use_type_invariant(&self);
        }
        self.0
    }
}

} // verus!
