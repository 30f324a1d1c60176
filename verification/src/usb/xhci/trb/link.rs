//! The [`LinkTrb`] type, which ends a segment of a command or transfer ring.
use vstd::prelude::*;
use crate::bitfield::{bit_is_set, get_bits, read_bit, read_bits, set_bit, set_bits, write_bit, write_bits};

verus! {

/// The configuration dword of a [`LinkTrb`]: bits 22 to 31 hold the interrupter target.
#[derive(Debug, Clone, Copy, PartialEq, Eq)]
pub struct LinkTrbConfig {
    bits: u32,
}

impl View for LinkTrbConfig {
    type V = u32;

    closed spec fn view(&self) -> u32 {
        self.bits
    }
}

impl LinkTrbConfig {
    /// A configuration with every bit clear.
    pub fn new() -> (r: Self)
        ensures
            r@ == 0,
    {
        LinkTrbConfig { bits: 0 }
    }

    /// The interrupter to send a completion event to, if [`LinkTrbFlags::interrupt_on_completion`] is set.
    pub fn interrupter_target(&self) -> (r: u16)
        ensures
            r == get_bits(self@, 22, 10),
    {
        read_bits(self.bits, 22, 10) as u16
    }

    /// Returns the configuration with the interrupter target set to the low 10 bits of `v`.
    pub fn with_interrupter_target(self, v: u16) -> (r: Self)
        ensures
            r@ == set_bits(self@, 22, 10, v as u32),
    {
        LinkTrbConfig { bits: write_bits(self.bits, 22, 10, v as u32) }
    }

    /// The configuration as the dword written to the ring.
    pub fn into_bits(self) -> (r: u32)
        ensures
            r == self@,
    {
        self.bits
    }
}

/// The value of a new [`LinkTrbFlags`]: every bit clear except the TRB type, which is `Link` (6).
pub open spec fn link_flags_default() -> u32 {
    6u32 << 10
}

/// The flags dword of a [`LinkTrb`]: cycle (bit 0), toggle cycle (bit 1), chain (bit 4),
/// interrupt on completion (bit 5) and the TRB type (bits 10 to 15).
#[derive(Debug, Clone, Copy, PartialEq, Eq)]
pub struct LinkTrbFlags {
    bits: u32,
}

impl View for LinkTrbFlags {
    type V = u32;

    closed spec fn view(&self) -> u32 {
        self.bits
    }
}

impl LinkTrbFlags {
    /// Flags with the TRB type set to `Link` and every other bit clear.
    pub fn new() -> (r: Self)
        ensures
            r@ == link_flags_default(),
    {
        LinkTrbFlags { bits: 6u32 << 10 }
    }

    /// Constructs the flags from their bit representation.
    pub fn from_bits(bits: u32) -> (r: Self)
        ensures
            r@ == bits,
    {
        LinkTrbFlags { bits }
    }

    /// The flags as the dword written to the ring.
    pub fn into_bits(self) -> (r: u32)
        ensures
            r == self@,
    {
        self.bits
    }

    /// The cycle bit.
    pub fn cycle(&self) -> (r: bool)
        ensures
            r == bit_is_set(self@, 0),
    {
        read_bit(self.bits, 0)
    }

    /// Whether the controller switches its cycle state after this TRB.
    pub fn toggle_cycle(&self) -> (r: bool)
        ensures
            r == bit_is_set(self@, 1),
    {
        read_bit(self.bits, 1)
    }

    /// Whether the next TRB is part of the same TD.
    pub fn chain(&self) -> (r: bool)
        ensures
            r == bit_is_set(self@, 4),
    {
        read_bit(self.bits, 4)
    }

    /// Whether an interrupt is sent when the TRB is completed.
    pub fn interrupt_on_completion(&self) -> (r: bool)
        ensures
            r == bit_is_set(self@, 5),
    {
        read_bit(self.bits, 5)
    }

    /// The TRB type field, as its 6-bit value.
    pub fn trb_type_bits(&self) -> (r: u32)
        ensures
            r == get_bits(self@, 10, 6),
    {
        read_bits(self.bits, 10, 6)
    }

    /// Returns the flags with the cycle bit set to `v`.
    pub fn with_cycle(self, v: bool) -> (r: Self)
        ensures
            r@ == set_bit(self@, 0, v),
    {
        LinkTrbFlags { bits: write_bit(self.bits, 0, v) }
    }

    /// Returns the flags with the toggle-cycle bit set to `v`.
    pub fn with_toggle_cycle(self, v: bool) -> (r: Self)
        ensures
            r@ == set_bit(self@, 1, v),
    {
        LinkTrbFlags { bits: write_bit(self.bits, 1, v) }
    }

    /// Returns the flags with the chain bit set to `v`.
    pub fn with_chain(self, v: bool) -> (r: Self)
        ensures
            r@ == set_bit(self@, 4, v),
    {
        LinkTrbFlags { bits: write_bit(self.bits, 4, v) }
    }

    /// Returns the flags with the interrupt-on-completion bit set to `v`.
    pub fn with_interrupt_on_completion(self, v: bool) -> (r: Self)
        ensures
            r@ == set_bit(self@, 5, v),
    {
        LinkTrbFlags { bits: write_bit(self.bits, 5, v) }
    }
}

/// The flags of the link TRB built by [`LinkTrb::new`].
pub open spec fn link_flags_of(cycle: bool, toggle_cycle: bool, chain: bool) -> u32 {
    set_bit(set_bit(set_bit(set_bit(link_flags_default(), 0, cycle), 1, toggle_cycle), 4, chain), 5, true)
}

/// The four dwords of a TRB that points at `pointer`, with the given configuration and flags dwords.
pub open spec fn pointer_trb_parts(pointer: u64, config: u32, flags: u32) -> Seq<u32> {
    seq![pointer as u32, (pointer >> 32) as u32, config, flags]
}

/// A TRB on a command or transfer ring which marks the end of a segment of the ring.
/// Its toggle-cycle flag tells the controller whether to switch its cycle state.
#[derive(Debug, Clone, Copy)]
pub struct LinkTrb {
    /// The start address of the next ring segment
    pub pointer: u64,
    /// Configuration for the TRB
    pub config: LinkTrbConfig,
    /// The TRB flags
    pub flags: LinkTrbFlags,
}

impl LinkTrb {
    /// Converts the TRB to the data written to a TRB ring, with the cycle bit set to `cycle`.
    pub fn to_parts(&self, cycle: bool) -> (r: [u32; 4])
        requires
            self.pointer % 16 == 0,
        ensures
            r@ == pointer_trb_parts(self.pointer, self.config@, set_bit(self.flags@, 0, cycle)),
    {
        let pointer = self.pointer;
        let config = self.config.into_bits();
        let flags = self.flags.with_cycle(cycle).into_bits();
        let r = [pointer as u32, (pointer >> 32) as u32, config, flags];
        assert(r@ =~= pointer_trb_parts(self.pointer, self.config@, set_bit(self.flags@, 0, cycle)));
        r
    }

    /// Constructs a link TRB pointing at `addr`, which interrupts on completion.
    pub fn new(addr: u64, cycle: bool, toggle_cycle: bool, chain: bool) -> (r: Self)
        ensures
            r.pointer == addr,
            r.config@ == 0,
            r.flags@ == link_flags_of(cycle, toggle_cycle, chain),
    {
        LinkTrb {
            pointer: addr,
            config: LinkTrbConfig::new(),
            flags: LinkTrbFlags::new()
                .with_cycle(cycle)
                .with_toggle_cycle(toggle_cycle)
                .with_chain(chain)
                .with_interrupt_on_completion(true),
        }
    }

    /// The value of the chain bit.
    pub fn chain(&self) -> (r: bool)
        ensures
            r == bit_is_set(self.flags@, 4),
    {
        self.flags.chain()
    }
}

} // verus!
