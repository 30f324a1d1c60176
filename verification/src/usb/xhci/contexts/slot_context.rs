//! The [`SlotContext`], which defines information about a device as a whole.
use vstd::prelude::*;
use crate::bitfield::{bit_is_set, get_bits, read_bit, read_bits};
use crate::usb::RouteString;

verus! {

/// The current state of an enabled Device Slot.
///
/// The `Disabled` state has the same representation as `Enabled`, so it is not part of this enum.
#[derive(Debug, Clone, Copy, PartialEq, Eq)]
pub enum SlotState {
    /// Allocated by an Enable Slot command; only Address Device and Disable Slot commands are allowed
    Enabled,
    /// The USB device is in the `Default` state
    Default,
    /// The USB device is in the `Address` state
    Addressed,
    /// The USB device is in the `Configured` state
    Configured,
    /// Reserved
    Reserved(u8),
}

/// The slot state encoded by the low byte of `bits`.
pub open spec fn slot_state_of(bits: u32) -> SlotState {
    let b = bits as u8;
    if b == 0 {
        SlotState::Enabled
    } else if b == 1 {
        SlotState::Default
    } else if b == 2 {
        SlotState::Addressed
    } else if b == 3 {
        SlotState::Configured
    } else {
        SlotState::Reserved(b)
    }
}

/// The encoding of each slot state.
pub open spec fn slot_state_bits(s: SlotState) -> u32 {
    match s {
        SlotState::Enabled => 0,
        SlotState::Default => 1,
        SlotState::Addressed => 2,
        SlotState::Configured => 3,
        SlotState::Reserved(b) => b as u32,
    }
}

impl SlotState {
    /// Constructs a [`SlotState`] from its bit representation; only the low byte is looked at.
    pub fn from_bits(bits: u32) -> (r: Self)
        ensures
            r == slot_state_of(bits),
    {
        let bits = bits as u8;
        match bits {
            0 => SlotState::Enabled,
            1 => SlotState::Default,
            2 => SlotState::Addressed,
            3 => SlotState::Configured,
            _ => SlotState::Reserved(bits),
        }
    }

    /// Converts a [`SlotState`] into its bit representation.
    pub fn into_bits(self) -> (r: u32)
        ensures
            r == slot_state_bits(self),
    {
        match self {
            SlotState::Enabled => 0,
            SlotState::Default => 1,
            SlotState::Addressed => 2,
            SlotState::Configured => 3,
            SlotState::Reserved(bits) => bits as u32,
        }
    }
}

/// Decoding a slot state's bits and encoding them again gives back the bits, for any byte.
pub proof fn lemma_slot_state_roundtrip(b: u8)
    ensures
        slot_state_bits(slot_state_of(b as u32)) == b as u32,
{
    assert((b as u32) as u8 == b);
}

/// The _Slot Context_: information about a device as a whole, in four dwords.
#[derive(Debug, Clone, Copy)]
pub struct SlotContext {
    /// The first dword: route string, multi-TT, hub flag and context entries
    dword_0: u32,
    /// The second dword: max exit latency, root hub port number and number of ports
    dword_1: u32,
    /// The third dword: parent hub slot ID and port number, TT think time and interrupter target
    dword_2: u32,
    /// The fourth dword: USB device address and slot state
    dword_3: u32,
}

impl SlotContext {
    /// The four dwords of the context.
    pub closed spec fn dwords(&self) -> Seq<u32> {
        seq![self.dword_0, self.dword_1, self.dword_2, self.dword_3]
    }

    /// Constructs a slot context from its four dwords as they are laid out in memory.
    pub fn from_dwords(d: [u32; 4]) -> (r: Self)
        ensures
            r.dwords() == d@,
    {
        let r = SlotContext { dword_0: d[0], dword_1: d[1], dword_2: d[2], dword_3: d[3] };
        assert(r.dwords() =~= d@);
        r
    }

    /// The four dwords of the context as they are laid out in memory.
    pub fn to_dwords(&self) -> (r: [u32; 4])
        ensures
            r@ == self.dwords(),
    {
        let r = [self.dword_0, self.dword_1, self.dword_2, self.dword_3];
        assert(r@ =~= self.dwords());
        r
    }

    /// The route string, used by hubs to route packets to the correct downstream port (bits 0 to 19).
    pub fn route_string(&self) -> (r: RouteString)
        ensures
            r@ == get_bits(self.dwords()[0], 0, 20),
    {
        RouteString::from_bits(read_bits(self.dword_0, 0, 20))
    }

    /// Whether the Multiple TT interface is enabled for this device or a parent hub (bit 25).
    pub fn multi_tt(&self) -> (r: bool)
        ensures
            r == bit_is_set(self.dwords()[0], 25),
    {
        read_bit(self.dword_0, 25)
    }

    /// Whether the device is a hub (bit 26).
    pub fn is_hub(&self) -> (r: bool)
        ensures
            r == bit_is_set(self.dwords()[0], 26),
    {
        read_bit(self.dword_0, 26)
    }

    /// The index of the last valid endpoint context in the device context (bits 27 to 31).
    pub fn context_entries(&self) -> (r: u8)
        ensures
            r == get_bits(self.dwords()[0], 27, 5),
            r <= 31,
    {
        read_bits(self.dword_0, 27, 5) as u8
    }

    /// The worst case time in microseconds to wake up all the links in the path to the device.
    pub fn max_exit_latency(&self) -> (r: u16)
        ensures
            r == get_bits(self.dwords()[1], 0, 16),
    {
        read_bits(self.dword_1, 0, 16) as u16
    }

    /// The root hub port used to access this device.
    pub fn root_hub_port_number(&self) -> (r: u8)
        ensures
            r == get_bits(self.dwords()[1], 16, 8),
    {
        read_bits(self.dword_1, 16, 8) as u8
    }

    /// The number of downstream facing ports, for a hub.
    pub fn num_ports(&self) -> (r: u8)
        ensures
            r == get_bits(self.dwords()[1], 24, 8),
    {
        read_bits(self.dword_1, 24, 8) as u8
    }

    /// The slot ID of the parent high-speed hub, where there is one.
    pub fn parent_hub_slot_id(&self) -> (r: u8)
        ensures
            r == get_bits(self.dwords()[2], 0, 8),
    {
        read_bits(self.dword_2, 0, 8) as u8
    }

    /// The number of the downstream facing port of the parent hub.
    pub fn parent_port_number(&self) -> (r: u8)
        ensures
            r == get_bits(self.dwords()[2], 8, 8),
    {
        read_bits(self.dword_2, 8, 8) as u8
    }

    /// The think time of a high-speed hub's transaction translator (bits 16 and 17).
    pub fn tt_think_time(&self) -> (r: u8)
        ensures
            r == get_bits(self.dwords()[2], 16, 2),
    {
        read_bits(self.dword_2, 16, 2) as u8
    }

    /// The interrupter that receives bandwidth request and device notification events for this slot (bits 22 to 31).
    pub fn interrupter_target(&self) -> (r: u16)
        ensures
            r == get_bits(self.dwords()[2], 22, 10),
    {
        read_bits(self.dword_2, 22, 10) as u16
    }

    /// The address assigned to the USB device by the controller.
    pub fn usb_device_address(&self) -> (r: u8)
        ensures
            r == get_bits(self.dwords()[3], 0, 8),
    {
        read_bits(self.dword_3, 0, 8) as u8
    }

    /// The state of the slot (bits 27 to 31 of the fourth dword).
    pub fn slot_state(&self) -> (r: SlotState)
        ensures
            r == slot_state_of(get_bits(self.dwords()[3], 27, 5)),
    {
        SlotState::from_bits(read_bits(self.dword_3, 27, 5))
    }
}

} // verus!
