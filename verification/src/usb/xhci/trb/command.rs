//! TRBs placed on the command ring: [`CommandTrb`] and the command-specific TRB layouts.
use vstd::prelude::*;
use crate::bitfield::{bit_is_set, get_bits, read_bit, read_bits, set_bit, set_bits, write_bit, write_bits};
use super::link::{LinkTrb, pointer_trb_parts};
use super::{GenericTrbFlags, TrbType, trb_type_bits};

verus! {

/// The _Enable Slot Command_, which asks the controller to select an available Device Slot.
///
/// Bit 0 is the cycle bit, bits 10 to 15 the TRB type and bits 16 to 20 the slot type.
#[derive(Debug, Clone, Copy, PartialEq, Eq)]
pub struct EnableSlotTrb {
    bits: u32,
}

impl View for EnableSlotTrb {
    type V = u32;

    closed spec fn view(&self) -> u32 {
        self.bits
    }
}

impl EnableSlotTrb {
    /// A new command with the TRB type `EnableSlotCommand` (9) and every other bit clear.
    pub fn new() -> (r: Self)
        ensures
            r@ == 9u32 << 10,
    {
        EnableSlotTrb { bits: 9u32 << 10 }
    }

    /// Constructs the command from its bit representation.
    pub fn from_bits(bits: u32) -> (r: Self)
        ensures
            r@ == bits,
    {
        EnableSlotTrb { bits }
    }

    /// The command's bit representation.
    pub fn into_bits(self) -> (r: u32)
        ensures
            r == self@,
    {
        self.bits
    }

    /// The cycle bit.
    pub fn cycle(&self) -> (r: bool)
        ensures
            r == bit_is_set(self@, 0),
    {
        read_bit(self.bits, 0)
    }

    /// The TRB type.
    pub fn trb_type(&self) -> (r: TrbType)
        ensures
            r == super::trb_type_of(get_bits(self@, 10, 6) as u8),
    {
        TrbType::from_bits(read_bits(self.bits, 10, 6))
    }

    /// The type of protocol to use for the slot.
    pub fn slot_type(&self) -> (r: u8)
        ensures
            r == get_bits(self@, 16, 5),
    {
        read_bits(self.bits, 16, 5) as u8
    }

    /// Returns the command with the cycle bit set to `v`.
    pub fn with_cycle(self, v: bool) -> (r: Self)
        ensures
            r@ == set_bit(self@, 0, v),
    {
        EnableSlotTrb { bits: write_bit(self.bits, 0, v) }
    }

    /// Returns the command with the slot type set to the low 5 bits of `v`.
    pub fn with_slot_type(self, v: u8) -> (r: Self)
        ensures
            r@ == set_bits(self@, 16, 5, v as u32),
    {
        EnableSlotTrb { bits: write_bits(self.bits, 16, 5, v as u32) }
    }

    /// Converts the TRB to the data written to a TRB ring. The first three dwords are reserved and zero.
    pub fn to_parts(self, cycle: bool) -> (r: [u32; 4])
        ensures
            r@ == seq![0u32, 0u32, 0u32, set_bit(self@, 0, cycle)],
    {
        let r = [0, 0, 0, self.with_cycle(cycle).into_bits()];
        assert(r@ =~= seq![0u32, 0u32, 0u32, set_bit(self@, 0, cycle)]);
        r
    }
}

/// The _Disable Slot Command_, which asks the controller to release the slot with the ID in bits 24 to 31.
///
/// Bit 0 is the cycle bit and bits 10 to 15 the TRB type.
#[derive(Debug, Clone, Copy, PartialEq, Eq)]
pub struct DisableSlotTrb {
    bits: u32,
}

impl View for DisableSlotTrb {
    type V = u32;

    closed spec fn view(&self) -> u32 {
        self.bits
    }
}

impl DisableSlotTrb {
    /// A new command with the TRB type `DisableSlotCommand` (10) and every other bit clear.
    pub fn new() -> (r: Self)
        ensures
            r@ == 10u32 << 10,
    {
        DisableSlotTrb { bits: 10u32 << 10 }
    }

    /// Constructs the command from its bit representation.
    pub fn from_bits(bits: u32) -> (r: Self)
        ensures
            r@ == bits,
    {
        DisableSlotTrb { bits }
    }

    /// The command's bit representation.
    pub fn into_bits(self) -> (r: u32)
        ensures
            r == self@,
    {
        self.bits
    }

    /// The cycle bit.
    pub fn cycle(&self) -> (r: bool)
        ensures
            r == bit_is_set(self@, 0),
    {
        read_bit(self.bits, 0)
    }

    /// The TRB type.
    pub fn trb_type(&self) -> (r: TrbType)
        ensures
            r == super::trb_type_of(get_bits(self@, 10, 6) as u8),
    {
        TrbType::from_bits(read_bits(self.bits, 10, 6))
    }

    /// The ID of the slot to disable.
    pub fn slot_id(&self) -> (r: u8)
        ensures
            r == get_bits(self@, 24, 8),
    {
        read_bits(self.bits, 24, 8) as u8
    }

    /// Returns the command with the cycle bit set to `v`.
    pub fn with_cycle(self, v: bool) -> (r: Self)
        ensures
            r@ == set_bit(self@, 0, v),
    {
        DisableSlotTrb { bits: write_bit(self.bits, 0, v) }
    }

    /// Returns the command with the TRB type set to `t`.
    pub fn with_trb_type(self, t: TrbType) -> (r: Self)
        requires
            trb_type_bits(t) < 64,
        ensures
            r@ == set_bits(self@, 10, 6, trb_type_bits(t)),
    {
        DisableSlotTrb { bits: write_bits(self.bits, 10, 6, t.into_bits()) }
    }

    /// Returns the command with the slot ID set to `v`.
    pub fn with_slot_id(self, v: u8) -> (r: Self)
        ensures
            r@ == set_bits(self@, 24, 8, v as u32),
    {
        DisableSlotTrb { bits: write_bits(self.bits, 24, 8, v as u32) }
    }

    /// Converts the TRB to the data written to a TRB ring. The first three dwords are reserved and zero.
    pub fn to_parts(self, cycle: bool) -> (r: [u32; 4])
        ensures
            r@ == seq![0u32, 0u32, 0u32, set_bit(self@, 0, cycle)],
    {
        let r = [0, 0, 0, self.with_cycle(cycle).into_bits()];
        assert(r@ =~= seq![0u32, 0u32, 0u32, set_bit(self@, 0, cycle)]);
        r
    }
}

/// The flags dword of an _Address Device_ TRB for the given cycle bit, BSR flag and slot ID:
/// the TRB type is `AddressDeviceCommand` (11).
pub open spec fn address_device_flags(cycle: bool, block_set_address_request: bool, slot_id: u8) -> u32 {
    set_bits(set_bit(set_bit(11u32 << 10, 0, cycle), 9, block_set_address_request), 24, 8, slot_id as u32)
}

/// The flags dword of an _Address Device_ TRB: the cycle bit (0), the block set address request
/// flag (9), the TRB type (10 to 15, `AddressDeviceCommand` by default) and the slot id (24 to 31).
#[derive(Debug, Clone, Copy, PartialEq, Eq)]
pub struct AddressDeviceTrbFlags {
    bits: u32,
}

impl View for AddressDeviceTrbFlags {
    type V = u32;

    closed spec fn view(&self) -> u32 {
        self.bits
    }
}

impl AddressDeviceTrbFlags {
    /// The flags with the TRB type `AddressDeviceCommand` and every other field clear.
    pub fn new() -> (r: Self)
        ensures
            r@ == 11u32 << 10,
    {
        AddressDeviceTrbFlags { bits: 11u32 << 10 }
    }

    /// The flags' bit representation.
    pub fn into_bits(self) -> (r: u32)
        ensures
            r == self@,
    {
        self.bits
    }

    /// The flags with the cycle bit set to `v`.
    pub fn with_cycle(self, v: bool) -> (r: Self)
        ensures
            r@ == set_bit(self@, 0, v),
    {
        AddressDeviceTrbFlags { bits: write_bit(self.bits, 0, v) }
    }

    /// The flags with the block set address request bit set to `v`.
    pub fn with_block_set_address_request(self, v: bool) -> (r: Self)
        ensures
            r@ == set_bit(self@, 9, v),
    {
        AddressDeviceTrbFlags { bits: write_bit(self.bits, 9, v) }
    }

    /// The flags with the slot id set to `v`.
    pub fn with_slot_id(self, v: u8) -> (r: Self)
        ensures
            r@ == set_bits(self@, 24, 8, v as u32),
    {
        AddressDeviceTrbFlags { bits: write_bits(self.bits, 24, 8, v as u32) }
    }
}

/// An _Address Device_ TRB, which moves a device slot from the `Default` to the `Addressed` state.
#[derive(Debug, Clone, Copy)]
pub struct AddressDeviceTrb {
    /// The physical address of the input context to use
    pub input_context_pointer: u64,
    /// The index into the device context base address array of the device context to use
    pub slot_id: u8,
    /// Whether to inhibit the controller from sending a USB `SET_ADDRESS` request
    pub block_set_address_request: bool,
}

impl AddressDeviceTrb {
    /// Converts the TRB to the data written to a TRB ring.
    pub fn to_parts(&self, cycle: bool) -> (r: [u32; 4])
        requires
            self.input_context_pointer % 16 == 0,
        ensures
            r@ == pointer_trb_parts(
                self.input_context_pointer,
                0,
                address_device_flags(cycle, self.block_set_address_request, self.slot_id),
            ),
    {
        let icp = self.input_context_pointer;
        let flags = AddressDeviceTrbFlags::new()
            .with_cycle(cycle)
            .with_block_set_address_request(self.block_set_address_request)
            .with_slot_id(self.slot_id)
            .into_bits();
        let r = [icp as u32, (icp >> 32) as u32, 0, flags];
        assert(r@ =~= pointer_trb_parts(
            self.input_context_pointer,
            0,
            address_device_flags(cycle, self.block_set_address_request, self.slot_id),
        ));
        r
    }
}

/// The input context pointer field of a [`ConfigureEndpointTrb`].
#[derive(Debug, Clone, Copy)]
pub enum InputContextPointer {
    /// The controller should deconfigure the device slot
    Deconfigure,
    /// The controller should configure the device slot using the input context at this physical address
    Configure(u64),
}

/// The flags dword of a _Configure Endpoint_ TRB: the TRB type is `ConfigureEndpointCommand` (12).
pub open spec fn configure_endpoint_flags(cycle: bool, deconfigure: bool, slot_id: u8) -> u32 {
    set_bits(set_bit(set_bit(12u32 << 10, 0, cycle), 9, deconfigure), 24, 8, slot_id as u32)
}

/// A _Configure Endpoint_ TRB, which asks the controller to evaluate the bandwidth and resource
/// requirements of endpoints.
#[derive(Debug, Clone, Copy)]
pub struct ConfigureEndpointTrb {
    /// The input context to use, or an instruction to deconfigure the slot
    pub input_context_pointer: InputContextPointer,
    /// The slot ID to configure
    pub slot_id: u8,
}

impl ConfigureEndpointTrb {
    /// Converts the TRB to the data written to a TRB ring.
    pub fn to_parts(&self, cycle: bool) -> (r: [u32; 4])
        requires
            self.input_context_pointer matches InputContextPointer::Configure(p) ==> p % 16 == 0,
        ensures
            r@ == match self.input_context_pointer {
                InputContextPointer::Configure(p) => pointer_trb_parts(
                    p,
                    0,
                    configure_endpoint_flags(cycle, false, self.slot_id),
                ),
                InputContextPointer::Deconfigure => seq![
                    0u32,
                    0u32,
                    0u32,
                    configure_endpoint_flags(cycle, true, self.slot_id)
                ],
            },
    {
        let (icp_low, icp_high, deconfigure) = match self.input_context_pointer {
            InputContextPointer::Configure(p) => (p as u32, (p >> 32) as u32, false),
            InputContextPointer::Deconfigure => (0, 0, true),
        };
        let flags = write_bits(
            write_bit(write_bit(12u32 << 10, 0, cycle), 9, deconfigure),
            24,
            8,
            self.slot_id as u32,
        );
        let r = [icp_low, icp_high, 0, flags];
        assert(r@ =~= match self.input_context_pointer {
            InputContextPointer::Configure(p) => pointer_trb_parts(
                p,
                0,
                configure_endpoint_flags(cycle, false, self.slot_id),
            ),
            InputContextPointer::Deconfigure => seq![
                0u32,
                0u32,
                0u32,
                configure_endpoint_flags(cycle, true, self.slot_id)
            ],
        });
        r
    }
}

/// A TRB on the command ring, giving the controller a command to execute.
#[derive(Debug, Clone, Copy)]
pub enum CommandTrb {
    Link(LinkTrb),
    EnableSlot(EnableSlotTrb),
    DisableSlot(DisableSlotTrb),
    AddressDevice,
    ConfigureEndpoint(ConfigureEndpointTrb),
    EvaluateContext,
    ResetEndpoint,
    StopEndpoint,
    SetTRDequeuePointer,
    ResetDevice,
    ForceEvent,
    NegotiateBandwidth,
    SetLatencyToleranceValue,
    GetPortBandwidth,
    ForceHeader,
    /// A command which does nothing except cause the controller to send a command completion event
    NoOp,
    GetExtendedProperty,
    SetExtendedProperty,
}

/// The TRB type of each command.
pub open spec fn command_trb_type(t: CommandTrb) -> TrbType {
    match t {
        CommandTrb::Link(_) => TrbType::Link,
        CommandTrb::EnableSlot(_) => TrbType::EnableSlotCommand,
        CommandTrb::DisableSlot(_) => TrbType::DisableSlotCommand,
        CommandTrb::AddressDevice => TrbType::AddressDeviceCommand,
        CommandTrb::ConfigureEndpoint(_) => TrbType::ConfigureEndpointCommand,
        CommandTrb::EvaluateContext => TrbType::EvaluateContextCommand,
        CommandTrb::ResetEndpoint => TrbType::ResetEndpointCommand,
        CommandTrb::StopEndpoint => TrbType::StopEndpointCommand,
        CommandTrb::SetTRDequeuePointer => TrbType::SetTRDequeuePointerCommand,
        CommandTrb::ResetDevice => TrbType::ResetDeviceCommand,
        CommandTrb::ForceEvent => TrbType::ForceEventCommand,
        CommandTrb::NegotiateBandwidth => TrbType::NegotiateBandwidthCommand,
        CommandTrb::SetLatencyToleranceValue => TrbType::SetLatencyToleranceValueCommand,
        CommandTrb::GetPortBandwidth => TrbType::GetPortBandwidthCommand,
        CommandTrb::ForceHeader => TrbType::ForceHeaderCommand,
        CommandTrb::NoOp => TrbType::NoOpCommand,
        CommandTrb::GetExtendedProperty => TrbType::GetExtendedPropertyCommand,
        CommandTrb::SetExtendedProperty => TrbType::SetExtendedPropertyCommand,
    }
}

/// Whether `to_parts` can encode the command: only link, enable-slot, disable-slot and no-op commands
/// have an encoding, and the type held in the encoded flags must be the command's own type.
pub open spec fn command_trb_encodable(t: CommandTrb) -> bool {
    match t {
        CommandTrb::Link(l) => l.pointer % 16 == 0 && get_bits(l.flags@, 10, 6) == 6,
        CommandTrb::EnableSlot(e) => get_bits(e@, 10, 6) == 9,
        CommandTrb::DisableSlot(d) => get_bits(d@, 10, 6) == 10,
        CommandTrb::NoOp => true,
        _ => false,
    }
}

/// The four dwords that encode the command `t` with the given cycle bit.
pub open spec fn command_trb_parts(t: CommandTrb, cycle: bool) -> Seq<u32> {
    match t {
        CommandTrb::Link(l) => pointer_trb_parts(l.pointer, l.config@, set_bit(l.flags@, 0, cycle)),
        CommandTrb::EnableSlot(e) => seq![0u32, 0u32, 0u32, set_bit(e@, 0, cycle)],
        CommandTrb::DisableSlot(d) => seq![0u32, 0u32, 0u32, set_bit(d@, 0, cycle)],
        _ => seq![0u32, 0u32, 0u32, set_bits(set_bit(0, 0, cycle), 10, 6, 23)],
    }
}

impl CommandTrb {
    /// The type of the TRB.
    pub fn trb_type(&self) -> (r: TrbType)
        ensures
            r == command_trb_type(*self),
    {
        match self {
            CommandTrb::Link(_) => TrbType::Link,
            CommandTrb::EnableSlot(_) => TrbType::EnableSlotCommand,
            CommandTrb::DisableSlot(_) => TrbType::DisableSlotCommand,
            CommandTrb::AddressDevice => TrbType::AddressDeviceCommand,
            CommandTrb::ConfigureEndpoint(_) => TrbType::ConfigureEndpointCommand,
            CommandTrb::EvaluateContext => TrbType::EvaluateContextCommand,
            CommandTrb::ResetEndpoint => TrbType::ResetEndpointCommand,
            CommandTrb::StopEndpoint => TrbType::StopEndpointCommand,
            CommandTrb::SetTRDequeuePointer => TrbType::SetTRDequeuePointerCommand,
            CommandTrb::ResetDevice => TrbType::ResetDeviceCommand,
            CommandTrb::ForceEvent => TrbType::ForceEventCommand,
            CommandTrb::NegotiateBandwidth => TrbType::NegotiateBandwidthCommand,
            CommandTrb::SetLatencyToleranceValue => TrbType::SetLatencyToleranceValueCommand,
            CommandTrb::GetPortBandwidth => TrbType::GetPortBandwidthCommand,
            CommandTrb::ForceHeader => TrbType::ForceHeaderCommand,
            CommandTrb::NoOp => TrbType::NoOpCommand,
            CommandTrb::GetExtendedProperty => TrbType::GetExtendedPropertyCommand,
            CommandTrb::SetExtendedProperty => TrbType::SetExtendedPropertyCommand,
        }
    }

    /// Converts the TRB to the data written to a TRB ring, with the cycle bit set to `cycle`.
    pub fn to_parts(self, cycle: bool) -> (r: [u32; 4])
        requires
            command_trb_encodable(self),
        ensures
            r@ == command_trb_parts(self, cycle),
    {
        match self {
            CommandTrb::Link(link) => link.to_parts(cycle),
            CommandTrb::EnableSlot(enable_slot) => enable_slot.to_parts(cycle),
            CommandTrb::DisableSlot(disable_slot) => disable_slot.to_parts(cycle),
            _ => {
                let flags = GenericTrbFlags::new().with_cycle(cycle).with_trb_type(TrbType::NoOpCommand);
                let r = [0, 0, 0, flags.into_bits()];
                assert(r@ =~= command_trb_parts(self, cycle));
                r
            },
        }
    }
}

} // verus!
