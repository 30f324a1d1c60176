//! [`EventTrb`]s, which the controller writes to an event ring to tell software what happened.
use vstd::prelude::*;
use crate::bitfield::get_bits;
use super::{GenericTrbFlags, TrbType, trb_type_of};

verus! {

/// The completion code that reports success.
pub const COMPLETION_CODE_SUCCESS: u8 = 1;

/// A _Command Completion_ event: reports the completion or failure of a command TRB.
#[derive(Debug, Clone, Copy)]
pub struct CommandCompletionTrb {
    /// The physical address of the command TRB which completed
    pub command_trb_pointer: u64,
    /// The raw completion code of the command
    pub completion_code: u8,
    /// The slot which the command was for
    pub slot_id: u8,
    /// The TRB's flags
    pub flags: GenericTrbFlags,
}

impl CommandCompletionTrb {
    /// Constructs a [`CommandCompletionTrb`] from the data read from the event ring.
    /// The command TRB pointer is 16-byte aligned, so the low four bits of the first dword are not part of it.
    pub fn new(data: [u32; 4]) -> (r: Self)
        ensures
            r.command_trb_pointer == (((data[1] as u64) << 32u64) | ((data[0] >> 4u32) << 4u32) as u64),
            r.completion_code == (data[2] >> 24u32) as u8,
            r.slot_id == (data[3] >> 24u32) as u8,
            r.flags@ == data[3],
    {
        CommandCompletionTrb {
            command_trb_pointer: ((data[1] as u64) << 32u64) | ((data[0] >> 4u32) << 4u32) as u64,
            completion_code: (data[2] >> 24u32) as u8,
            slot_id: (data[3] >> 24u32) as u8,
            flags: GenericTrbFlags::from_bits(data[3]),
        }
    }
}

/// A _Port Status Change_ event, generated when one of the change bits of a port's
/// status and control register is set.
#[derive(Debug, Clone, Copy)]
pub struct PortStatusChangeTrb {
    /// The port ID which has changed
    pub port_id: u8,
    /// The raw completion code of the TRB
    pub completion_code: u8,
    /// The TRB's flags
    pub flags: GenericTrbFlags,
}

impl PortStatusChangeTrb {
    /// Constructs a [`PortStatusChangeTrb`] from the data read from the event ring:
    /// the port ID is the top byte of the first dword and the completion code the top byte of the third.
    pub fn new(data: [u32; 4]) -> (r: Self)
        ensures
            r.port_id == (data[0] >> 24u32) as u8,
            r.completion_code == (data[2] >> 24u32) as u8,
            r.flags@ == data[3],
    {
        PortStatusChangeTrb {
            port_id: (data[0] >> 24u32) as u8,
            completion_code: (data[2] >> 24u32) as u8,
            flags: GenericTrbFlags::from_bits(data[3]),
        }
    }
}

/// An event sent from the controller to the OS on an event ring.
#[derive(Debug, Clone, Copy)]
pub enum EventTrb {
    Transfer,
    /// A TRB sent to indicate the completion or failure of a command TRB.
    CommandCompletion(CommandCompletionTrb),
    PortStatusChange(PortStatusChangeTrb),
    BandwidthRequest,
    Doorbell,
    HostController,
    DeviceNotification,
    MFINDEXWrap,
}

/// The TRB type held in the last dword of a raw TRB.
pub open spec fn raw_trb_type(data: [u32; 4]) -> TrbType {
    trb_type_of(get_bits(data[3], 10, 6) as u8)
}

/// Whether a raw TRB has one of the event TRB types (32 to 39).
pub open spec fn is_event_trb(data: [u32; 4]) -> bool {
    32 <= get_bits(data[3], 10, 6) <= 39
}

/// The event that a raw TRB with an event type encodes.
pub open spec fn event_of(data: [u32; 4]) -> EventTrb {
    match raw_trb_type(data) {
        TrbType::TransferEvent => EventTrb::Transfer,
        TrbType::CommandCompletionEvent => EventTrb::CommandCompletion(CommandCompletionTrb {
            command_trb_pointer: ((data[1] as u64) << 32u64) | ((data[0] >> 4u32) << 4u32) as u64,
            completion_code: (data[2] >> 24u32) as u8,
            slot_id: (data[3] >> 24u32) as u8,
            flags: GenericTrbFlags::spec_from(data[3]),
        }),
        TrbType::PortStatusChangeEvent => EventTrb::PortStatusChange(PortStatusChangeTrb {
            port_id: (data[0] >> 24u32) as u8,
            completion_code: (data[2] >> 24u32) as u8,
            flags: GenericTrbFlags::spec_from(data[3]),
        }),
        TrbType::BandwidthRequestEvent => EventTrb::BandwidthRequest,
        TrbType::DoorbellEvent => EventTrb::Doorbell,
        TrbType::HostControllerEvent => EventTrb::HostController,
        TrbType::DeviceNotificationEvent => EventTrb::DeviceNotification,
        _ => EventTrb::MFINDEXWrap,
    }
}

/// The fields of an event follow the xHCI layout of its dwords. A Command Completion event (TRB type 33 in
/// bits 10 to 15 of the fourth dword) gives the command TRB's address from the first two dwords (low dword
/// first, its low four bits dropped as the address is 16-byte aligned), the completion code from the top byte
/// of the third dword and the slot id from the top byte of the fourth. A Port Status Change event (type 34)
/// gives the port id from the top byte of the first dword and the completion code from the top byte of the third.
pub proof fn lemma_event_fields(data: [u32; 4])
    ensures
        (data[3] / 0x400) % 0x40 == 33 ==> (event_of(data) matches EventTrb::CommandCompletion(c) && {
            &&& c.command_trb_pointer == data[1] * 0x1_0000_0000 + (data[0] - data[0] % 16)
            &&& c.completion_code == data[2] / 0x100_0000
            &&& c.slot_id == data[3] / 0x100_0000
        }),
        (data[3] / 0x400) % 0x40 == 34 ==> (event_of(data) matches EventTrb::PortStatusChange(p) && {
            &&& p.port_id == data[0] / 0x100_0000
            &&& p.completion_code == data[2] / 0x100_0000
        }),
{
    let (d0, d1, d2, d3) = (data[0], data[1], data[2], data[3]);
    assert({
        &&& get_bits(d3, 10, 6) == (d3 / 0x400) % 0x40
        &&& (d0 >> 24u32) as u8 == d0 / 0x100_0000
        &&& (d2 >> 24u32) as u8 == d2 / 0x100_0000
        &&& (d3 >> 24u32) as u8 == d3 / 0x100_0000
        &&& ((d1 as u64) << 32u64) | ((d0 >> 4u32) << 4u32) as u64 == d1 * 0x1_0000_0000 + (d0 - d0 % 16)
    }) by (bit_vector);
}

impl EventTrb {
    /// Constructs a new [`EventTrb`] from the raw data read from an event ring.
    pub fn new(data: [u32; 4]) -> (r: Self)
        requires
            is_event_trb(data),
        ensures
            r == event_of(data),
    {
        let generic_flags = GenericTrbFlags::from_bits(data[3]);
        match generic_flags.trb_type() {
            TrbType::TransferEvent => EventTrb::Transfer,
            TrbType::CommandCompletionEvent => EventTrb::CommandCompletion(CommandCompletionTrb::new(data)),
            TrbType::PortStatusChangeEvent => EventTrb::PortStatusChange(PortStatusChangeTrb::new(data)),
            TrbType::BandwidthRequestEvent => EventTrb::BandwidthRequest,
            TrbType::DoorbellEvent => EventTrb::Doorbell,
            TrbType::HostControllerEvent => EventTrb::HostController,
            TrbType::DeviceNotificationEvent => EventTrb::DeviceNotification,
            _ => EventTrb::MFINDEXWrap,
        }
    }
}

} // verus!
