//! TRBs (Transfer Request Blocks) and the rings that hold them.
//!
//! There are three types of TRB ring: command rings of [`command::CommandTrb`]s,
//! transfer rings of [`TransferTrb`]s, and event rings of [`event::EventTrb`]s.
use vstd::prelude::*;
use crate::bitfield::{bit_is_set, get_bits, read_bit, read_bits, set_bit, set_bits, write_bit, write_bits};

pub mod command;
pub mod event;
pub mod event_ring;
pub mod link;
pub mod rings;

verus! {

/// A type of TRB. This only holds the type, not any data that TRBs of the type hold.
#[derive(Debug, Clone, Copy, PartialEq, Eq)]
pub enum TrbType {
    Normal,
    SetupStage,
    DataStage,
    StatusStage,
    Isoch,
    Link,
    EventData,
    NoOp,
    EnableSlotCommand,
    DisableSlotCommand,
    AddressDeviceCommand,
    ConfigureEndpointCommand,
    EvaluateContextCommand,
    ResetEndpointCommand,
    StopEndpointCommand,
    SetTRDequeuePointerCommand,
    ResetDeviceCommand,
    ForceEventCommand,
    NegotiateBandwidthCommand,
    SetLatencyToleranceValueCommand,
    GetPortBandwidthCommand,
    ForceHeaderCommand,
    NoOpCommand,
    GetExtendedPropertyCommand,
    SetExtendedPropertyCommand,
    TransferEvent,
    CommandCompletionEvent,
    PortStatusChangeEvent,
    BandwidthRequestEvent,
    DoorbellEvent,
    HostControllerEvent,
    DeviceNotificationEvent,
    MFINDEXWrapEvent,
    Reserved(u8),
    VendorDefined(u8),
}

/// The TRB type encoded by the 6-bit value `b` (the xHCI TRB type table).
pub open spec fn trb_type_of(b: u8) -> TrbType {
    match b {
        1 => TrbType::Normal,
        2 => TrbType::SetupStage,
        3 => TrbType::DataStage,
        4 => TrbType::StatusStage,
        5 => TrbType::Isoch,
        6 => TrbType::Link,
        7 => TrbType::EventData,
        8 => TrbType::NoOp,
        9 => TrbType::EnableSlotCommand,
        10 => TrbType::DisableSlotCommand,
        11 => TrbType::AddressDeviceCommand,
        12 => TrbType::ConfigureEndpointCommand,
        13 => TrbType::EvaluateContextCommand,
        14 => TrbType::ResetEndpointCommand,
        15 => TrbType::StopEndpointCommand,
        16 => TrbType::SetTRDequeuePointerCommand,
        17 => TrbType::ResetDeviceCommand,
        18 => TrbType::ForceEventCommand,
        19 => TrbType::NegotiateBandwidthCommand,
        20 => TrbType::SetLatencyToleranceValueCommand,
        21 => TrbType::GetPortBandwidthCommand,
        22 => TrbType::ForceHeaderCommand,
        23 => TrbType::NoOpCommand,
        24 => TrbType::GetExtendedPropertyCommand,
        25 => TrbType::SetExtendedPropertyCommand,
        32 => TrbType::TransferEvent,
        33 => TrbType::CommandCompletionEvent,
        34 => TrbType::PortStatusChangeEvent,
        35 => TrbType::BandwidthRequestEvent,
        36 => TrbType::DoorbellEvent,
        37 => TrbType::HostControllerEvent,
        38 => TrbType::DeviceNotificationEvent,
        39 => TrbType::MFINDEXWrapEvent,
        _ => if 48 <= b && b <= 63 {
            TrbType::VendorDefined(b)
        } else {
            TrbType::Reserved(b)
        },
    }
}

/// The 6-bit value that encodes `t`.
pub open spec fn trb_type_bits(t: TrbType) -> u32 {
    match t {
        TrbType::Normal => 1,
        TrbType::SetupStage => 2,
        TrbType::DataStage => 3,
        TrbType::StatusStage => 4,
        TrbType::Isoch => 5,
        TrbType::Link => 6,
        TrbType::EventData => 7,
        TrbType::NoOp => 8,
        TrbType::EnableSlotCommand => 9,
        TrbType::DisableSlotCommand => 10,
        TrbType::AddressDeviceCommand => 11,
        TrbType::ConfigureEndpointCommand => 12,
        TrbType::EvaluateContextCommand => 13,
        TrbType::ResetEndpointCommand => 14,
        TrbType::StopEndpointCommand => 15,
        TrbType::SetTRDequeuePointerCommand => 16,
        TrbType::ResetDeviceCommand => 17,
        TrbType::ForceEventCommand => 18,
        TrbType::NegotiateBandwidthCommand => 19,
        TrbType::SetLatencyToleranceValueCommand => 20,
        TrbType::GetPortBandwidthCommand => 21,
        TrbType::ForceHeaderCommand => 22,
        TrbType::NoOpCommand => 23,
        TrbType::GetExtendedPropertyCommand => 24,
        TrbType::SetExtendedPropertyCommand => 25,
        TrbType::TransferEvent => 32,
        TrbType::CommandCompletionEvent => 33,
        TrbType::PortStatusChangeEvent => 34,
        TrbType::BandwidthRequestEvent => 35,
        TrbType::DoorbellEvent => 36,
        TrbType::HostControllerEvent => 37,
        TrbType::DeviceNotificationEvent => 38,
        TrbType::MFINDEXWrapEvent => 39,
        TrbType::Reserved(t) => t as u32,
        TrbType::VendorDefined(t) => t as u32,
    }
}

/// Whether `t` is the value that [`TrbType::from_bits`] produces for its own bits:
/// reserved and vendor-defined values only carry the codes that the table leaves to them.
pub open spec fn trb_type_is_canonical(t: TrbType) -> bool {
    match t {
        TrbType::Reserved(b) => b == 0 || (26 <= b <= 31) || (40 <= b <= 47),
        TrbType::VendorDefined(b) => 48 <= b <= 63,
        _ => true,
    }
}

impl TrbType {
    /// Constructs a [`TrbType`] from its bit representation.
    /// Only the low 8 bits are looked at, and they must be below 64.
    pub fn from_bits(bits: u32) -> (r: Self)
        requires
            (bits as u8) < 64,
        ensures
            r == trb_type_of(bits as u8),
    {
        let bits = bits as u8;
        match bits {
            1 => TrbType::Normal,
            2 => TrbType::SetupStage,
            3 => TrbType::DataStage,
            4 => TrbType::StatusStage,
            5 => TrbType::Isoch,
            6 => TrbType::Link,
            7 => TrbType::EventData,
            8 => TrbType::NoOp,
            9 => TrbType::EnableSlotCommand,
            10 => TrbType::DisableSlotCommand,
            11 => TrbType::AddressDeviceCommand,
            12 => TrbType::ConfigureEndpointCommand,
            13 => TrbType::EvaluateContextCommand,
            14 => TrbType::ResetEndpointCommand,
            15 => TrbType::StopEndpointCommand,
            16 => TrbType::SetTRDequeuePointerCommand,
            17 => TrbType::ResetDeviceCommand,
            18 => TrbType::ForceEventCommand,
            19 => TrbType::NegotiateBandwidthCommand,
            20 => TrbType::SetLatencyToleranceValueCommand,
            21 => TrbType::GetPortBandwidthCommand,
            22 => TrbType::ForceHeaderCommand,
            23 => TrbType::NoOpCommand,
            24 => TrbType::GetExtendedPropertyCommand,
            25 => TrbType::SetExtendedPropertyCommand,
            32 => TrbType::TransferEvent,
            33 => TrbType::CommandCompletionEvent,
            34 => TrbType::PortStatusChangeEvent,
            35 => TrbType::BandwidthRequestEvent,
            36 => TrbType::DoorbellEvent,
            37 => TrbType::HostControllerEvent,
            38 => TrbType::DeviceNotificationEvent,
            39 => TrbType::MFINDEXWrapEvent,
            48..=63 => TrbType::VendorDefined(bits),
            _ => TrbType::Reserved(bits),
        }
    }

    /// Converts a [`TrbType`] into its bit representation.
    pub fn into_bits(self) -> (r: u32)
        ensures
            r == trb_type_bits(self),
    {
        match self {
            TrbType::Normal => 1,
            TrbType::SetupStage => 2,
            TrbType::DataStage => 3,
            TrbType::StatusStage => 4,
            TrbType::Isoch => 5,
            TrbType::Link => 6,
            TrbType::EventData => 7,
            TrbType::NoOp => 8,
            TrbType::EnableSlotCommand => 9,
            TrbType::DisableSlotCommand => 10,
            TrbType::AddressDeviceCommand => 11,
            TrbType::ConfigureEndpointCommand => 12,
            TrbType::EvaluateContextCommand => 13,
            TrbType::ResetEndpointCommand => 14,
            TrbType::StopEndpointCommand => 15,
            TrbType::SetTRDequeuePointerCommand => 16,
            TrbType::ResetDeviceCommand => 17,
            TrbType::ForceEventCommand => 18,
            TrbType::NegotiateBandwidthCommand => 19,
            TrbType::SetLatencyToleranceValueCommand => 20,
            TrbType::GetPortBandwidthCommand => 21,
            TrbType::ForceHeaderCommand => 22,
            TrbType::NoOpCommand => 23,
            TrbType::GetExtendedPropertyCommand => 24,
            TrbType::SetExtendedPropertyCommand => 25,
            TrbType::TransferEvent => 32,
            TrbType::CommandCompletionEvent => 33,
            TrbType::PortStatusChangeEvent => 34,
            TrbType::BandwidthRequestEvent => 35,
            TrbType::DoorbellEvent => 36,
            TrbType::HostControllerEvent => 37,
            TrbType::DeviceNotificationEvent => 38,
            TrbType::MFINDEXWrapEvent => 39,
            TrbType::Reserved(t) => t as u32,
            TrbType::VendorDefined(t) => t as u32,
        }
    }
}

/// Decoding a 6-bit TRB type and encoding it again gives back the same bits.
pub proof fn lemma_trb_type_bits_roundtrip(b: u8)
    requires
        b < 64,
    ensures
        trb_type_bits(trb_type_of(b)) == b as u32,
{
}

/// Encoding a canonical TRB type and decoding it again gives back the same type.
pub proof fn lemma_trb_type_roundtrip(t: TrbType)
    requires
        trb_type_is_canonical(t),
    ensures
        trb_type_bits(t) < 64,
        trb_type_of(trb_type_bits(t) as u8) == t,
{
}

/// The first bit of a TRB's last dword is its cycle bit.
pub const TRB_CYCLE_BIT: u32 = 0;
/// The TRB type is held in bits 10 to 15 of a TRB's last dword.
pub const TRB_TYPE_LO: u32 = 10;
/// The width in bits of a TRB's type field.
pub const TRB_TYPE_WIDTH: u32 = 6;

/// The flags common to every TRB, found in its last dword: the cycle bit and the TRB type.
#[derive(Debug, Clone, Copy, PartialEq, Eq)]
pub struct GenericTrbFlags {
    bits: u32,
}

impl View for GenericTrbFlags {
    type V = u32;

    closed spec fn view(&self) -> u32 {
        self.bits
    }
}

impl GenericTrbFlags {
    /// The flags with the given bit representation.
    pub closed spec fn spec_from(bits: u32) -> Self {
        GenericTrbFlags { bits }
    }

    /// Constructs the flags with every bit clear.
    pub fn new() -> (r: Self)
        ensures
            r@ == 0,
    {
        GenericTrbFlags { bits: 0 }
    }

    /// Constructs the flags from the last dword of a TRB.
    pub fn from_bits(bits: u32) -> (r: Self)
        ensures
            r@ == bits,
            r == Self::spec_from(bits),
    {
        GenericTrbFlags { bits }
    }

    /// The last dword of a TRB with these flags.
    pub fn into_bits(self) -> (r: u32)
        ensures
            r == self@,
    {
        self.bits
    }

    /// The cycle bit.
    pub fn cycle(&self) -> (r: bool)
        ensures
            r == bit_is_set(self@, TRB_CYCLE_BIT),
    {
        read_bit(self.bits, TRB_CYCLE_BIT)
    }

    /// The type of the TRB.
    pub fn trb_type(&self) -> (r: TrbType)
        ensures
            r == trb_type_of(get_bits(self@, TRB_TYPE_LO, TRB_TYPE_WIDTH) as u8),
    {
        TrbType::from_bits(read_bits(self.bits, TRB_TYPE_LO, TRB_TYPE_WIDTH))
    }

    /// Returns the flags with the cycle bit set to `cycle`.
    pub fn with_cycle(self, cycle: bool) -> (r: Self)
        ensures
            r@ == set_bit(self@, TRB_CYCLE_BIT, cycle),
    {
        GenericTrbFlags { bits: write_bit(self.bits, TRB_CYCLE_BIT, cycle) }
    }

    /// Returns the flags with the TRB type set to `t`.
    pub fn with_trb_type(self, t: TrbType) -> (r: Self)
        requires
            trb_type_bits(t) < 64,
        ensures
            r@ == set_bits(self@, TRB_TYPE_LO, TRB_TYPE_WIDTH, trb_type_bits(t)),
    {
        GenericTrbFlags { bits: write_bits(self.bits, TRB_TYPE_LO, TRB_TYPE_WIDTH, t.into_bits()) }
    }
}

/// An error indicating that a TRB ring is full.
#[derive(Debug, Clone, Copy, PartialEq, Eq)]
pub struct RingFullError;

} // verus!
