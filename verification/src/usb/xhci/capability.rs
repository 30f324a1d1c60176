//! The capability registers of an xHCI controller: what the controller supports and where its other
//! register sets lie.
use vstd::prelude::*;
use vstd::arithmetic::power2::pow2;
use vstd::string::StringExecFns;
use crate::bitfield::{bit_is_set, get_bits, read_bit, read_bits};
use crate::usb::xhci::contexts::ContextSize;

verus! {

/// The `HCSPARAMS1` register: device slots, interrupters and ports.
#[derive(Debug, Clone, Copy, PartialEq, Eq)]
pub struct StructuralParameters1 {
    bits: u32,
}

impl View for StructuralParameters1 {
    type V = u32;

    closed spec fn view(&self) -> u32 {
        self.bits
    }
}

impl StructuralParameters1 {
    /// Constructs the register from its bit representation.
    pub fn from_bits(bits: u32) -> (r: Self)
        ensures
            r@ == bits,
    {
        StructuralParameters1 { bits }
    }

    /// The register's bit representation.
    pub fn into_bits(self) -> (r: u32)
        ensures
            r == self@,
    {
        self.bits
    }

    /// The maximum number of device context structures and doorbell array entries.
    pub fn max_device_slots(&self) -> (r: u8)
        ensures
            r == get_bits(self@, 0, 8),
    {
        read_bits(self.bits, 0, 8) as u8
    }

    /// The number of interrupters implemented on this host controller.
    pub fn max_interrupters(&self) -> (r: u16)
        ensures
            r == get_bits(self@, 8, 11),
    {
        read_bits(self.bits, 8, 11) as u16
    }

    /// The number of port register entries in the operational registers.
    pub fn max_ports(&self) -> (r: u8)
        ensures
            r == get_bits(self@, 24, 8),
    {
        read_bits(self.bits, 24, 8) as u8
    }
}

/// How far ahead of the controller software must stay when adding isochronous TRBs.
#[derive(Debug, Clone, Copy, PartialEq, Eq)]
pub enum IsochronalSchedulingThreshold {
    /// A number of frames (bit 3 of the field set).
    Frames(u8),
    /// A number of microframes (bit 3 of the field clear).
    MicroFrames(u8),
}

/// The threshold that the 4-bit field value `bits` describes.
pub open spec fn ist_of(bits: u32) -> IsochronalSchedulingThreshold {
    if bits & 0b1000 == 0 {
        IsochronalSchedulingThreshold::MicroFrames((bits & 0b111) as u8)
    } else {
        IsochronalSchedulingThreshold::Frames((bits & 0b111) as u8)
    }
}

/// The 4-bit field value of a threshold.
pub open spec fn ist_bits(t: IsochronalSchedulingThreshold) -> u32 {
    match t {
        IsochronalSchedulingThreshold::Frames(f) => 0b1000u32 | (f as u32),
        IsochronalSchedulingThreshold::MicroFrames(mf) => mf as u32,
    }
}

impl IsochronalSchedulingThreshold {
    /// Constructs a threshold from its bit representation.
    pub fn from_bits(bits: u32) -> (r: Self)
        ensures
            r == ist_of(bits),
    {
        if bits & 0b1000 == 0 {
            IsochronalSchedulingThreshold::MicroFrames((bits & 0b111) as u8)
        } else {
            IsochronalSchedulingThreshold::Frames((bits & 0b111) as u8)
        }
    }

    /// Converts a threshold into its bit representation. The count must fit in three bits.
    pub fn into_bits(self) -> (r: u32)
        requires
            match self {
                IsochronalSchedulingThreshold::Frames(f) => f < 8,
                IsochronalSchedulingThreshold::MicroFrames(mf) => mf < 8,
            },
        ensures
            r == ist_bits(self),
    {
        match self {
            IsochronalSchedulingThreshold::Frames(f) => 0b1000u32 | (f as u32),
            IsochronalSchedulingThreshold::MicroFrames(mf) => mf as u32,
        }
    }
}

/// Encoding a threshold whose count fits in three bits and decoding it again gives it back.
pub proof fn lemma_ist_roundtrip(t: IsochronalSchedulingThreshold)
    requires
        match t {
            IsochronalSchedulingThreshold::Frames(f) => f < 8,
            IsochronalSchedulingThreshold::MicroFrames(mf) => mf < 8,
        },
    ensures
        ist_bits(t) < 16,
        ist_of(ist_bits(t)) == t,
{
    match t {
        IsochronalSchedulingThreshold::Frames(f) => {
            let x: u32 = f as u32;
            assert((0b1000u32 | x) < 16 && (0b1000u32 | x) & 0b1000 != 0 && (0b1000u32 | x) & 0b111
                == x) by (bit_vector)
                requires
                    x < 8,
            ;
        },
        IsochronalSchedulingThreshold::MicroFrames(mf) => {
            let x: u32 = mf as u32;
            assert(x & 0b1000 == 0 && x & 0b111 == x) by (bit_vector)
                requires
                    x < 8,
            ;
        },
    }
}

/// The number of scratchpad buffers that a `HCSPARAMS2` value asks for: its high five bits
/// (27 to 31) above its low five bits (21 to 25).
pub open spec fn max_scratchpad_buffers_of(v: u32) -> u16 {
    (get_bits(v, 27, 5) * 32 + get_bits(v, 21, 5)) as u16
}

/// The `HCSPARAMS2` register: scheduling threshold, event ring segment table size and scratchpad buffers.
#[derive(Debug, Clone, Copy, PartialEq, Eq)]
pub struct StructuralParameters2 {
    bits: u32,
}

impl View for StructuralParameters2 {
    type V = u32;

    closed spec fn view(&self) -> u32 {
        self.bits
    }
}

impl StructuralParameters2 {
    /// Constructs the register from its bit representation.
    pub fn from_bits(bits: u32) -> (r: Self)
        ensures
            r@ == bits,
    {
        StructuralParameters2 { bits }
    }

    /// The register's bit representation.
    pub fn into_bits(self) -> (r: u32)
        ensures
            r == self@,
    {
        self.bits
    }

    /// The isochronal scheduling threshold.
    pub fn isochronal_scheduling_threshold(&self) -> (r: IsochronalSchedulingThreshold)
        ensures
            r == ist_of(get_bits(self@, 0, 4)),
    {
        IsochronalSchedulingThreshold::from_bits(read_bits(self.bits, 0, 4))
    }

    /// The power of 2 of the maximum number of event ring segment table entries.
    pub fn erst_max(&self) -> (r: u8)
        ensures
            r == get_bits(self@, 4, 4),
    {
        read_bits(self.bits, 4, 4) as u8
    }

    /// Whether scratchpad buffer space must be kept across power events.
    pub fn scratchpad_restore(&self) -> (r: bool)
        ensures
            r == bit_is_set(self@, 26),
    {
        read_bit(self.bits, 26)
    }

    /// Gets the number of scratchpad buffers which the OS must provide for the controller.
    pub fn max_scratchpad_buffers(&self) -> (r: u16)
        ensures
            r == max_scratchpad_buffers_of(self@),
            r < 1024,
    {
        let high = read_bits(self.bits, 27, 5) as u16;
        let low = read_bits(self.bits, 21, 5) as u16;
        assert((high << 5u16) | low == high * 32 + low) by (bit_vector)
            requires
                high < 32,
                low < 32,
        ;
        (high << 5u16) | low
    }
}

/// The `HCSPARAMS3` register: the exit latencies of the U1 and U2 link states.
#[derive(Debug, Clone, Copy, PartialEq, Eq)]
pub struct StructuralParameters3 {
    bits: u32,
}

impl View for StructuralParameters3 {
    type V = u32;

    closed spec fn view(&self) -> u32 {
        self.bits
    }
}

impl StructuralParameters3 {
    /// Constructs the register from its bit representation.
    pub fn from_bits(bits: u32) -> (r: Self)
        ensures
            r@ == bits,
    {
        StructuralParameters3 { bits }
    }

    /// The register's bit representation.
    pub fn into_bits(self) -> (r: u32)
        ensures
            r == self@,
    {
        self.bits
    }

    /// The worst case latency in microseconds to go from U1 to U0.
    pub fn u1_device_exit_latency(&self) -> (r: u8)
        ensures
            r == get_bits(self@, 0, 8),
    {
        read_bits(self.bits, 0, 8) as u8
    }

    /// The worst case latency in microseconds to go from U2 to U0.
    pub fn u2_device_exit_latency(&self) -> (r: u8)
        ensures
            r == get_bits(self@, 8, 8),
    {
        read_bits(self.bits, 8, 8) as u8
    }
}

/// The `HCCPARAMS1` register: optional features of the controller.
#[derive(Debug, Clone, Copy, PartialEq, Eq)]
pub struct CapabilityParameters1 {
    bits: u32,
}

impl View for CapabilityParameters1 {
    type V = u32;

    closed spec fn view(&self) -> u32 {
        self.bits
    }
}

/// The names of the features that a `HCCPARAMS1` value reports, each followed by a space.
pub open spec fn capabilities1_string_of(v: u32) -> Seq<char> {
    (if bit_is_set(v, 0) { "64_bit "@ } else { Seq::empty() })
        + (if bit_is_set(v, 1) { "bandwidth_negotiation "@ } else { Seq::empty() })
        + (if bit_is_set(v, 2) { "64_byte_context "@ } else { Seq::empty() })
        + (if bit_is_set(v, 3) { "port_power_control "@ } else { Seq::empty() })
        + (if bit_is_set(v, 4) { "port_indicator_control "@ } else { Seq::empty() })
        + (if bit_is_set(v, 5) { "light_host_controller_reset "@ } else { Seq::empty() })
        + (if bit_is_set(v, 6) { "latency_tolerance_messaging "@ } else { Seq::empty() })
        + (if !bit_is_set(v, 7) { "secondary_stream_ids "@ } else { Seq::empty() })
        + (if bit_is_set(v, 8) { "parses_all_event_data_trbs "@ } else { Seq::empty() })
        + (if bit_is_set(v, 9) { "stopped_short_packet "@ } else { Seq::empty() })
        + (if bit_is_set(v, 10) { "stopped_edtla "@ } else { Seq::empty() })
        + (if bit_is_set(v, 11) { "match_consecutive_isoch_frame_ids "@ } else { Seq::empty() })
}

impl CapabilityParameters1 {
    /// Constructs the register from its bit representation.
    pub fn from_bits(bits: u32) -> (r: Self)
        ensures
            r@ == bits,
    {
        CapabilityParameters1 { bits }
    }

    /// The register's bit representation.
    pub fn into_bits(self) -> (r: u32)
        ensures
            r == self@,
    {
        self.bits
    }

    /// Whether the controller supports 64 bit pointers.
    pub fn is_64_bit(&self) -> (r: bool)
        ensures
            r == bit_is_set(self@, 0),
    {
        read_bit(self.bits, 0)
    }

    /// Whether the controller supports bandwidth negotiation.
    pub fn supports_bandwidth_negotiation(&self) -> (r: bool)
        ensures
            r == bit_is_set(self@, 1),
    {
        read_bit(self.bits, 1)
    }

    /// Whether the controller uses 32 or 64 byte context data structures.
    pub fn context_size(&self) -> (r: ContextSize)
        ensures
            r == if bit_is_set(self@, 2) { ContextSize::Large } else { ContextSize::Small },
    {
        ContextSize::from_bits(read_bits(self.bits, 2, 1))
    }

    /// Whether the controller supports port power control.
    pub fn supports_port_power_control(&self) -> (r: bool)
        ensures
            r == bit_is_set(self@, 3),
    {
        read_bit(self.bits, 3)
    }

    /// Whether the root hub ports support port indicator control.
    pub fn supports_port_indicator_control(&self) -> (r: bool)
        ensures
            r == bit_is_set(self@, 4),
    {
        read_bit(self.bits, 4)
    }

    /// Whether the controller supports a light host controller reset.
    pub fn supports_lhcr(&self) -> (r: bool)
        ensures
            r == bit_is_set(self@, 5),
    {
        read_bit(self.bits, 5)
    }

    /// Whether the controller supports latency tolerance messaging.
    pub fn supports_ltm(&self) -> (r: bool)
        ensures
            r == bit_is_set(self@, 6),
    {
        read_bit(self.bits, 6)
    }

    /// Whether the controller supports secondary stream ids. The register bit is inverted:
    /// it is set when they are not supported.
    pub fn supports_secondary_stream_ids(&self) -> (r: bool)
        ensures
            r == !bit_is_set(self@, 7),
    {
        !read_bit(self.bits, 7)
    }

    /// Whether all event data TRBs are parsed while advancing to the next TD after a short packet.
    pub fn parses_all_event_data_trbs(&self) -> (r: bool)
        ensures
            r == bit_is_set(self@, 8),
    {
        read_bit(self.bits, 8)
    }

    /// Whether the controller can generate a Stopped - Short Packet completion code.
    pub fn can_produce_stop_short_packet(&self) -> (r: bool)
        ensures
            r == bit_is_set(self@, 9),
    {
        read_bit(self.bits, 9)
    }

    /// Whether the stream context supports a Stopped EDTLA field.
    pub fn supports_stopped_edtla(&self) -> (r: bool)
        ensures
            r == bit_is_set(self@, 10),
    {
        read_bit(self.bits, 10)
    }

    /// Whether the controller can match the frame id of consecutive isochronous TDs.
    pub fn can_match_consecutive_isoch_frame_id(&self) -> (r: bool)
        ensures
            r == bit_is_set(self@, 11),
    {
        read_bit(self.bits, 11)
    }

    /// The offset of the extended capabilities list, in 32 bit words, from the controller's MMIO region.
    pub fn extended_capabilities_pointer(&self) -> (r: u16)
        ensures
            r == get_bits(self@, 16, 16),
    {
        read_bits(self.bits, 16, 16) as u16
    }

    /// Gets the maximum supported size of the primary stream array, `2^(e + 1)` where `e` is the
    /// register's 4-bit `MaxPSASize`, or `None` where it is 0 (streams not supported).
    pub fn max_primary_stream_array_size(&self) -> (r: Option<u32>)
        ensures
            get_bits(self@, 12, 4) == 0 ==> r is None,
            get_bits(self@, 12, 4) != 0 ==> r == Some(pow2((get_bits(self@, 12, 4) + 1) as nat) as u32),
    {
        let exponent = read_bits(self.bits, 12, 4);
        if exponent == 0 {
            None
        } else {
            proof {
                vstd::bits::lemma_u32_pow2_no_overflow((exponent + 1) as nat);
                vstd::bits::lemma_u32_shl_is_mul(1, (exponent + 1) as u32);
            }
            Some(1u32 << (exponent + 1))
        }
    }

    /// Gets a space separated list of the capabilities, for terser printing.
    pub fn capabilities_string(&self) -> (r: String)
        ensures
            r@ == capabilities1_string_of(self@),
    {
        let mut capabilities = String::new();
        if self.is_64_bit() {
            capabilities.append("64_bit ");
        }
        if self.supports_bandwidth_negotiation() {
            capabilities.append("bandwidth_negotiation ");
        }
        if matches!(self.context_size(), ContextSize::Large) {
            capabilities.append("64_byte_context ");
        }
        if self.supports_port_power_control() {
            capabilities.append("port_power_control ");
        }
        if self.supports_port_indicator_control() {
            capabilities.append("port_indicator_control ");
        }
        if self.supports_lhcr() {
            capabilities.append("light_host_controller_reset ");
        }
        if self.supports_ltm() {
            capabilities.append("latency_tolerance_messaging ");
        }
        if self.supports_secondary_stream_ids() {
            capabilities.append("secondary_stream_ids ");
        }
        if self.parses_all_event_data_trbs() {
            capabilities.append("parses_all_event_data_trbs ");
        }
        if self.can_produce_stop_short_packet() {
            capabilities.append("stopped_short_packet ");
        }
        if self.supports_stopped_edtla() {
            capabilities.append("stopped_edtla ");
        }
        if self.can_match_consecutive_isoch_frame_id() {
            capabilities.append("match_consecutive_isoch_frame_ids ");
        }
        capabilities
    }
}

/// The `DBOFF` register: the offset of the doorbell array in the controller's MMIO space,
/// a multiple of 4 held in bits 2 to 31.
#[derive(Debug, Clone, Copy, PartialEq, Eq)]
pub struct DoorbellOffsetRegister {
    bits: u32,
}

impl View for DoorbellOffsetRegister {
    type V = u32;

    closed spec fn view(&self) -> u32 {
        self.bits
    }
}

impl DoorbellOffsetRegister {
    /// Constructs the register from its bit representation.
    pub fn from_bits(bits: u32) -> (r: Self)
        ensures
            r@ == bits,
    {
        DoorbellOffsetRegister { bits }
    }

    /// The register's bit representation.
    pub fn into_bits(self) -> (r: u32)
        ensures
            r == self@,
    {
        self.bits
    }

    /// The offset of the doorbell array in units of 4 bytes.
    pub fn doorbell_array_offset(&self) -> (r: u32)
        ensures
            r == get_bits(self@, 2, 30),
    {
        proof {
            let v = self.bits;
            assert(get_bits(v, 2, 30) == v >> 2u32) by (bit_vector);
        }
        self.bits >> 2u32
    }
}

/// The `RTSOFF` register: the offset of the runtime registers in the controller's MMIO space,
/// a multiple of 32 held in bits 5 to 31.
#[derive(Debug, Clone, Copy, PartialEq, Eq)]
pub struct RuntimeRegisterSpaceOffsetRegister {
    bits: u32,
}

impl View for RuntimeRegisterSpaceOffsetRegister {
    type V = u32;

    closed spec fn view(&self) -> u32 {
        self.bits
    }
}

impl RuntimeRegisterSpaceOffsetRegister {
    /// Constructs the register from its bit representation.
    pub fn from_bits(bits: u32) -> (r: Self)
        ensures
            r@ == bits,
    {
        RuntimeRegisterSpaceOffsetRegister { bits }
    }

    /// The register's bit representation.
    pub fn into_bits(self) -> (r: u32)
        ensures
            r == self@,
    {
        self.bits
    }

    /// The offset of the runtime registers in units of 32 bytes.
    pub fn runtime_register_space_offset(&self) -> (r: u64)
        ensures
            r == get_bits(self@, 5, 27),
    {
        proof {
            let v = self.bits;
            assert(get_bits(v, 5, 27) == v >> 5u32) by (bit_vector);
        }
        (self.bits >> 5u32) as u64
    }
}

/// The `HCCPARAMS2` register: more optional features of the controller.
#[derive(Debug, Clone, Copy, PartialEq, Eq)]
pub struct CapabilityParameters2 {
    bits: u32,
}

impl View for CapabilityParameters2 {
    type V = u32;

    closed spec fn view(&self) -> u32 {
        self.bits
    }
}

/// The names of the features that a `HCCPARAMS2` value reports, each followed by a space.
pub open spec fn capabilities2_string_of(v: u32) -> Seq<char> {
    (if bit_is_set(v, 0) { "u3_entry "@ } else { Seq::empty() })
        + (if bit_is_set(v, 1) { "max_latency_too_large_error "@ } else { Seq::empty() })
        + (if bit_is_set(v, 2) { "force_save_context "@ } else { Seq::empty() })
        + (if bit_is_set(v, 3) { "compliance_transition "@ } else { Seq::empty() })
        + (if bit_is_set(v, 4) { "large_esit_payload "@ } else { Seq::empty() })
        + (if bit_is_set(v, 5) { "extended_configuration_information "@ } else { Seq::empty() })
        + (if bit_is_set(v, 6) { "extended_tbc "@ } else { Seq::empty() })
        + (if bit_is_set(v, 7) { "extended_tbc_trb_status "@ } else { Seq::empty() })
        + (if bit_is_set(v, 8) { "extended_property_get_set "@ } else { Seq::empty() })
        + (if bit_is_set(v, 9) { "virtualisation_based_trusted_io "@ } else { Seq::empty() })
}

impl CapabilityParameters2 {
    /// Constructs the register from its bit representation.
    pub fn from_bits(bits: u32) -> (r: Self)
        ensures
            r@ == bits,
    {
        CapabilityParameters2 { bits }
    }

    /// The register's bit representation.
    pub fn into_bits(self) -> (r: u32)
        ensures
            r == self@,
    {
        self.bits
    }

    /// Whether the root hub ports support the Port Suspend Complete notification.
    pub fn supports_u3_entry(&self) -> (r: bool)
        ensures
            r == bit_is_set(self@, 0),
    {
        read_bit(self.bits, 0)
    }

    /// Whether a Configure Endpoint command can fail with Max Exit Latency Too Large.
    pub fn can_generate_max_latency_too_large_error(&self) -> (r: bool)
        ensures
            r == bit_is_set(self@, 1),
    {
        read_bit(self.bits, 1)
    }

    /// Whether the controller supports the Force Save Context capability.
    pub fn supports_force_save_context(&self) -> (r: bool)
        ensures
            r == bit_is_set(self@, 2),
    {
        read_bit(self.bits, 2)
    }

    /// Whether the USB3 root hub supports the Compliance Transition Enable flag.
    pub fn supports_compliance_transition(&self) -> (r: bool)
        ensures
            r == bit_is_set(self@, 3),
    {
        read_bit(self.bits, 3)
    }

    /// Whether the controller supports ESIT payloads greater than 48KB.
    pub fn supports_large_esit_payload(&self) -> (r: bool)
        ensures
            r == bit_is_set(self@, 4),
    {
        read_bit(self.bits, 4)
    }

    /// Whether the controller supports extended configuration information.
    pub fn supports_extended_configuration_information(&self) -> (r: bool)
        ensures
            r == bit_is_set(self@, 5),
    {
        read_bit(self.bits, 5)
    }

    /// Whether isochronous burst counts may exceed 65535 bytes.
    pub fn supports_extended_tbc(&self) -> (r: bool)
        ensures
            r == bit_is_set(self@, 6),
    {
        read_bit(self.bits, 6)
    }

    /// Whether the TBC/TRBSts field of an isochronous TRB carries the TRB status.
    pub fn supports_extended_tbc_trb_status(&self) -> (r: bool)
        ensures
            r == bit_is_set(self@, 7),
    {
        read_bit(self.bits, 7)
    }

    /// Whether the controller supports the Get and Set Extended Property commands.
    pub fn supports_extended_property_get_set(&self) -> (r: bool)
        ensures
            r == bit_is_set(self@, 8),
    {
        read_bit(self.bits, 8)
    }

    /// Whether the controller supports virtualisation based trusted IO.
    pub fn supports_virtualisation_based_trusted_io(&self) -> (r: bool)
        ensures
            r == bit_is_set(self@, 9),
    {
        read_bit(self.bits, 9)
    }

    /// Gets a space separated list of the capabilities, for terser printing.
    pub fn capabilities_string(&self) -> (r: String)
        ensures
            r@ == capabilities2_string_of(self@),
    {
        let mut capabilities = String::new();
        if self.supports_u3_entry() {
            capabilities.append("u3_entry ");
        }
        if self.can_generate_max_latency_too_large_error() {
            capabilities.append("max_latency_too_large_error ");
        }
        if self.supports_force_save_context() {
            capabilities.append("force_save_context ");
        }
        if self.supports_compliance_transition() {
            capabilities.append("compliance_transition ");
        }
        if self.supports_large_esit_payload() {
            capabilities.append("large_esit_payload ");
        }
        if self.supports_extended_configuration_information() {
            capabilities.append("extended_configuration_information ");
        }
        if self.supports_extended_tbc() {
            capabilities.append("extended_tbc ");
        }
        if self.supports_extended_tbc_trb_status() {
            capabilities.append("extended_tbc_trb_status ");
        }
        if self.supports_extended_property_get_set() {
            capabilities.append("extended_property_get_set ");
        }
        if self.supports_virtualisation_based_trusted_io() {
            capabilities.append("virtualisation_based_trusted_io ");
        }
        capabilities
    }
}

/// The version triple that a binary coded decimal version register holds:
/// bits 8 to 11, 4 to 7 and 0 to 3.
pub open spec fn version_triple_of(version: u16) -> (u8, u8, u8) {
    (((version >> 8u16) & 0xf) as u8, ((version >> 4u16) & 0xf) as u8, (version & 0xf) as u8)
}

/// The capability registers of an xHCI controller, as read from its MMIO region: the eight
/// 32-bit words at its start.
#[derive(Debug, Clone, Copy)]
pub struct CapabilityRegisters {
    words: [u32; 8],
}

impl View for CapabilityRegisters {
    type V = Seq<u32>;

    closed spec fn view(&self) -> Seq<u32> {
        self.words@
    }
}

impl CapabilityRegisters {
    /// The capability registers with the given contents, in register order.
    pub fn new(words: [u32; 8]) -> (r: Self)
        ensures
            r@ == words@,
    {
        CapabilityRegisters { words }
    }

    /// The length in bytes of the capability registers; the operational registers follow them.
    pub fn capability_register_length(&self) -> (r: u8)
        ensures
            r == get_bits(self@[0], 0, 8),
    {
        read_bits(self.words[0], 0, 8) as u8
    }

    /// The interface version number, in binary coded decimal.
    pub fn version(&self) -> (r: u16)
        ensures
            r == get_bits(self@[0], 16, 16),
    {
        read_bits(self.words[0], 16, 16) as u16
    }

    /// The first structural parameters register.
    pub fn structural_parameters_1(&self) -> (r: StructuralParameters1)
        ensures
            r@ == self@[1],
    {
        StructuralParameters1::from_bits(self.words[1])
    }

    /// The second structural parameters register.
    pub fn structural_parameters_2(&self) -> (r: StructuralParameters2)
        ensures
            r@ == self@[2],
    {
        StructuralParameters2::from_bits(self.words[2])
    }

    /// The third structural parameters register.
    pub fn structural_parameters_3(&self) -> (r: StructuralParameters3)
        ensures
            r@ == self@[3],
    {
        StructuralParameters3::from_bits(self.words[3])
    }

    /// The first capability parameters register.
    pub fn capability_parameters_1(&self) -> (r: CapabilityParameters1)
        ensures
            r@ == self@[4],
    {
        CapabilityParameters1::from_bits(self.words[4])
    }

    /// The byte offset of the doorbell array from the start of the MMIO region.
    pub fn doorbell_offset(&self) -> (r: u64)
        ensures
            r == get_bits(self@[5], 2, 30) * 4,
    {
        let r = DoorbellOffsetRegister::from_bits(self.words[5]);
        let offset = r.doorbell_array_offset() as u64;
        assert(offset << 2u64 == offset * 4) by (bit_vector)
            requires
                offset < 0x1_0000_0000,
        ;
        offset << 2u64
    }

    /// The byte offset of the runtime registers from the start of the MMIO region.
    pub fn runtime_register_space_offset(&self) -> (r: u64)
        ensures
            r == get_bits(self@[6], 5, 27) * 32,
    {
        let r = RuntimeRegisterSpaceOffsetRegister::from_bits(self.words[6]);
        r.runtime_register_space_offset() * 32
    }

    /// The second capability parameters register.
    pub fn capability_parameters_2(&self) -> (r: CapabilityParameters2)
        ensures
            r@ == self@[7],
    {
        CapabilityParameters2::from_bits(self.words[7])
    }

    /// Gets the version triple of the controller.
    pub fn get_version(&self) -> (r: (u8, u8, u8))
        ensures
            r == version_triple_of(get_bits(self@[0], 16, 16) as u16),
    {
        Self::parse_version(self.version())
    }

    /// Parses a version triple from a binary coded decimal version value:
    /// `0x0100` is `1.0.0`, `0x0110` is `1.1.0`, `0x0090` is `0.9.0`.
    pub fn parse_version(version: u16) -> (r: (u8, u8, u8))
        ensures
            r == version_triple_of(version),
    {
        (((version >> 8u16) & 0xf) as u8, ((version >> 4u16) & 0xf) as u8, (version & 0xf) as u8)
    }
}

} // verus!
