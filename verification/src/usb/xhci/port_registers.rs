//! The port registers of an xHCI controller: the status, power management and link
//! information of each root hub port.
use vstd::prelude::*;
use crate::bitfield::{bit_is_set, get_bits, read_bit, read_bits, set_bit, write_bit};

verus! {

/// Power management and connection state of a USB port.
#[derive(Debug, Clone, Copy, PartialEq, Eq)]
pub enum PortLinkState {
    /// The port is in the U0 state
    U0,
    /// The port is in the U1 state
    U1,
    /// The port is in the U2 state
    U2,
    /// The port is in the U3 state
    U3,
    /// The port is in the Disabled state
    Disabled,
    /// The port is in the RxDetect state
    RxDetect,
    /// The port is in the Inactive state
    Inactive,
    /// The port is in the Polling state
    Polling,
    /// The port is in the Recovery state
    Recovery,
    /// The port is in the HotReset state
    HotReset,
    /// The port is in the ComplianceMode state
    ComplianceMode,
    /// The port is in the TestMode state
    TestMode,
    /// The port is in the Resume state
    Resume,
}

/// Whether `bits` is the encoding of a port link state: 0 to 11, or 15.
pub open spec fn port_link_state_valid(bits: u32) -> bool {
    bits <= 11 || bits == 15
}

/// The port link state encoded by `bits`.
pub open spec fn port_link_state_of(bits: u32) -> PortLinkState {
    if bits == 0 {
        PortLinkState::U0
    } else if bits == 1 {
        PortLinkState::U1
    } else if bits == 2 {
        PortLinkState::U2
    } else if bits == 3 {
        PortLinkState::U3
    } else if bits == 4 {
        PortLinkState::Disabled
    } else if bits == 5 {
        PortLinkState::RxDetect
    } else if bits == 6 {
        PortLinkState::Inactive
    } else if bits == 7 {
        PortLinkState::Polling
    } else if bits == 8 {
        PortLinkState::Recovery
    } else if bits == 9 {
        PortLinkState::HotReset
    } else if bits == 10 {
        PortLinkState::ComplianceMode
    } else if bits == 11 {
        PortLinkState::TestMode
    } else {
        PortLinkState::Resume
    }
}

impl PortLinkState {
    /// Parses a port link state from its bit representation.
    pub fn from_bits(bits: u32) -> (r: Self)
        requires
            port_link_state_valid(bits),
        ensures
            r == port_link_state_of(bits),
    {
        match bits {
            0 => PortLinkState::U0,
            1 => PortLinkState::U1,
            2 => PortLinkState::U2,
            3 => PortLinkState::U3,
            4 => PortLinkState::Disabled,
            5 => PortLinkState::RxDetect,
            6 => PortLinkState::Inactive,
            7 => PortLinkState::Polling,
            8 => PortLinkState::Recovery,
            9 => PortLinkState::HotReset,
            10 => PortLinkState::ComplianceMode,
            11 => PortLinkState::TestMode,
            _ => PortLinkState::Resume,
        }
    }
}

/// The status of a port indicator light.
#[derive(Debug, Clone, Copy, PartialEq, Eq)]
pub enum PortIndicatorState {
    /// The light is off
    Off,
    /// The light is amber
    Amber,
    /// The light is green
    Green,
    /// The light is in an undefined state
    Undefined,
}

/// The indicator state encoded by the 2-bit value `bits`.
pub open spec fn port_indicator_state_of(bits: u32) -> PortIndicatorState {
    if bits == 0 {
        PortIndicatorState::Off
    } else if bits == 1 {
        PortIndicatorState::Amber
    } else if bits == 2 {
        PortIndicatorState::Green
    } else {
        PortIndicatorState::Undefined
    }
}

/// The 2-bit value of an indicator state.
pub open spec fn port_indicator_bits(s: PortIndicatorState) -> u32 {
    match s {
        PortIndicatorState::Off => 0,
        PortIndicatorState::Amber => 1,
        PortIndicatorState::Green => 2,
        PortIndicatorState::Undefined => 3,
    }
}

impl PortIndicatorState {
    /// Parses an indicator state from its bit representation.
    pub fn from_bits(bits: u32) -> (r: Self)
        requires
            bits <= 3,
        ensures
            r == port_indicator_state_of(bits),
    {
        match bits {
            0 => PortIndicatorState::Off,
            1 => PortIndicatorState::Amber,
            2 => PortIndicatorState::Green,
            _ => PortIndicatorState::Undefined,
        }
    }

    /// Converts an indicator state into its bit representation.
    pub fn into_bits(self) -> (r: u32)
        ensures
            r == port_indicator_bits(self),
    {
        match self {
            PortIndicatorState::Off => 0,
            PortIndicatorState::Amber => 1,
            PortIndicatorState::Green => 2,
            PortIndicatorState::Undefined => 3,
        }
    }
}

/// Encoding an indicator state and decoding it gives it back, and every 2-bit value is the encoding
/// of the state it decodes to.
pub proof fn lemma_port_indicator_roundtrip(s: PortIndicatorState, b: u32)
    requires
        b <= 3,
    ensures
        port_indicator_state_of(port_indicator_bits(s)) == s,
        port_indicator_bits(port_indicator_state_of(b)) == b,
{
}

/// The bits of a port's status and control register that writing 1 to changes:
/// port enabled (1), reset (4), the change bits (17 to 23) and warm reset (31).
pub const STATUS_AND_CONTROL_WRITE_ONE_BITS: u32 = 0x80FE_0012;

/// The status and control register of a port: power and connection status.
#[derive(Debug, Clone, Copy, PartialEq, Eq)]
pub struct StatusAndControl {
    bits: u32,
}

impl View for StatusAndControl {
    type V = u32;

    closed spec fn view(&self) -> u32 {
        self.bits
    }
}

impl StatusAndControl {
    /// Constructs the register from its bit representation.
    pub fn from_bits(bits: u32) -> (r: Self)
        ensures
            r@ == bits,
    {
        StatusAndControl { bits }
    }

    /// The register's bit representation.
    pub fn into_bits(self) -> (r: u32)
        ensures
            r == self@,
    {
        self.bits
    }

    /// Whether a device is connected to the port.
    pub fn device_connected(&self) -> (r: bool)
        ensures
            r == bit_is_set(self@, 0),
    {
        read_bit(self.bits, 0)
    }

    /// Whether the port is enabled.
    pub fn port_enabled(&self) -> (r: bool)
        ensures
            r == bit_is_set(self@, 1),
    {
        read_bit(self.bits, 1)
    }

    /// The register with the `port_enabled` bit set to `v`.
    pub fn with_port_enabled(self, v: bool) -> (r: Self)
        ensures
            r@ == set_bit(self@, 1, v),
    {
        StatusAndControl { bits: write_bit(self.bits, 1, v) }
    }

    /// Whether the port currently has an over-current condition.
    pub fn over_current_active(&self) -> (r: bool)
        ensures
            r == bit_is_set(self@, 3),
    {
        read_bit(self.bits, 3)
    }

    /// Whether a reset of the port is in progress; writing `true` starts one.
    pub fn reset(&self) -> (r: bool)
        ensures
            r == bit_is_set(self@, 4),
    {
        read_bit(self.bits, 4)
    }

    /// The register with the `reset` bit set to `v`.
    pub fn with_reset(self, v: bool) -> (r: Self)
        ensures
            r@ == set_bit(self@, 4, v),
    {
        StatusAndControl { bits: write_bit(self.bits, 4, v) }
    }

    /// Connection state of the port.
    pub fn port_link_state(&self) -> (r: PortLinkState)
        requires
            port_link_state_valid(get_bits(self@, 5, 4)),
        ensures
            r == port_link_state_of(get_bits(self@, 5, 4)),
    {
        PortLinkState::from_bits(read_bits(self.bits, 5, 4))
    }

    /// Whether the port is powered.
    pub fn port_power(&self) -> (r: bool)
        ensures
            r == bit_is_set(self@, 9),
    {
        read_bit(self.bits, 9)
    }

    /// The register with the `port_power` bit set to `v`.
    pub fn with_port_power(self, v: bool) -> (r: Self)
        ensures
            r@ == set_bit(self@, 9, v),
    {
        StatusAndControl { bits: write_bit(self.bits, 9, v) }
    }

    /// The speed of the connected device, if one is connected.
    pub fn port_speed(&self) -> (r: u8)
        ensures
            r == get_bits(self@, 10, 4),
    {
        read_bits(self.bits, 10, 4) as u8
    }

    /// The status of the port indicator light.
    pub fn port_indicator_control(&self) -> (r: PortIndicatorState)
        ensures
            r == port_indicator_state_of(get_bits(self@, 14, 2)),
    {
        PortIndicatorState::from_bits(read_bits(self.bits, 14, 2))
    }

    /// Whether writes to the port link state take effect.
    pub fn port_link_state_write_strobe(&self) -> (r: bool)
        ensures
            r == bit_is_set(self@, 16),
    {
        read_bit(self.bits, 16)
    }

    /// Whether the connection status has changed.
    pub fn connect_status_change(&self) -> (r: bool)
        ensures
            r == bit_is_set(self@, 17),
    {
        read_bit(self.bits, 17)
    }

    /// The register with the `connect_status_change` bit set to `v`.
    pub fn with_connect_status_change(self, v: bool) -> (r: Self)
        ensures
            r@ == set_bit(self@, 17, v),
    {
        StatusAndControl { bits: write_bit(self.bits, 17, v) }
    }

    /// Whether the port enabled bit has changed.
    pub fn port_enabled_change(&self) -> (r: bool)
        ensures
            r == bit_is_set(self@, 18),
    {
        read_bit(self.bits, 18)
    }

    /// The register with the `port_enabled_change` bit set to `v`.
    pub fn with_port_enabled_change(self, v: bool) -> (r: Self)
        ensures
            r@ == set_bit(self@, 18, v),
    {
        StatusAndControl { bits: write_bit(self.bits, 18, v) }
    }

    /// Whether a warm reset of the port has completed.
    pub fn warm_port_reset_change(&self) -> (r: bool)
        ensures
            r == bit_is_set(self@, 19),
    {
        read_bit(self.bits, 19)
    }

    /// The register with the `warm_port_reset_change` bit set to `v`.
    pub fn with_warm_port_reset_change(self, v: bool) -> (r: Self)
        ensures
            r@ == set_bit(self@, 19, v),
    {
        StatusAndControl { bits: write_bit(self.bits, 19, v) }
    }

    /// Whether the over-current condition has changed.
    pub fn over_current_change(&self) -> (r: bool)
        ensures
            r == bit_is_set(self@, 20),
    {
        read_bit(self.bits, 20)
    }

    /// The register with the `over_current_change` bit set to `v`.
    pub fn with_over_current_change(self, v: bool) -> (r: Self)
        ensures
            r@ == set_bit(self@, 20, v),
    {
        StatusAndControl { bits: write_bit(self.bits, 20, v) }
    }

    /// Whether a reset of the port has completed.
    pub fn port_reset_change(&self) -> (r: bool)
        ensures
            r == bit_is_set(self@, 21),
    {
        read_bit(self.bits, 21)
    }

    /// The register with the `port_reset_change` bit set to `v`.
    pub fn with_port_reset_change(self, v: bool) -> (r: Self)
        ensures
            r@ == set_bit(self@, 21, v),
    {
        StatusAndControl { bits: write_bit(self.bits, 21, v) }
    }

    /// Whether the port link state has made one of the reported transitions.
    pub fn port_link_state_change(&self) -> (r: bool)
        ensures
            r == bit_is_set(self@, 22),
    {
        read_bit(self.bits, 22)
    }

    /// The register with the `port_link_state_change` bit set to `v`.
    pub fn with_port_link_state_change(self, v: bool) -> (r: Self)
        ensures
            r@ == set_bit(self@, 22, v),
    {
        StatusAndControl { bits: write_bit(self.bits, 22, v) }
    }

    /// Whether the port failed to configure its link partner.
    pub fn port_config_error_change(&self) -> (r: bool)
        ensures
            r == bit_is_set(self@, 23),
    {
        read_bit(self.bits, 23)
    }

    /// The register with the `port_config_error_change` bit set to `v`.
    pub fn with_port_config_error_change(self, v: bool) -> (r: Self)
        ensures
            r@ == set_bit(self@, 23, v),
    {
        StatusAndControl { bits: write_bit(self.bits, 23, v) }
    }

    /// Whether a device is attached but no connection could be established.
    pub fn cold_attach_status(&self) -> (r: bool)
        ensures
            r == bit_is_set(self@, 24),
    {
        read_bit(self.bits, 24)
    }

    /// Whether device connects trigger system wake-up events.
    pub fn wake_on_connect(&self) -> (r: bool)
        ensures
            r == bit_is_set(self@, 25),
    {
        read_bit(self.bits, 25)
    }

    /// The register with the `wake_on_connect` bit set to `v`.
    pub fn with_wake_on_connect(self, v: bool) -> (r: Self)
        ensures
            r@ == set_bit(self@, 25, v),
    {
        StatusAndControl { bits: write_bit(self.bits, 25, v) }
    }

    /// Whether device disconnects trigger system wake-up events.
    pub fn wake_on_disconnect(&self) -> (r: bool)
        ensures
            r == bit_is_set(self@, 26),
    {
        read_bit(self.bits, 26)
    }

    /// The register with the `wake_on_disconnect` bit set to `v`.
    pub fn with_wake_on_disconnect(self, v: bool) -> (r: Self)
        ensures
            r@ == set_bit(self@, 26, v),
    {
        StatusAndControl { bits: write_bit(self.bits, 26, v) }
    }

    /// Whether over current conditions trigger system wake-up events.
    pub fn wake_on_over_current(&self) -> (r: bool)
        ensures
            r == bit_is_set(self@, 27),
    {
        read_bit(self.bits, 27)
    }

    /// The register with the `wake_on_over_current` bit set to `v`.
    pub fn with_wake_on_over_current(self, v: bool) -> (r: Self)
        ensures
            r@ == set_bit(self@, 27, v),
    {
        StatusAndControl { bits: write_bit(self.bits, 27, v) }
    }

    /// Whether the device in this port is non-removable.
    pub fn device_is_non_removable(&self) -> (r: bool)
        ensures
            r == bit_is_set(self@, 30),
    {
        read_bit(self.bits, 30)
    }

    /// Whether a warm reset of the port is being requested.
    pub fn warm_reset(&self) -> (r: bool)
        ensures
            r == bit_is_set(self@, 31),
    {
        read_bit(self.bits, 31)
    }

    /// The register with the `warm_reset` bit set to `v`.
    pub fn with_warm_reset(self, v: bool) -> (r: Self)
        ensures
            r@ == set_bit(self@, 31, v),
    {
        StatusAndControl { bits: write_bit(self.bits, 31, v) }
    }
    /// Sets all bits that writing 1 to has an effect on (`RW1C` and `RW1S`) to 0, so that writing the
    /// value back to the controller has no unintended side-effects.
    pub fn normalised(self) -> (r: Self)
        ensures
            r@ == self@ & !STATUS_AND_CONTROL_WRITE_ONE_BITS,
    {
        StatusAndControl { bits: self.bits & !STATUS_AND_CONTROL_WRITE_ONE_BITS }
    }
}


/// When a connection in U0 starts or accepts a transition to U1.
#[derive(Debug, Clone, Copy, PartialEq, Eq)]
pub enum U1Timeout {
    /// The controller never starts or accepts transitions to U1
    Never,
    /// The controller starts a transition to U1 after this many microseconds of inactivity
    AfterTimeout(u8),
    /// The controller does not start a transition to U1 but accepts those the device starts.
    AcceptOnly,
}

/// The U1 timeout encoded by the byte `b`: 0, 1 to 0x7F, or 0xFF.
pub open spec fn u1_timeout_of(b: u8) -> U1Timeout {
    if b == 0 {
        U1Timeout::Never
    } else if b == 0xFF {
        U1Timeout::AcceptOnly
    } else {
        U1Timeout::AfterTimeout(b)
    }
}

/// The byte that encodes a U1 or U2 timeout.
pub open spec fn u1_timeout_bits(t: U1Timeout) -> u32 {
    match t {
        U1Timeout::Never => 0,
        U1Timeout::AfterTimeout(us) => us as u32,
        U1Timeout::AcceptOnly => 0xFF,
    }
}

impl U1Timeout {
    /// Constructs a U1 timeout from its bit representation: the low byte, which must not be
    /// between 0x80 and 0xFE.
    pub fn from_bits(bits: u32) -> (r: Self)
        requires
            (bits as u8) < 0x80 || (bits as u8) == 0xFF,
        ensures
            r == u1_timeout_of(bits as u8),
    {
        let bits = bits as u8;
        if bits == 0 {
            U1Timeout::Never
        } else if bits == 0xFF {
            U1Timeout::AcceptOnly
        } else {
            U1Timeout::AfterTimeout(bits)
        }
    }

    /// Converts a U1 timeout into its bit representation.
    pub fn into_bits(self) -> (r: u32)
        ensures
            r == u1_timeout_bits(self),
    {
        match self {
            U1Timeout::Never => 0,
            U1Timeout::AfterTimeout(us) => us as u32,
            U1Timeout::AcceptOnly => 0xFF,
        }
    }
}

/// When a connection in U0 starts or accepts a transition to U2.
#[derive(Debug, Clone, Copy, PartialEq, Eq)]
pub enum U2Timeout {
    /// The controller never starts or accepts transitions to U2
    Never,
    /// The controller starts a transition to U2 after this many multiples of 256 microseconds of inactivity
    AfterTimeout(u8),
    /// The controller does not start a transition to U2 but accepts those the device starts.
    AcceptOnly,
}

/// The U2 timeout encoded by the byte `b`.
pub open spec fn u2_timeout_of(b: u8) -> U2Timeout {
    if b == 0 {
        U2Timeout::Never
    } else if b == 0xFF {
        U2Timeout::AcceptOnly
    } else {
        U2Timeout::AfterTimeout(b)
    }
}

/// The byte that encodes a U2 timeout.
pub open spec fn u2_timeout_bits(t: U2Timeout) -> u32 {
    match t {
        U2Timeout::Never => 0,
        U2Timeout::AfterTimeout(us) => us as u32,
        U2Timeout::AcceptOnly => 0xFF,
    }
}

impl U2Timeout {
    /// Constructs a U2 timeout from its bit representation: the low byte.
    pub fn from_bits(bits: u32) -> (r: Self)
        ensures
            r == u2_timeout_of(bits as u8),
    {
        let bits = bits as u8;
        if bits == 0 {
            U2Timeout::Never
        } else if bits == 0xFF {
            U2Timeout::AcceptOnly
        } else {
            U2Timeout::AfterTimeout(bits)
        }
    }

    /// Converts a U2 timeout into its bit representation.
    pub fn into_bits(self) -> (r: u32)
        ensures
            r == u2_timeout_bits(self),
    {
        match self {
            U2Timeout::Never => 0,
            U2Timeout::AfterTimeout(us) => us as u32,
            U2Timeout::AcceptOnly => 0xFF,
        }
    }
}

/// Decoding the byte of a U1 timeout gives it back, where an `AfterTimeout` count is between 1 and 0x7F.
pub proof fn lemma_u1_timeout_roundtrip(t: U1Timeout)
    requires
        !(t matches U1Timeout::AfterTimeout(n) && (n == 0 || n >= 0x80)),
    ensures
        u1_timeout_of(u1_timeout_bits(t) as u8) == t,
        (u1_timeout_bits(t) as u8) < 0x80 || (u1_timeout_bits(t) as u8) == 0xFF,
{
}

/// Decoding the byte of a U2 timeout gives it back, where an `AfterTimeout` count is neither 0 nor 0xFF.
pub proof fn lemma_u2_timeout_roundtrip(t: U2Timeout)
    requires
        !(t matches U2Timeout::AfterTimeout(n) && (n == 0 || n == 0xFF)),
    ensures
        u2_timeout_of(u2_timeout_bits(t) as u8) == t,
{
}

/// The port power management status and control register.
#[derive(Debug, Clone, Copy, PartialEq, Eq)]
pub struct PowerManagement {
    bits: u32,
}

impl View for PowerManagement {
    type V = u32;

    closed spec fn view(&self) -> u32 {
        self.bits
    }
}

impl PowerManagement {
    /// Constructs the register from its bit representation.
    pub fn from_bits(bits: u32) -> (r: Self)
        ensures
            r@ == bits,
    {
        PowerManagement { bits }
    }

    /// The register's bit representation.
    pub fn into_bits(self) -> (r: u32)
        ensures
            r == self@,
    {
        self.bits
    }

    /// When the controller starts or accepts transitions to U1.
    pub fn u1_timeout(&self) -> (r: U1Timeout)
        requires
            get_bits(self@, 0, 8) < 0x80 || get_bits(self@, 0, 8) == 0xFF,
        ensures
            r == u1_timeout_of(get_bits(self@, 0, 8) as u8),
    {
        U1Timeout::from_bits(read_bits(self.bits, 0, 8))
    }

    /// When the controller starts or accepts transitions to U2.
    pub fn u2_timeout(&self) -> (r: U2Timeout)
        ensures
            r == u2_timeout_of(get_bits(self@, 8, 8) as u8),
    {
        U2Timeout::from_bits(read_bits(self.bits, 8, 8))
    }

    /// Whether a Set Link Function LMP with Force_LinkPM_Accept is generated.
    pub fn force_link_pm_accept(&self) -> (r: bool)
        ensures
            r == bit_is_set(self@, 16),
    {
        read_bit(self.bits, 16)
    }
}

/// The port link info register of a USB 3 port.
#[derive(Debug, Clone, Copy, PartialEq, Eq)]
pub struct PortLinkInfo {
    bits: u32,
}

impl View for PortLinkInfo {
    type V = u32;

    closed spec fn view(&self) -> u32 {
        self.bits
    }
}

impl PortLinkInfo {
    /// Constructs the register from its bit representation.
    pub fn from_bits(bits: u32) -> (r: Self)
        ensures
            r@ == bits,
    {
        PortLinkInfo { bits }
    }

    /// The register's bit representation.
    pub fn into_bits(self) -> (r: u32)
        ensures
            r == self@,
    {
        self.bits
    }

    /// The number of link errors detected by the port.
    pub fn error_count(&self) -> (r: u16)
        ensures
            r == get_bits(self@, 0, 16),
    {
        read_bits(self.bits, 0, 16) as u16
    }

    /// The number of receive lanes negotiated by the port, minus 1.
    pub fn receive_lane_count(&self) -> (r: u8)
        ensures
            r == get_bits(self@, 16, 4),
    {
        read_bits(self.bits, 16, 4) as u8
    }

    /// The number of transmit lanes negotiated by the port, minus 1.
    pub fn transmit_lane_count(&self) -> (r: u8)
        ensures
            r == get_bits(self@, 20, 4),
    {
        read_bits(self.bits, 20, 4) as u8
    }
}

/// The port hardware LPM control register of a USB 3 port.
#[derive(Debug, Clone, Copy, PartialEq, Eq)]
pub struct PortHardwareLpmControl {
    bits: u32,
}

impl View for PortHardwareLpmControl {
    type V = u32;

    closed spec fn view(&self) -> u32 {
        self.bits
    }
}

impl PortHardwareLpmControl {
    /// Constructs the register from its bit representation.
    pub fn from_bits(bits: u32) -> (r: Self)
        ensures
            r@ == bits,
    {
        PortHardwareLpmControl { bits }
    }

    /// The register's bit representation.
    pub fn into_bits(self) -> (r: u32)
        ensures
            r == self@,
    {
        self.bits
    }

    /// The number of soft link errors detected by the port.
    pub fn soft_error_count(&self) -> (r: u16)
        ensures
            r == get_bits(self@, 0, 16),
    {
        read_bits(self.bits, 0, 16) as u16
    }
}

} // verus!
