//! The operational registers of an xHCI controller: command, status, page size, command ring control,
//! device context array pointer and configuration.
use vstd::prelude::*;
use crate::bitfield::{bit_is_set, get_bits, get_bits64, read_bit, read_bits, read_bits64, set_bit, set_bits, set_bits64, write_bit, write_bits, write_bits64};
use crate::addr::{is_phys_addr, phys_addr_new};
use crate::bitfield::lemma_clear_low_bits64;
use crate::usb::xhci::capability::CapabilityRegisters;
use crate::usb::xhci::port_registers::{PortHardwareLpmControl, PortLinkInfo, PowerManagement, StatusAndControl};

verus! {

/// Whether `v` has exactly one bit set.
pub open spec fn is_power_of_two(v: u64) -> bool {
    v != 0 && v & (v - 1) as u64 == 0
}

/// A page of 4KiB is a page size that the page size register can describe.
pub proof fn lemma_4k_page_size()
    ensures
        is_power_of_two(0x1000),
{
    assert(is_power_of_two(0x1000)) by (bit_vector);
}

/// The page size register: bit `n` set means that pages of `2^(n + 12)` bytes are supported.
#[derive(Debug, Clone, Copy)]
pub struct SupportedPageSize(pub u32);

impl SupportedPageSize {
    /// The page size in bytes that the register describes, when it describes a single one.
    pub open spec fn page_size_spec(self) -> u64 {
        (self.0 as u64 * 0x1000) as u64
    }

    /// Gets the page size supported by the controller, e.g. `0x1000` for 4KiB pages.
    /// Controllers supporting several page sizes are not supported.
    pub fn page_size(&self) -> (r: u64)
        requires
            is_power_of_two(self.page_size_spec()),
        ensures
            r == self.page_size_spec(),
    {
        let raw = self.0 as u64;
        assert((raw << 12u64) == raw * 0x1000) by (bit_vector)
            requires
                raw <= 0xffff_ffff,
        ;
        raw << 12u64
    }
}


/// When the controller may stop incrementing `MFINDEX`.
#[derive(Debug, Clone, Copy, PartialEq, Eq)]
pub enum MfindexStopBehaviour {
    /// It may stop if all root hub ports are in the Training, Disconnected, Disabled or Powered-Off states.
    Training,
    /// It may stop if all root hub ports are in the U3, Disconnected, Disabled or Powered-Off states.
    U3,
}

impl MfindexStopBehaviour {
    /// Constructs the behaviour from its bit representation: 0 is `Training`, anything else `U3`.
    pub fn from_bits(value: u32) -> (r: Self)
        ensures
            r == if value == 0 { MfindexStopBehaviour::Training } else { MfindexStopBehaviour::U3 },
    {
        if value == 0 {
            MfindexStopBehaviour::Training
        } else {
            MfindexStopBehaviour::U3
        }
    }

    /// Converts the behaviour into its bit representation.
    pub fn into_bits(self) -> (r: u32)
        ensures
            r == match self {
                MfindexStopBehaviour::Training => 0u32,
                MfindexStopBehaviour::U3 => 1u32,
            },
    {
        match self {
            MfindexStopBehaviour::Training => 0,
            MfindexStopBehaviour::U3 => 1,
        }
    }
}

/// The behaviour that a one-bit value stands for.
pub open spec fn mfindex_stop_behaviour_of(v: u32) -> MfindexStopBehaviour {
    if v == 0 { MfindexStopBehaviour::Training } else { MfindexStopBehaviour::U3 }
}

/// The `USBCMD` register: commands to the controller.
#[derive(Debug, Clone, Copy, PartialEq, Eq)]
pub struct UsbCommand {
    bits: u32,
}

impl View for UsbCommand {
    type V = u32;

    closed spec fn view(&self) -> u32 {
        self.bits
    }
}

impl UsbCommand {
    /// Constructs the register from its bit representation.
    pub fn from_bits(bits: u32) -> (r: Self)
        ensures
            r@ == bits,
    {
        UsbCommand { bits }
    }

    /// The register's bit representation.
    pub fn into_bits(self) -> (r: u32)
        ensures
            r == self@,
    {
        self.bits
    }

    /// Whether the controller is running.
    pub fn enabled(&self) -> (r: bool)
        ensures
            r == bit_is_set(self@, 0),
    {
        read_bit(self.bits, 0)
    }

    /// The register with the `enabled` bit set to `v`.
    pub fn with_enabled(self, v: bool) -> (r: Self)
        ensures
            r@ == set_bit(self@, 0, v),
    {
        UsbCommand { bits: write_bit(self.bits, 0, v) }
    }

    /// Writing `true` resets the controller; it writes `false` when the reset is complete.
    pub fn reset(&self) -> (r: bool)
        ensures
            r == bit_is_set(self@, 1),
    {
        read_bit(self.bits, 1)
    }

    /// The register with the `reset` bit set to `v`.
    pub fn with_reset(self, v: bool) -> (r: Self)
        ensures
            r@ == set_bit(self@, 1, v),
    {
        UsbCommand { bits: write_bit(self.bits, 1, v) }
    }

    /// Whether the controller produces host system interrupts on USB events.
    pub fn interrupts_enabled(&self) -> (r: bool)
        ensures
            r == bit_is_set(self@, 2),
    {
        read_bit(self.bits, 2)
    }

    /// The register with the `interrupts_enabled` bit set to `v`.
    pub fn with_interrupts_enabled(self, v: bool) -> (r: Self)
        ensures
            r@ == set_bit(self@, 2, v),
    {
        UsbCommand { bits: write_bit(self.bits, 2, v) }
    }

    /// Whether the controller asserts out-of-band error signalling to the host.
    pub fn host_system_error_enabled(&self) -> (r: bool)
        ensures
            r == bit_is_set(self@, 3),
    {
        read_bit(self.bits, 3)
    }

    /// The register with the `host_system_error_enabled` bit set to `v`.
    pub fn with_host_system_error_enabled(self, v: bool) -> (r: Self)
        ensures
            r@ == set_bit(self@, 3, v),
    {
        UsbCommand { bits: write_bit(self.bits, 3, v) }
    }

    /// Writing `true` resets the controller without affecting the state of the ports.
    pub fn light_reset(&self) -> (r: bool)
        ensures
            r == bit_is_set(self@, 7),
    {
        read_bit(self.bits, 7)
    }

    /// The register with the `light_reset` bit set to `v`.
    pub fn with_light_reset(self, v: bool) -> (r: Self)
        ensures
            r@ == set_bit(self@, 7, v),
    {
        UsbCommand { bits: write_bit(self.bits, 7, v) }
    }

    /// Writing `true` while halted makes the controller save its state.
    pub fn save_state(&self) -> (r: bool)
        ensures
            r == bit_is_set(self@, 8),
    {
        read_bit(self.bits, 8)
    }

    /// The register with the `save_state` bit set to `v`.
    pub fn with_save_state(self, v: bool) -> (r: Self)
        ensures
            r@ == set_bit(self@, 8, v),
    {
        UsbCommand { bits: write_bit(self.bits, 8, v) }
    }

    /// Writing `true` while halted makes the controller restore its state.
    pub fn restore_state(&self) -> (r: bool)
        ensures
            r == bit_is_set(self@, 9),
    {
        read_bit(self.bits, 9)
    }

    /// The register with the `restore_state` bit set to `v`.
    pub fn with_restore_state(self, v: bool) -> (r: Self)
        ensures
            r@ == set_bit(self@, 9, v),
    {
        UsbCommand { bits: write_bit(self.bits, 9, v) }
    }

    /// Whether an MFINDEX Wrap Event is generated whenever MFINDEX wraps.
    pub fn wrap_events_enabled(&self) -> (r: bool)
        ensures
            r == bit_is_set(self@, 10),
    {
        read_bit(self.bits, 10)
    }

    /// The register with the `wrap_events_enabled` bit set to `v`.
    pub fn with_wrap_events_enabled(self, v: bool) -> (r: Self)
        ensures
            r@ == set_bit(self@, 10, v),
    {
        UsbCommand { bits: write_bit(self.bits, 10, v) }
    }

    /// When the controller may stop incrementing MFINDEX.
    pub fn mfindex_stop_behaviour(&self) -> (r: MfindexStopBehaviour)
        ensures
            r == mfindex_stop_behaviour_of(get_bits(self@, 11, 1)),
    {
        MfindexStopBehaviour::from_bits(read_bits(self.bits, 11, 1))
    }

    /// Whether a Configure Endpoint command may fail with Max Exit Latency Too Large.
    pub fn cem_enabled(&self) -> (r: bool)
        ensures
            r == bit_is_set(self@, 13),
    {
        read_bit(self.bits, 13)
    }

    /// The register with the `cem_enabled` bit set to `v`.
    pub fn with_cem_enabled(self, v: bool) -> (r: Self)
        ensures
            r@ == set_bit(self@, 13, v),
    {
        UsbCommand { bits: write_bit(self.bits, 13, v) }
    }

    /// Whether burst counts greater than 4 are used in isochronous TDs.
    pub fn extended_tbc_supported(&self) -> (r: bool)
        ensures
            r == bit_is_set(self@, 14),
    {
        read_bit(self.bits, 14)
    }

    /// The register with the `extended_tbc_supported` bit set to `v`.
    pub fn with_extended_tbc_supported(self, v: bool) -> (r: Self)
        ensures
            r@ == set_bit(self@, 14, v),
    {
        UsbCommand { bits: write_bit(self.bits, 14, v) }
    }

    /// Whether the TRB status field says whether a TRB is the last of its TD.
    pub fn extended_tbc_trb_status_supported(&self) -> (r: bool)
        ensures
            r == bit_is_set(self@, 15),
    {
        read_bit(self.bits, 15)
    }

    /// The register with the `extended_tbc_trb_status_supported` bit set to `v`.
    pub fn with_extended_tbc_trb_status_supported(self, v: bool) -> (r: Self)
        ensures
            r@ == set_bit(self@, 15, v),
    {
        UsbCommand { bits: write_bit(self.bits, 15, v) }
    }

    /// Whether the controller uses the VTIO registers to determine its DMA-ID.
    pub fn vtio_enabled(&self) -> (r: bool)
        ensures
            r == bit_is_set(self@, 16),
    {
        read_bit(self.bits, 16)
    }

    /// The register with the `vtio_enabled` bit set to `v`.
    pub fn with_vtio_enabled(self, v: bool) -> (r: Self)
        ensures
            r@ == set_bit(self@, 16, v),
    {
        UsbCommand { bits: write_bit(self.bits, 16, v) }
    }
}

/// The `USBSTS` register: the state of the controller and its pending interrupts.
#[derive(Debug, Clone, Copy, PartialEq, Eq)]
pub struct UsbStatus {
    bits: u32,
}

impl View for UsbStatus {
    type V = u32;

    closed spec fn view(&self) -> u32 {
        self.bits
    }
}

impl UsbStatus {
    /// Constructs the register from its bit representation.
    pub fn from_bits(bits: u32) -> (r: Self)
        ensures
            r@ == bits,
    {
        UsbStatus { bits }
    }

    /// The register's bit representation.
    pub fn into_bits(self) -> (r: u32)
        ensures
            r == self@,
    {
        self.bits
    }

    /// Whether the controller has stopped execution.
    pub fn host_controller_halted(&self) -> (r: bool)
        ensures
            r == bit_is_set(self@, 0),
    {
        read_bit(self.bits, 0)
    }

    /// Whether a serious error has been detected.
    pub fn host_system_error(&self) -> (r: bool)
        ensures
            r == bit_is_set(self@, 2),
    {
        read_bit(self.bits, 2)
    }

    /// The register with the `host_system_error` bit set to `v`.
    pub fn with_host_system_error(self, v: bool) -> (r: Self)
        ensures
            r@ == set_bit(self@, 2, v),
    {
        UsbStatus { bits: write_bit(self.bits, 2, v) }
    }

    /// Whether any interrupter has a pending interrupt.
    pub fn event_interrupt(&self) -> (r: bool)
        ensures
            r == bit_is_set(self@, 3),
    {
        read_bit(self.bits, 3)
    }

    /// The register with the `event_interrupt` bit set to `v`.
    pub fn with_event_interrupt(self, v: bool) -> (r: Self)
        ensures
            r@ == set_bit(self@, 3, v),
    {
        UsbStatus { bits: write_bit(self.bits, 3, v) }
    }

    /// Whether a port change bit has gone from 0 to 1.
    pub fn port_change_detect(&self) -> (r: bool)
        ensures
            r == bit_is_set(self@, 4),
    {
        read_bit(self.bits, 4)
    }

    /// The register with the `port_change_detect` bit set to `v`.
    pub fn with_port_change_detect(self, v: bool) -> (r: Self)
        ensures
            r@ == set_bit(self@, 4, v),
    {
        UsbStatus { bits: write_bit(self.bits, 4, v) }
    }

    /// Whether the controller is saving its state.
    pub fn save_state_status(&self) -> (r: bool)
        ensures
            r == bit_is_set(self@, 8),
    {
        read_bit(self.bits, 8)
    }

    /// Whether the controller is restoring its state.
    pub fn restore_state_status(&self) -> (r: bool)
        ensures
            r == bit_is_set(self@, 9),
    {
        read_bit(self.bits, 9)
    }

    /// Whether an error occurred during a save or restore operation.
    pub fn save_restore_error(&self) -> (r: bool)
        ensures
            r == bit_is_set(self@, 10),
    {
        read_bit(self.bits, 10)
    }

    /// The register with the `save_restore_error` bit set to `v`.
    pub fn with_save_restore_error(self, v: bool) -> (r: Self)
        ensures
            r@ == set_bit(self@, 10, v),
    {
        UsbStatus { bits: write_bit(self.bits, 10, v) }
    }

    /// Whether the controller is not ready.
    pub fn controller_not_ready(&self) -> (r: bool)
        ensures
            r == bit_is_set(self@, 11),
    {
        read_bit(self.bits, 11)
    }

    /// Whether an error has occurred which requires the controller to be reinitialised.
    pub fn host_controller_error(&self) -> (r: bool)
        ensures
            r == bit_is_set(self@, 12),
    {
        read_bit(self.bits, 12)
    }
}


/// The `CRCR` register, which controls the command ring: flags in bits 0 to 3 and the ring pointer,
/// 64-byte aligned, in bits 6 to 63.
#[derive(Debug, Clone, Copy, PartialEq, Eq)]
pub struct CommandRingControl {
    bits: u64,
}

impl View for CommandRingControl {
    type V = u64;

    closed spec fn view(&self) -> u64 {
        self.bits
    }
}

impl CommandRingControl {
    /// Constructs the register from its bit representation.
    pub fn from_bits(bits: u64) -> (r: Self)
        ensures
            r@ == bits,
    {
        CommandRingControl { bits }
    }

    /// The register's bit representation.
    pub fn into_bits(self) -> (r: u64)
        ensures
            r == self@,
    {
        self.bits
    }

    /// The consumer cycle state of the TRB that the command ring pointer refers to.
    pub fn ring_cycle_state(&self) -> (r: bool)
        ensures
            r == (get_bits64(self@, 0, 1) == 1),
    {
        read_bits64(self.bits, 0, 1) == 1
    }

    /// Whether the command ring is stopped after the current command.
    pub fn command_stop(&self) -> (r: bool)
        ensures
            r == (get_bits64(self@, 1, 1) == 1),
    {
        read_bits64(self.bits, 1, 1) == 1
    }

    /// Whether the current command is aborted and the command ring stopped.
    pub fn command_abort(&self) -> (r: bool)
        ensures
            r == (get_bits64(self@, 2, 1) == 1),
    {
        read_bits64(self.bits, 2, 1) == 1
    }

    /// Whether the command ring is processing commands.
    pub fn command_ring_running(&self) -> (r: bool)
        ensures
            r == (get_bits64(self@, 3, 1) == 1),
    {
        read_bits64(self.bits, 3, 1) == 1
    }

    /// The register with the ring cycle state set to `v`.
    pub fn with_ring_cycle_state(self, v: bool) -> (r: Self)
        ensures
            r@ == set_bits64(self@, 0, 1, if v { 1 } else { 0 }),
    {
        CommandRingControl { bits: write_bits64(self.bits, 0, 1, if v { 1 } else { 0 }) }
    }

    /// The register with the command stop bit set to `v`.
    pub fn with_command_stop(self, v: bool) -> (r: Self)
        ensures
            r@ == set_bits64(self@, 1, 1, if v { 1 } else { 0 }),
    {
        CommandRingControl { bits: write_bits64(self.bits, 1, 1, if v { 1 } else { 0 }) }
    }

    /// The register with the command abort bit set to `v`.
    pub fn with_command_abort(self, v: bool) -> (r: Self)
        ensures
            r@ == set_bits64(self@, 2, 1, if v { 1 } else { 0 }),
    {
        CommandRingControl { bits: write_bits64(self.bits, 2, 1, if v { 1 } else { 0 }) }
    }

    /// The command ring pointer: bits 6 to 63 of the register, as a 64-byte aligned address.
    pub fn command_ring_pointer(self) -> (r: u64)
        requires
            get_bits64(self@, 6, 58) * 64 < 0x10_0000_0000_0000,
        ensures
            r == get_bits64(self@, 6, 58) * 64,
    {
        let high = read_bits64(self.bits, 6, 58);
        assert(high << 6u64 == high * 64) by (bit_vector)
            requires
                high * 64 < 0x10_0000_0000_0000,
        ;
        phys_addr_new(high << 6u64)
    }

    /// The register with the command ring pointer replaced by `pointer`, which must be 64-byte aligned.
    pub fn with_command_ring_pointer(self, pointer: u64) -> (r: Self)
        requires
            pointer % 64 == 0,
        ensures
            r@ == set_bits64(self@, 6, 58, pointer / 64),
            get_bits64(r@, 6, 58) * 64 == pointer,
    {
        proof {
            lemma_command_ring_pointer_roundtrip(self.bits, pointer);
        }
        let bits = write_bits64(self.bits, 6, 58, pointer >> 6u64);
        CommandRingControl { bits }
    }
}

/// Writing a 64-byte aligned command ring pointer into a command ring control value and reading it
/// back gives the pointer; the shift that stores it is a division by 64.
pub proof fn lemma_command_ring_pointer_roundtrip(v: u64, pointer: u64)
    requires
        pointer % 64 == 0,
    ensures
        pointer >> 6u64 == pointer / 64,
        get_bits64(set_bits64(v, 6, 58, pointer / 64), 6, 58) * 64 == pointer,
{
    assert(pointer >> 6u64 == pointer / 64 && get_bits64(set_bits64(v, 6, 58, pointer / 64), 6, 58) * 64 == pointer)
        by (bit_vector)
        requires
            pointer % 64 == 0,
    ;
}

/// The `DCBAAP` register: the physical address of the device context base address array,
/// 64-byte aligned with the low 5 bits reserved.
#[derive(Debug, Clone, Copy, PartialEq, Eq)]
pub struct DeviceContextBaseAddressArrayPointer(u64);

impl View for DeviceContextBaseAddressArrayPointer {
    type V = u64;

    closed spec fn view(&self) -> u64 {
        self.0
    }
}

impl DeviceContextBaseAddressArrayPointer {
    /// Constructs the register from the array's physical address, which must be 32-byte aligned.
    pub fn from_pointer(pointer: u64) -> (r: Self)
        requires
            pointer % 32 == 0,
        ensures
            r@ == pointer,
    {
        DeviceContextBaseAddressArrayPointer(pointer)
    }

    /// Gets the address held in the register: its value with the low 5 bits cleared.
    pub fn get_pointer(&self) -> (r: u64)
        requires
            is_phys_addr(self@),
        ensures
            r == self@ - self@ % 32,
    {
        let v = self.0;
        proof {
            lemma_clear_low_bits64(v);
        }
        phys_addr_new(v & !0b11111u64)
    }
}

/// The `CONFIG` register: runtime configuration of the controller.
#[derive(Debug, Clone, Copy, PartialEq, Eq)]
pub struct ConfigureRegister {
    bits: u32,
}

impl View for ConfigureRegister {
    type V = u32;

    closed spec fn view(&self) -> u32 {
        self.bits
    }
}

impl ConfigureRegister {
    /// Constructs the register from its bit representation.
    pub fn from_bits(bits: u32) -> (r: Self)
        ensures
            r@ == bits,
    {
        ConfigureRegister { bits }
    }

    /// The register's bit representation.
    pub fn into_bits(self) -> (r: u32)
        ensures
            r == self@,
    {
        self.bits
    }

    /// The maximum number of enabled device slots.
    pub fn max_device_slots_enabled(&self) -> (r: u8)
        ensures
            r == get_bits(self@, 0, 8),
    {
        read_bits(self.bits, 0, 8) as u8
    }

    /// The register with the `max_device_slots_enabled` field set to `v`.
    pub fn with_max_device_slots_enabled(self, v: u8) -> (r: Self)
        ensures
            r@ == set_bits(self@, 0, 8, v as u32),
    {
        ConfigureRegister { bits: write_bits(self.bits, 0, 8, v as u32) }
    }

    /// Whether the PLC flag is asserted when a root hub port enters U3.
    pub fn u3_entry_enable(&self) -> (r: bool)
        ensures
            r == bit_is_set(self@, 8),
    {
        read_bit(self.bits, 8)
    }

    /// The register with the `u3_entry_enable` bit set to `v`.
    pub fn with_u3_entry_enable(self, v: bool) -> (r: Self)
        ensures
            r@ == set_bit(self@, 8, v),
    {
        ConfigureRegister { bits: write_bit(self.bits, 8, v) }
    }

    /// Whether the extended input control context fields are enabled.
    pub fn config_info_enable(&self) -> (r: bool)
        ensures
            r == bit_is_set(self@, 9),
    {
        read_bit(self.bits, 9)
    }

    /// The register with the `config_info_enable` bit set to `v`.
    pub fn with_config_info_enable(self, v: bool) -> (r: Self)
        ensures
            r@ == set_bit(self@, 9, v),
    {
        ConfigureRegister { bits: write_bit(self.bits, 9, v) }
    }
}

/// The values of the four registers of a root hub port.
#[derive(Debug, Clone, Copy, PartialEq, Eq)]
pub struct PortRegisterFields {
    /// The power and connection status of the port.
    pub status_and_control: StatusAndControl,
    /// The power management of the port.
    pub power_management: PowerManagement,
    /// The link state of a USB 3 port.
    pub link_info: PortLinkInfo,
    /// The soft link errors of a USB 3 port.
    pub hardware_lpm_control: PortHardwareLpmControl,
}

/// The registers of one root hub port, as the controller holds them.
#[derive(Debug, Clone, Copy, PartialEq, Eq)]
pub struct PortRegister {
    fields: PortRegisterFields,
}

impl View for PortRegister {
    type V = PortRegisterFields;

    /// The values of the port's four registers.
    closed spec fn view(&self) -> PortRegisterFields {
        self.fields
    }
}

impl PortRegister {
    /// The port whose registers hold `fields`.
    pub fn new(fields: PortRegisterFields) -> (r: Self)
        ensures
            r@ == fields,
    {
        PortRegister { fields }
    }

    /// Reads the status and control register of the port.
    pub fn read_status_and_control(&self) -> (r: StatusAndControl)
        ensures
            r == self@.status_and_control,
    {
        self.fields.status_and_control
    }

    /// Reads the power management register of the port.
    pub fn read_power_management(&self) -> (r: PowerManagement)
        ensures
            r == self@.power_management,
    {
        self.fields.power_management
    }

    /// Reads the link info register of the port.
    pub fn read_link_info(&self) -> (r: PortLinkInfo)
        ensures
            r == self@.link_info,
    {
        self.fields.link_info
    }

    /// Reads the hardware LPM control register of the port.
    pub fn read_hardware_lpm_control(&self) -> (r: PortHardwareLpmControl)
        ensures
            r == self@.hardware_lpm_control,
    {
        self.fields.hardware_lpm_control
    }
}

/// The byte offset of the registers of the 1-based port `port_number` from the start of the
/// operational registers: `0x400 + 0x10 * (port_number - 1)`.
pub open spec fn port_register_offset_of(port_number: usize) -> int {
    0x400 + 0x10 * (port_number - 1)
}

/// The byte offset of the registers of a 1-based port from the start of the operational registers.
pub fn port_register_offset(port_number: usize) -> (r: usize)
    requires
        1 <= port_number,
        0x400 + 0x10 * (port_number - 1) <= usize::MAX,
    ensures
        r == port_register_offset_of(port_number),
{
    0x400 + 0x10 * (port_number - 1)
}

/// The values of the operational registers of an xHCI controller, and of its root hub ports' registers.
#[verifier::ext_equal]
pub struct OperationalRegistersView {
    /// The number of root hub ports
    pub max_ports: nat,
    /// `USBCMD`
    pub usb_command: UsbCommand,
    /// `USBSTS`
    pub usb_status: UsbStatus,
    /// `PAGESIZE`
    pub page_size: SupportedPageSize,
    /// `DNCTRL`
    pub device_notification_control: u32,
    /// `CRCR`
    pub command_ring_control: CommandRingControl,
    /// `DCBAAP`
    pub dcbaap: DeviceContextBaseAddressArrayPointer,
    /// `CONFIG`
    pub configure: ConfigureRegister,
    /// The registers of each port, port 1 first
    pub ports: Seq<PortRegisterFields>,
}

/// The operational registers of an xHCI controller: the values last read from or written to them,
/// and the registers of its root hub ports.
#[derive(Debug)]
pub struct OperationalRegisters {
    max_ports: u8,
    usb_command: UsbCommand,
    usb_status: UsbStatus,
    page_size: SupportedPageSize,
    device_notification_control: u32,
    command_ring_control: CommandRingControl,
    device_context_base_address_array_pointer: DeviceContextBaseAddressArrayPointer,
    configure: ConfigureRegister,
    ports: Vec<PortRegisterFields>,
}

impl View for OperationalRegisters {
    type V = OperationalRegistersView;

    closed spec fn view(&self) -> OperationalRegistersView {
        OperationalRegistersView {
            max_ports: self.max_ports as nat,
            usb_command: self.usb_command,
            usb_status: self.usb_status,
            page_size: self.page_size,
            device_notification_control: self.device_notification_control,
            command_ring_control: self.command_ring_control,
            dcbaap: self.device_context_base_address_array_pointer,
            configure: self.configure,
            ports: self.ports@,
        }
    }
}

impl OperationalRegisters {
    #[verifier::type_invariant]
    spec fn wf(self) -> bool {
        self.ports.len() == self.max_ports
    }

    /// The number of root hub ports.
    pub open spec fn max_ports_spec(&self) -> nat {
        self@.max_ports
    }

    /// The registers of the 1-based port `n`.
    pub open spec fn port_spec(&self, n: int) -> PortRegisterFields {
        self@.ports[n - 1]
    }

    /// The `USBCMD` register.
    pub open spec fn usb_command_spec(&self) -> UsbCommand {
        self@.usb_command
    }

    /// The `USBSTS` register.
    pub open spec fn usb_status_spec(&self) -> UsbStatus {
        self@.usb_status
    }

    /// The `CRCR` register.
    pub open spec fn command_ring_control_spec(&self) -> CommandRingControl {
        self@.command_ring_control
    }

    /// The `DCBAAP` register.
    pub open spec fn dcbaap_spec(&self) -> DeviceContextBaseAddressArrayPointer {
        self@.dcbaap
    }

    /// The `CONFIG` register.
    pub open spec fn configure_spec(&self) -> ConfigureRegister {
        self@.configure
    }

    /// Operational registers with every register and every port register clear, for a controller
    /// whose capability registers are given: its `max_ports` gives the number of ports.
    pub fn new(capability_registers: &CapabilityRegisters, page_size: SupportedPageSize) -> (r: Self)
        ensures
            r.max_ports_spec() == get_bits(capability_registers@[1], 24, 8),
            forall|n: int| 1 <= n <= r.max_ports_spec() ==> {
                &&& (#[trigger] r.port_spec(n)).status_and_control@ == 0
                &&& r.port_spec(n).power_management@ == 0
                &&& r.port_spec(n).link_info@ == 0
                &&& r.port_spec(n).hardware_lpm_control@ == 0
            },
            r@.ports.len() == r.max_ports_spec(),
            r.read_device_notification_control_spec() == 0,
            r.usb_command_spec()@ == 0,
            r.usb_status_spec()@ == 0,
            r.command_ring_control_spec()@ == 0,
            r.dcbaap_spec()@ == 0,
            r.configure_spec()@ == 0,
            r.page_size_spec() == page_size,
    {
        let max_ports = capability_registers.structural_parameters_1().max_ports();
        let mut ports: Vec<PortRegisterFields> = Vec::new();
        while ports.len() < max_ports as usize
            invariant
                ports.len() <= max_ports,
                forall|i: int| 0 <= i < ports.len() ==> {
                    &&& (#[trigger] ports@[i]).status_and_control@ == 0
                    &&& ports@[i].power_management@ == 0
                    &&& ports@[i].link_info@ == 0
                    &&& ports@[i].hardware_lpm_control@ == 0
                },
            decreases max_ports - ports.len(),
        {
            ports.push(PortRegisterFields {
                status_and_control: StatusAndControl::from_bits(0),
                power_management: PowerManagement::from_bits(0),
                link_info: PortLinkInfo::from_bits(0),
                hardware_lpm_control: PortHardwareLpmControl::from_bits(0),
            });
        }
        OperationalRegisters {
            max_ports,
            usb_command: UsbCommand::from_bits(0),
            usb_status: UsbStatus::from_bits(0),
            page_size,
            device_notification_control: 0,
            command_ring_control: CommandRingControl::from_bits(0),
            device_context_base_address_array_pointer: DeviceContextBaseAddressArrayPointer(0),
            configure: ConfigureRegister::from_bits(0),
            ports,
        }
    }

    /// Gets the number of port registers the controller has: the largest value for which
    /// [`port`](Self::port) returns `Some`.
    pub fn max_ports(&self) -> (r: usize)
        ensures
            r == self.max_ports_spec(),
    {
        self.max_ports as usize
    }

    /// Reads the `USBCMD` register.
    pub fn read_usb_command(&self) -> (r: UsbCommand)
        ensures
            r == self.usb_command_spec(),
    {
        self.usb_command
    }

    /// Writes the `USBCMD` register.
    pub fn write_usb_command(&mut self, value: UsbCommand)
        ensures
            final(self)@ == (OperationalRegistersView { usb_command: value, ..old(self)@ }),
            final(self).usb_command_spec() == value,
            final(self).usb_status_spec() == old(self).usb_status_spec(),
            final(self).max_ports_spec() == old(self).max_ports_spec(),
    {
        proof {
            use_type_invariant(&*self);
        }
        self.usb_command = value;
    }

    /// Reads the `USBSTS` register.
    pub fn read_usb_status(&self) -> (r: UsbStatus)
        ensures
            r == self.usb_status_spec(),
    {
        self.usb_status
    }

    /// Writes the `USBSTS` register.
    pub fn write_usb_status(&mut self, value: UsbStatus)
        ensures
            final(self)@ == (OperationalRegistersView { usb_status: value, ..old(self)@ }),
            final(self).usb_status_spec() == value,
            final(self).usb_command_spec() == old(self).usb_command_spec(),
            final(self).max_ports_spec() == old(self).max_ports_spec(),
    {
        proof {
            use_type_invariant(&*self);
        }
        self.usb_status = value;
    }

    /// The page size register.
    pub open spec fn page_size_spec(&self) -> SupportedPageSize {
        self@.page_size
    }

    /// Reads the page size register.
    pub fn read_page_size(&self) -> (r: SupportedPageSize)
        ensures
            r == self.page_size_spec(),
    {
        self.page_size
    }

    /// Reads the device notification control register.
    pub fn read_device_notification_control(&self) -> (r: u32)
        ensures
            r == self.read_device_notification_control_spec(),
    {
        self.device_notification_control
    }

    /// Writes the device notification control register.
    pub fn write_device_notification_control(&mut self, value: u32)
        ensures
            final(self)@ == (OperationalRegistersView { device_notification_control: value, ..old(self)@ }),
            final(self).read_device_notification_control_spec() == value,
            final(self).max_ports_spec() == old(self).max_ports_spec(),
    {
        proof {
            use_type_invariant(&*self);
        }
        self.device_notification_control = value;
    }

    /// The device notification control register.
    pub open spec fn read_device_notification_control_spec(&self) -> u32 {
        self@.device_notification_control
    }

    /// Reads the `CRCR` register.
    pub fn read_command_ring_control(&self) -> (r: CommandRingControl)
        ensures
            r == self.command_ring_control_spec(),
    {
        self.command_ring_control
    }

    /// Writes the `CRCR` register.
    pub fn write_command_ring_control(&mut self, value: CommandRingControl)
        ensures
            final(self)@ == (OperationalRegistersView { command_ring_control: value, ..old(self)@ }),
            final(self).command_ring_control_spec() == value,
            final(self).max_ports_spec() == old(self).max_ports_spec(),
    {
        proof {
            use_type_invariant(&*self);
        }
        self.command_ring_control = value;
    }

    /// Reads the `DCBAAP` register.
    pub fn read_device_context_base_address_array_pointer(&self) -> (r: DeviceContextBaseAddressArrayPointer)
        ensures
            r == self.dcbaap_spec(),
    {
        self.device_context_base_address_array_pointer
    }

    /// Writes the `DCBAAP` register.
    pub fn write_device_context_base_address_array_pointer(&mut self, value: DeviceContextBaseAddressArrayPointer)
        ensures
            final(self)@ == (OperationalRegistersView { dcbaap: value, ..old(self)@ }),
            final(self).dcbaap_spec() == value,
            final(self).max_ports_spec() == old(self).max_ports_spec(),
    {
        proof {
            use_type_invariant(&*self);
        }
        self.device_context_base_address_array_pointer = value;
    }

    /// Reads the `CONFIG` register.
    pub fn read_configure(&self) -> (r: ConfigureRegister)
        ensures
            r == self.configure_spec(),
    {
        self.configure
    }

    /// Writes the `CONFIG` register.
    pub fn write_configure(&mut self, value: ConfigureRegister)
        ensures
            final(self)@ == (OperationalRegistersView { configure: value, ..old(self)@ }),
            final(self).configure_spec() == value,
            final(self).max_ports_spec() == old(self).max_ports_spec(),
    {
        proof {
            use_type_invariant(&*self);
        }
        self.configure = value;
    }

    /// Gets the registers of the 1-based port `port_number`, or `None` where there is no such port.
    pub fn port(&self, port_number: usize) -> (r: Option<PortRegister>)
        requires
            port_number != 0,
        ensures
            port_number > self.max_ports_spec() ==> r is None,
            port_number <= self.max_ports_spec() ==> (r matches Some(p) && p@ == self.port_spec(port_number as int)),
    {
        proof {
            use_type_invariant(self);
        }
        if port_number > self.max_ports as usize {
            None
        } else {
            Some(PortRegister { fields: self.ports[port_number - 1] })
        }
    }

    /// The registers of every port, port 1 first.
    pub fn ports(&self) -> (r: Vec<PortRegister>)
        ensures
            r.len() == self.max_ports_spec(),
            forall|i: int| 0 <= i < r.len() ==> (#[trigger] r@[i])@ == self.port_spec(i + 1),
    {
        proof {
            use_type_invariant(self);
        }
        let mut r: Vec<PortRegister> = Vec::new();
        let mut i: usize = 0;
        while i < self.ports.len()
            invariant
                i <= self.ports.len(),
                self.ports.len() == self.max_ports_spec(),
                r.len() == i,
                forall|j: int| 0 <= j < i ==> (#[trigger] r@[j])@ == self.port_spec(j + 1),
            decreases self.ports.len() - i,
        {
            r.push(PortRegister { fields: self.ports[i] });
            i = i + 1;
        }
        r
    }

    /// Writes the status and control register of the 1-based port `port_number`.
    /// The controller must not be halted.
    pub fn write_port_status_and_control(&mut self, port_number: usize, value: StatusAndControl)
        requires
            1 <= port_number <= old(self).max_ports_spec(),
            !bit_is_set(old(self).usb_status_spec()@, 0),
        ensures
            final(self).max_ports_spec() == old(self).max_ports_spec(),
            final(self).usb_status_spec() == old(self).usb_status_spec(),
            final(self).port_spec(port_number as int)
                == (PortRegisterFields { status_and_control: value, ..old(self).port_spec(port_number as int) }),
            final(self)@ == (OperationalRegistersView {
                ports: old(self)@.ports.update(
                    port_number - 1,
                    PortRegisterFields { status_and_control: value, ..old(self)@.ports[port_number - 1] },
                ),
                ..old(self)@
            }),
            forall|n: int| 1 <= n <= old(self).max_ports_spec() && n != port_number
                ==> #[trigger] final(self).port_spec(n) == old(self).port_spec(n),
    {
        proof {
            use_type_invariant(&*self);
        }
        let mut fields = self.ports[port_number - 1];
        fields.status_and_control = value;
        let mut ports = self.ports.clone();
        ports.set(port_number - 1, fields);
        self.ports = ports;
    }

    /// Writes the power management register of the 1-based port `port_number`.
    /// The controller must not be halted.
    pub fn write_port_power_management(&mut self, port_number: usize, value: PowerManagement)
        requires
            1 <= port_number <= old(self).max_ports_spec(),
            !bit_is_set(old(self).usb_status_spec()@, 0),
        ensures
            final(self).max_ports_spec() == old(self).max_ports_spec(),
            final(self).usb_status_spec() == old(self).usb_status_spec(),
            final(self).port_spec(port_number as int)
                == (PortRegisterFields { power_management: value, ..old(self).port_spec(port_number as int) }),
            final(self)@ == (OperationalRegistersView {
                ports: old(self)@.ports.update(
                    port_number - 1,
                    PortRegisterFields { power_management: value, ..old(self)@.ports[port_number - 1] },
                ),
                ..old(self)@
            }),
            forall|n: int| 1 <= n <= old(self).max_ports_spec() && n != port_number
                ==> #[trigger] final(self).port_spec(n) == old(self).port_spec(n),
    {
        proof {
            use_type_invariant(&*self);
        }
        let mut fields = self.ports[port_number - 1];
        fields.power_management = value;
        let mut ports = self.ports.clone();
        ports.set(port_number - 1, fields);
        self.ports = ports;
    }

    /// Clears the change bits of the status and control register of the 1-based port `port_number`
    /// by writing back the value it holds: records the write and returns the value to write to the
    /// port's register, whose set change bits the controller then clears.
    pub fn clear_port_status_and_control(&mut self, port_number: usize) -> (r: StatusAndControl)
        requires
            1 <= port_number <= old(self).max_ports_spec(),
            !bit_is_set(old(self).usb_status_spec()@, 0),
        ensures
            r == old(self).port_spec(port_number as int).status_and_control,
            final(self)@ == old(self)@,
    {
        proof {
            use_type_invariant(&*self);
        }
        let value = self.ports[port_number - 1].status_and_control;
        self.write_port_status_and_control(port_number, value);
        value
    }
}

} // verus!
