//! The PCI configuration header: the registers common to every function, and the header-type-specific parts.
use vstd::prelude::*;
use crate::bitfield::{bit_is_set, get_bits, read_bit, read_bits};
use super::classcodes::{ClassCode, InvalidValueError, class_code_result};
use super::devices::PciFunction;
use super::{split_to_u16, split_to_u8};

verus! {

/// The vendor:device code of a particular PCI device.
#[derive(Debug, Clone, Copy, PartialEq, Eq)]
pub struct PciDeviceId {
    /// The PCI vendor code of the device's manufacturer
    pub vendor: u16,
    /// The device code, specific to the manufacturer
    pub device: u16,
}

impl PciDeviceId {
    /// Whether the device code is valid. A vendor of `0xffff` signals that no device is connected to the slot.
    pub fn is_valid(&self) -> (r: bool)
        ensures
            r == (self.vendor != 0xffff),
    {
        self.vendor != 0xffff
    }
}

/// How many clock cycles a device takes to assert `DEVSEL#`.
#[derive(Debug, Clone, Copy, PartialEq, Eq)]
pub enum DEVSELTiming {
    /// After 1 clock cycle
    Fast,
    /// After 2 clock cycles
    Medium,
    /// After 3 clock cycles
    Slow,
}

/// The timing encoded by each valid value.
pub open spec fn devsel_timing_of(value: u16) -> DEVSELTiming {
    if value == 0 {
        DEVSELTiming::Fast
    } else if value == 1 {
        DEVSELTiming::Medium
    } else {
        DEVSELTiming::Slow
    }
}

/// The value that encodes each timing.
pub open spec fn devsel_timing_bits(t: DEVSELTiming) -> u16 {
    match t {
        DEVSELTiming::Fast => 0,
        DEVSELTiming::Medium => 1,
        DEVSELTiming::Slow => 2,
    }
}

impl DEVSELTiming {
    /// Converts the timing into its bit representation.
    pub fn into_bits(self) -> (r: u16)
        ensures
            r == devsel_timing_bits(self),
    {
        match self {
            DEVSELTiming::Fast => 0,
            DEVSELTiming::Medium => 1,
            DEVSELTiming::Slow => 2,
        }
    }

    /// Constructs the timing from its bit representation; values above 2 are invalid.
    pub fn from_bits(value: u16) -> (r: Self)
        requires
            value <= 2,
        ensures
            r == devsel_timing_of(value),
    {
        match value {
            0 => DEVSELTiming::Fast,
            1 => DEVSELTiming::Medium,
            _ => DEVSELTiming::Slow,
        }
    }
}

/// The status register of a PCI function: flags about its capabilities and what errors have occurred.
#[derive(Debug, Clone, Copy, PartialEq, Eq)]
pub struct StatusRegister {
    bits: u16,
}

impl View for StatusRegister {
    type V = u16;

    closed spec fn view(&self) -> u16 {
        self.bits
    }
}

impl StatusRegister {
    /// The register with the given bits.
    pub closed spec fn spec_from(bits: u16) -> Self {
        StatusRegister { bits }
    }

    /// Constructs the register from its bits.
    pub fn from_bits(bits: u16) -> (r: Self)
        ensures
            r@ == bits,
            r == Self::spec_from(bits),
    {
        StatusRegister { bits }
    }

    /// The register's bits.
    pub fn into_bits(self) -> (r: u16)
        ensures
            r == self@,
    {
        self.bits
    }

    /// Whether the device has interrupts enabled (bit 3).
    pub fn interrupts_enabled(&self) -> (r: bool)
        ensures
            r == bit_is_set(self@ as u32, 3),
    {
        read_bit(self.bits as u32, 3)
    }

    /// Whether the device has a list of capabilities (bit 4).
    pub fn has_capabilities_list(&self) -> (r: bool)
        ensures
            r == bit_is_set(self@ as u32, 4),
    {
        read_bit(self.bits as u32, 4)
    }

    /// Whether the device can operate at 66MHz (bit 5).
    pub fn is_66_mhz_capable(&self) -> (r: bool)
        ensures
            r == bit_is_set(self@ as u32, 5),
    {
        read_bit(self.bits as u32, 5)
    }

    /// Whether the device accepts fast back-to-back transactions from different agents (bit 7).
    pub fn is_fast_back_to_back_capable(&self) -> (r: bool)
        ensures
            r == bit_is_set(self@ as u32, 7),
    {
        read_bit(self.bits as u32, 7)
    }

    /// Whether a master data parity error has occurred (bit 8).
    pub fn has_master_data_parity_error(&self) -> (r: bool)
        ensures
            r == bit_is_set(self@ as u32, 8),
    {
        read_bit(self.bits as u32, 8)
    }

    /// The `DEVSEL#` timing (bits 9 and 10); the value 3 is invalid.
    pub fn devsel_timing(&self) -> (r: DEVSELTiming)
        requires
            get_bits(self@ as u32, 9, 2) != 3,
        ensures
            r == devsel_timing_of(get_bits(self@ as u32, 9, 2) as u16),
    {
        DEVSELTiming::from_bits(read_bits(self.bits as u32, 9, 2) as u16)
    }

    /// Whether this device terminated a transaction with a Target-Abort (bit 11).
    pub fn signalled_target_abort(&self) -> (r: bool)
        ensures
            r == bit_is_set(self@ as u32, 11),
    {
        read_bit(self.bits as u32, 11)
    }

    /// Whether a master terminated a transaction with a Target-Abort (bit 12).
    pub fn received_target_abort(&self) -> (r: bool)
        ensures
            r == bit_is_set(self@ as u32, 12),
    {
        read_bit(self.bits as u32, 12)
    }

    /// Whether a master terminated a transaction with a Master-Abort (bit 13).
    pub fn received_master_abort(&self) -> (r: bool)
        ensures
            r == bit_is_set(self@ as u32, 13),
    {
        read_bit(self.bits as u32, 13)
    }

    /// Whether the device asserted `SERR#` (bit 14).
    pub fn signalled_system_error(&self) -> (r: bool)
        ensures
            r == bit_is_set(self@ as u32, 14),
    {
        read_bit(self.bits as u32, 14)
    }

    /// Whether the device detected a parity error (bit 15).
    pub fn detected_parity_error(&self) -> (r: bool)
        ensures
            r == bit_is_set(self@ as u32, 15),
    {
        read_bit(self.bits as u32, 15)
    }
}

/// The command register of a PCI function: how it connects to the bus.
#[derive(Debug, Clone, Copy, PartialEq, Eq)]
pub struct CommandRegister {
    bits: u16,
}

impl View for CommandRegister {
    type V = u16;

    closed spec fn view(&self) -> u16 {
        self.bits
    }
}

impl CommandRegister {
    /// The register with the given bits.
    pub closed spec fn spec_from(bits: u16) -> Self {
        CommandRegister { bits }
    }

    /// Constructs the register from its bits.
    pub fn from_bits(bits: u16) -> (r: Self)
        ensures
            r@ == bits,
            r == Self::spec_from(bits),
    {
        CommandRegister { bits }
    }

    /// The register's bits.
    pub fn into_bits(self) -> (r: u16)
        ensures
            r == self@,
    {
        self.bits
    }

    /// Whether the device responds to IO space accesses (bit 0).
    pub fn supports_io_space_accesses(&self) -> (r: bool)
        ensures
            r == bit_is_set(self@ as u32, 0),
    {
        read_bit(self.bits as u32, 0)
    }

    /// Whether the device responds to memory space accesses (bit 1).
    pub fn supports_memory_space_accesses(&self) -> (r: bool)
        ensures
            r == bit_is_set(self@ as u32, 1),
    {
        read_bit(self.bits as u32, 1)
    }

    /// Whether the device can behave as a bus master (bit 2).
    pub fn can_be_bus_master(&self) -> (r: bool)
        ensures
            r == bit_is_set(self@ as u32, 2),
    {
        read_bit(self.bits as u32, 2)
    }

    /// Whether parity errors are enabled (bit 6).
    pub fn parity_errors_enabled(&self) -> (r: bool)
        ensures
            r == bit_is_set(self@ as u32, 6),
    {
        read_bit(self.bits as u32, 6)
    }

    /// Whether the `SERR#` driver is enabled (bit 8).
    pub fn system_error_enable(&self) -> (r: bool)
        ensures
            r == bit_is_set(self@ as u32, 8),
    {
        read_bit(self.bits as u32, 8)
    }

    /// Whether the `INTx#` signals are disabled (bit 10).
    pub fn interrupts_disabled(&self) -> (r: bool)
        ensures
            r == bit_is_set(self@ as u32, 10),
    {
        read_bit(self.bits as u32, 10)
    }
}

/// A PCI interrupt pin.
#[derive(Debug, Clone, Copy, PartialEq, Eq)]
pub enum InterruptPin {
    IntA,
    IntB,
    IntC,
    IntD,
    /// The device does not use an interrupt pin
    NoPin,
}

/// The result of parsing the interrupt pin header field.
pub open spec fn interrupt_pin_result(number: u8) -> Result<InterruptPin, InvalidValueError> {
    match number {
        0 => Ok(InterruptPin::NoPin),
        1 => Ok(InterruptPin::IntA),
        2 => Ok(InterruptPin::IntB),
        3 => Ok(InterruptPin::IntC),
        4 => Ok(InterruptPin::IntD),
        _ => Err(InvalidValueError { value: number, field: "Interrupt pin number" }),
    }
}

impl InterruptPin {
    /// Constructs an [`InterruptPin`] from the value of the interrupt pin header field.
    pub fn from_pin_number(number: u8) -> (r: Result<Self, InvalidValueError>)
        ensures
            r == interrupt_pin_result(number),
    {
        match number {
            0 => Ok(InterruptPin::NoPin),
            1 => Ok(InterruptPin::IntA),
            2 => Ok(InterruptPin::IntB),
            3 => Ok(InterruptPin::IntC),
            4 => Ok(InterruptPin::IntD),
            _ => Err(InvalidValueError { value: number, field: "Interrupt pin number" }),
        }
    }
}

/// Byte `i` (0 is the least significant) of a register.
pub open spec fn byte_of(value: u32, i: int) -> u8 {
    if i == 0 {
        (value % 0x100) as u8
    } else if i == 1 {
        ((value / 0x100) % 0x100) as u8
    } else if i == 2 {
        ((value / 0x1_0000) % 0x100) as u8
    } else {
        (value / 0x100_0000) as u8
    }
}

/// The capabilities pointer of a header: present when bit 20 of the status/command register
/// (the status register's capabilities-list bit) is set, and then the low byte of register 13.
pub open spec fn capabilities_pointer_of(registers: Seq<u32>) -> Option<u8> {
    if bit_is_set(registers[1], 20) {
        Some(byte_of(registers[13], 0))
    } else {
        None
    }
}

/// The additional header of a general PCI device (header type 0x00).
#[derive(Debug, Clone, Copy)]
pub struct PciGeneralDeviceHeader {
    /// The function this header belongs to
    pub function: PciFunction,
    /// Points to the Card Information Structure
    pub cardbus_cis_pointer: u32,
    /// Identifies the board, for expansion cards
    pub subsystem_device_code: PciDeviceId,
    /// The physical address of expansion ROM
    pub expansion_rom_base_address: u32,
    /// A pointer into the configuration space to the device's list of capabilities
    pub capabilities_pointer: Option<u8>,
    /// How often the device needs to access the bus, in 0.25 microsecond units
    pub max_latency: u8,
    /// The burst period the device needs, in 0.25 microsecond units
    pub min_grant: u8,
    /// Which PCI interrupt pin the device uses
    pub interrupt_pin: InterruptPin,
    /// Which input of the interrupt controller the device is connected to
    pub interrupt_line: u8,
}

/// The general device header parsed from the 17 header registers.
pub open spec fn general_header_result(registers: Seq<u32>, function: PciFunction) -> Result<PciGeneralDeviceHeader, InvalidValueError> {
    match interrupt_pin_result(byte_of(registers[15], 1)) {
        Err(e) => Err(e),
        Ok(pin) => Ok(PciGeneralDeviceHeader {
            function,
            cardbus_cis_pointer: registers[10],
            subsystem_device_code: PciDeviceId {
                vendor: (registers[11] % 0x1_0000) as u16,
                device: (registers[11] / 0x1_0000) as u16,
            },
            expansion_rom_base_address: registers[12],
            capabilities_pointer: capabilities_pointer_of(registers),
            max_latency: byte_of(registers[15], 3),
            min_grant: byte_of(registers[15], 2),
            interrupt_pin: pin,
            interrupt_line: byte_of(registers[15], 0),
        }),
    }
}

impl PciGeneralDeviceHeader {
    /// The configuration register holding the BAR with number `bar_number` (a general device has six
    /// BARs, in registers 4 to 9).
    pub fn bar(&self, bar_number: u8) -> (r: u8)
        requires
            bar_number <= 5,
        ensures
            r == 4 + bar_number,
    {
        4 + bar_number
    }

    /// Constructs a [`PciGeneralDeviceHeader`] from all 17 header registers, including those common to every
    /// device, because those affect the parsing.
    pub fn from_registers(registers: [u32; 17], function: &PciFunction) -> (r: Result<Self, InvalidValueError>)
        ensures
            r == general_header_result(registers@, *function),
    {
        let cardbus_cis_pointer = registers[10];
        let (subsystem_vendor_id, subsystem_device_id) = split_to_u16(registers[11]);
        let expansion_rom_base_address = registers[12];
        let capabilities_pointer = if read_bit(registers[1], 20) {
            Some(split_to_u8(registers[13]).0)
        } else {
            None
        };
        let (interrupt_line, interrupt_pin, min_grant, max_latency) = split_to_u8(registers[15]);
        let interrupt_pin = match InterruptPin::from_pin_number(interrupt_pin) {
            Ok(p) => p,
            Err(e) => return Err(e),
        };
        Ok(PciGeneralDeviceHeader {
            function: *function,
            cardbus_cis_pointer,
            subsystem_device_code: PciDeviceId { vendor: subsystem_vendor_id, device: subsystem_device_id },
            expansion_rom_base_address,
            capabilities_pointer,
            max_latency,
            min_grant,
            interrupt_pin,
            interrupt_line,
        })
    }
}

/// The additional header of a PCI-to-PCI bridge (header type 0x01).
#[derive(Debug, Clone, Copy)]
pub struct PciToPciBridgeHeader {
    /// The function this header belongs to
    pub function: PciFunction,
    pub secondary_latency_timer: u8,
    /// The highest bus number of any bus downstream of this bridge
    pub subordinate_bus_number: u8,
    /// The bus number of the bus which this device is a bridge to
    pub secondary_bus_number: u8,
    /// The bus number of the bus which this device is a bridge from
    pub primary_bus_number: u8,
    /// The status register of the secondary bus
    pub secondary_status: StatusRegister,
    pub io_limit: u32,
    pub io_base: u32,
    pub memory_limit: u16,
    pub memory_base: u16,
    pub prefetchable_memory_limit: u64,
    pub prefetchable_memory_base: u64,
    pub capabilities_pointer: Option<u8>,
    pub expansion_rom_base_address: u32,
    pub bridge_control: u16,
    /// Which PCI interrupt pin the device uses
    pub interrupt_pin: InterruptPin,
    /// Which input of the interrupt controller the device is connected to
    pub interrupt_line: u8,
}

/// The bridge header parsed from the 17 header registers.
///
/// The IO and prefetchable memory windows combine their upper and lower halves with a bitwise AND
/// of the shifted upper half and the lower half.
pub open spec fn bridge_header_result(registers: Seq<u32>, function: PciFunction) -> Result<PciToPciBridgeHeader, InvalidValueError> {
    match interrupt_pin_result(byte_of(registers[15], 1)) {
        Err(e) => Err(e),
        Ok(pin) => Ok(PciToPciBridgeHeader {
            function,
            secondary_latency_timer: byte_of(registers[6], 3),
            subordinate_bus_number: byte_of(registers[6], 2),
            secondary_bus_number: byte_of(registers[6], 1),
            primary_bus_number: byte_of(registers[6], 0),
            secondary_status: StatusRegister::spec_from((registers[7] / 0x1_0000) as u16),
            io_limit: (((registers[12] / 0x1_0000) as u32) << 8u32) & (byte_of(registers[7], 1) as u32),
            io_base: (((registers[12] % 0x1_0000) as u32) << 8u32) & (byte_of(registers[7], 0) as u32),
            memory_limit: (registers[8] / 0x1_0000) as u16,
            memory_base: (registers[8] % 0x1_0000) as u16,
            prefetchable_memory_limit: ((registers[11] as u64) << 16u64) & ((registers[9] / 0x1_0000) as u64),
            prefetchable_memory_base: ((registers[10] as u64) << 16u64) & ((registers[9] % 0x1_0000) as u64),
            capabilities_pointer: capabilities_pointer_of(registers),
            expansion_rom_base_address: registers[14],
            bridge_control: (registers[15] / 0x1_0000) as u16,
            interrupt_pin: pin,
            interrupt_line: byte_of(registers[15], 0),
        }),
    }
}

impl PciToPciBridgeHeader {
    /// The configuration register holding the BAR with number `bar_number` (a bridge has two BARs,
    /// in registers 4 and 5).
    pub fn bar(&self, bar_number: u8) -> (r: u8)
        requires
            bar_number <= 1,
        ensures
            r == 4 + bar_number,
    {
        4 + bar_number
    }

    /// Constructs a [`PciToPciBridgeHeader`] from all 17 header registers.
    pub fn from_registers(registers: [u32; 17], function: &PciFunction) -> (r: Result<Self, InvalidValueError>)
        ensures
            r == bridge_header_result(registers@, *function),
    {
        let (primary_bus_number, secondary_bus_number, subordinate_bus_number, secondary_latency_timer) =
            split_to_u8(registers[6]);
        let (_, secondary_status) = split_to_u16(registers[7]);
        let (io_base_lower, io_limit_lower, _, _) = split_to_u8(registers[7]);
        let (memory_base, memory_limit) = split_to_u16(registers[8]);
        let (prefetchable_memory_base_lower, prefetchable_memory_limit_lower) = split_to_u16(registers[9]);
        let prefetchable_memory_base_upper = registers[10];
        let prefetchable_memory_limit_upper = registers[11];
        let (io_base_upper, io_limit_upper) = split_to_u16(registers[12]);
        let capabilities_pointer = if read_bit(registers[1], 20) {
            Some(split_to_u8(registers[13]).0)
        } else {
            None
        };
        let expansion_rom_base_address = registers[14];
        let (_, bridge_control) = split_to_u16(registers[15]);
        let (interrupt_line, interrupt_pin, _, _) = split_to_u8(registers[15]);
        let io_limit = ((io_limit_upper as u32) << 8u32) & (io_limit_lower as u32);
        let io_base = ((io_base_upper as u32) << 8u32) & (io_base_lower as u32);
        let prefetchable_memory_base = ((prefetchable_memory_base_upper as u64) << 16u64)
            & (prefetchable_memory_base_lower as u64);
        let prefetchable_memory_limit = ((prefetchable_memory_limit_upper as u64) << 16u64)
            & (prefetchable_memory_limit_lower as u64);
        let interrupt_pin = match InterruptPin::from_pin_number(interrupt_pin) {
            Ok(p) => p,
            Err(e) => return Err(e),
        };
        Ok(PciToPciBridgeHeader {
            function: *function,
            secondary_latency_timer,
            subordinate_bus_number,
            secondary_bus_number,
            primary_bus_number,
            secondary_status: StatusRegister::from_bits(secondary_status),
            io_limit,
            io_base,
            memory_limit,
            memory_base,
            prefetchable_memory_limit,
            prefetchable_memory_base,
            capabilities_pointer,
            expansion_rom_base_address,
            bridge_control,
            interrupt_pin,
            interrupt_line,
        })
    }
}

/// The header-type-specific part of a configuration header.
#[derive(Debug, Clone, Copy)]
pub enum HeaderType {
    /// A general PCI device
    GeneralDevice(PciGeneralDeviceHeader),
    /// A PCI-to-PCI bridge, which links two PCI buses together
    PciToPciBridge(PciToPciBridgeHeader),
    /// A PCI-to-CardBus bridge
    PciToCardbusBridge,
}

/// The registers which are common to every PCI function.
#[derive(Debug, Clone, Copy)]
pub struct PciHeader {
    /// The vendor and device code, which identify the type of device
    pub device_code: PciDeviceId,
    /// The status of events related to this device
    pub status: StatusRegister,
    /// Configuration data about the device's connection to the bus
    pub command: CommandRegister,
    /// The type of function the device performs
    pub class_code: ClassCode,
    /// The device's revision ID, allocated by the vendor
    pub revision_id: u8,
    /// The status of the built-in self test
    pub bist: u8,
    /// The latency timer in units of PCI bus clock cycles
    pub latency_timer: u8,
    /// The size of the cache line in units of 4 bytes
    pub cache_line_size: u8,
    /// Whether the device has functions other than function 0
    pub is_multifunction: bool,
    /// The header type, with its more specific fields
    pub header_type: HeaderType,
}

/// The header type field of the 17 header registers: byte 2 of register 3.
pub open spec fn header_type_byte(registers: Seq<u32>) -> u8 {
    byte_of(registers[3], 2)
}

/// Whether [`PciHeader::from_registers`] can parse the registers without finding an unknown header type:
/// no device is connected, or the class code is rejected first, or the header type (ignoring the
/// multifunction bit and bits 4 and 5) is 0, 1 or 2.
pub open spec fn header_parsable(registers: Seq<u32>) -> bool {
    ||| registers[0] % 0x1_0000 == 0xffff
    ||| class_code_result(byte_of(registers[2], 3), byte_of(registers[2], 2), byte_of(registers[2], 1)) is Err
    ||| (header_type_byte(registers) & 0x4f) <= 2
}

/// The header parsed from the 17 header registers: `None` when no device is connected.
pub open spec fn header_result(registers: Seq<u32>, function: PciFunction) -> Result<Option<PciHeader>, InvalidValueError> {
    if registers[0] % 0x1_0000 == 0xffff {
        Ok(None)
    } else {
        match class_code_result(byte_of(registers[2], 3), byte_of(registers[2], 2), byte_of(registers[2], 1)) {
            Err(e) => Err(e),
            Ok(class_code) => {
                let ht = header_type_byte(registers);
                let specific: Result<HeaderType, InvalidValueError> = if ht & 0x4f == 0 {
                    match general_header_result(registers, function) {
                        Ok(h) => Ok(HeaderType::GeneralDevice(h)),
                        Err(e) => Err(e),
                    }
                } else if ht & 0x4f == 1 {
                    match bridge_header_result(registers, function) {
                        Ok(h) => Ok(HeaderType::PciToPciBridge(h)),
                        Err(e) => Err(e),
                    }
                } else {
                    Ok(HeaderType::PciToCardbusBridge)
                };
                match specific {
                    Err(e) => Err(e),
                    Ok(header_type) => Ok(Some(PciHeader {
                        device_code: PciDeviceId {
                            vendor: (registers[0] % 0x1_0000) as u16,
                            device: (registers[0] / 0x1_0000) as u16,
                        },
                        status: StatusRegister::spec_from((registers[1] / 0x1_0000) as u16),
                        command: CommandRegister::spec_from((registers[1] % 0x1_0000) as u16),
                        class_code,
                        revision_id: byte_of(registers[2], 0),
                        bist: byte_of(registers[3], 3),
                        latency_timer: byte_of(registers[3], 1),
                        cache_line_size: byte_of(registers[3], 0),
                        is_multifunction: ht & 0x80 != 0,
                        header_type,
                    })),
                }
            },
        }
    }
}

/// Register 15 of a general device header holds, from its least significant byte up, the interrupt line,
/// the interrupt pin number (0 for no pin, 1 to 4 for INTA# to INTD#), the minimum grant and the maximum
/// latency. The header is refused exactly when the pin number is above 4.
pub proof fn lemma_general_header_register_15(registers: Seq<u32>, function: PciFunction)
    requires
        registers.len() == 17,
    ensures
        general_header_result(registers, function) is Ok <==> (registers[15] / 0x100) % 0x100 <= 4,
        general_header_result(registers, function) matches Ok(g) ==> {
            let r15 = registers[15];
            &&& g.interrupt_line == r15 % 0x100
            &&& g.min_grant == (r15 / 0x1_0000) % 0x100
            &&& g.max_latency == r15 / 0x100_0000
            &&& (g.interrupt_pin == InterruptPin::NoPin) == ((r15 / 0x100) % 0x100 == 0)
            &&& (g.interrupt_pin == InterruptPin::IntA) == ((r15 / 0x100) % 0x100 == 1)
            &&& (g.interrupt_pin == InterruptPin::IntB) == ((r15 / 0x100) % 0x100 == 2)
            &&& (g.interrupt_pin == InterruptPin::IntC) == ((r15 / 0x100) % 0x100 == 3)
            &&& (g.interrupt_pin == InterruptPin::IntD) == ((r15 / 0x100) % 0x100 == 4)
        },
{
}

/// A parsed header follows the PCI configuration-space layout of its 17 registers, bytes counted from the least
/// significant: the vendor id is the low half of register 0 and the device id its high half; the revision id is
/// byte 0 of register 2 and the class code is decoded from its bytes 3 (class), 2 (subclass) and 1 (programming
/// interface); the cache line size, latency timer, header type and BIST are bytes 0 to 3 of register 3. A general
/// device has its interrupt line in byte 0 of register 15, its minimum grant in byte 2 and its maximum latency in
/// byte 3. A bridge has its primary, secondary and subordinate bus numbers and its secondary latency timer in
/// bytes 0 to 3 of register 6, and its interrupt line in byte 0 of register 15.
pub proof fn lemma_header_layout(registers: Seq<u32>, function: PciFunction)
    requires
        registers.len() == 17,
    ensures
        (registers[0] % 0x1_0000 == 0xffff) ==> header_result(registers, function) == Ok::<Option<PciHeader>, InvalidValueError>(None),
        header_result(registers, function) matches Ok(Some(h)) ==> {
            &&& h.device_code.vendor == registers[0] % 0x1_0000
            &&& h.device_code.device == registers[0] / 0x1_0000
            &&& h.revision_id == registers[2] % 0x100
            &&& Ok::<ClassCode, InvalidValueError>(h.class_code) == class_code_result(
                (registers[2] / 0x100_0000) as u8,
                ((registers[2] / 0x1_0000) % 0x100) as u8,
                ((registers[2] / 0x100) % 0x100) as u8,
            )
            &&& h.cache_line_size == registers[3] % 0x100
            &&& h.latency_timer == (registers[3] / 0x100) % 0x100
            &&& h.bist == registers[3] / 0x100_0000
            &&& h.is_multifunction == ((registers[3] / 0x1_0000) % 0x100 >= 0x80)
            &&& (h.header_type matches HeaderType::GeneralDevice(g) ==> {
                &&& g.interrupt_line == registers[15] % 0x100
                &&& g.min_grant == (registers[15] / 0x1_0000) % 0x100
                &&& g.max_latency == registers[15] / 0x100_0000
            })
            &&& (h.header_type matches HeaderType::PciToPciBridge(b) ==> {
                &&& b.primary_bus_number == registers[6] % 0x100
                &&& b.secondary_bus_number == (registers[6] / 0x100) % 0x100
                &&& b.subordinate_bus_number == (registers[6] / 0x1_0000) % 0x100
                &&& b.secondary_latency_timer == registers[6] / 0x100_0000
                &&& b.interrupt_line == registers[15] % 0x100
            })
        },
{
    let ht = header_type_byte(registers);
    assert((ht & 0x80 != 0) == (ht >= 0x80)) by (bit_vector);
}

impl PciHeader {
    /// Constructs a [`PciHeader`] from the 17 registers of a function's configuration header.
    /// Returns `Ok(None)` if no device is connected, which is signalled by a vendor of `0xffff`.
    pub fn from_registers(registers: [u32; 17], function: &PciFunction) -> (r: Result<Option<Self>, InvalidValueError>)
        requires
            header_parsable(registers@),
        ensures
            r == header_result(registers@, *function),
    {
        let (vendor, device) = split_to_u16(registers[0]);
        let (command, status) = split_to_u16(registers[1]);
        let (revision_id, prog_if, subclass, class_code) = split_to_u8(registers[2]);
        let (cache_line_size, latency_timer, header_type, bist) = split_to_u8(registers[3]);
        if vendor == 0xffff {
            return Ok(None);
        }
        let class_code = match ClassCode::new(class_code, subclass, prog_if) {
            Ok(c) => c,
            Err(e) => return Err(e),
        };
        let header_type_value = if header_type & 0x4f == 0 {
            match PciGeneralDeviceHeader::from_registers(registers, function) {
                Ok(h) => HeaderType::GeneralDevice(h),
                Err(e) => return Err(e),
            }
        } else if header_type & 0x4f == 1 {
            match PciToPciBridgeHeader::from_registers(registers, function) {
                Ok(h) => HeaderType::PciToPciBridge(h),
                Err(e) => return Err(e),
            }
        } else {
            HeaderType::PciToCardbusBridge
        };
        Ok(Some(PciHeader {
            device_code: PciDeviceId { vendor, device },
            status: StatusRegister::from_bits(status),
            command: CommandRegister::from_bits(command),
            class_code,
            revision_id,
            bist,
            latency_timer,
            cache_line_size,
            is_multifunction: header_type & 0x80 != 0,
            header_type: header_type_value,
        }))
    }
}

} // verus!
