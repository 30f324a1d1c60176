//! The MSI and MSI-X capability registers of PCI functions, and the x86-64 MSI address format.
use vstd::prelude::*;
use crate::bitfield::{bit_is_set, get_bits, read_bit, read_bits, set_bit, set_bits, write_bit, write_bit16, write_bits16};

verus! {

/// The control register of an MSI capability (16 bits).
///
/// Bit 0 enables MSI, bits 1 to 3 give the log2 of the number of vectors the device can send, bits 4 to 6
/// the log2 of the number enabled, bit 7 whether 64-bit addresses are supported and bit 8 whether
/// per-vector masking is supported.
#[derive(Debug, Clone, Copy, PartialEq, Eq)]
pub struct MsiControl {
    bits: u16,
}

impl View for MsiControl {
    type V = u16;

    closed spec fn view(&self) -> u16 {
        self.bits
    }
}

impl MsiControl {
    /// Constructs the register from its bits.
    pub fn from_bits(bits: u16) -> (r: Self)
        ensures
            r@ == bits,
    {
        MsiControl { bits }
    }

    /// The register's bits.
    pub fn into_bits(self) -> (r: u16)
        ensures
            r == self@,
    {
        self.bits
    }

    /// Whether message signalled interrupts are enabled.
    pub fn enable(&self) -> (r: bool)
        ensures
            r == bit_is_set(self@ as u32, 0),
    {
        read_bit(self.bits as u32, 0)
    }

    /// The log2 of the number of vectors the device supports.
    pub fn multi_message_capable(&self) -> (r: u8)
        ensures
            r == get_bits(self@ as u32, 1, 3),
    {
        read_bits(self.bits as u32, 1, 3) as u8
    }

    /// The log2 of the number of vectors enabled.
    pub fn multi_message_enable(&self) -> (r: u8)
        ensures
            r == get_bits(self@ as u32, 4, 3),
    {
        read_bits(self.bits as u32, 4, 3) as u8
    }

    /// Whether the device supports 64-bit message addresses.
    pub fn is_64_bit(&self) -> (r: bool)
        ensures
            r == bit_is_set(self@ as u32, 7),
    {
        read_bit(self.bits as u32, 7)
    }

    /// Whether the device supports masking individual vectors.
    pub fn per_vector_masks(&self) -> (r: bool)
        ensures
            r == bit_is_set(self@ as u32, 8),
    {
        read_bit(self.bits as u32, 8)
    }

    /// Returns the register with MSI enabled or disabled.
    pub fn with_enable(self, v: bool) -> (r: Self)
        ensures
            r@ as u32 == set_bit(self@ as u32, 0, v),
    {
        MsiControl { bits: write_bit16(self.bits, 0, v) }
    }

    /// Returns the register with the number of enabled vectors set to 2 to the power of the low 3 bits of `v`.
    pub fn with_multi_message_enable(self, v: u8) -> (r: Self)
        ensures
            r@ as u32 == set_bits(self@ as u32, 4, 3, v as u32),
    {
        MsiControl { bits: write_bits16(self.bits, 4, 3, v as u16) }
    }
}

/// How an MSI interrupt is handled.
#[derive(Debug, Clone, Copy, PartialEq, Eq)]
pub enum X64MsiDeliveryMode {
    Fixed,
    LowestPriority,
    SystemManagementInterrupt,
    NonMaskableInterrupt,
    Init,
    ExtInit,
}

/// The encoding of each delivery mode.
pub open spec fn delivery_mode_bits(m: X64MsiDeliveryMode) -> u32 {
    match m {
        X64MsiDeliveryMode::Fixed => 0,
        X64MsiDeliveryMode::LowestPriority => 1,
        X64MsiDeliveryMode::SystemManagementInterrupt => 2,
        X64MsiDeliveryMode::NonMaskableInterrupt => 4,
        X64MsiDeliveryMode::Init => 5,
        X64MsiDeliveryMode::ExtInit => 7,
    }
}

impl X64MsiDeliveryMode {
    /// The delivery mode's encoding.
    pub fn into_bits(self) -> (r: u32)
        ensures
            r == delivery_mode_bits(self),
    {
        match self {
            X64MsiDeliveryMode::Fixed => 0,
            X64MsiDeliveryMode::LowestPriority => 1,
            X64MsiDeliveryMode::SystemManagementInterrupt => 2,
            X64MsiDeliveryMode::NonMaskableInterrupt => 4,
            X64MsiDeliveryMode::Init => 5,
            X64MsiDeliveryMode::ExtInit => 7,
        }
    }
}

/// Whether an interrupt is edge or level triggered, and for level triggered ones whether it asserts or deasserts.
#[derive(Debug, Clone, Copy, PartialEq, Eq)]
pub enum X64MsiTriggerMode {
    Edge,
    LevelDeassert,
    LevelAssert,
}

/// The encoding of each trigger mode.
pub open spec fn trigger_mode_bits(m: X64MsiTriggerMode) -> u32 {
    match m {
        X64MsiTriggerMode::Edge => 0,
        X64MsiTriggerMode::LevelDeassert => 2,
        X64MsiTriggerMode::LevelAssert => 3,
    }
}

impl X64MsiTriggerMode {
    /// The trigger mode's encoding.
    pub fn into_bits(self) -> (r: u32)
        ensures
            r == trigger_mode_bits(self),
    {
        match self {
            X64MsiTriggerMode::Edge => 0,
            X64MsiTriggerMode::LevelDeassert => 2,
            X64MsiTriggerMode::LevelAssert => 3,
        }
    }
}

/// An address to give to an MSI device on an x86-64 platform, before encoding.
#[derive(Debug, Clone, Copy)]
pub struct X64MsiAddress {
    /// The APIC ID of the core where the interrupt should run
    pub apic_id: u8,
    /// Whether the message should go to the processor with the lowest interrupt priority
    pub redirection_hint: bool,
    /// Whether to use logical destination mode
    pub destination_is_logical: bool,
    /// The delivery mode
    pub delivery_mode: X64MsiDeliveryMode,
    /// The trigger mode
    pub trigger_mode: X64MsiTriggerMode,
    /// The interrupt vector to send to the core
    pub vector: u8,
}

/// The message address register value for `a` (Intel SDM volume 3, 11.11.1): `0xFEE` in the top 12 bits,
/// the APIC ID in bits 12 to 19, the redirection hint in bit 3 and the destination mode (1 for logical)
/// in bit 2.
pub open spec fn msi_address_of(a: X64MsiAddress) -> u32 {
    (0xFEEu32 << 20u32) | ((a.apic_id as u32) << 12u32) | ((if a.redirection_hint { 1u32 } else { 0u32 }) << 3u32)
        | ((if a.destination_is_logical { 1u32 } else { 0u32 }) << 2u32)
}

/// The message data register value for `a`: the delivery mode in bits 8 to 10, the trigger mode in
/// bits 14 and 15 and the vector in the low byte.
pub open spec fn msi_data_of(a: X64MsiAddress) -> u16 {
    ((delivery_mode_bits(a.delivery_mode) << 8u32) | (trigger_mode_bits(a.trigger_mode) << 14u32) | (a.vector as u32)) as u16
}

impl X64MsiAddress {
    /// Converts the address into the values to write to an MSI device's message address and message data
    /// registers, or to an entry in an MSI-X table.
    pub fn to_address_and_data(self) -> (r: (u32, u16))
        ensures
            r.0 == msi_address_of(self),
            r.1 == msi_data_of(self),
    {
        let hint: u32 = if self.redirection_hint { 1 } else { 0 };
        let logical: u32 = if self.destination_is_logical { 1 } else { 0 };
        let delivery = self.delivery_mode.into_bits();
        let trigger = self.trigger_mode.into_bits();
        let address = (0xFEEu32 << 20u32) | ((self.apic_id as u32) << 12u32) | (hint << 3u32) | (logical << 2u32);
        let data = ((delivery << 8u32) | (trigger << 14u32) | (self.vector as u32)) as u16;
        (address, data)
    }
}

/// The control register of an MSI-X capability (16 bits): the index of the last table entry in bits 0 to
/// 10, the function mask in bit 14 and the enable bit in bit 15.
#[derive(Debug, Clone, Copy, PartialEq, Eq)]
pub struct MsixControl {
    bits: u16,
}

impl View for MsixControl {
    type V = u16;

    closed spec fn view(&self) -> u16 {
        self.bits
    }
}

impl MsixControl {
    /// Constructs the register from its bits.
    pub fn from_bits(bits: u16) -> (r: Self)
        ensures
            r@ == bits,
    {
        MsixControl { bits }
    }

    /// The register's bits.
    pub fn into_bits(self) -> (r: u16)
        ensures
            r == self@,
    {
        self.bits
    }

    /// The index of the last entry in the interrupt table.
    pub fn last_index(&self) -> (r: u16)
        ensures
            r == get_bits(self@ as u32, 0, 11),
            r <= 0x7ff,
    {
        read_bits(self.bits as u32, 0, 11) as u16
    }

    /// Whether interrupts from this function are masked.
    pub fn function_mask(&self) -> (r: bool)
        ensures
            r == bit_is_set(self@ as u32, 14),
    {
        read_bit(self.bits as u32, 14)
    }

    /// Whether the device uses MSI-X to deliver interrupts.
    pub fn enable(&self) -> (r: bool)
        ensures
            r == bit_is_set(self@ as u32, 15),
    {
        read_bit(self.bits as u32, 15)
    }

    /// Returns the register with the function mask set to `v`.
    pub fn with_function_mask(self, v: bool) -> (r: Self)
        ensures
            r@ as u32 == set_bit(self@ as u32, 14, v),
    {
        MsixControl { bits: write_bit16(self.bits, 14, v) }
    }

    /// Returns the register with MSI-X enabled or disabled.
    pub fn with_enable(self, v: bool) -> (r: Self)
        ensures
            r@ as u32 == set_bit(self@ as u32, 15, v),
    {
        MsixControl { bits: write_bit16(self.bits, 15, v) }
    }
}

/// The vector control dword of an MSI-X table entry: bit 0 masks the vector.
#[derive(Debug, Clone, Copy, PartialEq, Eq)]
pub struct MsixVectorControl {
    bits: u32,
}

impl View for MsixVectorControl {
    type V = u32;

    closed spec fn view(&self) -> u32 {
        self.bits
    }
}

impl MsixVectorControl {
    /// A vector control dword with every bit clear.
    pub fn new() -> (r: Self)
        ensures
            r@ == 0,
    {
        MsixVectorControl { bits: 0 }
    }

    /// Constructs the dword from its bits.
    pub fn from_bits(bits: u32) -> (r: Self)
        ensures
            r@ == bits,
    {
        MsixVectorControl { bits }
    }

    /// The dword's bits.
    pub fn into_bits(self) -> (r: u32)
        ensures
            r == self@,
    {
        self.bits
    }

    /// Whether the vector is masked.
    pub fn masked(&self) -> (r: bool)
        ensures
            r == bit_is_set(self@, 0),
    {
        read_bit(self.bits, 0)
    }

    /// Returns the dword with the vector masked or unmasked.
    pub fn with_masked(self, v: bool) -> (r: Self)
        ensures
            r@ == set_bit(self@, 0, v),
    {
        MsixVectorControl { bits: write_bit(self.bits, 0, v) }
    }
}

/// An entry in the MSI-X vector table, describing one interrupt source of the function.
#[derive(Debug, Clone, Copy)]
pub struct MsixTableEntry {
    /// The low 32 bits of the address the device writes to to signal an interrupt
    pub message_address_low: u32,
    /// The high 32 bits of that address
    pub message_address_high: u32,
    /// The data the device writes to that address
    pub message_data: u32,
    /// Flags about the vector
    pub vector_control: MsixVectorControl,
}

/// An error from writing a 64-bit message address to a device which only supports 32-bit ones.
#[derive(Debug, Clone, Copy, PartialEq, Eq)]
pub struct Msi64BitWriteTo32BitDeviceError;

/// The registers of a function's MSI capability.
///
/// The high half of the message address register only exists on devices that support 64-bit addresses.
#[derive(Debug, Clone, Copy)]
pub struct MessageSignalledInterruptsCapability {
    /// The control register
    control: MsiControl,
    /// The low half of the message address register
    message_address_low: u32,
    /// The high half of the message address register, on 64-bit capable devices
    message_address_high: Option<u32>,
    /// The data register
    data: u16,
}

impl MessageSignalledInterruptsCapability {
    /// The message address, with a missing high half read as zero.
    pub closed spec fn message_address_spec(self) -> u64 {
        match self.message_address_high {
            Some(h) => (h as u64 * 0x1_0000_0000 + self.message_address_low) as u64,
            None => self.message_address_low as u64,
        }
    }

    /// Whether the device has the high half of the message address register.
    pub closed spec fn has_high_spec(self) -> bool {
        self.message_address_high is Some
    }

    /// The control register.
    pub closed spec fn control_spec(self) -> MsiControl {
        self.control
    }

    /// The data register.
    pub closed spec fn data_spec(self) -> u16 {
        self.data
    }

    /// Constructs the capability from the values of its registers. The high half of the message address is
    /// only kept when the control register says that 64-bit addresses are supported.
    pub fn new(control: MsiControl, message_address_low: u32, message_address_high: u32, data: u16) -> (r: Self)
        ensures
            r.control_spec() == control,
            r.has_high_spec() == bit_is_set(control@ as u32, 7),
            r.message_address_spec() == if bit_is_set(control@ as u32, 7) {
                (message_address_high as u64 * 0x1_0000_0000 + message_address_low) as u64
            } else {
                message_address_low as u64
            },
            r.data_spec() == data,
    {
        let message_address_high = if control.is_64_bit() {
            Some(message_address_high)
        } else {
            None
        };
        MessageSignalledInterruptsCapability { control, message_address_low, message_address_high, data }
    }

    /// Reads the control register.
    pub fn control(&self) -> (r: MsiControl)
        ensures
            r == self.control_spec(),
    {
        self.control
    }

    /// Reads the message address. This is a platform-specific format, not just a physical address.
    pub fn message_address(&self) -> (r: u64)
        ensures
            r == self.message_address_spec(),
    {
        let high: u32 = match self.message_address_high {
            Some(h) => h,
            None => 0,
        };
        let low = self.message_address_low;
        assert(((high as u64) << 32u64) | (low as u64) == high as u64 * 0x1_0000_0000 + low) by (bit_vector);
        ((high as u64) << 32u64) | (low as u64)
    }

    /// Reads the data register.
    pub fn data(&self) -> (r: u16)
        ensures
            r == self.data_spec(),
    {
        self.data
    }

    /// Whether the device has the high half of the message address register.
    pub fn has_high(&self) -> (r: bool)
        ensures
            r == self.has_high_spec(),
    {
        self.message_address_high.is_some()
    }

    /// Writes the control register.
    pub fn write_control(&mut self, control: MsiControl)
        ensures
            final(self).control_spec() == control,
            final(self).message_address_spec() == old(self).message_address_spec(),
            final(self).has_high_spec() == old(self).has_high_spec(),
            final(self).data_spec() == old(self).data_spec(),
    {
        self.control = control;
    }

    /// Writes the message address. On a device without the high half of the register, an address that
    /// does not fit in 32 bits is refused and nothing is written.
    pub fn write_message_address(&mut self, value: u64) -> (r: Result<(), Msi64BitWriteTo32BitDeviceError>)
        ensures
            r is Err <==> (!old(self).has_high_spec() && value >= 0x1_0000_0000),
            r is Ok ==> final(self).message_address_spec() == value,
            r is Err ==> final(self).message_address_spec() == old(self).message_address_spec(),
            final(self).has_high_spec() == old(self).has_high_spec(),
            final(self).control_spec() == old(self).control_spec(),
            final(self).data_spec() == old(self).data_spec(),
    {
        assert((value >> 32u64) as u32 == value / 0x1_0000_0000 && value as u32 == value % 0x1_0000_0000) by (bit_vector);
        let high = (value >> 32u64) as u32;
        let low = value as u32;
        match self.message_address_high {
            Some(_) => {
                self.message_address_high = Some(high);
            },
            None => {
                if high != 0 {
                    return Err(Msi64BitWriteTo32BitDeviceError);
                }
            },
        }
        self.message_address_low = low;
        Ok(())
    }

    /// Writes the data register.
    pub fn write_data(&mut self, data: u16)
        ensures
            final(self).data_spec() == data,
            final(self).message_address_spec() == old(self).message_address_spec(),
            final(self).has_high_spec() == old(self).has_high_spec(),
            final(self).control_spec() == old(self).control_spec(),
    {
        self.data = data;
    }

    /// Writes the message address and data registers to deliver interrupts as `address` describes.
    pub fn write_address_x64(&mut self, address: X64MsiAddress)
        ensures
            final(self).message_address_spec() == msi_address_of(address) as u64,
            final(self).data_spec() == msi_data_of(address),
            final(self).has_high_spec() == old(self).has_high_spec(),
            final(self).control_spec() == old(self).control_spec(),
    {
        let (address, data) = address.to_address_and_data();
        let r = self.write_message_address(address as u64);
        self.write_data(data);
    }
}

/// The registers of a function's MSI-X capability: the control register and where the interrupt table
/// and pending bit array are, each as a BAR number and a byte offset into that BAR.
#[derive(Debug, Clone, Copy)]
pub struct MsixCapability {
    /// The control register
    control: MsixControl,
    /// The BAR number where the table of interrupt vectors is
    bir: u8,
    /// The byte offset into that BAR of the table
    table_offset: u32,
    /// The BAR number where the pending bit array is
    pba_bir: u8,
    /// The byte offset into that BAR of the pending bit array
    pba_offset: u32,
}

impl MsixCapability {
    /// The control register.
    pub closed spec fn control_spec(self) -> MsixControl {
        self.control
    }

    /// The location of the interrupt table.
    pub closed spec fn interrupt_table_spec(self) -> (u8, u32) {
        (self.bir, self.table_offset)
    }

    /// The location of the pending bit array.
    pub closed spec fn pending_bits_spec(self) -> (u8, u32) {
        (self.pba_bir, self.pba_offset)
    }

    /// Constructs the capability from its control register and the two registers that locate the table and
    /// the pending bit array: in each, the low three bits are the BAR number and the rest is the offset.
    pub fn new(control: MsixControl, table_register: u32, pending_bit_register: u32) -> (r: Self)
        ensures
            r.control_spec() == control,
            r.interrupt_table_spec() == ((table_register % 8) as u8, (table_register - table_register % 8) as u32),
            r.pending_bits_spec() == ((pending_bit_register % 8) as u8, (pending_bit_register - pending_bit_register % 8) as u32),
    {
        assert((table_register & 0b111) == table_register % 8
            && (table_register & !0b111u32) == table_register - table_register % 8
            && (pending_bit_register & 0b111) == pending_bit_register % 8
            && (pending_bit_register & !0b111u32) == pending_bit_register - pending_bit_register % 8) by (bit_vector);
        MsixCapability {
            control,
            bir: (table_register & 0b111) as u8,
            table_offset: table_register & !0b111u32,
            pba_bir: (pending_bit_register & 0b111) as u8,
            pba_offset: pending_bit_register & !0b111u32,
        }
    }

    /// Reads the control register.
    pub fn control(&self) -> (r: MsixControl)
        ensures
            r == self.control_spec(),
    {
        self.control
    }

    /// Writes the control register.
    pub fn write_control(&mut self, value: MsixControl)
        ensures
            final(self).control_spec() == value,
            final(self).interrupt_table_spec() == old(self).interrupt_table_spec(),
            final(self).pending_bits_spec() == old(self).pending_bits_spec(),
    {
        self.control = value;
    }

    /// Gets the BAR number and byte offset of the interrupt table.
    pub fn interrupt_table(&self) -> (r: (u8, u32))
        ensures
            r == self.interrupt_table_spec(),
    {
        (self.bir, self.table_offset)
    }

    /// Gets the BAR number and byte offset of the pending bit array.
    pub fn pending_bits(&self) -> (r: (u8, u32))
        ensures
            r == self.pending_bits_spec(),
    {
        (self.pba_bir, self.pba_offset)
    }
}

/// The MSI-X interrupt table of a PCI function: one entry per interrupt the device can produce.
pub struct MsixInterruptArrayMut {
    /// The entries of the table
    entries: Vec<MsixTableEntry>,
    /// The index of the last entry
    last_index: usize,
}

impl MsixInterruptArrayMut {
    /// The table's invariant: it holds `last_index + 1` entries.
    pub closed spec fn wf(&self) -> bool {
        self.entries.len() == self.last_index + 1
    }

    /// The table's entries.
    pub closed spec fn entries_spec(&self) -> Seq<MsixTableEntry> {
        self.entries@
    }

    /// The index of the last entry.
    pub closed spec fn last_index_spec(&self) -> int {
        self.last_index as int
    }

    /// Constructs the table from its entries; `last_index` is one less than their number.
    pub fn new(entries: Vec<MsixTableEntry>, last_index: usize) -> (r: Self)
        requires
            entries.len() == last_index + 1,
        ensures
            r.wf(),
            r.entries_spec() == entries@,
            r.last_index_spec() == last_index,
    {
        MsixInterruptArrayMut { entries, last_index }
    }

    /// Reads the entry at index `i`, or `None` past the end of the table.
    pub fn read(&self, i: usize) -> (r: Option<MsixTableEntry>)
        requires
            self.wf(),
        ensures
            i > self.last_index_spec() ==> r is None,
            i <= self.last_index_spec() ==> r == Some(self.entries_spec()[i as int]),
    {
        if i > self.last_index {
            None
        } else {
            Some(self.entries[i])
        }
    }

    /// Writes the entry at index `i`, which must be within the table.
    pub fn write(&mut self, i: usize, value: MsixTableEntry)
        requires
            old(self).wf(),
            i <= old(self).last_index_spec(),
        ensures
            final(self).wf(),
            final(self).entries_spec() == old(self).entries_spec().update(i as int, value),
            final(self).last_index_spec() == old(self).last_index_spec(),
    {
        self.entries.set(i, value);
    }

    /// The entries of the table, in order.
    pub fn entries(&self) -> (r: Vec<MsixTableEntry>)
        requires
            self.wf(),
        ensures
            r@ == self.entries_spec(),
    {
        let mut r: Vec<MsixTableEntry> = Vec::new();
        let mut i: usize = 0;
        while i <= self.last_index
            invariant
                self.wf(),
                i <= self.last_index + 1,
                r@ == self.entries_spec().subrange(0, i as int),
            decreases self.last_index + 1 - i,
        {
            match self.read(i) {
                Some(e) => r.push(e),
                None => {},
            }
            i = i + 1;
        }
        assert(r@ =~= self.entries_spec());
        r
    }

    /// The number of entries in the table.
    pub fn len(&self) -> (r: usize)
        requires
            self.wf(),
        ensures
            r == self.entries_spec().len(),
            r == self.last_index_spec() + 1,
    {
        self.last_index + 1
    }
}

/// Writing an MSI-X table entry and reading it back gives the written entry; the other entries are unchanged.
pub proof fn lemma_msix_write_then_read(entries: Seq<MsixTableEntry>, i: int, j: int, value: MsixTableEntry)
    requires
        0 <= i < entries.len(),
        0 <= j < entries.len(),
    ensures
        entries.update(i, value)[i] == value,
        j != i ==> entries.update(i, value)[j] == entries[j],
{
}

} // verus!
