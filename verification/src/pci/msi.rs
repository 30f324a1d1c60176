//! Setting up message signalled interrupts: choosing between MSI and MSI-X, and the values written
//! to the device to make it deliver interrupts to a core.
use vstd::prelude::*;
use crate::addr::{is_phys_addr, phys_addr_add};
use crate::bitfield::{bit_is_set, get_bits, set_bit, set_bits, write_bits};
use crate::pci::capability_list::{
    capabilities, capability_entry_matches, capability_offsets, first_capability_pointer, CapabilityEntry,
    CAPABILITIES_REGISTER_OFFSET, MAX_CAPABILITIES,
};
use crate::pci::capability_registers::{
    msi_address_of, msi_data_of, MessageSignalledInterruptsCapability, MsixCapability, MsixInterruptArrayMut,
    MsixTableEntry, MsixVectorControl, X64MsiAddress, X64MsiDeliveryMode, X64MsiTriggerMode,
};

verus! {

/// An error which can occur when initialising MSI for a PCI device.
#[derive(Debug, Clone, Copy, PartialEq, Eq)]
pub enum MsiInitError {
    /// There was an error reading the device's PCI header
    HeaderReadError,
    /// The device has neither an MSI nor an MSI-X capability
    NoMsiSupport,
}

/// Whether an MSI-X table of `last_index + 1` entries of 16 bytes each fits in a BAR of `bar_size` bytes
/// when it starts at byte `table_offset` of the BAR.
pub fn msix_table_fits(bar_size: u64, table_offset: u32, last_index: u16) -> (r: bool)
    requires
        table_offset <= bar_size,
    ensures
        r == (bar_size - table_offset >= (last_index + 1) * 16),
{
    let remaining_bar_space = bar_size - table_offset as u64;
    let needed_space = (last_index as u64 + 1) * 16;
    remaining_bar_space >= needed_space
}


/// The interrupt vector that devices are set up to send their interrupts to.
pub const MSI_VECTOR: u8 = 0xAA;

/// Whether `e` is an MSI or an MSI-X capability.
pub open spec fn is_msi_entry(e: CapabilityEntry) -> bool {
    e is MessageSignalledInterrupts || e is MsiX
}

/// Finds the first MSI or MSI-X capability of a capability list, or the error that the device has
/// no MSI support.
pub fn find_msi_capability(entries: &Vec<(CapabilityEntry, u8)>) -> (r: Result<usize, MsiInitError>)
    ensures
        r matches Ok(i) ==> i < entries.len() && is_msi_entry(entries@[i as int].0) && forall|j: int|
            0 <= j < i ==> !is_msi_entry(#[trigger] entries@[j].0),
        r matches Err(e) ==> e == MsiInitError::NoMsiSupport && forall|j: int|
            0 <= j < entries.len() ==> !is_msi_entry(#[trigger] entries@[j].0),
{
    let mut i: usize = 0;
    while i < entries.len()
        invariant
            0 <= i <= entries.len(),
            forall|j: int| 0 <= j < i ==> !is_msi_entry(#[trigger] entries@[j].0),
        decreases entries.len() - i,
    {
        match &entries[i].0 {
            CapabilityEntry::MessageSignalledInterrupts(_) => {
                return Ok(i);
            },
            CapabilityEntry::MsiX(_) => {
                return Ok(i);
            },
            _ => {},
        }
        i = i + 1;
    }
    Err(MsiInitError::NoMsiSupport)
}

/// Whether the capability starting at register `offset` of the configuration registers `regs` is an MSI
/// (id 5) or an MSI-X (id 0x11) capability.
pub open spec fn is_msi_capability_at(regs: Seq<u32>, offset: int) -> bool {
    get_bits(regs[offset], 0, 8) == 5 || get_bits(regs[offset], 0, 8) == 0x11
}

/// The register indices of the capabilities in the list of a function whose configuration registers are `regs`.
pub open spec fn capability_list_offsets(regs: Seq<u32>) -> Seq<int> {
    capability_offsets(
        regs,
        first_capability_pointer(regs[CAPABILITIES_REGISTER_OFFSET as int]) as int,
        MAX_CAPABILITIES as nat,
    )
}

/// An entry read from the registers is an MSI or MSI-X capability exactly when its capability id says so.
proof fn lemma_msi_entry_by_id(e: CapabilityEntry, regs: Seq<u32>, offset: int)
    requires
        capability_entry_matches(e, regs, offset),
    ensures
        is_msi_entry(e) == is_msi_capability_at(regs, offset),
{
}

/// Reads the capability list of a function whose configuration registers are `registers` and finds its first
/// MSI or MSI-X capability: returns the list, each entry with the register index where it starts, and the
/// position of that capability in it. A function without a capability list, or whose list holds neither
/// capability, has no MSI support.
pub fn locate_msi_capability(registers: &[u32]) -> (r: Result<(Vec<(CapabilityEntry, u8)>, usize), MsiInitError>)
    requires
        registers@.len() >= 0x10,
        registers@.len() <= 0x100,
    ensures
        r is Err <==> !bit_is_set(registers@[1], 20) || forall|j: int|
            0 <= j < capability_list_offsets(registers@).len() ==> !is_msi_capability_at(
                registers@,
                #[trigger] capability_list_offsets(registers@)[j],
            ),
        r matches Err(e) ==> e == MsiInitError::NoMsiSupport,
        r matches Ok((v, i)) ==> {
            let offs = capability_list_offsets(registers@);
            &&& v.len() == offs.len()
            &&& forall|j: int| 0 <= j < v.len() ==> capability_entry_matches(#[trigger] v@[j].0, registers@, offs[j])
                && v@[j].1 == offs[j]
            &&& i < v.len()
            &&& is_msi_entry(v@[i as int].0)
            &&& forall|j: int| 0 <= j < i ==> !is_msi_entry(#[trigger] v@[j].0)
        },
{
    let entries = match capabilities(registers) {
        Some(v) => v,
        None => {
            return Err(MsiInitError::NoMsiSupport);
        },
    };
    let ghost offs = capability_list_offsets(registers@);
    match find_msi_capability(&entries) {
        Ok(i) => Ok((entries, i)),
        Err(e) => {
            proof {
                assert forall|j: int| 0 <= j < offs.len() implies !is_msi_capability_at(registers@, #[trigger] offs[j]) by {
                    lemma_msi_entry_by_id(entries@[j].0, registers@, offs[j]);
                }
            }
            Err(e)
        },
    }
}

/// The address that MSI and MSI-X deliveries are set up with: fixed delivery, edge triggered, no
/// redirection hint, to the core with APIC ID `apic_id`.
pub open spec fn msi_target(apic_id: u8, destination_is_logical: bool, vector: u8) -> X64MsiAddress {
    X64MsiAddress {
        apic_id,
        redirection_hint: false,
        destination_is_logical,
        delivery_mode: X64MsiDeliveryMode::Fixed,
        trigger_mode: X64MsiTriggerMode::Edge,
        vector,
    }
}

/// Sets up MSI for a device: its message address and data are written so that interrupts go to
/// `vector` on the core with APIC ID `apic_id`.
pub fn setup_msi_standard(msi: &mut MessageSignalledInterruptsCapability, apic_id: u8, vector: u8)
    ensures
        final(msi).message_address_spec() == msi_address_of(msi_target(apic_id, false, vector)) as u64,
        final(msi).data_spec() == msi_data_of(msi_target(apic_id, false, vector)),
        final(msi).control_spec() == old(msi).control_spec(),
{
    msi.write_address_x64(X64MsiAddress {
        apic_id,
        redirection_hint: false,
        destination_is_logical: false,
        delivery_mode: X64MsiDeliveryMode::Fixed,
        trigger_mode: X64MsiTriggerMode::Edge,
        vector,
    });
}

/// The configuration register writes, as register index and value, that store the message address and data of
/// `msi` in an MSI capability starting at register `offset` of the configuration registers `regs`: the low half
/// of the address to register `offset + 1`; on a device with a 64-bit address, the high half to `offset + 2` and
/// the data to `offset + 3`, otherwise the data to `offset + 2`. The data fills the low 16 bits of its register,
/// whose high 16 bits are kept.
pub open spec fn msi_register_writes_of(msi: MessageSignalledInterruptsCapability, offset: int, regs: Seq<u32>) -> Seq<
    (u8, u32),
> {
    let a = msi.message_address_spec();
    let data = msi.data_spec() as u32;
    if msi.has_high_spec() {
        seq![
            ((offset + 1) as u8, a as u32),
            ((offset + 2) as u8, (a >> 32) as u32),
            ((offset + 3) as u8, set_bits(regs[offset + 3], 0, 16, data)),
        ]
    } else {
        seq![((offset + 1) as u8, a as u32), ((offset + 2) as u8, set_bits(regs[offset + 2], 0, 16, data))]
    }
}

/// The configuration register writes that store the message address and data of `msi` in the MSI capability
/// starting at register `offset`, given the function's current configuration registers `registers`.
pub fn msi_register_writes(msi: &MessageSignalledInterruptsCapability, offset: u8, registers: &[u32]) -> (r: Vec<
    (u8, u32),
>)
    requires
        offset + 4 <= registers@.len(),
        registers@.len() <= 0x100,
    ensures
        r@ == msi_register_writes_of(*msi, offset as int, registers@),
{
    let address = msi.message_address();
    let data = msi.data() as u32;
    let mut r: Vec<(u8, u32)> = Vec::new();
    r.push((offset + 1, #[verifier::truncate] (address as u32)));
    if msi.has_high() {
        r.push((offset + 2, #[verifier::truncate] ((address >> 32) as u32)));
        r.push((offset + 3, write_bits(registers[offset as usize + 3], 0, 16, data)));
    } else {
        r.push((offset + 2, write_bits(registers[offset as usize + 2], 0, 16, data)));
    }
    assert(r@ =~= msi_register_writes_of(*msi, offset as int, registers@));
    r
}

/// The MSI-X table entry that sends interrupts to `vector` on the core with APIC ID `apic_id`, unmasked.
pub open spec fn msix_entry_for(apic_id: u8, vector: u8) -> (u32, u32, u32, bool) {
    (msi_address_of(msi_target(apic_id, true, vector)), 0, msi_data_of(msi_target(apic_id, true, vector)) as u32, false)
}

/// The parts of a table entry: address low and high, data and whether it is masked.
pub open spec fn msix_entry_parts(e: MsixTableEntry) -> (u32, u32, u32, bool) {
    (e.message_address_low, e.message_address_high, e.message_data, bit_is_set(e.vector_control@, 0))
}

/// Fills every entry of an MSI-X table, from 0 to its last index, so that each sends interrupts to
/// `vector` on the core with APIC ID `apic_id`, unmasked.
pub fn fill_msix_table(array: &mut MsixInterruptArrayMut, apic_id: u8, vector: u8)
    requires
        old(array).wf(),
    ensures
        final(array).wf(),
        final(array).last_index_spec() == old(array).last_index_spec(),
        forall|i: int| 0 <= i <= old(array).last_index_spec() ==> #[trigger] msix_entry_parts(
            final(array).entries_spec()[i],
        ) == msix_entry_for(apic_id, vector),
{
    let n = array.len();
    let mut i: usize = 0;
    while i < n
        invariant
            array.wf(),
            array.last_index_spec() == old(array).last_index_spec(),
            n == array.last_index_spec() + 1,
            n == array.entries_spec().len(),
            0 <= i <= n,
            forall|j: int| 0 <= j < i ==> #[trigger] msix_entry_parts(array.entries_spec()[j]) == msix_entry_for(
                apic_id,
                vector,
            ),
        decreases n - i,
    {
        let (address, data) = X64MsiAddress {
            apic_id,
            redirection_hint: false,
            destination_is_logical: true,
            delivery_mode: X64MsiDeliveryMode::Fixed,
            trigger_mode: X64MsiTriggerMode::Edge,
            vector,
        }.to_address_and_data();
        let vector_control = MsixVectorControl::new().with_masked(false);
        proof {
            assert(!bit_is_set(set_bit(0, 0, false), 0)) by (bit_vector);
        }
        array.write(
            i,
            MsixTableEntry {
                message_address_low: address,
                message_address_high: 0,
                message_data: data as u32,
                vector_control,
            },
        );
        i = i + 1;
    }
}

/// Enables MSI-X on a device whose table is set up: the enable bit set and the function mask cleared.
pub fn enable_msix(msix: &mut MsixCapability)
    ensures
        final(msix).control_spec()@ as u32 == set_bit(set_bit(old(msix).control_spec()@ as u32, 15, true), 14, false),
        final(msix).interrupt_table_spec() == old(msix).interrupt_table_spec(),
        final(msix).pending_bits_spec() == old(msix).pending_bits_spec(),
{
    let control = msix.control();
    msix.write_control(control.with_enable(true).with_function_mask(false));
}

/// The command register (low half of configuration register 1) with the bus master enable bit (2)
/// and the interrupt disable bit (10) set, so that the device can master the bus and send MSIs
/// instead of pin interrupts.
pub fn bus_master_command(status_and_command: u32) -> (r: u32)
    ensures
        r == status_and_command | (1u32 << 2u32) | (1u32 << 10u32),
{
    status_and_command | (1u32 << 2u32) | (1u32 << 10u32)
}


/// Where the MSI-X table of `msix` lies in physical memory and how many bytes it takes, given the base
/// address and size of the memory BAR that holds it: `last_index + 1` entries of 16 bytes starting at
/// the table's offset into the BAR. The table must fit in the BAR.
pub fn msix_table_region(msix: &MsixCapability, base_address: u64, bar_size: u64) -> (r: (u64, u64))
    requires
        msix.interrupt_table_spec().1 <= bar_size,
        bar_size - msix.interrupt_table_spec().1 >= (get_bits(msix.control_spec()@ as u32, 0, 11) + 1) * 16,
        is_phys_addr(base_address),
        base_address + msix.interrupt_table_spec().1 < 0x10_0000_0000_0000,
    ensures
        r.0 == base_address + msix.interrupt_table_spec().1,
        r.1 == (get_bits(msix.control_spec()@ as u32, 0, 11) + 1) * 16,
{
    let (_, offset) = msix.interrupt_table();
    let last_index = msix.control().last_index();
    let needed_space = (last_index as u64 + 1) * 16;
    let address = phys_addr_add(base_address, offset as u64);
    (address, needed_space)
}

} // verus!
