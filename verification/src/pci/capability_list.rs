//! The capability list of a PCI function: a linked list of structures in its configuration space,
//! each starting with its capability id and a pointer to the next one.
use vstd::prelude::*;
use crate::bitfield::{bit_is_set, get_bits, read_bits};
use crate::pci::capability_registers::{MessageSignalledInterruptsCapability, MsiControl, MsixCapability, MsixControl};

verus! {

/// The configuration register that holds the pointer to the first capability.
pub const CAPABILITIES_REGISTER_OFFSET: u8 = 0xD;

/// An entry in a function's capability list. The ids are those of the PCI Code and ID Assignment
/// Specification.
#[derive(Debug)]
pub enum CapabilityEntry {
    Null,
    PciPowerManagementInterface,
    AcceleratedGraphicsPort,
    VitalProductData,
    SlotIdentification,
    MessageSignalledInterrupts(MessageSignalledInterruptsCapability),
    CompactPciHotSwap,
    PciX,
    HyperTransport,
    VendorSpecific,
    DebugPort,
    CompactPciCentralResourceControl,
    PciHotPlug,
    PciBridgeSubsystemVendorId,
    Apg8x,
    SecureDevice,
    PciExpress,
    MsiX(MsixCapability),
    SataConfig,
    AdvancedFeatures,
    EnhancedAllocation,
    FlatteningPortalBridge,
    Reserved(u8),
}

/// The register index of the capability after the one whose first register is `reg`: bits 10 to 15
/// (the byte pointer in bits 8 to 15 with its two reserved low bits dropped).
pub open spec fn next_capability_pointer(reg: u32) -> u8 {
    get_bits(reg, 10, 6) as u8
}

/// The register index of the first capability, computed from the capabilities pointer register as
/// `(reg >> 2) & 0xFC`. The register holds the capability's byte offset, so this is its register index
/// where that offset is a multiple of 16, and otherwise the index of the 16-byte block that holds it.
pub open spec fn first_capability_pointer(reg: u32) -> u8 {
    ((reg >> 2) & 0xFC) as u8
}

/// Whether `e` is the entry that the configuration registers `regs` hold at register `offset`: its kind is
/// given by the capability id (the low byte of the first register). An MSI capability has its control
/// register in the high half of the first register, then the message address (low, and high where the
/// control register says 64-bit addresses are supported) and the data register. An MSI-X capability has
/// its control register in the high half of the first register, then the table and pending bit array
/// registers.
pub open spec fn capability_entry_matches(e: CapabilityEntry, regs: Seq<u32>, offset: int) -> bool {
    let id = get_bits(regs[offset], 0, 8);
    let control = get_bits(regs[offset], 16, 16);
    match e {
        CapabilityEntry::Null => id == 0,
        CapabilityEntry::PciPowerManagementInterface => id == 1,
        CapabilityEntry::AcceleratedGraphicsPort => id == 2,
        CapabilityEntry::VitalProductData => id == 3,
        CapabilityEntry::SlotIdentification => id == 4,
        CapabilityEntry::MessageSignalledInterrupts(m) => {
            let is_64 = bit_is_set(control, 7);
            &&& id == 5
            &&& m.control_spec()@ == control
            &&& m.has_high_spec() == is_64
            &&& m.message_address_spec() == if is_64 {
                (regs[offset + 2] as u64 * 0x1_0000_0000 + regs[offset + 1]) as u64
            } else {
                regs[offset + 1] as u64
            }
            &&& m.data_spec() == get_bits(regs[offset + if is_64 { 3int } else { 2int }], 0, 16)
        },
        CapabilityEntry::CompactPciHotSwap => id == 6,
        CapabilityEntry::PciX => id == 7,
        CapabilityEntry::HyperTransport => id == 8,
        CapabilityEntry::VendorSpecific => id == 9,
        CapabilityEntry::DebugPort => id == 0xA,
        CapabilityEntry::CompactPciCentralResourceControl => id == 0xB,
        CapabilityEntry::PciHotPlug => id == 0xC,
        CapabilityEntry::PciBridgeSubsystemVendorId => id == 0xD,
        CapabilityEntry::Apg8x => id == 0xE,
        CapabilityEntry::SecureDevice => id == 0xF,
        CapabilityEntry::PciExpress => id == 0x10,
        CapabilityEntry::MsiX(m) => {
            &&& id == 0x11
            &&& m.control_spec()@ == control
            &&& m.interrupt_table_spec() == ((regs[offset + 1] % 8) as u8, (regs[offset + 1] - regs[offset + 1] % 8) as u32)
            &&& m.pending_bits_spec() == ((regs[offset + 2] % 8) as u8, (regs[offset + 2] - regs[offset + 2] % 8) as u32)
        },
        CapabilityEntry::SataConfig => id == 0x12,
        CapabilityEntry::AdvancedFeatures => id == 0x13,
        CapabilityEntry::EnhancedAllocation => id == 0x14,
        CapabilityEntry::FlatteningPortalBridge => id == 0x15,
        CapabilityEntry::Reserved(v) => v == id && id > 0x15,
    }
}

impl CapabilityEntry {
    /// Reads the capability at register `offset` of the configuration registers `registers`, and returns it
    /// with the register index of the next capability (0 at the end of the list).
    pub fn new(registers: &[u32], offset: u8) -> (r: (Self, u8))
        requires
            offset + 4 <= registers@.len(),
        ensures
            capability_entry_matches(r.0, registers@, offset as int),
            r.1 == next_capability_pointer(registers@[offset as int]),
    {
        let o = offset as usize;
        let reg = registers[o];
        let id = read_bits(reg, 0, 8) as u8;
        let next_pointer = read_bits(reg, 10, 6) as u8;
        let control = read_bits(reg, 16, 16) as u16;
        let entry = match id {
            0x00 => CapabilityEntry::Null,
            0x01 => CapabilityEntry::PciPowerManagementInterface,
            0x02 => CapabilityEntry::AcceleratedGraphicsPort,
            0x03 => CapabilityEntry::VitalProductData,
            0x04 => CapabilityEntry::SlotIdentification,
            0x05 => {
                let control = MsiControl::from_bits(control);
                let is_64 = control.is_64_bit();
                let data_register = if is_64 { registers[o + 3] } else { registers[o + 2] };
                CapabilityEntry::MessageSignalledInterrupts(
                    MessageSignalledInterruptsCapability::new(
                        control,
                        registers[o + 1],
                        registers[o + 2],
                        read_bits(data_register, 0, 16) as u16,
                    ),
                )
            },
            0x06 => CapabilityEntry::CompactPciHotSwap,
            0x07 => CapabilityEntry::PciX,
            0x08 => CapabilityEntry::HyperTransport,
            0x09 => CapabilityEntry::VendorSpecific,
            0x0A => CapabilityEntry::DebugPort,
            0x0B => CapabilityEntry::CompactPciCentralResourceControl,
            0x0C => CapabilityEntry::PciHotPlug,
            0x0D => CapabilityEntry::PciBridgeSubsystemVendorId,
            0x0E => CapabilityEntry::Apg8x,
            0x0F => CapabilityEntry::SecureDevice,
            0x10 => CapabilityEntry::PciExpress,
            0x11 => CapabilityEntry::MsiX(
                MsixCapability::new(MsixControl::from_bits(control), registers[o + 1], registers[o + 2]),
            ),
            0x12 => CapabilityEntry::SataConfig,
            0x13 => CapabilityEntry::AdvancedFeatures,
            0x14 => CapabilityEntry::EnhancedAllocation,
            0x15 => CapabilityEntry::FlatteningPortalBridge,
            _ => CapabilityEntry::Reserved(id),
        };
        (entry, next_pointer)
    }
}

/// The register indices of the capabilities from the one at `offset`, following next pointers until
/// one is 0, for at most `fuel` capabilities, and stopping at a capability that the registers do not hold.
pub open spec fn capability_offsets(regs: Seq<u32>, offset: int, fuel: nat) -> Seq<int>
    decreases fuel,
{
    if offset == 0 || fuel == 0 || offset + 4 > regs.len() || offset < 0 {
        Seq::empty()
    } else {
        seq![offset] + capability_offsets(regs, next_capability_pointer(regs[offset]) as int, (fuel - 1) as nat)
    }
}

/// A list read with `fuel` has at most `fuel` entries.
pub proof fn lemma_capability_offsets_len(regs: Seq<u32>, offset: int, fuel: nat)
    ensures
        capability_offsets(regs, offset, fuel).len() <= fuel,
    decreases fuel,
{
    if offset == 0 || fuel == 0 || offset + 4 > regs.len() || offset < 0 {
    } else {
        lemma_capability_offsets_len(regs, next_capability_pointer(regs[offset]) as int, (fuel - 1) as nat);
    }
}

/// The greatest number of capabilities read from a list: a configuration space of 256 bytes holds no
/// more distinct capabilities than this.
pub const MAX_CAPABILITIES: usize = 64;

/// Reads the capability list of a function whose configuration registers are `registers`: `None` where
/// the status register (the high half of register 1) says that there is no list, otherwise the entries
/// in list order, each with the register index where it starts. A list is read for at most
/// [`MAX_CAPABILITIES`] entries.
pub fn capabilities(registers: &[u32]) -> (r: Option<Vec<(CapabilityEntry, u8)>>)
    requires
        registers@.len() >= 0x10,
        registers@.len() <= 0x100,
    ensures
        !bit_is_set(registers@[1], 20) ==> r is None,
        bit_is_set(registers@[1], 20) ==> (r matches Some(v) && {
            let offs = capability_offsets(
                registers@,
                first_capability_pointer(registers@[CAPABILITIES_REGISTER_OFFSET as int]) as int,
                MAX_CAPABILITIES as nat,
            );
            &&& v.len() == offs.len()
            &&& forall|i: int| 0 <= i < v.len() ==> capability_entry_matches(#[trigger] v@[i].0, registers@, offs[i])
                && v@[i].1 == offs[i]
        }),
{
    if read_bits(registers[1], 20, 1) != 1 {
        return None;
    }
    let pointer_register = registers[CAPABILITIES_REGISTER_OFFSET as usize];
    let mut i: u8 = ((pointer_register >> 2) & 0xFC) as u8;
    let ghost offs = capability_offsets(registers@, i as int, MAX_CAPABILITIES as nat);
    proof {
        lemma_capability_offsets_len(registers@, i as int, MAX_CAPABILITIES as nat);
    }
    let mut fuel: usize = MAX_CAPABILITIES;
    let mut v: Vec<(CapabilityEntry, u8)> = Vec::new();
    while i != 0 && fuel > 0 && (i as usize) + 4 <= registers.len()
        invariant
            fuel <= MAX_CAPABILITIES,
            v.len() + fuel == MAX_CAPABILITIES,
            offs.len() <= MAX_CAPABILITIES,
            registers@.len() <= 0x100,
            capability_offsets(registers@, i as int, fuel as nat) == offs.subrange(v.len() as int, offs.len() as int),
            v.len() <= offs.len(),
            forall|j: int| 0 <= j < v.len() ==> capability_entry_matches(#[trigger] v@[j].0, registers@, offs[j])
                && v@[j].1 == offs[j],
        decreases fuel,
    {
        let (entry, next) = CapabilityEntry::new(registers, i);
        proof {
            let rest = offs.subrange(v.len() as int, offs.len() as int);
            assert(rest[0] == i);
            assert(rest.drop_first() =~= offs.subrange(v.len() + 1, offs.len() as int));
        }
        v.push((entry, i));
        i = next;
        fuel = fuel - 1;
    }
    proof {
        assert(offs.subrange(v.len() as int, offs.len() as int).len() == 0);
    }
    Some(v)
}

} // verus!
