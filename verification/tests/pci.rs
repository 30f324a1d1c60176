use kernel::pci::bar::{
    bar_frame_range, bar_size_from_probe, bar_value_from_registers, bar_value_is_aligned, bar_write_u32_values,
    bar_write_u64_values, BarValue, MemorySpaceBarBaseAddress,
};
use kernel::pci::capability_list::{capabilities, CapabilityEntry};
use kernel::pci::capability_registers::{
    MessageSignalledInterruptsCapability, MsiControl, MsixCapability, MsixControl, MsixInterruptArrayMut,
    MsixTableEntry, MsixVectorControl, X64MsiAddress, X64MsiDeliveryMode, X64MsiTriggerMode,
};
use kernel::pci::classcodes::{ClassCode, SerialBusControllerType, USBControllerType};
use kernel::pci::devices::{PciFunction, PciInvalidAddressError, PciRegister};
use kernel::pci::msi::{
    bus_master_command, enable_msix, fill_msix_table, find_msi_capability, msix_table_fits, msix_table_region,
    locate_msi_capability, msi_register_writes, setup_msi_standard,
    MsiInitError, MSI_VECTOR,
};
use kernel::pci::registers::{HeaderType, PciHeader};
use kernel::pci::scan::{identify_function, scan_device, BusScanQueue};
use kernel::pci::{split_to_u16, split_to_u8};

#[test]
fn split_registers() {
    assert_eq!(split_to_u16(0x1234_5678), (0x5678, 0x1234));
    assert_eq!(split_to_u8(0x1234_5678), (0x78, 0x56, 0x34, 0x12));
}

#[test]
fn class_code_of_xhci_controller() {
    assert_eq!(
        ClassCode::new(0x0C, 0x03, 0x30),
        Ok(ClassCode::SerialBusController(SerialBusControllerType::UsbController(USBControllerType::Xhci)))
    );
    let e = ClassCode::new(0xF0, 0, 0).unwrap_err();
    assert_eq!(e.value, 0xF0);
    assert_eq!(e.field, "Class code");
}

#[test]
fn pci_address_errors() {
    assert_eq!(PciRegister::from_parts(0, 32, 0, 0).unwrap_err(), PciInvalidAddressError::Device(32));
    assert_eq!(PciRegister::from_parts(0, 1, 8, 0).unwrap_err(), PciInvalidAddressError::Function(8));
    assert_eq!(PciRegister::from_parts(0, 1, 1, 2).unwrap_err(), PciInvalidAddressError::Offset(2));
    let r = PciRegister::from_parts(1, 2, 3, 0x10).unwrap();
    assert_eq!(r.get_address(), 0x8000_0000 | (1 << 16) | (2 << 11) | (3 << 8) | 0x10);
    assert!(PciFunction::new(0, 32, 0).is_err());
}

#[test]
fn function_register_address() {
    let f = PciFunction::new(2, 3, 1).unwrap();
    assert_eq!(f.get_register_address(0, 0xE000_0000), 0xE000_0000 + 2 * 0x10_0000 + 3 * 0x8000 + 0x1000);
    assert_eq!(f.get_register_address(2, 0xE000_0000), 0xE000_0000 + 3 * 0x8000 + 0x1000);
}

fn xhci_header_registers() -> [u32; 17] {
    let mut r = [0u32; 17];
    r[0] = 0x1E31_8086; // vendor 0x8086, device 0x1E31
    r[1] = 0x0010_0006; // capabilities list, memory space and bus master enabled
    r[2] = 0x0C03_3004; // class 0x0C, subclass 0x03, prog if 0x30, revision 4
    r[3] = 0x0000_0000; // general device header
    r[4] = 0xF7F0_0004; // 64-bit memory BAR
    r[13] = 0x70;
    r[15] = 0x0000_010B; // interrupt pin A, line 11
    r
}

#[test]
fn header_of_xhci_controller() {
    let f = PciFunction::new(0, 0x14, 0).unwrap();
    let header: PciHeader = PciHeader::from_registers(xhci_header_registers(), &f).unwrap().unwrap();
    assert_eq!(header.device_code.vendor, 0x8086);
    assert_eq!(header.device_code.device, 0x1E31);
    assert!(header.status.has_capabilities_list());
    assert!(header.command.can_be_bus_master());
    assert_eq!(header.revision_id, 4);
    match header.header_type {
        HeaderType::GeneralDevice(g) => {
            assert_eq!(g.bar(0), 4);
            assert_eq!(g.bar(5), 9);
        }
        other => panic!("unexpected {other:?}"),
    }
    let mut absent = xhci_header_registers();
    absent[0] = 0xFFFF_FFFF;
    assert!(PciHeader::from_registers(absent, &f).unwrap().is_none());
}

#[test]
fn bar_decoding() {
    assert_eq!(
        bar_value_from_registers(0xF7F0_000C, 0x1),
        BarValue::MemorySpace { base_address: MemorySpaceBarBaseAddress::Large(0x1_F7F0_0000), prefetchable: true }
    );
    assert_eq!(
        bar_value_from_registers(0xF7F0_0000, 0x1),
        BarValue::MemorySpace { base_address: MemorySpaceBarBaseAddress::Small(0xF7F0_0000), prefetchable: false }
    );
    assert_eq!(bar_size_from_probe(0xFFFF_0004), 0x1_0000);
    assert_eq!(bar_frame_range(0xF7F0_0800, 0x1_0000), (0xF7F0_0000, 0xF7F1_0000));
}

/// A configuration space whose capability list holds power management at register 0x10, then MSI-X at
/// register 0x14, then MSI (64-bit) at register 0x18.
fn config_space() -> Vec<u32> {
    let mut regs = vec![0u32; 64];
    regs[1] = 1 << 20;
    regs[0xD] = 0x10 << 2;
    regs[0x10] = (0x14 << 10) | 0x01;
    regs[0x14] = (0x18 << 10) | (0x0003 << 16) | 0x11;
    regs[0x15] = 0x2000 | 0; // table in BAR 0 at 0x2000
    regs[0x16] = 0x3000 | 1; // pending bits in BAR 1 at 0x3000
    regs[0x18] = (0x0080 << 16) | 0x05;
    regs[0x19] = 0xFEE0_0000;
    regs[0x1A] = 0x1;
    regs[0x1B] = 0x4021;
    regs
}

#[test]
fn capability_list_walk() {
    let regs = config_space();
    let caps = capabilities(&regs).unwrap();
    assert_eq!(caps.len(), 3);
    assert!(matches!(caps[0], (CapabilityEntry::PciPowerManagementInterface, 0x10)));
    match &caps[1] {
        (CapabilityEntry::MsiX(m), 0x14) => {
            assert_eq!(m.control().last_index(), 3);
            assert_eq!(m.interrupt_table(), (0, 0x2000));
            assert_eq!(m.pending_bits(), (1, 0x3000));
        }
        other => panic!("unexpected {other:?}"),
    }
    match &caps[2] {
        (CapabilityEntry::MessageSignalledInterrupts(m), 0x18) => {
            assert!(m.control().is_64_bit());
            assert_eq!(m.message_address(), 0x1_FEE0_0000);
            assert_eq!(m.data(), 0x4021);
        }
        other => panic!("unexpected {other:?}"),
    }
    assert_eq!(find_msi_capability(&caps), Ok(1));
    let mut no_list = regs.clone();
    no_list[1] = 0;
    assert!(capabilities(&no_list).is_none());
}

#[test]
fn first_capability_register_is_the_pointer_shifted_and_masked() {
    // the first register index is (pointer register >> 2) & 0xFC: a capability at byte 0x50 is register 0x14
    let mut regs = vec![0u32; 0x100];
    regs[1] = 1 << 20;
    regs[0xD] = 0x50;
    regs[0x14] = (0x3F << 10) | 0x10;
    regs[0x3F] = 0x09;
    let caps = capabilities(&regs).unwrap();
    assert_eq!(caps.len(), 2);
    assert!(matches!(caps[0], (CapabilityEntry::PciExpress, 0x14)));
    assert!(matches!(caps[1], (CapabilityEntry::VendorSpecific, 0x3F)));
    // a byte offset of 0x54 gives the same register index
    regs[0xD] = 0x54;
    assert!(matches!(capabilities(&regs).unwrap()[0], (CapabilityEntry::PciExpress, 0x14)));
    // bits 8 and 9 of the pointer register reach the index: 0x3F0 gives register 0xFC
    regs[0xD] = 0x3F0;
    regs[0xFC] = 0x01;
    assert!(matches!(capabilities(&regs).unwrap()[0], (CapabilityEntry::PciPowerManagementInterface, 0xFC)));
    // a list whose next pointer leads back to itself is cut off
    regs[0xD] = 0x50;
    regs[0x3F] = (0x14 << 10) | 0x09;
    assert_eq!(capabilities(&regs).unwrap().len(), 64);
}

#[test]
fn no_msi_support() {
    let mut regs = config_space();
    regs[0x10] = 0x01;
    let caps = capabilities(&regs).unwrap();
    assert_eq!(caps.len(), 1);
    assert_eq!(find_msi_capability(&caps), Err(MsiInitError::NoMsiSupport));
    assert_ne!(MsiInitError::HeaderReadError, MsiInitError::NoMsiSupport);
}

#[test]
fn msi_capability_is_located_in_the_registers() {
    // the list of config_space() holds a power management, an MSI-X and an MSI capability
    let regs = config_space();
    let (caps, index) = locate_msi_capability(&regs).unwrap();
    assert_eq!(caps.len(), 3);
    assert_eq!(index, 1);
    assert!(matches!(caps[index], (CapabilityEntry::MsiX(_), 0x14)));
    // without a capabilities list there is no MSI support
    let mut no_list = config_space();
    no_list[1] = 0;
    assert!(matches!(locate_msi_capability(&no_list), Err(MsiInitError::NoMsiSupport)));
    // a list holding neither capability has no MSI support either
    let mut no_msi = config_space();
    no_msi[0x10] = 0x01;
    assert!(matches!(locate_msi_capability(&no_msi), Err(MsiInitError::NoMsiSupport)));
}

#[test]
fn msi_registers_written_in_capability_layout() {
    let mut regs = vec![0u32; 0x40];
    regs[0x1B] = 0xABCD_0000;
    // a 64-bit capability at register 0x18: address low, address high, then data
    let mut msi = MessageSignalledInterruptsCapability::new(MsiControl::from_bits(0x0080), 0, 0, 0);
    setup_msi_standard(&mut msi, 3, MSI_VECTOR);
    assert_eq!(
        msi_register_writes(&msi, 0x18, &regs),
        vec![(0x19, 0xFEE0_3000), (0x1A, 0), (0x1B, 0xABCD_0000 | MSI_VECTOR as u32)]
    );
    // a 32-bit capability: address, then data, whose register keeps its high half
    let mut msi = MessageSignalledInterruptsCapability::new(MsiControl::from_bits(0), 0, 0, 0);
    setup_msi_standard(&mut msi, 3, MSI_VECTOR);
    regs[0x1A] = 0x1234_5678;
    assert_eq!(
        msi_register_writes(&msi, 0x18, &regs),
        vec![(0x19, 0xFEE0_3000), (0x1A, 0x1234_0000 | MSI_VECTOR as u32)]
    );
}

#[test]
fn msi_standard_setup() {
    let mut msi = MessageSignalledInterruptsCapability::new(MsiControl::from_bits(0x0080), 0, 0, 0);
    setup_msi_standard(&mut msi, 3, MSI_VECTOR);
    assert_eq!(msi.message_address(), 0xFEE0_3000);
    assert_eq!(msi.data(), 0xAA);
    let mut small = MessageSignalledInterruptsCapability::new(MsiControl::from_bits(0), 0, 0, 0);
    assert!(small.write_message_address(0x1_0000_0000).is_err());
    assert!(small.write_message_address(0xFEE0_0000).is_ok());
}

#[test]
fn msix_setup() {
    let entry = MsixTableEntry {
        message_address_low: 0,
        message_address_high: 7,
        message_data: 0,
        vector_control: MsixVectorControl::new().with_masked(true),
    };
    let mut array = MsixInterruptArrayMut::new(vec![entry; 4], 3);
    fill_msix_table(&mut array, 2, MSI_VECTOR);
    for e in array.entries() {
        // logical destination mode (bit 2), APIC ID 2
        assert_eq!(e.message_address_low, 0xFEE0_2004);
        assert_eq!(e.message_address_high, 0);
        assert_eq!(e.message_data, 0xAA);
        assert!(!e.vector_control.masked());
    }
    let mut msix = MsixCapability::new(MsixControl::from_bits(0x4003), 0x2000, 0x3001);
    enable_msix(&mut msix);
    assert!(msix.control().enable());
    assert!(!msix.control().function_mask());
    assert_eq!(msix.control().last_index(), 3);
    assert!(msix_table_fits(0x4000, 0x2000, 3));
    assert!(!msix_table_fits(0x2040, 0x2000, 4));
    // the table of 4 entries starts 0x2000 bytes into a BAR at 0xF7F0_0000
    assert_eq!(msix_table_region(&msix, 0xF7F0_0000, 0x4000), (0xF7F0_2000, 64));
    assert_eq!(bus_master_command(0x0010_0002), 0x0010_0406);
}

/// What a BAR register holds after a write: its four flag bits are read-only.
fn register_after_write(old: u32, written: u32) -> u32 {
    (written & !0xF) | (old & 0xF)
}

#[test]
fn bar_write_values() {
    let small = MemorySpaceBarBaseAddress::Small(0xF7F0_0000);
    let large = MemorySpaceBarBaseAddress::Large(0x1_F7F0_0000);
    assert_eq!(bar_write_u32_values(small, 0xE000_0000), (0xE000_0000, None));
    assert_eq!(bar_write_u32_values(large, 0xE000_0000), (0xE000_0000, Some(0)));
    assert_eq!(bar_write_u64_values(large, 0x2_E000_0000, 0x1_0000), (0xE000_0000, 0x2));
    assert!(bar_value_is_aligned(0x2_E001_0000, 0x1_0000));
    assert!(!bar_value_is_aligned(0x2_E000_8000, 0x1_0000));
}

#[test]
fn bar_write_reads_back() {
    // A prefetchable 64-bit BAR gets a new 64-bit address
    let lower = 0xF7F0_000C;
    let (lo, hi) = bar_write_u64_values(MemorySpaceBarBaseAddress::Large(0x1_F7F0_0000), 0x2_E000_0000, 0x1_0000);
    assert_eq!(
        bar_value_from_registers(register_after_write(lower, lo), hi),
        BarValue::MemorySpace { base_address: MemorySpaceBarBaseAddress::Large(0x2_E000_0000), prefetchable: true }
    );
    // A 32-bit BAR gets a new 32-bit address
    let lower = 0xF7F0_0000;
    let (lo, hi) = bar_write_u32_values(MemorySpaceBarBaseAddress::Small(0xF7F0_0000), 0xE010_0000);
    assert_eq!(hi, None);
    assert_eq!(
        bar_value_from_registers(register_after_write(lower, lo), 0x1234),
        BarValue::MemorySpace { base_address: MemorySpaceBarBaseAddress::Small(0xE010_0000), prefetchable: false }
    );
}

#[test]
fn identify_present_and_absent_functions() {
    assert!(identify_function(0xFFFF_FFFF, 0).is_none());
    assert!(identify_function(0x1234_FFFF, 0x0C03_3000).is_none());
    let (id, class) = identify_function(0x1E31_8086, 0x0C03_3004).unwrap();
    assert_eq!((id.vendor, id.device), (0x8086, 0x1E31));
    assert_eq!(class, ClassCode::SerialBusController(SerialBusControllerType::UsbController(USBControllerType::Xhci)));
}

/// The header registers of a PCI-to-PCI bridge leading to `secondary_bus`.
fn bridge_registers(secondary_bus: u8, multifunction: bool) -> [u32; 17] {
    let mut r = [0u32; 17];
    r[0] = 0x1234_8086;
    r[2] = 0x0604_0000; // bridge device, PCI-to-PCI bridge
    r[3] = (1 | if multifunction { 0x80 } else { 0 }) << 16;
    r[6] = (secondary_bus as u32) << 8;
    r
}

#[test]
fn scan_device_keeps_present_functions() {
    let f = PciFunction::new(0, 1, 0).unwrap();
    let single = PciHeader::from_registers(xhci_header_registers(), &f).unwrap();
    let mut multi_regs = bridge_registers(5, true);
    let multi = PciHeader::from_registers(multi_regs, &f).unwrap();
    multi_regs = bridge_registers(6, false);
    let bridge = PciHeader::from_registers(multi_regs, &f).unwrap();

    // Nothing at function 0: the device is absent
    assert_eq!(scan_device(&vec![None, single.clone()]), (0, vec![]));
    // Not multifunction: only function 0 is looked at
    assert_eq!(scan_device(&vec![single.clone(), bridge.clone()]), (1, vec![]));
    match bridge.unwrap().header_type {
        HeaderType::PciToPciBridge(b) => assert_eq!(b.bar(1), 5),
        other => panic!("unexpected {other:?}"),
    }
    // Multifunction: functions up to the first absent one, with the buses behind their bridges
    assert_eq!(scan_device(&vec![multi.clone(), bridge.clone(), None, bridge.clone()]), (2, vec![5, 6]));
}

#[test]
fn bus_scan_queue_is_first_in_first_out() {
    let mut q = BusScanQueue::new(0);
    assert_eq!(q.pop(), Some(0));
    q.push_all(&vec![3, 1]);
    q.push_all(&vec![2]);
    assert_eq!(q.pop(), Some(3));
    assert_eq!(q.pop(), Some(1));
    assert_eq!(q.pop(), Some(2));
    assert_eq!(q.pop(), None);
}

#[test]
fn msi_address_and_data_encoding() {
    let a = X64MsiAddress {
        apic_id: 1,
        redirection_hint: false,
        destination_is_logical: true,
        delivery_mode: X64MsiDeliveryMode::Fixed,
        trigger_mode: X64MsiTriggerMode::LevelAssert,
        vector: 0x30,
    };
    assert_eq!(a.to_address_and_data(), (0xFEE0_1004, 0xC030));
    let b = X64MsiAddress { redirection_hint: true, destination_is_logical: false, trigger_mode: X64MsiTriggerMode::Edge, ..a };
    assert_eq!(b.to_address_and_data(), (0xFEE0_1008, 0x0030));
}
