use kernel::pci::devices::PciFunction;
use kernel::usb::xhci::capability::CapabilityRegisters;
use kernel::usb::xhci::controller::{
    check_running, check_xhci_class, elapsed_ns, enable_all_ports, extended_capabilities_offset, init_interrupters,
    initial_command_ring_control, noop_completion_outcome, register_offsets, reset_complete, XhciController,
};
use kernel::usb::xhci::dcbaa::DeviceContextBaseAddressArray;
use kernel::usb::xhci::doorbell::DoorbellRegisters;
use kernel::usb::xhci::interrupter::{
    EventRingDequeuePointerRegister, EventRingTableSizeRegister, Interrupter, InterrupterManagementRegister,
    InterrupterModerationRegister, InterrupterRegisterSet, RuntimeRegisters,
};
use kernel::usb::xhci::operational::{OperationalRegisters, SupportedPageSize, UsbCommand, UsbStatus};
use kernel::usb::xhci::trb::command::CommandTrb;
use kernel::usb::xhci::trb::event::{CommandCompletionTrb, EventTrb, PortStatusChangeTrb};
use kernel::usb::xhci::trb::event_ring::EventTrbRing;
use kernel::usb::xhci::trb::rings::{CommandTrbRing, SoftwareDrivenTrbRing};
use kernel::pci::classcodes::{ClassCode, SerialBusControllerType, USBControllerType};

const COMMAND_COMPLETION: u32 = 33 << 10;
const PORT_STATUS_CHANGE: u32 = 34 << 10;

fn completion_trb(pointer: u64, code: u32, cycle: u32) -> [u32; 4] {
    [pointer as u32, (pointer >> 32) as u32, code << 24, cycle | COMMAND_COMPLETION | (3 << 24)]
}

#[test]
fn command_ring_addresses_and_wrap() {
    let mut ring = CommandTrbRing::new(0x10000);
    assert_eq!(ring.ring_start_addr(), 0x10000);
    assert_eq!(ring.enqueue(CommandTrb::NoOp), Ok(0x10000));
    assert_eq!(ring.enqueue(CommandTrb::NoOp), Ok(0x10010));
    // the 255 usable slots are used in order; the last slot of the page holds the link TRB
    for i in 2..255u64 {
        assert_eq!(ring.enqueue(CommandTrb::NoOp), Ok(0x10000 + 16 * i));
    }
    // after the link TRB the ring starts again at its first slot
    ring.update_dequeue(0x10000 + 16 * 253);
    assert_eq!(ring.enqueue(CommandTrb::NoOp), Ok(0x10000));
}

#[test]
fn software_ring_free_space() {
    let mut ring = SoftwareDrivenTrbRing::new(0x20000);
    assert_eq!(ring.free_space(), 255);
    assert!(format!("{:?}", kernel::usb::xhci::trb::RingFullError).contains("RingFull"));
    assert_eq!(ring.trbs_in_buffer(), 0);
    assert_eq!(ring.enqueue_parts([1, 2, 3, 1]), Ok(0x20000));
    assert_eq!(ring.free_space(), 254);
    assert_eq!(ring.trbs_in_buffer(), 1);
    ring.update_dequeue(0x20000);
    assert_eq!(ring.trbs_in_buffer(), 0);
    assert_eq!(ring.free_space(), 255);
}

#[test]
fn full_ring_refuses_enqueue() {
    let mut ring = SoftwareDrivenTrbRing::new(0x50000);
    let mut cycle = 1;
    for i in 0..255u64 {
        assert_eq!(ring.trbs_in_buffer(), i as usize);
        assert_eq!(ring.enqueue_parts([0, 0, 0, cycle]), Ok(0x50000 + 16 * i));
        if i == 254 {
            cycle = 0;
        }
    }
    // every usable slot now waits for the controller
    assert_eq!(ring.trbs_in_buffer(), 255);
    assert_eq!(ring.free_space(), 0);
    assert_eq!(ring.enqueue_parts([0, 0, 0, cycle]), Err(kernel::usb::xhci::trb::RingFullError));
    assert_eq!(ring.trbs_in_buffer(), 255);
    // acknowledging the first TRB frees one slot
    ring.update_dequeue(0x50000);
    assert_eq!(ring.trbs_in_buffer(), 254);
    assert_eq!(ring.free_space(), 1);
    assert_eq!(ring.enqueue_parts([0, 0, 0, cycle]), Ok(0x50000));
    assert_eq!(ring.free_space(), 0);
}

#[test]
fn event_ring_dequeue_follows_cycle_bit() {
    let mut ring = EventTrbRing::new(0x30000, 0x31000);
    assert_eq!(ring.ring_start_addr(), 0x30000);
    assert_eq!(ring.segment_table_start_addr(), 0x31000);
    assert_eq!(ring.segment_table_len(), 1);
    assert_eq!(ring.ring_len(), 256);
    assert!(ring.dequeue().is_none());
    ring.record_controller_write(0, [0, 0, 1 << 24, 1 | PORT_STATUS_CHANGE | (0 << 24)]);
    ring.record_controller_write(0, [5 << 24, 0, 1 << 24, 1 | PORT_STATUS_CHANGE]);
    match ring.dequeue() {
        Some((EventTrb::PortStatusChange(t), addr)) => {
            assert_eq!(t.port_id, 5);
            assert_eq!(t.completion_code, 1);
            // the new dequeue address: the slot after the one read
            assert_eq!(addr, 0x30010);
        }
        other => panic!("unexpected {other:?}"),
    }
    // the next slot still holds the old cycle bit
    assert!(ring.dequeue().is_none());
    // after reading the last slot the dequeue address goes back to the start of the ring
    for slot in 1..256 {
        ring.record_controller_write(slot, [5 << 24, 0, 1 << 24, 1 | PORT_STATUS_CHANGE]);
    }
    let mut last = 0;
    for _ in 1..256 {
        last = ring.dequeue().unwrap().1;
    }
    assert_eq!(last, 0x30000);
    assert!(ring.dequeue().is_none());
}

fn interrupter_at(ring: u64, table: u64) -> Interrupter {
    let regs = InterrupterRegisterSet::new(
        InterrupterManagementRegister::from_bits(0b11),
        InterrupterModerationRegister::from_bits(0),
        EventRingTableSizeRegister::from_bits(0),
        0,
        EventRingDequeuePointerRegister::new(),
    );
    Interrupter::new(regs, ring, table)
}

#[test]
fn interrupter_points_registers_at_ring() {
    let i = interrupter_at(0x40000, 0x41000);
    assert_eq!(i.registers.read_event_ring_table_size().event_ring_table_size(), 1);
    assert_eq!(i.registers.read_event_ring_segment_table_base_address(), 0x41000);
    let d = i.registers.read_event_ring_dequeue_pointer();
    assert_eq!(d.event_ring_dequeue_pointer(), 0x40000);
    assert_eq!(d.dequeue_erst_segment_index(), 0);
}

#[test]
fn interrupter_dequeue_updates_registers() {
    let mut i = interrupter_at(0x40000, 0x41000);
    assert!(i.dequeue().is_none());
    i.record_controller_write(0, completion_trb(0x10000, 1, 1));
    i.record_controller_write(1, completion_trb(0x10010, 1, 1));
    assert!(i.dequeue().is_some());
    match i.dequeue() {
        Some(EventTrb::CommandCompletion(c)) => assert_eq!(c.command_trb_pointer, 0x10010),
        other => panic!("unexpected {other:?}"),
    }
    assert_eq!(i.registers.read_event_ring_dequeue_pointer().event_ring_dequeue_pointer(), 0x40020);
    assert!(!i.registers.read_interrupter_management().interrupt_pending());
    assert!(i.registers.read_interrupter_management().interrupt_enable());
}

#[test]
fn interrupters_take_their_register_sets_in_order() {
    let set = |moderation: u32| {
        InterrupterRegisterSet::new(
            InterrupterManagementRegister::from_bits(0b11),
            InterrupterModerationRegister::from_bits(moderation),
            EventRingTableSizeRegister::from_bits(0xFFFF_0000),
            0,
            EventRingDequeuePointerRegister::new(),
        )
    };
    let pages = vec![(0x40000, 0x41000), (0x42000, 0x43000)];
    let interrupters = init_interrupters(vec![set(7), set(9)], &pages);
    assert_eq!(interrupters.len(), 2);
    for (i, (ring, table)) in pages.iter().enumerate() {
        let regs = &interrupters[i].registers;
        assert_eq!(regs.read_interrupter_moderation().into_bits(), [7, 9][i]);
        assert_eq!(regs.read_interrupter_management().into_bits(), 0b01);
        assert_eq!(regs.read_event_ring_table_size().into_bits(), 0xFFFF_0001);
        assert_eq!(regs.read_event_ring_segment_table_base_address(), *table);
        assert_eq!(regs.read_event_ring_dequeue_pointer().into_bits(), *ring);
        let (start, entry) = interrupters[i].segment_table();
        assert_eq!(start, *table);
        assert_eq!(entry.base_address, *ring);
        assert_eq!(entry.ring_segment_size, 256);
    }
}

#[test]
fn runtime_registers_microframe_index() {
    assert_eq!(RuntimeRegisters::new(0xFFFF_FFFF).microframe_index(), 0x3FFF);
    assert_eq!(RuntimeRegisters::new(0x1234).microframe_index(), 0x1234);
    assert_eq!(RuntimeRegisters::interrupter_offset(0), 0x20);
    assert_eq!(RuntimeRegisters::interrupter_offset(3), 0x80);
}

fn caps() -> CapabilityRegisters {
    CapabilityRegisters::new([0x0100_0040, 0x0200_0104, 0, 0, 0x0010_0000, 0x800, 0x600, 0])
}

fn controller() -> XhciController {
    let caps = caps();
    let op = OperationalRegisters::new(&caps, SupportedPageSize(1));
    let dcbaa = DeviceContextBaseAddressArray::new(
        4,
        SupportedPageSize(1),
        false,
        0,
        0x50000,
        0x51000,
        Vec::new(),
        vec![0x60000, 0x61000, 0x62000, 0x63000],
    );
    XhciController::new(
        PciFunction::new(0, 3, 0).unwrap(),
        caps,
        None,
        op,
        RuntimeRegisters::new(0),
        dcbaa,
        CommandTrbRing::new(0x10000),
        vec![interrupter_at(0x40000, 0x41000)],
        DoorbellRegisters::new(4),
    )
}

#[test]
fn controller_noop_command_round_trip() {
    let mut c = controller();
    let addr = c.write_command_trb(CommandTrb::NoOp).unwrap();
    assert_eq!(addr, 0x10000);
    assert!(c.read_event_trb(0).is_none());
    c.record_event_ring_write(0, 0, completion_trb(addr, 1, 1));
    let trb = c.read_event_trb(0);
    assert!(matches!(trb, Some(EventTrb::CommandCompletion(CommandCompletionTrb { command_trb_pointer: 0x10000, .. }))));
    assert_eq!(noop_completion_outcome(trb, addr), Some(Ok(())));
    assert!(c.extended_capabilities().is_none());
}

#[test]
fn next_event_readable_checks() {
    let mut c = controller();
    // nothing written yet: reading finds no event
    assert!(c.next_event_readable(0));
    // a TRB whose type is not an event type cannot be read
    c.record_event_ring_write(0, 0, [0, 0, 0, 1 | (5 << 10)]);
    assert!(!c.next_event_readable(0));
    // a completion for an address outside the command ring cannot be read
    c.record_event_ring_write(0, 0, completion_trb(0x30000, 1, 1));
    assert!(!c.next_event_readable(0));
    c.record_event_ring_write(0, 0, completion_trb(0x10000 + 16 * 255, 1, 1));
    assert!(!c.next_event_readable(0));
    // a completion for a command ring TRB, or another event, can be read
    c.record_event_ring_write(0, 0, completion_trb(0x10020, 1, 1));
    assert!(c.next_event_readable(0));
    c.record_event_ring_write(0, 0, [1 << 24, 0, 1 << 24, 1 | PORT_STATUS_CHANGE]);
    assert!(c.next_event_readable(0));
}

#[test]
fn noop_completion_outcomes() {
    let ok = CommandCompletionTrb::new(completion_trb(0x10020, 1, 1));
    let failed = CommandCompletionTrb::new(completion_trb(0x10020, 5, 1));
    assert_eq!(noop_completion_outcome(None, 0x10020), None);
    assert_eq!(noop_completion_outcome(Some(EventTrb::MFINDEXWrap), 0x10020), None);
    assert_eq!(noop_completion_outcome(Some(EventTrb::CommandCompletion(ok)), 0x10020), Some(Ok(())));
    assert!(matches!(noop_completion_outcome(Some(EventTrb::CommandCompletion(ok)), 0x10030), Some(Err(_))));
    assert!(matches!(noop_completion_outcome(Some(EventTrb::CommandCompletion(failed)), 0x10020), Some(Err(_))));
    let psc = PortStatusChangeTrb::new([1 << 24, 0, 1 << 24, 1 | PORT_STATUS_CHANGE]);
    assert_eq!(noop_completion_outcome(Some(EventTrb::PortStatusChange(psc)), 0x10020), None);
}

#[test]
fn controller_setup_values() {
    let caps = caps();
    assert_eq!(register_offsets(&caps), (0x40, 0x600, 0x800));
    assert_eq!(extended_capabilities_offset(&caps), Some(0x40));
    let no_ext = CapabilityRegisters::new([0x0100_0040, 0, 0, 0, 0, 0, 0, 0]);
    assert_eq!(extended_capabilities_offset(&no_ext), None);
    let mut op = OperationalRegisters::new(&caps, SupportedPageSize(1));
    enable_all_ports(&caps, &mut op);
    assert_eq!(op.read_configure().max_device_slots_enabled(), 2);
    let crc = initial_command_ring_control(0x10000);
    assert_eq!(crc.into_bits(), 0x10001);
    assert!(check_xhci_class(ClassCode::SerialBusController(SerialBusControllerType::UsbController(
        USBControllerType::Xhci
    ))));
    assert!(!check_xhci_class(ClassCode::SerialBusController(SerialBusControllerType::UsbController(
        USBControllerType::Ehci
    ))));
}

#[test]
fn reset_and_running_checks() {
    // Reset is over once the reset bit reads 0 and the controller is ready
    assert!(reset_complete(UsbCommand::from_bits(0), UsbStatus::from_bits(0)));
    assert!(!reset_complete(UsbCommand::from_bits(0b10), UsbStatus::from_bits(0)));
    assert!(!reset_complete(UsbCommand::from_bits(0), UsbStatus::from_bits(1 << 11)));

    let mut op = OperationalRegisters::new(&caps(), SupportedPageSize(1));
    op.write_usb_status(UsbStatus::from_bits(1));
    op.write_usb_command(UsbCommand::from_bits(1));
    assert_eq!(check_running(&op), Err("XHCI controller is not running"));
    op.write_usb_status(UsbStatus::from_bits(0));
    op.write_usb_command(UsbCommand::from_bits(0));
    assert!(check_running(&op).is_err());
    op.write_usb_command(UsbCommand::from_bits(1));
    assert_eq!(check_running(&op), Ok(()));
}

#[test]
fn elapsed_time_of_ticks() {
    assert_eq!(elapsed_ns(0), 0);
    assert_eq!(elapsed_ns(3), 30_000_000);
}
