use kernel::usb::xhci::capability::{
    CapabilityParameters1, CapabilityParameters2, CapabilityRegisters, IsochronalSchedulingThreshold,
    StructuralParameters1, StructuralParameters2,
};
use kernel::usb::xhci::contexts::ContextSize;
use kernel::usb::xhci::doorbell::{DoorbellArrayEntry, DoorbellRegisters, DoorbellTarget};
use kernel::usb::xhci::operational::{
    port_register_offset, CommandRingControl, ConfigureRegister, DeviceContextBaseAddressArrayPointer,
    MfindexStopBehaviour, OperationalRegisters, SupportedPageSize, UsbCommand, UsbStatus,
};
use kernel::usb::xhci::port_registers::{
    PortIndicatorState, PortLinkState, StatusAndControl, U1Timeout, U2Timeout,
};

#[test]
fn test_xhci_version_parsing() {
    assert_eq!(CapabilityRegisters::parse_version(0x0100), (1, 0, 0));
    assert_eq!(CapabilityRegisters::parse_version(0x0110), (1, 1, 0));
    assert_eq!(CapabilityRegisters::parse_version(0x0090), (0, 9, 0));
}

fn sample_capability_registers() -> CapabilityRegisters {
    CapabilityRegisters::new([
        0x0110_0020, // length 0x20, version 1.1.0
        0x0400_0840, // 0x40 slots, 8 interrupters, 4 ports
        0x0000_0000,
        0x0000_0000,
        0x0040_0005, // 64 bit, 64 byte contexts, extended capabilities at word 0x40
        0x0000_2003, // doorbell offset 0x2000 (reserved low bits set)
        0x0000_101f, // runtime offset 0x1000 (reserved low bits set)
        0x0000_0000,
    ])
}

#[test]
fn capability_registers_fields() {
    let c = sample_capability_registers();
    assert_eq!(c.capability_register_length(), 0x20);
    assert_eq!(c.version(), 0x0110);
    assert_eq!(c.get_version(), (1, 1, 0));
    let sp1 = c.structural_parameters_1();
    assert_eq!(sp1.max_device_slots(), 0x40);
    assert_eq!(sp1.max_interrupters(), 8);
    assert_eq!(sp1.max_ports(), 4);
    assert_eq!(c.doorbell_offset(), 0x2000);
    assert_eq!(c.runtime_register_space_offset(), 0x1000);
    let cp1 = c.capability_parameters_1();
    assert!(cp1.is_64_bit());
    assert!(matches!(cp1.context_size(), ContextSize::Large));
    assert_eq!(cp1.extended_capabilities_pointer(), 0x40);
}

#[test]
fn structural_parameters_1_from_bits() {
    let sp1 = StructuralParameters1::from_bits(0xFF07_FF20);
    assert_eq!(sp1.max_device_slots(), 0x20);
    assert_eq!(sp1.max_interrupters(), 0x7FF);
    assert_eq!(sp1.max_ports(), 0xFF);
    assert_eq!(sp1.into_bits(), 0xFF07_FF20);
}

#[test]
fn max_scratchpad_buffers_joins_high_and_low_bits() {
    // high five bits (27..31) = 0b00011, low five bits (21..25) = 0b00101
    let sp2 = StructuralParameters2::from_bits((3 << 27) | (5 << 21));
    assert_eq!(sp2.max_scratchpad_buffers(), 3 * 32 + 5);
    let sp2 = StructuralParameters2::from_bits(0);
    assert_eq!(sp2.max_scratchpad_buffers(), 0);
    let sp2 = StructuralParameters2::from_bits((31 << 27) | (31 << 21) | (1 << 26) | 0x9c);
    assert_eq!(sp2.max_scratchpad_buffers(), 1023);
    assert!(sp2.scratchpad_restore());
    assert_eq!(sp2.erst_max(), 9);
    assert_eq!(sp2.isochronal_scheduling_threshold(), IsochronalSchedulingThreshold::Frames(4));
}

#[test]
fn isochronal_scheduling_threshold_roundtrip() {
    assert_eq!(IsochronalSchedulingThreshold::from_bits(0b1011), IsochronalSchedulingThreshold::Frames(3));
    assert_eq!(IsochronalSchedulingThreshold::from_bits(0b0011), IsochronalSchedulingThreshold::MicroFrames(3));
    assert_eq!(IsochronalSchedulingThreshold::Frames(3).into_bits(), 0b1011);
    assert_eq!(IsochronalSchedulingThreshold::MicroFrames(6).into_bits(), 0b0110);
    for bits in 0..16u32 {
        assert_eq!(IsochronalSchedulingThreshold::from_bits(bits).into_bits(), bits);
    }
}

#[test]
fn max_primary_stream_array_size() {
    assert_eq!(CapabilityParameters1::from_bits(0).max_primary_stream_array_size(), None);
    assert_eq!(CapabilityParameters1::from_bits(1 << 12).max_primary_stream_array_size(), Some(4));
    assert_eq!(CapabilityParameters1::from_bits(3 << 12).max_primary_stream_array_size(), Some(16));
    assert_eq!(CapabilityParameters1::from_bits(15 << 12).max_primary_stream_array_size(), Some(1 << 16));
}

#[test]
fn secondary_stream_ids_bit_is_inverted() {
    assert!(CapabilityParameters1::from_bits(0).supports_secondary_stream_ids());
    assert!(!CapabilityParameters1::from_bits(1 << 7).supports_secondary_stream_ids());
}

#[test]
fn capabilities_strings() {
    let cp1 = CapabilityParameters1::from_bits(0b1000_0000);
    assert_eq!(cp1.capabilities_string(), "");
    let cp1 = CapabilityParameters1::from_bits(0b0101);
    assert_eq!(cp1.capabilities_string(), "64_bit 64_byte_context secondary_stream_ids ");
    let cp1 = CapabilityParameters1::from_bits(0xfff);
    assert_eq!(
        cp1.capabilities_string(),
        "64_bit bandwidth_negotiation 64_byte_context port_power_control port_indicator_control \
         light_host_controller_reset latency_tolerance_messaging parses_all_event_data_trbs \
         stopped_short_packet stopped_edtla match_consecutive_isoch_frame_ids "
    );
    let cp2 = CapabilityParameters2::from_bits(0b10_0000_0011);
    assert_eq!(cp2.capabilities_string(), "u3_entry max_latency_too_large_error virtualisation_based_trusted_io ");
    assert_eq!(CapabilityParameters2::from_bits(0).capabilities_string(), "");
}

#[test]
fn doorbell_target_bytes() {
    assert_eq!(DoorbellTarget::ControlEndpoint.to_byte(), 1);
    assert_eq!(DoorbellTarget::OutEndpoint(2).to_byte(), 4);
    assert_eq!(DoorbellTarget::InEndpoint(2).to_byte(), 5);
    assert_eq!(DoorbellTarget::Reserved(40).to_byte(), 40);
    assert_eq!(DoorbellTarget::VendorDefined(250).to_byte(), 250);
    assert_eq!(DoorbellTarget::from_byte(1), DoorbellTarget::ControlEndpoint);
    assert_eq!(DoorbellTarget::from_byte(4), DoorbellTarget::OutEndpoint(2));
    // odd bytes below 32 are IN endpoints
    assert_eq!(DoorbellTarget::from_byte(5), DoorbellTarget::InEndpoint(2));
    assert_eq!(DoorbellTarget::from_byte(3), DoorbellTarget::InEndpoint(1));
    assert_eq!(DoorbellTarget::from_byte(0), DoorbellTarget::Reserved(0));
    assert_eq!(DoorbellTarget::from_byte(247), DoorbellTarget::Reserved(247));
    assert_eq!(DoorbellTarget::from_byte(248), DoorbellTarget::VendorDefined(248));
    assert_eq!(DoorbellTarget::from_bits(0x1234_5604), DoorbellTarget::OutEndpoint(2));
    assert_eq!(DoorbellTarget::OutEndpoint(15).into_bits(), 30);
}

#[test]
fn doorbell_target_roundtrip() {
    let targets = [
        DoorbellTarget::ControlEndpoint,
        DoorbellTarget::OutEndpoint(1),
        DoorbellTarget::OutEndpoint(15),
        DoorbellTarget::InEndpoint(1),
        DoorbellTarget::InEndpoint(15),
        DoorbellTarget::Reserved(0),
        DoorbellTarget::Reserved(32),
        DoorbellTarget::VendorDefined(255),
    ];
    for t in targets {
        assert_eq!(DoorbellTarget::from_byte(t.to_byte()), t);
    }
    for b in 0..=255u8 {
        assert_eq!(DoorbellTarget::from_byte(b).to_byte(), b);
    }
}

#[test]
fn doorbell_array_entry_fields() {
    let e = DoorbellArrayEntry::new().with_target(DoorbellTarget::InEndpoint(3)).with_task_id(0xBEEF);
    assert_eq!(e.into_bits(), 0xBEEF_0007);
    assert_eq!(e.task_id(), 0xBEEF);
    assert_eq!(e.target(), DoorbellTarget::InEndpoint(3));
}

#[test]
fn host_controller_doorbell_ring_writes_zero() {
    let mut regs = DoorbellRegisters::new(4);
    assert_eq!(regs.len(), 4);
    regs.host_controller_doorbell().ring();
    assert_eq!(regs.len(), 4);
}

#[test]
fn usb_command_and_status_bits() {
    let cmd = UsbCommand::from_bits(0).with_interrupts_enabled(true).with_wrap_events_enabled(true).with_enabled(true);
    assert_eq!(cmd.into_bits(), 0b100_0000_0101);
    assert!(cmd.enabled());
    assert!(!cmd.reset());
    assert_eq!(cmd.mfindex_stop_behaviour(), MfindexStopBehaviour::Training);
    assert_eq!(UsbCommand::from_bits(1 << 11).mfindex_stop_behaviour(), MfindexStopBehaviour::U3);
    let st = UsbStatus::from_bits(0b1_1000_0000_0001);
    assert!(st.host_controller_halted());
    assert!(st.controller_not_ready());
    assert!(st.host_controller_error());
    assert!(!st.event_interrupt());
}

#[test]
fn command_ring_control_pointer() {
    let crc = CommandRingControl::from_bits(0).with_ring_cycle_state(true).with_command_ring_pointer(0x12_3440);
    assert_eq!(crc.into_bits(), 0x12_3441);
    assert!(crc.ring_cycle_state());
    assert_eq!(crc.command_ring_pointer(), 0x12_3440);
    assert!(!CommandRingControl::from_bits(0b1000).command_stop());
    assert!(CommandRingControl::from_bits(0b1000).command_ring_running());
}

#[test]
fn dcbaa_pointer_masks_reserved_bits() {
    let p = DeviceContextBaseAddressArrayPointer::from_pointer(0x5000);
    assert_eq!(p.get_pointer(), 0x5000);
}

#[test]
fn configure_register_fields() {
    let c = ConfigureRegister::from_bits(0).with_max_device_slots_enabled(12).with_u3_entry_enable(true);
    assert_eq!(c.into_bits(), 0x10C);
    assert_eq!(c.max_device_slots_enabled(), 12);
    assert!(!c.config_info_enable());
}

#[test]
fn operational_registers_ports() {
    let caps = sample_capability_registers();
    let mut op = OperationalRegisters::new(&caps, SupportedPageSize(1));
    assert_eq!(op.max_ports(), 4);
    assert!(op.port(5).is_none());
    assert!(op.port(4).is_some());
    assert_eq!(op.ports().len(), 4);
    let sc = StatusAndControl::from_bits(0).with_reset(true);
    op.write_port_status_and_control(2, sc);
    assert_eq!(op.port(2).unwrap().read_status_and_control(), sc);
    assert_eq!(op.port(1).unwrap().read_status_and_control().into_bits(), 0);
    assert_eq!(op.ports()[1].read_status_and_control(), sc);
    assert_eq!(op.port(2).unwrap().read_power_management().into_bits(), 0);
    // clearing the change bits writes back the value the port holds, and leaves the model as it was
    assert_eq!(op.clear_port_status_and_control(2), sc);
    assert_eq!(op.port(2).unwrap().read_status_and_control(), sc);
    assert_eq!(port_register_offset(1), 0x400);
    assert_eq!(port_register_offset(3), 0x420);
}

#[test]
fn supported_page_size() {
    assert_eq!(SupportedPageSize(1).page_size(), 0x1000);
    assert_eq!(SupportedPageSize(4).page_size(), 0x4000);
}

#[test]
fn status_and_control_normalised_clears_write_one_bits() {
    let sc = StatusAndControl::from_bits(0xFFFF_FFFF);
    let n = sc.normalised();
    assert_eq!(n.into_bits(), 0x7F01_FFED);
    assert!(!n.port_enabled());
    assert!(!n.reset());
    assert!(!n.connect_status_change());
    assert!(!n.warm_reset());
    assert!(n.device_connected());
    assert!(n.port_power());
    let reset = StatusAndControl::from_bits(0x0002_0203).normalised().with_reset(true);
    assert_eq!(reset.into_bits(), 0x0000_0211);
}

#[test]
fn status_and_control_fields() {
    // connected, link state RxDetect (5), powered, speed 3, indicator green
    let sc = StatusAndControl::from_bits(1 | (5 << 5) | (1 << 9) | (3 << 10) | (2 << 14) | (1 << 17));
    assert!(sc.device_connected());
    assert_eq!(sc.port_link_state(), PortLinkState::RxDetect);
    assert!(sc.port_power());
    assert_eq!(sc.port_speed(), 3);
    assert_eq!(sc.port_indicator_control(), PortIndicatorState::Green);
    assert!(sc.connect_status_change());
    assert_eq!(StatusAndControl::from_bits(15 << 5).port_link_state(), PortLinkState::Resume);
}

#[test]
fn port_link_state_values() {
    assert_eq!(PortLinkState::from_bits(0), PortLinkState::U0);
    assert_eq!(PortLinkState::from_bits(11), PortLinkState::TestMode);
    assert_eq!(PortLinkState::from_bits(15), PortLinkState::Resume);
}

#[test]
fn u1_and_u2_timeouts() {
    assert_eq!(U1Timeout::from_bits(0), U1Timeout::Never);
    assert_eq!(U1Timeout::from_bits(0x7F), U1Timeout::AfterTimeout(0x7F));
    assert_eq!(U1Timeout::from_bits(0xFF), U1Timeout::AcceptOnly);
    assert_eq!(U1Timeout::AcceptOnly.into_bits(), 0xFF);
    assert_eq!(U2Timeout::from_bits(0xFE), U2Timeout::AfterTimeout(0xFE));
    assert_eq!(U2Timeout::from_bits(0x1FF), U2Timeout::AcceptOnly);
    assert_eq!(U2Timeout::AfterTimeout(9).into_bits(), 9);
    assert_eq!(U2Timeout::from_bits(U2Timeout::AfterTimeout(0x80).into_bits()), U2Timeout::AfterTimeout(0x80));
}
