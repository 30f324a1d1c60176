use kernel::usb::xhci::extended::{
    Capability, ExtendedCapabilityRegisters, LinkProtocol, ProtocolSpeedId, ProtocolSpeedIdExponent, ProtocolSpeedIdType,
    SupportedProtocolCapability,
};

/// A list with a legacy support capability, a USB 2 supported protocol capability for ports 1 to 3
/// with two speed ids, a vendor capability, and a USB 3 one for ports 5 and 6.
fn list() -> Vec<u32> {
    vec![
        // word 0: legacy support, next 2 words on
        0x0000_0201,
        0,
        // word 2: supported protocol, revision 2.0, next 6 words on
        0x0200_0602,
        0x2042_5355, // "USB "
        (2 << 28) | (2 << 8) | 1, // 2 speed ids, ports 1 to 3
        0x0000_0011, // slot type 0x11
        0x000C_0021, // speed id 1, megabits, 12
        0x01E0_0022, // speed id 2, megabits, 480
        // word 8: vendor defined (0xC0), next 1 word on
        0x0000_01C0,
        // word 9: supported protocol, revision 3.0, end of list
        0x0300_0002,
        0x2042_5355,
        (1 << 28) | (1 << 8) | 5,
        0x0000_0022,
        0x0005_0034, // speed id 4, gigabits, 5, SuperSpeed
    ]
}

#[test]
fn capabilities_walk_the_list() {
    let regs = ExtendedCapabilityRegisters::new(list());
    let mut caps = regs.capabilities();
    assert!(matches!(caps.next(), Some(Capability::UsbLegacySupport)));
    match caps.next() {
        Some(Capability::SupportedProtocol(s)) => {
            assert_eq!(s.revision_major(), 2);
            assert_eq!(s.revision_minor(), 0);
            assert_eq!(s.compatible_port_offset(), 1);
            assert_eq!(s.compatible_port_count(), 2);
            assert_eq!(s.protocol_slot_type(), 0x11);
            assert_eq!(&s.name_bytes(), b"USB ");
            assert_eq!(s.speed_ids().len(), 2);
        }
        other => panic!("unexpected {other:?}"),
    }
    assert!(matches!(caps.next(), Some(Capability::VendorDefined(0xC0))));
    assert!(matches!(caps.next(), Some(Capability::SupportedProtocol(_))));
    assert!(caps.next().is_none());
    assert!(caps.next().is_none());
}

#[test]
fn capabilities_stop_at_the_end_of_the_image() {
    let mut words = list();
    words.truncate(11);
    let regs = ExtendedCapabilityRegisters::new(words);
    let mut caps = regs.capabilities();
    assert!(caps.next().is_some());
    assert!(caps.next().is_some());
    assert!(caps.next().is_some());
    // the USB 3 capability is cut short, so the list ends
    assert!(caps.next().is_none());
}

#[test]
fn protocol_for_port_covers_count_ports_from_the_offset() {
    let regs = ExtendedCapabilityRegisters::new(list());
    // the USB 2 capability covers ports 1 and 2, the USB 3 capability port 5
    assert!(regs.get_protocol_for_port(0).is_none());
    assert_eq!(regs.get_protocol_for_port(1).unwrap().revision_major(), 2);
    assert_eq!(regs.get_protocol_for_port(2).unwrap().revision_major(), 2);
    assert!(regs.get_protocol_for_port(3).is_none());
    assert!(regs.get_protocol_for_port(4).is_none());
    assert_eq!(regs.get_protocol_for_port(5).unwrap().revision_major(), 3);
    assert!(regs.get_protocol_for_port(6).is_none());
}

#[test]
fn port_ranges_past_the_last_port_are_answered() {
    let regs = ExtendedCapabilityRegisters::new(ports_past_255());
    assert_eq!(regs.get_protocol_for_port(1).unwrap().revision_major(), 2);
    assert_eq!(regs.get_protocol_for_port(255).unwrap().revision_major(), 3);
    assert!(regs.get_protocol_for_port(249).is_none());
    assert_eq!(regs.slot_type(250), Some(0x22));
    assert_eq!(regs.get_protocol_speed(255, 4).unwrap().speed_id_mantissa(), 5);
    let s = SupportedProtocolCapability::new(&ports_past_255(), 9);
    assert!(s.covers_port(255));
}

/// The list of `list()` with the USB 3 capability covering ports 250 to 255 and beyond: offset 250, count 10.
fn ports_past_255() -> Vec<u32> {
    let mut words = list();
    words[11] = (1 << 28) | (10 << 8) | 250;
    words
}

#[test]
fn slot_type_and_protocol_speed() {
    let regs = ExtendedCapabilityRegisters::new(list());
    assert_eq!(regs.slot_type(2), Some(0x11));
    assert_eq!(regs.slot_type(5), Some(0x22));
    assert_eq!(regs.slot_type(6), None);
    assert_eq!(regs.slot_type(9), None);
    let hs = regs.get_protocol_speed(2, 2).unwrap();
    assert_eq!(hs.speed_id_mantissa(), 480);
    assert_eq!(hs.speed_id_exponent(), ProtocolSpeedIdExponent::Megabits);
    assert!(regs.get_protocol_speed(2, 4).is_none());
    let ss = regs.get_protocol_speed(5, 4).unwrap();
    assert_eq!(ss.speed_id_exponent(), ProtocolSpeedIdExponent::Gigabits);
    assert_eq!(ss.link_protocol(), LinkProtocol::SuperSpeed);
    assert_eq!(ss.speed_id_mantissa(), 5);
    assert!(regs.get_protocol_speed(8, 1).is_none());
}

#[test]
fn supported_protocol_capability_from_words() {
    let words = list();
    let s = SupportedProtocolCapability::new(&words, 2);
    assert_eq!(s.compatible_port_offset(), 1);
    assert!(s.covers_port(2));
    assert!(!s.covers_port(3));
    assert_eq!(s.protocol_defined(), 0);
}

#[test]
fn supported_protocol_name() {
    let words = list();
    let s = SupportedProtocolCapability::new(&words, 2);
    assert_eq!(s.name_bytes(), *b"USB ");
    assert_eq!(s.name_string(), Ok("USB "));
    let mut bad = list();
    bad[3] = 0x2042_53FF;
    assert!(SupportedProtocolCapability::new(&bad, 2).name_string().is_err());
}

#[test]
fn protocol_speed_id_fields() {
    let id = ProtocolSpeedId::from_bits((480 << 16) | (1 << 14) | (1 << 8) | (3 << 6) | (2 << 4) | 7);
    assert_eq!(id.speed_id_value(), 7);
    assert_eq!(id.speed_id_exponent(), ProtocolSpeedIdExponent::Megabits);
    assert_eq!(id.psi_type(), ProtocolSpeedIdType::AsymmetricTransmit);
    assert!(id.psi_full_duplex());
    assert_eq!(id.link_protocol(), LinkProtocol::SuperSpeedPlus);
    assert_eq!(id.speed_id_mantissa(), 480);
    assert_eq!(LinkProtocol::from_bits(2), LinkProtocol::Reserved(2));
    assert_eq!(LinkProtocol::Reserved(40).into_bits(), 40);
    assert_eq!(LinkProtocol::SuperSpeedPlus.into_bits(), 1);
}
