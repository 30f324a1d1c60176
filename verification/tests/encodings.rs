use kernel::bitfield::{read_bit, read_bits, read_bits64, write_bit, write_bit16, write_bits, write_bits16, write_bits64};
use kernel::pci::capability_registers::{MsixInterruptArrayMut, MsixTableEntry, MsixVectorControl};
use kernel::usb::xhci::contexts::endpoint_context::{EndpointContext, EndpointState, EndpointType};
use kernel::usb::xhci::contexts::slot_context::SlotState;
use kernel::usb::xhci::trb::command::{CommandTrb, DisableSlotTrb, EnableSlotTrb};
use kernel::usb::xhci::trb::TrbType;

#[test]
fn bit_fields_read_back_what_was_written() {
    let v = write_bits(0xFFFF_FFFF, 8, 4, 0x5);
    assert_eq!(v, 0xFFFF_F5FF);
    assert_eq!(read_bits(v, 8, 4), 0x5);
    // the written value is cut to the field's width, and the other fields keep their bits
    assert_eq!(read_bits(write_bits(0, 4, 4, 0x1F), 4, 4), 0xF);
    assert_eq!(read_bits(v, 0, 8), 0xFF);
    assert_eq!(read_bits(v, 12, 20), 0xF_FFFF);
    assert!(!read_bit(write_bit(0xFFFF_FFFF, 31, false), 31));
    assert!(read_bit(write_bit(0, 3, true), 3));
    assert_eq!(write_bits16(0, 4, 4, 0xA), 0xA0);
    assert_eq!(write_bit16(0x8000, 15, false), 0);
    let w = write_bits64(0, 32, 20, 0xABCDE);
    assert_eq!(w, 0xA_BCDE_0000_0000);
    assert_eq!(read_bits64(w, 32, 20), 0xABCDE);
    assert_eq!(read_bits64(w, 0, 32), 0);
}

#[test]
fn endpoint_enums_round_trip() {
    let types = [
        EndpointType::NotValid,
        EndpointType::IsochOut,
        EndpointType::BulkOut,
        EndpointType::InterruptOut,
        EndpointType::Control,
        EndpointType::IsochIn,
        EndpointType::BulkIn,
        EndpointType::InterruptIn,
    ];
    for (i, t) in types.iter().enumerate() {
        assert_eq!(t.into_bits(), i as u32);
        assert_eq!(EndpointType::from_bits(t.into_bits()), *t);
    }
    for s in [EndpointState::Disabled, EndpointState::Running, EndpointState::Halted, EndpointState::Stopped, EndpointState::Error, EndpointState::Reserved(6)] {
        assert_eq!(EndpointState::from_bits(s.into_bits()), s);
    }
    // a reserved state holding the code of a defined state is read back as that state
    assert_eq!(EndpointState::from_bits(EndpointState::Reserved(2).into_bits()), EndpointState::Halted);
}

#[test]
fn slot_state_round_trip() {
    for s in [SlotState::Enabled, SlotState::Default, SlotState::Addressed, SlotState::Configured, SlotState::Reserved(9)] {
        assert_eq!(SlotState::from_bits(s.into_bits()), s);
    }
    assert_eq!(SlotState::from_bits(0x1234_5603), SlotState::Configured);
}

#[test]
fn trb_type_round_trip() {
    for b in 0..64u32 {
        assert_eq!(TrbType::from_bits(b).into_bits(), b);
    }
    assert_eq!(TrbType::from_bits(6), TrbType::Link);
    assert_eq!(TrbType::from_bits(33), TrbType::CommandCompletionEvent);
    assert_eq!(TrbType::NoOpCommand.into_bits(), 23);
    assert_eq!(TrbType::from_bits(TrbType::PortStatusChangeEvent.into_bits()), TrbType::PortStatusChangeEvent);
}

#[test]
fn msix_entry_write_then_read() {
    let entry = |data: u32| MsixTableEntry {
        message_address_low: 0xFEE0_0000,
        message_address_high: 0,
        message_data: data,
        vector_control: MsixVectorControl::new(),
    };
    let mut array = MsixInterruptArrayMut::new(vec![entry(0), entry(1), entry(2)], 2);
    array.write(1, entry(0xAA));
    assert_eq!(array.read(1).map(|e| e.message_data), Some(0xAA));
    assert_eq!(array.read(0).map(|e| e.message_data), Some(0));
    assert_eq!(array.read(2).map(|e| e.message_data), Some(2));
    assert!(array.read(3).is_none());
}

#[test]
fn disable_slot_command_encoding() {
    assert_eq!(DisableSlotTrb::new().with_slot_id(3).to_parts(false), [0, 0, 0, 0x0300_2800]);
    assert_eq!(DisableSlotTrb::new().trb_type(), TrbType::DisableSlotCommand);
    assert_eq!(EnableSlotTrb::new().trb_type(), TrbType::EnableSlotCommand);
    assert_eq!(CommandTrb::DisableSlot(DisableSlotTrb::new().with_slot_id(3)).to_parts(true)[3], 0x0300_2801);
}

#[test]
fn endpoint_mult_reads_back_the_zero_based_field() {
    for m in 0..=2u32 {
        let c = EndpointContext::new().with_mult(false, m);
        assert_eq!(c.mult(false), m);
    }
    let mut c = EndpointContext::new().with_max_esit_payload(0x1234);
    c.set_mult(false, 2);
    assert_eq!(c.mult(false), 2);
    assert_eq!(c.max_esit_payload(), 0x1234);
    // with large ESIT payloads: 3000 bytes in packets of 1024, one packet per burst, is 3 bursts
    let c = EndpointContext::new().with_max_esit_payload(3000).with_max_packet_size(1024);
    assert_eq!(c.mult(true), 2);
}
