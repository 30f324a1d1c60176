use kernel::usb::xhci::contexts::endpoint_context::EndpointContext;
use kernel::usb::xhci::contexts::input_context::InputContext;
use kernel::usb::xhci::contexts::slot_context::SlotContext;
use kernel::usb::xhci::contexts::ContextSize;
use kernel::usb::xhci::dcbaa::DeviceContextBaseAddressArray;
use kernel::usb::xhci::device_context::DeviceContext;
use kernel::usb::xhci::operational::SupportedPageSize;
use kernel::usb::xhci::scratchpad::ScratchpadBufferArray;

#[test]
fn scratchpad_array_points_at_each_page() {
    let s = ScratchpadBufferArray::new(3, SupportedPageSize(1), 0x7000, vec![0x8000, 0x9000, 0xA000]);
    assert_eq!(s.get_array_addr(), 0x7000);
}

#[test]
fn dcbaa_entries() {
    let mut d = DeviceContextBaseAddressArray::new(
        2,
        SupportedPageSize(1),
        true,
        2,
        0x10000,
        0x11000,
        vec![0x12000, 0x13000],
        vec![0x20000, 0x21000],
    );
    assert_eq!(d.array_addr(), 0x10000);
    assert_eq!(d.scratchpad_buffer_array(), 0x11000);
    assert_eq!(d.get_slot_addr(0), Some(0x20000));
    // the array's page holds the scratchpad array pointer, then one device context pointer per slot
    assert_eq!(d.entries(), &[0x11000, 0x20000, 0x21000]);
    assert_eq!(d.scratchpad().entries(), &[0x12000, 0x13000]);
    assert_eq!(d.scratchpad().get_array_addr(), 0x11000);
    assert_eq!(d.get_slot_addr(1), Some(0x21000));
    assert_eq!(d.get_slot_addr(2), None);
    assert_eq!(d.contexts().len(), 2);
    assert_eq!(d.contexts()[1].get_addr(), 0x21000);
    let ctx = d.contexts_mut(0);
    ctx.set_ep_context_0(EndpointContext::new().with_max_packet_size(64));
    assert_eq!(d.contexts()[0].get_ep_context_0().max_packet_size(), 64);
    d.write_scratchpad_buffer_array(0x14000, SupportedPageSize(1));
    assert_eq!(d.scratchpad_buffer_array(), 0x14000);
}

#[test]
fn device_context_stride() {
    let small = DeviceContext::new(SupportedPageSize(1), false, 0x30000);
    let large = DeviceContext::new(SupportedPageSize(1), true, 0x31000);
    assert_eq!(small.get_addr(), 0x30000);
    assert_eq!(small.out_len(), 0);
    assert_eq!(large.get_ep_context_out(1).map(|c| c.max_packet_size()), None);
    let mut c = DeviceContext::new(SupportedPageSize(1), true, 0x32000);
    c.set_ep_context_0(EndpointContext::new().with_interval(3));
    assert_eq!(c.get_ep_context_0().interval(), 3);
    assert_eq!(c.get_slot_context().context_entries(), 0);
}

#[test]
fn input_context_device_context_changes() {
    let mut input = InputContext::new_zeroed(SupportedPageSize(1), ContextSize::Large, 0x40000);
    assert_eq!(input.phys_addr(), 0x40000);
    input.device_context_mut().set_ep_context_0(EndpointContext::new().with_max_packet_size(512));
    assert_eq!(input.device_context().get_ep_context_0().max_packet_size(), 512);
    input.input_control_context_mut().write_add_context_flag(1, true);
    assert!(input.input_control_context().add_context_flag(1));
    assert_eq!(input.input_control_context().add_context_flags(), 0b10);
}

#[test]
fn endpoint_contexts_are_numbered_from_one() {
    let mut input = InputContext::new_zeroed(SupportedPageSize(1), ContextSize::Small, 0x50000);
    let dc = input.device_context_mut();
    // context entries 3: OUT endpoint 1 at entry 2 and IN endpoint 1 at entry 3
    dc.set_slot_context(SlotContext::from_dwords([3 << 27, 0, 0, 0]));
    assert_eq!(dc.out_len(), 1);
    assert_eq!(dc.in_len(), 1);
    dc.write_ep_context_in(1, EndpointContext::new().with_max_packet_size(8));
    assert_eq!(dc.get_ep_context_in(1).map(|c| c.max_packet_size()), Some(8));
    assert_eq!(dc.get_ep_context_out(1).map(|c| c.max_packet_size()), Some(0));
    assert!(dc.get_ep_context_out(2).is_none());
    assert!(dc.get_ep_context_in(2).is_none());
}
