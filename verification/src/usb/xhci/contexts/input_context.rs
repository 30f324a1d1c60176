//! The [`InputContext`]: the endpoints a command operates on and the operations to perform.
use vstd::prelude::*;
use super::ContextSize;
use super::device_context::{DEVICE_CONTEXT_WORDS, DeviceContextRef};
use crate::bitfield::{bit_is_set, lemma_get_set_other, read_bit, set_bit, write_bit};
use crate::usb::xhci::operational::SupportedPageSize;

verus! {

/// The _Input Control Context_: which device contexts a command affects, and how.
#[derive(Debug, Clone, Copy)]
pub struct InputControlContext {
    /// Bit `n` set: context `n` is disabled by the command
    drop_context_flags: u32,
    /// Bit `n` set: context `n` is enabled or evaluated by the command
    add_context_flags: u32,
    /// The `bConfigurationValue` of the configuration descriptor
    configuration_value: u8,
    /// The `bInterfaceNumber` of the configuration descriptor
    interface_number: u8,
    /// The `bAlternateSetting` of the configuration descriptor
    alternate_setting: u8,
}

impl InputControlContext {
    /// The drop context flags.
    pub closed spec fn drop_flags_spec(&self) -> u32 {
        self.drop_context_flags
    }

    /// The add context flags.
    pub closed spec fn add_flags_spec(&self) -> u32 {
        self.add_context_flags
    }

    /// The configuration value, interface number and alternate setting.
    pub closed spec fn configuration_spec(&self) -> (u8, u8, u8) {
        (self.configuration_value, self.interface_number, self.alternate_setting)
    }

    /// An input control context with every field zero.
    pub fn new() -> (r: Self)
        ensures
            r.drop_flags_spec() == 0,
            r.add_flags_spec() == 0,
            r.configuration_spec() == (0u8, 0u8, 0u8),
    {
        InputControlContext {
            drop_context_flags: 0,
            add_context_flags: 0,
            configuration_value: 0,
            interface_number: 0,
            alternate_setting: 0,
        }
    }

    /// Reads the drop context flags.
    pub fn drop_context_flags(&self) -> (r: u32)
        ensures
            r == self.drop_flags_spec(),
    {
        self.drop_context_flags
    }

    /// Reads the add context flags.
    pub fn add_context_flags(&self) -> (r: u32)
        ensures
            r == self.add_flags_spec(),
    {
        self.add_context_flags
    }

    /// Reads the configuration value.
    pub fn configuration_value(&self) -> (r: u8)
        ensures
            r == self.configuration_spec().0,
    {
        self.configuration_value
    }

    /// Reads the interface number.
    pub fn interface_number(&self) -> (r: u8)
        ensures
            r == self.configuration_spec().1,
    {
        self.interface_number
    }

    /// Reads the alternate setting.
    pub fn alternate_setting(&self) -> (r: u8)
        ensures
            r == self.configuration_spec().2,
    {
        self.alternate_setting
    }

    /// Writes the drop context flags.
    pub fn write_drop_context_flags(&mut self, value: u32)
        ensures
            final(self).drop_flags_spec() == value,
            final(self).add_flags_spec() == old(self).add_flags_spec(),
            final(self).configuration_spec() == old(self).configuration_spec(),
    {
        self.drop_context_flags = value;
    }

    /// Writes the add context flags.
    pub fn write_add_context_flags(&mut self, value: u32)
        ensures
            final(self).add_flags_spec() == value,
            final(self).drop_flags_spec() == old(self).drop_flags_spec(),
            final(self).configuration_spec() == old(self).configuration_spec(),
    {
        self.add_context_flags = value;
    }

    /// Writes the configuration value.
    pub fn write_configuration_value(&mut self, value: u8)
        ensures
            final(self).configuration_spec() == (value, old(self).configuration_spec().1, old(self).configuration_spec().2),
            final(self).drop_flags_spec() == old(self).drop_flags_spec(),
            final(self).add_flags_spec() == old(self).add_flags_spec(),
    {
        self.configuration_value = value;
    }

    /// Writes the interface number.
    pub fn write_interface_number(&mut self, value: u8)
        ensures
            final(self).configuration_spec() == (old(self).configuration_spec().0, value, old(self).configuration_spec().2),
            final(self).drop_flags_spec() == old(self).drop_flags_spec(),
            final(self).add_flags_spec() == old(self).add_flags_spec(),
    {
        self.interface_number = value;
    }

    /// Writes the alternate setting.
    pub fn write_alternate_setting(&mut self, value: u8)
        ensures
            final(self).configuration_spec() == (old(self).configuration_spec().0, old(self).configuration_spec().1, value),
            final(self).drop_flags_spec() == old(self).drop_flags_spec(),
            final(self).add_flags_spec() == old(self).add_flags_spec(),
    {
        self.alternate_setting = value;
    }

    /// Gets the drop context flag of device context `n`. Flags 0 and 1 are reserved, so `2 <= n <= 31`.
    pub fn drop_context_flag(&self, n: u8) -> (r: bool)
        requires
            2 <= n < 32,
        ensures
            r == bit_is_set(self.drop_flags_spec(), n as u32),
    {
        read_bit(self.drop_context_flags(), n as u32)
    }

    /// Gets the add context flag of device context `n`, for `n <= 31`.
    pub fn add_context_flag(&self, n: u8) -> (r: bool)
        requires
            n < 32,
        ensures
            r == bit_is_set(self.add_flags_spec(), n as u32),
    {
        read_bit(self.add_context_flags(), n as u32)
    }

    /// Writes the drop context flag of device context `n`, for `2 <= n <= 31`.
    pub fn write_drop_context_flag(&mut self, n: u8, v: bool)
        requires
            2 <= n < 32,
        ensures
            final(self).drop_flags_spec() == set_bit(old(self).drop_flags_spec(), n as u32, v),
            final(self).add_flags_spec() == old(self).add_flags_spec(),
            final(self).configuration_spec() == old(self).configuration_spec(),
    {
        let new = write_bit(self.drop_context_flags(), n as u32, v);
        self.write_drop_context_flags(new);
    }

    /// Writes the add context flag of device context `n`, for `n <= 31`.
    pub fn write_add_context_flag(&mut self, n: u8, v: bool)
        requires
            n < 32,
        ensures
            final(self).add_flags_spec() == set_bit(old(self).add_flags_spec(), n as u32, v),
            final(self).drop_flags_spec() == old(self).drop_flags_spec(),
            final(self).configuration_spec() == old(self).configuration_spec(),
    {
        let new = write_bit(self.add_context_flags(), n as u32, v);
        self.write_add_context_flags(new);
    }
}

/// Writing a context flag and reading it back gives the written value, and leaves every other flag unchanged.
pub proof fn lemma_context_flag_write_read(flags: u32, n: u32, m: u32, v: bool)
    requires
        n < 32,
        m < 32,
    ensures
        bit_is_set(set_bit(flags, n, v), n) == v,
        m != n ==> bit_is_set(set_bit(flags, n, v), m) == bit_is_set(flags, m),
{
    let x: u32 = if v { 1 } else { 0 };
    crate::bitfield::lemma_set_bit_reads_back(flags, n, v);
    if m != n {
        lemma_get_set_other(flags, n, 1, x, m, 1);
    }
}

/// The _Input Context_: an input control context followed, one context size later, by a device context
/// describing the endpoints that a command sets up.
pub struct InputContext {
    /// The physical address of the page holding the structure
    page_addr: u64,
    /// The input control context at the start of the structure
    input_control: InputControlContext,
    /// The device context after it
    device: DeviceContextRef,
    /// The size of each context structure
    context_size: ContextSize,
}

impl InputContext {
    /// The structure's invariant.
    pub closed spec fn wf(&self) -> bool {
        self.device.wf() && self.device.context_size_spec() == self.context_size
    }

    /// The physical address of the structure.
    pub closed spec fn addr_spec(&self) -> u64 {
        self.page_addr
    }

    /// The input control context.
    pub closed spec fn input_control_spec(&self) -> InputControlContext {
        self.input_control
    }

    /// The device context.
    pub closed spec fn device_spec(&self) -> DeviceContextRef {
        self.device
    }

    /// Creates a zeroed input context in the page at `page_addr`, for a controller with 4KiB pages.
    pub fn new_zeroed(page_size: SupportedPageSize, context_size: ContextSize, page_addr: u64) -> (r: Self)
        requires
            page_size.page_size_spec() == 0x1000,
        ensures
            r.wf(),
            r.addr_spec() == page_addr,
            r.input_control_spec().drop_flags_spec() == 0,
            r.input_control_spec().add_flags_spec() == 0,
            r.device_spec().context_size_spec() == context_size,
            r.device_spec().words_spec() == Seq::new(DEVICE_CONTEXT_WORDS as nat, |i: int| 0u32),
    {
        let mut words: Vec<u32> = Vec::new();
        let mut i: usize = 0;
        while i < DEVICE_CONTEXT_WORDS
            invariant
                i <= DEVICE_CONTEXT_WORDS,
                words@ == Seq::new(i as nat, |j: int| 0u32),
            decreases DEVICE_CONTEXT_WORDS - i,
        {
            words.push(0);
            i = i + 1;
            assert(words@ =~= Seq::new(i as nat, |j: int| 0u32));
        }
        InputContext {
            page_addr,
            input_control: InputControlContext::new(),
            device: DeviceContextRef::new(words, context_size),
            context_size,
        }
    }

    /// Gets the physical address of the input context.
    pub fn phys_addr(&self) -> (r: u64)
        ensures
            r == self.addr_spec(),
    {
        self.page_addr
    }

    /// Gets the input control context.
    pub fn input_control_context(&self) -> (r: &InputControlContext)
        ensures
            *r == self.input_control_spec(),
    {
        &self.input_control
    }

    /// Gets the input control context, to change it.
    pub fn input_control_context_mut(&mut self) -> (r: &mut InputControlContext)
        ensures
            *r == old(self).input_control_spec(),
            final(self).input_control_spec() == *final(r),
            final(self).device_spec() == old(self).device_spec(),
            final(self).addr_spec() == old(self).addr_spec(),
            final(self).wf() == old(self).wf(),
    {
        &mut self.input_control
    }

    /// Gets the device context contained in the input context.
    pub fn device_context(&self) -> (r: &DeviceContextRef)
        ensures
            *r == self.device_spec(),
    {
        &self.device
    }

    /// Gets the device context contained in the input context, to change it. The input context stays
    /// well formed as long as the device context does and keeps its context size.
    pub fn device_context_mut(&mut self) -> (r: &mut DeviceContextRef)
        ensures
            *r == old(self).device_spec(),
            final(self).device_spec() == *final(r),
            final(self).input_control_spec() == old(self).input_control_spec(),
            final(self).addr_spec() == old(self).addr_spec(),
            old(self).wf() && final(r).wf() && final(r).context_size_spec() == old(self).device_spec().context_size_spec()
                ==> final(self).wf(),
    {
        &mut self.device
    }
}

} // verus!
