//! A specific xHCI controller: its register sets and the data structures it shares with software,
//! and the steps of setting it up and talking to it through the command and event rings.
use vstd::prelude::*;
use crate::addr::is_phys_addr;
use crate::bitfield::{bit_is_set, get_bits, get_bits64, read_bit, read_bits, set_bit, set_bits, set_bits64};
use crate::pci::classcodes::{ClassCode, SerialBusControllerType, USBControllerType};
use crate::pci::devices::PciFunction;
use crate::usb::xhci::capability::CapabilityRegisters;
use crate::usb::xhci::dcbaa::DeviceContextBaseAddressArray;
use crate::usb::xhci::doorbell::DoorbellRegisters;
use crate::usb::xhci::extended::{Capabilities, ExtendedCapabilityRegisters};
use crate::usb::xhci::interrupter::{dequeued, dequeued_event, Interrupter, InterrupterRegisterSet};
use crate::usb::xhci::operational::{CommandRingControl, OperationalRegisters, UsbCommand, UsbStatus};
use crate::usb::xhci::trb::rings::is_ring_start;
use crate::pci::registers::{HeaderType, PciGeneralDeviceHeader, PciHeader};
use crate::usb::xhci::trb::command::{command_trb_encodable, command_trb_parts, CommandTrb};
use crate::usb::xhci::trb::event::{event_of, is_event_trb, EventTrb, COMPLETION_CODE_SUCCESS};
use crate::usb::xhci::trb::rings::{trbs_in_buffer_of, dequeue_after_ack, enqueued, CommandTrbRing, USABLE_LENGTH};
use crate::usb::xhci::trb::event_ring::SEGMENT_SIZE;
use crate::usb::xhci::trb::RingFullError;

verus! {

/// Whether the TRB that an interrupter's event ring holds next can be read: it is an event TRB
/// where the controller has written it.
pub open spec fn pending_event_readable(i: Interrupter) -> bool {
    let ring = i.event_ring_spec();
    let raw = ring.trbs_spec()[ring.dequeue_spec()];
    i.wf() && (bit_is_set(raw[3], 0) == ring.cycle_spec() ==> is_event_trb(raw))
}

/// Whether `pointer`, from a command completion event, is the address of a TRB of the usable part
/// of the command ring starting at `start`.
pub open spec fn points_into_command_ring(start: u64, pointer: u64) -> bool {
    &&& pointer != 0
    &&& is_phys_addr(pointer)
    &&& start <= pointer
    &&& (pointer - start) / 16 < USABLE_LENGTH
}

/// A specific xHCI USB controller connected to the system by PCI.
pub struct XhciController {
    function: PciFunction,
    capability_registers: CapabilityRegisters,
    extended_capability_registers: Option<ExtendedCapabilityRegisters>,
    operational_registers: OperationalRegisters,
    runtime_registers: crate::usb::xhci::interrupter::RuntimeRegisters,
    dcbaa: DeviceContextBaseAddressArray,
    command_ring: CommandTrbRing,
    interrupters: Vec<Interrupter>,
    doorbell_registers: DoorbellRegisters,
}

impl XhciController {
    /// Whether the controller is well formed: its command ring and every event ring are.
    pub closed spec fn wf(&self) -> bool {
        &&& self.command_ring.0.wf()
        &&& forall|k: int| 0 <= k < self.interrupters@.len() ==> (#[trigger] self.interrupters@[k]).wf()
    }

    /// The command ring.
    pub closed spec fn command_ring_spec(&self) -> CommandTrbRing {
        self.command_ring
    }

    /// The interrupters.
    pub closed spec fn interrupters_spec(&self) -> Seq<Interrupter> {
        self.interrupters@
    }

    /// The doorbell registers.
    pub closed spec fn doorbells_spec(&self) -> Seq<u32> {
        self.doorbell_registers@
    }

    /// The operational registers.
    pub closed spec fn operational_spec(&self) -> OperationalRegisters {
        self.operational_registers
    }

    /// The extended capability list, if the controller has one.
    pub closed spec fn extended_spec(&self) -> Option<Seq<u32>> {
        match self.extended_capability_registers {
            None => None,
            Some(e) => Some(e@),
        }
    }

    /// A controller made of the given parts.
    pub fn new(
        function: PciFunction,
        capability_registers: CapabilityRegisters,
        extended_capability_registers: Option<ExtendedCapabilityRegisters>,
        operational_registers: OperationalRegisters,
        runtime_registers: crate::usb::xhci::interrupter::RuntimeRegisters,
        dcbaa: DeviceContextBaseAddressArray,
        command_ring: CommandTrbRing,
        interrupters: Vec<Interrupter>,
        doorbell_registers: DoorbellRegisters,
    ) -> (r: Self)
        requires
            command_ring.0.wf(),
            forall|k: int| 0 <= k < interrupters@.len() ==> (#[trigger] interrupters@[k]).wf(),
        ensures
            r.wf(),
            r.command_ring_spec() == command_ring,
            r.interrupters_spec() == interrupters@,
            r.doorbells_spec() == doorbell_registers@,
            r.extended_spec() == match extended_capability_registers {
                None => None,
                Some(e) => Some(e@),
            },
    {
        XhciController {
            function,
            capability_registers,
            extended_capability_registers,
            operational_registers,
            runtime_registers,
            dcbaa,
            command_ring,
            interrupters,
            doorbell_registers,
        }
    }

    /// Writes a command TRB to the command ring and rings the host controller doorbell so that the
    /// controller processes it. Returns the TRB's physical address, or an error when the ring is full
    /// (in which case the doorbell is not rung).
    pub fn write_command_trb(&mut self, trb: CommandTrb) -> (r: Result<u64, RingFullError>)
        requires
            old(self).wf(),
            command_trb_encodable(trb),
        ensures
            final(self).wf(),
            final(self).command_ring_spec().0.start_spec() == old(self).command_ring_spec().0.start_spec(),
            final(self).command_ring_spec().0.dequeue_spec() == old(self).command_ring_spec().0.dequeue_spec(),
            final(self).interrupters_spec() == old(self).interrupters_spec(),
            r is Err <==> trbs_in_buffer_of(old(self).command_ring_spec().0) == USABLE_LENGTH,
            final(self).operational_spec() == old(self).operational_spec(),
            r is Err ==> final(self).doorbells_spec() == old(self).doorbells_spec() && final(self).command_ring_spec()
                == old(self).command_ring_spec(),
            r matches Ok(addr) ==> {
                &&& addr == old(self).command_ring_spec().0.start_spec() + 16 * old(
                    self,
                ).command_ring_spec().0.enqueue_spec()
                &&& enqueued(
                    old(self).command_ring_spec().0,
                    final(self).command_ring_spec().0,
                    command_trb_parts(trb, old(self).command_ring_spec().0.cycle_spec()),
                )
                &&& final(self).doorbells_spec() == old(self).doorbells_spec().update(0, 0)
            },
    {
        let trb_addr = match self.command_ring.enqueue(trb) {
            Ok(a) => a,
            Err(e) => {
                return Err(e);
            },
        };
        self.doorbell_registers.host_controller_doorbell().ring();
        Ok(trb_addr)
    }

    /// Reads an event from the event ring of interrupter `i`. A command completion event moves the
    /// command ring's dequeue index past the command it reports on.
    pub fn read_event_trb(&mut self, i: usize) -> (r: Option<EventTrb>)
        requires
            old(self).wf(),
            i < old(self).interrupters_spec().len(),
            pending_event_readable(old(self).interrupters_spec()[i as int]),
            dequeued_event(old(self).interrupters_spec()[i as int]) matches Some(
                EventTrb::CommandCompletion(c),
            ) ==> points_into_command_ring(
                old(self).command_ring_spec().0.start_spec(),
                c.command_trb_pointer,
            ),
        ensures
            r == dequeued_event(old(self).interrupters_spec()[i as int]),
            final(self).wf(),
            final(self).interrupters_spec().len() == old(self).interrupters_spec().len(),
            dequeued(old(self).interrupters_spec()[i as int], final(self).interrupters_spec()[i as int]),
            forall|k: int|
                0 <= k < old(self).interrupters_spec().len() && k != i ==> #[trigger] final(self).interrupters_spec()[k]
                    == old(self).interrupters_spec()[k],
            final(self).operational_spec() == old(self).operational_spec(),
            final(self).doorbells_spec() == old(self).doorbells_spec(),
            final(self).command_ring_spec().0.enqueue_spec() == old(self).command_ring_spec().0.enqueue_spec(),
            final(self).command_ring_spec().0.start_spec() == old(self).command_ring_spec().0.start_spec(),
            match r {
                Some(EventTrb::CommandCompletion(c)) => final(self).command_ring_spec().0.dequeue_spec()
                    == dequeue_after_ack(old(self).command_ring_spec().0.start_spec(), c.command_trb_pointer),
                _ => final(self).command_ring_spec().0.dequeue_spec()
                    == old(self).command_ring_spec().0.dequeue_spec(),
            },
    {
        let mut interrupter = self.interrupters.remove(i);
        let trb = interrupter.dequeue();
        self.interrupters.insert(i, interrupter);
        proof {
            assert(self.interrupters@ =~= old(self).interrupters@.update(i as int, self.interrupters@[i as int]));
        }
        let trb = match trb {
            None => {
                return None;
            },
            Some(t) => t,
        };
        if let EventTrb::CommandCompletion(command_completion_trb) = trb {
            self.command_ring.update_dequeue(command_completion_trb.command_trb_pointer);
        }
        Some(trb)
    }

    /// Whether the event that interrupter `i` holds next can be read with [`Self::read_event_trb`]: where
    /// the controller has written it, it must have an event TRB type, and a command completion event must
    /// point at a TRB of the command ring.
    pub fn next_event_readable(&self, i: usize) -> (r: bool)
        requires
            self.wf(),
            i < self.interrupters_spec().len(),
        ensures
            r == (pending_event_readable(self.interrupters_spec()[i as int]) && (dequeued_event(
                self.interrupters_spec()[i as int],
            ) matches Some(EventTrb::CommandCompletion(c)) ==> points_into_command_ring(
                self.command_ring_spec().0.start_spec(),
                c.command_trb_pointer,
            ))),
    {
        let (raw, cycle) = self.interrupters[i].next_slot();
        if read_bit(raw[3], 0) != cycle {
            return true;
        }
        let trb_type = read_bits(raw[3], 10, 6);
        if trb_type < 32 || trb_type > 39 {
            return false;
        }
        match EventTrb::new(raw) {
            EventTrb::CommandCompletion(c) => {
                let pointer = c.command_trb_pointer;
                let start = self.command_ring.ring_start_addr();
                pointer != 0 && pointer < 0x10_0000_0000_0000 && start <= pointer && (pointer - start) / 16 < 255
            },
            _ => true,
        }
    }

    /// Records a TRB that the controller wrote to slot `slot` of the event ring of interrupter `i`.
    pub fn record_event_ring_write(&mut self, i: usize, slot: usize, trb: [u32; 4])
        requires
            old(self).wf(),
            i < old(self).interrupters_spec().len(),
            slot < SEGMENT_SIZE,
        ensures
            final(self).wf(),
            final(self).interrupters_spec().len() == old(self).interrupters_spec().len(),
            final(self).interrupters_spec()[i as int].event_ring_spec().trbs_spec() == old(
                self,
            ).interrupters_spec()[i as int].event_ring_spec().trbs_spec().update(slot as int, trb),
            final(self).interrupters_spec()[i as int].event_ring_spec().dequeue_spec() == old(
                self,
            ).interrupters_spec()[i as int].event_ring_spec().dequeue_spec(),
            final(self).interrupters_spec()[i as int].event_ring_spec().cycle_spec() == old(
                self,
            ).interrupters_spec()[i as int].event_ring_spec().cycle_spec(),
            final(self).interrupters_spec()[i as int].event_ring_spec().ring_start_spec() == old(
                self,
            ).interrupters_spec()[i as int].event_ring_spec().ring_start_spec(),
            final(self).interrupters_spec()[i as int].registers_spec() == old(
                self,
            ).interrupters_spec()[i as int].registers_spec(),
            forall|k: int|
                0 <= k < old(self).interrupters_spec().len() && k != i ==> #[trigger] final(self).interrupters_spec()[k]
                    == old(self).interrupters_spec()[k],
            final(self).command_ring_spec() == old(self).command_ring_spec(),
            final(self).operational_spec() == old(self).operational_spec(),
            final(self).doorbells_spec() == old(self).doorbells_spec(),
    {
        let mut interrupter = self.interrupters.remove(i);
        interrupter.record_controller_write(slot, trb);
        self.interrupters.insert(i, interrupter);
    }

    /// The command ring.
    pub fn command_ring(&self) -> (r: &CommandTrbRing)
        ensures
            *r == self.command_ring_spec(),
    {
        &self.command_ring
    }

    /// The interrupter `i`.
    pub fn interrupter(&self, i: usize) -> (r: &Interrupter)
        requires
            i < self.interrupters_spec().len(),
        ensures
            *r == self.interrupters_spec()[i as int],
    {
        &self.interrupters[i]
    }

    /// The number of interrupters.
    pub fn interrupter_count(&self) -> (r: usize)
        ensures
            r == self.interrupters_spec().len(),
    {
        self.interrupters.len()
    }

    /// The operational registers.
    pub fn operational_registers(&mut self) -> (r: &mut OperationalRegisters)
        ensures
            *r == old(self).operational_spec(),
            final(self).operational_spec() == *final(r),
            old(self).wf() ==> final(self).wf(),
            final(self).command_ring_spec() == old(self).command_ring_spec(),
            final(self).interrupters_spec() == old(self).interrupters_spec(),
            final(self).doorbells_spec() == old(self).doorbells_spec(),
    {
        &mut self.operational_registers
    }

    /// Gets the controller's extended capabilities, where it has them.
    pub fn extended_capabilities(&self) -> (r: Option<Capabilities>)
        ensures
            self.extended_spec() is None ==> r is None,
            self.extended_spec() matches Some(words) ==> (r matches Some(c) && c.words_spec() == words),
    {
        match &self.extended_capability_registers {
            None => None,
            Some(e) => Some(e.capabilities()),
        }
    }
}

/// Whether a class code is that of an xHCI USB controller.
pub open spec fn is_xhci_class(class_code: ClassCode) -> bool {
    class_code == ClassCode::SerialBusController(SerialBusControllerType::UsbController(USBControllerType::Xhci))
}

/// Checks that a function's class code is that of an xHCI USB controller.
pub fn check_xhci_class(class_code: ClassCode) -> (r: bool)
    ensures
        r == is_xhci_class(class_code),
{
    match class_code {
        ClassCode::SerialBusController(SerialBusControllerType::UsbController(USBControllerType::Xhci)) => true,
        _ => false,
    }
}

/// Where the register sets of a controller lie, as byte offsets from the start of its MMIO region:
/// the operational registers after the capability registers' length, then the runtime registers
/// and the doorbell array at the offsets that the capability registers give.
pub fn register_offsets(capability_registers: &CapabilityRegisters) -> (r: (u64, u64, u64))
    ensures
        r.0 == get_bits(capability_registers@[0], 0, 8),
        r.1 == get_bits(capability_registers@[6], 5, 27) * 32,
        r.2 == get_bits(capability_registers@[5], 2, 30) * 4,
{
    (
        capability_registers.capability_register_length() as u64,
        capability_registers.runtime_register_space_offset(),
        capability_registers.doorbell_offset(),
    )
}

/// The byte offset of the extended capability list from the start of the MMIO region, where the
/// controller has one: its pointer counts 32-bit words, and 0 means that there is none.
pub fn extended_capabilities_offset(capability_registers: &CapabilityRegisters) -> (r: Option<u64>)
    ensures
        get_bits(capability_registers@[4], 16, 16) == 0 ==> r is None,
        get_bits(capability_registers@[4], 16, 16) != 0 ==> r == Some(
            (get_bits(capability_registers@[4], 16, 16) * 4) as u64,
        ),
{
    let pointer = capability_registers.capability_parameters_1().extended_capabilities_pointer();
    if pointer == 0 {
        None
    } else {
        Some(pointer as u64 * 4)
    }
}

/// Makes every device slot usable: sets the number of enabled device slots to the number of ports.
pub fn enable_all_ports(capability_registers: &CapabilityRegisters, operational_registers: &mut OperationalRegisters)
    ensures
        final(operational_registers).configure_spec()@ == set_bits(
            old(operational_registers).configure_spec()@,
            0,
            8,
            get_bits(capability_registers@[1], 24, 8),
        ),
        final(operational_registers).max_ports_spec() == old(operational_registers).max_ports_spec(),
{
    let structural_parameters_1 = capability_registers.structural_parameters_1();
    let configure_register = operational_registers.read_configure();
    operational_registers.write_configure(
        configure_register.with_max_device_slots_enabled(structural_parameters_1.max_ports()),
    );
}

/// The value written to the command ring control register when the controller is set up: the
/// ring cycle state set and the command ring pointer at the ring's start, which is 64-byte aligned.
pub fn initial_command_ring_control(ring_start: u64) -> (r: CommandRingControl)
    requires
        ring_start % 64 == 0,
    ensures
        r@ == set_bits64(set_bits64(0, 0, 1, 1), 6, 58, ring_start / 64),
        get_bits64(r@, 6, 58) * 64 == ring_start,
{
    CommandRingControl::from_bits(0).with_ring_cycle_state(true).with_command_ring_pointer(ring_start)
}

/// The outcome of waiting for the completion of a no-op command at `trb_addr` when `trb` is read:
/// `None` to keep waiting (no event, or some other event), otherwise whether the completion
/// reports on that command with success.
pub fn noop_completion_outcome(trb: Option<EventTrb>, trb_addr: u64) -> (r: Option<Result<(), &'static str>>)
    ensures
        match trb {
            Some(EventTrb::CommandCompletion(c)) => if c.command_trb_pointer != trb_addr {
                r matches Some(Err(e)) && e@ == "CommandCompletion TRB points to wrong command TRB"@
            } else if c.completion_code != COMPLETION_CODE_SUCCESS {
                r matches Some(Err(e)) && e@ == "TRB reported non-success completion code"@
            } else {
                r == Some(Ok::<(), &'static str>(()))
            },
            _ => r is None,
        },
{
    match trb {
        Some(EventTrb::CommandCompletion(c)) => {
            if c.command_trb_pointer != trb_addr {
                return Some(Err("CommandCompletion TRB points to wrong command TRB"));
            }
            if c.completion_code != COMPLETION_CODE_SUCCESS {
                return Some(Err("TRB reported non-success completion code"));
            }
            Some(Ok(()))
        },
        _ => None,
    }
}


/// Whether a reset of the controller has completed: the controller has cleared the reset bit of its
/// command register and is no longer "not ready".
pub fn reset_complete(usb_command: UsbCommand, usb_status: UsbStatus) -> (r: bool)
    ensures
        r == (!bit_is_set(usb_command@, 1) && !bit_is_set(usb_status@, 11)),
{
    !usb_command.reset() && !usb_status.controller_not_ready()
}

/// Checks that the controller is running, so that a no-op command can be sent to it: it must be
/// neither halted nor disabled.
pub fn check_running(operational_registers: &OperationalRegisters) -> (r: Result<(), &'static str>)
    ensures
        r is Ok <==> (!bit_is_set(operational_registers.usb_status_spec()@, 0) && bit_is_set(
            operational_registers.usb_command_spec()@,
            0,
        )),
        r matches Err(e) ==> e@ == "XHCI controller is not running"@,
{
    if operational_registers.read_usb_status().host_controller_halted() {
        return Err("XHCI controller is not running");
    }
    if !operational_registers.read_usb_command().enabled() {
        return Err("XHCI controller is not running");
    }
    Ok(())
}

/// The number of timer ticks per second.
pub const TICKS_PER_SECOND: usize = 100;

/// The time in nanoseconds that `tick_diff` timer ticks take.
pub fn elapsed_ns(tick_diff: usize) -> (r: usize)
    requires
        tick_diff * 10_000_000 <= usize::MAX,
    ensures
        r == tick_diff * 10_000_000,
{
    tick_diff * (1_000_000_000 / TICKS_PER_SECOND)
}

/// Whether `i` is the interrupter set up from the register set `regs` with the pages `pages` (event ring,
/// then segment table): its event ring is in those pages, its segment table size is 1, its segment table
/// base is the table's page, its dequeue pointer is the start of the ring in segment 0, its moderation
/// register is kept, and its interrupt enable bit is cleared.
pub open spec fn interrupter_set_up(i: Interrupter, regs: InterrupterRegisterSet, pages: (u64, u64)) -> bool {
    let set = i.registers_spec();
    &&& i.wf()
    &&& i.event_ring_spec().ring_start_spec() == pages.0
    &&& i.event_ring_spec().segment_table_start_spec() == pages.1
    &&& set.table_base_spec() == pages.1
    &&& set.table_size_spec()@ == set_bits(regs.table_size_spec()@, 0, 16, 1)
    &&& set.dequeue_pointer_spec()@ == set_bits64(set_bits64(0, 0, 3, 0), 4, 60, pages.0 / 16)
    &&& set.moderation_spec() == regs.moderation_spec()
    &&& set.management_spec()@ == set_bit(regs.management_spec()@, 1, false)
}

/// Sets up the controller's interrupters: interrupter `i` takes the register set `register_sets[i]`
/// and the pages `ring_pages[i]` (event ring, then segment table), and has its interrupts disabled.
pub fn init_interrupters(register_sets: Vec<InterrupterRegisterSet>, ring_pages: &Vec<(u64, u64)>) -> (r: Vec<
    Interrupter,
>)
    requires
        register_sets.len() == ring_pages.len(),
        forall|i: int| 0 <= i < ring_pages.len() ==> is_ring_start(#[trigger] ring_pages@[i].0) && is_ring_start(
            ring_pages@[i].1,
        ),
    ensures
        r.len() == ring_pages.len(),
        forall|i: int| 0 <= i < r.len() ==> interrupter_set_up(#[trigger] r@[i], register_sets@[i], ring_pages@[i]),
{
    let ghost sets = register_sets@;
    let mut register_sets = register_sets;
    let mut r: Vec<Interrupter> = Vec::new();
    let n = ring_pages.len();
    let mut i: usize = 0;
    while i < n
        invariant
            n == ring_pages.len(),
            sets.len() == n,
            i <= n,
            r.len() == i,
            register_sets@ == sets.subrange(i as int, n as int),
            forall|j: int| 0 <= j < n ==> is_ring_start(#[trigger] ring_pages@[j].0) && is_ring_start(ring_pages@[j].1),
            forall|j: int| 0 <= j < i ==> interrupter_set_up(#[trigger] r@[j], sets[j], ring_pages@[j]),
        decreases n - i,
    {
        let registers = register_sets.remove(0);
        assert(registers == sets[i as int]);
        assert(register_sets@ =~= sets.subrange(i + 1, n as int));
        let (ring, table) = ring_pages[i];
        let mut interrupter = Interrupter::new(registers, ring, table);
        let registers = interrupter.registers_mut();
        let previous = registers.read_interrupter_management();
        let management = previous.with_interrupt_enable(false);
        registers.set_interrupter_management(management);
        r.push(interrupter);
        i = i + 1;
    }
    r
}

/// The general device header of an xHCI controller's function: `None` where the function's class is
/// not that of an xHCI controller or its header is not a general device header.
pub fn xhci_general_header(header: &PciHeader) -> (r: Option<PciGeneralDeviceHeader>)
    ensures
        r is Some <==> (is_xhci_class(header.class_code) && header.header_type is GeneralDevice),
        r matches Some(g) ==> header.header_type == HeaderType::GeneralDevice(g),
{
    if !check_xhci_class(header.class_code) {
        return None;
    }
    match header.header_type {
        HeaderType::GeneralDevice(g) => Some(g),
        _ => None,
    }
}

} // verus!
