//! Interrupters of an xHCI controller: the registers that control event delivery, and the
//! event ring that each one owns. Also the runtime registers that hold the interrupters.
use vstd::prelude::*;
use crate::addr::{is_phys_addr, phys_addr_new};
use crate::bitfield::lemma_clear_low_bits64;
use crate::bitfield::{bit_is_set, get_bits, get_bits64, read_bit, read_bits, read_bits64, set_bit, set_bits, set_bits64, write_bit, write_bits, write_bits64};
use crate::usb::xhci::trb::event::{event_of, is_event_trb, EventTrb};
use crate::usb::xhci::trb::event_ring::{EventRingSegmentTableEntry, EventTrbRing, SEGMENT_SIZE};
use crate::usb::xhci::trb::rings::is_ring_start;

verus! {

/// The interrupter management register.
#[derive(Debug, Clone, Copy, PartialEq, Eq)]
pub struct InterrupterManagementRegister {
    bits: u32,
}

impl View for InterrupterManagementRegister {
    type V = u32;

    closed spec fn view(&self) -> u32 {
        self.bits
    }
}

impl InterrupterManagementRegister {
    /// Constructs the register from its bit representation.
    pub fn from_bits(bits: u32) -> (r: Self)
        ensures
            r@ == bits,
    {
        InterrupterManagementRegister { bits }
    }

    /// The register's bit representation.
    pub fn into_bits(self) -> (r: u32)
        ensures
            r == self@,
    {
        self.bits
    }

    /// Whether an interrupt is pending for this interrupter.
    pub fn interrupt_pending(&self) -> (r: bool)
        ensures
            r == bit_is_set(self@, 0),
    {
        read_bit(self.bits, 0)
    }

    /// The register with the `interrupt_pending` bit set to `v`.
    pub fn with_interrupt_pending(self, v: bool) -> (r: Self)
        ensures
            r@ == set_bit(self@, 0, v),
    {
        InterrupterManagementRegister { bits: write_bit(self.bits, 0, v) }
    }

    /// Whether the interrupter may generate interrupts.
    pub fn interrupt_enable(&self) -> (r: bool)
        ensures
            r == bit_is_set(self@, 1),
    {
        read_bit(self.bits, 1)
    }

    /// The register with the `interrupt_enable` bit set to `v`.
    pub fn with_interrupt_enable(self, v: bool) -> (r: Self)
        ensures
            r@ == set_bit(self@, 1, v),
    {
        InterrupterManagementRegister { bits: write_bit(self.bits, 1, v) }
    }
}

/// The interrupter moderation register: interrupt throttling.
#[derive(Debug, Clone, Copy, PartialEq, Eq)]
pub struct InterrupterModerationRegister {
    bits: u32,
}

impl View for InterrupterModerationRegister {
    type V = u32;

    closed spec fn view(&self) -> u32 {
        self.bits
    }
}

impl InterrupterModerationRegister {
    /// Constructs the register from its bit representation.
    pub fn from_bits(bits: u32) -> (r: Self)
        ensures
            r@ == bits,
    {
        InterrupterModerationRegister { bits }
    }

    /// The register's bit representation.
    pub fn into_bits(self) -> (r: u32)
        ensures
            r == self@,
    {
        self.bits
    }

    /// The minimum inter-interrupt interval, in 250ns increments.
    pub fn interrupt_moderation_interval(&self) -> (r: u16)
        ensures
            r == get_bits(self@, 0, 16),
    {
        read_bits(self.bits, 0, 16) as u16
    }

    /// The register with the `interrupt_moderation_interval` field set to `v`.
    pub fn with_interrupt_moderation_interval(self, v: u16) -> (r: Self)
        ensures
            r@ == set_bits(self@, 0, 16, v as u32),
    {
        InterrupterModerationRegister { bits: write_bits(self.bits, 0, 16, v as u32) }
    }

    /// The countdown until the next interrupt may be triggered.
    pub fn interrupt_moderation_counter(&self) -> (r: u16)
        ensures
            r == get_bits(self@, 16, 16),
    {
        read_bits(self.bits, 16, 16) as u16
    }

    /// The register with the `interrupt_moderation_counter` field set to `v`.
    pub fn with_interrupt_moderation_counter(self, v: u16) -> (r: Self)
        ensures
            r@ == set_bits(self@, 16, 16, v as u32),
    {
        InterrupterModerationRegister { bits: write_bits(self.bits, 16, 16, v as u32) }
    }
}

/// The event ring segment table size register.
#[derive(Debug, Clone, Copy, PartialEq, Eq)]
pub struct EventRingTableSizeRegister {
    bits: u32,
}

impl View for EventRingTableSizeRegister {
    type V = u32;

    closed spec fn view(&self) -> u32 {
        self.bits
    }
}

impl EventRingTableSizeRegister {
    /// Constructs the register from its bit representation.
    pub fn from_bits(bits: u32) -> (r: Self)
        ensures
            r@ == bits,
    {
        EventRingTableSizeRegister { bits }
    }

    /// The register's bit representation.
    pub fn into_bits(self) -> (r: u32)
        ensures
            r == self@,
    {
        self.bits
    }

    /// The number of segments in the event ring segment table.
    pub fn event_ring_table_size(&self) -> (r: u16)
        ensures
            r == get_bits(self@, 0, 16),
    {
        read_bits(self.bits, 0, 16) as u16
    }

    /// The register with the `event_ring_table_size` field set to `v`.
    pub fn with_event_ring_table_size(self, v: u16) -> (r: Self)
        ensures
            r@ == set_bits(self@, 0, 16, v as u32),
    {
        EventRingTableSizeRegister { bits: write_bits(self.bits, 0, 16, v as u32) }
    }
}

/// The event ring dequeue pointer register: the segment index in bits 0 to 2, the event handler
/// busy flag in bit 3 and the 16-byte aligned dequeue pointer in bits 4 to 63.
#[derive(Debug, Clone, Copy, PartialEq, Eq)]
pub struct EventRingDequeuePointerRegister {
    bits: u64,
}

impl View for EventRingDequeuePointerRegister {
    type V = u64;

    closed spec fn view(&self) -> u64 {
        self.bits
    }
}

impl EventRingDequeuePointerRegister {
    /// The register with every bit clear.
    pub fn new() -> (r: Self)
        ensures
            r@ == 0,
    {
        EventRingDequeuePointerRegister { bits: 0 }
    }

    /// Constructs the register from its bit representation.
    pub fn from_bits(bits: u64) -> (r: Self)
        ensures
            r@ == bits,
    {
        EventRingDequeuePointerRegister { bits }
    }

    /// The register's bit representation.
    pub fn into_bits(self) -> (r: u64)
        ensures
            r == self@,
    {
        self.bits
    }

    /// The index of the event ring segment that the dequeue pointer is in.
    pub fn dequeue_erst_segment_index(&self) -> (r: u8)
        ensures
            r == get_bits64(self@, 0, 3),
    {
        let r = read_bits64(self.bits, 0, 3);
        proof {
            let v = self.bits;
            assert(get_bits64(v, 0, 3) < 8) by (bit_vector);
        }
        r as u8
    }

    /// The register with the segment index replaced by the low 3 bits of `v`.
    pub fn with_dequeue_erst_segment_index(self, v: u8) -> (r: Self)
        ensures
            r@ == set_bits64(self@, 0, 3, v as u64),
    {
        EventRingDequeuePointerRegister { bits: write_bits64(self.bits, 0, 3, v as u64) }
    }

    /// Whether the event handler is busy: set when an interrupt is pending.
    pub fn event_handler_busy(&self) -> (r: bool)
        ensures
            r == (get_bits64(self@, 3, 1) == 1),
    {
        read_bits64(self.bits, 3, 1) == 1
    }

    /// The event ring dequeue pointer: the address of the last TRB read by software on this event ring.
    pub fn event_ring_dequeue_pointer(&self) -> (r: u64)
        requires
            get_bits64(self@, 4, 60) * 16 < 0x10_0000_0000_0000,
        ensures
            r == get_bits64(self@, 4, 60) * 16,
    {
        let high = read_bits64(self.bits, 4, 60);
        assert(high << 4u64 == high * 16) by (bit_vector)
            requires
                high * 16 < 0x10_0000_0000_0000,
        ;
        phys_addr_new(high << 4u64)
    }

    /// Sets the event ring dequeue pointer to `value` with its low 4 bits dropped.
    pub fn set_event_ring_dequeue_pointer(&mut self, value: u64)
        ensures
            final(self)@ == set_bits64(old(self)@, 4, 60, value / 16),
    {
        proof {
            lemma_dequeue_pointer_roundtrip(self.bits, value);
        }
        self.bits = write_bits64(self.bits, 4, 60, value >> 4u64);
    }

    /// The register with the event ring dequeue pointer replaced by `value` with its low 4 bits dropped.
    pub fn with_event_ring_dequeue_pointer(&self, value: u64) -> (r: Self)
        ensures
            r@ == set_bits64(self@, 4, 60, value / 16),
            value % 16 == 0 ==> get_bits64(r@, 4, 60) * 16 == value,
    {
        let mut r = *self;
        r.set_event_ring_dequeue_pointer(value);
        proof {
            lemma_dequeue_pointer_roundtrip(self.bits, value);
        }
        r
    }
}

/// Writing a dequeue pointer into a dequeue pointer register value and reading it back gives the
/// pointer with its low 4 bits dropped, which is the pointer itself when it is 16-byte aligned.
pub proof fn lemma_dequeue_pointer_roundtrip(v: u64, pointer: u64)
    ensures
        pointer >> 4u64 == pointer / 16,
        get_bits64(set_bits64(v, 4, 60, pointer / 16), 4, 60) * 16 == pointer - pointer % 16,
{
    assert(pointer >> 4u64 == pointer / 16 && get_bits64(set_bits64(v, 4, 60, pointer / 16), 4, 60) * 16 == pointer
        - pointer % 16) by (bit_vector);
}

/// The registers of one interrupter, as last written.
#[derive(Debug)]
pub struct InterrupterRegisterSet {
    interrupter_management: InterrupterManagementRegister,
    interrupter_moderation: InterrupterModerationRegister,
    event_ring_table_size: EventRingTableSizeRegister,
    event_ring_segment_table_base_address: u64,
    event_ring_dequeue_pointer: EventRingDequeuePointerRegister,
}

impl InterrupterRegisterSet {
    /// The interrupter management register.
    pub closed spec fn management_spec(&self) -> InterrupterManagementRegister {
        self.interrupter_management
    }

    /// The interrupter moderation register.
    pub closed spec fn moderation_spec(&self) -> InterrupterModerationRegister {
        self.interrupter_moderation
    }

    /// The event ring segment table size register.
    pub closed spec fn table_size_spec(&self) -> EventRingTableSizeRegister {
        self.event_ring_table_size
    }

    /// The raw event ring segment table base address register.
    pub closed spec fn table_base_spec(&self) -> u64 {
        self.event_ring_segment_table_base_address
    }

    /// The event ring dequeue pointer register.
    pub closed spec fn dequeue_pointer_spec(&self) -> EventRingDequeuePointerRegister {
        self.event_ring_dequeue_pointer
    }

    /// Interrupter registers holding the given values.
    pub fn new(
        interrupter_management: InterrupterManagementRegister,
        interrupter_moderation: InterrupterModerationRegister,
        event_ring_table_size: EventRingTableSizeRegister,
        event_ring_segment_table_base_address: u64,
        event_ring_dequeue_pointer: EventRingDequeuePointerRegister,
    ) -> (r: Self)
        ensures
            r.management_spec() == interrupter_management,
            r.moderation_spec() == interrupter_moderation,
            r.table_size_spec() == event_ring_table_size,
            r.table_base_spec() == event_ring_segment_table_base_address,
            r.dequeue_pointer_spec() == event_ring_dequeue_pointer,
    {
        InterrupterRegisterSet {
            interrupter_management,
            interrupter_moderation,
            event_ring_table_size,
            event_ring_segment_table_base_address,
            event_ring_dequeue_pointer,
        }
    }

    /// Reads the base physical address of the event ring segment table: the register with its
    /// low 6 bits cleared.
    pub fn read_event_ring_segment_table_base_address(&self) -> (r: u64)
        requires
            is_phys_addr(self.table_base_spec()),
        ensures
            r == self.table_base_spec() - self.table_base_spec() % 64,
    {
        let v = self.event_ring_segment_table_base_address;
        proof {
            lemma_clear_low_bits64(v);
        }
        phys_addr_new(v & !0b11_1111u64)
    }

    /// Sets the base physical address of the event ring segment table, which must be 64-byte aligned.
    pub fn set_event_ring_segment_table_base_address(&mut self, value: u64)
        requires
            value % 64 == 0,
        ensures
            final(self).table_base_spec() == value,
            final(self).management_spec() == old(self).management_spec(),
            final(self).moderation_spec() == old(self).moderation_spec(),
            final(self).table_size_spec() == old(self).table_size_spec(),
            final(self).dequeue_pointer_spec() == old(self).dequeue_pointer_spec(),
    {
        self.event_ring_segment_table_base_address = value;
    }

    /// Reads the interrupter management register.
    pub fn read_interrupter_management(&self) -> (r: InterrupterManagementRegister)
        ensures
            r == self.management_spec(),
    {
        self.interrupter_management
    }

    /// Writes the interrupter management register.
    pub fn set_interrupter_management(&mut self, value: InterrupterManagementRegister)
        ensures
            final(self).management_spec() == value,
            final(self).moderation_spec() == old(self).moderation_spec(),
            final(self).table_size_spec() == old(self).table_size_spec(),
            final(self).table_base_spec() == old(self).table_base_spec(),
            final(self).dequeue_pointer_spec() == old(self).dequeue_pointer_spec(),
    {
        self.interrupter_management = value;
    }

    /// Reads the interrupter moderation register.
    pub fn read_interrupter_moderation(&self) -> (r: InterrupterModerationRegister)
        ensures
            r == self.moderation_spec(),
    {
        self.interrupter_moderation
    }

    /// Writes the interrupter moderation register.
    pub fn set_interrupter_moderation(&mut self, value: InterrupterModerationRegister)
        ensures
            final(self).moderation_spec() == value,
            final(self).management_spec() == old(self).management_spec(),
            final(self).table_size_spec() == old(self).table_size_spec(),
            final(self).table_base_spec() == old(self).table_base_spec(),
            final(self).dequeue_pointer_spec() == old(self).dequeue_pointer_spec(),
    {
        self.interrupter_moderation = value;
    }

    /// Reads the event ring segment table size register.
    pub fn read_event_ring_table_size(&self) -> (r: EventRingTableSizeRegister)
        ensures
            r == self.table_size_spec(),
    {
        self.event_ring_table_size
    }

    /// Writes the event ring segment table size register.
    pub fn set_event_ring_table_size(&mut self, value: EventRingTableSizeRegister)
        ensures
            final(self).table_size_spec() == value,
            final(self).management_spec() == old(self).management_spec(),
            final(self).moderation_spec() == old(self).moderation_spec(),
            final(self).table_base_spec() == old(self).table_base_spec(),
            final(self).dequeue_pointer_spec() == old(self).dequeue_pointer_spec(),
    {
        self.event_ring_table_size = value;
    }

    /// Reads the event ring dequeue pointer register.
    pub fn read_event_ring_dequeue_pointer(&self) -> (r: EventRingDequeuePointerRegister)
        ensures
            r == self.dequeue_pointer_spec(),
    {
        self.event_ring_dequeue_pointer
    }

    /// Writes the event ring dequeue pointer register.
    pub fn set_event_ring_dequeue_pointer(&mut self, value: EventRingDequeuePointerRegister)
        ensures
            final(self).dequeue_pointer_spec() == value,
            final(self).management_spec() == old(self).management_spec(),
            final(self).moderation_spec() == old(self).moderation_spec(),
            final(self).table_size_spec() == old(self).table_size_spec(),
            final(self).table_base_spec() == old(self).table_base_spec(),
    {
        self.event_ring_dequeue_pointer = value;
    }
}

/// The event that reading the interrupter `i` gives: the TRB at the ring's dequeue index if the controller
/// has written it (its cycle bit matches the ring's cycle state), otherwise none.
pub open spec fn dequeued_event(i: Interrupter) -> Option<EventTrb> {
    let ring = i.event_ring_spec();
    let raw = ring.trbs_spec()[ring.dequeue_spec()];
    if bit_is_set(raw[3], 0) == ring.cycle_spec() {
        Some(event_of(raw))
    } else {
        None
    }
}

/// Whether `new` is the interrupter `old` after reading an event from it. Where an event was there, the
/// dequeue pointer register points at the slot after the TRB read (segment 0), the pending interrupt is
/// cleared, and the dequeue index moves on by one, back to the start with the cycle state flipped after
/// the last slot.
/// The other registers (segment table size and base, moderation) are kept either way.
/// Otherwise nothing changes. The ring's contents and place, and its segment table, stay as they were.
pub open spec fn dequeued(old: Interrupter, new: Interrupter) -> bool {
    let ring = old.event_ring_spec();
    let raw = ring.trbs_spec()[ring.dequeue_spec()];
    &&& new.event_ring_spec().trbs_spec() == ring.trbs_spec()
    &&& new.event_ring_spec().ring_start_spec() == ring.ring_start_spec()
    &&& new.event_ring_spec().segment_table_start_spec() == ring.segment_table_start_spec()
    &&& new.event_ring_spec().segment_table_entry_spec() == ring.segment_table_entry_spec()
    &&& new.registers_spec().table_base_spec() == old.registers_spec().table_base_spec()
    &&& new.registers_spec().table_size_spec() == old.registers_spec().table_size_spec()
    &&& new.registers_spec().moderation_spec() == old.registers_spec().moderation_spec()
    &&& if bit_is_set(raw[3], 0) == ring.cycle_spec() {
        &&& new.registers_spec().dequeue_pointer_spec()@ == set_bits64(
            set_bits64(old.registers_spec().dequeue_pointer_spec()@, 0, 3, 0),
            4,
            60,
            ((ring.ring_start_spec() + 16 * ((ring.dequeue_spec() + 1) % (SEGMENT_SIZE as int))) as u64) / 16,
        )
        &&& new.registers_spec().management_spec()@ == set_bit(old.registers_spec().management_spec()@, 0, false)
        &&& new.event_ring_spec().dequeue_spec() == if ring.dequeue_spec() + 1 == SEGMENT_SIZE {
            0
        } else {
            ring.dequeue_spec() + 1
        }
        &&& new.event_ring_spec().cycle_spec() == if ring.dequeue_spec() + 1 == SEGMENT_SIZE {
            !ring.cycle_spec()
        } else {
            ring.cycle_spec()
        }
    } else {
        &&& new.registers_spec() == old.registers_spec()
        &&& new.event_ring_spec().dequeue_spec() == ring.dequeue_spec()
        &&& new.event_ring_spec().cycle_spec() == ring.cycle_spec()
    }
}

/// An interrupter: an event ring and the registers through which the controller is told about it.
#[derive(Debug)]
pub struct Interrupter {
    event_ring: EventTrbRing,
    /// The interrupter's registers
    pub registers: InterrupterRegisterSet,
}

impl Interrupter {
    /// Whether the event ring is well formed.
    pub closed spec fn wf(&self) -> bool {
        self.event_ring.wf()
    }

    /// The interrupter's registers.
    pub closed spec fn registers_spec(&self) -> InterrupterRegisterSet {
        self.registers
    }

    /// The interrupter's event ring.
    pub closed spec fn event_ring_spec(&self) -> EventTrbRing {
        self.event_ring
    }

    /// Sets up an interrupter whose event ring occupies the page at `ring_start`, with its
    /// one-entry segment table in the page at `segment_table_start`, and points the given
    /// registers at it: table size 1, the table's address, segment 0 and the ring's start as
    /// the dequeue pointer.
    pub fn new(mut registers: InterrupterRegisterSet, ring_start: u64, segment_table_start: u64) -> (r: Self)
        requires
            is_ring_start(ring_start),
            is_ring_start(segment_table_start),
        ensures
            r.wf(),
            r.event_ring_spec().ring_start_spec() == ring_start,
            r.event_ring_spec().segment_table_start_spec() == segment_table_start,
            r.registers_spec().table_size_spec()@ == set_bits(registers.table_size_spec()@, 0, 16, 1),
            r.registers_spec().table_base_spec() == segment_table_start,
            r.registers_spec().dequeue_pointer_spec()@ == set_bits64(set_bits64(0, 0, 3, 0), 4, 60, ring_start / 16),
            r.registers_spec().management_spec() == registers.management_spec(),
            r.registers_spec().moderation_spec() == registers.moderation_spec(),
    {
        let event_ring = EventTrbRing::new(ring_start, segment_table_start);
        registers.set_event_ring_table_size(
            registers.read_event_ring_table_size().with_event_ring_table_size(event_ring.segment_table_len()),
        );
        registers.set_event_ring_segment_table_base_address(event_ring.segment_table_start_addr());
        registers.set_event_ring_dequeue_pointer(
            EventRingDequeuePointerRegister::new()
                .with_dequeue_erst_segment_index(event_ring.ring_start_segment() as u8)
                .with_event_ring_dequeue_pointer(event_ring.ring_start_addr()),
        );
        Interrupter { event_ring, registers }
    }

    /// Gets the interrupter's registers for changing them.
    pub fn registers_mut(&mut self) -> (r: &mut InterrupterRegisterSet)
        ensures
            *r == old(self).registers_spec(),
            final(self).registers_spec() == *final(r),
            final(self).event_ring_spec() == old(self).event_ring_spec(),
            final(self).wf() == old(self).wf(),
    {
        &mut self.registers
    }

    /// The physical address of the start of the interrupter's event ring.
    pub fn event_ring_start(&self) -> (r: u64)
        ensures
            r == self.event_ring_spec().ring_start_spec(),
    {
        self.event_ring.ring_start_addr()
    }

    /// The physical address of the interrupter's event ring segment table, and its one entry.
    pub fn segment_table(&self) -> (r: (u64, EventRingSegmentTableEntry))
        ensures
            r.0 == self.event_ring_spec().segment_table_start_spec(),
            r.1 == self.event_ring_spec().segment_table_entry_spec(),
    {
        (self.event_ring.segment_table_start_addr(), self.event_ring.segment_table_entry())
    }

    /// The slot of the event ring that the next event is read from.
    pub fn dequeue_index(&self) -> (r: usize)
        requires
            self.wf(),
        ensures
            r == self.event_ring_spec().dequeue_spec(),
            r < SEGMENT_SIZE,
    {
        self.event_ring.dequeue_index()
    }

    /// The TRB in the slot of the event ring that the next event is read from, and the cycle bit
    /// that marks it as written by the controller.
    pub fn next_slot(&self) -> (r: ([u32; 4], bool))
        requires
            self.wf(),
        ensures
            r.0 == self.event_ring_spec().trbs_spec()[self.event_ring_spec().dequeue_spec()],
            r.1 == self.event_ring_spec().cycle_spec(),
    {
        self.event_ring.next_slot()
    }

    /// Records a TRB that the controller wrote to slot `i` of this interrupter's event ring.
    pub fn record_controller_write(&mut self, i: usize, trb: [u32; 4])
        requires
            old(self).wf(),
            i < SEGMENT_SIZE,
        ensures
            final(self).wf(),
            final(self).registers_spec() == old(self).registers_spec(),
            final(self).event_ring_spec().trbs_spec() == old(self).event_ring_spec().trbs_spec().update(i as int, trb),
            final(self).event_ring_spec().ring_start_spec() == old(self).event_ring_spec().ring_start_spec(),
            final(self).event_ring_spec().dequeue_spec() == old(self).event_ring_spec().dequeue_spec(),
            final(self).event_ring_spec().cycle_spec() == old(self).event_ring_spec().cycle_spec(),
            final(self).event_ring_spec().segment_table_start_spec() == old(self).event_ring_spec().segment_table_start_spec(),
            final(self).event_ring_spec().segment_table_entry_spec() == old(self).event_ring_spec().segment_table_entry_spec(),
    {
        self.event_ring.record_controller_write(i, trb);
    }

    /// Reads a TRB from this interrupter's event ring, if the controller has written one. When one is
    /// read, the dequeue pointer register is pointed at the slot after it (segment 0) and the pending interrupt is cleared.
    pub fn dequeue(&mut self) -> (r: Option<EventTrb>)
        requires
            old(self).wf(),
            bit_is_set(old(self).event_ring_spec().trbs_spec()[old(self).event_ring_spec().dequeue_spec()][3], 0)
                == old(self).event_ring_spec().cycle_spec()
                ==> is_event_trb(old(self).event_ring_spec().trbs_spec()[old(self).event_ring_spec().dequeue_spec()]),
        ensures
            final(self).wf(),
            r == dequeued_event(*old(self)),
            dequeued(*old(self), *final(self)),
    {
        match self.event_ring.dequeue() {
            None => None,
            Some((trb, dequeue_addr)) => {
                self.registers.set_event_ring_dequeue_pointer(
                    self.registers.read_event_ring_dequeue_pointer()
                        .with_dequeue_erst_segment_index(0)
                        .with_event_ring_dequeue_pointer(dequeue_addr),
                );
                self.registers.set_interrupter_management(
                    self.registers.read_interrupter_management().with_interrupt_pending(false),
                );
                Some(trb)
            },
        }
    }
}

/// The byte offset of the registers of interrupter `i` from the start of the runtime registers:
/// they start at 0x20 and take 32 bytes each.
pub open spec fn interrupter_offset_of(i: usize) -> int {
    0x20 + 32 * i
}

/// The runtime registers of an xHCI controller: the microframe index register, then the
/// interrupter register sets.
#[derive(Debug)]
pub struct RuntimeRegisters {
    microframe_index_register: u32,
}

impl RuntimeRegisters {
    /// Runtime registers whose microframe index register holds `microframe_index_register`.
    pub fn new(microframe_index_register: u32) -> (r: Self)
        ensures
            r.mfindex_spec() == microframe_index_register,
    {
        RuntimeRegisters { microframe_index_register }
    }

    /// The raw microframe index register.
    pub closed spec fn mfindex_spec(&self) -> u32 {
        self.microframe_index_register
    }

    /// Gets the microframe index: the low 14 bits of its register, the others being reserved.
    pub fn microframe_index(&self) -> (r: u16)
        ensures
            r == get_bits(self.mfindex_spec(), 0, 14),
            r < 0x4000,
    {
        let reg = self.microframe_index_register;
        assert((reg as u16) & 0b11_1111_1111_1111u16 == get_bits(reg, 0, 14) && (reg as u16)
            & 0b11_1111_1111_1111u16 < 0x4000) by (bit_vector);
        (reg as u16) & 0b11_1111_1111_1111u16
    }

    /// The byte offset of the registers of interrupter `i` from the start of the runtime registers.
    pub fn interrupter_offset(i: usize) -> (r: usize)
        requires
            0x20 + 32 * i <= usize::MAX,
        ensures
            r == interrupter_offset_of(i),
    {
        0x20 + 32 * i
    }
}

} // verus!
