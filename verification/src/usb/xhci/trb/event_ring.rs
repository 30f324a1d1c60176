//! The [`EventTrbRing`], which the controller fills with [`EventTrb`]s and software consumes.
use vstd::prelude::*;
use crate::addr::phys_addr_add;
use crate::bitfield::{bit_is_set, read_bit};
use super::event::{EventTrb, event_of, is_event_trb};
use super::rings::{TOTAL_LENGTH, is_ring_start};

verus! {

/// An entry in the segment table of an event ring, giving the address and length of a segment.
#[derive(Debug, Clone, Copy)]
pub struct EventRingSegmentTableEntry {
    /// The base address of the segment
    pub base_address: u64,
    /// The number of TRBs in the segment
    pub ring_segment_size: u16,
}

impl EventRingSegmentTableEntry {
    /// Constructs an entry for a segment at `addr` holding `segment_size` TRBs.
    pub fn new(addr: u64, segment_size: u16) -> (r: Self)
        requires
            addr % 64 == 0,
            segment_size >= 16,
        ensures
            r.base_address == addr,
            r.ring_segment_size == segment_size,
    {
        EventRingSegmentTableEntry { base_address: addr, ring_segment_size: segment_size }
    }
}

/// The number of TRBs in the single segment of an event ring: one page of 16-byte TRBs.
pub const SEGMENT_SIZE: u16 = 256;

/// An _Event TRB Ring_: the controller writes [`EventTrb`]s to it for the OS to respond to.
///
/// The ring is one page at physical address `ring_start`, whose contents are held in `trbs`; its
/// segment table, one entry long, is the page at `segment_table_start`.
#[derive(Debug)]
pub struct EventTrbRing {
    /// The physical address of the ring's page
    ring_start: u64,
    /// The contents of the ring's page, one entry per TRB
    trbs: Vec<[u32; 4]>,
    /// The physical address of the segment table's page
    segment_table_start: u64,
    /// The first (and only) entry of the segment table
    segment_table_entry: EventRingSegmentTableEntry,
    /// The index where new TRBs will be dequeued
    dequeue: usize,
    /// The value of the cycle bit which marks a TRB as valid
    cycle_state: bool,
}

impl EventTrbRing {
    /// The ring's invariant.
    pub closed spec fn wf(&self) -> bool {
        &&& self.trbs.len() == SEGMENT_SIZE
        &&& self.dequeue < SEGMENT_SIZE
        &&& is_ring_start(self.ring_start)
        &&& is_ring_start(self.segment_table_start)
    }

    /// The physical address of the ring.
    pub closed spec fn ring_start_spec(&self) -> u64 {
        self.ring_start
    }

    /// The contents of the ring.
    pub closed spec fn trbs_spec(&self) -> Seq<[u32; 4]> {
        self.trbs@
    }

    /// The index of the next TRB to dequeue.
    pub closed spec fn dequeue_spec(&self) -> int {
        self.dequeue as int
    }

    /// The cycle bit that a valid TRB carries.
    pub closed spec fn cycle_spec(&self) -> bool {
        self.cycle_state
    }

    /// The segment table entry.
    pub closed spec fn segment_table_entry_spec(&self) -> EventRingSegmentTableEntry {
        self.segment_table_entry
    }

    /// The physical address of the segment table.
    pub closed spec fn segment_table_start_spec(&self) -> u64 {
        self.segment_table_start
    }

    /// Creates an event ring in the zeroed page at `ring_start`, with its segment table in the page at
    /// `segment_table_start`. The table's first entry describes the whole ring.
    pub fn new(ring_start: u64, segment_table_start: u64) -> (r: Self)
        requires
            is_ring_start(ring_start),
            is_ring_start(segment_table_start),
        ensures
            r.wf(),
            r.ring_start_spec() == ring_start,
            r.segment_table_start_spec() == segment_table_start,
            r.segment_table_entry_spec().base_address == ring_start,
            r.segment_table_entry_spec().ring_segment_size == SEGMENT_SIZE,
            r.dequeue_spec() == 0,
            r.cycle_spec(),
            forall|i: int| 0 <= i < SEGMENT_SIZE ==> #[trigger] r.trbs_spec()[i]@ == seq![0u32, 0u32, 0u32, 0u32],
    {
        let mut trbs: Vec<[u32; 4]> = Vec::new();
        let mut i: usize = 0;
        while i < TOTAL_LENGTH
            invariant
                i <= TOTAL_LENGTH,
                trbs.len() == i,
                forall|j: int| 0 <= j < i ==> #[trigger] trbs@[j]@ == seq![0u32, 0u32, 0u32, 0u32],
            decreases TOTAL_LENGTH - i,
        {
            let z: [u32; 4] = [0, 0, 0, 0];
            assert(z@ =~= seq![0u32, 0u32, 0u32, 0u32]);
            trbs.push(z);
            i = i + 1;
        }
        assert(ring_start % 64 == 0) by (bit_vector)
            requires
                ring_start % 4096 == 0,
        ;
        let segment_table_entry = EventRingSegmentTableEntry::new(ring_start, SEGMENT_SIZE);
        EventTrbRing { ring_start, trbs, segment_table_start, segment_table_entry, dequeue: 0, cycle_state: true }
    }

    /// Records a TRB that the controller wrote to slot `i` of the ring.
    pub fn record_controller_write(&mut self, i: usize, trb: [u32; 4])
        requires
            old(self).wf(),
            i < SEGMENT_SIZE,
        ensures
            final(self).wf(),
            final(self).trbs_spec() == old(self).trbs_spec().update(i as int, trb),
            final(self).ring_start_spec() == old(self).ring_start_spec(),
            final(self).dequeue_spec() == old(self).dequeue_spec(),
            final(self).cycle_spec() == old(self).cycle_spec(),
            final(self).segment_table_start_spec() == old(self).segment_table_start_spec(),
            final(self).segment_table_entry_spec() == old(self).segment_table_entry_spec(),
    {
        self.trbs.set(i, trb);
    }

    /// Reads the next TRB from the ring if the controller has written one (its cycle bit matches the
    /// ring's cycle state). Also returns the new dequeue address, the slot after the one read, which must
    /// be written to the event ring's dequeue register so that the controller can reuse the slot read.
    pub fn dequeue(&mut self) -> (r: Option<(EventTrb, u64)>)
        requires
            old(self).wf(),
            bit_is_set(old(self).trbs_spec()[old(self).dequeue_spec()][3], 0) == old(self).cycle_spec()
                ==> is_event_trb(old(self).trbs_spec()[old(self).dequeue_spec()]),
        ensures
            final(self).wf(),
            final(self).trbs_spec() == old(self).trbs_spec(),
            final(self).ring_start_spec() == old(self).ring_start_spec(),
            final(self).segment_table_start_spec() == old(self).segment_table_start_spec(),
            final(self).segment_table_entry_spec() == old(self).segment_table_entry_spec(),
            ({
                let raw = old(self).trbs_spec()[old(self).dequeue_spec()];
                if bit_is_set(raw[3], 0) == old(self).cycle_spec() {
                    &&& r == Some((event_of(raw), (old(self).ring_start_spec() + 16 * ((old(self).dequeue_spec() + 1)
                        % (SEGMENT_SIZE as int))) as u64))
                    &&& if old(self).dequeue_spec() + 1 == SEGMENT_SIZE {
                        final(self).dequeue_spec() == 0 && final(self).cycle_spec() == !old(self).cycle_spec()
                    } else {
                        final(self).dequeue_spec() == old(self).dequeue_spec() + 1
                            && final(self).cycle_spec() == old(self).cycle_spec()
                    }
                } else {
                    &&& r is None
                    &&& final(self).dequeue_spec() == old(self).dequeue_spec()
                    &&& final(self).cycle_spec() == old(self).cycle_spec()
                }
            }),
    {
        let raw = self.trbs[self.dequeue];
        if read_bit(raw[3], 0) == self.cycle_state {
            self.dequeue = self.dequeue + 1;
            if self.dequeue >= TOTAL_LENGTH {
                self.dequeue = 0;
                self.cycle_state = !self.cycle_state;
            }
            let addr = phys_addr_add(self.ring_start, (self.dequeue as u64) * 16);
            Some((EventTrb::new(raw), addr))
        } else {
            None
        }
    }

    /// The entry of the ring's segment table, to be stored in the table's page.
    pub fn segment_table_entry(&self) -> (r: EventRingSegmentTableEntry)
        ensures
            r == self.segment_table_entry_spec(),
    {
        self.segment_table_entry
    }

    /// The TRB in the slot that the next event is read from, and the cycle bit that marks it as
    /// written by the controller.
    pub fn next_slot(&self) -> (r: ([u32; 4], bool))
        requires
            self.wf(),
        ensures
            r.0 == self.trbs_spec()[self.dequeue_spec()],
            r.1 == self.cycle_spec(),
    {
        (self.trbs[self.dequeue], self.cycle_state)
    }

    /// The slot that the next event is read from.
    pub fn dequeue_index(&self) -> (r: usize)
        requires
            self.wf(),
        ensures
            r == self.dequeue_spec(),
            r < SEGMENT_SIZE,
    {
        self.dequeue
    }

    /// Gets the physical address of the start of the first segment of the ring.
    pub fn ring_start_addr(&self) -> (r: u64)
        ensures
            r == self.ring_start_spec(),
    {
        self.ring_start
    }

    /// Gets the index into the segment table of the segment where the ring starts.
    pub fn ring_start_segment(&self) -> (r: u16)
        ensures
            r == 0,
    {
        0
    }

    /// Gets the length of the ring in TRBs.
    pub fn ring_len(&self) -> (r: u16)
        ensures
            r == SEGMENT_SIZE,
    {
        SEGMENT_SIZE
    }

    /// Gets the physical address of the segment table.
    pub fn segment_table_start_addr(&self) -> (r: u64)
        ensures
            r == self.segment_table_start_spec(),
    {
        self.segment_table_start
    }

    /// Gets the number of entries in the segment table.
    pub fn segment_table_len(&self) -> (r: u16)
        ensures
            r == 1,
    {
        1
    }
}

} // verus!
