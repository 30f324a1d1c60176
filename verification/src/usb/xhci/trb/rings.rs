//! The command and transfer TRB rings, which software fills and the controller consumes.
use vstd::prelude::*;
use crate::addr::{is_phys_addr, phys_addr_add, phys_addr_sub};
use crate::bitfield::{bit_is_set, get_bits, lemma_get_set_other, set_bit};
use super::command::{CommandTrb, command_trb_encodable, command_trb_parts};
use super::link::{LinkTrb, link_flags_default, link_flags_of, pointer_trb_parts};
use super::RingFullError;

verus! {

/// The total number of TRB slots in a ring (one page of 16-byte TRBs), including the link TRB.
pub const TOTAL_LENGTH: usize = 256;
/// The number of slots that can hold TRBs other than the final link TRB.
pub const USABLE_LENGTH: usize = 255;

/// The number of TRBs between the dequeue index `d` and the enqueue index `e`,
/// counting around the usable part of the ring.
pub open spec fn trbs_between(e: int, d: int) -> int {
    if e == d {
        0
    } else if e > d {
        e - d
    } else {
        USABLE_LENGTH - d + e
    }
}

/// The number of TRBs in a ring waiting for the controller: every usable slot when the ring is full,
/// otherwise those from the dequeue index up to the enqueue index.
pub open spec fn trbs_in_buffer_of(ring: SoftwareDrivenTrbRing) -> int {
    if ring.full_spec() {
        USABLE_LENGTH as int
    } else {
        trbs_between(ring.enqueue_spec(), ring.dequeue_spec())
    }
}

/// The enqueue index after the one at `e`: the next usable slot, back to the first after the last.
pub open spec fn next_enqueue(e: int) -> int {
    if e + 1 == USABLE_LENGTH {
        0
    } else {
        e + 1
    }
}

/// The dequeue index that results from the controller acknowledging the TRB at `addr`
/// in a ring starting at `start`: one slot on from the acknowledged TRB.
pub open spec fn dequeue_after_ack(start: u64, addr: u64) -> int {
    ((addr - start) / 16 + 1) % (TOTAL_LENGTH as int)
}

/// The link TRB written at the end of a ring starting at `start`: it points back at the start
/// of the ring, toggles the cycle state, does not chain, and carries the cycle bit `cycle`.
pub open spec fn ring_link_trb_parts(start: u64, cycle: bool) -> Seq<u32> {
    pointer_trb_parts(start, 0, set_bit(link_flags_of(cycle, true, false), 0, cycle))
}

/// Whether `start` can be the start of a ring: a page-aligned physical address of a whole page.
pub open spec fn is_ring_start(start: u64) -> bool {
    start % 0x1000 == 0 && start + 0x1000 <= 0x10_0000_0000_0000
}

/// The link flags built for the ring's link TRB keep the `Link` TRB type, and setting the cycle
/// bit leaves the cycle bit equal to `cycle`.
proof fn lemma_ring_link_flags(cycle: bool)
    ensures
        get_bits(link_flags_of(cycle, true, false), 10, 6) == 6,
        bit_is_set(set_bit(link_flags_of(cycle, true, false), 0, cycle), 0) == cycle,
{
    let f0 = link_flags_default();
    assert(get_bits(6u32 << 10, 10, 6) == 6) by (bit_vector);
    let f1 = set_bit(f0, 0, cycle);
    let f2 = set_bit(f1, 1, true);
    let f3 = set_bit(f2, 4, false);
    let f4 = set_bit(f3, 5, true);
    lemma_get_set_other(f0, 0, 1, if cycle { 1 } else { 0 }, 10, 6);
    lemma_get_set_other(f1, 1, 1, 1, 10, 6);
    lemma_get_set_other(f2, 4, 1, 0, 10, 6);
    lemma_get_set_other(f3, 5, 1, 1, 10, 6);
    crate::bitfield::lemma_set_bit_reads_back(f4, 0, cycle);
}

/// Whether `new` is the ring `old` after one TRB whose dwords are `parts` was enqueued: the TRB is in the
/// slot that was the enqueue slot, every other usable slot is unchanged, and the enqueue index moves on
/// by one, except that filling the last usable slot writes the link TRB, moves the enqueue index back to
/// the start and flips the cycle state.
pub open spec fn enqueued(old: SoftwareDrivenTrbRing, new: SoftwareDrivenTrbRing, parts: Seq<u32>) -> bool {
    let e = old.enqueue_spec();
    &&& new.start_spec() == old.start_spec()
    &&& new.dequeue_spec() == old.dequeue_spec()
    &&& new.trbs_spec().len() == old.trbs_spec().len()
    &&& new.trbs_spec()[e]@ == parts
    &&& trbs_in_buffer_of(new) == trbs_in_buffer_of(old) + 1
    &&& forall|k: int|
        0 <= k < old.trbs_spec().len() && k != e && k != USABLE_LENGTH ==> #[trigger] new.trbs_spec()[k]
            == old.trbs_spec()[k]
    &&& if e + 1 == USABLE_LENGTH {
        &&& new.trbs_spec()[USABLE_LENGTH as int]@ == ring_link_trb_parts(old.start_spec(), old.cycle_spec())
        &&& new.enqueue_spec() == 0
        &&& new.cycle_spec() == !old.cycle_spec()
    } else {
        &&& new.trbs_spec()[USABLE_LENGTH as int] == old.trbs_spec()[USABLE_LENGTH as int]
        &&& new.enqueue_spec() == e + 1
        &&& new.cycle_spec() == old.cycle_spec()
    }
}

/// A ring of TRBs which software writes and the controller reads: the common implementation of
/// [`CommandTrbRing`] and [`TransferTrbRing`].
///
/// The ring occupies one page at physical address `start`, whose contents are held in `trbs`.
/// The last slot always holds a link TRB back to the start of the ring once software has wrapped.
#[derive(Debug)]
pub struct SoftwareDrivenTrbRing {
    /// The physical address of the page where the ring is in memory
    start: u64,
    /// The contents of the ring's page, one entry per TRB slot
    trbs: Vec<[u32; 4]>,
    /// The index into the ring to write new TRBs
    enqueue: usize,
    /// The value of `cycle` to write for new TRBs
    cycle_state: bool,
    /// The index where the controller is reading TRBs, as last acknowledged by a command completion event
    dequeue: usize,
    /// Whether every usable slot holds a TRB that the controller has not processed: the enqueue index has
    /// caught up with the dequeue index from behind
    full: bool,
}

impl SoftwareDrivenTrbRing {
    /// The ring's invariant.
    pub closed spec fn wf(&self) -> bool {
        &&& self.layout_ok()
        &&& self.enqueue < USABLE_LENGTH
        &&& self.full ==> (self.enqueue as int) == (self.dequeue as int) % (USABLE_LENGTH as int)
    }

    /// Whether every usable slot holds a TRB that the controller has not processed.
    pub closed spec fn full_spec(&self) -> bool {
        self.full
    }

    /// The part of the invariant that holds at every point, even while the enqueue index is being moved on.
    closed spec fn layout_ok(&self) -> bool {
        &&& self.trbs.len() == TOTAL_LENGTH
        &&& self.dequeue < TOTAL_LENGTH
        &&& is_ring_start(self.start)
    }

    /// The physical address of the ring.
    pub closed spec fn start_spec(&self) -> u64 {
        self.start
    }

    /// The contents of the ring's slots.
    pub closed spec fn trbs_spec(&self) -> Seq<[u32; 4]> {
        self.trbs@
    }

    /// The index of the slot where the next TRB will be written.
    pub closed spec fn enqueue_spec(&self) -> int {
        self.enqueue as int
    }

    /// The index of the slot that the controller reads next.
    pub closed spec fn dequeue_spec(&self) -> int {
        self.dequeue as int
    }

    /// The cycle bit written into new TRBs.
    pub closed spec fn cycle_spec(&self) -> bool {
        self.cycle_state
    }

    /// Allocates a new ring in the zeroed page at physical address `start`.
    pub fn new(start: u64) -> (r: Self)
        requires
            is_ring_start(start),
        ensures
            r.wf(),
            r.start_spec() == start,
            forall|i: int| 0 <= i < TOTAL_LENGTH ==> #[trigger] r.trbs_spec()[i]@ == seq![0u32, 0u32, 0u32, 0u32],
            r.enqueue_spec() == 0,
            r.dequeue_spec() == 0,
            r.cycle_spec(),
            !r.full_spec(),
    {
        let mut trbs: Vec<[u32; 4]> = Vec::new();
        let mut i: usize = 0;
        while i < TOTAL_LENGTH
            invariant
                i <= TOTAL_LENGTH,
                trbs.len() == i,
                forall|j: int| 0 <= j < i ==> #[trigger] trbs@[j]@ == seq![0u32, 0u32, 0u32, 0u32],
            decreases TOTAL_LENGTH - i,
        {
            let z: [u32; 4] = [0, 0, 0, 0];
            assert(z@ =~= seq![0u32, 0u32, 0u32, 0u32]);
            trbs.push(z);
            i = i + 1;
        }
        SoftwareDrivenTrbRing { start, trbs, enqueue: 0, cycle_state: true, dequeue: 0, full: false }
    }

    /// Gets the physical address of the start of the ring.
    pub fn ring_start_addr(&self) -> (r: u64)
        ensures
            r == self.start_spec(),
    {
        self.start
    }

    /// The TRB held in slot `i` of the ring's page.
    pub fn read_trb(&self, i: usize) -> (r: [u32; 4])
        requires
            self.wf(),
            i < TOTAL_LENGTH,
        ensures
            r == self.trbs_spec()[i as int],
    {
        self.trbs[i]
    }

    /// Writes the given data to the TRB slot at `i`.
    fn write(&mut self, i: usize, value: [u32; 4])
        requires
            old(self).layout_ok(),
            i < TOTAL_LENGTH,
            bit_is_set(value[3], 0) == old(self).cycle_spec(),
        ensures
            final(self).layout_ok(),
            final(self).trbs_spec() == old(self).trbs_spec().update(i as int, value),
            final(self).start_spec() == old(self).start_spec(),
            final(self).enqueue_spec() == old(self).enqueue_spec(),
            final(self).dequeue_spec() == old(self).dequeue_spec(),
            final(self).cycle_spec() == old(self).cycle_spec(),
            final(self).full_spec() == old(self).full_spec(),
    {
        self.trbs.set(i, value);
    }

    /// Writes the link TRB at the end of the ring, pointing back at its start.
    /// This may only happen when software has filled every usable slot.
    fn write_link_trb(&mut self)
        requires
            old(self).layout_ok(),
            old(self).enqueue_spec() >= old(self).dequeue_spec(),
            old(self).enqueue_spec() == TOTAL_LENGTH - 1,
        ensures
            final(self).layout_ok(),
            final(self).trbs_spec() == old(self).trbs_spec().update(
                USABLE_LENGTH as int,
                final(self).trbs_spec()[USABLE_LENGTH as int],
            ),
            final(self).trbs_spec()[USABLE_LENGTH as int]@ == ring_link_trb_parts(
                old(self).start_spec(),
                old(self).cycle_spec(),
            ),
            final(self).start_spec() == old(self).start_spec(),
            final(self).enqueue_spec() == old(self).enqueue_spec(),
            final(self).dequeue_spec() == old(self).dequeue_spec(),
            final(self).cycle_spec() == old(self).cycle_spec(),
            final(self).full_spec() == old(self).full_spec(),
    {
        let link = LinkTrb::new(self.start, self.cycle_state, true, false);
        proof {
            lemma_ring_link_flags(self.cycle_state);
        }
        let parts = CommandTrb::Link(link).to_parts(self.cycle_state);
        self.write(USABLE_LENGTH, parts);
    }

    /// Returns the number of TRBs currently in the buffer to be processed by the controller.
    /// This value is only accurate if the dequeue index is up to date.
    pub fn trbs_in_buffer(&self) -> (r: usize)
        requires
            self.wf(),
        ensures
            r == trbs_in_buffer_of(*self),
            r <= USABLE_LENGTH,
    {
        if self.full {
            USABLE_LENGTH
        } else if self.enqueue == self.dequeue {
            0
        } else if self.enqueue > self.dequeue {
            self.enqueue - self.dequeue
        } else {
            USABLE_LENGTH - self.dequeue + self.enqueue
        }
    }

    /// Returns the number of TRB slots which are currently owned by the OS.
    /// This value is only accurate if the dequeue index is up to date.
    pub fn free_space(&self) -> (r: usize)
        requires
            self.wf(),
        ensures
            r == USABLE_LENGTH - trbs_in_buffer_of(*self),
    {
        USABLE_LENGTH - self.trbs_in_buffer()
    }

    /// Writes a TRB, given as the four dwords to store, to the ring, and returns its physical address.
    /// The controller must be told separately (by ringing a doorbell) to process it.
    ///
    /// When the last usable slot is filled, the link TRB is written, the enqueue index goes back to
    /// the start and the cycle state flips. A ring with no free space is left as it is and gives
    /// [`RingFullError`].
    pub fn enqueue_parts(&mut self, parts: [u32; 4]) -> (r: Result<u64, RingFullError>)
        requires
            old(self).wf(),
            bit_is_set(parts[3], 0) == old(self).cycle_spec(),
        ensures
            final(self).wf(),
            final(self).start_spec() == old(self).start_spec(),
            final(self).dequeue_spec() == old(self).dequeue_spec(),
            r is Err <==> trbs_in_buffer_of(*old(self)) == USABLE_LENGTH,
            r is Err ==> *final(self) == *old(self),
            r matches Ok(addr) ==> {
                &&& addr == old(self).start_spec() + 16 * old(self).enqueue_spec()
                &&& enqueued(*old(self), *final(self), parts@)
                &&& final(self).trbs_spec()[old(self).enqueue_spec()] == parts
                &&& if old(self).enqueue_spec() + 1 == USABLE_LENGTH {
                    &&& final(self).trbs_spec() == old(self).trbs_spec().update(old(self).enqueue_spec(), parts).update(
                        USABLE_LENGTH as int,
                        final(self).trbs_spec()[USABLE_LENGTH as int],
                    )
                    &&& final(self).trbs_spec()[USABLE_LENGTH as int]@ == ring_link_trb_parts(
                        old(self).start_spec(),
                        old(self).cycle_spec(),
                    )
                    &&& final(self).enqueue_spec() == 0
                    &&& final(self).cycle_spec() == !old(self).cycle_spec()
                } else {
                    &&& final(self).trbs_spec() == old(self).trbs_spec().update(old(self).enqueue_spec(), parts)
                    &&& final(self).enqueue_spec() == old(self).enqueue_spec() + 1
                    &&& final(self).cycle_spec() == old(self).cycle_spec()
                }
            },
    {
        if self.free_space() == 0 {
            return Err(RingFullError);
        }
        proof {
            lemma_enqueue_grows_buffer(self.enqueue as int, self.dequeue as int);
        }
        let trb_addr = phys_addr_add(self.start, (self.enqueue as u64) * 16);
        let index = self.enqueue;
        self.write(index, parts);
        self.enqueue = self.enqueue + 1;
        if self.enqueue == USABLE_LENGTH {
            self.write_link_trb();
            self.enqueue = 0;
            self.cycle_state = !self.cycle_state;
        }
        self.full = self.enqueue == self.dequeue % USABLE_LENGTH;
        Ok(trb_addr)
    }

    /// Updates the ring's dequeue index after the controller has acknowledged the TRB at `dequeue`.
    /// The acknowledged TRB has been processed, so the ring is no longer full.
    pub fn update_dequeue(&mut self, dequeue: u64)
        requires
            old(self).wf(),
            is_phys_addr(dequeue),
            old(self).start_spec() <= dequeue,
            (dequeue - old(self).start_spec()) / 16 < USABLE_LENGTH,
        ensures
            final(self).wf(),
            final(self).dequeue_spec() == dequeue_after_ack(old(self).start_spec(), dequeue),
            final(self).start_spec() == old(self).start_spec(),
            final(self).trbs_spec() == old(self).trbs_spec(),
            final(self).enqueue_spec() == old(self).enqueue_spec(),
            final(self).cycle_spec() == old(self).cycle_spec(),
            !final(self).full_spec(),
    {
        let acknowledged = (phys_addr_sub(dequeue, self.start) / 16) as usize;
        self.dequeue = (acknowledged + 1) % TOTAL_LENGTH;
        self.full = false;
    }
}

/// The number of TRBs in the ring and the free space always add up to the ring's usable length.
pub proof fn lemma_free_space_complements(e: int, d: int)
    requires
        0 <= e < USABLE_LENGTH,
        0 <= d < TOTAL_LENGTH,
    ensures
        0 <= trbs_between(e, d) < USABLE_LENGTH,
        (USABLE_LENGTH - trbs_between(e, d)) + trbs_between(e, d) == USABLE_LENGTH,
{
}

/// Moving the enqueue index on by one catches up with the dequeue index exactly when the buffer
/// held all but one usable slot; otherwise the buffer holds exactly one more TRB.
pub proof fn lemma_enqueue_grows_buffer(e: int, d: int)
    requires
        0 <= e < USABLE_LENGTH,
        0 <= d < TOTAL_LENGTH,
    ensures
        (next_enqueue(e) == d % (USABLE_LENGTH as int)) == (trbs_between(e, d) + 1 == USABLE_LENGTH),
        next_enqueue(e) != d % (USABLE_LENGTH as int) ==> trbs_between(next_enqueue(e), d) == trbs_between(e, d) + 1,
{
}

/// Once the controller acknowledges the TRB that was enqueued last, the ring holds no TRBs
/// waiting to be processed.
pub proof fn lemma_ack_of_last_empties(start: u64, e: int)
    requires
        0 <= e < USABLE_LENGTH,
        is_ring_start(start),
    ensures
        trbs_between(
            if e + 1 == USABLE_LENGTH { 0 } else { e + 1 },
            dequeue_after_ack(start, (start + 16 * e) as u64),
        ) == 0,
{
    let a = (start + 16 * e) as u64;
    assert(a == start + 16 * e);
    assert((a - start) / 16 == e);
    assert(dequeue_after_ack(start, a) == e + 1);
}

/// The _Command TRB Ring_, which holds [`CommandTrb`]s for the controller to execute.
#[derive(Debug)]
pub struct CommandTrbRing(pub SoftwareDrivenTrbRing);

impl CommandTrbRing {
    /// The total length of the command ring including the link TRB
    pub const TOTAL_LENGTH: usize = TOTAL_LENGTH;

    /// Creates a command ring in the zeroed page at physical address `start`.
    pub fn new(start: u64) -> (r: Self)
        requires
            is_ring_start(start),
        ensures
            r.0.wf(),
            r.0.start_spec() == start,
            r.0.enqueue_spec() == 0,
            r.0.dequeue_spec() == 0,
            r.0.cycle_spec(),
            !r.0.full_spec(),
    {
        CommandTrbRing(SoftwareDrivenTrbRing::new(start))
    }

    /// Gets the physical address of the start of the ring.
    pub fn ring_start_addr(&self) -> (r: u64)
        ensures
            r == self.0.start_spec(),
    {
        self.0.ring_start_addr()
    }

    /// Writes a command to the ring with the ring's current cycle bit, and returns its physical address.
    /// This does not ring the host controller doorbell.
    pub fn enqueue(&mut self, trb: CommandTrb) -> (r: Result<u64, RingFullError>)
        requires
            old(self).0.wf(),
            command_trb_encodable(trb),
        ensures
            final(self).0.wf(),
            final(self).0.start_spec() == old(self).0.start_spec(),
            final(self).0.dequeue_spec() == old(self).0.dequeue_spec(),
            r is Err <==> trbs_in_buffer_of(old(self).0) == USABLE_LENGTH,
            r is Err ==> *final(self) == *old(self),
            r matches Ok(addr) ==> {
                &&& addr == old(self).0.start_spec() + 16 * old(self).0.enqueue_spec()
                &&& enqueued(old(self).0, final(self).0, command_trb_parts(trb, old(self).0.cycle_spec()))
            },
    {
        let cycle = self.0.cycle_state;
        let parts = trb.to_parts(cycle);
        proof {
            lemma_command_parts_cycle(trb, cycle);
        }
        self.0.enqueue_parts(parts)
    }

    /// Updates the ring's dequeue index from the command TRB pointer of a command completion event.
    pub fn update_dequeue(&mut self, dequeue: u64)
        requires
            old(self).0.wf(),
            is_phys_addr(dequeue),
            old(self).0.start_spec() <= dequeue,
            (dequeue - old(self).0.start_spec()) / 16 < USABLE_LENGTH,
        ensures
            final(self).0.wf(),
            final(self).0.dequeue_spec() == dequeue_after_ack(old(self).0.start_spec(), dequeue),
            final(self).0.enqueue_spec() == old(self).0.enqueue_spec(),
            final(self).0.trbs_spec() == old(self).0.trbs_spec(),
            final(self).0.start_spec() == old(self).0.start_spec(),
            final(self).0.cycle_spec() == old(self).0.cycle_spec(),
            !final(self).0.full_spec(),
    {
        self.0.update_dequeue(dequeue)
    }
}

/// The encoding of a command carries the requested cycle bit.
proof fn lemma_command_parts_cycle(t: CommandTrb, cycle: bool)
    requires
        command_trb_encodable(t),
    ensures
        bit_is_set(command_trb_parts(t, cycle)[3], 0) == cycle,
{
    match t {
        CommandTrb::Link(l) => crate::bitfield::lemma_set_bit_reads_back(l.flags@, 0, cycle),
        CommandTrb::EnableSlot(e) => crate::bitfield::lemma_set_bit_reads_back(e@, 0, cycle),
        CommandTrb::DisableSlot(d) => crate::bitfield::lemma_set_bit_reads_back(d@, 0, cycle),
        _ => {
            crate::bitfield::lemma_set_bit_reads_back(0, 0, cycle);
            lemma_get_set_other(set_bit(0, 0, cycle), 10, 6, 23, 0, 1);
        },
    }
}

/// A TRB on a transfer ring, telling the controller how to send or receive data.
#[derive(Debug, Clone, Copy)]
pub enum TransferTrb {
    SetupStage,
    DataStage,
    StatusStage,
    Isoch,
    Link(LinkTrb),
    EventData,
    NoOp,
}

impl TransferTrb {
    /// Converts the TRB to the data written to a TRB ring. Only link TRBs have an encoding.
    pub fn to_parts(&self, cycle: bool) -> (r: [u32; 4])
        requires
            self matches TransferTrb::Link(l) && l.pointer % 16 == 0,
        ensures
            self matches TransferTrb::Link(l) && r@ == pointer_trb_parts(l.pointer, l.config@, set_bit(l.flags@, 0, cycle)),
    {
        match self {
            TransferTrb::Link(link) => link.to_parts(cycle),
            _ => [0, 0, 0, 0],
        }
    }

    /// The chain bit of the TRB. Only link TRBs have one.
    pub fn chain(&self) -> (r: bool)
        requires
            self is Link,
        ensures
            self matches TransferTrb::Link(l) && r == bit_is_set(l.flags@, 4),
    {
        match self {
            TransferTrb::Link(link) => link.chain(),
            _ => false,
        }
    }
}

/// The _Transfer TRB Ring_, which holds [`TransferTrb`]s for the controller to execute.
#[derive(Debug)]
pub struct TransferTrbRing(pub SoftwareDrivenTrbRing);

impl TransferTrbRing {
    /// The total length of the ring including the link TRB
    pub const TOTAL_LENGTH: usize = TOTAL_LENGTH;

    /// Creates a transfer ring in the zeroed page at physical address `start`.
    pub fn new(start: u64) -> (r: Self)
        requires
            is_ring_start(start),
        ensures
            r.0.wf(),
            r.0.start_spec() == start,
            r.0.enqueue_spec() == 0,
            r.0.dequeue_spec() == 0,
            r.0.cycle_spec(),
            !r.0.full_spec(),
    {
        TransferTrbRing(SoftwareDrivenTrbRing::new(start))
    }

    /// Gets the physical address of the start of the ring.
    pub fn ring_start_addr(&self) -> (r: u64)
        ensures
            r == self.0.start_spec(),
    {
        self.0.ring_start_addr()
    }

    /// Writes a transfer TRB to the ring with the ring's current cycle bit, and returns its physical address.
    pub fn enqueue(&mut self, trb: TransferTrb) -> (r: Result<u64, RingFullError>)
        requires
            old(self).0.wf(),
            trb matches TransferTrb::Link(l) && l.pointer % 16 == 0,
        ensures
            final(self).0.wf(),
            r is Err <==> trbs_in_buffer_of(old(self).0) == USABLE_LENGTH,
            r is Err ==> *final(self) == *old(self),
            r matches Ok(addr) ==> addr == old(self).0.start_spec() + 16 * old(self).0.enqueue_spec(),
            r matches Ok(addr) ==> trb matches TransferTrb::Link(l) && enqueued(
                old(self).0,
                final(self).0,
                pointer_trb_parts(l.pointer, l.config@, set_bit(l.flags@, 0, old(self).0.cycle_spec())),
            ),
    {
        let cycle = self.0.cycle_state;
        let parts = trb.to_parts(cycle);
        proof {
            if let TransferTrb::Link(l) = trb {
                crate::bitfield::lemma_set_bit_reads_back(l.flags@, 0, cycle);
            }
        }
        self.0.enqueue_parts(parts)
    }

    /// Updates the ring's dequeue index from the pointer in a completion event.
    pub fn update_dequeue(&mut self, dequeue: u64)
        requires
            old(self).0.wf(),
            is_phys_addr(dequeue),
            old(self).0.start_spec() <= dequeue,
            (dequeue - old(self).0.start_spec()) / 16 < USABLE_LENGTH,
        ensures
            final(self).0.wf(),
            final(self).0.dequeue_spec() == dequeue_after_ack(old(self).0.start_spec(), dequeue),
            final(self).0.enqueue_spec() == old(self).0.enqueue_spec(),
            final(self).0.trbs_spec() == old(self).0.trbs_spec(),
            final(self).0.start_spec() == old(self).0.start_spec(),
            final(self).0.cycle_spec() == old(self).0.cycle_spec(),
            !final(self).0.full_spec(),
    {
        self.0.update_dequeue(dequeue)
    }
}

} // verus!
