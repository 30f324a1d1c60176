//! The doorbell registers of an xHCI controller, written by software to tell the controller
//! that a ring has new work on it.
use vstd::prelude::*;
use crate::bitfield::{get_bits, read_bits, set_bits, write_bits};

verus! {

/// Which endpoint within the slot a doorbell write is targeting.
#[derive(Debug, Clone, Copy, PartialEq, Eq)]
pub enum DoorbellTarget {
    /// An update of the control endpoint's dequeue pointer.
    ControlEndpoint,
    /// An update of an OUT endpoint's dequeue pointer. The endpoint number is 1-based, at most 15.
    OutEndpoint(u8),
    /// An update of an IN endpoint's dequeue pointer. The endpoint number is 1-based, at most 15.
    InEndpoint(u8),
    /// Reserved
    Reserved(u8),
    /// Vendor defined
    VendorDefined(u8),
}

/// The byte that the controller understands for `t`.
pub open spec fn doorbell_byte(t: DoorbellTarget) -> u8 {
    match t {
        DoorbellTarget::ControlEndpoint => 1,
        DoorbellTarget::OutEndpoint(ep) => (ep * 2) as u8,
        DoorbellTarget::InEndpoint(ep) => (ep * 2 + 1) as u8,
        DoorbellTarget::Reserved(v) => v,
        DoorbellTarget::VendorDefined(v) => v,
    }
}

/// Whether `t` may be written to a doorbell: endpoint numbers from 1 to 15, reserved values 0 and
/// 32 to 247, vendor-defined values from 248.
pub open spec fn doorbell_target_writable(t: DoorbellTarget) -> bool {
    match t {
        DoorbellTarget::ControlEndpoint => true,
        DoorbellTarget::OutEndpoint(ep) => 1 <= ep <= 15,
        DoorbellTarget::InEndpoint(ep) => 1 <= ep <= 15,
        DoorbellTarget::Reserved(v) => v == 0 || (32 <= v <= 247),
        DoorbellTarget::VendorDefined(v) => v >= 248,
    }
}

/// The target that a doorbell byte is read as: from 2 to 31, an even byte is an OUT endpoint and an odd
/// byte an IN endpoint, numbered by half the byte.
pub open spec fn doorbell_target_of(b: u8) -> DoorbellTarget {
    if b == 1 {
        DoorbellTarget::ControlEndpoint
    } else if 2 <= b <= 31 && b % 2 == 0 {
        DoorbellTarget::OutEndpoint(b / 2)
    } else if 2 <= b <= 31 {
        DoorbellTarget::InEndpoint(b / 2)
    } else if b <= 247 {
        DoorbellTarget::Reserved(b)
    } else {
        DoorbellTarget::VendorDefined(b)
    }
}

impl DoorbellTarget {
    /// Gets the target as the byte value understood by the controller.
    pub fn to_byte(self) -> (r: u8)
        requires
            doorbell_target_writable(self),
        ensures
            r == doorbell_byte(self),
    {
        match self {
            DoorbellTarget::ControlEndpoint => 1,
            DoorbellTarget::OutEndpoint(ep) => ep * 2,
            DoorbellTarget::InEndpoint(ep) => ep * 2 + 1,
            DoorbellTarget::Reserved(v) => v,
            DoorbellTarget::VendorDefined(v) => v,
        }
    }

    /// Parses a target from the byte value understood by the controller.
    pub fn from_byte(byte: u8) -> (r: Self)
        ensures
            r == doorbell_target_of(byte),
    {
        if byte == 1 {
            DoorbellTarget::ControlEndpoint
        } else if 2 <= byte && byte <= 31 && byte % 2 == 0 {
            DoorbellTarget::OutEndpoint(byte / 2)
        } else if 2 <= byte && byte <= 31 {
            DoorbellTarget::InEndpoint(byte / 2)
        } else if byte <= 247 {
            DoorbellTarget::Reserved(byte)
        } else {
            DoorbellTarget::VendorDefined(byte)
        }
    }

    /// Constructs a target from its bit representation: the low 8 bits.
    pub fn from_bits(bits: u32) -> (r: Self)
        ensures
            r == doorbell_target_of(bits as u8),
    {
        Self::from_byte(bits as u8)
    }

    /// Converts a target into its bit representation.
    pub fn into_bits(self) -> (r: u32)
        requires
            doorbell_target_writable(self),
        ensures
            r == doorbell_byte(self) as u32,
    {
        self.to_byte() as u32
    }
}

/// Reading back the byte of a writable target gives the same target.
pub proof fn lemma_doorbell_target_roundtrip(t: DoorbellTarget)
    requires
        doorbell_target_writable(t),
    ensures
        doorbell_target_of(doorbell_byte(t)) == t,
{
}

/// Every byte is the byte of the target it is read as.
pub proof fn lemma_doorbell_byte_roundtrip(b: u8)
    ensures
        doorbell_target_writable(doorbell_target_of(b)),
        doorbell_byte(doorbell_target_of(b)) == b,
{
}

/// The lowest bit of the doorbell target field.
pub const DOORBELL_TARGET_LO: u32 = 0;
/// The lowest bit of the doorbell task id field.
pub const DOORBELL_TASK_ID_LO: u32 = 16;

/// One 32-bit doorbell register: the target in bits 0 to 7 and the stream id in bits 16 to 31.
#[derive(Debug, Clone, Copy, PartialEq, Eq)]
pub struct DoorbellArrayEntry {
    bits: u32,
}

impl View for DoorbellArrayEntry {
    type V = u32;

    closed spec fn view(&self) -> u32 {
        self.bits
    }
}

impl DoorbellArrayEntry {
    /// An entry with every bit clear.
    pub fn new() -> (r: Self)
        ensures
            r@ == 0,
    {
        DoorbellArrayEntry { bits: 0 }
    }

    /// Constructs an entry from its bit representation.
    pub fn from_bits(bits: u32) -> (r: Self)
        ensures
            r@ == bits,
    {
        DoorbellArrayEntry { bits }
    }

    /// The entry's bit representation.
    pub fn into_bits(self) -> (r: u32)
        ensures
            r == self@,
    {
        self.bits
    }

    /// The doorbell target.
    pub fn target(&self) -> (r: DoorbellTarget)
        ensures
            r == doorbell_target_of(get_bits(self@, DOORBELL_TARGET_LO, 8) as u8),
    {
        DoorbellTarget::from_bits(read_bits(self.bits, DOORBELL_TARGET_LO, 8))
    }

    /// The entry with its target replaced.
    pub fn with_target(self, target: DoorbellTarget) -> (r: Self)
        requires
            doorbell_target_writable(target),
        ensures
            r@ == set_bits(self@, DOORBELL_TARGET_LO, 8, doorbell_byte(target) as u32),
    {
        DoorbellArrayEntry { bits: write_bits(self.bits, DOORBELL_TARGET_LO, 8, target.into_bits()) }
    }

    /// The stream id of the doorbell write.
    pub fn task_id(&self) -> (r: u16)
        ensures
            r == get_bits(self@, DOORBELL_TASK_ID_LO, 16),
    {
        read_bits(self.bits, DOORBELL_TASK_ID_LO, 16) as u16
    }

    /// The entry with its stream id replaced.
    pub fn with_task_id(self, task_id: u16) -> (r: Self)
        ensures
            r@ == set_bits(self@, DOORBELL_TASK_ID_LO, 16, task_id as u32),
    {
        DoorbellArrayEntry { bits: write_bits(self.bits, DOORBELL_TASK_ID_LO, 16, task_id as u32) }
    }
}

/// The host controller doorbell: the first doorbell register. A write of 0 to it tells the
/// controller that there is a TRB to be processed on the command ring.
#[derive(Debug)]
pub struct HostControllerDoorbell {
    reg: u32,
}

impl View for HostControllerDoorbell {
    type V = u32;

    closed spec fn view(&self) -> u32 {
        self.reg
    }
}

impl HostControllerDoorbell {
    /// Rings the doorbell.
    pub fn ring(&mut self)
        ensures
            final(self)@ == 0,
    {
        self.reg = 0;
    }
}

/// The doorbell registers of the controller: the host controller doorbell, then one 32-bit
/// register per device slot. This holds the values last written to them.
#[derive(Debug)]
pub struct DoorbellRegisters {
    host: HostControllerDoorbell,
    slots: Vec<u32>,
}

impl View for DoorbellRegisters {
    type V = Seq<u32>;

    /// The registers in order, the host controller doorbell first.
    closed spec fn view(&self) -> Seq<u32> {
        seq![self.host@].add(self.slots@)
    }
}

impl DoorbellRegisters {
    /// Doorbell registers for a controller with `max_device_slots` registers, every register clear.
    pub fn new(max_device_slots: usize) -> (r: Self)
        requires
            1 < max_device_slots,
        ensures
            r@ == Seq::new(max_device_slots as nat, |i: int| 0u32),
    {
        let mut slots: Vec<u32> = Vec::new();
        while slots.len() < max_device_slots - 1
            invariant
                max_device_slots > 1,
                slots.len() <= max_device_slots - 1,
                forall|i: int| 0 <= i < slots.len() ==> slots@[i] == 0,
            decreases max_device_slots - slots.len(),
        {
            slots.push(0);
        }
        let r = DoorbellRegisters { host: HostControllerDoorbell { reg: 0 }, slots };
        assert(r@ =~= Seq::new(max_device_slots as nat, |i: int| 0u32));
        r
    }

    /// The number of doorbell registers.
    pub fn len(&self) -> (r: usize)
        requires
            self@.len() <= usize::MAX,
        ensures
            r == self@.len(),
    {
        self.slots.len() + 1
    }

    /// Gets the host controller doorbell.
    pub fn host_controller_doorbell(&mut self) -> (r: &mut HostControllerDoorbell)
        ensures
            r@ == old(self)@[0],
            final(self)@ == old(self)@.update(0, final(r)@),
    {
        proof {
            assert(old(self)@[0] == old(self).host@);
        }
        &mut self.host
    }
}

} // verus!
