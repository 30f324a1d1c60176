//! The decisions of enumerating the PCI buses: whether a function is present and what it is,
//! which functions of a device are looked at, and the order in which buses are scanned.
use vstd::prelude::*;
use crate::pci::classcodes::{class_code_result, ClassCode};
use crate::pci::registers::{HeaderType, PciDeviceId, PciHeader};
use std::collections::VecDeque;

verus! {

/// Identifies the function whose first configuration register is `reg0` and third is `reg2`:
/// `None` where no function is present (a vendor of `0xffff`), otherwise its vendor and device ids
/// and its class code (class in the top byte of `reg2`, then subclass, then programming interface).
/// A present function must have a known class code.
pub fn identify_function(reg0: u32, reg2: u32) -> (r: Option<(PciDeviceId, ClassCode)>)
    requires
        reg0 % 0x1_0000 != 0xffff ==> class_code_result(
            (reg2 / 0x100_0000) as u8,
            ((reg2 / 0x1_0000) % 0x100) as u8,
            ((reg2 / 0x100) % 0x100) as u8,
        ) is Ok,
    ensures
        reg0 % 0x1_0000 == 0xffff ==> r is None,
        reg0 % 0x1_0000 != 0xffff ==> (r matches Some((id, class)) && id.vendor == reg0 % 0x1_0000 && id.device
            == reg0 / 0x1_0000 && Ok::<ClassCode, crate::pci::classcodes::InvalidValueError>(class) == class_code_result(
            (reg2 / 0x100_0000) as u8,
            ((reg2 / 0x1_0000) % 0x100) as u8,
            ((reg2 / 0x100) % 0x100) as u8,
        )),
{
    let (vendor_id, device_id) = crate::pci::split_to_u16(reg0);
    if vendor_id == 0xffff {
        return None;
    }
    let (_, prog_if, subclass, class_code) = crate::pci::split_to_u8(reg2);
    match ClassCode::new(class_code, subclass, prog_if) {
        Ok(class) => Some((PciDeviceId { vendor: vendor_id, device: device_id }, class)),
        Err(_) => None,
    }
}

/// How many of a device's functions, probed in order from function 0, are kept: probing stops at the
/// first absent function, and after function 0 when it is not a multifunction device.
pub open spec fn functions_kept(headers: Seq<Option<PciHeader>>) -> int {
    if headers.len() == 0 || headers[0] is None {
        0
    } else if !headers[0]->Some_0.is_multifunction {
        1
    } else {
        first_absent(headers, 1)
    }
}

/// The index of the first absent function at or after `k`, or the number of functions if none is absent.
pub open spec fn first_absent(headers: Seq<Option<PciHeader>>, k: int) -> int
    decreases headers.len() - k,
{
    if k >= headers.len() || k < 0 {
        headers.len() as int
    } else if headers[k] is None {
        k
    } else {
        first_absent(headers, k + 1)
    }
}

/// The secondary bus of a function's header, where the function is a PCI-to-PCI bridge.
pub open spec fn bridge_bus(h: Option<PciHeader>) -> Option<u8> {
    match h {
        Some(header) => match header.header_type {
            HeaderType::PciToPciBridge(b) => Some(b.secondary_bus_number),
            _ => None,
        },
        None => None,
    }
}

/// The secondary buses of the bridges among the first `n` functions, in function order.
pub open spec fn bridge_buses(headers: Seq<Option<PciHeader>>, n: int) -> Seq<u8>
    decreases n,
{
    if n <= 0 {
        Seq::empty()
    } else {
        let before = bridge_buses(headers, n - 1);
        match bridge_bus(headers[n - 1]) {
            Some(b) => before.push(b),
            None => before,
        }
    }
}

/// Decides which of a device's functions are kept, given the headers read from its functions in
/// order (`None` for an absent function), and the buses behind the bridges among them, which are
/// scanned next.
pub fn scan_device(headers: &Vec<Option<PciHeader>>) -> (r: (usize, Vec<u8>))
    requires
        headers.len() <= 8,
    ensures
        r.0 == functions_kept(headers@),
        r.1@ == bridge_buses(headers@, r.0 as int),
{
    let kept: usize = if headers.len() == 0 {
        0
    } else {
        match &headers[0] {
            None => 0,
            Some(h0) => if !h0.is_multifunction {
                1
            } else {
                let mut k: usize = 1;
                while k < headers.len() && headers[k].is_some()
                    invariant
                        1 <= k <= headers.len(),
                        first_absent(headers@, 1) == first_absent(headers@, k as int),
                    decreases headers.len() - k,
                {
                    k = k + 1;
                }
                k
            },
        }
    };
    let mut buses: Vec<u8> = Vec::new();
    let mut i: usize = 0;
    while i < kept
        invariant
            i <= kept,
            kept <= headers.len(),
            buses@ == bridge_buses(headers@, i as int),
        decreases kept - i,
    {
        if let Some(header) = &headers[i] {
            if let HeaderType::PciToPciBridge(h) = &header.header_type {
                buses.push(h.secondary_bus_number);
            }
        }
        i = i + 1;
    }
    (kept, buses)
}

/// The buses still to be scanned, in the order they were found: the scan starts at a controller's
/// lowest bus and appends the buses behind the bridges found on each scanned bus.
pub struct BusScanQueue {
    /// The buses queued and not yet handed out
    to_scan: VecDeque<u8>,
    /// The buses handed out so far
    handed_out: Ghost<Seq<u8>>,
}

impl BusScanQueue {
    /// The buses queued and not yet handed out, first in first out.
    pub closed spec fn pending(&self) -> Seq<u8> {
        self.to_scan@
    }

    /// The buses handed out so far, in order.
    pub closed spec fn scanned(&self) -> Seq<u8> {
        self.handed_out@
    }

    /// A queue holding only the controller's lowest bus.
    pub fn new(min_bus: u8) -> (r: Self)
        ensures
            r.pending() == seq![min_bus],
            r.scanned() == Seq::<u8>::empty(),
    {
        let mut to_scan: VecDeque<u8> = VecDeque::new();
        to_scan.push_back(min_bus);
        let r = BusScanQueue { to_scan, handed_out: Ghost(Seq::empty()) };
        assert(r.pending() =~= seq![min_bus]);
        r
    }

    /// Takes the next bus to scan, if any is left.
    pub fn pop(&mut self) -> (r: Option<u8>)
        ensures
            old(self).pending().len() == 0 ==> r is None && final(self).pending() == old(self).pending()
                && final(self).scanned() == old(self).scanned(),
            old(self).pending().len() > 0 ==> r == Some(old(self).pending()[0]) && final(self).pending()
                == old(self).pending().drop_first() && final(self).scanned() == old(self).scanned().push(
                old(self).pending()[0],
            ),
    {
        let r = self.to_scan.pop_front();
        if let Some(b) = r {
            self.handed_out = Ghost(self.handed_out@.push(b));
            assert(self.pending() =~= old(self).pending().drop_first());
        }
        r
    }

    /// Queues the buses found behind the bridges of a scanned bus, after those already queued.
    pub fn push_all(&mut self, subordinates: &Vec<u8>)
        ensures
            final(self).pending() == old(self).pending() + subordinates@,
            final(self).scanned() == old(self).scanned(),
    {
        let mut i: usize = 0;
        while i < subordinates.len()
            invariant
                0 <= i <= subordinates.len(),
                self.handed_out@ == old(self).handed_out@,
                self.to_scan@ == old(self).to_scan@ + subordinates@.subrange(0, i as int),
            decreases subordinates.len() - i,
        {
            self.to_scan.push_back(subordinates[i]);
            i = i + 1;
            assert(self.to_scan@ =~= old(self).to_scan@ + subordinates@.subrange(0, i as int));
        }
        assert(subordinates@.subrange(0, i as int) =~= subordinates@);
    }
}

} // verus!
