//! The scratchpad buffer array: pages of memory handed to the controller for its own use.
use vstd::prelude::*;
use crate::addr::is_phys_addr;
use crate::usb::xhci::operational::{lemma_4k_page_size, SupportedPageSize};

verus! {

/// The scratchpad buffer array data structure: a page of 64-bit pointers to the scratchpad pages.
pub struct ScratchpadBufferArray {
    array_page: u64,
    len: usize,
    entries: Vec<u64>,
    scratchpad_pages: Vec<u64>,
}

impl ScratchpadBufferArray {
    /// The structure's invariant: one entry per scratchpad page, fewer than 32 of them.
    pub closed spec fn wf(&self) -> bool {
        &&& self.len < 32
        &&& self.entries.len() == self.len
        &&& self.scratchpad_pages.len() == self.len
    }

    /// The physical address of the array's page.
    pub closed spec fn array_addr_spec(&self) -> u64 {
        self.array_page
    }

    /// The pointers held in the array.
    pub closed spec fn entries_spec(&self) -> Seq<u64> {
        self.entries@
    }

    /// The scratchpad pages handed to the controller.
    pub closed spec fn pages_spec(&self) -> Seq<u64> {
        self.scratchpad_pages@
    }

    /// Sets up a scratchpad buffer array in the page at `array_page` pointing at each of
    /// `scratchpad_pages`, in order. The controller's pages must be 4KiB and there must be fewer than 32.
    pub fn new(len: usize, page_size: SupportedPageSize, array_page: u64, scratchpad_pages: Vec<u64>) -> (r: Self)
        requires
            page_size.page_size_spec() == 0x1000,
            len < 32,
            scratchpad_pages.len() == len,
            forall|i: int| 0 <= i < len ==> is_phys_addr(#[trigger] scratchpad_pages@[i]),
        ensures
            r.wf(),
            r.array_addr_spec() == array_page,
            r.entries_spec() == scratchpad_pages@,
            r.pages_spec() == scratchpad_pages@,
    {
        proof {
            lemma_4k_page_size();
        }
        let mut entries: Vec<u64> = Vec::new();
        while entries.len() < len
            invariant
                entries.len() <= len,
                forall|i: int| 0 <= i < entries.len() ==> #[trigger] entries@[i] == 0,
            decreases len - entries.len(),
        {
            entries.push(0);
        }
        let mut s = ScratchpadBufferArray { array_page, len, entries, scratchpad_pages };
        let mut i: usize = 0;
        while i < len
            invariant
                s.wf(),
                s.len == len,
                s.array_page == array_page,
                s.scratchpad_pages@ == scratchpad_pages@,
                0 <= i <= len,
                forall|j: int| 0 <= j < i ==> #[trigger] s.entries@[j] == scratchpad_pages@[j],
            decreases len - i,
        {
            let addr = s.scratchpad_pages[i];
            s.set_slot_addr(i, addr);
            i = i + 1;
        }
        assert(s.entries@ =~= scratchpad_pages@);
        s
    }

    /// Gets the physical address of the scratchpad buffer array in memory.
    pub fn get_array_addr(&self) -> (r: u64)
        ensures
            r == self.array_addr_spec(),
    {
        self.array_page
    }

    /// The pointers held in the array, to be stored in its page.
    pub fn entries(&self) -> (r: &[u64])
        ensures
            r@ == self.entries_spec(),
    {
        self.entries.as_slice()
    }

    /// Sets entry `i` of the array to `addr`.
    fn set_slot_addr(&mut self, i: usize, addr: u64)
        requires
            old(self).wf(),
            i < old(self).len,
        ensures
            final(self).wf(),
            final(self).len == old(self).len,
            final(self).array_page == old(self).array_page,
            final(self).scratchpad_pages == old(self).scratchpad_pages,
            final(self).entries@ == old(self).entries@.update(i as int, addr),
    {
        self.entries.set(i, addr);
    }
}

} // verus!
