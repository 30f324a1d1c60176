//! The device context base address array, which associates each device slot with its device context.
use vstd::prelude::*;
use crate::addr::{is_phys_addr, phys_addr_new};
use crate::bitfield::lemma_clear_low_bits64;
use crate::usb::xhci::contexts::device_context::DEVICE_CONTEXT_WORDS;
use crate::usb::xhci::device_context::DeviceContext;
use crate::usb::xhci::operational::SupportedPageSize;
use crate::usb::xhci::scratchpad::ScratchpadBufferArray;

verus! {

/// The device context base address array (DCBAA): a page of 64-bit pointers whose first entry
/// points to the scratchpad buffer array and whose entry `1 + i` points to the device context of slot `i`.
pub struct DeviceContextBaseAddressArray {
    page: u64,
    len: usize,
    entries: Vec<u64>,
    scratchpad_buffer_array: ScratchpadBufferArray,
    contexts: Vec<DeviceContext>,
}

impl DeviceContextBaseAddressArray {
    /// The structure's invariant: `len` slots after the scratchpad entry, each with a device context,
    /// and every entry a physical address.
    pub closed spec fn wf(&self) -> bool {
        &&& self.len <= 256
        &&& self.entries.len() == self.len + 1
        &&& self.contexts.len() == self.len
        &&& forall|i: int| 0 <= i < self.entries.len() ==> is_phys_addr(#[trigger] self.entries@[i])
        &&& forall|i: int| 0 <= i < self.contexts.len() ==> (#[trigger] self.contexts@[i]).wf()
    }

    /// The number of device slots.
    pub closed spec fn len_spec(&self) -> nat {
        self.len as nat
    }

    /// The physical address of the array's page.
    pub closed spec fn array_addr_spec(&self) -> u64 {
        self.page
    }

    /// The 64-bit entries of the array, the scratchpad pointer first.
    pub closed spec fn entries_spec(&self) -> Seq<u64> {
        self.entries@
    }

    /// The scratchpad buffer array.
    pub closed spec fn scratchpad_spec(&self) -> ScratchpadBufferArray {
        self.scratchpad_buffer_array
    }

    /// The device contexts, one per slot.
    pub closed spec fn contexts_spec(&self) -> Seq<DeviceContext> {
        self.contexts@
    }

    /// Sets up a DCBAA of `len` slots in the page at `page`. Its scratchpad buffer array is set up in
    /// the page at `scratchpad_array_page` with one entry per page of `scratchpad_pages`
    /// (`max_scratchpad_buffers` of them), and slot `i` gets a zeroed device context in `context_pages[i]`.
    /// The array then points at the scratchpad buffer array and at each device context.
    pub fn new(
        len: usize,
        page_size: SupportedPageSize,
        uses_64_byte_context_structs: bool,
        max_scratchpad_buffers: usize,
        page: u64,
        scratchpad_array_page: u64,
        scratchpad_pages: Vec<u64>,
        context_pages: Vec<u64>,
    ) -> (r: Self)
        requires
            len <= 256,
            is_phys_addr(page),
            page % 64 == 0,
            page_size.page_size_spec() == 0x1000,
            max_scratchpad_buffers < 32,
            scratchpad_pages.len() == max_scratchpad_buffers,
            forall|i: int| 0 <= i < max_scratchpad_buffers ==> is_phys_addr(#[trigger] scratchpad_pages@[i]),
            is_phys_addr(scratchpad_array_page),
            scratchpad_array_page % 0x1000 == 0,
            context_pages.len() == len,
            forall|i: int| 0 <= i < len ==> is_phys_addr(#[trigger] context_pages@[i]) && context_pages@[i] % 64 == 0,
        ensures
            r.wf(),
            r.len_spec() == len,
            r.array_addr_spec() == page,
            r.scratchpad_spec().entries_spec() == scratchpad_pages@,
            r.scratchpad_spec().array_addr_spec() == scratchpad_array_page,
            r.entries_spec()[0] == scratchpad_array_page,
            forall|i: int| 0 <= i < len ==> #[trigger] r.entries_spec()[1 + i] == context_pages@[i],
            forall|i: int| 0 <= i < len ==> (#[trigger] r.contexts_spec()[i]).addr_spec() == context_pages@[i],
            forall|i: int| 0 <= i < len ==> (#[trigger] r.contexts_spec()[i]).stride() == if uses_64_byte_context_structs {
                0x40int
            } else {
                0x20int
            },
            forall|i: int| 0 <= i < len ==> (#[trigger] r.contexts_spec()[i]).words_spec() == Seq::new(
                DEVICE_CONTEXT_WORDS as nat,
                |j: int| 0u32,
            ),
    {
        let scratchpad_buffer_array = ScratchpadBufferArray::new(
            max_scratchpad_buffers,
            page_size,
            scratchpad_array_page,
            scratchpad_pages,
        );
        let mut entries: Vec<u64> = Vec::new();
        while entries.len() < len + 1
            invariant
                entries.len() <= len + 1,
                len <= 256,
                forall|i: int| 0 <= i < entries.len() ==> #[trigger] entries@[i] == 0,
            decreases len + 1 - entries.len(),
        {
            entries.push(0);
        }
        let mut contexts: Vec<DeviceContext> = Vec::new();
        let mut i: usize = 0;
        while i < len
            invariant
                i <= len,
                contexts.len() == i,
                context_pages.len() == len,
                page_size.page_size_spec() == 0x1000,
                forall|j: int| 0 <= j < i ==> (#[trigger] contexts@[j]).wf() && contexts@[j].addr_spec() == context_pages@[j],
                forall|j: int| 0 <= j < i ==> (#[trigger] contexts@[j]).stride() == if uses_64_byte_context_structs {
                    0x40int
                } else {
                    0x20int
                } && contexts@[j].words_spec() == Seq::new(DEVICE_CONTEXT_WORDS as nat, |k: int| 0u32),
            decreases len - i,
        {
            contexts.push(DeviceContext::new(page_size, uses_64_byte_context_structs, context_pages[i]));
            i = i + 1;
        }
        let ghost built = contexts@;
        let mut s = DeviceContextBaseAddressArray { page, len, entries, scratchpad_buffer_array, contexts };
        let scratchpad_addr = s.scratchpad_buffer_array.get_array_addr();
        s.write_scratchpad_buffer_array(scratchpad_addr, page_size);
        let mut i: usize = 0;
        while i < s.contexts.len()
            invariant
                s.wf(),
                s.len == len,
                s.page == page,
                s.contexts.len() == len,
                context_pages.len() == len,
                forall|j: int| 0 <= j < len ==> is_phys_addr(#[trigger] context_pages@[j]) && context_pages@[j] % 64 == 0,
                forall|j: int| 0 <= j < len ==> (#[trigger] s.contexts@[j]).addr_spec() == context_pages@[j],
                s.scratchpad_buffer_array.entries_spec() == scratchpad_pages@,
                s.scratchpad_buffer_array.array_addr_spec() == scratchpad_array_page,
                s.entries@[0] == scratchpad_array_page,
                s.contexts@ == built,
                0 <= i <= len,
                forall|j: int| 0 <= j < i ==> #[trigger] s.entries@[1 + j] == context_pages@[j],
            decreases len - i,
        {
            let addr = s.contexts[i].get_addr();
            s.set_slot_addr(i, addr);
            i = i + 1;
        }
        s
    }

    /// Gets the physical address of the array.
    pub fn array_addr(&self) -> (r: u64)
        ensures
            r == self.array_addr_spec(),
    {
        self.page
    }

    /// Reads the physical address of the scratchpad buffer array: the first entry with its
    /// reserved low 5 bits cleared.
    pub fn scratchpad_buffer_array(&self) -> (r: u64)
        requires
            self.wf(),
        ensures
            r == self.entries_spec()[0] - self.entries_spec()[0] % 32,
    {
        let v = self.entries[0];
        proof {
            lemma_clear_low_bits64(v);
        }
        phys_addr_new(v & !0b11111u64)
    }

    /// Writes the address of the scratchpad buffer array to the first entry.
    /// The address must be aligned to the controller's 4KiB pages.
    pub fn write_scratchpad_buffer_array(&mut self, address: u64, page_size: SupportedPageSize)
        requires
            old(self).wf(),
            page_size.page_size_spec() == 0x1000,
            is_phys_addr(address),
            address % 0x1000 == 0,
        ensures
            final(self).wf(),
            final(self).entries_spec() == old(self).entries_spec().update(0, address),
            final(self).len_spec() == old(self).len_spec(),
            final(self).array_addr_spec() == old(self).array_addr_spec(),
            final(self).contexts_spec() == old(self).contexts_spec(),
            final(self).scratchpad_spec() == old(self).scratchpad_spec(),
    {
        self.entries.set(0, address);
    }

    /// Gets the address of the device context of slot `i`: its entry with the low 4 bits cleared,
    /// or `None` where there is no such slot.
    pub fn get_slot_addr(&self, i: usize) -> (r: Option<u64>)
        requires
            self.wf(),
        ensures
            i >= self.len_spec() ==> r is None,
            i < self.len_spec() ==> r == Some(
                (self.entries_spec()[1 + i] - self.entries_spec()[1 + i] % 16) as u64,
            ),
    {
        if i >= self.len {
            return None;
        }
        let v = self.entries[1 + i];
        proof {
            lemma_clear_low_bits64(v);
        }
        Some(phys_addr_new(v & !0b1111u64))
    }

    /// Sets the entry of slot `i` to `address`, which must be a 64-byte aligned device context address.
    fn set_slot_addr(&mut self, i: usize, address: u64)
        requires
            old(self).wf(),
            i < old(self).len,
            is_phys_addr(address),
            address % 64 == 0,
        ensures
            final(self).wf(),
            final(self).entries_spec() == old(self).entries_spec().update(1 + i, address),
            final(self).len == old(self).len,
            final(self).page == old(self).page,
            final(self).contexts == old(self).contexts,
            final(self).scratchpad_buffer_array == old(self).scratchpad_buffer_array,
    {
        self.entries.set(1 + i, address);
    }

    /// The 64-bit entries of the array, the scratchpad pointer first, to be stored in its page.
    pub fn entries(&self) -> (r: &[u64])
        ensures
            r@ == self.entries_spec(),
    {
        self.entries.as_slice()
    }

    /// The scratchpad buffer array.
    pub fn scratchpad(&self) -> (r: &ScratchpadBufferArray)
        ensures
            *r == self.scratchpad_spec(),
    {
        &self.scratchpad_buffer_array
    }

    /// Gets the device contexts, one per slot.
    pub fn contexts(&self) -> (r: &[DeviceContext])
        ensures
            r@ == self.contexts_spec(),
    {
        self.contexts.as_slice()
    }

    /// Gets the device context of slot `i` for changing it.
    pub fn contexts_mut(&mut self, i: usize) -> (r: &mut DeviceContext)
        requires
            old(self).wf(),
            i < old(self).len_spec(),
        ensures
            *r == old(self).contexts_spec()[i as int],
            final(self).contexts_spec() == old(self).contexts_spec().update(i as int, *final(r)),
            final(self).entries_spec() == old(self).entries_spec(),
            final(self).len_spec() == old(self).len_spec(),
            final(self).array_addr_spec() == old(self).array_addr_spec(),
            final(self).scratchpad_spec() == old(self).scratchpad_spec(),
            final(r).wf() ==> final(self).wf(),
    {
        &mut self.contexts[i]
    }
}

} // verus!
