//! A device context in a page of its own, whose endpoint contexts are found by their stride.
use vstd::prelude::*;
use crate::usb::xhci::contexts::ContextSize;
use crate::usb::xhci::contexts::device_context::{
    context_word, endpoint_words, in_len_of, out_len_of, slot_words, DeviceContextRef, DEVICE_CONTEXT_WORDS,
};
use crate::usb::xhci::contexts::endpoint_context::EndpointContext;
use crate::usb::xhci::contexts::slot_context::SlotContext;
use crate::usb::xhci::operational::{lemma_4k_page_size, SupportedPageSize};

verus! {

/// The xHCI device context data structure: the slot context, then endpoint context 0, then
/// alternating OUT and IN endpoint contexts, each `stride` bytes from the last.
pub struct DeviceContext {
    page_addr: u64,
    context: DeviceContextRef,
}

impl DeviceContext {
    /// The structure's invariant.
    pub closed spec fn wf(&self) -> bool {
        self.context.wf()
    }

    /// The physical address of the structure's page.
    pub closed spec fn addr_spec(&self) -> u64 {
        self.page_addr
    }

    /// The words of the structure.
    pub closed spec fn words_spec(&self) -> Seq<u32> {
        self.context.words_spec()
    }

    /// The byte offset of each context from the last: 0x40 for 64-byte contexts, else 0x20.
    pub closed spec fn stride(&self) -> int {
        self.context.stride()
    }

    /// The number of context entries that the slot context gives.
    pub closed spec fn context_entries_spec(&self) -> int {
        self.context.context_entries_spec()
    }

    /// A zeroed device context in the page at `page_addr`, for a controller with 4KiB pages, using
    /// 64-byte contexts where `uses_64_byte_context_structs` is set.
    pub fn new(page_size: SupportedPageSize, uses_64_byte_context_structs: bool, page_addr: u64) -> (r: Self)
        requires
            page_size.page_size_spec() == 0x1000,
        ensures
            r.wf(),
            r.addr_spec() == page_addr,
            r.stride() == if uses_64_byte_context_structs { 0x40int } else { 0x20int },
            r.words_spec() == Seq::new(DEVICE_CONTEXT_WORDS as nat, |i: int| 0u32),
    {
        proof {
            lemma_4k_page_size();
        }
        let mut words: Vec<u32> = Vec::new();
        while words.len() < DEVICE_CONTEXT_WORDS
            invariant
                words.len() <= DEVICE_CONTEXT_WORDS,
                words@ == Seq::new(words.len() as nat, |j: int| 0u32),
            decreases DEVICE_CONTEXT_WORDS - words.len(),
        {
            words.push(0);
            assert(words@ =~= Seq::new(words.len() as nat, |j: int| 0u32));
        }
        let size = if uses_64_byte_context_structs { ContextSize::Large } else { ContextSize::Small };
        DeviceContext { page_addr, context: DeviceContextRef::new(words, size) }
    }

    /// Gets the physical address of the start of the page where the structure is.
    pub fn get_addr(&self) -> (r: u64)
        ensures
            r == self.addr_spec(),
    {
        self.page_addr
    }

    /// Gets the slot context.
    pub fn get_slot_context(&self) -> (r: SlotContext)
        requires
            self.wf(),
        ensures
            r.dwords() == slot_words(self.words_spec(), 0),
    {
        self.context.get_slot_context()
    }

    /// The number of OUT endpoint contexts: half the context entries.
    pub fn out_len(&self) -> (r: usize)
        requires
            self.wf(),
        ensures
            r == out_len_of(self.context_entries_spec()),
    {
        self.context.out_len()
    }

    /// The number of IN endpoint contexts: half the context entries after the first.
    /// The slot context must report at least one entry.
    pub fn in_len(&self) -> (r: usize)
        requires
            self.wf(),
            self.context_entries_spec() >= 1,
        ensures
            r == (self.context_entries_spec() - 1) / 2,
    {
        self.context.in_len()
    }

    /// Gets the bidirectional endpoint context 0.
    pub fn get_ep_context_0(&self) -> (r: EndpointContext)
        requires
            self.wf(),
        ensures
            r.dwords() == endpoint_words(self.words_spec(), context_word(1, self.stride())),
    {
        self.context.get_ep_context_0()
    }

    /// Sets the bidirectional endpoint context 0.
    pub fn set_ep_context_0(&mut self, context: EndpointContext)
        requires
            old(self).wf(),
        ensures
            final(self).wf(),
            final(self).addr_spec() == old(self).addr_spec(),
            final(self).stride() == old(self).stride(),
            final(self).words_spec() == old(self).words_spec().subrange(0, context_word(1, old(self).stride()))
                + context.dwords() + old(self).words_spec().subrange(
                context_word(1, old(self).stride()) + 5,
                DEVICE_CONTEXT_WORDS as int,
            ),
    {
        self.context.set_ep_context_0(context);
    }

    /// Gets the `i`th OUT endpoint context, at offset `stride * 2 * i`, or `None` past the last one.
    pub fn get_ep_context_out(&self, i: usize) -> (r: Option<EndpointContext>)
        requires
            self.wf(),
            i != 0,
        ensures
            i > out_len_of(self.context_entries_spec()) ==> r is None,
            i <= out_len_of(self.context_entries_spec()) ==> (r matches Some(c)
                && c.dwords() == endpoint_words(self.words_spec(), context_word(2 * i, self.stride()))),
    {
        self.context.get_ep_context_out(i)
    }

    /// Gets the `i`th IN endpoint context, at offset `stride * (2 * i + 1)`, or `None` past the last one.
    /// The slot context must report at least one entry.
    pub fn get_ep_context_in(&self, i: usize) -> (r: Option<EndpointContext>)
        requires
            self.wf(),
            i != 0,
            self.context_entries_spec() >= 1,
        ensures
            i > in_len_of(self.context_entries_spec()) ==> r is None,
            i <= in_len_of(self.context_entries_spec()) ==> (r matches Some(c)
                && c.dwords() == endpoint_words(self.words_spec(), context_word(2 * i + 1, self.stride()))),
    {
        self.context.get_ep_context_in(i)
    }

    /// Sets the `i`th IN endpoint context, which must exist.
    pub fn write_ep_context_in(&mut self, i: usize, context: EndpointContext)
        requires
            old(self).wf(),
            i != 0,
            old(self).context_entries_spec() >= 1,
            i <= in_len_of(old(self).context_entries_spec()),
        ensures
            final(self).wf(),
            final(self).addr_spec() == old(self).addr_spec(),
            final(self).stride() == old(self).stride(),
            final(self).words_spec() == old(self).words_spec().subrange(0, context_word(2 * i + 1, old(self).stride()))
                + context.dwords() + old(self).words_spec().subrange(
                context_word(2 * i + 1, old(self).stride()) + 5,
                DEVICE_CONTEXT_WORDS as int,
            ),
    {
        self.context.write_ep_context_in(i, context);
    }
}

} // verus!
