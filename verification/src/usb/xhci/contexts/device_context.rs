//! Device contexts: an [`OwnedDeviceContext`] in its own page, and [`DeviceContextRef`], the layout of the
//! slot and endpoint contexts within one.
use vstd::prelude::*;
use super::ContextSize;
use super::context_bytes;
use super::endpoint_context::EndpointContext;
use super::slot_context::SlotContext;
use crate::bitfield::{get_bits, lemma_bits_bounds};
use crate::usb::xhci::operational::SupportedPageSize;

verus! {

/// The number of 32-bit words that a device context occupies: 32 contexts of at most 64 bytes.
pub const DEVICE_CONTEXT_WORDS: usize = 512;

/// The word index where the context with the given index starts, for contexts of `bytes` bytes.
pub open spec fn context_word(index: int, bytes: int) -> int {
    bytes * index / 4
}

/// The number of OUT endpoint contexts for a given number of context entries.
pub open spec fn out_len_of(context_entries: int) -> int {
    context_entries / 2
}

/// The number of IN endpoint contexts for a given number of context entries (rounding an entry count of 0 up to 1).
pub open spec fn in_len_of(context_entries: int) -> int {
    if context_entries == 0 {
        0
    } else {
        (context_entries - 1) / 2
    }
}

/// The four words starting at `at`.
pub open spec fn slot_words(words: Seq<u32>, at: int) -> Seq<u32> {
    words.subrange(at, at + 4)
}

/// The five words starting at `at`.
pub open spec fn endpoint_words(words: Seq<u32>, at: int) -> Seq<u32> {
    words.subrange(at, at + 5)
}

/// Reads the slot context at word `at`.
fn read_slot_context(words: &Vec<u32>, at: usize) -> (r: SlotContext)
    requires
        at + 4 <= words.len(),
    ensures
        r.dwords() == slot_words(words@, at as int),
{
    let d = [words[at], words[at + 1], words[at + 2], words[at + 3]];
    let r = SlotContext::from_dwords(d);
    assert(r.dwords() =~= slot_words(words@, at as int));
    r
}

/// Reads the endpoint context at word `at`.
fn read_endpoint_context(words: &Vec<u32>, at: usize) -> (r: EndpointContext)
    requires
        at + 5 <= words.len(),
    ensures
        r.dwords() == endpoint_words(words@, at as int),
{
    let d = [words[at], words[at + 1], words[at + 2], words[at + 3], words[at + 4]];
    let r = EndpointContext::from_dwords(d);
    assert(r.dwords() =~= endpoint_words(words@, at as int));
    r
}

/// Writes `dwords` to the words starting at `at`.
fn write_words(words: &mut Vec<u32>, at: usize, dwords: &[u32])
    requires
        at + dwords@.len() <= old(words).len(),
    ensures
        final(words).len() == old(words).len(),
        final(words)@ == old(words)@.subrange(0, at as int) + dwords@ + old(words)@.subrange(
            at + dwords@.len(),
            old(words).len() as int,
        ),
{
    let mut i: usize = 0;
    while i < dwords.len()
        invariant
            at + dwords@.len() <= words.len(),
            words.len() == old(words).len(),
            0 <= i <= dwords@.len(),
            words@ == old(words)@.subrange(0, at as int) + dwords@.subrange(0, i as int) + old(words)@.subrange(
                at + i,
                old(words).len() as int,
            ),
        decreases dwords@.len() - i,
    {
        words.set(at + i, dwords[i]);
        i = i + 1;
        assert(words@ =~= old(words)@.subrange(0, at as int) + dwords@.subrange(0, i as int) + old(words)@.subrange(
            at + i,
            old(words).len() as int,
        ));
    }
    assert(dwords@.subrange(0, i as int) =~= dwords@);
}

/// A device context: the slot context followed by endpoint context 0 and alternating OUT and IN endpoint
/// contexts, each context taking the context size in bytes. The words of the structure are held here.
pub struct DeviceContextRef {
    /// The words of the device context
    words: Vec<u32>,
    /// The size of each context structure
    context_size: ContextSize,
}

impl DeviceContextRef {
    /// The structure's invariant.
    pub closed spec fn wf(&self) -> bool {
        self.words.len() == DEVICE_CONTEXT_WORDS
    }

    /// The words of the device context.
    pub closed spec fn words_spec(&self) -> Seq<u32> {
        self.words@
    }

    /// The size of each context.
    pub closed spec fn context_size_spec(&self) -> ContextSize {
        self.context_size
    }

    /// The number of bytes of each context.
    pub open spec fn stride(&self) -> int {
        context_bytes(self.context_size_spec()) as int
    }

    /// The context entries field of the slot context.
    pub open spec fn context_entries_spec(&self) -> int {
        get_bits(self.words_spec()[0], 27, 5) as int
    }

    /// Constructs a device context from its words and context size.
    pub fn new(words: Vec<u32>, context_size: ContextSize) -> (r: Self)
        requires
            words.len() == DEVICE_CONTEXT_WORDS,
        ensures
            r.wf(),
            r.words_spec() == words@,
            r.context_size_spec() == context_size,
    {
        DeviceContextRef { words, context_size }
    }

    /// Gets the slot context, the first context of the structure.
    pub fn get_slot_context(&self) -> (r: SlotContext)
        requires
            self.wf(),
        ensures
            r.dwords() == slot_words(self.words_spec(), 0),
    {
        read_slot_context(&self.words, 0)
    }

    /// The number of OUT endpoint contexts.
    pub fn out_len(&self) -> (r: usize)
        requires
            self.wf(),
        ensures
            r == out_len_of(self.context_entries_spec()),
            r <= 15,
    {
        let context_entries = self.get_slot_context().context_entries() as usize;
        context_entries / 2
    }

    /// The number of IN endpoint contexts.
    pub fn in_len(&self) -> (r: usize)
        requires
            self.wf(),
        ensures
            r == in_len_of(self.context_entries_spec()),
            r <= 15,
    {
        let context_entries = self.get_slot_context().context_entries() as usize;
        (if context_entries >= 1 { context_entries - 1 } else { 0 }) / 2
    }

    /// Gets the bidirectional endpoint context 0, the second context of the structure.
    pub fn get_ep_context_0(&self) -> (r: EndpointContext)
        requires
            self.wf(),
        ensures
            r.dwords() == endpoint_words(self.words_spec(), context_word(1, self.stride())),
    {
        let at = self.context_size.bytes() / 4;
        read_endpoint_context(&self.words, at)
    }

    /// Gets the `i`th OUT endpoint context, or `None` past the last one. There is no OUT context 0.
    pub fn get_ep_context_out(&self, i: usize) -> (r: Option<EndpointContext>)
        requires
            self.wf(),
            i != 0,
        ensures
            i > out_len_of(self.context_entries_spec()) ==> r is None,
            i <= out_len_of(self.context_entries_spec()) ==> (r matches Some(c)
                && c.dwords() == endpoint_words(self.words_spec(), context_word(2 * i, self.stride()))),
    {
        if i > self.out_len() {
            return None;
        }
        let bytes = self.context_size.bytes();
        assert(bytes * (2 * i) / 4 + 5 <= DEVICE_CONTEXT_WORDS) by (nonlinear_arith)
            requires
                bytes <= 64,
                i <= 15,
        ;
        let at = bytes * (2 * i) / 4;
        Some(read_endpoint_context(&self.words, at))
    }

    /// Gets the `i`th IN endpoint context, or `None` past the last one. There is no IN context 0.
    pub fn get_ep_context_in(&self, i: usize) -> (r: Option<EndpointContext>)
        requires
            self.wf(),
            i != 0,
        ensures
            i > in_len_of(self.context_entries_spec()) ==> r is None,
            i <= in_len_of(self.context_entries_spec()) ==> (r matches Some(c)
                && c.dwords() == endpoint_words(self.words_spec(), context_word(2 * i + 1, self.stride()))),
    {
        if i > self.in_len() {
            return None;
        }
        let bytes = self.context_size.bytes();
        assert(bytes * (2 * i + 1) / 4 + 5 <= DEVICE_CONTEXT_WORDS) by (nonlinear_arith)
            requires
                bytes <= 64,
                i <= 15,
        ;
        let at = bytes * (2 * i + 1) / 4;
        Some(read_endpoint_context(&self.words, at))
    }

    /// Sets the slot context.
    pub fn set_slot_context(&mut self, context: SlotContext)
        requires
            old(self).wf(),
        ensures
            final(self).wf(),
            final(self).context_size_spec() == old(self).context_size_spec(),
            final(self).words_spec() == old(self).words_spec().subrange(0, 0) + context.dwords()
                + old(self).words_spec().subrange(4, DEVICE_CONTEXT_WORDS as int),
    {
        let d = context.to_dwords();
        write_words(&mut self.words, 0, d.as_slice());
    }

    /// Sets the bidirectional endpoint context 0.
    pub fn set_ep_context_0(&mut self, context: EndpointContext)
        requires
            old(self).wf(),
        ensures
            final(self).wf(),
            final(self).context_size_spec() == old(self).context_size_spec(),
            final(self).words_spec() == old(self).words_spec().subrange(0, context_word(1, old(self).stride()))
                + context.dwords() + old(self).words_spec().subrange(
                context_word(1, old(self).stride()) + 5,
                DEVICE_CONTEXT_WORDS as int,
            ),
    {
        let at = self.context_size.bytes() / 4;
        let d = context.to_dwords();
        write_words(&mut self.words, at, d.as_slice());
    }

    /// Sets the `i`th IN endpoint context, which must exist.
    pub fn write_ep_context_in(&mut self, i: usize, context: EndpointContext)
        requires
            old(self).wf(),
            i != 0,
            i <= in_len_of(old(self).context_entries_spec()),
        ensures
            final(self).wf(),
            final(self).context_size_spec() == old(self).context_size_spec(),
            final(self).words_spec() == old(self).words_spec().subrange(0, context_word(2 * i + 1, old(self).stride()))
                + context.dwords() + old(self).words_spec().subrange(
                context_word(2 * i + 1, old(self).stride()) + 5,
                DEVICE_CONTEXT_WORDS as int,
            ),
    {
        proof {
            lemma_bits_bounds(self.words@[0], 27, 5, 0);
        }
        let bytes = self.context_size.bytes();
        assert(bytes * (2 * i + 1) / 4 + 5 <= DEVICE_CONTEXT_WORDS) by (nonlinear_arith)
            requires
                bytes <= 64,
                i <= 15,
        ;
        let at = bytes * (2 * i + 1) / 4;
        let d = context.to_dwords();
        write_words(&mut self.words, at, d.as_slice());
    }
}

/// A device context in a page of its own, referenced from the device context base address array.
pub struct OwnedDeviceContext {
    /// The physical address of the page holding the structure
    page_addr: u64,
    /// The contents of the structure
    context: DeviceContextRef,
}

impl OwnedDeviceContext {
    /// The structure's invariant.
    pub closed spec fn wf(&self) -> bool {
        self.context.wf()
    }

    /// The physical address of the structure's page.
    pub closed spec fn addr_spec(&self) -> u64 {
        self.page_addr
    }

    /// The device context held.
    pub closed spec fn context_spec(&self) -> DeviceContextRef {
        self.context
    }

    /// Creates a zeroed device context in the page at `page_addr`, for a controller with 4KiB pages.
    pub fn new(page_size: SupportedPageSize, context_size: ContextSize, page_addr: u64) -> (r: Self)
        requires
            page_size.page_size_spec() == 0x1000,
        ensures
            r.wf(),
            r.addr_spec() == page_addr,
            r.context_spec().context_size_spec() == context_size,
            r.context_spec().words_spec() == Seq::new(DEVICE_CONTEXT_WORDS as nat, |i: int| 0u32),
    {
        let mut words: Vec<u32> = Vec::new();
        let mut i: usize = 0;
        while i < DEVICE_CONTEXT_WORDS
            invariant
                i <= DEVICE_CONTEXT_WORDS,
                words@ == Seq::new(i as nat, |j: int| 0u32),
            decreases DEVICE_CONTEXT_WORDS - i,
        {
            words.push(0);
            i = i + 1;
            assert(words@ =~= Seq::new(i as nat, |j: int| 0u32));
        }
        OwnedDeviceContext { page_addr, context: DeviceContextRef::new(words, context_size) }
    }

    /// Gets the physical address of the page where the structure is.
    pub fn get_addr(&self) -> (r: u64)
        ensures
            r == self.addr_spec(),
    {
        self.page_addr
    }

    /// Gets the device context.
    pub fn get(&self) -> (r: &DeviceContextRef)
        ensures
            *r == self.context_spec(),
    {
        &self.context
    }

    /// Replaces the slot context of the device context.
    pub fn set_slot_context(&mut self, context: SlotContext)
        requires
            old(self).wf(),
        ensures
            final(self).wf(),
            final(self).addr_spec() == old(self).addr_spec(),
            final(self).context_spec().words_spec() == context.dwords()
                + old(self).context_spec().words_spec().subrange(4, DEVICE_CONTEXT_WORDS as int),
    {
        self.context.set_slot_context(context);
        assert(old(self).context_spec().words_spec().subrange(0, 0) + context.dwords() =~= context.dwords());
    }
}

} // verus!
