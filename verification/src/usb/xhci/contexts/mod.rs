//! The xHCI context data structures: slot, endpoint, input and device contexts.
use vstd::prelude::*;

pub mod device_context;
pub mod endpoint_context;
pub mod input_context;
pub mod slot_context;

verus! {

/// The size of the context data structures, from the controller's capability parameters.
#[derive(Debug, Clone, Copy, PartialEq, Eq)]
pub enum ContextSize {
    /// A context structure takes 32 bytes
    Small,
    /// A context structure takes 64 bytes
    Large,
}

/// The number of bytes in a context structure of the given size.
pub open spec fn context_bytes(size: ContextSize) -> usize {
    match size {
        ContextSize::Small => 32,
        ContextSize::Large => 64,
    }
}

impl ContextSize {
    /// Gets the number of bytes in a context structure.
    pub fn bytes(self) -> (r: usize)
        ensures
            r == context_bytes(self),
    {
        match self {
            ContextSize::Small => 32,
            ContextSize::Large => 64,
        }
    }

    /// Constructs a [`ContextSize`] from its one-bit representation in the capability parameters.
    pub fn from_bits(bits: u32) -> (r: Self)
        requires
            bits <= 1,
        ensures
            r == if bits == 0 { ContextSize::Small } else { ContextSize::Large },
    {
        if bits == 0 {
            ContextSize::Small
        } else {
            ContextSize::Large
        }
    }

    /// Converts a [`ContextSize`] into its one-bit representation.
    pub fn into_bits(self) -> (r: u32)
        ensures
            r == match self {
                ContextSize::Small => 0u32,
                ContextSize::Large => 1u32,
            },
    {
        match self {
            ContextSize::Small => 0,
            ContextSize::Large => 1,
        }
    }
}

} // verus!
