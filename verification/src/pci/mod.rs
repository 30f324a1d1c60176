//! Reading and driving the PCI bus: addresses, class codes, configuration headers,
//! base address registers and capabilities.
use vstd::prelude::*;

pub mod bar;
pub mod capability_registers;
pub mod capability_list;
pub mod classcodes;
pub mod devices;
pub mod msi;
pub mod registers;
pub mod scan;

verus! {

/// Splits a [`u32`] into two [`u16`]s. The less significant half is returned first.
pub fn split_to_u16(value: u32) -> (r: (u16, u16))
    ensures
        r.0 == value % 0x1_0000,
        r.1 == value / 0x1_0000,
{
    assert(value as u16 == value % 0x1_0000 && (value >> 16u32) as u16 == value / 0x1_0000) by (bit_vector);
    (value as u16, (value >> 16u32) as u16)
}

/// Splits a [`u32`] into four [`u8`]s. The least significant byte is returned first.
pub fn split_to_u8(value: u32) -> (r: (u8, u8, u8, u8))
    ensures
        r.0 == value % 0x100,
        r.1 == (value / 0x100) % 0x100,
        r.2 == (value / 0x1_0000) % 0x100,
        r.3 == value / 0x100_0000,
{
    assert(value as u8 == value % 0x100
        && (value >> 8u32) as u8 == (value / 0x100) % 0x100
        && (value >> 16u32) as u8 == (value / 0x1_0000) % 0x100
        && (value >> 24u32) as u8 == value / 0x100_0000) by (bit_vector);
    (value as u8, (value >> 8u32) as u8, (value >> 16u32) as u8, (value >> 24u32) as u8)
}

/// Splitting a register into halves or bytes loses nothing: recombining the parts gives back the register.
pub proof fn lemma_split_recombines(value: u32)
    ensures
        (value / 0x1_0000) * 0x1_0000 + value % 0x1_0000 == value,
        (value / 0x100_0000) * 0x100_0000 + ((value / 0x1_0000) % 0x100) * 0x1_0000
            + ((value / 0x100) % 0x100) * 0x100 + value % 0x100 == value,
{
    assert((value / 0x1_0000) * 0x1_0000 + value % 0x1_0000 == value) by (nonlinear_arith);
    assert((value / 0x100_0000) * 0x100_0000 + ((value / 0x1_0000) % 0x100) * 0x1_0000
        + ((value / 0x100) % 0x100) * 0x100 + value % 0x100 == value) by (nonlinear_arith);
}

} // verus!
