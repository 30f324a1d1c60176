//! Decoding Base Address Registers (BARs): the memory regions a PCI device uses.
use vstd::prelude::*;
use crate::addr::{frame_containing, is_phys_addr, phys_addr_add};

verus! {

/// The address of a region in memory used by a PCI device.
#[derive(Debug, Clone, Copy, PartialEq, Eq)]
pub enum MemorySpaceBarBaseAddress {
    /// A 32-bit base address
    Small(u32),
    /// A 64-bit base address
    Large(u64),
}

impl MemorySpaceBarBaseAddress {
    /// The base address as a 64-bit value.
    pub fn as_address(&self) -> (r: u64)
        ensures
            r == match *self {
                MemorySpaceBarBaseAddress::Small(a) => a as u64,
                MemorySpaceBarBaseAddress::Large(a) => a,
            },
    {
        match self {
            MemorySpaceBarBaseAddress::Small(a) => *a as u64,
            MemorySpaceBarBaseAddress::Large(a) => *a,
        }
    }
}

/// The decoded value of a Base Address Register.
#[derive(Debug, Clone, Copy, PartialEq, Eq)]
#[allow(inconsistent_fields)]
pub enum BarValue {
    /// The BAR is the physical address of a memory region used by the device.
    MemorySpace {
        /// The address of the memory region
        base_address: MemorySpaceBarBaseAddress,
        /// Whether the region is prefetchable, so that reads and writes to it may be combined
        prefetchable: bool,
    },
    /// The BAR is a port number
    IOSpace {
        /// The port number of the device
        base_address: u32,
    },
}

/// The type field of a BAR's first register (bits 1 and 2): 0 for a 32-bit BAR, 2 for a 64-bit BAR.
pub open spec fn bar_type(lower_32: u32) -> u32 {
    (lower_32 / 2) % 4
}

/// The value of a BAR whose first register holds `lower_32` and, for a 64-bit BAR, whose second
/// register holds `upper_32`. The low four bits of the first register are flags, not address bits.
pub open spec fn bar_value_of(lower_32: u32, upper_32: u32) -> BarValue {
    let prefetchable = (lower_32 / 8) % 2 == 1;
    if bar_type(lower_32) == 0 {
        BarValue::MemorySpace {
            base_address: MemorySpaceBarBaseAddress::Small((lower_32 - lower_32 % 16) as u32),
            prefetchable,
        }
    } else {
        BarValue::MemorySpace {
            base_address: MemorySpaceBarBaseAddress::Large(
                (upper_32 as int * 0x1_0000_0000 + lower_32 - lower_32 % 16) as u64,
            ),
            prefetchable,
        }
    }
}

/// Decodes the value of a BAR from its first register, `lower_32`, and the register after it, `upper_32`,
/// which only a 64-bit BAR uses. 16-bit BARs and the reserved type 3 are not supported.
pub fn bar_value_from_registers(lower_32: u32, upper_32: u32) -> (r: BarValue)
    requires
        bar_type(lower_32) == 0 || bar_type(lower_32) == 2,
    ensures
        r == bar_value_of(lower_32, upper_32),
{
    assert(((lower_32 & (1u32 << 3u32)) != 0) == ((lower_32 / 8) % 2 == 1)
        && ((lower_32 >> 1u32) & 0b11) == (lower_32 / 2) % 4
        && (lower_32 & !0b1111u32) == lower_32 - lower_32 % 16
        && (((upper_32 as u64) << 32u64) | ((lower_32 as u64) & !0b1111u64))
            == upper_32 as u64 * 0x1_0000_0000 + lower_32 - lower_32 % 16) by (bit_vector);
    let prefetchable = lower_32 & (1u32 << 3u32) != 0;
    let bar_type = (lower_32 >> 1u32) & 0b11;
    if bar_type == 0 {
        BarValue::MemorySpace {
            base_address: MemorySpaceBarBaseAddress::Small(lower_32 & !0b1111u32),
            prefetchable,
        }
    } else {
        BarValue::MemorySpace {
            base_address: MemorySpaceBarBaseAddress::Large(((upper_32 as u64) << 32u64) | ((lower_32 as u64) & !0b1111u64)),
            prefetchable,
        }
    }
}

/// The size of a BAR, computed from the value read back after writing all ones to it: only the address bits
/// at and above the size can be set by software, so the size is the two's complement of those bits.
/// An all-zero read-back (no writable address bits) is not a valid BAR.
pub fn bar_size_from_probe(value_after_write: u32) -> (r: u64)
    requires
        value_after_write - value_after_write % 16 != 0,
    ensures
        r == 0x1_0000_0000 - (value_after_write - value_after_write % 16),
{
    let masked_address = value_after_write & !0b1111u32;
    assert(masked_address == value_after_write - value_after_write % 16 && !masked_address == 0xffff_ffff
        - masked_address) by (bit_vector)
        requires
            masked_address == value_after_write & !0b1111u32,
    ;
    (!masked_address + 1) as u64
}

/// The physical frames that a memory BAR at `base_address` of `size` bytes is mapped to, as the start
/// addresses of the first frame and of the frame after the last one. A base address of zero means that
/// the firmware did not allocate the BAR.
pub fn bar_frame_range(base_address: u64, size: u64) -> (r: (u64, u64))
    requires
        base_address != 0,
        is_phys_addr(base_address),
        base_address - base_address % 0x1000 + (size / 0x1000) * 0x1000 < 0x10_0000_0000_0000,
    ensures
        r.0 == base_address - base_address % 0x1000,
        r.1 == r.0 + (size / 0x1000) * 0x1000,
{
    let start = frame_containing(base_address);
    let end = phys_addr_add(start, (size / 0x1000) * 0x1000);
    (start, end)
}

/// Whether a 64-bit value may be written as the base address of a BAR of `size` bytes:
/// it must be aligned to the size.
pub fn bar_value_is_aligned(value: u64, size: u64) -> (r: bool)
    requires
        size >= 1,
    ensures
        r == (value & (size - 1) as u64 == 0),
{
    value & (size - 1) == 0
}


/// The values written to the registers of a memory BAR to give it the 32-bit base address `value`:
/// the BAR's register gets `value`, and the register after a 64-bit BAR gets 0, clearing the top half
/// of its address.
pub fn bar_write_u32_values(base_address: MemorySpaceBarBaseAddress, value: u32) -> (r: (u32, Option<u32>))
    ensures
        r == match base_address {
            MemorySpaceBarBaseAddress::Small(_) => (value, None::<u32>),
            MemorySpaceBarBaseAddress::Large(_) => (value, Some(0u32)),
        },
{
    match base_address {
        MemorySpaceBarBaseAddress::Small(_) => (value, None),
        MemorySpaceBarBaseAddress::Large(_) => (value, Some(0)),
    }
}

/// The values written to the two registers of a 64-bit memory BAR of `size` bytes to give it the
/// base address `value`, which must be aligned to the size: the low half goes to the BAR's register
/// and the high half to the register after it (written first).
pub fn bar_write_u64_values(base_address: MemorySpaceBarBaseAddress, value: u64, size: u64) -> (r: (u32, u32))
    requires
        base_address is Large,
        size >= 1,
        value & (size - 1) as u64 == 0,
    ensures
        r.0 == value % 0x1_0000_0000,
        r.1 == value / 0x1_0000_0000,
{
    assert(value as u32 == value % 0x1_0000_0000 && (value >> 32u64) as u32 == value / 0x1_0000_0000) by (bit_vector);
    (value as u32, (value >> 32u64) as u32)
}

/// What a BAR register holds after `written` is written to it when it held `old`: its four low
/// bits are read-only flags that keep their value, and the address bits are taken from the write.
pub open spec fn bar_register_after_write(old: u32, written: u32) -> u32 {
    (written - written % 16 + old % 16) as u32
}

/// A register that keeps its four low bits across a write keeps the type and prefetchable flags of a BAR.
proof fn lemma_flags_kept(after: u32, lower: u32)
    requires
        after % 16 == lower % 16,
    ensures
        bar_type(after) == bar_type(lower),
        (after / 8) % 2 == (lower / 8) % 2,
{
    assert((after / 2) % 4 == (lower / 2) % 4 && (after / 8) % 2 == (lower / 8) % 2) by (bit_vector)
        requires
            after % 16 == lower % 16,
    ;
}

/// Writing a 32-bit base address to a memory BAR, with the values of [`bar_write_u32_values`], and
/// reading the BAR back gives the address written and leaves the prefetchable flag as it was, for an
/// address whose four flag bits are clear.
pub proof fn lemma_bar_write_u32_reads_back(lower: u32, upper: u32, value: u32)
    requires
        bar_type(lower) == 0 || bar_type(lower) == 2,
        value % 16 == 0,
    ensures
        bar_type(lower) == 0 ==> bar_value_of(bar_register_after_write(lower, value), upper) == (BarValue::MemorySpace {
            base_address: MemorySpaceBarBaseAddress::Small(value),
            prefetchable: (lower / 8) % 2 == 1,
        }),
        bar_type(lower) == 2 ==> bar_value_of(bar_register_after_write(lower, value), 0) == (BarValue::MemorySpace {
            base_address: MemorySpaceBarBaseAddress::Large(value as u64),
            prefetchable: (lower / 8) % 2 == 1,
        }),
{
    let after = bar_register_after_write(lower, value);
    assert(after % 16 == lower % 16 && after - after % 16 == value) by (bit_vector)
        requires
            value % 16 == 0,
            after == (value - value % 16 + lower % 16) as u32,
    ;
    lemma_flags_kept(after, lower);
}

/// Writing a 64-bit base address to a 64-bit BAR of `size` bytes, with the values of
/// [`bar_write_u64_values`], and reading the BAR back gives the address written and leaves the
/// prefetchable flag as it was. BAR sizes are powers of two of at least 16 bytes.
pub proof fn lemma_bar_write_u64_reads_back(lower: u32, value: u64, size: u64)
    requires
        bar_type(lower) == 2,
        size >= 16,
        size & (size - 1) as u64 == 0,
        value & (size - 1) as u64 == 0,
    ensures
        bar_value_of(
            bar_register_after_write(lower, (value % 0x1_0000_0000) as u32),
            (value / 0x1_0000_0000) as u32,
        ) == (BarValue::MemorySpace {
            base_address: MemorySpaceBarBaseAddress::Large(value),
            prefetchable: (lower / 8) % 2 == 1,
        }),
{
    assert(value % 16 == 0) by (bit_vector)
        requires
            size >= 16,
            size & (size - 1) as u64 == 0,
            value & (size - 1) as u64 == 0,
    ;
    let lo = (value % 0x1_0000_0000) as u32;
    let hi = (value / 0x1_0000_0000) as u32;
    assert(lo % 16 == 0);
    assert(hi * 0x1_0000_0000 + lo == value);
    let after = bar_register_after_write(lower, lo);
    assert(after % 16 == lower % 16 && after - after % 16 == lo) by (bit_vector)
        requires
            lo % 16 == 0,
            after == (lo - lo % 16 + lower % 16) as u32,
    ;
    lemma_flags_kept(after, lower);
}

} // verus!
