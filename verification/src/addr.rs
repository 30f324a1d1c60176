//! Physical addresses, as the `x86_64` crate checks and computes them.
//!
//! Addresses are carried as plain `u64` values; every check and computation that the
//! kernel performs on them is delegated to `x86_64::PhysAddr` and `x86_64::structures::paging::PhysFrame`.
use vstd::prelude::*;

verus! {

/// Physical addresses have no bit in the range 52 to 64 set.
pub open spec fn is_phys_addr(addr: u64) -> bool {
    addr < 0x10_0000_0000_0000
}

/// The size of a page (and of a physical frame) in bytes.
pub const PAGE_SIZE: u64 = 0x1000;

/// Validates `addr` as a physical address.
///
/// Calls `x86_64::PhysAddr::new`, which panics unless bits 52 to 64 of `addr` are clear
/// (excluded here by `requires`) and otherwise holds `addr` unchanged.
#[verifier::external_body]
pub(crate) fn phys_addr_new(addr: u64) -> (r: u64)
    requires
        is_phys_addr(addr),
    ensures
        r == addr,
{
    x86_64::PhysAddr::new(addr).as_u64()
}

/// Adds a byte offset to a physical address.
///
/// Calls `<x86_64::PhysAddr as Add<u64>>::add`, which panics when the sum overflows or is not a
/// physical address (both excluded here by `requires`) and otherwise returns the sum.
#[verifier::external_body]
pub(crate) fn phys_addr_add(addr: u64, offset: u64) -> (r: u64)
    requires
        is_phys_addr(addr),
        addr + offset < 0x10_0000_0000_0000,
    ensures
        r == addr + offset,
{
    (x86_64::PhysAddr::new(addr) + offset).as_u64()
}

/// The distance in bytes from `base` up to `addr`.
///
/// Calls `<x86_64::PhysAddr as Sub<PhysAddr>>::sub`, which panics when `addr < base`
/// (excluded here by `requires`) and otherwise returns the difference.
#[verifier::external_body]
pub(crate) fn phys_addr_sub(addr: u64, base: u64) -> (r: u64)
    requires
        is_phys_addr(addr),
        is_phys_addr(base),
        base <= addr,
    ensures
        r == addr - base,
{
    x86_64::PhysAddr::new(addr) - x86_64::PhysAddr::new(base)
}

/// The start address of the 4KiB physical frame that contains `addr`.
///
/// Calls `x86_64::structures::paging::PhysFrame::<Size4KiB>::containing_address`, which rounds the
/// address down to a multiple of the frame size.
#[verifier::external_body]
pub(crate) fn frame_containing(addr: u64) -> (r: u64)
    requires
        is_phys_addr(addr),
    ensures
        r == addr - addr % 0x1000,
{
    x86_64::structures::paging::PhysFrame::<x86_64::structures::paging::Size4KiB>::containing_address(
        x86_64::PhysAddr::new(addr),
    ).start_address().as_u64()
}

} // verus!
