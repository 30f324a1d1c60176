//! Verified core of a small x86-64 kernel's PCI and xHCI USB drivers:
//! address arithmetic, register bit layouts, header parsing, TRB encoding
//! and the ring buffers shared with the host controller.
pub mod bitfield;
pub mod addr;
pub mod usb;
pub mod pci;
