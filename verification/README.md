# kernel

The PCI and xHCI (USB 3) driver logic of a small x86-64 kernel, written in Verus: the decisions
the drivers take about register values, configuration headers, TRBs and rings are executable
functions whose behaviour is stated in `requires`/`ensures` and proved. The kernel side in `app/`
still makes a few checks of its own before it calls the library, where a call's `requires` asks
for them: the header type of a function, the kind and bounds of a BAR, the pages given to rings,
and that a timer does not overflow.

## Layout

- `src/` — the verified library.
  - `bitfield.rs` — reading and writing bit fields of 16, 32 and 64-bit registers, with the
    lemmas that a field reads back what was written and leaves the others alone.
  - `addr.rs` — physical address checks and arithmetic, done by the `x86_64` crate behind
    trusted wrappers.
  - `pci/` — configuration addresses, class codes, header parsing, BAR decoding, the
    capability list, MSI and MSI-X set-up values, and the decisions of a bus scan.
  - `usb/xhci/` — the controller's register sets (capability, operational, port, runtime,
    doorbell, extended capabilities), TRBs and the command, transfer and event rings, device and
    input contexts, the device context base address array, and the tasks that react to events.
- `tests/` — tests of the library on concrete values.
- `app/` — the kernel side that Verus does not see: memory-mapped register access, the serial
  port, the task executor and the asynchronous driver loops. It hands the library plain values
  read from the hardware and writes back what the library computes.

## Running

The library is verified with Verus; `tests/` are ordinary Rust tests linked against it.
