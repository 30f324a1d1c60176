//! Addresses of PCI hardware at different granularities: [`PciDevice`], [`PciFunction`] and [`PciRegister`].
use vstd::prelude::*;
use crate::addr::{is_phys_addr, phys_addr_add};

verus! {

/// An error which can occur when constructing a PCI address.
#[derive(Debug, Clone, Copy, PartialEq, Eq)]
pub enum PciInvalidAddressError {
    /// The device number was too high
    Device(u8),
    /// The function number was too high
    Function(u8),
    /// The offset number was not 4 byte aligned
    Offset(u8),
}

/// Device numbers are 5 bits wide, function numbers 3 bits wide, and register offsets are 4-byte aligned.
pub proof fn lemma_address_part_checks(device: u8, function: u8, offset: u8)
    ensures
        (device & 0b1110_0000 != 0) == (device >= 32),
        (function & 0b1111_1000 != 0) == (function >= 8),
        (offset & 0b0000_0011 != 0) == (offset % 4 != 0),
{
    assert((device & 0b1110_0000 != 0) == (device >= 32) && (function & 0b1111_1000 != 0) == (function >= 8)
        && (offset & 0b0000_0011 != 0) == (offset % 4 != 0)) by (bit_vector);
}

/// Checks that the given device number fits in a PCI address.
fn check_device_id(device: u8) -> (r: Result<(), PciInvalidAddressError>)
    ensures
        r is Err <==> device >= 32,
        r is Err ==> r == Err::<(), _>(PciInvalidAddressError::Device(device)),
{
    proof {
        lemma_address_part_checks(device, 0, 0);
    }
    if device & 0b1110_0000 != 0 {
        Err(PciInvalidAddressError::Device(device))
    } else {
        Ok(())
    }
}

/// Checks that the given function number fits in a PCI address.
fn check_function_id(function: u8) -> (r: Result<(), PciInvalidAddressError>)
    ensures
        r is Err <==> function >= 8,
        r is Err ==> r == Err::<(), _>(PciInvalidAddressError::Function(function)),
{
    proof {
        lemma_address_part_checks(0, function, 0);
    }
    if function & 0b1111_1000 != 0 {
        Err(PciInvalidAddressError::Function(function))
    } else {
        Ok(())
    }
}

/// Checks that the given register offset is valid for the standard PCI access scheme (4-byte aligned).
fn check_register_offset(offset: u8) -> (r: Result<(), PciInvalidAddressError>)
    ensures
        r is Err <==> offset % 4 != 0,
        r is Err ==> r == Err::<(), _>(PciInvalidAddressError::Offset(offset)),
{
    proof {
        lemma_address_part_checks(0, 0, offset);
    }
    if offset & 0b0000_0011 != 0 {
        Err(PciInvalidAddressError::Offset(offset))
    } else {
        Ok(())
    }
}

/// The address of a specific 32-bit register of a PCI device.
#[derive(Debug, Clone, Copy)]
pub struct PciRegister {
    /// The bus number
    bus: u8,
    /// The device number on the bus
    device: u8,
    /// The function number on the device
    function: u8,
    /// The register offset in bytes; 4-byte aligned
    offset: u8,
}

/// The value written to the `CONFIG_ADDRESS` port to select a register: the enable bit (31), then the bus,
/// device, function and offset.
pub open spec fn config_address(bus: u8, device: u8, function: u8, offset: u8) -> int {
    0x8000_0000 + bus * 0x1_0000 + device * 0x800 + function * 0x100 + offset
}

impl PciRegister {
    #[verifier::type_invariant]
    spec fn valid(self) -> bool {
        self.device < 32 && self.function < 8 && self.offset % 4 == 0
    }

    /// The bus number.
    pub closed spec fn bus_spec(self) -> u8 {
        self.bus
    }

    /// The device number.
    pub closed spec fn device_spec(self) -> u8 {
        self.device
    }

    /// The function number.
    pub closed spec fn function_spec(self) -> u8 {
        self.function
    }

    /// The byte offset of the register.
    pub closed spec fn offset_spec(self) -> u8 {
        self.offset
    }


    /// Calculates a PCI register address from the bus, device, function and offset.
    ///
    /// The address is invalid, and the first error found is returned, if the highest 3 bits of `device`,
    /// the highest 5 bits of `function` or the lowest 2 bits of `offset` are set.
    pub fn from_parts(bus: u8, device: u8, function: u8, offset: u8) -> (r: Result<Self, PciInvalidAddressError>)
        ensures
            device >= 32 ==> r == Err::<Self, _>(PciInvalidAddressError::Device(device)),
            device < 32 && function >= 8 ==> r == Err::<Self, _>(PciInvalidAddressError::Function(function)),
            device < 32 && function < 8 && offset % 4 != 0 ==> r == Err::<Self, _>(PciInvalidAddressError::Offset(offset)),
            r matches Ok(reg) ==> reg.bus_spec() == bus && reg.device_spec() == device
                && reg.function_spec() == function && reg.offset_spec() == offset,
            r is Ok <==> (device < 32 && function < 8 && offset % 4 == 0),
    {
        match check_device_id(device) {
            Err(e) => return Err(e),
            Ok(()) => {},
        }
        match check_function_id(function) {
            Err(e) => return Err(e),
            Ok(()) => {},
        }
        match check_register_offset(offset) {
            Err(e) => return Err(e),
            Ok(()) => {},
        }
        Ok(PciRegister { bus, device, function, offset })
    }

    /// Gets the address that needs to be written to the `CONFIG_ADDRESS` port to select this register.
    pub fn get_address(&self) -> (r: u32)
        ensures
            r == config_address(self.bus_spec(), self.device_spec(), self.function_spec(), self.offset_spec()),
    {
        proof {
            use_type_invariant(self);
        }
        let bus = self.bus as u32;
        let device = self.device as u32;
        let function = self.function as u32;
        let offset = self.offset as u32;
        assert(((1u32 << 31u32) | (bus << 16u32) | (device << 11u32) | (function << 8u32) | offset)
            == 0x8000_0000 + bus * 0x1_0000 + device * 0x800 + function * 0x100 + offset) by (bit_vector)
            requires
                bus < 256,
                device < 32,
                function < 8,
                offset < 256,
                offset % 4 == 0,
        ;
        (1u32 << 31u32) | (bus << 16u32) | (device << 11u32) | (function << 8u32) | offset
    }

    /// Gets the next register: the same as this one but with an offset 4 bytes greater.
    /// Returns [`None`] if this register is the PCI device's last register.
    pub fn next(&self) -> (r: Option<Self>)
        ensures
            r is None <==> self.offset_spec() + 4 > 255,
            r matches Some(n) ==> n.bus_spec() == self.bus_spec() && n.device_spec() == self.device_spec()
                && n.function_spec() == self.function_spec() && n.offset_spec() == self.offset_spec() + 4,
    {
        proof {
            use_type_invariant(self);
        }
        match self.offset.checked_add(4) {
            Some(offset) => Some(PciRegister { bus: self.bus, device: self.device, function: self.function, offset }),
            None => None,
        }
    }

    /// Gets the [`PciDevice`] which this register is a part of.
    pub fn get_device(&self) -> (r: PciDevice)
        ensures
            r.bus_spec() == self.bus_spec(),
            r.device_spec() == self.device_spec(),
    {
        proof {
            use_type_invariant(self);
        }
        PciDevice { bus: self.bus, device: self.device }
    }

    /// Gets the [`PciFunction`] which this register is a part of.
    pub fn get_function(&self) -> (r: PciFunction)
        ensures
            r.bus_spec() == self.bus_spec(),
            r.device_spec() == self.device_spec(),
            r.function_spec() == self.function_spec(),
    {
        proof {
            use_type_invariant(self);
        }
        PciFunction { bus: self.bus, device: self.device, function: self.function }
    }

    /// Gets the bus number of the device this register is a part of.
    pub fn get_bus(&self) -> (r: u8)
        ensures
            r == self.bus_spec(),
    {
        self.bus
    }
}

/// A specific function of a [`PciDevice`].
#[derive(Debug, Clone, Copy)]
pub struct PciFunction {
    /// The bus number
    bus: u8,
    /// The device number on the bus
    device: u8,
    /// The function number on the device
    function: u8,
}

/// The byte offset of a function's configuration space from the start of its PCIe controller's
/// configuration region: one MiB per bus, 32 KiB per device and 4 KiB per function.
pub open spec fn config_space_offset(bus: u8, min_bus: u8, device: u8, function: u8) -> int {
    (bus - min_bus) * 0x10_0000 + device * 0x8000 + function * 0x1000
}

impl PciFunction {
    #[verifier::type_invariant]
    spec fn valid(self) -> bool {
        self.device < 32 && self.function < 8
    }

    /// The bus number.
    pub closed spec fn bus_spec(self) -> u8 {
        self.bus
    }

    /// The device number.
    pub closed spec fn device_spec(self) -> u8 {
        self.device
    }

    /// The function number.
    pub closed spec fn function_spec(self) -> u8 {
        self.function
    }


    /// Constructs a new [`PciFunction`] from the bus, device and function numbers, which are checked first.
    pub fn new(bus: u8, device: u8, function: u8) -> (r: Result<Self, PciInvalidAddressError>)
        ensures
            device >= 32 ==> r == Err::<Self, _>(PciInvalidAddressError::Device(device)),
            device < 32 && function >= 8 ==> r == Err::<Self, _>(PciInvalidAddressError::Function(function)),
            r matches Ok(f) ==> f.bus_spec() == bus && f.device_spec() == device && f.function_spec() == function,
            r is Ok <==> (device < 32 && function < 8),
    {
        match check_device_id(device) {
            Err(e) => return Err(e),
            Ok(()) => {},
        }
        match check_function_id(function) {
            Err(e) => return Err(e),
            Ok(()) => {},
        }
        Ok(PciFunction { bus, device, function })
    }

    /// Gets the [`PciRegister`] of this function at the given byte offset.
    pub fn register(&self, offset: u8) -> (r: Result<PciRegister, PciInvalidAddressError>)
        ensures
            offset % 4 != 0 ==> r == Err::<PciRegister, _>(PciInvalidAddressError::Offset(offset)),
            r matches Ok(reg) ==> reg.bus_spec() == self.bus_spec() && reg.device_spec() == self.device_spec()
                && reg.function_spec() == self.function_spec() && reg.offset_spec() == offset,
            r is Ok <==> offset % 4 == 0,
    {
        proof {
            use_type_invariant(self);
        }
        PciRegister::from_parts(self.bus, self.device, self.function, offset)
    }

    /// Gets the [`PciDevice`] which this function is a part of.
    pub fn get_device(&self) -> (r: PciDevice)
        ensures
            r.bus_spec() == self.bus_spec(),
            r.device_spec() == self.device_spec(),
    {
        proof {
            use_type_invariant(self);
        }
        PciDevice { bus: self.bus, device: self.device }
    }

    /// Gets the device number of the device this function is a part of.
    pub fn get_device_number(&self) -> (r: u8)
        ensures
            r == self.device_spec(),
            r < 32,
    {
        proof {
            use_type_invariant(self);
        }
        self.device
    }

    /// Gets the bus number of the device this function is a part of.
    pub fn get_bus_number(&self) -> (r: u8)
        ensures
            r == self.bus_spec(),
    {
        self.bus
    }

    /// Gets the function number.
    pub fn get_function_number(&self) -> (r: u8)
        ensures
            r == self.function_spec(),
            r < 8,
    {
        proof {
            use_type_invariant(self);
        }
        self.function
    }

    /// Gets the physical address of this function's PCIe configuration registers, given the lowest bus
    /// number of its controller and the physical address where the controller's registers start.
    pub fn get_register_address(&self, min_bus: u8, start: u64) -> (r: u64)
        requires
            min_bus <= self.bus_spec(),
            is_phys_addr(start),
            start + config_space_offset(self.bus_spec(), min_bus, self.device_spec(), self.function_spec())
                < 0x10_0000_0000_0000,
        ensures
            r == start + config_space_offset(self.bus_spec(), min_bus, self.device_spec(), self.function_spec()),
    {
        proof {
            use_type_invariant(self);
        }
        let bus_offset = (self.bus as u64) - (min_bus as u64);
        let device = self.device as u64;
        let function = self.function as u64;
        assert(((bus_offset << 20u64) | (device << 15u64) | (function << 12u64))
            == bus_offset * 0x10_0000 + device * 0x8000 + function * 0x1000) by (bit_vector)
            requires
                bus_offset < 256,
                device < 32,
                function < 8,
        ;
        let offset = (bus_offset << 20u64) | (device << 15u64) | (function << 12u64);
        phys_addr_add(start, offset)
    }
}

/// The bus:device address of a PCI device.
#[derive(Debug, Clone, Copy)]
pub struct PciDevice {
    /// The bus number
    bus: u8,
    /// The device number on the bus
    device: u8,
}

impl PciDevice {
    #[verifier::type_invariant]
    spec fn valid(self) -> bool {
        self.device < 32
    }

    /// The bus number.
    pub closed spec fn bus_spec(self) -> u8 {
        self.bus
    }

    /// The device number.
    pub closed spec fn device_spec(self) -> u8 {
        self.device
    }

    /// Constructs a new [`PciDevice`] from the given bus and device numbers, checking the device number.
    /// The segment is not part of the address.
    pub fn new(segment: u16, bus: u8, device: u8) -> (r: Result<Self, PciInvalidAddressError>)
        ensures
            device >= 32 ==> r == Err::<Self, _>(PciInvalidAddressError::Device(device)),
            r matches Ok(d) ==> d.bus_spec() == bus && d.device_spec() == device,
            r is Ok <==> device < 32,
    {
        match check_device_id(device) {
            Err(e) => return Err(e),
            Ok(()) => {},
        }
        Ok(PciDevice { bus, device })
    }

    /// Gets the [`PciFunction`] of this device with the given function number.
    pub fn function(&self, function: u8) -> (r: Result<PciFunction, PciInvalidAddressError>)
        ensures
            function >= 8 ==> r == Err::<PciFunction, _>(PciInvalidAddressError::Function(function)),
            r matches Ok(f) ==> f.bus_spec() == self.bus_spec() && f.device_spec() == self.device_spec()
                && f.function_spec() == function,
            r is Ok <==> function < 8,
    {
        proof {
            use_type_invariant(self);
        }
        PciFunction::new(self.bus, self.device, function)
    }

    /// Gets the bus number this device is on.
    pub fn get_bus_number(&self) -> (r: u8)
        ensures
            r == self.bus_spec(),
    {
        self.bus
    }

    /// Gets the device number of this device on its bus.
    pub fn get_device_number(&self) -> (r: u8)
        ensures
            r == self.device_spec(),
            r < 32,
    {
        proof {
            use_type_invariant(self);
        }
        self.device
    }
}

} // verus!
