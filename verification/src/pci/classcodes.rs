//! The PCI class code of a function, and the errors from parsing one.
use vstd::prelude::*;

verus! {

/// An error resulting from an invalid value being parsed as a [`ClassCode`] or another header field.
#[derive(Debug, Clone, Copy, PartialEq, Eq)]
pub struct InvalidValueError {
    /// The value which is invalid
    pub value: u8,
    /// The name of the field for which an invalid value was found
    pub field: &'static str,
}

/// A device which does not fall into the other categories.
#[derive(Debug, Clone, Copy, PartialEq, Eq)]
pub enum UnclassifiedDeviceType {
    /// The device does not support VGA
    NonVgaCompatible,
    /// The device supports VGA
    VgaCompatible,
}

/// The result of parsing an unclassified device's subclass.
pub open spec fn unclassified_result(subclass: u8) -> Result<UnclassifiedDeviceType, InvalidValueError> {
    match subclass {
        0x00 => Ok(UnclassifiedDeviceType::NonVgaCompatible),
        0x01 => Ok(UnclassifiedDeviceType::VgaCompatible),
        _ => Err(InvalidValueError { value: subclass, field: "Unclassified device subclass" }),
    }
}

impl UnclassifiedDeviceType {
    /// Constructs an [`UnclassifiedDeviceType`] from the subclass.
    pub fn from_subclass(subclass: u8) -> (r: Result<Self, InvalidValueError>)
        ensures
            r == unclassified_result(subclass),
    {
        match subclass {
            0x00 => Ok(UnclassifiedDeviceType::NonVgaCompatible),
            0x01 => Ok(UnclassifiedDeviceType::VgaCompatible),
            _ => Err(InvalidValueError { value: subclass, field: "Unclassified device subclass" }),
        }
    }
}

/// A type of mass storage controller.
#[derive(Debug, Clone, Copy, PartialEq, Eq)]
pub enum MassStorageControllerType {
    SCSIBusController,
    IDEController,
    FloppyDiskController,
    IPIBusController,
    RAIDController,
    ATAController,
    SerialATAController,
    SerialAttachedSCSIController,
    NonVolatileMemoryController,
    /// A different type of storage controller
    Other,
}

/// The mass storage controller type of each subclass, or `None` for an unknown subclass.
pub open spec fn mass_storage_type_of(subclass: u8) -> Option<MassStorageControllerType> {
    match subclass {
        0x00 => Some(MassStorageControllerType::SCSIBusController),
        0x01 => Some(MassStorageControllerType::IDEController),
        0x02 => Some(MassStorageControllerType::FloppyDiskController),
        0x03 => Some(MassStorageControllerType::IPIBusController),
        0x04 => Some(MassStorageControllerType::RAIDController),
        0x05 => Some(MassStorageControllerType::ATAController),
        0x06 => Some(MassStorageControllerType::SerialATAController),
        0x07 => Some(MassStorageControllerType::SerialAttachedSCSIController),
        0x08 => Some(MassStorageControllerType::NonVolatileMemoryController),
        0x80 => Some(MassStorageControllerType::Other),
        _ => None,
    }
}

/// The result of parsing a mass storage controller's subclass.
pub open spec fn mass_storage_result(subclass: u8) -> Result<MassStorageControllerType, InvalidValueError> {
    match mass_storage_type_of(subclass) {
        Some(t) => Ok(t),
        None => Err(InvalidValueError { value: subclass, field: "Unclassified device subclass" }),
    }
}

impl MassStorageControllerType {
    /// Constructs a [`MassStorageControllerType`] from the subclass; the programming interface is not looked at.
    pub fn from_subclass(subclass: u8, _prog_if: u8) -> (r: Result<Self, InvalidValueError>)
        ensures
            r == mass_storage_result(subclass),
    {
        match subclass {
            0x00 => Ok(MassStorageControllerType::SCSIBusController),
            0x01 => Ok(MassStorageControllerType::IDEController),
            0x02 => Ok(MassStorageControllerType::FloppyDiskController),
            0x03 => Ok(MassStorageControllerType::IPIBusController),
            0x04 => Ok(MassStorageControllerType::RAIDController),
            0x05 => Ok(MassStorageControllerType::ATAController),
            0x06 => Ok(MassStorageControllerType::SerialATAController),
            0x07 => Ok(MassStorageControllerType::SerialAttachedSCSIController),
            0x08 => Ok(MassStorageControllerType::NonVolatileMemoryController),
            0x80 => Ok(MassStorageControllerType::Other),
            _ => Err(InvalidValueError { value: subclass, field: "Unclassified device subclass" }),
        }
    }
}

/// A type of USB controller.
#[derive(Debug, Clone, Copy, PartialEq, Eq)]
pub enum USBControllerType {
    /// Universal host controller interface (UHCI) controller
    Uhci,
    /// Open host controller interface (OHCI) controller
    Ohci,
    /// Enhanced host controller interface (EHCI) controller
    Ehci,
    /// Extensible host controller interface (XHCI) controller
    Xhci,
    /// An unspecified controller type
    Unspecified,
    /// The PCI device is a USB device rather than a USB controller
    Device,
}

/// The USB controller type of each programming interface, or `None` for an unknown one.
pub open spec fn usb_controller_type_of(prog_if: u8) -> Option<USBControllerType> {
    match prog_if {
        0x00 => Some(USBControllerType::Uhci),
        0x10 => Some(USBControllerType::Ohci),
        0x20 => Some(USBControllerType::Ehci),
        0x30 => Some(USBControllerType::Xhci),
        0x80 => Some(USBControllerType::Unspecified),
        0xFE => Some(USBControllerType::Device),
        _ => None,
    }
}

/// The result of parsing a USB controller's programming interface.
pub open spec fn usb_controller_result(prog_if: u8) -> Result<USBControllerType, InvalidValueError> {
    match usb_controller_type_of(prog_if) {
        Some(t) => Ok(t),
        None => Err(InvalidValueError { value: prog_if, field: "USB " }),
    }
}

impl USBControllerType {
    /// Constructs a [`USBControllerType`] from the associated programming interface.
    pub fn from_prog_if(prog_if: u8) -> (r: Result<Self, InvalidValueError>)
        ensures
            r == usb_controller_result(prog_if),
    {
        match prog_if {
            0x00 => Ok(USBControllerType::Uhci),
            0x10 => Ok(USBControllerType::Ohci),
            0x20 => Ok(USBControllerType::Ehci),
            0x30 => Ok(USBControllerType::Xhci),
            0x80 => Ok(USBControllerType::Unspecified),
            0xFE => Ok(USBControllerType::Device),
            _ => Err(InvalidValueError { value: prog_if, field: "USB " }),
        }
    }
}

/// A type of serial bus controller.
#[derive(Debug, Clone, Copy, PartialEq, Eq)]
pub enum SerialBusControllerType {
    FireWireController,
    AccessBusController,
    Ssa,
    /// A Universal Serial Bus controller
    UsbController(USBControllerType),
    FibreChannel,
    SMBusController,
    InfiniBandController,
    IpmiInterface,
    SercosInterface,
    CanBusController,
    /// A controller for another type of serial bus
    Other,
}

/// The serial bus controller type of each subclass (for subclass 3, of each programming interface),
/// or `None` where one of them is unknown.
pub open spec fn serial_bus_type_of(subclass: u8, prog_if: u8) -> Option<SerialBusControllerType> {
    match subclass {
        0x00 => Some(SerialBusControllerType::FireWireController),
        0x01 => Some(SerialBusControllerType::AccessBusController),
        0x02 => Some(SerialBusControllerType::Ssa),
        0x03 => match usb_controller_type_of(prog_if) {
            Some(t) => Some(SerialBusControllerType::UsbController(t)),
            None => None,
        },
        0x04 => Some(SerialBusControllerType::FibreChannel),
        0x05 => Some(SerialBusControllerType::SMBusController),
        0x06 => Some(SerialBusControllerType::InfiniBandController),
        0x07 => Some(SerialBusControllerType::IpmiInterface),
        0x08 => Some(SerialBusControllerType::SercosInterface),
        0x09 => Some(SerialBusControllerType::CanBusController),
        0x80 => Some(SerialBusControllerType::Other),
        _ => None,
    }
}

/// The result of parsing a serial bus controller's subclass and programming interface.
pub open spec fn serial_bus_result(subclass: u8, prog_if: u8) -> Result<SerialBusControllerType, InvalidValueError> {
    match subclass {
        0x03 => match usb_controller_result(prog_if) {
            Ok(t) => Ok(SerialBusControllerType::UsbController(t)),
            Err(e) => Err(e),
        },
        _ => match serial_bus_type_of(subclass, prog_if) {
            Some(t) => Ok(t),
            None => Err(InvalidValueError { value: subclass, field: "Serial bus controller type" }),
        },
    }
}

impl SerialBusControllerType {
    /// Constructs a [`SerialBusControllerType`] from its subclass and programming interface.
    pub fn from_subclass(subclass: u8, prog_if: u8) -> (r: Result<Self, InvalidValueError>)
        ensures
            r == serial_bus_result(subclass, prog_if),
    {
        match subclass {
            0x00 => Ok(SerialBusControllerType::FireWireController),
            0x01 => Ok(SerialBusControllerType::AccessBusController),
            0x02 => Ok(SerialBusControllerType::Ssa),
            0x03 => match USBControllerType::from_prog_if(prog_if) {
                Ok(t) => Ok(SerialBusControllerType::UsbController(t)),
                Err(e) => Err(e),
            },
            0x04 => Ok(SerialBusControllerType::FibreChannel),
            0x05 => Ok(SerialBusControllerType::SMBusController),
            0x06 => Ok(SerialBusControllerType::InfiniBandController),
            0x07 => Ok(SerialBusControllerType::IpmiInterface),
            0x08 => Ok(SerialBusControllerType::SercosInterface),
            0x09 => Ok(SerialBusControllerType::CanBusController),
            0x80 => Ok(SerialBusControllerType::Other),
            _ => Err(InvalidValueError { value: subclass, field: "Serial bus controller type" }),
        }
    }
}

/// The general function performed by a PCI device.
#[derive(Debug, Clone, Copy, PartialEq, Eq)]
pub enum ClassCode {
    /// 0x00
    Unclassified(UnclassifiedDeviceType),
    /// 0x01
    MassStorageController(MassStorageControllerType),
    /// 0x02
    NetworkController,
    /// 0x03
    DisplayController,
    /// 0x04
    MultimediaController,
    /// 0x05
    MemoryController,
    /// 0x06
    Bridge,
    /// 0x07
    SimpleCommunicationController,
    /// 0x08
    BaseSystemPeripheral,
    /// 0x09
    InputDeviceController,
    /// 0x0A
    DockingStation,
    /// 0x0B
    Processor,
    /// 0x0C
    SerialBusController(SerialBusControllerType),
    /// 0x0D
    WirelessController,
    /// 0x0E
    IntelligentController,
    /// 0x0F
    SatelliteCommunicationController,
    /// 0x10
    EncryptionController,
    /// 0x11
    SignalProcessingController,
    /// 0x12
    ProcessingAccelerator,
    /// 0x13
    NonEssentialInstrumentation,
    /// 0x40
    CoProcessor,
    /// 0xFF
    Unassigned,
}

/// The class code of each (class, subclass, programming interface) triple, or `None` where one of them is unknown.
pub open spec fn class_code_of(class_code: u8, subclass: u8, prog_if: u8) -> Option<ClassCode> {
    match class_code {
        0x00 => if subclass == 0 {
            Some(ClassCode::Unclassified(UnclassifiedDeviceType::NonVgaCompatible))
        } else if subclass == 1 {
            Some(ClassCode::Unclassified(UnclassifiedDeviceType::VgaCompatible))
        } else {
            None
        },
        0x01 => match mass_storage_type_of(subclass) {
            Some(t) => Some(ClassCode::MassStorageController(t)),
            None => None,
        },
        0x02 => Some(ClassCode::NetworkController),
        0x03 => Some(ClassCode::DisplayController),
        0x04 => Some(ClassCode::MultimediaController),
        0x05 => Some(ClassCode::MemoryController),
        0x06 => Some(ClassCode::Bridge),
        0x07 => Some(ClassCode::SimpleCommunicationController),
        0x08 => Some(ClassCode::BaseSystemPeripheral),
        0x09 => Some(ClassCode::InputDeviceController),
        0x0A => Some(ClassCode::DockingStation),
        0x0B => Some(ClassCode::Processor),
        0x0C => match serial_bus_type_of(subclass, prog_if) {
            Some(t) => Some(ClassCode::SerialBusController(t)),
            None => None,
        },
        0x0D => Some(ClassCode::WirelessController),
        0x0E => Some(ClassCode::IntelligentController),
        0x0F => Some(ClassCode::SatelliteCommunicationController),
        0x10 => Some(ClassCode::EncryptionController),
        0x11 => Some(ClassCode::SignalProcessingController),
        0x12 => Some(ClassCode::ProcessingAccelerator),
        0x13 => Some(ClassCode::NonEssentialInstrumentation),
        0x40 => Some(ClassCode::CoProcessor),
        0xFF => Some(ClassCode::Unassigned),
        _ => None,
    }
}

/// The result of parsing a class code, subclass and programming interface.
pub open spec fn class_code_result(class_code: u8, subclass: u8, prog_if: u8) -> Result<ClassCode, InvalidValueError> {
    match class_code {
        0x00 => match unclassified_result(subclass) {
            Ok(t) => Ok(ClassCode::Unclassified(t)),
            Err(e) => Err(e),
        },
        0x01 => match mass_storage_result(subclass) {
            Ok(t) => Ok(ClassCode::MassStorageController(t)),
            Err(e) => Err(e),
        },
        0x0C => match serial_bus_result(subclass, prog_if) {
            Ok(t) => Ok(ClassCode::SerialBusController(t)),
            Err(e) => Err(e),
        },
        _ => match class_code_of(class_code, subclass, prog_if) {
            Some(c) => Ok(c),
            None => Err(InvalidValueError { value: class_code, field: "Class code" }),
        },
    }
}

/// A USB controller's programming interface says which host controller interface it implements, as the PCI
/// code and ID assignments give them: 0x00 UHCI, 0x10 OHCI, 0x20 EHCI, 0x30 xHCI, 0x80 unspecified, and 0xFE for
/// a USB device rather than a controller. Each type has exactly this one programming interface, and every other
/// value is refused, both when the programming interface is decoded alone and as part of the class code
/// 0x0C (serial bus controller), subclass 0x03 (USB).
pub proof fn lemma_usb_programming_interfaces(prog_if: u8)
    ensures
        (usb_controller_result(prog_if) == Ok::<USBControllerType, InvalidValueError>(USBControllerType::Uhci)) == (prog_if == 0x00),
        (usb_controller_result(prog_if) == Ok::<USBControllerType, InvalidValueError>(USBControllerType::Ohci)) == (prog_if == 0x10),
        (usb_controller_result(prog_if) == Ok::<USBControllerType, InvalidValueError>(USBControllerType::Ehci)) == (prog_if == 0x20),
        (usb_controller_result(prog_if) == Ok::<USBControllerType, InvalidValueError>(USBControllerType::Xhci)) == (prog_if == 0x30),
        (usb_controller_result(prog_if) == Ok::<USBControllerType, InvalidValueError>(USBControllerType::Unspecified)) == (prog_if == 0x80),
        (usb_controller_result(prog_if) == Ok::<USBControllerType, InvalidValueError>(USBControllerType::Device)) == (prog_if == 0xFE),
        usb_controller_result(prog_if) is Err == !(prog_if == 0x00 || prog_if == 0x10 || prog_if == 0x20 || prog_if == 0x30 || prog_if == 0x80 || prog_if == 0xFE),
        (class_code_result(0x0C, 0x03, prog_if) == Ok::<ClassCode, InvalidValueError>(
            ClassCode::SerialBusController(SerialBusControllerType::UsbController(USBControllerType::Uhci)),
        )) == (prog_if == 0x00),
        (class_code_result(0x0C, 0x03, prog_if) == Ok::<ClassCode, InvalidValueError>(
            ClassCode::SerialBusController(SerialBusControllerType::UsbController(USBControllerType::Ohci)),
        )) == (prog_if == 0x10),
        (class_code_result(0x0C, 0x03, prog_if) == Ok::<ClassCode, InvalidValueError>(
            ClassCode::SerialBusController(SerialBusControllerType::UsbController(USBControllerType::Ehci)),
        )) == (prog_if == 0x20),
        (class_code_result(0x0C, 0x03, prog_if) == Ok::<ClassCode, InvalidValueError>(
            ClassCode::SerialBusController(SerialBusControllerType::UsbController(USBControllerType::Xhci)),
        )) == (prog_if == 0x30),
        (class_code_result(0x0C, 0x03, prog_if) == Ok::<ClassCode, InvalidValueError>(
            ClassCode::SerialBusController(SerialBusControllerType::UsbController(USBControllerType::Unspecified)),
        )) == (prog_if == 0x80),
        (class_code_result(0x0C, 0x03, prog_if) == Ok::<ClassCode, InvalidValueError>(
            ClassCode::SerialBusController(SerialBusControllerType::UsbController(USBControllerType::Device)),
        )) == (prog_if == 0xFE),
        class_code_result(0x0C, 0x03, prog_if) is Err == !(prog_if == 0x00 || prog_if == 0x10 || prog_if == 0x20 || prog_if == 0x30 || prog_if == 0x80 || prog_if == 0xFE),
{
}

impl ClassCode {
    /// Constructs a [`ClassCode`] from its class code, subclass and programming interface.
    ///
    /// An unknown class code is reported with the field name `"Class code"`; an unknown subclass or
    /// programming interface is reported as the subclass parsers report it.
    pub fn new(class_code: u8, subclass: u8, prog_if: u8) -> (r: Result<Self, InvalidValueError>)
        ensures
            r == class_code_result(class_code, subclass, prog_if),
            r is Ok <==> class_code_of(class_code, subclass, prog_if) is Some,
            r matches Ok(c) ==> class_code_of(class_code, subclass, prog_if) == Some(c),
    {
        match class_code {
            0x00 => match UnclassifiedDeviceType::from_subclass(subclass) {
                Ok(t) => Ok(ClassCode::Unclassified(t)),
                Err(e) => Err(e),
            },
            0x01 => match MassStorageControllerType::from_subclass(subclass, prog_if) {
                Ok(t) => Ok(ClassCode::MassStorageController(t)),
                Err(e) => Err(e),
            },
            0x02 => Ok(ClassCode::NetworkController),
            0x03 => Ok(ClassCode::DisplayController),
            0x04 => Ok(ClassCode::MultimediaController),
            0x05 => Ok(ClassCode::MemoryController),
            0x06 => Ok(ClassCode::Bridge),
            0x07 => Ok(ClassCode::SimpleCommunicationController),
            0x08 => Ok(ClassCode::BaseSystemPeripheral),
            0x09 => Ok(ClassCode::InputDeviceController),
            0x0A => Ok(ClassCode::DockingStation),
            0x0B => Ok(ClassCode::Processor),
            0x0C => match SerialBusControllerType::from_subclass(subclass, prog_if) {
                Ok(t) => Ok(ClassCode::SerialBusController(t)),
                Err(e) => Err(e),
            },
            0x0D => Ok(ClassCode::WirelessController),
            0x0E => Ok(ClassCode::IntelligentController),
            0x0F => Ok(ClassCode::SatelliteCommunicationController),
            0x10 => Ok(ClassCode::EncryptionController),
            0x11 => Ok(ClassCode::SignalProcessingController),
            0x12 => Ok(ClassCode::ProcessingAccelerator),
            0x13 => Ok(ClassCode::NonEssentialInstrumentation),
            0x40 => Ok(ClassCode::CoProcessor),
            0xFF => Ok(ClassCode::Unassigned),
            _ => Err(InvalidValueError { value: class_code, field: "Class code" }),
        }
    }
}

} // verus!
