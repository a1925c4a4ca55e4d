//! Value types of the PCI configuration space.

use vstd::prelude::*;

verus! {

/// Location of one PCI function.
#[derive(Clone, Copy, Debug, PartialEq, Eq, Structural)]
pub struct PciAddress {
    pub segment: u16,
    pub bus: u8,
    pub device: u8,
    pub function: u8,
}

/// The 32-bit word that selects a configuration dword through the legacy
/// address port: bus in bits 16..24, device from bit 11, function from bit 8,
/// the dword-aligned low byte of the offset, and the enable flag in bit 31.
pub open spec fn local_bus_address(addr: PciAddress, offset: u16, enabled: bool) -> u32 {
    ((addr.bus as u32) << 16) | ((addr.device as u32) << 11) | ((addr.function as u32) << 8) | (
    offset as u32 & 0xFC) | (if enabled {
        0x8000_0000u32
    } else {
        0u32
    })
}

/// Byte offset of a configuration register inside the memory-mapped window
/// of a bus range that starts at `bus_number_start`.
pub open spec fn express_offset(addr: PciAddress, offset: u16, bus_number_start: u8) -> u64 {
    (((addr.bus - bus_number_start) as u64) << 20) | (((addr.device & 0b11111) as u64) << 15) | (((
    addr.function & 0b111) as u64) << 12) | ((offset & 0xFFF) as u64)
}

impl PciAddress {
    #[must_use]
    pub fn create_local_bus_address(&self, offset: u16, enabled: bool) -> (word: u32)
        ensures
            word == local_bus_address(*self, offset, enabled),
    {
        let enabled: u32 = if enabled {
            0x8000_0000u32
        } else {
            0u32
        };

        ((self.bus as u32) << 16) | ((self.device as u32) << 11) | ((self.function as u32) << 8)
            | (offset as u32 & 0xFC) | enabled
    }

    #[must_use]
    pub fn create_express_offset(&self, offset: u16, bus_number_start: u8) -> (bytes: u64)
        requires
            bus_number_start <= self.bus,
        ensures
            bytes == express_offset(*self, offset, bus_number_start),
    {
        (((self.bus - bus_number_start) as u64) << 20) | (((self.device & 0b11111) as u64) << 15)
            | (((self.function & 0b111) as u64) << 12) | ((offset & 0xFFF) as u64)
    }
}


/// For a device below 32 and a function below 8 the fields of the address
/// word lie side by side: the word is the sum of the enable flag, the bus
/// times `0x10000`, the device times `0x800`, the function times `0x100`, and
/// the low byte of the offset rounded down to a multiple of four.
pub proof fn local_bus_address_is_sum_of_fields(addr: PciAddress, offset: u16, enabled: bool)
    requires
        addr.device < 32,
        addr.function < 8,
    ensures
        local_bus_address(addr, offset, enabled) == (if enabled {
            0x8000_0000int
        } else {
            0int
        }) + addr.bus * 0x1_0000 + addr.device * 0x800 + addr.function * 0x100 + (offset % 256
            - offset % 4),
{
    let bus = addr.bus;
    let device = addr.device;
    let function = addr.function;
    let flag = if enabled {
        0x8000_0000u32
    } else {
        0u32
    };
    let word = local_bus_address(addr, offset, enabled);
    assert(word == flag + (bus as u32) * 0x1_0000 + (device as u32) * 0x800 + (function as u32)
        * 0x100 + ((offset % 256) as u32 - (offset % 4) as u32)) by (bit_vector)
        requires
            device < 32,
            function < 8,
            flag == 0x8000_0000u32 || flag == 0u32,
            word == ((bus as u32) << 16) | ((device as u32) << 11) | ((function as u32) << 8) | (
            offset as u32 & 0xFC) | flag,
    ;
}

/// The offset of a register in its window is the sum of its fields: a
/// megabyte for each bus from the first one of the window, `0x8000` for each
/// device, `0x1000` for each function, and the low twelve bits of the offset.
/// It lies within the megabytes of the buses up to that of the function.
pub proof fn express_offset_is_sum_of_fields(addr: PciAddress, offset: u16, bus_number_start: u8)
    requires
        bus_number_start <= addr.bus,
    ensures
        express_offset(addr, offset, bus_number_start) == (addr.bus - bus_number_start)
            * 0x10_0000 + (addr.device % 32) * 0x8000 + (addr.function % 8) * 0x1000 + offset
            % 4096,
        express_offset(addr, offset, bus_number_start) < (addr.bus - bus_number_start + 1)
            * 0x10_0000,
{
    let distance = (addr.bus - bus_number_start) as u64;
    let device = addr.device;
    let function = addr.function;
    let bytes = express_offset(addr, offset, bus_number_start);
    assert(bytes == distance * 0x10_0000 + ((device % 32) as u64) * 0x8000 + ((function % 8) as u64)
        * 0x1000 + (offset % 4096) as u64 && bytes < (distance + 1) * 0x10_0000) by (bit_vector)
        requires
            distance < 256,
            bytes == (distance << 20) | (((device & 0b11111) as u64) << 15) | (((function & 0b111)
                as u64) << 12) | ((offset & 0xFFF) as u64),
    ;
}

/// 16-bit vendor identifier of a PCI function.
#[derive(Clone, Copy, Debug, PartialEq, Eq, Structural)]
pub struct PciVendorId(pub u16);

/// Marketing name of a vendor, where one is known.
pub open spec fn vendor_name(id: u16) -> Option<&'static str> {
    if id == 0x1234 {
        Some("Bochs")
    } else if id == 0x8086 {
        Some("Intel Corporation")
    } else if id == 0xFFFF {
        Some("INVALID")
    } else {
        None
    }
}

impl PciVendorId {
    /// What a read of the vendor register returns where no function answers.
    pub const INVALID: u16 = 0xFFFF;

    pub const BOCHS: u16 = 0x1234;

    pub const INTEL_CORPORATION: u16 = 0x8086;

    #[must_use]
    pub fn new(id: u16) -> (vendor: Self)
        ensures
            vendor.0 == id,
    {
        Self(id)
    }

    #[must_use]
    pub fn value(&self) -> (id: u16)
        ensures
            id == self.0,
    {
        self.0
    }

    #[must_use]
    pub fn name(&self) -> (name: Option<&'static str>)
        ensures
            name == vendor_name(self.0),
    {
        if self.0 == 0x1234 {
            Some("Bochs")
        } else if self.0 == 0x8086 {
            Some("Intel Corporation")
        } else if self.0 == 0xFFFF {
            Some("INVALID")
        } else {
            None
        }
    }
}


/// Whether a base address register describes memory or I/O ports.
#[derive(Debug, Clone, Copy, PartialEq, Eq, Structural)]
pub enum PciBaseAddressType {
    MemorySpace,
    IOSpace,
}

/// Raw contents of a base address register.
#[derive(Clone, Copy, Debug, PartialEq, Eq, Structural)]
pub struct PciBaseAddress(pub u32);

/// Bit 0 of a base address register tells the two kinds apart.
pub open spec fn base_address_kind(value: u32) -> PciBaseAddressType {
    if value & 0b1 == 1 {
        PciBaseAddressType::IOSpace
    } else {
        PciBaseAddressType::MemorySpace
    }
}

/// The address part of a base address register: the flag bits are cleared,
/// and a memory register keeps only bits 4..16.
pub open spec fn base_address_target(value: u32) -> u32 {
    match base_address_kind(value) {
        PciBaseAddressType::MemorySpace => value & 0xFFF0,
        PciBaseAddressType::IOSpace => value & 0xFFFFFFF0,
    }
}

impl PciBaseAddress {
    #[must_use]
    pub fn new(value: u32) -> (bar: Self)
        ensures
            bar.0 == value,
    {
        Self(value)
    }

    #[must_use]
    pub fn value(&self) -> (value: u32)
        ensures
            value == self.0,
    {
        self.0
    }

    #[must_use]
    pub fn kind(&self) -> (kind: PciBaseAddressType)
        ensures
            kind == base_address_kind(self.0),
    {
        if self.0 & 0b1 == 1 {
            PciBaseAddressType::IOSpace
        } else {
            PciBaseAddressType::MemorySpace
        }
    }

    #[must_use]
    pub fn actual_address(&self) -> (address: u32)
        ensures
            address == base_address_target(self.0),
    {
        match self.kind() {
            PciBaseAddressType::MemorySpace => self.value() & 0xFFF0,
            PciBaseAddressType::IOSpace => self.value() & 0xFFFFFFF0,
        }
    }
}

/// Base class of a PCI function, as stored in the class register.
#[derive(Clone, Copy, Debug, PartialEq, Eq, Structural)]
pub enum PciClassCode {
    Unclassified,
    MassStorageController,
    NetworkController,
    DisplayController,
    MultimediaController,
    MemoryController,
    Bridge,
    SimpleCommunicationController,
    BaseSystemPeripheral,
    InputDeviceController,
    DockingStation,
    Processor,
    SerialBusController,
    WirelessController,
    IntelligentController,
    SatelliteCommunicationController,
    EncryptionController,
    SignalProcessingController,
    ProcessingAccelerator,
    NonEssentialInstrumentation,
    Coprocessor,
    Unassigned,
    /// A code that has no assigned meaning.
    Reserved(u8),
}

/// The class that a register value stands for.
pub open spec fn class_code_of(id: u8) -> PciClassCode {
    if id == 0x0 {
        PciClassCode::Unclassified
    } else if id == 0x1 {
        PciClassCode::MassStorageController
    } else if id == 0x2 {
        PciClassCode::NetworkController
    } else if id == 0x3 {
        PciClassCode::DisplayController
    } else if id == 0x4 {
        PciClassCode::MultimediaController
    } else if id == 0x5 {
        PciClassCode::MemoryController
    } else if id == 0x6 {
        PciClassCode::Bridge
    } else if id == 0x7 {
        PciClassCode::SimpleCommunicationController
    } else if id == 0x8 {
        PciClassCode::BaseSystemPeripheral
    } else if id == 0x9 {
        PciClassCode::InputDeviceController
    } else if id == 0xA {
        PciClassCode::DockingStation
    } else if id == 0xB {
        PciClassCode::Processor
    } else if id == 0xC {
        PciClassCode::SerialBusController
    } else if id == 0xD {
        PciClassCode::WirelessController
    } else if id == 0xE {
        PciClassCode::IntelligentController
    } else if id == 0xF {
        PciClassCode::SatelliteCommunicationController
    } else if id == 0x10 {
        PciClassCode::EncryptionController
    } else if id == 0x11 {
        PciClassCode::SignalProcessingController
    } else if id == 0x12 {
        PciClassCode::ProcessingAccelerator
    } else if id == 0x13 {
        PciClassCode::NonEssentialInstrumentation
    } else if id == 0x40 {
        PciClassCode::Coprocessor
    } else if id == 0xFF {
        PciClassCode::Unassigned
    } else {
        PciClassCode::Reserved(id)
    }
}

/// The register value that a class is stored as.
pub open spec fn class_code_value(class: PciClassCode) -> u8 {
    match class {
        PciClassCode::Unclassified => 0x0,
        PciClassCode::MassStorageController => 0x1,
        PciClassCode::NetworkController => 0x2,
        PciClassCode::DisplayController => 0x3,
        PciClassCode::MultimediaController => 0x4,
        PciClassCode::MemoryController => 0x5,
        PciClassCode::Bridge => 0x6,
        PciClassCode::SimpleCommunicationController => 0x7,
        PciClassCode::BaseSystemPeripheral => 0x8,
        PciClassCode::InputDeviceController => 0x9,
        PciClassCode::DockingStation => 0xA,
        PciClassCode::Processor => 0xB,
        PciClassCode::SerialBusController => 0xC,
        PciClassCode::WirelessController => 0xD,
        PciClassCode::IntelligentController => 0xE,
        PciClassCode::SatelliteCommunicationController => 0xF,
        PciClassCode::EncryptionController => 0x10,
        PciClassCode::SignalProcessingController => 0x11,
        PciClassCode::ProcessingAccelerator => 0x12,
        PciClassCode::NonEssentialInstrumentation => 0x13,
        PciClassCode::Coprocessor => 0x40,
        PciClassCode::Unassigned => 0xFF,
        PciClassCode::Reserved(id) => id,
    }
}

impl PciClassCode {
    #[must_use]
    pub fn new(id: u8) -> (class: Self)
        ensures
            class == class_code_of(id),
    {
        match id {
            0x0 => Self::Unclassified,
            0x1 => Self::MassStorageController,
            0x2 => Self::NetworkController,
            0x3 => Self::DisplayController,
            0x4 => Self::MultimediaController,
            0x5 => Self::MemoryController,
            0x6 => Self::Bridge,
            0x7 => Self::SimpleCommunicationController,
            0x8 => Self::BaseSystemPeripheral,
            0x9 => Self::InputDeviceController,
            0xA => Self::DockingStation,
            0xB => Self::Processor,
            0xC => Self::SerialBusController,
            0xD => Self::WirelessController,
            0xE => Self::IntelligentController,
            0xF => Self::SatelliteCommunicationController,
            0x10 => Self::EncryptionController,
            0x11 => Self::SignalProcessingController,
            0x12 => Self::ProcessingAccelerator,
            0x13 => Self::NonEssentialInstrumentation,
            0x40 => Self::Coprocessor,
            0xFF => Self::Unassigned,
            _ => Self::Reserved(id),
        }
    }

    #[must_use]
    pub fn value(&self) -> (id: u8)
        ensures
            id == class_code_value(*self),
    {
        match self {
            Self::Unclassified => 0x0,
            Self::MassStorageController => 0x1,
            Self::NetworkController => 0x2,
            Self::DisplayController => 0x3,
            Self::MultimediaController => 0x4,
            Self::MemoryController => 0x5,
            Self::Bridge => 0x6,
            Self::SimpleCommunicationController => 0x7,
            Self::BaseSystemPeripheral => 0x8,
            Self::InputDeviceController => 0x9,
            Self::DockingStation => 0xA,
            Self::Processor => 0xB,
            Self::SerialBusController => 0xC,
            Self::WirelessController => 0xD,
            Self::IntelligentController => 0xE,
            Self::SatelliteCommunicationController => 0xF,
            Self::EncryptionController => 0x10,
            Self::SignalProcessingController => 0x11,
            Self::ProcessingAccelerator => 0x12,
            Self::NonEssentialInstrumentation => 0x13,
            Self::Coprocessor => 0x40,
            Self::Unassigned => 0xFF,
            Self::Reserved(id) => *id,
        }
    }
}

/// Decoding a class register and encoding the class again gives the register
/// value back.
pub proof fn class_code_round_trip(id: u8)
    ensures
        class_code_value(class_code_of(id)) == id,
{
}

/// A class read from a register is never a `Reserved` carrying an assigned
/// code, and encoding then decoding such a class gives the class back.
pub proof fn class_code_decode_is_canonical(id: u8)
    ensures
        class_code_of(class_code_value(class_code_of(id))) == class_code_of(id),
        class_code_of(id) matches PciClassCode::Reserved(code) ==> code == id
            && class_code_of(code) == PciClassCode::Reserved(code),
{
}

/// 16-bit device identifier of a PCI function.
#[derive(Clone, Copy, Debug, PartialEq, Eq, Structural)]
pub struct PciDeviceId(pub u16);

/// Name of a device, looked up in the table of its vendor.
pub open spec fn device_name(vendor: u16, device: u16) -> Option<&'static str> {
    if vendor == 0x1234 {
        bochs_device_name(device)
    } else if vendor == 0x8086 {
        intel_device_name(device)
    } else {
        None
    }
}

/// Devices of the Bochs emulator.
pub open spec fn bochs_device_name(id: u16) -> Option<&'static str> {
    if id == 0x1111 {
        Some("Graphics Adapter")
    } else {
        None
    }
}

/// Devices of Intel that this kernel knows by name.
pub open spec fn intel_device_name(id: u16) -> Option<&'static str> {
    if id == 0x1237 {
        Some("440FX - 82441FX PMC [Natoma]")
    } else if id == 0x100e {
        Some("82540EM Gigabit Ethernet Controller")
    } else if id == 0x7000 {
        Some("Propolis Virtual PIIX3 ISA Controller")
    } else {
        None
    }
}

impl PciDeviceId {
    #[must_use]
    pub fn new(id: u16) -> (device: Self)
        ensures
            device.0 == id,
    {
        Self(id)
    }

    #[must_use]
    pub fn value(&self) -> (id: u16)
        ensures
            id == self.0,
    {
        self.0
    }

    pub fn name(&self, vendor_id: PciVendorId) -> (name: Option<&'static str>)
        ensures
            name == device_name(vendor_id.0, self.0),
    {
        if vendor_id.0 == PciVendorId::BOCHS {
            DeviceNames::get_bochs(self.0)
        } else if vendor_id.0 == PciVendorId::INTEL_CORPORATION {
            DeviceNames::get_intel(self.0)
        } else {
            None
        }
    }
}

/// Layout of the second part of a configuration header.
#[derive(Clone, Copy, Debug, PartialEq, Eq, Structural)]
pub enum PciHeaderType {
    Normal,
    PciToPciBridge,
    CardBusBridge,
    Unknown(u8),
}

/// The layout that a header-type register value stands for.
pub open spec fn header_type_of(id: u8) -> PciHeaderType {
    if id == 0 {
        PciHeaderType::Normal
    } else if id == 1 {
        PciHeaderType::PciToPciBridge
    } else if id == 2 {
        PciHeaderType::CardBusBridge
    } else {
        PciHeaderType::Unknown(id)
    }
}

/// Number of base address registers that a header layout holds.
pub open spec fn header_bar_count(header: PciHeaderType) -> usize {
    match header {
        PciHeaderType::Normal => 6,
        PciHeaderType::PciToPciBridge => 2,
        PciHeaderType::CardBusBridge => 0,
        PciHeaderType::Unknown(_) => 0,
    }
}

impl PciHeaderType {
    #[must_use]
    pub fn new(id: u8) -> (header: Self)
        ensures
            header == header_type_of(id),
    {
        match id {
            0x0 => Self::Normal,
            0x1 => Self::PciToPciBridge,
            0x2 => Self::CardBusBridge,
            _ => Self::Unknown(id),
        }
    }

    #[must_use]
    pub fn bar_count(&self) -> (count: usize)
        ensures
            count == header_bar_count(*self),
    {
        match self {
            Self::Normal => 6,
            Self::PciToPciBridge => 2,
            Self::CardBusBridge => 0,
            Self::Unknown(..) => 0,
        }
    }
}

/// Subclass of a PCI function; its meaning depends on the base class.
#[derive(Clone, Copy, Debug, PartialEq, Eq, Structural)]
pub struct PciSubclass(pub u8);

/// Subclasses of the `Unassigned` class that have a name of their own.
pub open spec fn unassigned_subclass_name(value: u8) -> Option<&'static str> {
    if value == 0x0 {
        Some("Non-VGA-Compatible")
    } else if value == 0x1 {
        Some("VGA-Compatible")
    } else {
        None
    }
}

/// Subclasses of the `MassStorageController` class that have a name of their own.
pub open spec fn mass_storage_controller_subclass_name(value: u8) -> Option<&'static str> {
    if value == 0x0 {
        Some("SCSI Bus Controller")
    } else if value == 0x1 {
        Some("IDE Controller")
    } else if value == 0x2 {
        Some("Floppy Disk Controller")
    } else if value == 0x3 {
        Some("IPI Bus Controller")
    } else if value == 0x4 {
        Some("RAID Controller")
    } else if value == 0x5 {
        Some("ATA Controller")
    } else if value == 0x6 {
        Some("Serial ATA Controller")
    } else if value == 0x7 {
        Some("Serial Attached SCSI Controller")
    } else if value == 0x8 {
        Some("Non-Volatile Memory Controller")
    } else {
        None
    }
}

/// Subclasses of the `NetworkController` class that have a name of their own.
pub open spec fn network_controller_subclass_name(value: u8) -> Option<&'static str> {
    if value == 0x0 {
        Some("Ethernet Controller")
    } else if value == 0x1 {
        Some("Token Ring Controller")
    } else if value == 0x2 {
        Some("FDDI Controller")
    } else if value == 0x3 {
        Some("ATM Controller")
    } else if value == 0x4 {
        Some("ISDN Controller")
    } else if value == 0x5 {
        Some("WorldFlip Controller")
    } else if value == 0x6 {
        Some("PICMG 2.14 Multi Computing Controller")
    } else if value == 0x7 {
        Some("InfiniBand Controller")
    } else if value == 0x8 {
        Some("Fabric Controller")
    } else {
        None
    }
}

/// Subclasses of the `DisplayController` class that have a name of their own.
pub open spec fn display_controller_subclass_name(value: u8) -> Option<&'static str> {
    if value == 0x0 {
        Some("VGA Compatible Controller")
    } else if value == 0x1 {
        Some("XGA Compatible Controller")
    } else if value == 0x2 {
        Some("3D Controller (Not VGA Compatible)")
    } else {
        None
    }
}

/// Subclasses of the `MultimediaController` class that have a name of their own.
pub open spec fn multimedia_controller_subclass_name(value: u8) -> Option<&'static str> {
    if value == 0x0 {
        Some("Video Controller")
    } else if value == 0x1 {
        Some("Audio Controller")
    } else if value == 0x2 {
        Some("Computer Telephony Device")
    } else if value == 0x3 {
        Some("Audio Device")
    } else {
        None
    }
}

/// Subclasses of the `MemoryController` class that have a name of their own.
pub open spec fn memory_controller_subclass_name(value: u8) -> Option<&'static str> {
    if value == 0x0 {
        Some("RAM Controller")
    } else if value == 0x1 {
        Some("Flash Controller")
    } else {
        None
    }
}

/// Subclasses of the `Bridge` class that have a name of their own.
pub open spec fn bridge_subclass_name(value: u8) -> Option<&'static str> {
    if value == 0x0 {
        Some("Host Bridge")
    } else if value == 0x1 {
        Some("ISA Bridge")
    } else if value == 0x2 {
        Some("EISA Bridge")
    } else if value == 0x3 {
        Some("MCA Bridge")
    } else if value == 0x4 {
        Some("PCI-to-PCI Bridge")
    } else if value == 0x5 {
        Some("PCMCIA Bridge")
    } else if value == 0x6 {
        Some("NuBus Bridge")
    } else if value == 0x7 {
        Some("CardBus Bridge")
    } else if value == 0x8 {
        Some("RACEway Bridge")
    } else if value == 0x9 {
        Some("PCI-to-PCI Bridge (2)")
    } else if value == 0xA {
        Some("InfiniBand-to-PCI Bridge")
    } else {
        None
    }
}

/// Subclasses of the `SimpleCommunicationController` class that have a name of their own.
pub open spec fn simple_communication_controller_subclass_name(value: u8) -> Option<&'static str> {
    if value == 0x0 {
        Some("Serial Controller")
    } else if value == 0x1 {
        Some("Parallel Controller")
    } else if value == 0x2 {
        Some("Multiport Serial Controller")
    } else if value == 0x3 {
        Some("Modem")
    } else if value == 0x4 {
        Some("IEEE 488.1/2 (GPIB) Controller")
    } else if value == 0x5 {
        Some("Smart Card Controller")
    } else {
        None
    }
}

/// Subclasses of the `BaseSystemPeripheral` class that have a name of their own.
pub open spec fn base_system_peripheral_subclass_name(value: u8) -> Option<&'static str> {
    if value == 0x0 {
        Some("PIC")
    } else if value == 0x1 {
        Some("DMA Controller")
    } else if value == 0x2 {
        Some("Timer")
    } else if value == 0x3 {
        Some("RTC Controller")
    } else if value == 0x4 {
        Some("PCI Hot-Plug Controller")
    } else if value == 0x5 {
        Some("SD Host Controller")
    } else if value == 0x6 {
        Some("IOMMU")
    } else {
        None
    }
}

/// Subclasses of the `InputDeviceController` class that have a name of their own.
pub open spec fn input_device_controller_subclass_name(value: u8) -> Option<&'static str> {
    if value == 0x0 {
        Some("Keyboard Controller")
    } else if value == 0x1 {
        Some("Digitizer Pen")
    } else if value == 0x2 {
        Some("Mouse Controller")
    } else if value == 0x3 {
        Some("Scanner Controller")
    } else if value == 0x4 {
        Some("Gameport Controller")
    } else {
        None
    }
}

/// Subclasses of the `DockingStation` class that have a name of their own.
pub open spec fn docking_station_subclass_name(value: u8) -> Option<&'static str> {
    if value == 0x0 {
        Some("Generic")
    } else {
        None
    }
}

/// Subclasses of the `Processor` class that have a name of their own.
pub open spec fn processor_subclass_name(value: u8) -> Option<&'static str> {
    if value == 0x0 {
        Some("i386")
    } else if value == 0x1 {
        Some("i486")
    } else if value == 0x2 {
        Some("Pentium")
    } else if value == 0x3 {
        Some("Pentium Pro")
    } else if value == 0x10 {
        Some("Alpha")
    } else if value == 0x20 {
        Some("PowerPC")
    } else if value == 0x30 {
        Some("MIPS")
    } else if value == 0x40 {
        Some("Co-Processor")
    } else {
        None
    }
}

/// Subclasses of the `SerialBusController` class that have a name of their own.
pub open spec fn serial_bus_controller_subclass_name(value: u8) -> Option<&'static str> {
    if value == 0x0 {
        Some("FireWire (IEEE 1394)")
    } else if value == 0x1 {
        Some("ACCESS Bus")
    } else if value == 0x2 {
        Some("SSA")
    } else if value == 0x3 {
        Some("USB Controller")
    } else if value == 0x4 {
        Some("Fibre Channel")
    } else if value == 0x5 {
        Some("SMBus")
    } else if value == 0x6 {
        Some("InfiniBand")
    } else if value == 0x7 {
        Some("IPMI Interface")
    } else if value == 0x8 {
        Some("SERCOS Interface (IEC 61491)")
    } else if value == 0x9 {
        Some("CANbus Controller")
    } else {
        None
    }
}

/// Subclasses of the `WirelessController` class that have a name of their own.
pub open spec fn wireless_controller_subclass_name(value: u8) -> Option<&'static str> {
    if value == 0x0 {
        Some("iRDA Compatible")
    } else if value == 0x1 {
        Some("Consumer IR")
    } else if value == 0x10 {
        Some("RF")
    } else if value == 0x11 {
        Some("Bluetooth")
    } else if value == 0x12 {
        Some("Broadband")
    } else if value == 0x20 {
        Some("Ethernet (802.1a)")
    } else if value == 0x21 {
        Some("Ethernet (802.1b)")
    } else {
        None
    }
}

/// Subclasses of the `IntelligentController` class that have a name of their own.
pub open spec fn intelligent_controller_subclass_name(value: u8) -> Option<&'static str> {
    if value == 0x0 {
        Some("I2O")
    } else {
        None
    }
}

/// Subclasses of the `SatelliteCommunicationController` class that have a name of their own.
pub open spec fn satellite_communication_controller_subclass_name(value: u8) -> Option<&'static str> {
    if value == 0x0 {
        Some("TV Controller")
    } else if value == 0x1 {
        Some("Audio Controller")
    } else if value == 0x2 {
        Some("Video Controller")
    } else if value == 0x3 {
        Some("Voice Controller")
    } else if value == 0x4 {
        Some("Data Controller")
    } else {
        None
    }
}

/// Subclasses of the `EncryptionController` class that have a name of their own.
pub open spec fn encryption_controller_subclass_name(value: u8) -> Option<&'static str> {
    if value == 0x0 {
        Some("Network and Computing Encrpytion/Decryption")
    } else if value == 0x1 {
        Some("Entertainment Encryption/Decryption")
    } else {
        None
    }
}

/// Subclasses of the `SignalProcessingController` class that have a name of their own.
pub open spec fn signal_processing_controller_subclass_name(value: u8) -> Option<&'static str> {
    if value == 0x0 {
        Some("DPIO Modules")
    } else if value == 0x1 {
        Some("Performance Counters")
    } else if value == 0x10 {
        Some("Communication Synchronizer")
    } else if value == 0x20 {
        Some("Signal Processing Management")
    } else {
        None
    }
}

/// Name of a subclass within its class. Subclass `0x80` is "Other" in every
/// class but `Unassigned`, `IntelligentController` and
/// `SatelliteCommunicationController`, where it has no name.
pub open spec fn subclass_name(class: PciClassCode, value: u8) -> Option<&'static str> {
    let own = match class {
        PciClassCode::Unassigned => unassigned_subclass_name(value),
        PciClassCode::MassStorageController => mass_storage_controller_subclass_name(value),
        PciClassCode::NetworkController => network_controller_subclass_name(value),
        PciClassCode::DisplayController => display_controller_subclass_name(value),
        PciClassCode::MultimediaController => multimedia_controller_subclass_name(value),
        PciClassCode::MemoryController => memory_controller_subclass_name(value),
        PciClassCode::Bridge => bridge_subclass_name(value),
        PciClassCode::SimpleCommunicationController => simple_communication_controller_subclass_name(value),
        PciClassCode::BaseSystemPeripheral => base_system_peripheral_subclass_name(value),
        PciClassCode::InputDeviceController => input_device_controller_subclass_name(value),
        PciClassCode::DockingStation => docking_station_subclass_name(value),
        PciClassCode::Processor => processor_subclass_name(value),
        PciClassCode::SerialBusController => serial_bus_controller_subclass_name(value),
        PciClassCode::WirelessController => wireless_controller_subclass_name(value),
        PciClassCode::IntelligentController => intelligent_controller_subclass_name(value),
        PciClassCode::SatelliteCommunicationController => satellite_communication_controller_subclass_name(value),
        PciClassCode::EncryptionController => encryption_controller_subclass_name(value),
        PciClassCode::SignalProcessingController => signal_processing_controller_subclass_name(value),
        _ => None,
    };
    if own is Some {
        own
    } else if value == 0x80 && !(class is Unassigned || class is IntelligentController
        || class is SatelliteCommunicationController) {
        Some("Other")
    } else {
        None
    }
}

impl PciSubclass {
    #[must_use]
    pub fn new(id: u8) -> (subclass: Self)
        ensures
            subclass.0 == id,
    {
        Self(id)
    }

    #[must_use]
    pub fn value(&self) -> (id: u8)
        ensures
            id == self.0,
    {
        self.0
    }

    pub fn name(&self, class_code: PciClassCode) -> (name: Option<&'static str>)
        ensures
            name == subclass_name(class_code, self.0),
    {
        match (class_code, self.value()) {
            (PciClassCode::Unassigned, 0x0) => Some("Non-VGA-Compatible"),
            (PciClassCode::Unassigned, 0x1) => Some("VGA-Compatible"),
            (PciClassCode::Unassigned, 0x80) => None,

            (PciClassCode::MassStorageController, 0x0) => Some("SCSI Bus Controller"),
            (PciClassCode::MassStorageController, 0x1) => Some("IDE Controller"),
            (PciClassCode::MassStorageController, 0x2) => Some("Floppy Disk Controller"),
            (PciClassCode::MassStorageController, 0x3) => Some("IPI Bus Controller"),
            (PciClassCode::MassStorageController, 0x4) => Some("RAID Controller"),
            (PciClassCode::MassStorageController, 0x5) => Some("ATA Controller"),
            (PciClassCode::MassStorageController, 0x6) => Some("Serial ATA Controller"),
            (PciClassCode::MassStorageController, 0x7) => Some("Serial Attached SCSI Controller"),
            (PciClassCode::MassStorageController, 0x8) => Some("Non-Volatile Memory Controller"),

            (PciClassCode::NetworkController, 0x0) => Some("Ethernet Controller"),
            (PciClassCode::NetworkController, 0x1) => Some("Token Ring Controller"),
            (PciClassCode::NetworkController, 0x2) => Some("FDDI Controller"),
            (PciClassCode::NetworkController, 0x3) => Some("ATM Controller"),
            (PciClassCode::NetworkController, 0x4) => Some("ISDN Controller"),
            (PciClassCode::NetworkController, 0x5) => Some("WorldFlip Controller"),
            (PciClassCode::NetworkController, 0x6) => Some("PICMG 2.14 Multi Computing Controller"),
            (PciClassCode::NetworkController, 0x7) => Some("InfiniBand Controller"),
            (PciClassCode::NetworkController, 0x8) => Some("Fabric Controller"),

            (PciClassCode::DisplayController, 0x0) => Some("VGA Compatible Controller"),
            (PciClassCode::DisplayController, 0x1) => Some("XGA Compatible Controller"),
            (PciClassCode::DisplayController, 0x2) => Some("3D Controller (Not VGA Compatible)"),

            (PciClassCode::MultimediaController, 0x0) => Some("Video Controller"),
            (PciClassCode::MultimediaController, 0x1) => Some("Audio Controller"),
            (PciClassCode::MultimediaController, 0x2) => Some("Computer Telephony Device"),
            (PciClassCode::MultimediaController, 0x3) => Some("Audio Device"),

            (PciClassCode::MemoryController, 0x0) => Some("RAM Controller"),
            (PciClassCode::MemoryController, 0x1) => Some("Flash Controller"),

            (PciClassCode::Bridge, 0x0) => Some("Host Bridge"),
            (PciClassCode::Bridge, 0x1) => Some("ISA Bridge"),
            (PciClassCode::Bridge, 0x2) => Some("EISA Bridge"),
            (PciClassCode::Bridge, 0x3) => Some("MCA Bridge"),
            (PciClassCode::Bridge, 0x4) => Some("PCI-to-PCI Bridge"),
            (PciClassCode::Bridge, 0x5) => Some("PCMCIA Bridge"),
            (PciClassCode::Bridge, 0x6) => Some("NuBus Bridge"),
            (PciClassCode::Bridge, 0x7) => Some("CardBus Bridge"),
            (PciClassCode::Bridge, 0x8) => Some("RACEway Bridge"),
            (PciClassCode::Bridge, 0x9) => Some("PCI-to-PCI Bridge (2)"),
            (PciClassCode::Bridge, 0xA) => Some("InfiniBand-to-PCI Bridge"),

            (PciClassCode::SimpleCommunicationController, 0x0) => Some("Serial Controller"),
            (PciClassCode::SimpleCommunicationController, 0x1) => Some("Parallel Controller"),
            (PciClassCode::SimpleCommunicationController, 0x2) => Some("Multiport Serial Controller"),
            (PciClassCode::SimpleCommunicationController, 0x3) => Some("Modem"),
            (PciClassCode::SimpleCommunicationController, 0x4) => Some("IEEE 488.1/2 (GPIB) Controller"),
            (PciClassCode::SimpleCommunicationController, 0x5) => Some("Smart Card Controller"),

            (PciClassCode::BaseSystemPeripheral, 0x0) => Some("PIC"),
            (PciClassCode::BaseSystemPeripheral, 0x1) => Some("DMA Controller"),
            (PciClassCode::BaseSystemPeripheral, 0x2) => Some("Timer"),
            (PciClassCode::BaseSystemPeripheral, 0x3) => Some("RTC Controller"),
            (PciClassCode::BaseSystemPeripheral, 0x4) => Some("PCI Hot-Plug Controller"),
            (PciClassCode::BaseSystemPeripheral, 0x5) => Some("SD Host Controller"),
            (PciClassCode::BaseSystemPeripheral, 0x6) => Some("IOMMU"),

            (PciClassCode::InputDeviceController, 0x0) => Some("Keyboard Controller"),
            (PciClassCode::InputDeviceController, 0x1) => Some("Digitizer Pen"),
            (PciClassCode::InputDeviceController, 0x2) => Some("Mouse Controller"),
            (PciClassCode::InputDeviceController, 0x3) => Some("Scanner Controller"),
            (PciClassCode::InputDeviceController, 0x4) => Some("Gameport Controller"),

            (PciClassCode::DockingStation, 0x0) => Some("Generic"),

            (PciClassCode::Processor, 0x0) => Some("i386"),
            (PciClassCode::Processor, 0x1) => Some("i486"),
            (PciClassCode::Processor, 0x2) => Some("Pentium"),
            (PciClassCode::Processor, 0x3) => Some("Pentium Pro"),
            (PciClassCode::Processor, 0x10) => Some("Alpha"),
            (PciClassCode::Processor, 0x20) => Some("PowerPC"),
            (PciClassCode::Processor, 0x30) => Some("MIPS"),
            (PciClassCode::Processor, 0x40) => Some("Co-Processor"),

            (PciClassCode::SerialBusController, 0x0) => Some("FireWire (IEEE 1394)"),
            (PciClassCode::SerialBusController, 0x1) => Some("ACCESS Bus"),
            (PciClassCode::SerialBusController, 0x2) => Some("SSA"),
            (PciClassCode::SerialBusController, 0x3) => Some("USB Controller"),
            (PciClassCode::SerialBusController, 0x4) => Some("Fibre Channel"),
            (PciClassCode::SerialBusController, 0x5) => Some("SMBus"),
            (PciClassCode::SerialBusController, 0x6) => Some("InfiniBand"),
            (PciClassCode::SerialBusController, 0x7) => Some("IPMI Interface"),
            (PciClassCode::SerialBusController, 0x8) => Some("SERCOS Interface (IEC 61491)"),
            (PciClassCode::SerialBusController, 0x9) => Some("CANbus Controller"),

            (PciClassCode::WirelessController, 0x0) => Some("iRDA Compatible"),
            (PciClassCode::WirelessController, 0x1) => Some("Consumer IR"),
            (PciClassCode::WirelessController, 0x10) => Some("RF"),
            (PciClassCode::WirelessController, 0x11) => Some("Bluetooth"),
            (PciClassCode::WirelessController, 0x12) => Some("Broadband"),
            (PciClassCode::WirelessController, 0x20) => Some("Ethernet (802.1a)"),
            (PciClassCode::WirelessController, 0x21) => Some("Ethernet (802.1b)"),

            (PciClassCode::IntelligentController, 0x0) => Some("I2O"),
            (PciClassCode::IntelligentController, 0x80) => None,

            (PciClassCode::SatelliteCommunicationController, 0x0) => Some("TV Controller"),
            (PciClassCode::SatelliteCommunicationController, 0x1) => Some("Audio Controller"),
            (PciClassCode::SatelliteCommunicationController, 0x2) => Some("Video Controller"),
            (PciClassCode::SatelliteCommunicationController, 0x3) => Some("Voice Controller"),
            (PciClassCode::SatelliteCommunicationController, 0x4) => Some("Data Controller"),
            (PciClassCode::SatelliteCommunicationController, 0x80) => None,

            (PciClassCode::EncryptionController, 0x0) => Some("Network and Computing Encrpytion/Decryption"),
            (PciClassCode::EncryptionController, 0x1) => Some("Entertainment Encryption/Decryption"),

            (PciClassCode::SignalProcessingController, 0x0) => Some("DPIO Modules"),
            (PciClassCode::SignalProcessingController, 0x1) => Some("Performance Counters"),
            (PciClassCode::SignalProcessingController, 0x10) => Some("Communication Synchronizer"),
            (PciClassCode::SignalProcessingController, 0x20) => Some("Signal Processing Management"),

            (_, 0x80) => Some("Other"),
            _ => None,
        }
    }
}

/// Tables of device names, one per vendor.
pub struct DeviceNames;

impl DeviceNames {
    pub fn get_bochs(id: u16) -> (name: Option<&'static str>)
        ensures
            name == bochs_device_name(id),
    {
        match id {
            0x1111 => Some("Graphics Adapter"),
            _ => None,
        }
    }

    pub fn get_intel(id: u16) -> (name: Option<&'static str>)
        ensures
            name == intel_device_name(id),
    {
        match id {
            0x1237 => Some("440FX - 82441FX PMC [Natoma]"),
            0x100e => Some("82540EM Gigabit Ethernet Controller"),
            0x7000 => Some("Propolis Virtual PIIX3 ISA Controller"),
            _ => None,
        }
    }
}

} // verus!
