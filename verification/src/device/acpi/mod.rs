//! What the kernel takes from the ACPI tables and how it reaches them.

pub mod handler;

pub use self::handler::{NoccioloAcpiHandler, PageRequest, PhysicalMapping};
use self::handler::{mappable, REGION_FLAGS};
use crate::device::pci::config::{CONFIG_ADDRESS, CONFIG_DATA};
use crate::device::AcpiFailure;
use crate::platform::{dword_write, PortWrite};
use vstd::prelude::*;

verus! {

/// The global power states of the system.
#[derive(Debug, Clone, Copy, PartialEq, Eq, Structural)]
pub enum SystemState {
    /// Working.
    S0,
    /// Sleeping with the processor context maintained.
    S1,
    /// Deeper sleeping than S1.
    S2,
    /// Deeper sleeping than S2.
    S3,
    /// Deeper sleeping than S3.
    S4,
    /// Soft off.
    S5,
}

/// The number of a power state: the digit in its name.
pub open spec fn state_number(state: SystemState) -> u32 {
    match state {
        SystemState::S0 => 0,
        SystemState::S1 => 1,
        SystemState::S2 => 2,
        SystemState::S3 => 3,
        SystemState::S4 => 4,
        SystemState::S5 => 5,
    }
}

impl SystemState {
    /// The number that the state is passed to control methods as.
    pub fn value(&self) -> (number: u32)
        ensures
            number == state_number(*self),
    {
        match self {
            SystemState::S0 => 0,
            SystemState::S1 => 1,
            SystemState::S2 => 2,
            SystemState::S3 => 3,
            SystemState::S4 => 4,
            SystemState::S5 => 5,
        }
    }
}

/// The kinds of address that a register of the fixed hardware can have.
#[derive(Debug, Clone, Copy, PartialEq, Eq, Structural)]
pub enum AddressSpace {
    SystemMemory,
    SystemIo,
    PciConfigSpace,
    EmbeddedController,
    SMBus,
    SystemCmos,
    PciBarTarget,
    Ipmi,
    GeneralIo,
    GenericSerialBus,
    PlatformCommunicationsChannel,
    FunctionalFixedHardware,
    OemDefined(u8),
}

/// Where a register of the fixed hardware is found.
#[derive(Debug, Clone, Copy, PartialEq, Eq, Structural)]
pub struct GenericAddress {
    pub address_space: AddressSpace,
    pub bit_width: u8,
    pub bit_offset: u8,
    pub address: u64,
}

/// The entries of the MADT that the kernel looks at.
#[derive(Debug, Clone, Copy, PartialEq, Eq, Structural)]
pub enum MadtEntry {
    /// An I/O APIC and the physical address of its register window.
    IoApic { io_apic_address: u32 },
    /// The physical address that replaces that of the Local APIC.
    LocalApicAddressOverride { local_apic_address: u64 },
    /// Any other entry.
    Other,
}

/// One range of buses whose configuration space is memory-mapped.
#[derive(Debug, Clone, Copy, PartialEq, Eq, Structural)]
pub struct McfgEntry {
    pub base_address: u64,
    pub pci_segment_group: u16,
    pub bus_number_start: u8,
    pub bus_number_end: u8,
}

/// The ACPI tables that were found, as far as the kernel uses them. Once a
/// table is installed it stays for the life of the kernel.
#[derive(Debug)]
pub struct AcpiData {
    pub madt: Option<Vec<MadtEntry>>,
    pub fadt: Option<Fadt>,
    pub mcfg: Option<Vec<McfgEntry>>,
}

/// What the kernel reads of the FADT: the control blocks of the power
/// management timer, the second of which need not exist. A block that the
/// table does not describe properly is a failure.
#[derive(Debug, PartialEq, Eq)]
pub struct Fadt {
    pub pm1a_control_block: Result<GenericAddress, AcpiFailure>,
    pub pm1b_control_block: Result<Option<GenericAddress>, AcpiFailure>,
}

impl AcpiData {
    /// No table found yet.
    pub fn new() -> (data: Self)
        ensures
            data.madt is None,
            data.fadt is None,
            data.mcfg is None,
    {
        AcpiData { madt: None, fadt: None, mcfg: None }
    }

    pub fn madt(&self) -> (table: Option<&Vec<MadtEntry>>)
        ensures
            table == (match self.madt {
                Some(entries) => Some(&entries),
                None => None,
            }),
    {
        self.madt.as_ref()
    }

    pub fn fadt(&self) -> (table: Option<&Fadt>)
        ensures
            table == (match self.fadt {
                Some(fadt) => Some(&fadt),
                None => None,
            }),
    {
        self.fadt.as_ref()
    }

    pub fn mcfg(&self) -> (table: Option<&Vec<McfgEntry>>)
        ensures
            table == (match self.mcfg {
                Some(entries) => Some(&entries),
                None => None,
            }),
    {
        self.mcfg.as_ref()
    }
}

/// Position of the first entry of a MADT that describes an I/O APIC, or the
/// number of entries where none does.
pub open spec fn first_io_apic(entries: Seq<MadtEntry>, from: int) -> int
    decreases entries.len() - from,
{
    if from < 0 || from >= entries.len() {
        entries.len() as int
    } else if entries[from] is IoApic {
        from
    } else {
        first_io_apic(entries, from + 1)
    }
}

/// Position of the first entry of a MADT that overrides the address of the
/// Local APIC, or the number of entries where none does.
pub open spec fn first_override(entries: Seq<MadtEntry>, from: int) -> int
    decreases entries.len() - from,
{
    if from < 0 || from >= entries.len() {
        entries.len() as int
    } else if entries[from] is LocalApicAddressOverride {
        from
    } else {
        first_override(entries, from + 1)
    }
}

/// Physical address of the register window of the I/O APIC: that of the
/// first I/O APIC that the MADT describes.
pub fn find_io_apic_base(madt: Option<&Vec<MadtEntry>>) -> (base: Option<u64>)
    ensures
        base == (match madt {
            Some(entries) => if first_io_apic(entries@, 0) < entries@.len() {
                Some(entries@[first_io_apic(entries@, 0)]->io_apic_address as u64)
            } else {
                None
            },
            None => None,
        }),
{
    if let Some(entries) = madt {
        let mut i: usize = 0;
        while i < entries.len()
            invariant
                madt == Some(entries),
                i <= entries.len(),
                first_io_apic(entries@, i as int) == first_io_apic(entries@, 0),
            decreases entries.len() - i,
        {
            if let MadtEntry::IoApic { io_apic_address } = entries[i] {
                assert(first_io_apic(entries@, i as int) == i);
                return Some(io_apic_address as u64);
            }
            i += 1;
        }
    }
    None
}

/// Physical address of the register block of the Local APIC: the first
/// override that the MADT holds, else what the base register of the
/// processor holds.
pub fn find_local_apic_base(madt: Option<&Vec<MadtEntry>>, base_register: u64) -> (base: u64)
    ensures
        base == (match madt {
            Some(entries) => if first_override(entries@, 0) < entries@.len() {
                entries@[first_override(entries@, 0)]->local_apic_address
            } else {
                base_register
            },
            None => base_register,
        }),
{
    if let Some(entries) = madt {
        let mut i: usize = 0;
        while i < entries.len()
            invariant
                madt == Some(entries),
                i <= entries.len(),
                first_override(entries@, i as int) == first_override(entries@, 0),
            decreases entries.len() - i,
        {
            if let MadtEntry::LocalApicAddressOverride { local_apic_address } = entries[i] {
                assert(first_override(entries@, i as int) == i);
                return local_apic_address;
            }
            i += 1;
        }
    }
    // The model-specific register contains the base
    base_register
}

/// A request of the AML interpreter for a register of a PCI function.
#[derive(Clone, Copy, Debug, PartialEq, Eq, Structural)]
pub struct PciRequest {
    pub segment: u16,
    pub bus: u8,
    pub device: u8,
    pub function: u8,
    pub offset: u16,
}

/// The word that selects the register of a request through the address port:
/// the enable flag, the bus from bit 16, the device from bit 11, the function
/// from bit 8, and the dword-aligned low byte of the offset.
pub open spec fn request_address(request: PciRequest) -> u32 {
    ((request.bus as u32) << 16) | ((request.device as u32) << 11) | ((request.function as u32)
        << 8) | (request.offset as u32 & 0xFC) | (0x80000000u32)
}

impl PciRequest {
    pub fn address(&self) -> (word: u32)
        ensures
            word == request_address(*self),
    {
        ((self.bus as u32) << 16) | ((self.device as u32) << 11) | ((self.function as u32) << 8)
            | (self.offset as u32 & 0xFC) | (0x80000000u32)
    }
}

/// What the AML interpreter's read of a PCI register writes before the data
/// port is read: the word that selects the register, to the address port.
pub fn aml_read_pci(ports: &mut Vec<PortWrite>, request: PciRequest)
    ensures
        final(ports)@ == old(ports)@.push(dword_write(CONFIG_ADDRESS, request_address(request))),
{
    let address: u32 = request.address();
    ports.push(PortWrite::dword(CONFIG_ADDRESS, address));
}

/// What the AML interpreter's write of a PCI register writes: the word that
/// selects the register, to the address port, then the value, to the data
/// port.
pub fn aml_write_pci(ports: &mut Vec<PortWrite>, request: PciRequest, value: u32)
    ensures
        final(ports)@ == old(ports)@.push(
            dword_write(CONFIG_ADDRESS, request_address(request)),
        ).push(dword_write(CONFIG_DATA, value)),
{
    let address: u32 = request.address();
    ports.push(PortWrite::dword(CONFIG_ADDRESS, address));
    ports.push(PortWrite::dword(CONFIG_DATA, value));
}

/// Number of bytes of the root system description pointer.
pub const RSDP_LENGTH: u64 = 36;

/// Where the root system description pointer is looked for.
#[derive(Debug, Clone, Copy)]
pub enum RsdpSource {
    /// At the address that the bootloader handed over, which has been
    /// mapped.
    Mapped(PhysicalMapping),
    /// In the memory of the BIOS, which is to be searched for the
    /// signature.
    SearchBios,
    /// At the address that the bootloader handed over, which cannot be
    /// mapped.
    Unmappable(u64),
}

/// Decides where the root system description pointer is looked for: at the
/// address of the bootloader, if it gave one, else in the memory of the
/// BIOS.
pub fn find_rsdp(rsdp_addr: Option<u64>, handler: &mut NoccioloAcpiHandler) -> (source: RsdpSource)
    ensures
        match rsdp_addr {
            Some(addr) => if mappable(old(handler).next_page(), addr, RSDP_LENGTH) {
                &&& source matches RsdpSource::Mapped(mapping)
                &&& mapping.well_formed()
                &&& mapping.physical_start() == addr
                &&& mapping.region_length() == RSDP_LENGTH
                &&& mapping.virtual_start() == old(handler).next_page() + addr % 4096
                &&& final(handler).requests() == old(handler).requests()
                    + mapping.installing_requests(REGION_FLAGS)
            } else {
                &&& source matches RsdpSource::Unmappable(at)
                &&& at == addr
                &&& final(handler).requests() == old(handler).requests()
                &&& final(handler).next_page() == old(handler).next_page()
            },
            None => {
                &&& source is SearchBios
                &&& final(handler).requests() == old(handler).requests()
                &&& final(handler).next_page() == old(handler).next_page()
            },
        },
{
    match rsdp_addr {
        Some(addr) => find_rsdp_on_uefi(addr, handler),
        None => RsdpSource::SearchBios,
    }
}

/// Maps the root system description pointer at the address that the
/// firmware gave.
pub fn find_rsdp_on_uefi(addr: u64, handler: &mut NoccioloAcpiHandler) -> (source: RsdpSource)
    ensures
        if mappable(old(handler).next_page(), addr, RSDP_LENGTH) {
            &&& source matches RsdpSource::Mapped(mapping)
            &&& mapping.well_formed()
            &&& mapping.physical_start() == addr
            &&& mapping.region_length() == RSDP_LENGTH
            &&& mapping.virtual_start() == old(handler).next_page() + addr % 4096
            &&& final(handler).requests() == old(handler).requests()
                + mapping.installing_requests(REGION_FLAGS)
        } else {
            &&& source matches RsdpSource::Unmappable(at)
            &&& at == addr
            &&& final(handler).requests() == old(handler).requests()
            &&& final(handler).next_page() == old(handler).next_page()
        },
{
    if handler.can_map(addr, RSDP_LENGTH) {
        RsdpSource::Mapped(handler.map_physical_region(addr, RSDP_LENGTH))
    } else {
        RsdpSource::Unmappable(addr)
    }
}

/// Width of an access of the AML interpreter to memory.
#[derive(Debug, Clone, Copy, PartialEq, Eq, Structural)]
pub enum AccessWidth {
    Byte,
    Word,
    Dword,
    Qword,
}

/// Number of bytes of an access.
pub open spec fn width_bytes(width: AccessWidth) -> u64 {
    match width {
        AccessWidth::Byte => 1,
        AccessWidth::Word => 2,
        AccessWidth::Dword => 4,
        AccessWidth::Qword => 8,
    }
}

impl AccessWidth {
    /// Number of bytes of the access.
    pub fn bytes(&self) -> (bytes: u64)
        ensures
            bytes == width_bytes(*self),
    {
        match self {
            AccessWidth::Byte => 1,
            AccessWidth::Word => 2,
            AccessWidth::Dword => 4,
            AccessWidth::Qword => 8,
        }
    }
}

/// Where the AML interpreter reads or writes physical memory: the region of
/// the width of the access is mapped, and the access goes to the virtual
/// start of the mapping. There is no mapping where the region cannot be
/// mapped.
pub fn aml_access(handler: &mut NoccioloAcpiHandler, address: u64, width: AccessWidth) -> (mapping:
    Option<PhysicalMapping>)
    ensures
        mapping is Some == mappable(old(handler).next_page(), address, width_bytes(width)),
        match mapping {
            Some(mapping) => {
                &&& mapping.well_formed()
                &&& mapping.physical_start() == address
                &&& mapping.region_length() == width_bytes(width)
                &&& mapping.virtual_start() == old(handler).next_page() + address % 4096
                &&& final(handler).requests() == old(handler).requests()
                    + mapping.installing_requests(REGION_FLAGS)
            },
            None => {
                &&& final(handler).requests() == old(handler).requests()
                &&& final(handler).next_page() == old(handler).next_page()
            },
        },
{
    let size: u64 = width.bytes();
    if handler.can_map(address, size) {
        Some(handler.map_physical_region(address, size))
    } else {
        None
    }
}

} // verus!
