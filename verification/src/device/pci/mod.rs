//! PCI configuration space: addresses, identifiers and access mechanisms.

pub mod config;
pub mod types;

pub use self::config::{
    ConfigurationSpaceMechanism, DeviceEnumerator, PciExpressConfigurationSpace, PciIOPorts,
    PciLocalBusConfigurationSpace,
};
pub use self::types::{
    PciAddress, PciBaseAddress, PciBaseAddressType, PciClassCode, PciDeviceId, PciHeaderType,
    PciSubclass, PciVendorId,
};
use self::config::{
    enumeration, enumeration_skips_absent, window_requests, window_size, windows_end, SLOT_COUNT,
};
use crate::platform::MemoryWrite;
use crate::device::acpi::handler::NoccioloAcpiHandler;
use crate::device::acpi::{AcpiData, McfgEntry};
use self::types::{class_code_of, device_name, subclass_name, vendor_name};
use vstd::prelude::*;

verus! {

/// What the kernel notes of one function that a scan has found.
#[derive(Clone, Copy, Debug, PartialEq, Eq)]
pub struct DeviceReport {
    pub addr: PciAddress,
    pub vendor_id: PciVendorId,
    pub device_id: PciDeviceId,
    pub class: PciClassCode,
    pub subclass: PciSubclass,
    pub subclass_name: Option<&'static str>,
    pub vendor_name: Option<&'static str>,
    pub device_name: Option<&'static str>,
}

/// The report of a function: its identifiers as the scan found them, its
/// class and subclass as read from offset `0xA`, and their names.
pub open spec fn report_of<M: ConfigurationSpaceMechanism>(
    mechanism: &M,
    entry: (PciAddress, PciVendorId, PciDeviceId),
) -> DeviceReport {
    let class = class_code_of((mechanism.word_at(entry.0, 0xA) >> 8) as u8);
    let subclass = (mechanism.word_at(entry.0, 0xA) & 0xFF) as u8;
    DeviceReport {
        addr: entry.0,
        vendor_id: entry.1,
        device_id: entry.2,
        class,
        subclass: PciSubclass(subclass),
        subclass_name: subclass_name(class, subclass),
        vendor_name: vendor_name(entry.1.0),
        device_name: device_name(entry.1.0, entry.2.0),
    }
}

/// Scans segment 0 through `mechanism` and reports every function that
/// answers, in the order of bus and device.
pub fn init_using<M: ConfigurationSpaceMechanism>(mechanism: &M) -> (reports: Vec<DeviceReport>)
    ensures
        reports@ == enumeration(mechanism, SLOT_COUNT as int).map_values(
            |entry: (PciAddress, PciVendorId, PciDeviceId)| report_of(mechanism, entry),
        ),
{
    let mut reports: Vec<DeviceReport> = Vec::new();
    let mut scan = DeviceEnumerator::new(mechanism);
    loop
        invariant
            scan.mechanism() == mechanism,
            0 <= scan.position() <= SLOT_COUNT,
            reports@ == enumeration(mechanism, scan.position()).map_values(
                |entry: (PciAddress, PciVendorId, PciDeviceId)| report_of(mechanism, entry),
            ),
        ensures
            reports@ == enumeration(mechanism, SLOT_COUNT as int).map_values(
                |entry: (PciAddress, PciVendorId, PciDeviceId)| report_of(mechanism, entry),
            ),
        decreases SLOT_COUNT - scan.position(),
    {
        proof {
            enumeration_skips_absent(mechanism, scan.position());
        }
        let ghost before = enumeration(mechanism, scan.position());
        match scan.next() {
            None => {
                break ;
            },
            Some((addr, vendor_id, device_id)) => {
                let class = mechanism.class_code(addr);
                let subclass = mechanism.subclass(addr);
                reports.push(
                    DeviceReport {
                        addr,
                        vendor_id,
                        device_id,
                        class,
                        subclass,
                        subclass_name: subclass.name(class),
                        vendor_name: vendor_id.name(),
                        device_name: device_id.name(vendor_id),
                    },
                );
                assert(reports@ =~= before.push((addr, vendor_id, device_id)).map_values(
                    |entry: (PciAddress, PciVendorId, PciDeviceId)| report_of(mechanism, entry),
                ));
            },
        }
    }
    reports
}

/// The reports of a scan through `mechanism`.
pub open spec fn scan_reports<M: ConfigurationSpaceMechanism>(mechanism: &M) -> Seq<DeviceReport> {
    enumeration(mechanism, SLOT_COUNT as int).map_values(
        |entry: (PciAddress, PciVendorId, PciDeviceId)| report_of(mechanism, entry),
    )
}

/// Scans the bus through the memory-mapped mechanism if there is one, else
/// through the legacy mechanism.
pub fn init(express: Option<&PciExpressConfigurationSpace>, legacy: &PciLocalBusConfigurationSpace)
    -> (reports: Vec<DeviceReport>)
    ensures
        reports@ == (match express {
            Some(pci_express) => scan_reports(pci_express),
            None => scan_reports(legacy),
        }),
{
    if let Some(pci_express) = express {
        init_using(pci_express)
    } else {
        init_using(legacy)
    }
}

/// The memory-mapped mechanism over the bus ranges of the MCFG, if the
/// table was found and every range can be mapped.
pub fn try_create_pci_express_mechanism(acpi: &AcpiData, handler: &mut NoccioloAcpiHandler) -> (
    mechanism: Option<PciExpressConfigurationSpace>)
    ensures
        mechanism is Some == (acpi.mcfg matches Some(entries) && windows_end(
            entries@,
            old(handler).next_page(),
            entries@.len() as int,
        ) is Some),
        mechanism matches Some(space) ==> {
            &&& space.entries() == acpi.mcfg->0@
            &&& space.mappings().len() == space.entries().len()
            &&& space.memory() == Map::<u64, u8>::empty()
            &&& space.journal() == Seq::<MemoryWrite>::empty()
            &&& forall|i: int|
                0 <= i < space.entries().len() ==> {
                    &&& (#[trigger] space.mappings()[i]).well_formed()
                    &&& space.mappings()[i].physical_start() == space.entries()[i].base_address
                    &&& space.mappings()[i].region_length() == window_size(space.entries()[i])
                    &&& space.mappings()[i].virtual_start() == windows_end(
                        space.entries(),
                        old(handler).next_page(),
                        i,
                    )->0 + space.entries()[i].base_address % 4096
                }
        },
        match acpi.mcfg {
            Some(entries) => exists|mapped: int|
                {
                    &&& 0 <= mapped <= entries@.len()
                    &&& mapped == entries@.len() || windows_end(
                        entries@,
                        old(handler).next_page(),
                        mapped + 1,
                    ) is None
                    &&& #[trigger] windows_end(entries@, old(handler).next_page(), mapped) == Some(
                        final(handler).next_page(),
                    )
                    &&& final(handler).requests() == old(handler).requests() + window_requests(
                        entries@,
                        old(handler).next_page(),
                        mapped,
                    )
                },
            None => final(handler).next_page() == old(handler).next_page() && final(handler).requests() == old(handler).requests(),
        },
{
    let entries = match acpi.mcfg() {
        Some(entries) => entries,
        None => {
            return None;
        },
    };
    let mut mcfg_entries: Vec<McfgEntry> = Vec::new();
    let mut i: usize = 0;
    while i < entries.len()
        invariant
            i <= entries.len(),
            mcfg_entries@ == entries@.take(i as int),
        decreases entries.len() - i,
    {
        mcfg_entries.push(entries[i]);
        assert(mcfg_entries@ =~= entries@.take(i + 1));
        i += 1;
    }
    assert(mcfg_entries@ =~= entries@);

    PciExpressConfigurationSpace::new(mcfg_entries, handler)
}

} // verus!
