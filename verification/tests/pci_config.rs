use nocciolo::device::acpi::{AcpiData, McfgEntry, NoccioloAcpiHandler};
use nocciolo::device::net::intel_8254x::Intel8254xDevice;
use nocciolo::device::pci::config::{CONFIG_ADDRESS, CONFIG_DATA};
use nocciolo::device::pci::{
    init, init_using, try_create_pci_express_mechanism, ConfigurationSpaceMechanism,
    DeviceEnumerator, PciAddress, PciClassCode, PciDeviceId, PciExpressConfigurationSpace,
    PciHeaderType, PciIOPorts, PciLocalBusConfigurationSpace, PciSubclass, PciVendorId,
};
use nocciolo::device::GenericDevice;
use nocciolo::platform::{MemoryWrite, PortWidth, PortWrite};

fn at(bus: u8, device: u8) -> PciAddress {
    PciAddress { segment: 0, bus, device, function: 0 }
}

fn ports_with_three_devices() -> PciIOPorts {
    let mut ports = PciIOPorts::new();
    // 00:00.0 Intel host bridge
    ports.load(at(0, 0), 0x0, 0x1237_8086);
    ports.load(at(0, 0), 0x8, 0x0600_0002);
    ports.load(at(0, 0), 0xC, 0x0000_0000);
    // 00:03.0 Intel network controller
    ports.load(at(0, 3), 0x0, 0x100e_8086);
    ports.load(at(0, 3), 0x4, 0x0280_0103);
    ports.load(at(0, 3), 0x8, 0x0200_0003);
    ports.load(at(0, 3), 0xC, 0x0000_0000);
    ports.load(at(0, 3), 0x10, 0xFEBC_0000);
    // 05:1f.0 Bochs display
    ports.load(at(5, 31), 0x0, 0x1111_1234);
    ports.load(at(5, 31), 0x8, 0x0300_0000);
    ports
}

#[test]
fn legacy_mechanism_reads_the_typed_registers() {
    let pci = PciLocalBusConfigurationSpace::new(ports_with_three_devices());
    let nic = at(0, 3);
    assert_eq!(pci.read_dword(nic, 0x0), 0x100e_8086);
    assert_eq!(pci.read_word(nic, 0x0), 0x8086);
    assert_eq!(pci.read_word(nic, 0x2), 0x100e);
    assert_eq!(pci.vendor_id(nic), PciVendorId::new(0x8086));
    assert_eq!(pci.device_id(nic), PciDeviceId::new(0x100e));
    assert_eq!(pci.command(nic), 0x0103);
    assert_eq!(pci.status(nic), 0x0280);
    assert_eq!(pci.revision_id(nic), 0x03);
    assert_eq!(pci.prog_if(nic), 0x00);
    assert_eq!(pci.subclass(nic), PciSubclass::new(0x00));
    assert_eq!(pci.class_code(nic), PciClassCode::NetworkController);
    assert_eq!(pci.header_type(nic), PciHeaderType::Normal);
    assert_eq!(pci.base_address(nic, 0), Some(0xFEBC_0000));
    assert_eq!(pci.base_address(nic, 5), Some(0xFFFF_FFFF));
    assert_eq!(pci.base_address(nic, 6), None);
}

#[test]
fn absent_function_reads_as_all_ones() {
    let pci = PciLocalBusConfigurationSpace::new(ports_with_three_devices());
    assert_eq!(pci.read_dword(at(1, 0), 0x0), 0xFFFF_FFFF);
    assert_eq!(pci.vendor_id(at(1, 0)).value(), PciVendorId::INVALID);
    assert_eq!(pci.header_type(at(1, 0)), PciHeaderType::Unknown(0xFF));
    assert_eq!(pci.base_address(at(1, 0), 0), None);
}

#[test]
fn word_halves_are_selected_by_the_offset() {
    assert_eq!(PciLocalBusConfigurationSpace::select_word(0xAABB_CCDD, 0x0), 0xCCDD);
    assert_eq!(PciLocalBusConfigurationSpace::select_word(0xAABB_CCDD, 0x2), 0xAABB);
    assert_eq!(PciLocalBusConfigurationSpace::select_word(0xAABB_CCDD, 0x6), 0xAABB);
    assert_eq!(PciLocalBusConfigurationSpace::merge_word(0xAABB_CCDD, 0x0, 0x1122), 0xAABB_1122);
    assert_eq!(PciLocalBusConfigurationSpace::merge_word(0xAABB_CCDD, 0x2, 0x1122), 0x1122_CCDD);
}

#[test]
fn legacy_write_preserves_the_untouched_half() {
    let mut pci = PciLocalBusConfigurationSpace::new(ports_with_three_devices());
    let nic = at(0, 3);
    pci.write_word(nic, 0x4, 0x0007);
    assert_eq!(pci.read_word(nic, 0x4), 0x0007);
    assert_eq!(pci.read_word(nic, 0x6), 0x0280);
    pci.write_word(nic, 0x6, 0xBEEF);
    assert_eq!(pci.read_dword(nic, 0x4), 0xBEEF_0007);

    let writes = pci.ports.take_writes();
    assert_eq!(
        writes,
        vec![
            PortWrite { port: CONFIG_ADDRESS, width: PortWidth::Dword, value: 0x8000_1804 },
            PortWrite { port: CONFIG_DATA, width: PortWidth::Dword, value: 0x0280_0007 },
            PortWrite { port: CONFIG_ADDRESS, width: PortWidth::Dword, value: 0x8000_1804 },
            PortWrite { port: CONFIG_DATA, width: PortWidth::Dword, value: 0xBEEF_0007 },
        ]
    );
    assert!(pci.ports.take_writes().is_empty());
}

#[test]
fn bus_mastering_sets_bit_two_of_the_command() {
    let mut pci = PciLocalBusConfigurationSpace::new(ports_with_three_devices());
    let nic = at(0, 3);
    pci.enable_bus_mastering(nic);
    assert_eq!(pci.command(nic), 0x0107);
    assert_eq!(pci.status(nic), 0x0280);
    pci.write_command(nic, 0x0000);
    assert_eq!(pci.command(nic), 0x0000);
}

#[test]
fn port_pair_is_connected_only_while_enabled() {
    let mut ports = ports_with_three_devices();
    ports.write_config_address(0x8000_1800);
    assert_eq!(ports.read_config_data(), 0x100e_8086);
    ports.write_config_address(0x0000_1800);
    assert_eq!(ports.read_config_data(), 0xFFFF_FFFF);
    ports.write_config_data(0x1111_1111);
    assert_eq!(ports.peek(0x8000_1800), 0x100e_8086);
    ports.write_config_address(0x8000_1800);
    ports.write_config_data(0x2222_2222);
    assert_eq!(ports.peek(0x8000_1800), 0x2222_2222);
}

#[test]
fn scan_yields_each_present_function_once() {
    let pci = PciLocalBusConfigurationSpace::new(ports_with_three_devices());
    let mut scan = DeviceEnumerator::new(&pci);
    let mut found = Vec::new();
    while let Some(entry) = scan.next() {
        found.push(entry);
    }
    assert_eq!(
        found,
        vec![
            (at(0, 0), PciVendorId::new(0x8086), PciDeviceId::new(0x1237)),
            (at(0, 3), PciVendorId::new(0x8086), PciDeviceId::new(0x100e)),
            (at(5, 31), PciVendorId::new(0x1234), PciDeviceId::new(0x1111)),
        ]
    );
    assert_eq!(scan.next(), None);
}

#[test]
fn scan_reaches_the_last_slot() {
    let mut ports = PciIOPorts::new();
    ports.load(at(255, 31), 0x0, 0x0001_0002);
    let pci = PciLocalBusConfigurationSpace::new(ports);
    let reports = init_using(&pci);
    assert_eq!(reports.len(), 1);
    assert_eq!(reports[0].addr, at(255, 31));
    assert_eq!(reports[0].vendor_id.value(), 0x0002);
    assert_eq!(reports[0].device_id.value(), 0x0001);
}

#[test]
fn scan_reports_carry_classes_and_names() {
    let pci = PciLocalBusConfigurationSpace::new(ports_with_three_devices());
    let reports = init_using(&pci);
    assert_eq!(reports.len(), 3);
    assert_eq!(reports[0].class, PciClassCode::Bridge);
    assert_eq!(reports[0].subclass_name, Some("Host Bridge"));
    assert_eq!(reports[0].vendor_name, Some("Intel Corporation"));
    assert_eq!(reports[0].device_name, Some("440FX - 82441FX PMC [Natoma]"));
    assert_eq!(reports[1].class, PciClassCode::NetworkController);
    assert_eq!(reports[1].subclass, PciSubclass::new(0));
    assert_eq!(reports[1].subclass_name, Some("Ethernet Controller"));
    assert_eq!(reports[1].device_name, Some("82540EM Gigabit Ethernet Controller"));
    assert_eq!(reports[2].class, PciClassCode::DisplayController);
    assert_eq!(reports[2].vendor_name, Some("Bochs"));
    assert_eq!(reports[2].device_name, Some("Graphics Adapter"));
}

#[test]
fn scan_of_an_empty_bus_finds_nothing() {
    let pci = PciLocalBusConfigurationSpace::new(PciIOPorts::new());
    assert!(init_using(&pci).is_empty());
}

fn one_window() -> (PciExpressConfigurationSpace, NoccioloAcpiHandler) {
    let mut handler = NoccioloAcpiHandler::new();
    let entries = vec![McfgEntry {
        base_address: 0xB000_0000,
        pci_segment_group: 0,
        bus_number_start: 0,
        bus_number_end: 3,
    }];
    let space = PciExpressConfigurationSpace::new(entries, &mut handler).unwrap();
    (space, handler)
}

#[test]
fn express_window_covers_a_megabyte_per_bus() {
    let (_, mut handler) = one_window();
    let requests = handler.take_requests();
    assert_eq!(requests.len(), 4 * 256);
}

#[test]
fn express_address_is_window_start_plus_offset() {
    let (space, _) = one_window();
    let addr = PciAddress { segment: 0, bus: 3, device: 0, function: 0 };
    assert_eq!(space.config_space_to_address_space(addr, 0x10), Some(0x10_0000_0000 + 0x30_0010));
    let outside = PciAddress { segment: 0, bus: 4, device: 0, function: 0 };
    assert_eq!(space.config_space_to_address_space(outside, 0x10), None);
    let other_segment = PciAddress { segment: 1, bus: 0, device: 0, function: 0 };
    assert_eq!(space.config_space_to_address_space(other_segment, 0x10), None);
}

#[test]
fn express_mechanism_reads_and_writes_memory() {
    let (mut space, _) = one_window();
    let addr = PciAddress { segment: 0, bus: 1, device: 2, function: 3 };
    let base = 0x10_0000_0000u64 + (1 << 20) + (2 << 15) + (3 << 12);
    space.load(base, 0x86);
    space.load(base + 1, 0x80);
    space.load(base + 2, 0x0e);
    space.load(base + 3, 0x10);
    assert_eq!(space.read_word(addr, 0), 0x8086);
    assert_eq!(space.read_word(addr, 2), 0x100e);
    assert_eq!(space.read_dword(addr, 0), 0x100e_8086);
    assert_eq!(space.read_word(addr, 4), 0xFFFF);

    space.write_word(addr, 4, 0x0006);
    assert_eq!(space.read_word(addr, 4), 0x0006);
    assert_eq!(space.read_word(addr, 6), 0xFFFF);
    assert_eq!(space.take_writes(), vec![MemoryWrite { address: base + 4, value: 0x0006 }]);

    let outside = PciAddress { segment: 0, bus: 9, device: 0, function: 0 };
    assert_eq!(space.read_word(outside, 0), 0);
    assert_eq!(space.read_dword(outside, 0), 0);
    space.write_word(outside, 4, 0x1234);
    assert!(space.take_writes().is_empty());
}

#[test]
fn express_mechanism_needs_ordered_bus_numbers() {
    let mut handler = NoccioloAcpiHandler::new();
    let entries = vec![McfgEntry {
        base_address: 0xB000_0000,
        pci_segment_group: 0,
        bus_number_start: 4,
        bus_number_end: 3,
    }];
    assert!(PciExpressConfigurationSpace::new(entries, &mut handler).is_none());
}

#[test]
fn express_mechanism_is_made_from_the_mcfg() {
    let mut handler = NoccioloAcpiHandler::new();
    let mut acpi = AcpiData::new();
    assert!(try_create_pci_express_mechanism(&acpi, &mut handler).is_none());
    acpi.mcfg = Some(vec![McfgEntry {
        base_address: 0xE000_0000,
        pci_segment_group: 0,
        bus_number_start: 0,
        bus_number_end: 0,
    }]);
    let space = try_create_pci_express_mechanism(&acpi, &mut handler).unwrap();
    let addr = PciAddress { segment: 0, bus: 0, device: 1, function: 0 };
    assert_eq!(space.config_space_to_address_space(addr, 0), Some(0x10_0000_0000 + 0x8000));
}

#[test]
fn registers_outside_every_window_read_as_zero_and_count_as_present() {
    let (space, _) = one_window();
    let reports = init_using(&space);
    assert_eq!(reports.len(), 252 * 32);
    assert_eq!(reports[0].addr, at(4, 0));
    assert_eq!(reports[0].vendor_id.value(), 0);
}

#[test]
fn scan_prefers_the_express_mechanism() {
    let mut handler = NoccioloAcpiHandler::new();
    let entries = vec![McfgEntry {
        base_address: 0xB000_0000,
        pci_segment_group: 0,
        bus_number_start: 0,
        bus_number_end: 255,
    }];
    let mut space = PciExpressConfigurationSpace::new(entries, &mut handler).unwrap();
    let base = 0x10_0000_0000u64 + (2 << 20);
    space.load(base, 0x34);
    space.load(base + 1, 0x12);
    space.load(base + 2, 0x11);
    space.load(base + 3, 0x11);
    let legacy = PciLocalBusConfigurationSpace::new(ports_with_three_devices());
    let reports = init(Some(&space), &legacy);
    assert_eq!(reports.len(), 1);
    assert_eq!(reports[0].addr, at(2, 0));
    assert_eq!(reports[0].vendor_name, Some("Bochs"));
    assert_eq!(init(None, &legacy).len(), 3);
}

#[test]
fn network_controller_becomes_a_bus_master() {
    let mut pci = PciLocalBusConfigurationSpace::new(ports_with_three_devices());
    let mut device = Intel8254xDevice::new(at(0, 3));
    assert_eq!(device.bar0(), None);
    assert!(device.initialize(&mut pci).is_ok());
    assert_eq!(pci.command(at(0, 3)), 0x0107);
    assert_eq!(device.bar0(), Some(0xFEBC_0000));
}

struct FixedSpace {
    writes: Vec<(PciAddress, u16, u16)>,
}

impl ConfigurationSpaceMechanism for FixedSpace {
    fn word_at(&self, addr: PciAddress, offset: u16) -> u16 {
        self.read_word(addr, offset)
    }

    fn dword_at(&self, addr: PciAddress, offset: u16) -> u32 {
        self.read_dword(addr, offset)
    }

    fn written(&self, after: &Self, addr: PciAddress, offset: u16, value: u16) -> bool {
        after.writes.len() == self.writes.len() + 1
            && after.writes.last() == Some(&(addr, offset, value))
    }

    fn read_word(&self, addr: PciAddress, offset: u16) -> u16 {
        if addr.bus == 0 && addr.device == 7 {
            0x4000 + offset
        } else {
            0xFFFF
        }
    }

    fn read_dword(&self, _addr: PciAddress, offset: u16) -> u32 {
        offset as u32
    }

    fn write_word(&mut self, addr: PciAddress, offset: u16, value: u16) {
        self.writes.push((addr, offset, value));
    }
}

#[test]
fn provided_methods_work_over_any_mechanism() {
    let mut pci = FixedSpace { writes: Vec::new() };
    assert_eq!(pci.vendor_id(at(0, 7)).value(), 0x4000);
    assert_eq!(pci.device_id(at(0, 7)).value(), 0x4002);
    pci.enable_bus_mastering(at(0, 7));
    assert_eq!(pci.writes, vec![(at(0, 7), 0x4, 0x4004)]);
    let reports = init_using(&pci);
    assert_eq!(reports.len(), 1);
    assert_eq!(reports[0].addr, at(0, 7));
}
