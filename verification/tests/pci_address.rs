use nocciolo::device::pci::PciAddress;

#[test]
fn local_bus_address_of_device_two() {
    let addr = PciAddress { segment: 0, bus: 0, device: 2, function: 0 };
    assert_eq!(addr.create_local_bus_address(0x00, true), 0x8000_1000);
}

#[test]
fn local_bus_address_without_enable_flag() {
    let addr = PciAddress { segment: 0, bus: 1, device: 3, function: 5 };
    assert_eq!(addr.create_local_bus_address(0x07, false), 0x0001_1D04);
}

#[test]
fn express_offset_of_bus_three() {
    let addr = PciAddress { segment: 0, bus: 3, device: 0, function: 0 };
    assert_eq!(addr.create_express_offset(0x10, 0), 0x30_0010);
}

#[test]
fn express_offset_is_relative_to_first_bus() {
    let addr = PciAddress { segment: 0, bus: 5, device: 31, function: 7 };
    assert_eq!(addr.create_express_offset(0xFFF, 4), 0x1F_FFFF);
}
