use nocciolo::device::pci::types::DeviceNames;
use nocciolo::device::pci::{
    PciBaseAddress, PciBaseAddressType, PciClassCode, PciDeviceId, PciHeaderType, PciSubclass,
    PciVendorId,
};

#[test]
fn class_codes_decode_and_encode() {
    assert_eq!(PciClassCode::new(0x0), PciClassCode::Unclassified);
    assert_eq!(PciClassCode::new(0x2), PciClassCode::NetworkController);
    assert_eq!(PciClassCode::new(0x6), PciClassCode::Bridge);
    assert_eq!(PciClassCode::new(0x13), PciClassCode::NonEssentialInstrumentation);
    assert_eq!(PciClassCode::new(0x40), PciClassCode::Coprocessor);
    assert_eq!(PciClassCode::new(0xFF), PciClassCode::Unassigned);
    assert_eq!(PciClassCode::new(0x14), PciClassCode::Reserved(0x14));
    assert_eq!(PciClassCode::Bridge.value(), 0x6);
    assert_eq!(PciClassCode::Reserved(0x77).value(), 0x77);
}

#[test]
fn every_class_code_survives_a_round_trip() {
    for id in 0..=255u8 {
        assert_eq!(PciClassCode::new(id).value(), id);
    }
}

#[test]
fn subclass_names_depend_on_the_class() {
    assert_eq!(PciSubclass::new(0x0).name(PciClassCode::Bridge), Some("Host Bridge"));
    assert_eq!(PciSubclass::new(0x1).name(PciClassCode::Bridge), Some("ISA Bridge"));
    assert_eq!(
        PciSubclass::new(0x0).name(PciClassCode::NetworkController),
        Some("Ethernet Controller")
    );
    assert_eq!(
        PciSubclass::new(0x0).name(PciClassCode::DisplayController),
        Some("VGA Compatible Controller")
    );
    assert_eq!(PciSubclass::new(0x3).name(PciClassCode::SerialBusController), Some("USB Controller"));
    assert_eq!(PciSubclass::new(0x11).name(PciClassCode::WirelessController), Some("Bluetooth"));
    assert_eq!(PciSubclass::new(0x0).name(PciClassCode::Unassigned), Some("Non-VGA-Compatible"));
    assert_eq!(PciSubclass::new(0x9).name(PciClassCode::MassStorageController), None);
    assert_eq!(PciSubclass::new(0x0).name(PciClassCode::Unclassified), None);
}

#[test]
fn subclass_other_has_a_name_in_most_classes() {
    assert_eq!(PciSubclass::new(0x80).name(PciClassCode::Bridge), Some("Other"));
    assert_eq!(PciSubclass::new(0x80).name(PciClassCode::Unclassified), Some("Other"));
    assert_eq!(PciSubclass::new(0x80).name(PciClassCode::Reserved(0x99)), Some("Other"));
    assert_eq!(PciSubclass::new(0x80).name(PciClassCode::Unassigned), None);
    assert_eq!(PciSubclass::new(0x80).name(PciClassCode::IntelligentController), None);
    assert_eq!(PciSubclass::new(0x80).name(PciClassCode::SatelliteCommunicationController), None);
    assert_eq!(PciSubclass::new(0x80).value(), 0x80);
}

#[test]
fn vendors_and_devices_have_names() {
    assert_eq!(PciVendorId::new(0x1234).name(), Some("Bochs"));
    assert_eq!(PciVendorId::new(0x8086).name(), Some("Intel Corporation"));
    assert_eq!(PciVendorId::new(0xFFFF).name(), Some("INVALID"));
    assert_eq!(PciVendorId::new(0x10DE).name(), None);
    assert_eq!(PciVendorId::new(0x8086).value(), 0x8086);
    assert_eq!(PciVendorId::INVALID, 0xFFFF);

    let intel = PciVendorId::new(PciVendorId::INTEL_CORPORATION);
    let bochs = PciVendorId::new(PciVendorId::BOCHS);
    assert_eq!(PciDeviceId::new(0x100e).name(intel), Some("82540EM Gigabit Ethernet Controller"));
    assert_eq!(PciDeviceId::new(0x1237).name(intel), Some("440FX - 82441FX PMC [Natoma]"));
    assert_eq!(PciDeviceId::new(0x7000).name(intel), Some("Propolis Virtual PIIX3 ISA Controller"));
    assert_eq!(PciDeviceId::new(0x1111).name(bochs), Some("Graphics Adapter"));
    assert_eq!(PciDeviceId::new(0x1111).name(intel), None);
    assert_eq!(PciDeviceId::new(0x100e).name(bochs), None);
    assert_eq!(PciDeviceId::new(0x100e).name(PciVendorId::new(0x1022)), None);
    assert_eq!(PciDeviceId::new(0x100e).value(), 0x100e);
    assert_eq!(DeviceNames::get_bochs(0x1111), Some("Graphics Adapter"));
    assert_eq!(DeviceNames::get_bochs(0x1112), None);
    assert_eq!(DeviceNames::get_intel(0x7000), Some("Propolis Virtual PIIX3 ISA Controller"));
    assert_eq!(DeviceNames::get_intel(0x7001), None);
}

#[test]
fn header_types_say_how_many_bars_there_are() {
    assert_eq!(PciHeaderType::new(0), PciHeaderType::Normal);
    assert_eq!(PciHeaderType::new(1), PciHeaderType::PciToPciBridge);
    assert_eq!(PciHeaderType::new(2), PciHeaderType::CardBusBridge);
    assert_eq!(PciHeaderType::new(0x80), PciHeaderType::Unknown(0x80));
    assert_eq!(PciHeaderType::Normal.bar_count(), 6);
    assert_eq!(PciHeaderType::PciToPciBridge.bar_count(), 2);
    assert_eq!(PciHeaderType::CardBusBridge.bar_count(), 0);
    assert_eq!(PciHeaderType::Unknown(9).bar_count(), 0);
}

#[test]
fn base_addresses_tell_memory_from_ports() {
    let io = PciBaseAddress::new(0x0000_C001);
    assert_eq!(io.kind(), PciBaseAddressType::IOSpace);
    assert_eq!(io.actual_address(), 0x0000_C000);
    assert_eq!(io.value(), 0x0000_C001);

    let io_high = PciBaseAddress::new(0xFEDC_BA99);
    assert_eq!(io_high.actual_address(), 0xFEDC_BA90);

    let memory = PciBaseAddress::new(0xFEBC_1234);
    assert_eq!(memory.kind(), PciBaseAddressType::MemorySpace);
    assert_eq!(memory.actual_address(), 0x1230);
}
