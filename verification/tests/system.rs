use nocciolo::device::acpi::{AddressSpace, Fadt, GenericAddress, SystemState};
use nocciolo::device::{AcpiFailure, AmlFailure, DeviceError, DeviceErrorKind};
use nocciolo::meta::system::{
    before_acpi_shutdown, do_shutdown_using_acpi, perform_acpi_sleep, shutdown_using_acpi,
    AcpiShutdownErrorKind, AmlElement, AmlObject, ShutdownRequest, SleepFacts, ACPI_SLP_EN,
};
use nocciolo::meta::{HypervisorKind, System};
use nocciolo::platform::{PortWidth, PortWrite};
use nocciolo::{exit_qemu, QemuExitCode};

fn io_block(address: u64) -> GenericAddress {
    GenericAddress { address_space: AddressSpace::SystemIo, bit_width: 16, bit_offset: 0, address }
}

fn word(port: u16, value: u32) -> PortWrite {
    PortWrite { port, width: PortWidth::Word, value }
}

fn facts(package: Vec<AmlElement>, pm1b: Option<GenericAddress>) -> SleepFacts {
    SleepFacts {
        aml_present: true,
        fadt: Some(Fadt { pm1a_control_block: Ok(io_block(0x604)), pm1b_control_block: Ok(pm1b) }),
        s5: Ok(AmlObject::Package(package)),
    }
}

#[test]
fn brand_strings_give_emulators_away() {
    assert_eq!(System::hypervisor_from_brand("TCGTCGTCGTCG"), Some(HypervisorKind::QemuOld));
    assert_eq!(
        System::hypervisor_from_brand("QEMU Virtual CPU version 2.5+"),
        Some(HypervisorKind::QemuNew)
    );
    assert_eq!(System::hypervisor_from_brand("VMwareVMware"), Some(HypervisorKind::VMWare));
    assert_eq!(System::hypervisor_from_brand("VBoxVBoxVBox"), Some(HypervisorKind::VMWare));
    assert_eq!(System::hypervisor_from_brand("GenuineIntel"), None);
    assert_eq!(System::hypervisor_from_brand(""), None);
    assert_eq!(System::hypervisor_from_brand("TCGTCGTCGTCG "), None);
}

#[test]
fn detection_answers_with_an_emulator_that_has_a_brand_string() {
    let detected = System::detect_hypervisor();
    assert!(matches!(
        detected,
        None | Some(HypervisorKind::QemuOld)
            | Some(HypervisorKind::QemuNew)
            | Some(HypervisorKind::VMWare)
    ));
}

#[test]
fn emulators_are_switched_off_through_their_port() {
    assert_eq!(
        System::request_shutdown(Some(HypervisorKind::Bochs)),
        ShutdownRequest::Port(word(0xB004, 0x2000))
    );
    assert_eq!(
        System::request_shutdown(Some(HypervisorKind::QemuOld)),
        ShutdownRequest::Port(word(0x604, 0x2000))
    );
    assert_eq!(
        System::request_shutdown(Some(HypervisorKind::VirtualBox)),
        ShutdownRequest::Port(word(0x4004, 0x3400))
    );
    assert_eq!(System::request_shutdown(Some(HypervisorKind::QemuNew)), ShutdownRequest::Acpi);
    assert_eq!(System::request_shutdown(Some(HypervisorKind::VMWare)), ShutdownRequest::Acpi);
    assert_eq!(System::request_shutdown(None), ShutdownRequest::Acpi);
}

#[test]
fn sleep_type_is_shifted_into_bits_ten_to_twelve() {
    assert_eq!(ACPI_SLP_EN, 0x2000);
    assert_eq!(
        perform_acpi_sleep(Some(&AmlElement::Integer(5)), io_block(0x604)),
        Ok(word(0x604, 0x3400))
    );
    assert_eq!(
        perform_acpi_sleep(Some(&AmlElement::Integer(0)), io_block(0xB004)),
        Ok(word(0xB004, 0x2000))
    );
    assert_eq!(
        perform_acpi_sleep(Some(&AmlElement::Integer(7)), io_block(0xFFFF)),
        Ok(word(0xFFFF, 0x3C00))
    );
}

#[test]
fn shutdown_happy_path_writes_the_sleep_command_to_pm1a() {
    let plan = do_shutdown_using_acpi(facts(
        vec![AmlElement::Integer(5), AmlElement::Integer(0)],
        None,
    ));
    assert_eq!(plan.result, Ok(()));
    assert_eq!(plan.writes, vec![word(0x604, 0x3400)]);
}

#[test]
fn second_control_block_gets_the_second_sleep_type() {
    let plan = do_shutdown_using_acpi(facts(
        vec![AmlElement::Integer(5), AmlElement::Integer(1)],
        Some(io_block(0x608)),
    ));
    assert_eq!(plan.result, Ok(()));
    assert_eq!(plan.writes, vec![word(0x604, 0x3400), word(0x608, 0x2400)]);
}

#[test]
fn sleep_fails_on_what_is_no_integer() {
    assert_eq!(
        perform_acpi_sleep(Some(&AmlElement::Other), io_block(0x604)),
        Err(AcpiShutdownErrorKind::S5ValueNotInteger)
    );
    assert_eq!(
        perform_acpi_sleep(None, io_block(0x604)),
        Err(AcpiShutdownErrorKind::S5ValueNotInteger)
    );
}

#[test]
fn sleep_fails_on_a_sleep_type_beyond_a_word() {
    assert_eq!(
        perform_acpi_sleep(Some(&AmlElement::Integer(0x1_0000)), io_block(0x604)),
        Err(AcpiShutdownErrorKind::S5ValueOutsideWordSize(0x1_0000))
    );
    assert_eq!(
        perform_acpi_sleep(Some(&AmlElement::Integer(0xFFFF)), io_block(0x604)),
        Ok(word(0x604, 0x2000 | 0xFC00))
    );
}

#[test]
fn sleep_fails_on_a_control_block_outside_io_space() {
    let memory = GenericAddress {
        address_space: AddressSpace::SystemMemory,
        bit_width: 16,
        bit_offset: 0,
        address: 0x604,
    };
    assert_eq!(
        perform_acpi_sleep(Some(&AmlElement::Integer(5)), memory),
        Err(AcpiShutdownErrorKind::PmControlBlockNotInSystemIoSpace(AddressSpace::SystemMemory))
    );
    assert_eq!(
        perform_acpi_sleep(Some(&AmlElement::Integer(5)), io_block(0x1_0000)),
        Err(AcpiShutdownErrorKind::PmControlAddressNotInIoPortRange(0x1_0000))
    );
}

#[test]
fn shutdown_needs_the_namespace_and_the_fadt() {
    let mut missing = facts(vec![AmlElement::Integer(5)], None);
    missing.aml_present = false;
    let plan = do_shutdown_using_acpi(missing);
    assert_eq!(plan.result, Err(AcpiShutdownErrorKind::NoAml));
    assert!(plan.writes.is_empty());

    let mut missing = facts(vec![AmlElement::Integer(5)], None);
    missing.fadt = None;
    let plan = do_shutdown_using_acpi(missing);
    assert_eq!(plan.result, Err(AcpiShutdownErrorKind::NoFadt));
    assert!(plan.writes.is_empty());
}

#[test]
fn shutdown_needs_a_package_under_s5() {
    let mut odd = facts(Vec::new(), None);
    odd.s5 = Ok(AmlObject::Other);
    assert_eq!(do_shutdown_using_acpi(odd).result, Err(AcpiShutdownErrorKind::S5PathNotPackage));

    let mut absent = facts(Vec::new(), None);
    absent.s5 = Err(AmlFailure::ValueDoesNotExist("\\_S5_".to_string()));
    assert_eq!(
        do_shutdown_using_acpi(absent).result,
        Err(AcpiShutdownErrorKind::Aml(AmlFailure::ValueDoesNotExist("\\_S5_".to_string())))
    );

    let empty = facts(Vec::new(), None);
    assert_eq!(do_shutdown_using_acpi(empty).result, Err(AcpiShutdownErrorKind::S5ValueNotInteger));
}

#[test]
fn failure_at_the_second_block_keeps_the_first_write() {
    let plan = do_shutdown_using_acpi(facts(vec![AmlElement::Integer(5)], Some(io_block(0x608))));
    assert_eq!(plan.result, Err(AcpiShutdownErrorKind::S5ValueNotInteger));
    assert_eq!(plan.writes, vec![word(0x604, 0x3400)]);
}

#[test]
fn missing_pts_method_is_no_failure() {
    assert_eq!(before_acpi_shutdown(true, Ok(())), Ok(()));
    assert_eq!(
        before_acpi_shutdown(true, Err(AmlFailure::ValueDoesNotExist("\\_PTS".to_string()))),
        Ok(())
    );
    assert_eq!(
        before_acpi_shutdown(true, Err(AmlFailure::ValueDoesNotExist("\\_SB_".to_string()))),
        Err(AcpiShutdownErrorKind::Aml(AmlFailure::ValueDoesNotExist("\\_SB_".to_string())))
    );
    assert_eq!(
        before_acpi_shutdown(true, Err(AmlFailure::Other("fatal".to_string()))),
        Err(AcpiShutdownErrorKind::Aml(AmlFailure::Other("fatal".to_string())))
    );
    assert_eq!(before_acpi_shutdown(false, Err(AmlFailure::Other("fatal".to_string()))), Ok(()));
}

#[test]
fn failed_shutdown_wakes_the_platform() {
    let outcome = shutdown_using_acpi(
        true,
        Err(AmlFailure::Other("fatal".to_string())),
        facts(vec![AmlElement::Integer(5)], None),
    );
    assert!(outcome.wake);
    assert!(outcome.writes.is_empty());
    assert_eq!(
        outcome.result,
        Err(AcpiShutdownErrorKind::Aml(AmlFailure::Other("fatal".to_string())))
    );

    let outcome = shutdown_using_acpi(true, Ok(()), facts(vec![AmlElement::Other], None));
    assert!(outcome.wake);
    assert_eq!(outcome.result, Err(AcpiShutdownErrorKind::S5ValueNotInteger));

    let outcome = shutdown_using_acpi(true, Ok(()), facts(vec![AmlElement::Integer(5)], None));
    assert!(!outcome.wake);
    assert_eq!(outcome.result, Ok(()));
    assert_eq!(outcome.writes, vec![word(0x604, 0x3400)]);
}

#[test]
fn system_states_have_their_numbers() {
    assert_eq!(SystemState::S0.value(), 0);
    assert_eq!(SystemState::S3.value(), 3);
    assert_eq!(SystemState::S5.value(), 5);
}

#[test]
fn device_errors_carry_their_region() {
    let error = DeviceError::aml(AmlFailure::Other("bad opcode".to_string()));
    assert_eq!(error.region, "(unknown)");
    let error = error.with_region("parse_table");
    assert_eq!(error.region, "parse_table");
    assert_eq!(error.kind, DeviceErrorKind::Aml(AmlFailure::Other("bad opcode".to_string())));
    let error = DeviceError::acpi(AcpiFailure { description: "no dsdt".to_string() });
    assert_eq!(error.region, "(unknown)");
    assert_eq!(
        error.with_region("get dsdt").kind,
        DeviceErrorKind::Acpi(AcpiFailure { description: "no dsdt".to_string() })
    );
}

#[test]
fn emulator_exit_codes_go_to_port_f4() {
    assert_eq!(QemuExitCode::Success.value(), 0x10);
    assert_eq!(QemuExitCode::Failed.value(), 0x11);
    assert_eq!(
        exit_qemu(QemuExitCode::Success),
        PortWrite { port: 0xf4, width: PortWidth::Dword, value: 0x10 }
    );
    assert_eq!(
        exit_qemu(QemuExitCode::Failed),
        PortWrite { port: 0xf4, width: PortWidth::Dword, value: 0x11 }
    );
}

#[test]
fn unreadable_control_blocks_fail_the_shutdown() {
    let broken = AcpiFailure { description: "InvalidGenericAddress".to_string() };
    let mut first = facts(vec![AmlElement::Integer(5)], None);
    first.fadt = Some(Fadt { pm1a_control_block: Err(broken.clone()), pm1b_control_block: Ok(None) });
    let plan = do_shutdown_using_acpi(first);
    assert_eq!(plan.result, Err(AcpiShutdownErrorKind::Acpi(broken.clone())));
    assert!(plan.writes.is_empty());

    let mut second = facts(vec![AmlElement::Integer(5)], None);
    second.fadt = Some(Fadt {
        pm1a_control_block: Ok(io_block(0x604)),
        pm1b_control_block: Err(broken.clone()),
    });
    let plan = do_shutdown_using_acpi(second);
    assert_eq!(plan.result, Err(AcpiShutdownErrorKind::Acpi(broken)));
    assert_eq!(plan.writes, vec![word(0x604, 0x3400)]);
}
