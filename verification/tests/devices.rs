use nocciolo::device::acpi::{
    aml_access, aml_read_pci, aml_write_pci, find_io_apic_base, find_local_apic_base, find_rsdp,
    AccessWidth, AcpiData, MadtEntry, NoccioloAcpiHandler, PageRequest, PciRequest, RsdpSource,
};
use nocciolo::device::pit::{
    get_pit_uptime, init, latch_count, read_count, set_frequency, sleep, write_mode_command,
    write_reload_count, AccessMode, Channel, OperatingMode, Sleep, TickCounter,
};
use nocciolo::interrupts::apic::local::LocalApic;
use nocciolo::interrupts::{
    end_of_interrupt, init_idt, keyboard_interrupt_handler, timer_interrupt_handler, EoiRoute,
    Exception, Handler, InterruptIndex, Reaction, PIC_1_OFFSET, PIC_2_OFFSET,
};
use nocciolo::platform::{ByteImage, PortWidth, PortWrite, RegisterWrite};
use nocciolo::task::keyboard::{ScancodeOutcome, ScancodeStream};

fn byte(port: u16, value: u32) -> PortWrite {
    PortWrite { port, width: PortWidth::Byte, value }
}

#[test]
fn timer_is_programmed_for_one_kilohertz() {
    let mut ports = Vec::new();
    init(&mut ports);
    assert_eq!(ports, vec![byte(0x43, 0x36), byte(0x40, 0xA9), byte(0x40, 0x04)]);
}

#[test]
fn mode_command_packs_its_fields() {
    let mut ports = Vec::new();
    write_mode_command(
        &mut ports,
        Channel::Channel0,
        AccessMode::LoByteOnly,
        OperatingMode::RateGenerator,
        true,
    );
    write_mode_command(
        &mut ports,
        Channel::Channel0,
        AccessMode::HiByteOnly,
        OperatingMode::SquareWave2,
        false,
    );
    latch_count(&mut ports);
    assert_eq!(ports, vec![byte(0x43, 0x15), byte(0x43, 0x2E), byte(0x43, 0x00)]);
}

#[test]
fn reload_count_goes_out_low_byte_first() {
    let mut ports = Vec::new();
    write_reload_count(&mut ports, 0xBEEF);
    set_frequency(&mut ports, 100);
    set_frequency(&mut ports, 19);
    assert_eq!(
        ports,
        vec![
            byte(0x40, 0xEF),
            byte(0x40, 0xBE),
            byte(0x40, 0x9B),
            byte(0x40, 0x2E),
            byte(0x40, 0x4F),
            byte(0x40, 0xF5),
        ]
    );
    assert_eq!(read_count(0x34, 0x12), 0x1234);
}

#[test]
fn sleep_ends_when_the_uptime_reaches_the_end() {
    assert_eq!(sleep(100, 0), None);
    let nap = sleep(100, 250).unwrap();
    assert_eq!(nap, Sleep { end: 350 });
    assert!(!nap.is_over(100));
    assert!(!nap.is_over(349));
    assert!(nap.is_over(350));
    assert!(!nap.is_over(351));
    assert_eq!(sleep(usize::MAX, 2), Some(Sleep { end: 1 }));
}

#[test]
fn ticks_are_counted() {
    let mut timer = TickCounter::new();
    assert_eq!(get_pit_uptime(&timer), 0);
    timer.tick();
    timer.tick();
    assert_eq!(timer.read(), 2);
    let mut last = TickCounter { ticks: usize::MAX };
    last.tick();
    assert_eq!(last.read(), 0);
}

#[test]
fn interrupt_vectors_start_at_the_first_controller() {
    assert_eq!(PIC_1_OFFSET, 32);
    assert_eq!(PIC_2_OFFSET, 40);
    assert_eq!(InterruptIndex::Timer.as_u8(), 32);
    assert_eq!(InterruptIndex::Keyboard.as_u8(), 33);
    assert_eq!(InterruptIndex::LvtError.as_u8(), 34);
    assert_eq!(InterruptIndex::SpuriousIoApic.as_u8(), 100);
    assert_eq!(InterruptIndex::SpuriousLocalApic.as_u8(), 0xFF);
}

#[test]
fn interrupt_table_has_one_entry_for_each_handler() {
    let table = init_idt();
    assert_eq!(table.len(), 27);
    for (i, entry) in table.iter().enumerate() {
        assert_eq!(entry.vector, entry.handler.vector());
        for other in &table[i + 1..] {
            assert_ne!(entry.vector, other.vector);
        }
    }
    assert_eq!(table[0].handler, Handler::Exception(Exception::DivideError));
    assert_eq!(table[0].vector, 0);
    assert_eq!(table[8].handler, Handler::Exception(Exception::DoubleFault));
    assert_eq!(table[8].vector, 8);
    assert_eq!(table[13].handler, Handler::Exception(Exception::PageFault));
    assert_eq!(table[13].vector, 14);
    assert_eq!(table[21].vector, 30);
    assert_eq!(table[22].handler, Handler::Interrupt(InterruptIndex::Timer));
    assert_eq!(table[22].vector, 32);
    assert_eq!(table[23].vector, 33);
    assert_eq!(table[26].vector, 0xFF);
}

#[test]
fn exceptions_are_reacted_to() {
    assert_eq!(Exception::DoubleFault.reaction(), Reaction::Panic);
    assert_eq!(Exception::MachineCheck.reaction(), Reaction::Panic);
    assert_eq!(Exception::PageFault.reaction(), Reaction::Halt);
    assert_eq!(Exception::GeneralProtectionFault.reaction(), Reaction::Halt);
    assert_eq!(Exception::Breakpoint.reaction(), Reaction::Resume);
    assert_eq!(Exception::DivideError.reaction(), Reaction::Resume);
    assert_eq!(Exception::Security.vector(), 30);
    assert_eq!(Exception::VmmCommunication.vector(), 29);
}

#[test]
fn end_of_interrupt_goes_to_the_active_controller() {
    let mut none: Option<LocalApic> = None;
    assert_eq!(end_of_interrupt(&mut none, InterruptIndex::Keyboard), EoiRoute::LegacyPic(33));
    assert_eq!(end_of_interrupt(&mut none, InterruptIndex::Timer), EoiRoute::LegacyPic(32));

    let mut handler = NoccioloAcpiHandler::new();
    let mut local = Some(LocalApic::from_addr(0xFEE0_0000, &mut handler));
    assert_eq!(end_of_interrupt(&mut local, InterruptIndex::Keyboard), EoiRoute::LocalApic);
    assert_eq!(
        local.as_mut().unwrap().take_writes(),
        vec![RegisterWrite { address: 0x10_0000_00B0, value: 0 }]
    );
}

#[test]
fn keyboard_handler_queues_and_then_signals_the_end() {
    let mut handler = NoccioloAcpiHandler::new();
    let mut local = Some(LocalApic::from_addr(0xFEE0_0000, &mut handler));
    local.as_mut().unwrap().initialize();
    let mut stream = Some(ScancodeStream::new());
    let done = keyboard_interrupt_handler(0x1C, &mut stream, &mut local);
    assert_eq!(done, (ScancodeOutcome::Queued, EoiRoute::LocalApic));
    assert_eq!(stream.as_mut().unwrap().next(), Some(0x1C));
    let writes = local.as_mut().unwrap().take_writes();
    assert_eq!(writes.last(), Some(&RegisterWrite { address: 0x10_0000_00B0, value: 0 }));

    let mut nothing: Option<ScancodeStream> = None;
    let mut legacy: Option<LocalApic> = None;
    let done = keyboard_interrupt_handler(0x1C, &mut nothing, &mut legacy);
    assert_eq!(done, (ScancodeOutcome::Uninitialized, EoiRoute::LegacyPic(33)));
}

#[test]
fn timer_handler_counts_the_tick() {
    let mut timer = TickCounter::new();
    let mut legacy: Option<LocalApic> = None;
    assert_eq!(timer_interrupt_handler(&mut timer, &mut legacy), EoiRoute::LegacyPic(32));
    assert_eq!(timer.read(), 1);
}

#[test]
fn apic_bases_are_taken_from_the_madt() {
    let madt = vec![
        MadtEntry::Other,
        MadtEntry::IoApic { io_apic_address: 0xFEC0_0000 },
        MadtEntry::LocalApicAddressOverride { local_apic_address: 0xFEE1_0000 },
        MadtEntry::IoApic { io_apic_address: 0xFEC1_0000 },
        MadtEntry::LocalApicAddressOverride { local_apic_address: 0xFEE2_0000 },
    ];
    assert_eq!(find_io_apic_base(Some(&madt)), Some(0xFEC0_0000));
    assert_eq!(find_local_apic_base(Some(&madt), 0xFEE0_0000), 0xFEE1_0000);
    let plain = vec![MadtEntry::Other];
    assert_eq!(find_io_apic_base(Some(&plain)), None);
    assert_eq!(find_local_apic_base(Some(&plain), 0xFEE0_0000), 0xFEE0_0000);
    assert_eq!(find_io_apic_base(None), None);
    assert_eq!(find_local_apic_base(None, 0xFEE0_0900), 0xFEE0_0900);
}

#[test]
fn acpi_tables_are_absent_until_installed() {
    let mut data = AcpiData::new();
    assert!(data.madt().is_none());
    assert!(data.fadt().is_none());
    assert!(data.mcfg().is_none());
    data.madt = Some(vec![MadtEntry::Other]);
    assert_eq!(data.madt(), Some(&vec![MadtEntry::Other]));
}

#[test]
fn pci_requests_of_the_interpreter_are_encoded() {
    let request = PciRequest { segment: 0, bus: 0, device: 2, function: 0, offset: 0 };
    assert_eq!(request.address(), 0x8000_1000);
    let request = PciRequest { segment: 0, bus: 0xAB, device: 0x1F, function: 7, offset: 0x1FF };
    assert_eq!(request.address(), 0x80AB_FFFC);
    let mut ports = Vec::new();
    aml_read_pci(&mut ports, request);
    aml_write_pci(&mut ports, request, 0x55);
    assert_eq!(
        ports,
        vec![
            PortWrite { port: 0xCF8, width: PortWidth::Dword, value: 0x80AB_FFFC },
            PortWrite { port: 0xCF8, width: PortWidth::Dword, value: 0x80AB_FFFC },
            PortWrite { port: 0xCFC, width: PortWidth::Dword, value: 0x55 },
        ]
    );
}

#[test]
fn interpreter_accesses_map_their_width() {
    let mut handler = NoccioloAcpiHandler::new();
    let mapping = aml_access(&mut handler, 0x7FFF, AccessWidth::Word).unwrap();
    assert_eq!(mapping.virtual_start(), 0x10_0000_0FFF);
    assert_eq!(mapping.region_length(), 2);
    assert_eq!(mapping.mapped_length(), 0x2000);
    let mapping = aml_access(&mut handler, 0x9000, AccessWidth::Qword).unwrap();
    assert_eq!(mapping.virtual_start(), 0x10_0000_2000);
    assert_eq!(mapping.mapped_length(), 0x1000);
    assert!(aml_access(&mut handler, u64::MAX, AccessWidth::Byte).is_none());
    assert_eq!(AccessWidth::Dword.bytes(), 4);
    assert_eq!(AccessWidth::Byte.bytes(), 1);
}

#[test]
fn rsdp_is_mapped_where_the_bootloader_found_it() {
    let mut handler = NoccioloAcpiHandler::new();
    assert!(matches!(find_rsdp(None, &mut handler), RsdpSource::SearchBios));
    assert!(handler.take_requests().is_empty());
    match find_rsdp(Some(0xF_5A10), &mut handler) {
        RsdpSource::Mapped(mapping) => {
            assert_eq!(mapping.physical_start(), 0xF_5A10);
            assert_eq!(mapping.region_length(), 36);
            assert_eq!(mapping.virtual_start(), 0x10_0000_0A10);
        },
        other => panic!("not mapped: {:?}", other),
    }
    assert_eq!(
        handler.take_requests(),
        vec![PageRequest::MapPage { page: 0x10_0000_0000, frame: 0xF_5000, flags: 3 }]
    );
    assert!(matches!(
        find_rsdp(Some(u64::MAX - 8), &mut handler),
        RsdpSource::Unmappable(address) if address == u64::MAX - 8
    ));
}

#[test]
fn byte_image_is_little_endian() {
    let mut image = ByteImage::new();
    assert_eq!(image.read_byte(0x100), 0xFF);
    assert_eq!(image.read_dword(0x100), 0xFFFF_FFFF);
    image.write_word(0x100, 0x1234);
    assert_eq!(image.read_byte(0x100), 0x34);
    assert_eq!(image.read_byte(0x101), 0x12);
    assert_eq!(image.read_word(0x100), 0x1234);
    assert_eq!(image.read_dword(0x100), 0xFFFF_1234);
    image.write_byte(0x103, 0xAB);
    assert_eq!(image.read_dword(0x100), 0xABFF_1234);
    image.write_word(u64::MAX, 0xBEEF);
    assert_eq!(image.read_byte(u64::MAX), 0xEF);
    assert_eq!(image.read_byte(0), 0xBE);
    assert_eq!(image.read_word(u64::MAX), 0xBEEF);
}
