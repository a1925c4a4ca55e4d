use nocciolo::device::acpi::{MadtEntry, NoccioloAcpiHandler, PageRequest};
use nocciolo::interrupts::apic::io::{
    DeliveryMode, DeliveryStatus, DestinationField, DestinationMode, IOApic, IOApicRedirectionEntry,
    IOApicRegister, InterruptMask, InterruptPolarity, TriggerMode,
};
use nocciolo::interrupts::apic::local::{
    verify_in_correct_region, ApicRegisterPermissions, LocalApic, LocalApicRegister,
    LocalVectorTableRegister, VectorDeliverStatus, VectorDeliveryMode, VectorTimerMode,
    VectorTriggerMode,
};
use nocciolo::interrupts::apic::{init, map_apics, ApicError};
use nocciolo::interrupts::InterruptIndex;
use nocciolo::memory::{MemoryRegion, MemoryRegionKind};
use nocciolo::platform::RegisterWrite;

const LOCAL_BASE: u64 = 0x10_0000_0000;

fn local_apic() -> (LocalApic, NoccioloAcpiHandler) {
    let mut handler = NoccioloAcpiHandler::new();
    let apic = LocalApic::from_addr(0xFEE0_0000, &mut handler);
    (apic, handler)
}

#[test]
fn registers_have_their_permissions() {
    assert_eq!(LocalApicRegister::Id.permissions(), ApicRegisterPermissions::ReadOnly);
    assert_eq!(LocalApicRegister::EndOfInterrupt.permissions(), ApicRegisterPermissions::WriteOnly);
    assert_eq!(LocalApicRegister::LvtTimer.permissions(), ApicRegisterPermissions::ReadWrite);
    assert_eq!(LocalApicRegister::CurrentCount.permissions(), ApicRegisterPermissions::ReadOnly);
    assert!(LocalApicRegister::Id.is_readable());
    assert!(!LocalApicRegister::Id.is_writable());
    assert!(!LocalApicRegister::EndOfInterrupt.is_readable());
    assert!(LocalApicRegister::EndOfInterrupt.is_writable());
    assert!(LocalApicRegister::SpuriousInterruptVector.is_readable());
    assert!(LocalApicRegister::SpuriousInterruptVector.is_writable());
    assert_eq!(LocalApicRegister::EndOfInterrupt.offset(), 0xB0);
    assert_eq!(LocalApicRegister::DivideConfiguration.offset(), 0x3E0);
}

#[test]
fn vector_table_entries_encode() {
    assert_eq!(LocalVectorTableRegister::new(0xFF, false).as_u32(), 0xFF);
    assert_eq!(LocalVectorTableRegister::new(34, true).as_u32(), 0x1_0022);
    assert_eq!(
        LocalVectorTableRegister::new_timer(32, false, VectorTimerMode::Periodic).as_u32(),
        0x2_0020
    );
    assert_eq!(
        LocalVectorTableRegister::new_timer(32, false, VectorTimerMode::TscDeadline).as_u32(),
        0x4_0020
    );
    assert_eq!(LocalVectorTableRegister::new_masked_timer().as_u32(), 0x3_0000);
    let full = LocalVectorTableRegister {
        vector: 0x41,
        delivery_mode: VectorDeliveryMode::NMI,
        delivery_status: VectorDeliverStatus::SendPending,
        is_low_triggered: true,
        is_remote_irr: true,
        trigger_mode: VectorTriggerMode::Level,
        is_masked: true,
        timer_mode: VectorTimerMode::Periodic,
    };
    assert_eq!(full.as_u32(), 0x3_F441);
    assert_eq!(LocalVectorTableRegister::from_u32(0x3_F441), full);
}

#[test]
fn vector_table_entries_decode() {
    let entry = LocalVectorTableRegister::from_u32(0x2_0020);
    assert_eq!(entry, LocalVectorTableRegister::new_timer(32, false, VectorTimerMode::Periodic));
    assert_eq!(
        LocalVectorTableRegister::from_u32(0x0700).delivery_mode,
        VectorDeliveryMode::Reserved(7)
    );
    assert_eq!(LocalVectorTableRegister::from_u32(0x0300).delivery_mode, VectorDeliveryMode::ExtInt);
    assert_eq!(LocalVectorTableRegister::from_u32(0x0200).delivery_mode, VectorDeliveryMode::SMI);
    // Only the lower bit of the timer mode is looked at.
    assert_eq!(LocalVectorTableRegister::from_u32(0x4_0000).timer_mode, VectorTimerMode::OneShot);
}

#[test]
fn local_apic_is_mapped_at_the_first_free_page() {
    let (apic, mut handler) = local_apic();
    assert_eq!(apic.base(), LOCAL_BASE);
    assert_eq!(apic.offset_to_addr(0xB0), LOCAL_BASE + 0xB0);
    assert_eq!(apic.register_to_addr(LocalApicRegister::LvtTimer), LOCAL_BASE + 0x320);
    assert_eq!(
        handler.take_requests(),
        vec![PageRequest::MapPage { page: LOCAL_BASE, frame: 0xFEE0_0000, flags: 0x1B }]
    );
    assert_eq!(apic.id(), 0);
}

#[test]
fn local_apic_follows_the_madt_override() {
    let mut handler = NoccioloAcpiHandler::new();
    let madt = vec![
        MadtEntry::Other,
        MadtEntry::LocalApicAddressOverride { local_apic_address: 0xFEC8_0800 },
    ];
    let apic = LocalApic::new(Some(&madt), 0xFEE0_0000, &mut handler);
    assert_eq!(apic.base(), LOCAL_BASE + 0x800);
    let apic = LocalApic::new(None, 0xFEE0_0000, &mut handler);
    assert_eq!(apic.base(), LOCAL_BASE + 0x1000);
}

#[test]
fn initialization_writes_the_registers_in_order() {
    let (mut apic, _) = local_apic();
    apic.initialize();
    apic.do_test_stuff();
    let write = |offset: u64, value: u32| RegisterWrite { address: LOCAL_BASE + offset, value };
    assert_eq!(
        apic.take_writes(),
        vec![
            write(0x0F0, 0xFF),
            write(0x320, 0x2_0020),
            write(0x350, 0x1_00FF),
            write(0x360, 0x1_00FF),
            write(0x370, 34),
            write(0x380, 0),
            write(0x3E0, 3),
        ]
    );
    assert!(apic.take_writes().is_empty());
}

#[test]
fn loaded_registers_are_read_back() {
    let (mut apic, _) = local_apic();
    apic.load(LocalApicRegister::Id, 0x0300_0000);
    apic.load(LocalApicRegister::Version, 0x0005_0014);
    apic.load(LocalApicRegister::CurrentCount, 1234);
    apic.load(LocalApicRegister::ErrorStatus, 0x40);
    assert_eq!(apic.id(), 0x0300_0000);
    assert_eq!(apic.version(), 0x0005_0014);
    assert_eq!(apic.current_count(), 1234);
    assert!(apic.take_writes().is_empty());
    let slot = Some(apic);
    assert_eq!(LocalApic::error_status(&slot), Some(0x40));
    assert_eq!(LocalApic::error_status(&None), None);
}

#[test]
fn timer_is_programmed_and_stopped() {
    let (mut apic, _) = local_apic();
    apic.set_timer_initial_counter(0x1234_5678);
    apic.stop_timer();
    assert_eq!(
        apic.take_writes(),
        vec![
            RegisterWrite { address: LOCAL_BASE + 0x380, value: 0x1234_5678 },
            RegisterWrite { address: LOCAL_BASE + 0x320, value: 0x3_0000 },
        ]
    );
}

#[test]
fn end_of_interrupt_writes_zero_to_register_b0() {
    let (mut apic, _) = local_apic();
    apic.initialize();
    let mut slot: Option<LocalApic> = None;
    assert!(!LocalApic::is_published(&slot));
    assert!(!LocalApic::end_of_interrupt(&mut slot));
    apic.publish(&mut slot);
    assert!(LocalApic::is_published(&slot));
    assert!(LocalApic::end_of_interrupt(&mut slot));
    let writes = slot.as_mut().unwrap().take_writes();
    assert_eq!(writes.len(), 8);
    assert_eq!(writes.last(), Some(&RegisterWrite { address: LOCAL_BASE + 0xB0, value: 0 }));
}

#[test]
fn apic_base_is_looked_for_in_the_memory_map() {
    let regions = vec![
        MemoryRegion { start: 0x0, end: 0x9_F000, kind: MemoryRegionKind::Usable },
        MemoryRegion { start: 0xFEE0_0000, end: 0xFEE0_1000, kind: MemoryRegionKind::UnknownBios(2) },
    ];
    assert!(verify_in_correct_region(0xFEE0_0000, &regions));
    assert!(verify_in_correct_region(0xFEE0_1000, &regions));
    assert!(verify_in_correct_region(0x9_F000, &regions));
    assert!(!verify_in_correct_region(0xFEC0_0000, &regions));
    assert!(!verify_in_correct_region(0xFEE0_0000, &Vec::new()));
}

#[test]
fn io_apic_registers_have_their_numbers() {
    assert_eq!(IOApicRegister::Id.as_u8(), 0);
    assert_eq!(IOApicRegister::Version.as_u8(), 1);
    assert_eq!(IOApicRegister::ArbitrationId.as_u8(), 2);
    assert_eq!(IOApicRegister::RedirectionEntry(0).as_u8(), 0x10);
    assert_eq!(IOApicRegister::RedirectionEntry(2).as_u8(), 0x14);
    assert_eq!(IOApicRegister::RedirectionEntry(23).as_u8(), 0x3E);
    assert_eq!(IOApicRegister::ManuallySpecified(0x55).as_u8(), 0x55);
    assert_eq!(
        IOApicRegister::RedirectionEntry(2).second_part_redir(),
        IOApicRegister::ManuallySpecified(0x15)
    );
}

#[test]
fn destinations_depend_on_the_mode() {
    assert_eq!(
        DestinationField::new(DestinationMode::Physical, 0xAB),
        DestinationField::PhysicalApicId(0x0B)
    );
    assert_eq!(
        DestinationField::new(DestinationMode::Logical, 0xAB),
        DestinationField::LogicalSetOfProcessors(0xAB)
    );
    assert_eq!(DestinationField::PhysicalApicId(3).as_u8(), 3);
    assert_eq!(DestinationField::LogicalSetOfProcessors(0xF0).as_u8(), 0xF0);
}

fn sample_entry() -> IOApicRedirectionEntry {
    IOApicRedirectionEntry {
        vector: 0x31,
        delivery_mode: DeliveryMode::LowestPriority,
        destination_mode: DestinationMode::Logical,
        delivery_status: DeliveryStatus::Idle,
        polarity: InterruptPolarity::LowActive,
        remote_irr: false,
        trigger_mode: TriggerMode::LevelSensitive,
        mask: InterruptMask::Masked,
        destination: DestinationField::LogicalSetOfProcessors(0x81),
    }
}

#[test]
fn redirection_entries_encode_and_decode() {
    let entry = sample_entry();
    assert_eq!(entry.low(), 0x0001_A931);
    assert_eq!(entry.high(), 0x8100_0000);
    assert_eq!(IOApicRedirectionEntry::decode(0x8100_0000_0001_A931), entry);
    let reserved = IOApicRedirectionEntry::decode(0x0000_0000_0000_0300);
    assert_eq!(reserved.delivery_mode, DeliveryMode::Reserved(3));
    assert_eq!(reserved.destination, DestinationField::PhysicalApicId(0));
    assert_eq!(reserved.mask, InterruptMask::Unmasked);
    let physical = IOApicRedirectionEntry::decode(0xFF00_0000_0001_0000);
    assert_eq!(physical.destination, DestinationField::PhysicalApicId(0xF));
    assert_eq!(physical.mask, InterruptMask::Masked);
}

fn io_apic(version: u32) -> (IOApic, LocalApic) {
    let mut handler = NoccioloAcpiHandler::new();
    let local = LocalApic::from_addr(0xFEE0_0000, &mut handler);
    let io = IOApic::new(&local, 0xFEC0_0000, &mut handler, version);
    (io, local)
}

const IO_BASE: u64 = 0x10_0000_1000;

#[test]
fn io_apic_counts_its_entries_from_the_version_register() {
    let (io, _) = io_apic(0x0017_0011);
    assert_eq!(io.redirection_entry_count(), 24);
    assert_eq!(io.read_version(), 0x11);
    assert_eq!(io.read_redirection_entry_count(), 23);
    assert_eq!(io.offset_to_addr(0x10), IO_BASE + 0x10);
    let (io, _) = io_apic(0x00FF_0011);
    assert_eq!(io.redirection_entry_count(), 120);
    let (mut io, _) = io_apic(0);
    assert_eq!(io.redirection_entry_count(), 1);
    io.load(1, 0x0017_0011);
    assert_eq!(io.redirection_entry_count(), 1);
    io.update_redirection_entry_count();
    assert_eq!(io.redirection_entry_count(), 24);
}

#[test]
fn written_entry_is_read_back() {
    let (mut io, _) = io_apic(0x0017_0011);
    let before = io.read_entry(5);
    assert_eq!(before, IOApicRedirectionEntry::decode(0));
    let entry = sample_entry();
    io.write_entry(5, entry);
    assert_eq!(io.read_entry(5), entry);
    assert_eq!(io.read_entry(4), before);
    assert_eq!(io.read_entry(6), before);
    assert_eq!(io.read_u64(IOApicRegister::RedirectionEntry(5)), 0x8100_0000_0001_A931);
    assert_eq!(
        io.take_writes(),
        vec![
            RegisterWrite { address: IO_BASE, value: 0x1A },
            RegisterWrite { address: IO_BASE + 0x10, value: 0x0001_A931 },
            RegisterWrite { address: IO_BASE, value: 0x1B },
            RegisterWrite { address: IO_BASE + 0x10, value: 0x8100_0000 },
        ]
    );
}

#[test]
fn io_apic_registers_are_written_through_the_window() {
    let (mut io, _) = io_apic(0x0017_0011);
    io.write_u32(IOApicRegister::Id, 0x0200_0000);
    assert_eq!(io.read_u32(IOApicRegister::Id), 0x0200_0000);
    io.write_u64(IOApicRegister::RedirectionEntry(1), 0x1122_3344_5566_7788);
    assert_eq!(io.read_u32(IOApicRegister::RedirectionEntry(1)), 0x5566_7788);
    assert_eq!(io.read_u32(IOApicRegister::ManuallySpecified(0x13)), 0x1122_3344);
    assert_eq!(io.take_writes().len(), 6);
    io.load(0x12, 0xABCD);
    assert_eq!(io.read_u32(IOApicRegister::RedirectionEntry(1)), 0xABCD);
    assert!(io.take_writes().is_empty());
}

#[test]
fn initialization_routes_the_timer_and_the_unmasked_lines() {
    let (mut io, _) = io_apic(0x0003_0011);
    // Lines 0 and 2 are unmasked, lines 1 and 3 masked.
    io.load(0x10, 0x0000_0050);
    io.load(0x12, 0x0001_0051);
    io.load(0x14, 0x0000_0052);
    io.load(0x16, 0x0001_0053);
    io.initialize();
    assert_eq!(io.read_u32(IOApicRegister::RedirectionEntry(0)), 100);
    assert_eq!(io.read_u32(IOApicRegister::RedirectionEntry(1)), 0x0001_0051);
    assert_eq!(io.read_u32(IOApicRegister::RedirectionEntry(2)), 32);
    assert_eq!(io.read_u32(IOApicRegister::RedirectionEntry(3)), 0x0001_0053);
    let timer = io.read_entry(2);
    assert_eq!(timer.vector, InterruptIndex::Timer.as_u8());
    assert_eq!(timer.mask, InterruptMask::Unmasked);
    let writes = io.take_writes();
    assert_eq!(writes.len(), 12);
    assert_eq!(writes[1], RegisterWrite { address: IO_BASE + 0x10, value: 100 });
    assert_eq!(writes[5], RegisterWrite { address: IO_BASE + 0x10, value: 102 });
    assert_eq!(writes[9], RegisterWrite { address: IO_BASE + 0x10, value: 32 });
}

#[test]
fn masked_timer_line_is_unmasked_by_initialization() {
    let (mut io, _) = io_apic(0x0017_0011);
    io.load(0x14, 0x0001_0000);
    io.initialize();
    assert_eq!(io.read_u32(IOApicRegister::RedirectionEntry(2)), 32);
}

#[test]
fn lines_are_mapped_one_by_one() {
    let (mut io, _) = io_apic(0x0017_0011);
    io.load(0x12, 0x0001_A900);
    io.load(0x13, 0x0F00_0000);
    io.map(1, InterruptIndex::Keyboard);
    assert_eq!(io.read_u32(IOApicRegister::RedirectionEntry(1)), 0x0000_A921);
    assert_eq!(io.read_u32(IOApicRegister::ManuallySpecified(0x13)), 0x0F00_0000);
    io.take_writes();
    io.map_all_to_spurious_vectors();
    assert_eq!(io.read_u32(IOApicRegister::RedirectionEntry(1)), 0x0000_A900 | 101);
    assert_eq!(io.read_u32(IOApicRegister::RedirectionEntry(0)), 100);
    assert_eq!(io.read_u32(IOApicRegister::RedirectionEntry(23)), 123);
    assert_eq!(io.take_writes().len(), 24 * 4);
}

#[test]
fn io_apic_signals_the_end_of_interrupt_to_the_local_apic() {
    let (io, _) = io_apic(0x0017_0011);
    let mut slot: Option<IOApic> = None;
    assert!(!IOApic::end_of_interrupt(&mut slot));
    assert_eq!(IOApic::dump_debug_info(&slot), None);
    io.publish(&mut slot);
    assert!(IOApic::end_of_interrupt(&mut slot));
    assert_eq!(IOApic::dump_debug_info(&slot), Some(IOApicRedirectionEntry::decode(0)));
    assert_eq!(
        slot.as_mut().unwrap().take_writes(),
        vec![RegisterWrite { address: LOCAL_BASE + 0xB0, value: 0 }]
    );
}

#[test]
fn both_apics_are_mapped_and_set_up() {
    let mut handler = NoccioloAcpiHandler::new();
    let madt = vec![
        MadtEntry::IoApic { io_apic_address: 0xFEC0_0000 },
        MadtEntry::LocalApicAddressOverride { local_apic_address: 0xFEE0_0000 },
    ];
    let (local, mut io) = map_apics(Some(&madt), 0xDEAD_0000, &mut handler).unwrap();
    assert_eq!(local.base(), LOCAL_BASE);
    assert_eq!(io.offset_to_addr(0), IO_BASE);
    assert_eq!(io.redirection_entry_count(), 1);
    assert_eq!(handler.take_requests().len(), 2);

    io.load(1, 0x0017_0011);
    io.load(0x14, 0x0001_0000);
    let mut local_slot = None;
    let mut io_slot = None;
    assert_eq!(init(local, io, &mut local_slot, &mut io_slot), Ok(()));
    let local = local_slot.as_mut().unwrap();
    assert_eq!(local.take_writes().len(), 7);
    let io = IOApic::with(&mut io_slot).unwrap();
    assert_eq!(io.redirection_entry_count(), 24);
    assert_eq!(io.read_u32(IOApicRegister::RedirectionEntry(2)), 32);
    assert_eq!(io.read_u32(IOApicRegister::RedirectionEntry(3)), 103);
    assert!(IOApic::with(&mut None).is_none());
}

#[test]
fn apic_setup_fails_for_a_reason() {
    let mut handler = NoccioloAcpiHandler::new();
    assert_eq!(map_apics(None, 0xFEE0_0000, &mut handler).err(), Some(ApicError::NoIoApic));
    assert_eq!(
        map_apics(None, u64::MAX, &mut handler).err(),
        Some(ApicError::LocalApicUnmappable)
    );
    let odd = vec![MadtEntry::IoApic { io_apic_address: 0xFEC0_0010 }];
    assert_eq!(
        map_apics(Some(&odd), 0xFEE0_0000, &mut handler).err(),
        Some(ApicError::IoApicMisaligned)
    );

    let madt = vec![MadtEntry::IoApic { io_apic_address: 0xFEC0_0000 }];
    let (local, mut io) = map_apics(Some(&madt), 0xFEE0_0000, &mut handler).unwrap();
    io.load(1, 0x0001_0011);
    let mut local_slot = None;
    let mut io_slot = None;
    assert_eq!(init(local, io, &mut local_slot, &mut io_slot), Err(ApicError::NoTimerLine));
    assert!(local_slot.is_none());
    assert!(io_slot.is_none());
}
