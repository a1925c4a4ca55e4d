//! The Local APIC and the I/O APIC.

pub mod io;
pub mod local;

pub use self::io::IOApic;
pub use self::local::LocalApic;
use self::io::{
    announced_entries, initialize_writes, registers_after_initialize, TIMER_LINE, WINDOW_LENGTH,
};
use self::local::{initialization_sequence, register_write, LocalApicRegister};
use self::local::BLOCK_LENGTH;
use crate::device::acpi::handler::{mappable, page_count, NoccioloAcpiHandler, DEVICE_FLAGS};
use crate::device::acpi::{
    find_io_apic_base, find_local_apic_base, first_io_apic, first_override, MadtEntry,
};
use crate::memory::PAGE_SIZE;
use vstd::prelude::*;

verus! {

/// Why the APICs could not be set up.
#[derive(Debug, Clone, Copy, PartialEq, Eq, Structural)]
pub enum ApicError {
    /// The register block of the Local APIC cannot be mapped.
    LocalApicUnmappable,
    /// The MADT describes no I/O APIC.
    NoIoApic,
    /// The register window of the I/O APIC does not start at a page.
    IoApicMisaligned,
    /// The register window of the I/O APIC cannot be mapped.
    IoApicUnmappable,
    /// The I/O APIC has no line for the legacy timer.
    NoTimerLine,
}

/// Physical address of the Local APIC: the first override of the MADT, else
/// what the base register holds.
pub open spec fn local_base(madt: Option<&Vec<MadtEntry>>, base_register: u64) -> u64 {
    match madt {
        Some(entries) => if first_override(entries@, 0) < entries@.len() {
            entries@[first_override(entries@, 0)]->local_apic_address
        } else {
            base_register
        },
        None => base_register,
    }
}

/// Physical address of the first I/O APIC of the MADT, if it describes one.
pub open spec fn io_base(madt: Option<&Vec<MadtEntry>>) -> Option<u64> {
    match madt {
        Some(entries) => if first_io_apic(entries@, 0) < entries@.len() {
            Some(entries@[first_io_apic(entries@, 0)]->io_apic_address as u64)
        } else {
            None
        },
        None => None,
    }
}

/// Whether the register blocks of both APICs can be mapped, and why not:
/// the first of the failures that applies, in the order of `ApicError`.
pub open spec fn mapping_failure(
    madt: Option<&Vec<MadtEntry>>,
    base_register: u64,
    next_page: u64,
) -> Option<ApicError> {
    let local = local_base(madt, base_register);
    if !mappable(next_page, local, BLOCK_LENGTH) {
        Some(ApicError::LocalApicUnmappable)
    } else {
        match io_base(madt) {
            None => Some(ApicError::NoIoApic),
            Some(io) => if io % PAGE_SIZE != 0 {
                Some(ApicError::IoApicMisaligned)
            } else if !mappable(
                (next_page + page_count(local, BLOCK_LENGTH) * PAGE_SIZE) as u64,
                io,
                WINDOW_LENGTH,
            ) {
                Some(ApicError::IoApicUnmappable)
            } else {
                None
            },
        }
    }
}

/// Maps the register blocks of the Local APIC and of the I/O APIC, the
/// Local APIC first. Nothing is written yet: the contents of the registers
/// are to be brought in with `load` before `init`. Where the I/O APIC
/// cannot be mapped, the block of the Local APIC stays mapped.
pub fn map_apics(
    madt: Option<&Vec<MadtEntry>>,
    base_register: u64,
    handler: &mut NoccioloAcpiHandler,
) -> (apics: Result<(LocalApic, IOApic), ApicError>)
    ensures
        match mapping_failure(madt, base_register, old(handler).next_page()) {
            Some(error) => {
                &&& apics == Err::<(LocalApic, IOApic), ApicError>(error)
                &&& if error == ApicError::LocalApicUnmappable {
                    final(handler).next_page() == old(handler).next_page() && final(handler).requests() == old(handler).requests()
                } else {
                    final(handler).next_page() == old(handler).next_page() + page_count(
                        local_base(madt, base_register),
                        BLOCK_LENGTH,
                    ) * PAGE_SIZE
                }
            },
            None => {
                &&& apics matches Ok((local, io))
                &&& local.well_formed()
                &&& io.well_formed()
                &&& local.mapping().physical_start() == local_base(madt, base_register)
                &&& local.mapping().virtual_start() == old(handler).next_page() + local_base(
                    madt,
                    base_register,
                ) % PAGE_SIZE
                &&& local.journal().len() == 0
                &&& io.mapping().physical_start() == io_base(madt)->0
                &&& io.base() == old(handler).next_page() + local.mapping().mapped_length()
                &&& io.eoi_address() == local.mapping().virtual_start() + 0xB0
                &&& io.journal().len() == 0
                &&& io.entry_count() == 1
                &&& final(handler).next_page() == io.base() + io.mapping().mapped_length()
                &&& final(handler).requests() == old(handler).requests()
                    + local.mapping().installing_requests(DEVICE_FLAGS)
                    + io.mapping().installing_requests(DEVICE_FLAGS)
            },
        },
{
    let addr: u64 = find_local_apic_base(madt, base_register);
    if !handler.can_map(addr, BLOCK_LENGTH) {
        return Err(ApicError::LocalApicUnmappable);
    }
    let local = LocalApic::new(madt, base_register, handler);

    let io_addr: u64 = match find_io_apic_base(madt) {
        Some(addr) => addr,
        None => {
            return Err(ApicError::NoIoApic);
        },
    };
    if io_addr % PAGE_SIZE != 0 {
        return Err(ApicError::IoApicMisaligned);
    }
    if !handler.can_map(io_addr, WINDOW_LENGTH) {
        return Err(ApicError::IoApicUnmappable);
    }
    let io = IOApic::new(&local, io_addr, handler, 0);
    assert(announced_entries(0) == 1) by (bit_vector);
    Ok((local, io))
}

/// Sets both APICs up and publishes them: the entries of the I/O APIC are
/// counted from its version register, the Local APIC is initialised, the
/// lines of the I/O APIC are routed. An I/O APIC without a line for the
/// legacy timer is no use: nothing is written or published then.
pub fn init(
    local: LocalApic,
    io: IOApic,
    local_instance: &mut Option<LocalApic>,
    io_instance: &mut Option<IOApic>,
) -> (result: Result<(), ApicError>)
    requires
        local.well_formed(),
        io.well_formed(),
    ensures
        result == (if TIMER_LINE < announced_entries(io.registers()[1]) {
            Ok::<(), ApicError>(())
        } else {
            Err::<(), ApicError>(ApicError::NoTimerLine)
        }),
        result is Err ==> *final(local_instance) == *old(local_instance) && *final(io_instance)
            == *old(io_instance),
        result is Ok ==> {
            &&& *final(local_instance) matches Some(published)
            &&& published.well_formed()
            &&& published.mapping() == local.mapping()
            &&& published.journal() == local.journal() + initialization_sequence().map_values(
                |write: (LocalApicRegister, u32)|
                    register_write(local.mapping().virtual_start(), write.0, write.1),
            )
            &&& *final(io_instance) matches Some(routed)
            &&& routed.well_formed()
            &&& routed.mapping() == io.mapping()
            &&& routed.eoi_address() == io.eoi_address()
            &&& routed.entry_count() == announced_entries(io.registers()[1])
            &&& routed.registers() == registers_after_initialize(
                io.registers(),
                routed.entry_count() as int,
            )
            &&& routed.journal() == io.journal() + initialize_writes(
                io.registers(),
                io.base(),
                routed.entry_count() as int,
            )
        },
{
    let mut local = local;
    let mut io = io;
    io.update_redirection_entry_count();
    if io.redirection_entry_count() <= TIMER_LINE as u16 {
        return Err(ApicError::NoTimerLine);
    }
    local.initialize();
    local.do_test_stuff();

    io.initialize();
    io.publish(io_instance);
    local.publish(local_instance);

    Ok(())
}

} // verus!
