//! Interrupt vectors, the table that routes them, and what each handler does.

pub mod apic;

use self::apic::local::{register_write, LocalApic, LocalApicRegister};
use crate::device::pit::{tick_after, TickCounter};
use crate::task::keyboard::{add_scancode, ScancodeOutcome, ScancodeStream, SCANCODE_CAPACITY};
use vstd::prelude::*;

verus! {

/// Vector of the first line of the master interrupt controller.
pub const PIC_1_OFFSET: u8 = 32;

/// Vector of the first line of the slave interrupt controller.
pub const PIC_2_OFFSET: u8 = PIC_1_OFFSET + 8;

/// The vectors above the CPU exceptions that the kernel uses.
#[derive(Debug, Clone, Copy, PartialEq, Eq, Structural)]
pub enum InterruptIndex {
    Timer,
    Keyboard,
    /// Error reported by the local vector table.
    LvtError,
    /// First of the vectors that otherwise unused I/O APIC lines deliver.
    SpuriousIoApic,
    /// Vector of the spurious interrupt of the Local APIC.
    SpuriousLocalApic,
}

/// The vector number of each index: the timer and the keyboard on the first
/// two lines of the master controller, the rest above them.
pub open spec fn vector_of(index: InterruptIndex) -> u8 {
    match index {
        InterruptIndex::Timer => 32,
        InterruptIndex::Keyboard => 33,
        InterruptIndex::LvtError => 34,
        InterruptIndex::SpuriousIoApic => 100,
        InterruptIndex::SpuriousLocalApic => 0xFF,
    }
}

impl InterruptIndex {
    pub fn as_u8(self) -> (vector: u8)
        ensures
            vector == vector_of(self),
    {
        match self {
            InterruptIndex::Timer => PIC_1_OFFSET,
            InterruptIndex::Keyboard => PIC_1_OFFSET + 1,
            InterruptIndex::LvtError => PIC_1_OFFSET + 2,
            InterruptIndex::SpuriousIoApic => 100,
            InterruptIndex::SpuriousLocalApic => 0xFF,
        }
    }
}

/// I/O port that the keyboard controller hands scancodes out through.
pub const KEYBOARD_DATA: u16 = 0x60;

/// The exceptions that the processor raises by itself.
#[derive(Debug, Clone, Copy, PartialEq, Eq, Structural)]
pub enum Exception {
    DivideError,
    Debug,
    NonMaskableInterrupt,
    Breakpoint,
    Overflow,
    BoundRangeExceeded,
    InvalidOpcode,
    DeviceNotAvailable,
    DoubleFault,
    InvalidTss,
    SegmentNotPresent,
    StackSegmentFault,
    GeneralProtectionFault,
    PageFault,
    AlignmentCheck,
    MachineCheck,
    SimdFloatingPoint,
    Virtualization,
    ControlProtection,
    HypervisorInjection,
    VmmCommunication,
    Security,
}

/// The vector that the architecture gives each exception.
pub open spec fn exception_vector(exception: Exception) -> u8 {
    match exception {
        Exception::DivideError => 0,
        Exception::Debug => 1,
        Exception::NonMaskableInterrupt => 2,
        Exception::Breakpoint => 3,
        Exception::Overflow => 4,
        Exception::BoundRangeExceeded => 5,
        Exception::InvalidOpcode => 6,
        Exception::DeviceNotAvailable => 7,
        Exception::DoubleFault => 8,
        Exception::InvalidTss => 10,
        Exception::SegmentNotPresent => 11,
        Exception::StackSegmentFault => 12,
        Exception::GeneralProtectionFault => 13,
        Exception::PageFault => 14,
        Exception::AlignmentCheck => 17,
        Exception::MachineCheck => 18,
        Exception::SimdFloatingPoint => 19,
        Exception::Virtualization => 20,
        Exception::ControlProtection => 21,
        Exception::HypervisorInjection => 28,
        Exception::VmmCommunication => 29,
        Exception::Security => 30,
    }
}

/// What the handler of an exception does once it has reported the exception.
#[derive(Debug, Clone, Copy, PartialEq, Eq, Structural)]
pub enum Reaction {
    /// Returns to the interrupted code.
    Resume,
    /// Halts the processor for good.
    Halt,
    /// Panics.
    Panic,
}

/// A double fault and a machine check are beyond repair and panic; a page
/// fault and a general protection fault halt the processor; every other
/// exception is reported and left behind.
pub open spec fn reaction_to(exception: Exception) -> Reaction {
    match exception {
        Exception::DoubleFault => Reaction::Panic,
        Exception::MachineCheck => Reaction::Panic,
        Exception::PageFault => Reaction::Halt,
        Exception::GeneralProtectionFault => Reaction::Halt,
        _ => Reaction::Resume,
    }
}

impl Exception {
    /// The vector of the exception.
    pub fn vector(&self) -> (vector: u8)
        ensures
            vector == exception_vector(*self),
    {
        match self {
            Exception::DivideError => 0,
            Exception::Debug => 1,
            Exception::NonMaskableInterrupt => 2,
            Exception::Breakpoint => 3,
            Exception::Overflow => 4,
            Exception::BoundRangeExceeded => 5,
            Exception::InvalidOpcode => 6,
            Exception::DeviceNotAvailable => 7,
            Exception::DoubleFault => 8,
            Exception::InvalidTss => 10,
            Exception::SegmentNotPresent => 11,
            Exception::StackSegmentFault => 12,
            Exception::GeneralProtectionFault => 13,
            Exception::PageFault => 14,
            Exception::AlignmentCheck => 17,
            Exception::MachineCheck => 18,
            Exception::SimdFloatingPoint => 19,
            Exception::Virtualization => 20,
            Exception::ControlProtection => 21,
            Exception::HypervisorInjection => 28,
            Exception::VmmCommunication => 29,
            Exception::Security => 30,
        }
    }

    /// What the handler does after its report.
    pub fn reaction(&self) -> (reaction: Reaction)
        ensures
            reaction == reaction_to(*self),
    {
        match self {
            Exception::DoubleFault => Reaction::Panic,
            Exception::MachineCheck => Reaction::Panic,
            Exception::PageFault => Reaction::Halt,
            Exception::GeneralProtectionFault => Reaction::Halt,
            _ => Reaction::Resume,
        }
    }
}

/// What a vector of the interrupt table is handled by.
#[derive(Debug, Clone, Copy, PartialEq, Eq, Structural)]
pub enum Handler {
    Exception(Exception),
    Interrupt(InterruptIndex),
}

/// One entry of the interrupt table.
#[derive(Debug, Clone, Copy, PartialEq, Eq, Structural)]
pub struct IdtEntry {
    pub vector: u8,
    pub handler: Handler,
}

/// The vector that a handler is entered at.
pub open spec fn handler_vector(handler: Handler) -> u8 {
    match handler {
        Handler::Exception(exception) => exception_vector(exception),
        Handler::Interrupt(index) => vector_of(index),
    }
}

/// The handlers of the interrupt table, in the order in which they are
/// entered: the exceptions, the timer and the keyboard, and the vectors of
/// the interrupt controllers.
pub open spec fn handlers() -> Seq<Handler> {
    seq![
        Handler::Exception(Exception::DivideError),
        Handler::Exception(Exception::Debug),
        Handler::Exception(Exception::NonMaskableInterrupt),
        Handler::Exception(Exception::Breakpoint),
        Handler::Exception(Exception::Overflow),
        Handler::Exception(Exception::BoundRangeExceeded),
        Handler::Exception(Exception::InvalidOpcode),
        Handler::Exception(Exception::DeviceNotAvailable),
        Handler::Exception(Exception::DoubleFault),
        Handler::Exception(Exception::InvalidTss),
        Handler::Exception(Exception::SegmentNotPresent),
        Handler::Exception(Exception::StackSegmentFault),
        Handler::Exception(Exception::GeneralProtectionFault),
        Handler::Exception(Exception::PageFault),
        Handler::Exception(Exception::AlignmentCheck),
        Handler::Exception(Exception::MachineCheck),
        Handler::Exception(Exception::SimdFloatingPoint),
        Handler::Exception(Exception::Virtualization),
        Handler::Exception(Exception::ControlProtection),
        Handler::Exception(Exception::HypervisorInjection),
        Handler::Exception(Exception::VmmCommunication),
        Handler::Exception(Exception::Security),
        Handler::Interrupt(InterruptIndex::Timer),
        Handler::Interrupt(InterruptIndex::Keyboard),
        Handler::Interrupt(InterruptIndex::LvtError),
        Handler::Interrupt(InterruptIndex::SpuriousIoApic),
        Handler::Interrupt(InterruptIndex::SpuriousLocalApic),
    ]
}

impl Handler {
    /// The vector that the handler is entered at.
    pub fn vector(&self) -> (vector: u8)
        ensures
            vector == handler_vector(*self),
    {
        match self {
            Handler::Exception(exception) => exception.vector(),
            Handler::Interrupt(index) => index.as_u8(),
        }
    }
}

/// The entries that the interrupt table is built from: one for each handler,
/// at the vector of the handler. The table is built once and loaded.
pub fn init_idt() -> (table: Vec<IdtEntry>)
    ensures
        table@ == handlers().map_values(
            |handler: Handler| IdtEntry { vector: handler_vector(handler), handler },
        ),
{
    let all: [Handler; 27] = [
        Handler::Exception(Exception::DivideError),
        Handler::Exception(Exception::Debug),
        Handler::Exception(Exception::NonMaskableInterrupt),
        Handler::Exception(Exception::Breakpoint),
        Handler::Exception(Exception::Overflow),
        Handler::Exception(Exception::BoundRangeExceeded),
        Handler::Exception(Exception::InvalidOpcode),
        Handler::Exception(Exception::DeviceNotAvailable),
        Handler::Exception(Exception::DoubleFault),
        Handler::Exception(Exception::InvalidTss),
        Handler::Exception(Exception::SegmentNotPresent),
        Handler::Exception(Exception::StackSegmentFault),
        Handler::Exception(Exception::GeneralProtectionFault),
        Handler::Exception(Exception::PageFault),
        Handler::Exception(Exception::AlignmentCheck),
        Handler::Exception(Exception::MachineCheck),
        Handler::Exception(Exception::SimdFloatingPoint),
        Handler::Exception(Exception::Virtualization),
        Handler::Exception(Exception::ControlProtection),
        Handler::Exception(Exception::HypervisorInjection),
        Handler::Exception(Exception::VmmCommunication),
        Handler::Exception(Exception::Security),
        Handler::Interrupt(InterruptIndex::Timer),
        Handler::Interrupt(InterruptIndex::Keyboard),
        Handler::Interrupt(InterruptIndex::LvtError),
        Handler::Interrupt(InterruptIndex::SpuriousIoApic),
        Handler::Interrupt(InterruptIndex::SpuriousLocalApic),
    ];
    assert(all@ =~= handlers());
    let mut table: Vec<IdtEntry> = Vec::new();
    let mut i: usize = 0;
    while i < 27
        invariant
            i <= 27,
            all@ == handlers(),
            table@ == handlers().take(i as int).map_values(
                |handler: Handler| IdtEntry { vector: handler_vector(handler), handler },
            ),
        decreases 27 - i,
    {
        let handler = all[i];
        table.push(IdtEntry { vector: handler.vector(), handler });
        assert(table@ =~= handlers().take(i + 1).map_values(
            |handler: Handler| IdtEntry { vector: handler_vector(handler), handler },
        ));
        i += 1;
    }
    assert(handlers().take(27) =~= handlers());
    table
}

/// No two handlers of the interrupt table share a vector.
pub proof fn handlers_have_vectors_of_their_own(first: int, second: int)
    requires
        0 <= first < second < handlers().len(),
    ensures
        handler_vector(handlers()[first]) != handler_vector(handlers()[second]),
{
}

/// The interrupt controller that the end of an interrupt is signalled to.
#[derive(Debug, Clone, Copy, PartialEq, Eq, Structural)]
pub enum EoiRoute {
    /// The Local APIC: the write to its end-of-interrupt register has been
    /// recorded.
    LocalApic,
    /// The legacy controllers, which are to be notified of the end of the
    /// interrupt at this vector.
    LegacyPic(u8),
}

/// Signals the end of the interrupt at `index` to the controller that is
/// active: the Local APIC if one is published, else the legacy controllers.
pub fn end_of_interrupt(local: &mut Option<LocalApic>, index: InterruptIndex) -> (route: EoiRoute)
    requires
        *old(local) matches Some(apic) ==> apic.well_formed(),
    ensures
        *final(local) matches Some(apic) ==> apic.well_formed(),
        (*final(local) is Some) == (*old(local) is Some),
        match *old(local) {
            Some(before) => {
                &&& route == EoiRoute::LocalApic
                &&& (*final(local))->0.mapping() == before.mapping()
                &&& (*final(local))->0.journal() == before.journal().push(
                    register_write(
                        before.mapping().virtual_start(),
                        LocalApicRegister::EndOfInterrupt,
                        0,
                    ),
                )
            },
            None => route == EoiRoute::LegacyPic(vector_of(index)),
        },
{
    if LocalApic::end_of_interrupt(local) {
        EoiRoute::LocalApic
    } else {
        EoiRoute::LegacyPic(index.as_u8())
    }
}

/// What the keyboard interrupt handler does with the byte that it read from
/// the keyboard data port: it queues the byte and then signals the end of
/// the interrupt, which is the last thing it does.
pub fn keyboard_interrupt_handler(
    scancode: u8,
    stream: &mut Option<ScancodeStream>,
    local: &mut Option<LocalApic>,
) -> (done: (ScancodeOutcome, EoiRoute))
    requires
        *old(stream) matches Some(queue) ==> queue.well_formed(),
        *old(local) matches Some(apic) ==> apic.well_formed(),
    ensures
        *final(stream) matches Some(queue) ==> queue.well_formed(),
        *final(local) matches Some(apic) ==> apic.well_formed(),
        (*final(stream) is Some) == (*old(stream) is Some),
        (*final(local) is Some) == (*old(local) is Some),
        match *old(stream) {
            Some(before) => {
                &&& done.0 == (if before@.len() < SCANCODE_CAPACITY {
                    ScancodeOutcome::Queued
                } else {
                    ScancodeOutcome::Dropped
                })
                &&& (*final(stream))->0@ == (if before@.len() < SCANCODE_CAPACITY {
                    before@.push(scancode)
                } else {
                    before@
                })
            },
            None => done.0 == ScancodeOutcome::Uninitialized,
        },
        match *old(local) {
            Some(before) => {
                &&& done.1 == EoiRoute::LocalApic
                &&& (*final(local))->0.mapping() == before.mapping()
                &&& (*final(local))->0.journal() == before.journal().push(
                    register_write(
                        before.mapping().virtual_start(),
                        LocalApicRegister::EndOfInterrupt,
                        0,
                    ),
                )
            },
            None => done.1 == EoiRoute::LegacyPic(vector_of(InterruptIndex::Keyboard)),
        },
{
    let outcome = add_scancode(stream, scancode);
    let route = end_of_interrupt(local, InterruptIndex::Keyboard);
    (outcome, route)
}

/// What the timer interrupt handler does: it counts the tick and then
/// signals the end of the interrupt.
pub fn timer_interrupt_handler(timer: &mut TickCounter, local: &mut Option<LocalApic>) -> (route:
    EoiRoute)
    requires
        *old(local) matches Some(apic) ==> apic.well_formed(),
    ensures
        *final(local) matches Some(apic) ==> apic.well_formed(),
        (*final(local) is Some) == (*old(local) is Some),
        final(timer).ticks == tick_after(old(timer).ticks, 1),
        match *old(local) {
            Some(before) => {
                &&& route == EoiRoute::LocalApic
                &&& (*final(local))->0.mapping() == before.mapping()
                &&& (*final(local))->0.journal() == before.journal().push(
                    register_write(
                        before.mapping().virtual_start(),
                        LocalApicRegister::EndOfInterrupt,
                        0,
                    ),
                )
            },
            None => route == EoiRoute::LegacyPic(vector_of(InterruptIndex::Timer)),
        },
{
    timer.tick();
    end_of_interrupt(local, InterruptIndex::Timer)
}

} // verus!
