//! The order in which the kernel is brought up.

use vstd::prelude::*;

verus! {

/// Number of seconds that the kernel counts down before it shuts the machine
/// down.
pub const COUNTDOWN_SECONDS: u64 = 10;

/// One step of bringing the kernel up.
#[derive(Debug, Clone, Copy, PartialEq, Eq, Structural)]
pub enum BootStep {
    /// Install the logger.
    Logging,
    /// Hand the framebuffer to the console.
    Framebuffer,
    /// Load the segment table.
    Gdt,
    /// Build and load the interrupt table.
    Idt,
    /// Initialise the legacy interrupt controllers.
    LegacyPic,
    /// Program the interval timer.
    Pit,
    /// Set up the mapper, the frame allocator and the heap.
    Heap,
    /// Find the ACPI tables and parse the AML.
    Acpi,
    /// Set up the Local APIC and the I/O APIC.
    Apic,
    /// Mask every line of the legacy interrupt controllers.
    DisableLegacyPic,
    /// Enable interrupts on the processor.
    EnableInterrupts,
    /// Read the symbol table of the kernel image.
    Runtime,
    /// Enumerate the devices.
    Devices,
}

/// The steps up to the interrupt controllers. The framebuffer is handed over
/// only if the bootloader gave one.
pub open spec fn early_steps(framebuffer: bool) -> Seq<BootStep> {
    (if framebuffer {
        seq![BootStep::Logging, BootStep::Framebuffer]
    } else {
        seq![BootStep::Logging]
    }) + seq![
        BootStep::Gdt,
        BootStep::Idt,
        BootStep::LegacyPic,
        BootStep::Pit,
        BootStep::Heap,
        BootStep::Acpi,
        BootStep::Apic,
    ]
}

/// The steps after the interrupt controllers. The legacy controllers are
/// masked only if the APICs were set up; otherwise they stay in charge.
pub open spec fn late_steps(apic_ready: bool) -> Seq<BootStep> {
    (if apic_ready {
        seq![BootStep::DisableLegacyPic]
    } else {
        Seq::<BootStep>::empty()
    }) + seq![BootStep::EnableInterrupts, BootStep::Runtime, BootStep::Devices]
}

/// The steps of bringing the kernel up, until it is known whether the APICs
/// could be set up.
pub fn init(framebuffer: bool) -> (steps: Vec<BootStep>)
    ensures
        steps@ == early_steps(framebuffer),
{
    let mut steps: Vec<BootStep> = Vec::new();
    steps.push(BootStep::Logging);
    if framebuffer {
        steps.push(BootStep::Framebuffer);
    }
    steps.push(BootStep::Gdt);
    steps.push(BootStep::Idt);
    steps.push(BootStep::LegacyPic);
    steps.push(BootStep::Pit);
    steps.push(BootStep::Heap);
    steps.push(BootStep::Acpi);
    steps.push(BootStep::Apic);
    assert(steps@ =~= early_steps(framebuffer));
    steps
}

/// The rest of the steps.
pub fn init_after_apic(apic_ready: bool) -> (steps: Vec<BootStep>)
    ensures
        steps@ == late_steps(apic_ready),
{
    let mut steps: Vec<BootStep> = Vec::new();
    if apic_ready {
        steps.push(BootStep::DisableLegacyPic);
    }
    steps.push(BootStep::EnableInterrupts);
    steps.push(BootStep::Runtime);
    steps.push(BootStep::Devices);
    assert(steps@ =~= late_steps(apic_ready));
    steps
}

} // verus!
