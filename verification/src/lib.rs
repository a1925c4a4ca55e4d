//! Core logic of a small x86_64 kernel: address arithmetic, frame and page
//! allocation, interrupt-controller programming, PCI configuration access,
//! the scancode queue, the cooperative executor, the text console and the
//! ACPI shutdown sequence, together with what the tool on the build host
//! decides.
//!
//! Hardware is never touched from here. Devices are represented by register
//! images that record every write in order, so that a platform layer can
//! replay the writes on the real bus; what is read from hardware is brought
//! into the images by that layer.

pub mod allocator;
pub mod boot;
pub mod device;
pub mod host;
pub mod interrupts;
pub mod logging;
pub mod memory;
pub mod meta;
pub mod platform;
pub mod task;
mod text;
pub mod vga_text_buffer;

use crate::platform::{dword_write, PortWrite};
use vstd::prelude::*;

verus! {

/// Size of the stack that the bootloader gives the kernel: one mebibyte.
pub const KERNEL_STACK_SIZE: u64 = 1024 * 1024;

/// Port of the emulator's exit device.
pub const EXIT_PORT: u16 = 0xf4;

/// The codes that the kernel hands to the emulator when it exits.
#[derive(Debug, Clone, Copy, PartialEq, Eq, Structural)]
pub enum QemuExitCode {
    Success,
    Failed,
}

/// The number of an exit code.
pub open spec fn exit_code_value(exit_code: QemuExitCode) -> u32 {
    match exit_code {
        QemuExitCode::Success => 0x10,
        QemuExitCode::Failed => 0x11,
    }
}

impl QemuExitCode {
    /// The number of the exit code.
    pub fn value(&self) -> (code: u32)
        ensures
            code == exit_code_value(*self),
    {
        match self {
            QemuExitCode::Success => 0x10,
            QemuExitCode::Failed => 0x11,
        }
    }
}

/// The port write that makes the emulator exit with a code.
pub fn exit_qemu(exit_code: QemuExitCode) -> (write: PortWrite)
    ensures
        write == dword_write(EXIT_PORT, exit_code_value(exit_code)),
{
    PortWrite::dword(EXIT_PORT, exit_code.value())
}

} // verus!
