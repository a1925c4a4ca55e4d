//! What the tool on the build host does for each of its commands: which
//! program it starts, and with which arguments and scripts.

use crate::text::push_str;
use vstd::prelude::*;

verus! {

/// The commands of the tool.
#[derive(Debug, Clone, PartialEq, Eq)]
pub enum HostCommand {
    Lldb,
    Gdb,
    Bios,
    Uefi,
    Info,
    Iso,
    Bochs,
    /// A word that is no command.
    Unknown(String),
    /// No word at all.
    Missing,
}

/// The command that a word names, if it names one.
pub open spec fn known_command(word: Seq<char>) -> Option<HostCommand> {
    if word == "lldb"@ {
        Some(HostCommand::Lldb)
    } else if word == "gdb"@ {
        Some(HostCommand::Gdb)
    } else if word == "bios"@ {
        Some(HostCommand::Bios)
    } else if word == "uefi"@ {
        Some(HostCommand::Uefi)
    } else if word == "info"@ {
        Some(HostCommand::Info)
    } else if word == "iso"@ {
        Some(HostCommand::Iso)
    } else if word == "bochs"@ {
        Some(HostCommand::Bochs)
    } else {
        None
    }
}

/// The command that the first argument of the tool names.
pub fn parse_command(word: Option<&str>) -> (command: HostCommand)
    ensures
        match word {
            None => command == HostCommand::Missing,
            Some(word) => match known_command(word@) {
                Some(known) => command == known,
                None => command matches HostCommand::Unknown(text) && text@ == word@,
            },
        },
{
    let word = match word {
        Some(word) => word.to_owned(),
        None => {
            return HostCommand::Missing;
        },
    };
    if word == "lldb".to_owned() {
        HostCommand::Lldb
    } else if word == "gdb".to_owned() {
        HostCommand::Gdb
    } else if word == "bios".to_owned() {
        HostCommand::Bios
    } else if word == "uefi".to_owned() {
        HostCommand::Uefi
    } else if word == "info".to_owned() {
        HostCommand::Info
    } else if word == "iso".to_owned() {
        HostCommand::Iso
    } else if word == "bochs".to_owned() {
        HostCommand::Bochs
    } else {
        HostCommand::Unknown(word)
    }
}

/// Directory that the disk image is copied to and the ISO image is made in.
pub open spec fn iso_directory() -> &'static str {
    "target/iso"
}

/// The arguments of `mkisofs` that make the ISO image.
pub open spec fn iso_arguments() -> Seq<&'static str> {
    seq![
        "-U",
        "-no-emul-boot",
        "-b",
        "nocciolo.img",
        "-hide",
        "nocciolo.img",
        "-V",
        "Nocciolo",
        "-iso-level",
        "3",
        "-o",
        "target/iso/nocciolo.iso",
        "target/iso",
    ]
}

/// The arguments of `mkisofs` that make the ISO image from the directory
/// that holds the disk image.
pub fn create_iso_command() -> (arguments: Vec<&'static str>)
    ensures
        arguments@ == iso_arguments(),
{
    let mut arguments: Vec<&'static str> = Vec::new();
    // Allows "Untranslated" filenames
    arguments.push("-U");
    arguments.push("-no-emul-boot");
    arguments.push("-b");
    arguments.push("nocciolo.img");
    arguments.push("-hide");
    arguments.push("nocciolo.img");
    arguments.push("-V");
    arguments.push("Nocciolo");
    arguments.push("-iso-level");
    arguments.push("3");
    arguments.push("-o");
    arguments.push("target/iso/nocciolo.iso");
    arguments.push("target/iso");
    assert(arguments@ =~= iso_arguments());
    arguments
}

/// The arguments of the Bochs emulator.
pub fn create_bochs_cmd() -> (arguments: Vec<&'static str>)
    ensures
        arguments@ == seq!["-q"],
{
    let mut arguments: Vec<&'static str> = Vec::new();
    arguments.push("-q");
    arguments
}

/// The arguments of the QEMU emulator before the disk image. The emulator
/// does not reboot on a fault and logs interrupts. The second argument of
/// the tool may be `debug`, which makes the emulator wait for a debugger,
/// or `monitor`, which puts the monitor on the terminal in place of the
/// serial port.
pub open spec fn qemu_arguments(mode: Option<Seq<char>>) -> Seq<&'static str> {
    seq!["-no-reboot", "-d", "int"] + (if mode == Some("debug"@) {
        seq!["-s", "-S"]
    } else {
        Seq::<&'static str>::empty()
    }) + (if mode == Some("monitor"@) {
        seq!["-monitor", "stdio"]
    } else {
        seq!["-serial", "stdio"]
    })
}

/// The arguments of the QEMU emulator before the disk image.
pub fn create_qemu_cmd(mode: Option<&str>) -> (arguments: Vec<&'static str>)
    ensures
        arguments@ == qemu_arguments(
            match mode {
                Some(mode) => Some(mode@),
                None => None,
            },
        ),
{
    let mut arguments: Vec<&'static str> = Vec::new();
    // Prevent rebooting because of faults
    arguments.push("-no-reboot");
    // Get CPU reset info
    arguments.push("-d");
    arguments.push("int");

    let (debug, monitor) = match mode {
        Some(mode) => {
            let mode = mode.to_owned();
            (mode == "debug".to_owned(), mode == "monitor".to_owned())
        },
        None => (false, false),
    };
    if debug {
        arguments.push("-s");
        arguments.push("-S");
    }
    if monitor {
        arguments.push("-monitor");
        arguments.push("stdio");
    } else {
        // Attach serial output to stdio
        arguments.push("-serial");
        arguments.push("stdio");
    }
    assert(arguments@ =~= qemu_arguments(
        match mode {
            Some(mode) => Some(mode@),
            None => None,
        },
    ));
    arguments
}

/// The argument that hands a raw disk image to QEMU.
pub fn drive_argument(image: &str) -> (argument: String)
    ensures
        argument@ == "format=raw,file="@ + image@,
{
    let mut argument = "format=raw,file=".to_owned();
    push_str(&mut argument, image);
    argument
}

/// The functions that the LLDB script sets a breakpoint on.
pub open spec fn lldb_breakpoints() -> Seq<&'static str> {
    seq![
        "alloc_error_handler",
        "page_fault_handler",
        "double_fault_handler",
        "breakpoint_handler",
        "hlt_loop",
        "fallback_allocator_oom",
        "timer_interrupt_handler",
        "spurious_io_apic_interrupt_handler",
        "spurious_local_apic_interrupt_handler",
        "breakpoint",
    ]
}

/// The lines that set the breakpoints on the first `n` functions.
pub open spec fn breakpoint_lines(n: int) -> Seq<char>
    decreases n,
{
    if n <= 0 {
        Seq::empty()
    } else {
        breakpoint_lines(n - 1) + "breakpoint set --name "@ + lldb_breakpoints()[n - 1]@ + "\n"@
    }
}

/// The script that LLDB is started with: it loads the kernel at the address
/// where the bootloader puts it, attaches to the emulator, and sets the
/// breakpoints.
pub open spec fn lldb_script(kernel: Seq<char>) -> Seq<char> {
    "target create "@ + kernel + "\n"@ + "target modules load --file "@ + kernel
        + " --slide 0x8000000000\n"@ + "gdb-remote localhost:1234\n"@ + breakpoint_lines(
        lldb_breakpoints().len() as int,
    )
}

/// The script for LLDB and the arguments that make LLDB read it from
/// `target/lldb-input`.
pub fn create_lldb_command(kernel: &str) -> (command: (String, Vec<&'static str>))
    ensures
        command.0@ == lldb_script(kernel@),
        command.1@ == seq!["-s", "target/lldb-input"],
{
    let path = "target/lldb-input";

    let mut file = "target create ".to_owned();
    push_str(&mut file, kernel);
    push_str(&mut file, "\n");
    push_str(&mut file, "target modules load --file ");
    push_str(&mut file, kernel);
    push_str(&mut file, " --slide 0x8000000000\n");
    push_str(&mut file, "gdb-remote localhost:1234\n");
    let names: [&'static str; 10] = [
        "alloc_error_handler",
        "page_fault_handler",
        "double_fault_handler",
        "breakpoint_handler",
        "hlt_loop",
        "fallback_allocator_oom",
        "timer_interrupt_handler",
        "spurious_io_apic_interrupt_handler",
        "spurious_local_apic_interrupt_handler",
        "breakpoint",
    ];
    assert(names@ =~= lldb_breakpoints());
    let ghost head = file@;
    let mut i: usize = 0;
    while i < 10
        invariant
            i <= 10,
            names@ == lldb_breakpoints(),
            file@ == head + breakpoint_lines(i as int),
        decreases 10 - i,
    {
        push_str(&mut file, "breakpoint set --name ");
        push_str(&mut file, names[i]);
        push_str(&mut file, "\n");
        assert(file@ =~= head + breakpoint_lines(i + 1));
        i += 1;
    }
    assert(file@ =~= lldb_script(kernel@));

    let mut arguments: Vec<&'static str> = Vec::new();
    arguments.push("-s");
    arguments.push(path);
    (file, arguments)
}

/// The script that GDB is started with in `target/.gdbinit`: it loads the
/// kernel, attaches to the emulator, and runs to the entry of the kernel.
pub open spec fn gdb_script(kernel: Seq<char>) -> Seq<char> {
    "file "@ + kernel + "\n"@ + "target remote localhost:1234\n"@ + "b kernel_main\n"@
        + "continue\n"@
}

/// The name of the debugger and the script for it. Where the host has
/// `ggdb`, that is the debugger.
pub fn create_gdb_command(kernel: &str, has_ggdb: bool) -> (command: (&'static str, String))
    ensures
        command.0 == (if has_ggdb {
            "ggdb"
        } else {
            "gdb"
        }),
        command.1@ == gdb_script(kernel@),
{
    let name = if has_ggdb {
        "ggdb"
    } else {
        "gdb"
    };

    let mut file = "file ".to_owned();
    push_str(&mut file, kernel);
    push_str(&mut file, "\n");
    push_str(&mut file, "target remote localhost:1234\n");
    push_str(&mut file, "b kernel_main\n");
    push_str(&mut file, "continue\n");
    assert(file@ =~= gdb_script(kernel@));

    (name, file)
}

} // verus!
