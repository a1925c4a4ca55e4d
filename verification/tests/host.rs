use nocciolo::boot::{init, init_after_apic, BootStep, COUNTDOWN_SECONDS};
use nocciolo::host::{
    create_bochs_cmd, create_gdb_command, create_iso_command, create_lldb_command,
    create_qemu_cmd, drive_argument, parse_command, HostCommand,
};
use nocciolo::KERNEL_STACK_SIZE;

#[test]
fn commands_are_told_apart() {
    assert_eq!(parse_command(Some("lldb")), HostCommand::Lldb);
    assert_eq!(parse_command(Some("gdb")), HostCommand::Gdb);
    assert_eq!(parse_command(Some("bios")), HostCommand::Bios);
    assert_eq!(parse_command(Some("uefi")), HostCommand::Uefi);
    assert_eq!(parse_command(Some("info")), HostCommand::Info);
    assert_eq!(parse_command(Some("iso")), HostCommand::Iso);
    assert_eq!(parse_command(Some("bochs")), HostCommand::Bochs);
    assert_eq!(parse_command(Some("qemu")), HostCommand::Unknown("qemu".to_string()));
    assert_eq!(parse_command(Some("")), HostCommand::Unknown(String::new()));
    assert_eq!(parse_command(None), HostCommand::Missing);
}

#[test]
fn iso_image_is_made_with_the_documented_flags() {
    assert_eq!(
        create_iso_command(),
        vec![
            "-U",
            "-no-emul-boot",
            "-b",
            "nocciolo.img",
            "-hide",
            "nocciolo.img",
            "-V",
            "Nocciolo",
            "-iso-level",
            "3",
            "-o",
            "target/iso/nocciolo.iso",
            "target/iso",
        ]
    );
    assert_eq!(create_bochs_cmd(), vec!["-q"]);
}

#[test]
fn emulator_arguments_depend_on_the_mode() {
    assert_eq!(create_qemu_cmd(None), vec!["-no-reboot", "-d", "int", "-serial", "stdio"]);
    assert_eq!(
        create_qemu_cmd(Some("debug")),
        vec!["-no-reboot", "-d", "int", "-s", "-S", "-serial", "stdio"]
    );
    assert_eq!(
        create_qemu_cmd(Some("monitor")),
        vec!["-no-reboot", "-d", "int", "-monitor", "stdio"]
    );
    assert_eq!(create_qemu_cmd(Some("fast")), vec!["-no-reboot", "-d", "int", "-serial", "stdio"]);
    assert_eq!(drive_argument("target/bios.img"), "format=raw,file=target/bios.img");
}

#[test]
fn debugger_scripts_name_the_kernel() {
    let (script, arguments) = create_lldb_command("target/kernel");
    assert_eq!(arguments, vec!["-s", "target/lldb-input"]);
    assert_eq!(
        script,
        "target create target/kernel\n\
         target modules load --file target/kernel --slide 0x8000000000\n\
         gdb-remote localhost:1234\n\
         breakpoint set --name alloc_error_handler\n\
         breakpoint set --name page_fault_handler\n\
         breakpoint set --name double_fault_handler\n\
         breakpoint set --name breakpoint_handler\n\
         breakpoint set --name hlt_loop\n\
         breakpoint set --name fallback_allocator_oom\n\
         breakpoint set --name timer_interrupt_handler\n\
         breakpoint set --name spurious_io_apic_interrupt_handler\n\
         breakpoint set --name spurious_local_apic_interrupt_handler\n\
         breakpoint set --name breakpoint\n"
    );
    let (name, script) = create_gdb_command("target/kernel", false);
    assert_eq!(name, "gdb");
    assert_eq!(
        script,
        "file target/kernel\ntarget remote localhost:1234\nb kernel_main\ncontinue\n"
    );
    assert_eq!(create_gdb_command("k", true).0, "ggdb");
}

#[test]
fn kernel_is_brought_up_in_order() {
    assert_eq!(
        init(true),
        vec![
            BootStep::Logging,
            BootStep::Framebuffer,
            BootStep::Gdt,
            BootStep::Idt,
            BootStep::LegacyPic,
            BootStep::Pit,
            BootStep::Heap,
            BootStep::Acpi,
            BootStep::Apic,
        ]
    );
    assert_eq!(init(false).len(), 8);
    assert_eq!(init(false)[1], BootStep::Gdt);
    assert_eq!(
        init_after_apic(true),
        vec![
            BootStep::DisableLegacyPic,
            BootStep::EnableInterrupts,
            BootStep::Runtime,
            BootStep::Devices,
        ]
    );
    assert_eq!(
        init_after_apic(false),
        vec![BootStep::EnableInterrupts, BootStep::Runtime, BootStep::Devices]
    );
    assert_eq!(COUNTDOWN_SECONDS, 10);
    assert_eq!(KERNEL_STACK_SIZE, 0x10_0000);
}
