[package]
name = "nocciolo"
version = "0.1.0"
edition = "2021"
publish = false

[dependencies]
x86_64 = { version = "=0.15.5", default-features = false, features = ["instructions"] }
crossbeam-queue = "=0.3.14"
raw-cpuid = "=11.6.0"
noto-sans-mono-bitmap = { version = "=0.2.0", features = ["unicode-specials"] }
elf = "=0.7.4"
bootloader_api = "=0.11.17"
acpi = { version = "=5.2.0", default-features = false }
aml = "=0.16.4"
spin = "=0.9.9"
log = "=0.4.34"
pic8259 = { version = "=0.11.0", default-features = false, features = ["stable"] }
uart_16550 = "=0.3.2"
pc-keyboard = "=0.7.0"
futures-util = { version = "=0.3.34", default-features = false, features = ["alloc"] }
conquer-once = { version = "=0.4.0", default-features = false }
lazy_static = "=1.5.1"
which = "=8.0.6"
uefi = "*"
