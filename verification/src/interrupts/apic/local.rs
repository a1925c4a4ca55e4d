//! The Local APIC: its registers, their permissions, and how it is set up.

use crate::device::acpi::handler::{
    mappable, page_count, NoccioloAcpiHandler, PhysicalMapping, DEVICE_FLAGS,
};
use crate::device::acpi::{find_local_apic_base, first_override, MadtEntry};
use crate::interrupts::{vector_of, InterruptIndex};
use crate::memory::MemoryRegion;
use crate::platform::RegisterWrite;
use vstd::prelude::*;

verus! {

/// Model-specific register that holds the physical base of the Local APIC.
pub const IA32_APIC_BASE_MSR: u32 = 0x1B;

/// Number of bytes of the register block that are mapped.
pub const BLOCK_LENGTH: u64 = 0x800;

/// Number of registers of the block: one every sixteen bytes up to `0x400`.
pub const REGISTER_COUNT: usize = 64;

/// The registers of the Local APIC that the kernel knows.
#[derive(Debug, Clone, Copy, PartialEq, Eq, Structural)]
pub enum LocalApicRegister {
    Id,
    Version,
    TaskPriority,
    ArbitrationPriority,
    ProcessorPriority,
    EndOfInterrupt,
    RemoteRead,
    LogicalDestination,
    DestinationFormat,
    SpuriousInterruptVector,
    ErrorStatus,
    LvtCorrectedMachineCheckInterrupt,
    InterruptCommand1,
    InterruptCommand2,
    LvtTimer,
    LvtLint0,
    LvtLint1,
    LvtError,
    InitialCount,
    CurrentCount,
    DivideConfiguration,
}

/// What may be done with a register.
#[derive(Debug, Clone, Copy, PartialEq, Eq, Structural)]
pub enum ApicRegisterPermissions {
    /// Neither read nor written.
    NoAccess,
    ReadWrite,
    ReadOnly,
    WriteOnly,
}

/// Byte offset of a register in the block.
pub open spec fn register_offset(register: LocalApicRegister) -> u64 {
    match register {
        LocalApicRegister::Id => 0x020,
        LocalApicRegister::Version => 0x030,
        LocalApicRegister::TaskPriority => 0x080,
        LocalApicRegister::ArbitrationPriority => 0x090,
        LocalApicRegister::ProcessorPriority => 0x0A0,
        LocalApicRegister::EndOfInterrupt => 0x0B0,
        LocalApicRegister::RemoteRead => 0x0C0,
        LocalApicRegister::LogicalDestination => 0x0D0,
        LocalApicRegister::DestinationFormat => 0x0E0,
        LocalApicRegister::SpuriousInterruptVector => 0x0F0,
        LocalApicRegister::ErrorStatus => 0x280,
        LocalApicRegister::LvtCorrectedMachineCheckInterrupt => 0x2F0,
        LocalApicRegister::InterruptCommand1 => 0x300,
        LocalApicRegister::InterruptCommand2 => 0x310,
        LocalApicRegister::LvtTimer => 0x320,
        LocalApicRegister::LvtLint0 => 0x350,
        LocalApicRegister::LvtLint1 => 0x360,
        LocalApicRegister::LvtError => 0x370,
        LocalApicRegister::InitialCount => 0x380,
        LocalApicRegister::CurrentCount => 0x390,
        LocalApicRegister::DivideConfiguration => 0x3E0,
    }
}

/// The permissions of each register. The identification register could be
/// written, but writing it is discouraged, so it counts as read-only.
pub open spec fn register_permissions(register: LocalApicRegister) -> ApicRegisterPermissions {
    match register {
        LocalApicRegister::Id => ApicRegisterPermissions::ReadOnly,
        LocalApicRegister::Version => ApicRegisterPermissions::ReadOnly,
        LocalApicRegister::TaskPriority => ApicRegisterPermissions::ReadWrite,
        LocalApicRegister::ArbitrationPriority => ApicRegisterPermissions::ReadOnly,
        LocalApicRegister::ProcessorPriority => ApicRegisterPermissions::ReadOnly,
        LocalApicRegister::EndOfInterrupt => ApicRegisterPermissions::WriteOnly,
        LocalApicRegister::RemoteRead => ApicRegisterPermissions::ReadOnly,
        LocalApicRegister::LogicalDestination => ApicRegisterPermissions::ReadWrite,
        LocalApicRegister::DestinationFormat => ApicRegisterPermissions::ReadWrite,
        LocalApicRegister::SpuriousInterruptVector => ApicRegisterPermissions::ReadWrite,
        LocalApicRegister::ErrorStatus => ApicRegisterPermissions::ReadOnly,
        LocalApicRegister::LvtCorrectedMachineCheckInterrupt => ApicRegisterPermissions::ReadWrite,
        LocalApicRegister::InterruptCommand1 => ApicRegisterPermissions::ReadWrite,
        LocalApicRegister::InterruptCommand2 => ApicRegisterPermissions::ReadWrite,
        LocalApicRegister::LvtTimer => ApicRegisterPermissions::ReadWrite,
        LocalApicRegister::LvtLint0 => ApicRegisterPermissions::ReadWrite,
        LocalApicRegister::LvtLint1 => ApicRegisterPermissions::ReadWrite,
        LocalApicRegister::LvtError => ApicRegisterPermissions::ReadWrite,
        LocalApicRegister::InitialCount => ApicRegisterPermissions::ReadWrite,
        LocalApicRegister::CurrentCount => ApicRegisterPermissions::ReadOnly,
        LocalApicRegister::DivideConfiguration => ApicRegisterPermissions::ReadWrite,
    }
}

/// Whether a register may be read.
pub open spec fn readable(register: LocalApicRegister) -> bool {
    register_permissions(register) is ReadOnly || register_permissions(register) is ReadWrite
}

/// Whether a register may be written.
pub open spec fn writable(register: LocalApicRegister) -> bool {
    register_permissions(register) is WriteOnly || register_permissions(register) is ReadWrite
}

impl LocalApicRegister {
    /// Byte offset of the register in the block.
    pub fn offset(&self) -> (offset: u64)
        ensures
            offset == register_offset(*self),
            offset % 16 == 0,
            offset < 0x400,
    {
        match self {
            Self::Id => 0x020,
            Self::Version => 0x030,
            Self::TaskPriority => 0x080,
            Self::ArbitrationPriority => 0x090,
            Self::ProcessorPriority => 0x0A0,
            Self::EndOfInterrupt => 0x0B0,
            Self::RemoteRead => 0x0C0,
            Self::LogicalDestination => 0x0D0,
            Self::DestinationFormat => 0x0E0,
            Self::SpuriousInterruptVector => 0x0F0,
            Self::ErrorStatus => 0x280,
            Self::LvtCorrectedMachineCheckInterrupt => 0x2F0,
            Self::InterruptCommand1 => 0x300,
            Self::InterruptCommand2 => 0x310,
            Self::LvtTimer => 0x320,
            Self::LvtLint0 => 0x350,
            Self::LvtLint1 => 0x360,
            Self::LvtError => 0x370,
            Self::InitialCount => 0x380,
            Self::CurrentCount => 0x390,
            Self::DivideConfiguration => 0x3E0,
        }
    }

    pub fn permissions(&self) -> (permissions: ApicRegisterPermissions)
        ensures
            permissions == register_permissions(*self),
    {
        match self {
            // Could be written, but writing it is discouraged.
            Self::Id => ApicRegisterPermissions::ReadOnly,
            Self::Version => ApicRegisterPermissions::ReadOnly,
            Self::TaskPriority => ApicRegisterPermissions::ReadWrite,
            Self::ArbitrationPriority => ApicRegisterPermissions::ReadOnly,
            Self::ProcessorPriority => ApicRegisterPermissions::ReadOnly,
            Self::EndOfInterrupt => ApicRegisterPermissions::WriteOnly,
            Self::RemoteRead => ApicRegisterPermissions::ReadOnly,
            Self::LogicalDestination => ApicRegisterPermissions::ReadWrite,
            Self::DestinationFormat => ApicRegisterPermissions::ReadWrite,
            Self::SpuriousInterruptVector => ApicRegisterPermissions::ReadWrite,
            Self::ErrorStatus => ApicRegisterPermissions::ReadOnly,
            Self::LvtCorrectedMachineCheckInterrupt => ApicRegisterPermissions::ReadWrite,
            Self::InterruptCommand1 => ApicRegisterPermissions::ReadWrite,
            Self::InterruptCommand2 => ApicRegisterPermissions::ReadWrite,
            Self::LvtTimer => ApicRegisterPermissions::ReadWrite,
            Self::LvtLint0 => ApicRegisterPermissions::ReadWrite,
            Self::LvtLint1 => ApicRegisterPermissions::ReadWrite,
            Self::LvtError => ApicRegisterPermissions::ReadWrite,
            Self::InitialCount => ApicRegisterPermissions::ReadWrite,
            Self::CurrentCount => ApicRegisterPermissions::ReadOnly,
            Self::DivideConfiguration => ApicRegisterPermissions::ReadWrite,
        }
    }

    pub fn is_readable(&self) -> (allowed: bool)
        ensures
            allowed == readable(*self),
    {
        match self.permissions() {
            ApicRegisterPermissions::ReadOnly => true,
            ApicRegisterPermissions::ReadWrite => true,
            ApicRegisterPermissions::NoAccess => false,
            ApicRegisterPermissions::WriteOnly => false,
        }
    }

    pub fn is_writable(&self) -> (allowed: bool)
        ensures
            allowed == writable(*self),
    {
        match self.permissions() {
            ApicRegisterPermissions::WriteOnly => true,
            ApicRegisterPermissions::ReadWrite => true,
            ApicRegisterPermissions::NoAccess => false,
            ApicRegisterPermissions::ReadOnly => false,
        }
    }
}

/// How an interrupt of the local vector table is delivered.
#[derive(Debug, Clone, Copy, PartialEq, Eq, Structural)]
pub enum VectorDeliveryMode {
    Fixed,
    SMI,
    NMI,
    ExtInt,
    /// A code that none of the modes above is stored as.
    Reserved(u8),
}

#[derive(Debug, Clone, Copy, PartialEq, Eq, Structural)]
pub enum VectorDeliverStatus {
    Idle,
    SendPending,
}

#[derive(Debug, Clone, Copy, PartialEq, Eq, Structural)]
pub enum VectorTriggerMode {
    Edge,
    Level,
}

#[derive(Debug, Clone, Copy, PartialEq, Eq, Structural)]
pub enum VectorTimerMode {
    OneShot,
    Periodic,
    TscDeadline,
}

/// The three-bit code that a delivery mode is stored as.
pub open spec fn delivery_mode_code(mode: VectorDeliveryMode) -> u32 {
    match mode {
        VectorDeliveryMode::Fixed => 0b000,
        VectorDeliveryMode::SMI => 0b010,
        VectorDeliveryMode::NMI => 0b100,
        VectorDeliveryMode::ExtInt => 0b11,
        VectorDeliveryMode::Reserved(code) => code as u32,
    }
}

/// The delivery mode that a three-bit code stands for.
pub open spec fn delivery_mode_of(code: u8) -> VectorDeliveryMode {
    if code == 0b000 {
        VectorDeliveryMode::Fixed
    } else if code == 0b010 {
        VectorDeliveryMode::SMI
    } else if code == 0b100 {
        VectorDeliveryMode::NMI
    } else if code == 0b11 {
        VectorDeliveryMode::ExtInt
    } else {
        VectorDeliveryMode::Reserved(code)
    }
}

/// The two-bit code that a timer mode is stored as.
pub open spec fn timer_mode_code(mode: VectorTimerMode) -> u32 {
    match mode {
        VectorTimerMode::OneShot => 0b00,
        VectorTimerMode::Periodic => 0b01,
        VectorTimerMode::TscDeadline => 0b10,
    }
}

/// A flag as a number.
pub open spec fn flag(set: bool) -> u32 {
    if set {
        1
    } else {
        0
    }
}

/// One entry of the local vector table.
#[derive(Debug, Clone, Copy, PartialEq, Eq, Structural)]
pub struct LocalVectorTableRegister {
    pub vector: u8,
    pub delivery_mode: VectorDeliveryMode,
    pub delivery_status: VectorDeliverStatus,
    pub is_low_triggered: bool,
    pub is_remote_irr: bool,
    pub trigger_mode: VectorTriggerMode,
    pub is_masked: bool,
    pub timer_mode: VectorTimerMode,
}

/// The register value of an entry: the vector in bits 0..8, the delivery
/// mode in bits 8..11, then one bit each for delivery status (12), polarity
/// (13), remote IRR (14), trigger mode (15) and mask (16), and the timer mode
/// in bits 17..19. Bit 11 is reserved and clear.
pub open spec fn lvt_bits(register: LocalVectorTableRegister) -> u32 {
    (register.vector as u32 & 0b1111_1111) | ((delivery_mode_code(register.delivery_mode) & 0b111)
        << 8) | ((0u32 & 0b1) << 11) | ((flag(register.delivery_status is SendPending) & 0b1)
        << 12) | ((flag(register.is_low_triggered) & 0b1) << 13) | ((flag(register.is_remote_irr)
        & 0b1) << 14) | ((flag(register.trigger_mode is Level) & 0b1) << 15) | ((flag(
        register.is_masked,
    ) & 0b1) << 16) | ((timer_mode_code(register.timer_mode) & 0b11) << 17)
}

/// The entry that a register value stands for. Of the timer mode only the
/// lower bit is looked at.
pub open spec fn lvt_of(value: u32) -> LocalVectorTableRegister {
    LocalVectorTableRegister {
        vector: (value & 0xFF) as u8,
        delivery_mode: delivery_mode_of(((value >> 8) & 0b111) as u8),
        delivery_status: if (value >> 12) & 0b1 == 1 {
            VectorDeliverStatus::SendPending
        } else {
            VectorDeliverStatus::Idle
        },
        is_low_triggered: (value >> 13) & 0b1 == 1,
        is_remote_irr: (value >> 14) & 0b1 == 1,
        trigger_mode: if (value >> 15) & 0b1 == 1 {
            VectorTriggerMode::Level
        } else {
            VectorTriggerMode::Edge
        },
        is_masked: (value >> 16) & 0b1 == 1,
        timer_mode: if (value >> 17) & 0b1 == 1 {
            VectorTimerMode::Periodic
        } else {
            VectorTimerMode::OneShot
        },
    }
}

/// An entry with fixed delivery, idle, edge-triggered, and no reserved bit
/// set.
pub open spec fn plain_entry(vector: u8, is_masked: bool, mode: VectorTimerMode)
    -> LocalVectorTableRegister {
    LocalVectorTableRegister {
        vector,
        delivery_mode: VectorDeliveryMode::Fixed,
        delivery_status: VectorDeliverStatus::Idle,
        is_masked,
        timer_mode: mode,
        is_low_triggered: false,
        is_remote_irr: false,
        trigger_mode: VectorTriggerMode::Edge,
    }
}

impl VectorDeliveryMode {
    fn code(&self) -> (code: u32)
        ensures
            code == delivery_mode_code(*self),
    {
        match self {
            VectorDeliveryMode::Fixed => 0b000,
            VectorDeliveryMode::SMI => 0b010,
            VectorDeliveryMode::NMI => 0b100,
            VectorDeliveryMode::ExtInt => 0b11,
            VectorDeliveryMode::Reserved(code) => *code as u32,
        }
    }

    fn from_code(code: u8) -> (mode: Self)
        ensures
            mode == delivery_mode_of(code),
    {
        match code {
            0b000 => VectorDeliveryMode::Fixed,
            0b010 => VectorDeliveryMode::SMI,
            0b100 => VectorDeliveryMode::NMI,
            0b11 => VectorDeliveryMode::ExtInt,
            _ => VectorDeliveryMode::Reserved(code),
        }
    }
}

impl VectorTimerMode {
    fn code(&self) -> (code: u32)
        ensures
            code == timer_mode_code(*self),
    {
        match self {
            VectorTimerMode::OneShot => 0b00,
            VectorTimerMode::Periodic => 0b01,
            VectorTimerMode::TscDeadline => 0b10,
        }
    }
}

fn flag_bit(set: bool) -> (bit: u32)
    ensures
        bit == flag(set),
{
    if set {
        1
    } else {
        0
    }
}

impl LocalVectorTableRegister {
    pub fn new(vector: u8, is_masked: bool) -> (register: Self)
        ensures
            register == plain_entry(vector, is_masked, VectorTimerMode::OneShot),
    {
        Self {
            vector,
            delivery_mode: VectorDeliveryMode::Fixed,
            delivery_status: VectorDeliverStatus::Idle,
            is_masked,
            timer_mode: VectorTimerMode::OneShot,
            // Reserved:
            is_low_triggered: false,
            is_remote_irr: false,
            trigger_mode: VectorTriggerMode::Edge,
        }
    }

    pub fn new_timer(vector: u8, is_masked: bool, mode: VectorTimerMode) -> (register: Self)
        ensures
            register == plain_entry(vector, is_masked, mode),
    {
        Self {
            vector,
            delivery_mode: VectorDeliveryMode::Fixed,
            delivery_status: VectorDeliverStatus::Idle,
            is_masked,
            timer_mode: mode,
            // Reserved:
            is_low_triggered: false,
            is_remote_irr: false,
            trigger_mode: VectorTriggerMode::Edge,
        }
    }

    pub fn new_masked_timer() -> (register: Self)
        ensures
            register == plain_entry(0, true, VectorTimerMode::Periodic),
    {
        Self::new_timer(0, true, VectorTimerMode::Periodic)
    }

    pub fn as_u32(&self) -> (value: u32)
        ensures
            value == lvt_bits(*self),
    {
        let reserved: u32 = 0;
        (self.vector as u32 & 0b1111_1111) | ((self.delivery_mode.code() & 0b111) << 8) | ((
        reserved & 0b1) << 11) | ((flag_bit(
            matches!(self.delivery_status, VectorDeliverStatus::SendPending),
        ) & 0b1) << 12) | ((flag_bit(self.is_low_triggered) & 0b1) << 13) | ((flag_bit(
            self.is_remote_irr,
        ) & 0b1) << 14) | ((flag_bit(matches!(self.trigger_mode, VectorTriggerMode::Level)) & 0b1)
            << 15) | ((flag_bit(self.is_masked) & 0b1) << 16) | ((self.timer_mode.code() & 0b11)
            << 17)
    }

    pub fn from_u32(value: u32) -> (register: Self)
        ensures
            register == lvt_of(value),
    {
        Self {
            vector: (value & 0xFF) as u8,
            delivery_mode: VectorDeliveryMode::from_code(((value >> 8) & 0b111) as u8),
            delivery_status: if (value >> 12) & 0b1 == 1 {
                VectorDeliverStatus::SendPending
            } else {
                VectorDeliverStatus::Idle
            },
            is_low_triggered: (value >> 13) & 0b1 == 1,
            is_remote_irr: (value >> 14) & 0b1 == 1,
            trigger_mode: if (value >> 15) & 0b1 == 1 {
                VectorTriggerMode::Level
            } else {
                VectorTriggerMode::Edge
            },
            is_masked: (value >> 16) & 0b1 == 1,
            timer_mode: if (value >> 17) & 0b1 == 1 {
                VectorTimerMode::Periodic
            } else {
                VectorTimerMode::OneShot
            },
        }
    }
}

/// An entry without reserved codes: its delivery mode is one of the named
/// ones or a code that none of them is stored as, and its timer mode is not
/// the deadline mode, whose upper bit `lvt_of` does not look at.
pub open spec fn lvt_round_trips(register: LocalVectorTableRegister) -> bool {
    &&& register.delivery_mode matches VectorDeliveryMode::Reserved(code) ==> code == 1 || 5
        <= code <= 7
    &&& register.timer_mode != VectorTimerMode::TscDeadline
}

/// An entry of the local vector table that is stored and read again is the
/// same entry, provided that it is one that `lvt_round_trips` admits.
pub proof fn lvt_round_trip(register: LocalVectorTableRegister)
    requires
        lvt_round_trips(register),
    ensures
        lvt_of(lvt_bits(register)) == register,
{
    let vector = register.vector;
    let mode = delivery_mode_code(register.delivery_mode);
    let pending = flag(register.delivery_status is SendPending);
    let low = flag(register.is_low_triggered);
    let irr = flag(register.is_remote_irr);
    let level = flag(register.trigger_mode is Level);
    let masked = flag(register.is_masked);
    let timer = timer_mode_code(register.timer_mode);
    let value = lvt_bits(register);
    assert({
        &&& (value & 0xFF) as u8 == vector
        &&& ((value >> 8) & 0b111) as u8 == mode
        &&& (value >> 12) & 0b1 == pending
        &&& (value >> 13) & 0b1 == low
        &&& (value >> 14) & 0b1 == irr
        &&& (value >> 15) & 0b1 == level
        &&& (value >> 16) & 0b1 == masked
        &&& (value >> 17) & 0b1 == timer
    }) by (bit_vector)
        requires
            mode < 8,
            pending < 2,
            low < 2,
            irr < 2,
            level < 2,
            masked < 2,
            timer < 2,
            value == (vector as u32 & 0b1111_1111) | ((mode & 0b111) << 8) | ((0u32 & 0b1) << 11)
                | ((pending & 0b1) << 12) | ((low & 0b1) << 13) | ((irr & 0b1) << 14) | ((level
                & 0b1) << 15) | ((masked & 0b1) << 16) | ((timer & 0b11) << 17),
    ;
}

/// Whether one of the regions of the memory map holds `addr`, the end of a
/// region counted in.
pub fn verify_in_correct_region(addr: u64, memory_regions: &Vec<MemoryRegion>) -> (found: bool)
    ensures
        found == exists|i: int|
            0 <= i < memory_regions@.len() && (#[trigger] memory_regions@[i]).start <= addr
                <= memory_regions@[i].end,
{
    let mut i: usize = 0;
    while i < memory_regions.len()
        invariant
            i <= memory_regions.len(),
            forall|j: int|
                0 <= j < i ==> !((#[trigger] memory_regions@[j]).start <= addr
                    <= memory_regions@[j].end),
        decreases memory_regions.len() - i,
    {
        let region = &memory_regions[i];
        if addr >= region.start && addr <= region.end {
            return true;
        }
        i += 1;
    }
    false
}

/// The register values that `initialize` writes, in order: the spurious
/// interrupt vector register gets `0xFF`; the timer delivers the timer vector
/// periodically; the two local interrupt pins are masked onto the spurious
/// vector; errors have a vector of their own; the timer starts from an
/// initial count of zero with the divide configuration 3.
pub open spec fn initialization_sequence() -> Seq<(LocalApicRegister, u32)> {
    seq![
        (LocalApicRegister::SpuriousInterruptVector, 0xFFu32),
        (
            LocalApicRegister::LvtTimer,
            lvt_bits(
                plain_entry(vector_of(InterruptIndex::Timer), false, VectorTimerMode::Periodic),
            ),
        ),
        (
            LocalApicRegister::LvtLint0,
            lvt_bits(
                plain_entry(
                    vector_of(InterruptIndex::SpuriousLocalApic),
                    true,
                    VectorTimerMode::OneShot,
                ),
            ),
        ),
        (
            LocalApicRegister::LvtLint1,
            lvt_bits(
                plain_entry(
                    vector_of(InterruptIndex::SpuriousLocalApic),
                    true,
                    VectorTimerMode::OneShot,
                ),
            ),
        ),
        (
            LocalApicRegister::LvtError,
            lvt_bits(
                plain_entry(vector_of(InterruptIndex::LvtError), false, VectorTimerMode::OneShot),
            ),
        ),
        (LocalApicRegister::InitialCount, 0u32),
        (LocalApicRegister::DivideConfiguration, 3u32),
    ]
}

/// The bus write that stores `value` in `register` of the block at `base`.
pub open spec fn register_write(base: u64, register: LocalApicRegister, value: u32)
    -> RegisterWrite {
    RegisterWrite { address: (base + register_offset(register)) as u64, value }
}

/// The Local APIC of the boot processor: where its register block is mapped,
/// what its registers hold, and every write made to it so far.
pub struct LocalApic {
    mapping: PhysicalMapping,
    registers: Vec<u32>,
    writes: Vec<RegisterWrite>,
}

impl LocalApic {
    /// What every Local APIC made by `from_addr` satisfies, and every
    /// operation keeps: the whole block is mapped, and each register of the
    /// block has a value.
    pub closed spec fn well_formed(&self) -> bool {
        &&& self.registers@.len() == REGISTER_COUNT
        &&& self.mapping.well_formed()
        &&& self.mapping.region_length() == BLOCK_LENGTH
    }

    /// Where the register block is mapped.
    pub closed spec fn mapping(&self) -> PhysicalMapping {
        self.mapping
    }

    /// What a register holds.
    pub closed spec fn register(&self, register: LocalApicRegister) -> u32 {
        self.registers@[(register_offset(register) / 16) as int]
    }

    /// The writes made to the block so far, oldest first.
    pub closed spec fn journal(&self) -> Seq<RegisterWrite> {
        self.writes@
    }

    /// The Local APIC of the boot processor, at the address that the MADT or
    /// the base register of the processor gives.
    #[must_use]
    pub fn new(
        madt: Option<&Vec<MadtEntry>>,
        base_register: u64,
        handler: &mut NoccioloAcpiHandler,
    ) -> (apic: Self)
        requires
            mappable(
                old(handler).next_page(),
                match madt {
                    Some(entries) => if first_override(entries@, 0) < entries@.len() {
                        entries@[first_override(entries@, 0)]->local_apic_address
                    } else {
                        base_register
                    },
                    None => base_register,
                },
                BLOCK_LENGTH,
            ),
        ensures
            apic.well_formed(),
            apic.mapping().physical_start() == (match madt {
                Some(entries) => if first_override(entries@, 0) < entries@.len() {
                    entries@[first_override(entries@, 0)]->local_apic_address
                } else {
                    base_register
                },
                None => base_register,
            }),
            apic.mapping().virtual_start() == old(handler).next_page()
                + apic.mapping().physical_start() % 4096,
            apic.mapping().mapped_length() == page_count(
                apic.mapping().physical_start(),
                BLOCK_LENGTH,
            ) * 4096,
            apic.journal() == Seq::<RegisterWrite>::empty(),
            forall|register: LocalApicRegister| apic.register(register) == 0,
            final(handler).requests() == old(handler).requests()
                + apic.mapping().installing_requests(DEVICE_FLAGS),
            final(handler).next_page() == old(handler).next_page()
                + apic.mapping().mapped_length(),
    {
        let addr: u64 = find_local_apic_base(madt, base_register);
        Self::from_addr(addr, handler)
    }

    /// Maps the register block at the physical address `addr`. All
    /// registers read as zero until their contents are brought in with
    /// `load`. The base register of the processor is to be programmed with
    /// `addr`.
    #[must_use]
    pub fn from_addr(addr: u64, handler: &mut NoccioloAcpiHandler) -> (apic: Self)
        requires
            mappable(old(handler).next_page(), addr, BLOCK_LENGTH),
        ensures
            apic.well_formed(),
            apic.mapping().physical_start() == addr,
            apic.mapping().virtual_start() == old(handler).next_page() + addr % 4096,
            apic.mapping().mapped_length() == page_count(addr, BLOCK_LENGTH) * 4096,
            apic.journal() == Seq::<RegisterWrite>::empty(),
            forall|register: LocalApicRegister| apic.register(register) == 0,
            final(handler).requests() == old(handler).requests()
                + apic.mapping().installing_requests(DEVICE_FLAGS),
            final(handler).next_page() == old(handler).next_page()
                + apic.mapping().mapped_length(),
    {
        let mapping = handler.map_device_region(addr, BLOCK_LENGTH);
        let mut registers: Vec<u32> = Vec::new();
        while registers.len() < REGISTER_COUNT
            invariant
                registers@.len() <= REGISTER_COUNT,
                forall|i: int| 0 <= i < registers@.len() ==> registers@[i] == 0,
            decreases REGISTER_COUNT - registers@.len(),
        {
            registers.push(0);
        }
        Self { mapping, registers, writes: Vec::new() }
    }

    /// Virtual address of the first register of the block.
    pub fn base(&self) -> (base: u64)
        requires
            self.well_formed(),
        ensures
            base == self.mapping().virtual_start(),
            base + BLOCK_LENGTH <= u64::MAX,
    {
        self.mapping.virtual_start()
    }

    /// Virtual address of the register at byte offset `offset`.
    pub fn offset_to_addr(&self, offset: u64) -> (address: u64)
        requires
            self.well_formed(),
            offset < BLOCK_LENGTH,
        ensures
            address == self.mapping().virtual_start() + offset,
    {
        self.base() + offset
    }

    /// Stores what the hardware holds in `register`, without a bus write.
    pub fn load(&mut self, register: LocalApicRegister, value: u32)
        requires
            old(self).well_formed(),
        ensures
            final(self).well_formed(),
            final(self).mapping() == old(self).mapping(),
            final(self).journal() == old(self).journal(),
            final(self).register(register) == value,
            forall|other: LocalApicRegister|
                other != register ==> final(self).register(other) == old(self).register(other),
    {
        let index: usize = (register.offset() / 16) as usize;
        self.registers.set(index, value);
    }

    /// Enables the Local APIC and programs its local vector table and its
    /// timer: see `initialization_sequence`.
    pub fn initialize(&mut self)
        requires
            old(self).well_formed(),
        ensures
            final(self).well_formed(),
            final(self).mapping() == old(self).mapping(),
            final(self).journal() == old(self).journal() + initialization_sequence().map_values(
                |write: (LocalApicRegister, u32)|
                    register_write(old(self).mapping().virtual_start(), write.0, write.1),
            ),
            forall|i: int|
                0 <= i < initialization_sequence().len() ==> final(self).register(
                    (#[trigger] initialization_sequence()[i]).0,
                ) == initialization_sequence()[i].1,
            forall|register: LocalApicRegister|
                (forall|i: int|
                    0 <= i < initialization_sequence().len() ==> (
                    #[trigger] initialization_sequence()[i]).0 != register) ==> final(self).register(register) == old(self).register(register),
    {
        self.enable();

        // Set the LVT Timer interrupt index to our expected interrupt
        self.write(
            LocalApicRegister::LvtTimer,
            LocalVectorTableRegister::new_timer(
                InterruptIndex::Timer.as_u8(),
                false,
                VectorTimerMode::Periodic,
            ).as_u32(),
        );
        self.write(
            LocalApicRegister::LvtLint0,
            LocalVectorTableRegister::new(InterruptIndex::SpuriousLocalApic.as_u8(), true).as_u32(),
        );
        self.write(
            LocalApicRegister::LvtLint1,
            LocalVectorTableRegister::new(InterruptIndex::SpuriousLocalApic.as_u8(), true).as_u32(),
        );
        self.write(
            LocalApicRegister::LvtError,
            LocalVectorTableRegister::new(InterruptIndex::LvtError.as_u8(), false).as_u32(),
        );

        self.set_timer_initial_counter(0);
        let _count: u32 = self.current_count();
        self.set_timer_divide(3);

        assert(self.journal() =~= old(self).journal() + initialization_sequence().map_values(
            |write: (LocalApicRegister, u32)|
                register_write(old(self).mapping().virtual_start(), write.0, write.1),
        ));
    }

    fn enable(&mut self)
        requires
            old(self).well_formed(),
        ensures
            final(self).well_formed(),
            final(self).mapping() == old(self).mapping(),
            final(self).register(LocalApicRegister::SpuriousInterruptVector) == 0xFF,
            forall|other: LocalApicRegister|
                other != LocalApicRegister::SpuriousInterruptVector ==> final(self).register(other)
                    == old(self).register(other),
            final(self).journal() == old(self).journal().push(
                register_write(
                    old(self).mapping().virtual_start(),
                    LocalApicRegister::SpuriousInterruptVector,
                    0xFF,
                ),
            ),
    {
        let vector: u32 = 0xFF;
        self.write(LocalApicRegister::SpuriousInterruptVector, vector);
    }

    pub fn do_test_stuff(&mut self)
        ensures
            *final(self) == *old(self),
    {
    }

    pub fn id(&self) -> (id: u32)
        requires
            self.well_formed(),
        ensures
            id == self.register(LocalApicRegister::Id),
    {
        self.read(LocalApicRegister::Id)
    }

    fn set_timer_divide(&mut self, divide: u32)
        requires
            old(self).well_formed(),
        ensures
            final(self).well_formed(),
            final(self).mapping() == old(self).mapping(),
            final(self).register(LocalApicRegister::DivideConfiguration) == divide,
            forall|other: LocalApicRegister|
                other != LocalApicRegister::DivideConfiguration ==> final(self).register(other)
                    == old(self).register(other),
            final(self).journal() == old(self).journal().push(
                register_write(
                    old(self).mapping().virtual_start(),
                    LocalApicRegister::DivideConfiguration,
                    divide,
                ),
            ),
    {
        self.write(LocalApicRegister::DivideConfiguration, divide);
    }

    pub fn set_timer_initial_counter(&mut self, counter: u32)
        requires
            old(self).well_formed(),
        ensures
            final(self).well_formed(),
            final(self).mapping() == old(self).mapping(),
            final(self).register(LocalApicRegister::InitialCount) == counter,
            forall|other: LocalApicRegister|
                other != LocalApicRegister::InitialCount ==> final(self).register(other) == old(self).register(other),
            final(self).journal() == old(self).journal().push(
                register_write(
                    old(self).mapping().virtual_start(),
                    LocalApicRegister::InitialCount,
                    counter,
                ),
            ),
    {
        self.write(LocalApicRegister::InitialCount, counter);
    }

    /// Masks the timer entry of the local vector table.
    pub fn stop_timer(&mut self)
        requires
            old(self).well_formed(),
        ensures
            final(self).well_formed(),
            final(self).mapping() == old(self).mapping(),
            final(self).register(LocalApicRegister::LvtTimer) == lvt_bits(
                plain_entry(0, true, VectorTimerMode::Periodic),
            ),
            forall|other: LocalApicRegister|
                other != LocalApicRegister::LvtTimer ==> final(self).register(other) == old(self).register(other),
            final(self).journal() == old(self).journal().push(
                register_write(
                    old(self).mapping().virtual_start(),
                    LocalApicRegister::LvtTimer,
                    lvt_bits(plain_entry(0, true, VectorTimerMode::Periodic)),
                ),
            ),
    {
        let reg = LocalVectorTableRegister::new_masked_timer();
        self.write(LocalApicRegister::LvtTimer, reg.as_u32());
    }

    pub fn current_count(&self) -> (count: u32)
        requires
            self.well_formed(),
        ensures
            count == self.register(LocalApicRegister::CurrentCount),
    {
        self.read(LocalApicRegister::CurrentCount)
    }

    pub fn version(&self) -> (version: u32)
        requires
            self.well_formed(),
        ensures
            version == self.register(LocalApicRegister::Version),
    {
        self.read(LocalApicRegister::Version)
    }

    fn read(&self, register: LocalApicRegister) -> (value: u32)
        requires
            self.well_formed(),
            readable(register),
        ensures
            value == self.register(register),
    {
        let index: usize = (register.offset() / 16) as usize;
        self.registers[index]
    }

    fn write(&mut self, register: LocalApicRegister, value: u32)
        requires
            old(self).well_formed(),
            writable(register),
        ensures
            final(self).well_formed(),
            final(self).mapping() == old(self).mapping(),
            final(self).register(register) == value,
            forall|other: LocalApicRegister|
                other != register ==> final(self).register(other) == old(self).register(other),
            final(self).journal() == old(self).journal().push(
                register_write(old(self).mapping().virtual_start(), register, value),
            ),
    {
        let address: u64 = self.register_to_addr(register);
        let index: usize = (register.offset() / 16) as usize;
        self.registers.set(index, value);
        self.writes.push(RegisterWrite { address, value });
    }

    /// Virtual address of a register.
    pub fn register_to_addr(&self, register: LocalApicRegister) -> (address: u64)
        requires
            self.well_formed(),
        ensures
            address == self.mapping().virtual_start() + register_offset(register),
    {
        self.offset_to_addr(register.offset())
    }

    /// Makes this the Local APIC that interrupt handlers signal.
    pub fn publish(self, instance: &mut Option<LocalApic>)
        ensures
            *final(instance) == Some(self),
    {
        *instance = Some(self);
    }

    /// The error status register of the published Local APIC, if there is
    /// one.
    pub fn error_status(instance: &Option<LocalApic>) -> (status: Option<u32>)
        requires
            *instance matches Some(apic) ==> apic.well_formed(),
        ensures
            status == (match *instance {
                Some(apic) => Some(apic.register(LocalApicRegister::ErrorStatus)),
                None => None,
            }),
    {
        match instance {
            Some(apic) => {
                let _timer = LocalVectorTableRegister::from_u32(
                    apic.read(LocalApicRegister::LvtTimer),
                );
                let _error = LocalVectorTableRegister::from_u32(
                    apic.read(LocalApicRegister::LvtError),
                );
                let _lint0 = LocalVectorTableRegister::from_u32(
                    apic.read(LocalApicRegister::LvtLint0),
                );
                let _lint1 = LocalVectorTableRegister::from_u32(
                    apic.read(LocalApicRegister::LvtLint1),
                );

                Some(apic.read(LocalApicRegister::ErrorStatus))
            },
            None => None,
        }
    }

    /// Whether a Local APIC has been published.
    pub fn is_published(instance: &Option<LocalApic>) -> (published: bool)
        ensures
            published == instance is Some,
    {
        instance.is_some()
    }

    /// Signals the end of an interrupt to the published Local APIC: writes 0
    /// to its end-of-interrupt register. Without a published Local APIC
    /// nothing is written, and `false` is returned.
    pub fn end_of_interrupt(instance: &mut Option<LocalApic>) -> (sent: bool)
        requires
            *old(instance) matches Some(apic) ==> apic.well_formed(),
        ensures
            *final(instance) matches Some(apic) ==> apic.well_formed(),
            sent == (*old(instance) is Some),
            (*final(instance) is Some) == (*old(instance) is Some),
            *old(instance) matches Some(before) ==> {
                &&& (*final(instance))->0.mapping() == before.mapping()
                &&& (*final(instance))->0.journal() == before.journal().push(
                    register_write(
                        before.mapping().virtual_start(),
                        LocalApicRegister::EndOfInterrupt,
                        0,
                    ),
                )
                &&& forall|other: LocalApicRegister|
                    other != LocalApicRegister::EndOfInterrupt ==> (*final(instance))->0.register(other) == before.register(other)
            },
    {
        match instance {
            Some(apic) => {
                apic.write(LocalApicRegister::EndOfInterrupt, 0);
                true
            },
            None => false,
        }
    }

    /// Hands out the writes made so far, oldest first, and forgets them.
    pub fn take_writes(&mut self) -> (writes: Vec<RegisterWrite>)
        requires
            old(self).well_formed(),
        ensures
            final(self).well_formed(),
            writes@ == old(self).journal(),
            final(self).journal() == Seq::<RegisterWrite>::empty(),
            final(self).mapping() == old(self).mapping(),
            forall|register: LocalApicRegister|
                final(self).register(register) == old(self).register(register),
    {
        let mut writes: Vec<RegisterWrite> = Vec::new();
        std::mem::swap(&mut writes, &mut self.writes);
        writes
    }
}

} // verus!
