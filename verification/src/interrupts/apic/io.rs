//! The I/O APIC: its redirection table and how interrupt lines are routed.

use super::local::{register_offset, LocalApic, LocalApicRegister};
use crate::device::acpi::handler::{
    mappable, page_count, NoccioloAcpiHandler, PhysicalMapping, DEVICE_FLAGS,
};
use crate::interrupts::{vector_of, InterruptIndex};
use crate::platform::RegisterWrite;
use vstd::prelude::*;

verus! {

/// Number of bytes of the register window that are mapped.
pub const WINDOW_LENGTH: u64 = 0x400;

/// Byte offset of the register that selects an indirect register.
pub const REGISTER_SELECT: u64 = 0x00;

/// Byte offset of the register through which the selected register is read
/// and written.
pub const REGISTER_WINDOW: u64 = 0x10;

/// Number of indirect registers that the 8-bit select can name.
pub const REGISTER_COUNT: usize = 256;

/// Most redirection entries that the indirect registers have room for: two
/// registers each, from register `0x10` on.
pub const MAX_REDIRECTION_ENTRIES: u16 = 120;

/// Interrupt line of the legacy timer.
pub const TIMER_LINE: u8 = 2;

#[derive(Debug, Clone, Copy, PartialEq, Eq, Structural)]
pub enum DeliveryMode {
    Fixed,
    LowestPriority,
    SystemManaged,
    NMI,
    INIT,
    External,
    /// A code that none of the modes above is stored as.
    Reserved(u8),
}

#[derive(Debug, Clone, Copy, PartialEq, Eq, Structural)]
pub enum DeliveryStatus {
    Idle,
    SentPending,
}

#[derive(Debug, Clone, Copy, PartialEq, Eq, Structural)]
pub enum DestinationMode {
    Physical,
    Logical,
}

#[derive(Debug, Clone, Copy, PartialEq, Eq, Structural)]
pub enum InterruptPolarity {
    HighActive,
    LowActive,
}

#[derive(Debug, Clone, Copy, PartialEq, Eq, Structural)]
pub enum TriggerMode {
    EdgeSensitive,
    LevelSensitive,
}

#[derive(Debug, Clone, Copy, PartialEq, Eq, Structural)]
pub enum InterruptMask {
    Unmasked,
    Masked,
}

/// Whom an interrupt is delivered to.
#[derive(Debug, Clone, Copy, PartialEq, Eq, Structural)]
pub enum DestinationField {
    /// One processor, by the four bits of its APIC ID.
    PhysicalApicId(u8),
    /// A set of processors, one bit each.
    LogicalSetOfProcessors(u8),
}

/// The destination that a field value stands for in a destination mode.
pub open spec fn destination_of(mode: DestinationMode, value: u8) -> DestinationField {
    match mode {
        DestinationMode::Physical => DestinationField::PhysicalApicId(value & 0b1111),
        DestinationMode::Logical => DestinationField::LogicalSetOfProcessors(value),
    }
}

/// The field value of a destination.
pub open spec fn destination_value(destination: DestinationField) -> u8 {
    match destination {
        DestinationField::PhysicalApicId(value) => value,
        DestinationField::LogicalSetOfProcessors(value) => value,
    }
}

impl DestinationField {
    #[must_use]
    pub fn new(mode: DestinationMode, value: u8) -> (destination: Self)
        ensures
            destination == destination_of(mode, value),
    {
        match mode {
            DestinationMode::Physical => Self::PhysicalApicId(value & 0b1111),
            DestinationMode::Logical => Self::LogicalSetOfProcessors(value),
        }
    }

    #[must_use]
    pub fn as_u8(&self) -> (value: u8)
        ensures
            value == destination_value(*self),
    {
        match *self {
            Self::PhysicalApicId(val) => val,
            Self::LogicalSetOfProcessors(val) => val,
        }
    }
}

/// The indirect registers of the I/O APIC.
#[derive(Debug, Clone, Copy, PartialEq, Eq, Structural)]
pub enum IOApicRegister {
    Id,
    Version,
    ArbitrationId,
    /// Lower half of a redirection entry.
    RedirectionEntry(u8),
    /// The register with this number.
    ManuallySpecified(u8),
}

/// The number that selects a register. The lower half of redirection entry
/// `n` is register `0x10 + 2n`.
pub open spec fn register_number(register: IOApicRegister) -> int {
    match register {
        IOApicRegister::Id => 0,
        IOApicRegister::Version => 1,
        IOApicRegister::ArbitrationId => 2,
        IOApicRegister::RedirectionEntry(entry) => 0x10 + entry * 2,
        IOApicRegister::ManuallySpecified(number) => number as int,
    }
}

impl IOApicRegister {
    /// The number that selects the register. A redirection entry must be one
    /// of those that the 8-bit select can reach.
    pub fn as_u8(&self) -> (number: u8)
        requires
            register_number(*self) <= u8::MAX,
        ensures
            number == register_number(*self),
    {
        match *self {
            Self::Id => 0,
            Self::Version => 1,
            Self::ArbitrationId => 2,
            Self::RedirectionEntry(ent) => 0x10 + (ent * 2),
            Self::ManuallySpecified(ent) => ent,
        }
    }

    /// The register that holds the upper half of a redirection entry: the one
    /// after this.
    pub fn second_part_redir(&self) -> (second: IOApicRegister)
        requires
            register_number(*self) < u8::MAX,
        ensures
            second == IOApicRegister::ManuallySpecified((register_number(*self) + 1) as u8),
    {
        IOApicRegister::ManuallySpecified(self.as_u8() + 1)
    }
}

/// One entry of the redirection table.
#[derive(Debug, Clone, Copy, PartialEq, Eq, Structural)]
pub struct IOApicRedirectionEntry {
    pub vector: u8,
    pub delivery_mode: DeliveryMode,
    pub destination_mode: DestinationMode,
    pub delivery_status: DeliveryStatus,
    pub polarity: InterruptPolarity,
    pub remote_irr: bool,
    pub trigger_mode: TriggerMode,
    pub mask: InterruptMask,
    pub destination: DestinationField,
}

/// The three-bit code that a delivery mode is stored as.
pub open spec fn delivery_mode_code(mode: DeliveryMode) -> u32 {
    match mode {
        DeliveryMode::Fixed => 0b000,
        DeliveryMode::LowestPriority => 0b001,
        DeliveryMode::SystemManaged => 0b010,
        DeliveryMode::NMI => 0b100,
        DeliveryMode::INIT => 0b101,
        DeliveryMode::External => 0b111,
        DeliveryMode::Reserved(code) => code as u32,
    }
}

/// The delivery mode that a three-bit code stands for.
pub open spec fn delivery_mode_of(code: u8) -> DeliveryMode {
    if code == 0b000 {
        DeliveryMode::Fixed
    } else if code == 0b001 {
        DeliveryMode::LowestPriority
    } else if code == 0b010 {
        DeliveryMode::SystemManaged
    } else if code == 0b100 {
        DeliveryMode::NMI
    } else if code == 0b101 {
        DeliveryMode::INIT
    } else if code == 0b111 {
        DeliveryMode::External
    } else {
        DeliveryMode::Reserved(code)
    }
}

/// A flag as a number.
pub open spec fn flag(set: bool) -> u32 {
    if set {
        1
    } else {
        0
    }
}

/// Lower register of an entry: the vector in bits 0..8, the delivery mode
/// from bit 8, then one bit each for destination mode (11), delivery status
/// (12), polarity (13), remote IRR (14), trigger mode (15) and mask (16).
pub open spec fn entry_low(entry: IOApicRedirectionEntry) -> u32 {
    (entry.vector as u32) | (delivery_mode_code(entry.delivery_mode) << 8) | (flag(
        entry.destination_mode is Logical,
    ) << 11) | (flag(entry.delivery_status is SentPending) << 12) | (flag(
        entry.polarity is LowActive,
    ) << 13) | (flag(entry.remote_irr) << 14) | (flag(entry.trigger_mode is LevelSensitive) << 15)
        | (flag(entry.mask is Masked) << 16)
}

/// Upper register of an entry: the destination in bits 24..32.
pub open spec fn entry_high(entry: IOApicRedirectionEntry) -> u32 {
    (destination_value(entry.destination) as u32) << 24
}

/// The entry that the 64 bits of its two registers stand for.
pub open spec fn entry_of(value: u64) -> IOApicRedirectionEntry {
    let destination_mode = if (value >> 11) & 0b1 == 1 {
        DestinationMode::Logical
    } else {
        DestinationMode::Physical
    };
    IOApicRedirectionEntry {
        vector: (value & 0xFF) as u8,
        delivery_mode: delivery_mode_of(((value >> 8) & 0b111) as u8),
        destination_mode,
        delivery_status: if (value >> 12) & 0b1 == 1 {
            DeliveryStatus::SentPending
        } else {
            DeliveryStatus::Idle
        },
        polarity: if (value >> 13) & 0b1 == 1 {
            InterruptPolarity::LowActive
        } else {
            InterruptPolarity::HighActive
        },
        remote_irr: (value >> 14) & 0b1 == 1,
        trigger_mode: if (value >> 15) & 0b1 == 1 {
            TriggerMode::LevelSensitive
        } else {
            TriggerMode::EdgeSensitive
        },
        mask: if (value >> 16) & 0b1 == 1 {
            InterruptMask::Masked
        } else {
            InterruptMask::Unmasked
        },
        destination: destination_of(destination_mode, ((value >> 56) & 0b1111_1111) as u8),
    }
}

/// The 64 bits of the two registers of an entry.
pub open spec fn joined(low: u32, high: u32) -> u64 {
    (low as u64) | ((high as u64) << 32)
}

/// An entry that survives being written and read again: its delivery mode is
/// not a reserved code that is stored as one of the named modes or takes more
/// than three bits, and its destination is of the kind that its destination
/// mode asks for, a physical one within four bits.
pub open spec fn round_trips(entry: IOApicRedirectionEntry) -> bool {
    &&& entry.delivery_mode matches DeliveryMode::Reserved(code) ==> code == 0b011 || code == 0b110
    &&& match entry.destination_mode {
        DestinationMode::Physical => entry.destination matches DestinationField::PhysicalApicId(id)
            && id < 16,
        DestinationMode::Logical => entry.destination is LogicalSetOfProcessors,
    }
}

impl DeliveryMode {
    fn code(&self) -> (code: u32)
        ensures
            code == delivery_mode_code(*self),
    {
        match self {
            DeliveryMode::Fixed => 0b000,
            DeliveryMode::LowestPriority => 0b001,
            DeliveryMode::SystemManaged => 0b010,
            DeliveryMode::NMI => 0b100,
            DeliveryMode::INIT => 0b101,
            DeliveryMode::External => 0b111,
            DeliveryMode::Reserved(code) => *code as u32,
        }
    }

    fn from_code(code: u8) -> (mode: Self)
        ensures
            mode == delivery_mode_of(code),
    {
        match code {
            0b000 => DeliveryMode::Fixed,
            0b001 => DeliveryMode::LowestPriority,
            0b010 => DeliveryMode::SystemManaged,
            0b100 => DeliveryMode::NMI,
            0b101 => DeliveryMode::INIT,
            0b111 => DeliveryMode::External,
            _ => DeliveryMode::Reserved(code),
        }
    }
}

fn flag_bit(set: bool) -> (bit: u32)
    ensures
        bit == flag(set),
{
    if set {
        1
    } else {
        0
    }
}

impl IOApicRedirectionEntry {
    /// The entry that the 64 bits of its two registers stand for.
    pub fn decode(value: u64) -> (entry: Self)
        ensures
            entry == entry_of(value),
    {
        let destination_mode = if (value >> 11) & 0b1 == 1 {
            DestinationMode::Logical
        } else {
            DestinationMode::Physical
        };
        let destination = DestinationField::new(
            destination_mode,
            ((value >> 56) & 0b1111_1111) as u8,
        );
        IOApicRedirectionEntry {
            vector: (value & 0xFF) as u8,
            delivery_mode: DeliveryMode::from_code(((value >> 8) & 0b111) as u8),
            destination_mode,
            delivery_status: if (value >> 12) & 0b1 == 1 {
                DeliveryStatus::SentPending
            } else {
                DeliveryStatus::Idle
            },
            polarity: if (value >> 13) & 0b1 == 1 {
                InterruptPolarity::LowActive
            } else {
                InterruptPolarity::HighActive
            },
            remote_irr: (value >> 14) & 0b1 == 1,
            trigger_mode: if (value >> 15) & 0b1 == 1 {
                TriggerMode::LevelSensitive
            } else {
                TriggerMode::EdgeSensitive
            },
            mask: if (value >> 16) & 0b1 == 1 {
                InterruptMask::Masked
            } else {
                InterruptMask::Unmasked
            },
            destination,
        }
    }

    /// The lower register of the entry.
    pub fn low(&self) -> (value: u32)
        ensures
            value == entry_low(*self),
    {
        (self.vector as u32) | (self.delivery_mode.code() << 8) | (flag_bit(
            matches!(self.destination_mode, DestinationMode::Logical),
        ) << 11) | (flag_bit(matches!(self.delivery_status, DeliveryStatus::SentPending)) << 12)
            | (flag_bit(matches!(self.polarity, InterruptPolarity::LowActive)) << 13) | (flag_bit(
            self.remote_irr,
        ) << 14) | (flag_bit(matches!(self.trigger_mode, TriggerMode::LevelSensitive)) << 15) | (
        flag_bit(matches!(self.mask, InterruptMask::Masked)) << 16)
    }

    /// The upper register of the entry.
    pub fn high(&self) -> (value: u32)
        ensures
            value == entry_high(*self),
    {
        (self.destination.as_u8() as u32) << 24
    }
}

/// An entry that is written and read again is the same entry, bit for bit in
/// every field, provided that it is one that `round_trips` admits.
pub proof fn entry_round_trip(entry: IOApicRedirectionEntry)
    requires
        round_trips(entry),
    ensures
        entry_of(joined(entry_low(entry), entry_high(entry))) == entry,
{
    let vector = entry.vector;
    let mode = delivery_mode_code(entry.delivery_mode);
    let logical = flag(entry.destination_mode is Logical);
    let pending = flag(entry.delivery_status is SentPending);
    let low_active = flag(entry.polarity is LowActive);
    let irr = flag(entry.remote_irr);
    let level = flag(entry.trigger_mode is LevelSensitive);
    let masked = flag(entry.mask is Masked);
    let destination = destination_value(entry.destination);
    let low = entry_low(entry);
    let high = entry_high(entry);
    let value = joined(low, high);
    assert(mode < 8);
    assert({
        &&& (value & 0xFF) as u8 == vector
        &&& ((value >> 8) & 0b111) as u8 == mode
        &&& (value >> 11) & 0b1 == logical
        &&& (value >> 12) & 0b1 == pending
        &&& (value >> 13) & 0b1 == low_active
        &&& (value >> 14) & 0b1 == irr
        &&& (value >> 15) & 0b1 == level
        &&& (value >> 16) & 0b1 == masked
        &&& ((value >> 56) & 0b1111_1111) as u8 == destination
        &&& (destination < 16 ==> (((value >> 56) & 0b1111_1111) as u8) & 0b1111 == destination)
    }) by (bit_vector)
        requires
            mode < 8,
            logical < 2,
            pending < 2,
            low_active < 2,
            irr < 2,
            level < 2,
            masked < 2,
            low == (vector as u32) | (mode << 8) | (logical << 11) | (pending << 12) | (low_active
                << 13) | (irr << 14) | (level << 15) | (masked << 16),
            high == (destination as u32) << 24,
            value == (low as u64) | ((high as u64) << 32),
    ;
}

/// Every entry that is read from the registers is one that `round_trips`
/// admits.
pub proof fn decoded_entry_round_trips(value: u64)
    ensures
        round_trips(entry_of(value)),
{
    let code = ((value >> 8) & 0b111) as u8;
    let destination = ((value >> 56) & 0b1111_1111) as u8;
    assert(code < 8 && destination & 0b1111 < 16) by (bit_vector)
        requires
            code == ((value >> 8) & 0b111) as u8,
    ;
}

/// The register that holds the lower half of redirection entry `index`.
pub open spec fn low_register(index: int) -> int {
    0x10 + 2 * index
}

/// The entry that a register file holds at `index`.
pub open spec fn entry_at(registers: Seq<u32>, index: int) -> IOApicRedirectionEntry {
    entry_of(joined(registers[low_register(index)], registers[low_register(index) + 1]))
}

/// The two bus writes that store `value` in the indirect register `number`
/// of the window at `base`: the number goes to the select register, the value
/// to the window register.
pub open spec fn indirect_write(base: u64, number: int, value: u32) -> Seq<RegisterWrite> {
    seq![
        RegisterWrite { address: (base + REGISTER_SELECT) as u64, value: number as u32 },
        RegisterWrite { address: (base + REGISTER_WINDOW) as u64, value },
    ]
}

/// The four bus writes that store an entry: its lower register, then its
/// upper one.
pub open spec fn entry_writes(base: u64, index: int, entry: IOApicRedirectionEntry) -> Seq<
    RegisterWrite,
> {
    indirect_write(base, low_register(index), entry_low(entry)) + indirect_write(
        base,
        low_register(index) + 1,
        entry_high(entry),
    )
}

/// A register file after an entry was stored.
pub open spec fn registers_with_entry(
    registers: Seq<u32>,
    index: int,
    entry: IOApicRedirectionEntry,
) -> Seq<u32> {
    registers.update(low_register(index), entry_low(entry)).update(
        low_register(index) + 1,
        entry_high(entry),
    )
}

/// An entry made to deliver `vector`, unmasked.
pub open spec fn routed(entry: IOApicRedirectionEntry, vector: u8) -> IOApicRedirectionEntry {
    IOApicRedirectionEntry { mask: InterruptMask::Unmasked, vector, ..entry }
}

/// The vector that line `index` delivers while nothing else claims it.
pub open spec fn spurious_vector(index: int) -> u8 {
    (vector_of(InterruptIndex::SpuriousIoApic) + index) as u8
}

/// The register file after the first `end` lines were given their spurious
/// vector: a line that is unmasked delivers `spurious_vector`, a masked line
/// is left alone.
pub open spec fn registers_after_spurious(registers: Seq<u32>, end: int) -> Seq<u32>
    decreases end,
{
    if end <= 0 {
        registers
    } else {
        let before = registers_after_spurious(registers, end - 1);
        let entry = entry_at(registers, end - 1);
        if entry.mask is Unmasked {
            registers_with_entry(before, end - 1, routed(entry, spurious_vector(end - 1)))
        } else {
            before
        }
    }
}

/// The bus writes that give the first `end` lines their spurious vector.
pub open spec fn spurious_writes(registers: Seq<u32>, base: u64, end: int) -> Seq<RegisterWrite>
    decreases end,
{
    if end <= 0 {
        Seq::empty()
    } else {
        let entry = entry_at(registers, end - 1);
        spurious_writes(registers, base, end - 1) + (if entry.mask is Unmasked {
            entry_writes(base, end - 1, routed(entry, spurious_vector(end - 1)))
        } else {
            Seq::empty()
        })
    }
}

/// The register file after `initialize`: the first `count` lines were given
/// their spurious vector, and then the line of the legacy timer was made to
/// deliver the timer vector, unmasked.
pub open spec fn registers_after_initialize(registers: Seq<u32>, count: int) -> Seq<u32> {
    let spurious = registers_after_spurious(registers, count);
    registers_with_entry(
        spurious,
        TIMER_LINE as int,
        routed(entry_at(spurious, TIMER_LINE as int), vector_of(InterruptIndex::Timer)),
    )
}

/// The bus writes of `initialize`: those that give the lines their spurious
/// vector, then those that route the line of the legacy timer.
pub open spec fn initialize_writes(registers: Seq<u32>, base: u64, count: int) -> Seq<
    RegisterWrite,
> {
    spurious_writes(registers, base, count) + entry_writes(
        base,
        TIMER_LINE as int,
        routed(
            entry_at(registers_after_spurious(registers, count), TIMER_LINE as int),
            vector_of(InterruptIndex::Timer),
        ),
    )
}

/// Number of redirection entries that a version register announces: its bits
/// 16..24 hold the number of the last entry. No more are counted than the
/// indirect registers have room for.
pub open spec fn announced_entries(version: u32) -> u16 {
    let last = ((version >> 16) & 0xFF) as u8;
    if last + 1 > MAX_REDIRECTION_ENTRIES {
        MAX_REDIRECTION_ENTRIES
    } else {
        (last + 1) as u16
    }
}

/// The I/O APIC: where its register window is mapped, what its indirect
/// registers hold, and every write made to it so far.
pub struct IOApic {
    mapping: PhysicalMapping,
    registers: Vec<u32>,
    redirection_entry_count: u16,
    end_of_interrupt_addr: u64,
    writes: Vec<RegisterWrite>,
}

impl IOApic {
    /// What every I/O APIC made by `from_addr` satisfies, and every
    /// operation keeps: the whole window is mapped, each indirect register
    /// has a value, and there is at least one redirection entry and room for
    /// all.
    pub closed spec fn well_formed(&self) -> bool {
        &&& self.registers@.len() == REGISTER_COUNT
        &&& self.mapping.well_formed()
        &&& self.mapping.region_length() == WINDOW_LENGTH
        &&& 1 <= self.redirection_entry_count <= MAX_REDIRECTION_ENTRIES
    }

    /// Where the register window is mapped.
    pub closed spec fn mapping(&self) -> PhysicalMapping {
        self.mapping
    }

    /// What the indirect registers hold, by their number.
    pub closed spec fn registers(&self) -> Seq<u32> {
        self.registers@
    }

    /// Number of entries of the redirection table.
    pub closed spec fn entry_count(&self) -> u16 {
        self.redirection_entry_count
    }

    /// Address of the register of the Local APIC that ends an interrupt.
    pub closed spec fn eoi_address(&self) -> u64 {
        self.end_of_interrupt_addr
    }

    /// The writes made so far, oldest first.
    pub closed spec fn journal(&self) -> Seq<RegisterWrite> {
        self.writes@
    }

    /// Virtual address of the first byte of the window.
    pub open spec fn base(&self) -> u64 {
        self.mapping().virtual_start()
    }

    /// The I/O APIC of the system, signalling interrupts' ends to `local`.
    pub fn new(local: &LocalApic, addr: u64, handler: &mut NoccioloAcpiHandler, version: u32)
        -> (apic: Self)
        requires
            local.well_formed(),
            addr % 4096 == 0,
            mappable(old(handler).next_page(), addr, WINDOW_LENGTH),
        ensures
            apic.well_formed(),
            apic.mapping().physical_start() == addr,
            apic.mapping().mapped_length() == page_count(addr, WINDOW_LENGTH) * 4096,
            apic.base() == old(handler).next_page(),
            apic.eoi_address() == local.mapping().virtual_start() + register_offset(
                LocalApicRegister::EndOfInterrupt,
            ),
            apic.entry_count() == announced_entries(version),
            apic.journal() == Seq::<RegisterWrite>::empty(),
            apic.registers() == Seq::new(
                REGISTER_COUNT as nat,
                |i: int|
                    if i == 1 {
                        version
                    } else {
                        0u32
                    },
            ),
            final(handler).requests() == old(handler).requests()
                + apic.mapping().installing_requests(DEVICE_FLAGS),
            final(handler).next_page() == old(handler).next_page()
                + apic.mapping().mapped_length(),
    {
        let eoi_addr: u64 = local.offset_to_addr(0xB0);
        Self::from_addr(addr, eoi_addr, handler, version)
    }

    /// Maps the register window at the physical address `addr`, which must
    /// be the start of a page. `version` is what the version register holds;
    /// the other registers read as zero until their contents are brought in
    /// with `load`.
    #[must_use]
    pub fn from_addr(addr: u64, eoi_addr: u64, handler: &mut NoccioloAcpiHandler, version: u32)
        -> (apic: Self)
        requires
            addr % 4096 == 0,
            mappable(old(handler).next_page(), addr, WINDOW_LENGTH),
        ensures
            apic.well_formed(),
            apic.mapping().physical_start() == addr,
            apic.mapping().mapped_length() == page_count(addr, WINDOW_LENGTH) * 4096,
            apic.base() == old(handler).next_page(),
            apic.eoi_address() == eoi_addr,
            apic.entry_count() == announced_entries(version),
            apic.journal() == Seq::<RegisterWrite>::empty(),
            apic.registers() == Seq::new(
                REGISTER_COUNT as nat,
                |i: int|
                    if i == 1 {
                        version
                    } else {
                        0u32
                    },
            ),
            final(handler).requests() == old(handler).requests()
                + apic.mapping().installing_requests(DEVICE_FLAGS),
            final(handler).next_page() == old(handler).next_page()
                + apic.mapping().mapped_length(),
    {
        let mapping = handler.map_device_region(addr, WINDOW_LENGTH);
        let mut registers: Vec<u32> = Vec::new();
        while registers.len() < REGISTER_COUNT
            invariant
                registers@.len() <= REGISTER_COUNT,
                forall|i: int|
                    0 <= i < registers@.len() ==> registers@[i] == (if i == 1 {
                        version
                    } else {
                        0u32
                    }),
            decreases REGISTER_COUNT - registers@.len(),
        {
            let value: u32 = if registers.len() == 1 {
                version
            } else {
                0
            };
            registers.push(value);
        }

        let mut this = Self {
            mapping,
            registers,
            redirection_entry_count: 1,
            end_of_interrupt_addr: eoi_addr,
            writes: Vec::new(),
        };
        assert(this.registers() =~= Seq::new(
            REGISTER_COUNT as nat,
            |i: int|
                if i == 1 {
                    version
                } else {
                    0u32
                },
        ));

        let last: u16 = this.read_redirection_entry_count() as u16;
        let redirection_entry_count: u16 = if last + 1 > MAX_REDIRECTION_ENTRIES {
            MAX_REDIRECTION_ENTRIES
        } else {
            last + 1
        };
        this.redirection_entry_count = redirection_entry_count;

        this
    }

    /// Stores what the hardware holds in the indirect register `number`,
    /// without a bus write.
    pub fn load(&mut self, number: u8, value: u32)
        requires
            old(self).well_formed(),
        ensures
            final(self).well_formed(),
            final(self).mapping() == old(self).mapping(),
            final(self).entry_count() == old(self).entry_count(),
            final(self).eoi_address() == old(self).eoi_address(),
            final(self).journal() == old(self).journal(),
            final(self).registers() == old(self).registers().update(number as int, value),
    {
        self.registers.set(number as usize, value);
    }

    /// Counts the redirection entries anew from what the version register
    /// holds, once the contents of the hardware have been brought in.
    pub fn update_redirection_entry_count(&mut self)
        requires
            old(self).well_formed(),
        ensures
            final(self).well_formed(),
            final(self).mapping() == old(self).mapping(),
            final(self).eoi_address() == old(self).eoi_address(),
            final(self).journal() == old(self).journal(),
            final(self).registers() == old(self).registers(),
            final(self).entry_count() == announced_entries(old(self).registers()[1]),
    {
        let last: u16 = self.read_redirection_entry_count() as u16;
        self.redirection_entry_count = if last + 1 > MAX_REDIRECTION_ENTRIES {
            MAX_REDIRECTION_ENTRIES
        } else {
            last + 1
        };
    }

    /// Number of entries of the redirection table.
    pub fn redirection_entry_count(&self) -> (count: u16)
        requires
            self.well_formed(),
        ensures
            count == self.entry_count(),
            1 <= count <= MAX_REDIRECTION_ENTRIES,
    {
        self.redirection_entry_count
    }

    /// Signals the end of an interrupt: writes 0 to the end-of-interrupt
    /// register of the Local APIC. Without a published I/O APIC nothing is
    /// written, and `false` is returned.
    pub fn end_of_interrupt(instance: &mut Option<IOApic>) -> (sent: bool)
        requires
            *old(instance) matches Some(apic) ==> apic.well_formed(),
        ensures
            *final(instance) matches Some(apic) ==> apic.well_formed(),
            sent == (*old(instance) is Some),
            (*final(instance) is Some) == (*old(instance) is Some),
            *old(instance) matches Some(before) ==> {
                &&& (*final(instance))->0.mapping() == before.mapping()
                &&& (*final(instance))->0.registers() == before.registers()
                &&& (*final(instance))->0.entry_count() == before.entry_count()
                &&& (*final(instance))->0.eoi_address() == before.eoi_address()
                &&& (*final(instance))->0.journal() == before.journal().push(
                    RegisterWrite { address: before.eoi_address(), value: 0 },
                )
            },
    {
        match instance {
            Some(this) => {
                this.writes.push(RegisterWrite { address: this.end_of_interrupt_addr, value: 0 });
                true
            },
            None => false,
        }
    }

    /// The entry of the timer line of the published I/O APIC, if there is
    /// one and it has that many lines.
    pub fn dump_debug_info(instance: &Option<IOApic>) -> (entry: Option<IOApicRedirectionEntry>)
        requires
            *instance matches Some(apic) ==> apic.well_formed(),
        ensures
            entry == (match *instance {
                Some(apic) => if TIMER_LINE < apic.entry_count() {
                    Some(entry_at(apic.registers(), TIMER_LINE as int))
                } else {
                    None
                },
                None => None,
            }),
    {
        match instance {
            Some(this) => {
                if (TIMER_LINE as u16) < this.redirection_entry_count {
                    Some(this.read_entry(TIMER_LINE))
                } else {
                    None
                }
            },
            None => None,
        }
    }

    /// The published I/O APIC, to be worked on, if there is one.
    pub fn with(instance: &mut Option<IOApic>) -> (this: Option<&mut IOApic>)
        ensures
            match this {
                Some(apic) => *old(instance) == Some(*apic) && *final(instance) == Some(
                    *final(apic),
                ),
                None => *old(instance) is None && *final(instance) is None,
            },
    {
        match instance {
            Some(apic) => Some(apic),
            None => None,
        }
    }

    /// Makes this the I/O APIC that interrupt handlers signal.
    pub fn publish(self, instance: &mut Option<IOApic>)
        ensures
            *final(instance) == Some(self),
    {
        *instance = Some(self);
    }

    /// Routes the lines: every line that is unmasked is made to deliver its
    /// spurious vector, masked lines are left alone, and then the line of the
    /// legacy timer is made to deliver the timer vector, unmasked.
    pub fn initialize(&mut self)
        requires
            old(self).well_formed(),
            TIMER_LINE < old(self).entry_count(),
        ensures
            final(self).well_formed(),
            final(self).mapping() == old(self).mapping(),
            final(self).entry_count() == old(self).entry_count(),
            final(self).eoi_address() == old(self).eoi_address(),
            final(self).registers() == registers_after_initialize(
                old(self).registers(),
                old(self).entry_count() as int,
            ),
            final(self).journal() == old(self).journal() + initialize_writes(
                old(self).registers(),
                old(self).base(),
                old(self).entry_count() as int,
            ),
    {
        self.map_all_to_spurious_vectors();
        self.map(TIMER_LINE, InterruptIndex::Timer);
    }

    /// Makes line `index` deliver `vector`, unmasked, and keeps the rest of
    /// its entry.
    pub fn map(&mut self, index: u8, vector: InterruptIndex)
        requires
            old(self).well_formed(),
            index < old(self).entry_count(),
        ensures
            final(self).well_formed(),
            final(self).mapping() == old(self).mapping(),
            final(self).entry_count() == old(self).entry_count(),
            final(self).eoi_address() == old(self).eoi_address(),
            final(self).registers() == registers_with_entry(
                old(self).registers(),
                index as int,
                routed(entry_at(old(self).registers(), index as int), vector_of(vector)),
            ),
            final(self).journal() == old(self).journal() + entry_writes(
                old(self).base(),
                index as int,
                routed(entry_at(old(self).registers(), index as int), vector_of(vector)),
            ),
    {
        let mut entry = self.read_entry(index);
        entry.mask = InterruptMask::Unmasked;
        entry.vector = vector.as_u8();
        self.write_entry(index, entry);
    }

    /// Gives every unmasked line its spurious vector.
    pub fn map_all_to_spurious_vectors(&mut self)
        requires
            old(self).well_formed(),
        ensures
            final(self).well_formed(),
            final(self).mapping() == old(self).mapping(),
            final(self).entry_count() == old(self).entry_count(),
            final(self).eoi_address() == old(self).eoi_address(),
            final(self).registers() == registers_after_spurious(
                old(self).registers(),
                old(self).entry_count() as int,
            ),
            final(self).journal() == old(self).journal() + spurious_writes(
                old(self).registers(),
                old(self).base(),
                old(self).entry_count() as int,
            ),
    {
        let mut index: u8 = 0;
        while (index as u16) < self.redirection_entry_count
            invariant
                self.well_formed(),
                index <= self.entry_count(),
                self.mapping() == old(self).mapping(),
                self.entry_count() == old(self).entry_count(),
                self.eoi_address() == old(self).eoi_address(),
                self.registers() == registers_after_spurious(old(self).registers(), index as int),
                self.journal() == old(self).journal() + spurious_writes(
                    old(self).registers(),
                    old(self).base(),
                    index as int,
                ),
                forall|n: int|
                    low_register(index as int) <= n < REGISTER_COUNT ==> self.registers()[n]
                        == old(self).registers()[n],
            decreases self.entry_count() - index,
        {
            let mut entry = self.read_entry(index);
            if matches!(entry.mask, InterruptMask::Unmasked) {
                entry.vector = 100 + index;
                entry.mask = InterruptMask::Unmasked;
                self.write_entry(index, entry);
            }
            index += 1;
        }
    }

    /// The entry of line `index`.
    pub fn read_entry(&self, index: u8) -> (entry: IOApicRedirectionEntry)
        requires
            self.well_formed(),
            index < self.entry_count(),
        ensures
            entry == entry_at(self.registers(), index as int),
            round_trips(entry),
    {
        let value: u64 = self.read_u64(IOApicRegister::RedirectionEntry(index));
        proof {
            decoded_entry_round_trips(value);
        }
        IOApicRedirectionEntry::decode(value)
    }

    /// Stores the entry of line `index`: its lower register, then its upper
    /// one. An entry that `round_trips` admits is the entry that is read
    /// back.
    pub fn write_entry(&mut self, index: u8, entry: IOApicRedirectionEntry)
        requires
            old(self).well_formed(),
            index < old(self).entry_count(),
        ensures
            final(self).well_formed(),
            final(self).mapping() == old(self).mapping(),
            final(self).entry_count() == old(self).entry_count(),
            final(self).eoi_address() == old(self).eoi_address(),
            final(self).registers() == registers_with_entry(
                old(self).registers(),
                index as int,
                entry,
            ),
            final(self).journal() == old(self).journal() + entry_writes(
                old(self).base(),
                index as int,
                entry,
            ),
            round_trips(entry) ==> entry_at(final(self).registers(), index as int) == entry,
    {
        let value_lo: u32 = entry.low();
        let value_hi: u32 = entry.high();

        self.write_u32(IOApicRegister::RedirectionEntry(index), value_lo);
        self.write_u32(IOApicRegister::RedirectionEntry(index).second_part_redir(), value_hi);
        proof {
            if round_trips(entry) {
                entry_round_trip(entry);
            }
            assert(self.journal() =~= old(self).journal() + entry_writes(
                old(self).base(),
                index as int,
                entry,
            ));
        }
    }

    /// The version of the I/O APIC: the low byte of its version register.
    pub fn read_version(&self) -> (version: u8)
        requires
            self.well_formed(),
        ensures
            version == (self.registers()[1] & 0xFF) as u8,
    {
        (self.read_u32(IOApicRegister::Version) & 0xFF) as u8
    }

    /// Number of the last redirection entry: bits 16..24 of the version
    /// register.
    pub fn read_redirection_entry_count(&self) -> (last: u8)
        requires
            self.well_formed(),
        ensures
            last == ((self.registers()[1] >> 16) & 0xFF) as u8,
    {
        ((self.read_u32(IOApicRegister::Version) >> 16) & 0xFF) as u8
    }

    /// The 64 bits of a redirection entry.
    pub fn read_u64(&self, reg: IOApicRegister) -> (value: u64)
        requires
            self.well_formed(),
            reg is RedirectionEntry,
            register_number(reg) < u8::MAX,
        ensures
            value == joined(
                self.registers()[register_number(reg)],
                self.registers()[register_number(reg) + 1],
            ),
    {
        let lo: u32 = self.read_u32(reg);
        let hi: u32 = self.read_u32(reg.second_part_redir());
        (lo as u64) | ((hi as u64) << 32)
    }

    /// Stores the 64 bits of a redirection entry: the lower half, then the
    /// upper one.
    pub fn write_u64(&mut self, reg: IOApicRegister, value: u64)
        requires
            old(self).well_formed(),
            reg is RedirectionEntry,
            register_number(reg) < u8::MAX,
        ensures
            final(self).well_formed(),
            final(self).mapping() == old(self).mapping(),
            final(self).entry_count() == old(self).entry_count(),
            final(self).eoi_address() == old(self).eoi_address(),
            final(self).registers() == old(self).registers().update(
                register_number(reg),
                (value & 0xFFFF_FFFF) as u32,
            ).update(register_number(reg) + 1, ((value >> 32) & 0xFFFF_FFFF) as u32),
            final(self).journal() == old(self).journal() + indirect_write(
                old(self).base(),
                register_number(reg),
                (value & 0xFFFF_FFFF) as u32,
            ) + indirect_write(
                old(self).base(),
                register_number(reg) + 1,
                ((value >> 32) & 0xFFFF_FFFF) as u32,
            ),
    {
        let lo: u32 = (value & 0xFFFF_FFFF) as u32;
        let hi: u32 = ((value >> 32) & 0xFFFF_FFFF) as u32;

        self.write_u32(reg, lo);
        self.write_u32(reg.second_part_redir(), hi);
    }

    /// What an indirect register holds.
    pub fn read_u32(&self, reg: IOApicRegister) -> (value: u32)
        requires
            self.well_formed(),
            register_number(reg) <= u8::MAX,
        ensures
            value == self.registers()[register_number(reg)],
    {
        self.registers[reg.as_u8() as usize]
    }

    /// Stores a value in an indirect register: selects it, then writes the
    /// window.
    pub fn write_u32(&mut self, reg: IOApicRegister, value: u32)
        requires
            old(self).well_formed(),
            register_number(reg) <= u8::MAX,
        ensures
            final(self).well_formed(),
            final(self).mapping() == old(self).mapping(),
            final(self).entry_count() == old(self).entry_count(),
            final(self).eoi_address() == old(self).eoi_address(),
            final(self).registers() == old(self).registers().update(register_number(reg), value),
            final(self).journal() == old(self).journal() + indirect_write(
                old(self).base(),
                register_number(reg),
                value,
            ),
    {
        let number: u8 = reg.as_u8();
        let select: u64 = self.offset_to_addr(REGISTER_SELECT);
        let window: u64 = self.offset_to_addr(REGISTER_WINDOW);
        self.writes.push(RegisterWrite { address: select, value: number as u32 });
        self.writes.push(RegisterWrite { address: window, value });
        self.registers.set(number as usize, value);
        assert(self.journal() =~= old(self).journal() + indirect_write(
            old(self).base(),
            register_number(reg),
            value,
        ));
    }

    /// Virtual address of the window byte at `offset`.
    pub fn offset_to_addr(&self, offset: u64) -> (address: u64)
        requires
            self.well_formed(),
            offset < WINDOW_LENGTH,
        ensures
            address == self.base() + offset,
    {
        self.mapping.virtual_start() + offset
    }

    /// Hands out the writes made so far, oldest first, and forgets them.
    pub fn take_writes(&mut self) -> (writes: Vec<RegisterWrite>)
        requires
            old(self).well_formed(),
        ensures
            final(self).well_formed(),
            writes@ == old(self).journal(),
            final(self).journal() == Seq::<RegisterWrite>::empty(),
            final(self).mapping() == old(self).mapping(),
            final(self).entry_count() == old(self).entry_count(),
            final(self).eoi_address() == old(self).eoi_address(),
            final(self).registers() == old(self).registers(),
    {
        let mut writes: Vec<RegisterWrite> = Vec::new();
        std::mem::swap(&mut writes, &mut self.writes);
        writes
    }
}

} // verus!
