//! Access mechanisms of the PCI configuration space and what is read through
//! them: the typed registers of a function and the scan of a segment.

use super::types::{
    class_code_of, express_offset, header_bar_count, header_type_of, local_bus_address,
    PciAddress, PciClassCode, PciDeviceId, PciHeaderType, PciSubclass, PciVendorId,
};
use crate::device::acpi::handler::{
    map_requests, mappable, page_count, NoccioloAcpiHandler, PageRequest, PhysicalMapping,
    REGION_FLAGS,
};
use crate::memory::{aligned_down, PAGE_SIZE};
use crate::device::acpi::McfgEntry;
use crate::platform::{
    dword_write, image_dword, image_with_word, image_word, ByteImage, MemoryWrite, PortWrite,
};
use std::collections::HashMap;
use vstd::prelude::*;

verus! {

/// I/O port through which the legacy mechanism is told which dword to access.
pub const CONFIG_ADDRESS: u16 = 0xCF8;

/// I/O port through which the legacy mechanism transfers the selected dword.
pub const CONFIG_DATA: u16 = 0xCFC;

/// Number of slots that a scan visits: 256 buses of 32 devices each.
pub const SLOT_COUNT: u16 = 8192;

/// A way to reach the configuration registers of PCI functions.
///
/// An implementation says through `word_at` and `dword_at` what a read
/// returns, and through `written` how a write relates the mechanism before
/// it to the mechanism after it. What is stated of the provided methods
/// holds relative to those three.
pub trait ConfigurationSpaceMechanism: Sized {
    /// The 16-bit register content that a read at `offset` returns.
    spec fn word_at(&self, addr: PciAddress, offset: u16) -> u16;

    /// The 32-bit register content that a read at `offset` returns.
    spec fn dword_at(&self, addr: PciAddress, offset: u16) -> u32;

    /// Whether `after` is this mechanism once `value` was written at `offset`.
    spec fn written(&self, after: &Self, addr: PciAddress, offset: u16, value: u16) -> bool;

    fn read_word(&self, addr: PciAddress, offset: u16) -> (word: u16)
        ensures
            word == self.word_at(addr, offset),
    ;

    fn read_dword(&self, addr: PciAddress, offset: u16) -> (dword: u32)
        ensures
            dword == self.dword_at(addr, offset),
    ;

    fn write_word(&mut self, addr: PciAddress, offset: u16, value: u16)
        ensures
            old(self).written(final(self), addr, offset, value),
    ;

    fn vendor_id(&self, addr: PciAddress) -> (vendor: PciVendorId)
        ensures
            vendor == PciVendorId(self.word_at(addr, 0x0)),
    {
        PciVendorId::new(self.read_word(addr, 0x0))
    }

    fn device_id(&self, addr: PciAddress) -> (device: PciDeviceId)
        ensures
            device == PciDeviceId(self.word_at(addr, 0x2)),
    {
        PciDeviceId::new(self.read_word(addr, 0x2))
    }

    fn command(&self, addr: PciAddress) -> (command: u16)
        ensures
            command == self.word_at(addr, 0x4),
    {
        self.read_word(addr, 0x4)
    }

    fn write_command(&mut self, addr: PciAddress, value: u16)
        ensures
            old(self).written(final(self), addr, 0x4, value),
    {
        self.write_word(addr, 0x4, value);
    }

    fn status(&self, addr: PciAddress) -> (status: u16)
        ensures
            status == self.word_at(addr, 0x6),
    {
        self.read_word(addr, 0x6)
    }

    fn revision_id(&self, addr: PciAddress) -> (revision: u8)
        ensures
            revision == (self.word_at(addr, 0x8) & 0xFF) as u8,
    {
        (self.read_word(addr, 0x8) & 0xFF) as u8
    }

    fn prog_if(&self, addr: PciAddress) -> (interface: u8)
        ensures
            interface == (self.word_at(addr, 0x8) >> 8) as u8,
    {
        (self.read_word(addr, 0x8) >> 8) as u8
    }

    fn subclass(&self, addr: PciAddress) -> (subclass: PciSubclass)
        ensures
            subclass == PciSubclass((self.word_at(addr, 0xA) & 0xFF) as u8),
    {
        PciSubclass::new((self.read_word(addr, 0xA) & 0xFF) as u8)
    }

    fn class_code(&self, addr: PciAddress) -> (class: PciClassCode)
        ensures
            class == class_code_of((self.word_at(addr, 0xA) >> 8) as u8),
    {
        PciClassCode::new((self.read_word(addr, 0xA) >> 8) as u8)
    }

    /// Sets the bus-master bit of the command register and leaves the other
    /// command bits as they were read.
    fn enable_bus_mastering(&mut self, addr: PciAddress)
        ensures
            old(self).written(final(self), addr, 0x4, old(self).word_at(addr, 0x4) | 0x4),
    {
        let command: u16 = self.command(addr);
        self.write_command(addr, command | 0x4);
    }

    fn header_type(&self, addr: PciAddress) -> (header: PciHeaderType)
        ensures
            header == header_type_of(self.word_at(addr, 0xE) as u8),
    {
        let ty: u8 = self.read_word(addr, 0xE) as u8;
        PciHeaderType::new(ty)
    }

    /// The base address register `idx`, if the header of the function has
    /// that many: registers are four bytes apart from offset `0x10` on.
    fn base_address(&self, addr: PciAddress, idx: usize) -> (bar: Option<u32>)
        ensures
            bar == (if idx < header_bar_count(header_type_of(self.word_at(addr, 0xE) as u8)) {
                Some(self.dword_at(addr, (0x10 + idx * 4) as u16))
            } else {
                None
            }),
    {
        if self.header_type(addr).bar_count() > idx {
            let idx: u16 = (idx * 4) as u16;
            Some(self.read_dword(addr, 0x10 + idx))
        } else {
            None
        }
    }
}

/// Address of the `slot`-th function that a scan visits: function 0 of
/// device `slot % 32` on bus `slot / 32` of segment 0.
pub open spec fn slot_address(slot: int) -> PciAddress {
    PciAddress { segment: 0, bus: (slot / 32) as u8, device: (slot % 32) as u8, function: 0 }
}

/// Whether a function answers in `slot`: an absent one reads as vendor
/// `0xFFFF`.
pub open spec fn slot_present<M: ConfigurationSpaceMechanism>(mechanism: &M, slot: int) -> bool {
    mechanism.word_at(slot_address(slot), 0x0) != 0xFFFF
}

/// What a scan reports of the function in `slot`.
pub open spec fn slot_entry<M: ConfigurationSpaceMechanism>(mechanism: &M, slot: int) -> (
    PciAddress,
    PciVendorId,
    PciDeviceId,
) {
    (
        slot_address(slot),
        PciVendorId(mechanism.word_at(slot_address(slot), 0x0)),
        PciDeviceId(mechanism.word_at(slot_address(slot), 0x2)),
    )
}

/// The first slot at or after `from` in which a function answers, or
/// `SLOT_COUNT` where none does.
pub open spec fn next_present<M: ConfigurationSpaceMechanism>(mechanism: &M, from: int) -> int
    decreases SLOT_COUNT - from,
{
    if from >= SLOT_COUNT {
        SLOT_COUNT as int
    } else if from >= 0 && slot_present(mechanism, from) {
        from
    } else {
        next_present(mechanism, from + 1)
    }
}

/// The entries of the functions that answer in the slots below `end`, in
/// slot order.
pub open spec fn enumeration<M: ConfigurationSpaceMechanism>(mechanism: &M, end: int) -> Seq<
    (PciAddress, PciVendorId, PciDeviceId),
>
    decreases end,
{
    if end <= 0 {
        Seq::empty()
    } else if slot_present(mechanism, end - 1) {
        enumeration(mechanism, end - 1).push(slot_entry(mechanism, end - 1))
    } else {
        enumeration(mechanism, end - 1)
    }
}

/// The slot that a cursor of a scan stands on. A device number of 32 or more
/// means that the bus is finished, and a bus number of 256 or more that the
/// scan is.
pub open spec fn cursor_position(bus: u16, device: u8) -> int {
    if bus >= 256 {
        SLOT_COUNT as int
    } else if device >= 32 {
        (bus + 1) * 32
    } else {
        bus * 32 + device
    }
}

/// A scan over the slots of segment 0, in the order of bus and device.
pub struct DeviceEnumerator<'a, Mechanism: ConfigurationSpaceMechanism> {
    mechanism: &'a Mechanism,
    bus: u16,
    device: u8,
}

impl<'a, Mechanism: ConfigurationSpaceMechanism> DeviceEnumerator<'a, Mechanism> {
    /// The mechanism that the scan reads through.
    pub closed spec fn mechanism(&self) -> &'a Mechanism {
        self.mechanism
    }

    /// The next slot that the scan will look at.
    pub closed spec fn position(&self) -> int {
        cursor_position(self.bus, self.device)
    }

    /// A scan that starts at the first slot.
    pub fn new(mechanism: &'a Mechanism) -> (scan: Self)
        ensures
            scan.mechanism() == mechanism,
            scan.position() == 0,
    {
        DeviceEnumerator { mechanism, device: 0, bus: 0 }
    }

    /// Moves to the next function that answers and reports it, or reports
    /// that no further slot holds one.
    pub fn next(&mut self) -> (item: Option<(PciAddress, PciVendorId, PciDeviceId)>)
        ensures
            final(self).mechanism() == old(self).mechanism(),
            ({
                let found = next_present(old(self).mechanism(), old(self).position());
                if found < SLOT_COUNT {
                    &&& item == Some(slot_entry(old(self).mechanism(), found))
                    &&& final(self).position() == found + 1
                } else {
                    &&& item is None
                    &&& final(self).position() == SLOT_COUNT
                }
            }),
    {
        while self.bus < 256
            invariant
                self.mechanism == old(self).mechanism,
                0 <= old(self).position() <= self.position() <= SLOT_COUNT,
                next_present(self.mechanism, self.position()) == next_present(
                    old(self).mechanism,
                    old(self).position(),
                ),
            decreases 256 - self.bus,
        {
            let ghost bus = self.bus;
            while self.device < 32
                invariant
                    self.bus == bus < 256,
                    self.mechanism == old(self).mechanism,
                    0 <= old(self).position() <= self.position() <= SLOT_COUNT,
                    next_present(self.mechanism, self.position()) == next_present(
                        old(self).mechanism,
                        old(self).position(),
                    ),
                decreases 32 - self.device,
            {
                let addr = PciAddress {
                    segment: 0,
                    bus: self.bus as u8,
                    device: self.device,
                    function: 0,
                };
                let ghost slot = self.position();
                assert(addr == slot_address(slot));

                self.device += 1;

                let vendor_id = self.mechanism.vendor_id(addr);
                if vendor_id.value() != PciVendorId::INVALID {
                    let device_id = self.mechanism.device_id(addr);
                    return Some((addr, vendor_id, device_id));
                }
            }

            self.bus += 1;
            self.device = 0;
        }

        None
    }
}

/// Between a slot and the next one in which a function answers, a scan
/// finds nothing: the entries below both are the same, the next such slot is
/// not before the start, and a function answers in it unless the scan is over.
pub proof fn enumeration_skips_absent<M: ConfigurationSpaceMechanism>(mechanism: &M, from: int)
    requires
        0 <= from <= SLOT_COUNT,
    ensures
        from <= next_present(mechanism, from) <= SLOT_COUNT,
        next_present(mechanism, from) < SLOT_COUNT ==> slot_present(
            mechanism,
            next_present(mechanism, from),
        ),
        enumeration(mechanism, next_present(mechanism, from)) == enumeration(mechanism, from),
    decreases SLOT_COUNT - from,
{
    if from < SLOT_COUNT && !slot_present(mechanism, from) {
        enumeration_skips_absent(mechanism, from + 1);
    }
}

/// Two slots of a scan have the same address only if they are the same slot.
pub proof fn slot_addresses_differ(first: int, second: int)
    requires
        0 <= first < SLOT_COUNT,
        0 <= second < SLOT_COUNT,
        slot_address(first) == slot_address(second),
    ensures
        first == second,
{
}

/// A scan reports every function that answers exactly once, and reports
/// nothing else: among the entries of the slots below `end`, the entry of a
/// slot occurs once if the slot is below `end` and a function answers in it,
/// and does not occur otherwise.
pub proof fn enumeration_reports_each_function_once<M: ConfigurationSpaceMechanism>(
    mechanism: &M,
    end: int,
    slot: int,
)
    requires
        0 <= end <= SLOT_COUNT,
        0 <= slot < SLOT_COUNT,
    ensures
        enumeration(mechanism, end).to_multiset().count(slot_entry(mechanism, slot)) == (if slot
            < end && slot_present(mechanism, slot) {
            1nat
        } else {
            0nat
        }),
    decreases end,
{
    broadcast use vstd::seq_lib::group_to_multiset_ensures;

    if end > 0 {
        enumeration_reports_each_function_once(mechanism, end - 1, slot);
        if slot_present(mechanism, end - 1) {
            if slot_entry(mechanism, slot) == slot_entry(mechanism, end - 1) {
                slot_addresses_differ(slot, end - 1);
            }
        }
    }
}

/// The configuration dword that the data port is connected to while the
/// address port holds `address_word`: none while the enable flag is clear,
/// else the one named by the bus, device, function and register bits.
pub open spec fn selected_register(address_word: u32) -> Option<u64> {
    if address_word & 0x8000_0000 != 0 {
        Some((address_word & 0x00FF_FFFC) as u64)
    } else {
        None
    }
}

/// What a read of the data port returns. A register that nothing was stored
/// in, and a port that is not connected, read as all ones.
pub open spec fn data_port_value(registers: Map<u64, u32>, address_word: u32) -> u32 {
    match selected_register(address_word) {
        Some(key) => if registers.contains_key(key) {
            registers[key]
        } else {
            0xFFFF_FFFF
        },
        None => 0xFFFF_FFFF,
    }
}

/// The registers after a write of `value` to the data port. A port that is
/// not connected drops the write.
pub open spec fn registers_after_data_write(
    registers: Map<u64, u32>,
    address_word: u32,
    value: u32,
) -> Map<u64, u32> {
    match selected_register(address_word) {
        Some(key) => registers.insert(key, value),
        None => registers,
    }
}

/// The half of a configuration dword that `offset` addresses: the low half
/// where bit 1 of the offset is clear, the high half where it is set.
pub open spec fn word_of_dword(data: u32, offset: u16) -> u16 {
    if offset & 2 == 0 {
        (data & 0xFFFF) as u16
    } else {
        ((data >> 16) & 0xFFFF) as u16
    }
}

/// `data` with the half that `offset` addresses replaced by `value`.
pub open spec fn merge_word(data: u32, offset: u16, value: u16) -> u32 {
    if offset & 2 == 0 {
        (value as u32) | (data & 0xFFFF0000)
    } else {
        ((value as u32) << 16) | (data & 0xFFFF)
    }
}

/// The pair of legacy configuration ports together with the registers that
/// they give access to, and every port write made so far.
pub struct PciIOPorts {
    config_address: u32,
    registers: HashMap<u64, u32>,
    writes: Vec<PortWrite>,
}

impl PciIOPorts {
    /// The word that the address port holds.
    pub closed spec fn latched(&self) -> u32 {
        self.config_address
    }

    /// The configuration dwords that have been stored, by the register bits
    /// of their address word.
    pub closed spec fn registers(&self) -> Map<u64, u32> {
        self.registers@
    }

    /// The port writes made so far, oldest first.
    pub closed spec fn journal(&self) -> Seq<PortWrite> {
        self.writes@
    }

    /// Ports behind which no function answers.
    pub fn new() -> (ports: Self)
        ensures
            ports.latched() == 0,
            ports.registers() == Map::<u64, u32>::empty(),
            ports.journal() == Seq::<PortWrite>::empty(),
    {
        Self { config_address: 0, registers: HashMap::new(), writes: Vec::new() }
    }

    /// Stores what the register of `addr` at `offset` holds, without a port
    /// access: this is how the contents of real hardware are brought in.
    pub fn load(&mut self, addr: PciAddress, offset: u16, value: u32)
        ensures
            final(self).latched() == old(self).latched(),
            final(self).journal() == old(self).journal(),
            final(self).registers() == registers_after_data_write(
                old(self).registers(),
                local_bus_address(addr, offset, true),
                value,
            ),
    {
        let word: u32 = addr.create_local_bus_address(offset, true);
        if word & 0x8000_0000 != 0 {
            self.registers.insert((word & 0x00FF_FFFC) as u64, value);
        }
    }

    /// Writes the address port.
    pub fn write_config_address(&mut self, address_word: u32)
        ensures
            final(self).latched() == address_word,
            final(self).registers() == old(self).registers(),
            final(self).journal() == old(self).journal().push(
                dword_write(CONFIG_ADDRESS, address_word),
            ),
    {
        self.config_address = address_word;
        self.writes.push(PortWrite::dword(CONFIG_ADDRESS, address_word));
    }

    /// What the data port would return if the address port held
    /// `address_word`.
    pub fn peek(&self, address_word: u32) -> (value: u32)
        ensures
            value == data_port_value(self.registers(), address_word),
    {
        if address_word & 0x8000_0000 != 0 {
            let key: u64 = (address_word & 0x00FF_FFFC) as u64;
            match self.registers.get(&key) {
                Some(value) => *value,
                None => 0xFFFF_FFFF,
            }
        } else {
            0xFFFF_FFFF
        }
    }

    /// Reads the data port.
    pub fn read_config_data(&self) -> (value: u32)
        ensures
            value == data_port_value(self.registers(), self.latched()),
    {
        self.peek(self.config_address)
    }

    /// Writes the data port.
    pub fn write_config_data(&mut self, value: u32)
        ensures
            final(self).latched() == old(self).latched(),
            final(self).registers() == registers_after_data_write(
                old(self).registers(),
                old(self).latched(),
                value,
            ),
            final(self).journal() == old(self).journal().push(dword_write(CONFIG_DATA, value)),
    {
        if self.config_address & 0x8000_0000 != 0 {
            self.registers.insert((self.config_address & 0x00FF_FFFC) as u64, value);
        }
        self.writes.push(PortWrite::dword(CONFIG_DATA, value));
    }

    /// Hands out the port writes made so far, oldest first, and forgets
    /// them.
    pub fn take_writes(&mut self) -> (writes: Vec<PortWrite>)
        ensures
            writes@ == old(self).journal(),
            final(self).journal() == Seq::<PortWrite>::empty(),
            final(self).latched() == old(self).latched(),
            final(self).registers() == old(self).registers(),
    {
        let mut writes: Vec<PortWrite> = Vec::new();
        std::mem::swap(&mut writes, &mut self.writes);
        writes
    }
}

/// The legacy mechanism: every access selects a dword through the address
/// port and transfers it through the data port.
pub struct PciLocalBusConfigurationSpace {
    pub ports: PciIOPorts,
}

impl PciLocalBusConfigurationSpace {
    pub fn new(ports: PciIOPorts) -> (mechanism: Self)
        ensures
            mechanism.ports == ports,
    {
        Self { ports }
    }

    /// Picks out of a dword that the data port returned the half that
    /// `offset` addresses.
    pub fn select_word(data: u32, offset: u16) -> (word: u16)
        ensures
            word == word_of_dword(data, offset),
    {
        if offset & 2 == 0 {
            (data & 0xFFFF) as u16
        } else {
            ((data >> 16) & 0xFFFF) as u16
        }
    }

    /// Puts `value` into the half of `data` that `offset` addresses.
    pub fn merge_word(data: u32, offset: u16, value: u16) -> (merged: u32)
        ensures
            merged == merge_word(data, offset, value),
    {
        if offset & 2 == 0 {
            (value as u32) | (data & 0xFFFF0000)
        } else {
            ((value as u32) << 16) | (data & 0xFFFF)
        }
    }
}

impl ConfigurationSpaceMechanism for PciLocalBusConfigurationSpace {
    open spec fn word_at(&self, addr: PciAddress, offset: u16) -> u16 {
        word_of_dword(self.dword_at(addr, offset), offset)
    }

    open spec fn dword_at(&self, addr: PciAddress, offset: u16) -> u32 {
        data_port_value(self.ports.registers(), local_bus_address(addr, offset, true))
    }

    /// A write selects the dword with the enable flag set, reads it, replaces
    /// one half and writes it back: two port writes.
    open spec fn written(&self, after: &Self, addr: PciAddress, offset: u16, value: u16) -> bool {
        let address_word = local_bus_address(addr, offset, true);
        let merged = merge_word(self.dword_at(addr, offset), offset, value);
        &&& after.ports.latched() == address_word
        &&& after.ports.registers() == registers_after_data_write(
            self.ports.registers(),
            address_word,
            merged,
        )
        &&& after.ports.journal() == self.ports.journal().push(
            dword_write(CONFIG_ADDRESS, address_word),
        ).push(dword_write(CONFIG_DATA, merged))
    }

    fn read_word(&self, addr: PciAddress, offset: u16) -> (word: u16) {
        let data: u32 = self.read_dword(addr, offset);
        Self::select_word(data, offset)
    }

    fn read_dword(&self, addr: PciAddress, offset: u16) -> (dword: u32) {
        let address: u32 = addr.create_local_bus_address(offset, true);
        self.ports.peek(address)
    }

    fn write_word(&mut self, addr: PciAddress, offset: u16, value: u16) {
        let address: u32 = addr.create_local_bus_address(offset, true);
        self.ports.write_config_address(address);

        let data: u32 = self.ports.read_config_data();
        let data: u32 = Self::merge_word(data, offset, value);
        self.ports.write_config_data(data);
    }
}

/// Through the legacy mechanism a written word is the word read back from
/// the same place, and the other half of its dword stays as it was.
pub proof fn local_bus_write_keeps_other_half(
    before: &PciLocalBusConfigurationSpace,
    after: &PciLocalBusConfigurationSpace,
    addr: PciAddress,
    offset: u16,
    value: u16,
)
    requires
        before.written(after, addr, offset, value),
    ensures
        after.word_at(addr, offset) == value,
        after.word_at(addr, offset ^ 2) == before.word_at(addr, offset ^ 2),
{
    let word = local_bus_address(addr, offset, true);
    let other = local_bus_address(addr, offset ^ 2, true);
    let bus = addr.bus;
    let device = addr.device;
    let function = addr.function;
    assert(word & 0x8000_0000 != 0 && other == word) by (bit_vector)
        requires
            word == ((bus as u32) << 16) | ((device as u32) << 11) | ((function as u32) << 8) | (
            offset as u32 & 0xFC) | 0x8000_0000u32,
            other == ((bus as u32) << 16) | ((device as u32) << 11) | ((function as u32) << 8) | (
            (offset ^ 2) as u32 & 0xFC) | 0x8000_0000u32,
    ;
    let data = before.dword_at(addr, offset);
    let merged = merge_word(data, offset, value);
    assert(word_of_dword(merged, offset) == value && word_of_dword(merged, offset ^ 2)
        == word_of_dword(data, offset ^ 2)) by (bit_vector)
        requires
            merged == merge_word(data, offset, value),
    ;
}

/// Number of bytes of configuration space that an MCFG entry describes: a
/// megabyte for each bus from its first to its last.
pub open spec fn window_size(entry: McfgEntry) -> int {
    (entry.bus_number_end - entry.bus_number_start + 1) * 0x10_0000
}

/// Whether an entry describes the configuration space of a function.
pub open spec fn window_holds(entry: McfgEntry, addr: PciAddress) -> bool {
    entry.pci_segment_group == addr.segment && entry.bus_number_start <= addr.bus
        <= entry.bus_number_end
}

/// Position of the first entry from `from` on that describes the
/// configuration space of a function, or the number of entries where none
/// does.
pub open spec fn first_window(entries: Seq<McfgEntry>, addr: PciAddress, from: int) -> int
    decreases entries.len() - from,
{
    if from < 0 || from >= entries.len() {
        entries.len() as int
    } else if window_holds(entries[from], addr) {
        from
    } else {
        first_window(entries, addr, from + 1)
    }
}

/// The virtual address of a configuration register: the start of the mapping
/// of the first entry that describes the function, plus the offset of the
/// register in that window. There is none where no entry describes the
/// function, where the entry has no mapping, and where the address does not
/// fit 64 bits.
pub open spec fn express_target(
    entries: Seq<McfgEntry>,
    mappings: Seq<PhysicalMapping>,
    addr: PciAddress,
    offset: u16,
) -> Option<u64> {
    let index = first_window(entries, addr, 0);
    if index < entries.len() && index < mappings.len() && mappings[index].virtual_start()
        + express_offset(addr, offset, entries[index].bus_number_start) <= u64::MAX {
        Some(
            (mappings[index].virtual_start() + express_offset(
                addr,
                offset,
                entries[index].bus_number_start,
            )) as u64,
        )
    } else {
        None
    }
}

/// The page that follows the mappings of the first `n` entries, when the
/// first mapping starts at `next`; none where one of the entries cannot be
/// mapped, be it that its last bus lies before its first or that its window
/// is not mappable.
pub open spec fn windows_end(entries: Seq<McfgEntry>, next: u64, n: int) -> Option<u64>
    decreases n,
{
    if n <= 0 {
        Some(next)
    } else {
        match windows_end(entries, next, n - 1) {
            Some(before) => {
                let entry = entries[n - 1];
                if entry.bus_number_start <= entry.bus_number_end && mappable(
                    before,
                    entry.base_address,
                    window_size(entry) as u64,
                ) {
                    Some(
                        (before + page_count(entry.base_address, window_size(entry) as u64)
                            * PAGE_SIZE) as u64,
                    )
                } else {
                    None
                }
            },
            None => None,
        }
    }
}

/// The requests that map the windows of the first `n` entries, one window
/// after the other.
pub open spec fn window_requests(entries: Seq<McfgEntry>, next: u64, n: int) -> Seq<PageRequest>
    decreases n,
{
    if n <= 0 {
        Seq::empty()
    } else {
        let entry = entries[n - 1];
        window_requests(entries, next, n - 1) + map_requests(
            windows_end(entries, next, n - 1)->0,
            aligned_down(entry.base_address, PAGE_SIZE) as u64,
            page_count(entry.base_address, window_size(entry) as u64),
            REGION_FLAGS,
        )
    }
}

/// The memory-mapped mechanism: every register of every function has an
/// address in the window of its bus range.
pub struct PciExpressConfigurationSpace {
    mcfg_entries: Vec<McfgEntry>,
    mappings: Vec<PhysicalMapping>,
    memory: ByteImage,
    writes: Vec<MemoryWrite>,
}

impl PciExpressConfigurationSpace {
    /// The bus ranges whose configuration space is mapped.
    pub closed spec fn entries(&self) -> Seq<McfgEntry> {
        self.mcfg_entries@
    }

    /// The mapping of each bus range, in the order of the entries.
    pub closed spec fn mappings(&self) -> Seq<PhysicalMapping> {
        self.mappings@
    }

    /// What the mapped windows hold, by virtual address.
    pub closed spec fn memory(&self) -> Map<u64, u8> {
        self.memory@
    }

    /// The writes made to the windows so far, oldest first.
    pub closed spec fn journal(&self) -> Seq<MemoryWrite> {
        self.writes@
    }

    /// Maps the window of every entry, in order. Nothing is made where one
    /// of the windows cannot be mapped; the windows before it stay mapped.
    pub fn new(entries: Vec<McfgEntry>, handler: &mut NoccioloAcpiHandler) -> (space: Option<
        PciExpressConfigurationSpace,
    >)
        ensures
            space is Some == windows_end(
                entries@,
                old(handler).next_page(),
                entries@.len() as int,
            ) is Some,
            exists|mapped: int|
                {
                    &&& 0 <= mapped <= entries@.len()
                    &&& mapped == entries@.len() || windows_end(
                        entries@,
                        old(handler).next_page(),
                        mapped + 1,
                    ) is None
                    &&& #[trigger] windows_end(entries@, old(handler).next_page(), mapped) == Some(
                        final(handler).next_page(),
                    )
                    &&& final(handler).requests() == old(handler).requests() + window_requests(
                        entries@,
                        old(handler).next_page(),
                        mapped,
                    )
                },
            space matches Some(space) ==> {
                &&& space.entries() == entries@
                &&& space.mappings().len() == entries@.len()
                &&& space.memory() == Map::<u64, u8>::empty()
                &&& space.journal() == Seq::<MemoryWrite>::empty()
                &&& final(handler).next_page() == windows_end(
                    entries@,
                    old(handler).next_page(),
                    entries@.len() as int,
                )->0
                &&& forall|i: int|
                    0 <= i < entries@.len() ==> {
                        &&& (#[trigger] space.mappings()[i]).well_formed()
                        &&& space.mappings()[i].physical_start() == entries@[i].base_address
                        &&& space.mappings()[i].region_length() == window_size(entries@[i])
                        &&& space.mappings()[i].virtual_start() == windows_end(
                            entries@,
                            old(handler).next_page(),
                            i,
                        )->0 + entries@[i].base_address % 4096
                    }
            },
    {
        let mut mappings: Vec<PhysicalMapping> = Vec::new();
        let mut i: usize = 0;
        while i < entries.len()
            invariant
                i <= entries.len(),
                mappings@.len() == i,
                windows_end(entries@, old(handler).next_page(), i as int) == Some(
                    handler.next_page(),
                ),
                handler.requests() == old(handler).requests() + window_requests(
                    entries@,
                    old(handler).next_page(),
                    i as int,
                ),
                forall|k: int|
                    0 <= k < i ==> {
                        &&& (#[trigger] mappings@[k]).well_formed()
                        &&& mappings@[k].physical_start() == entries@[k].base_address
                        &&& mappings@[k].region_length() == window_size(entries@[k])
                        &&& mappings@[k].virtual_start() == windows_end(
                            entries@,
                            old(handler).next_page(),
                            k,
                        )->0 + entries@[k].base_address % 4096
                    },
            decreases entries.len() - i,
        {
            let entry = entries[i];
            if entry.bus_number_end < entry.bus_number_start {
                proof {
                    windows_end_stays_none(entries@, old(handler).next_page(), i as int + 1);
                }
                return None;
            }
            let size: u64 = ((entry.bus_number_end - entry.bus_number_start) as u64 + 1)
                * 0x10_0000;
            if !handler.can_map(entry.base_address, size) {
                proof {
                    windows_end_stays_none(entries@, old(handler).next_page(), i as int + 1);
                }
                return None;
            }
            let mapping = handler.map_physical_region(entry.base_address, size);
            mappings.push(mapping);
            assert(handler.requests() =~= old(handler).requests() + window_requests(
                entries@,
                old(handler).next_page(),
                i + 1,
            ));
            i += 1;
        }

        Some(
            Self { mcfg_entries: entries, mappings, memory: ByteImage::new(), writes: Vec::new() },
        )
    }

    /// The virtual address of a configuration register.
    pub fn config_space_to_address_space(&self, addr: PciAddress, offset: u16) -> (address: Option<
        u64,
    >)
        ensures
            address == express_target(self.entries(), self.mappings(), addr, offset),
    {
        let mut idx: usize = 0;
        while idx < self.mcfg_entries.len()
            invariant
                idx <= self.mcfg_entries.len(),
                first_window(self.mcfg_entries@, addr, idx as int) == first_window(
                    self.mcfg_entries@,
                    addr,
                    0,
                ),
            decreases self.mcfg_entries.len() - idx,
        {
            let entry = &self.mcfg_entries[idx];
            if entry.pci_segment_group != addr.segment {
                idx += 1;
                continue ;
            }
            if addr.bus < entry.bus_number_start || addr.bus > entry.bus_number_end {
                idx += 1;
                continue ;
            }
            assert(first_window(self.mcfg_entries@, addr, idx as int) == idx);

            let offset: u64 = addr.create_express_offset(offset, entry.bus_number_start);
            if idx >= self.mappings.len() {
                return None;
            }
            return self.mappings[idx].virtual_start().checked_add(offset);
        }

        None
    }

    /// Stores a byte that a window holds, without a memory write: this is
    /// how the contents of real hardware are brought in.
    pub fn load(&mut self, address: u64, value: u8)
        ensures
            final(self).entries() == old(self).entries(),
            final(self).mappings() == old(self).mappings(),
            final(self).journal() == old(self).journal(),
            final(self).memory() == old(self).memory().insert(address, value),
    {
        self.memory.write_byte(address, value);
    }

    /// Hands out the writes made so far, oldest first, and forgets them.
    pub fn take_writes(&mut self) -> (writes: Vec<MemoryWrite>)
        ensures
            writes@ == old(self).journal(),
            final(self).journal() == Seq::<MemoryWrite>::empty(),
            final(self).entries() == old(self).entries(),
            final(self).mappings() == old(self).mappings(),
            final(self).memory() == old(self).memory(),
    {
        let mut writes: Vec<MemoryWrite> = Vec::new();
        std::mem::swap(&mut writes, &mut self.writes);
        writes
    }
}

/// Once a window cannot be mapped, no longer run of windows can.
pub proof fn windows_end_stays_none(entries: Seq<McfgEntry>, next: u64, n: int)
    requires
        windows_end(entries, next, n) is None,
    ensures
        forall|m: int| n <= m ==> windows_end(entries, next, m) is None,
{
    assert forall|m: int| n <= m implies windows_end(entries, next, m) is None by {
        windows_end_none_from(entries, next, n, m);
    }
}

proof fn windows_end_none_from(entries: Seq<McfgEntry>, next: u64, n: int, m: int)
    requires
        windows_end(entries, next, n) is None,
        n <= m,
    ensures
        windows_end(entries, next, m) is None,
    decreases m - n,
{
    if n < m {
        windows_end_none_from(entries, next, n, m - 1);
    }
}

impl ConfigurationSpaceMechanism for PciExpressConfigurationSpace {
    /// A register outside every window reads as zero.
    open spec fn word_at(&self, addr: PciAddress, offset: u16) -> u16 {
        match express_target(self.entries(), self.mappings(), addr, offset) {
            Some(address) => image_word(self.memory(), address),
            None => 0,
        }
    }

    open spec fn dword_at(&self, addr: PciAddress, offset: u16) -> u32 {
        match express_target(self.entries(), self.mappings(), addr, offset) {
            Some(address) => image_dword(self.memory(), address),
            None => 0,
        }
    }

    /// A write stores the word at the address of the register; a write
    /// outside every window is dropped.
    open spec fn written(&self, after: &Self, addr: PciAddress, offset: u16, value: u16) -> bool {
        &&& after.entries() == self.entries()
        &&& after.mappings() == self.mappings()
        &&& match express_target(self.entries(), self.mappings(), addr, offset) {
            Some(address) => {
                &&& after.memory() == image_with_word(self.memory(), address, value)
                &&& after.journal() == self.journal().push(MemoryWrite { address, value })
            },
            None => {
                &&& after.memory() == self.memory()
                &&& after.journal() == self.journal()
            },
        }
    }

    fn read_word(&self, addr: PciAddress, offset: u16) -> (word: u16) {
        match self.config_space_to_address_space(addr, offset) {
            Some(address) => self.memory.read_word(address),
            None => 0,
        }
    }

    fn read_dword(&self, addr: PciAddress, offset: u16) -> (dword: u32) {
        match self.config_space_to_address_space(addr, offset) {
            Some(address) => self.memory.read_dword(address),
            None => 0,
        }
    }

    fn write_word(&mut self, addr: PciAddress, offset: u16, value: u16) {
        let address: u64 = match self.config_space_to_address_space(addr, offset) {
            Some(address) => address,
            None => {
                return ;
            },
        };
        self.memory.write_word(address, value);
        self.writes.push(MemoryWrite { address, value });
    }
}

} // verus!
