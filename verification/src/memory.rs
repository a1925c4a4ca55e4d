//! Physical frames and the walk through the page tables.

use std::collections::HashMap;
use vstd::arithmetic::power2::{lemma2_to64, pow2};
use vstd::prelude::*;

verus! {

/// Size of a frame and of a page, in bytes.
pub const PAGE_SIZE: u64 = 4096;

/// `addr` rounded down to a multiple of `align`.
pub open spec fn aligned_down(addr: u64, align: u64) -> int {
    addr - addr % align
}

/// `addr` rounded up to a multiple of `align`.
pub open spec fn aligned_up(addr: u64, align: u64) -> int {
    if addr % align == 0 {
        addr as int
    } else {
        addr - addr % align + align
    }
}

/// Whether `align` is one of the 64 powers of two that fit a `u64`.
pub open spec fn is_power_of_two(align: u64) -> bool {
    exists|exponent: nat| exponent < 64 && align == #[trigger] pow2(exponent)
}

/// `x86_64::align_down` returns the greatest multiple of `align` that is not
/// above `addr`. It panics unless `align` is a power of two.
pub assume_specification[ x86_64::align_down ](addr: u64, align: u64) -> (aligned: u64)
    requires
        is_power_of_two(align),
    ensures
        aligned == aligned_down(addr, align),
;

/// `x86_64::align_up` returns the smallest multiple of `align` that is not
/// below `addr`. It panics unless `align` is a power of two, and where that
/// multiple does not fit a `u64`.
pub assume_specification[ x86_64::align_up ](addr: u64, align: u64) -> (aligned: u64)
    requires
        is_power_of_two(align),
        aligned_up(addr, align) <= u64::MAX,
    ensures
        aligned == aligned_up(addr, align),
;

/// The page size is a power of two, so addresses can be aligned to it.
pub proof fn page_size_is_power_of_two()
    ensures
        is_power_of_two(PAGE_SIZE),
{
    lemma2_to64();
    assert(PAGE_SIZE == pow2(12));
}

/// Start of the frame or page that holds `addr`.
pub fn page_start(addr: u64) -> (start: u64)
    ensures
        start == aligned_down(addr, PAGE_SIZE),
        start % PAGE_SIZE == 0,
        start <= addr < start + PAGE_SIZE,
{
    proof {
        page_size_is_power_of_two();
    }
    x86_64::align_down(addr, PAGE_SIZE)
}

/// What the firmware says a range of physical memory is used for.
#[derive(Clone, Copy, Debug, PartialEq, Eq, Structural)]
pub enum MemoryRegionKind {
    /// Free for the kernel to use.
    Usable,
    /// Holds the kernel, its stack or the boot information.
    Bootloader,
    /// A kind that only the UEFI firmware names.
    UnknownUefi(u32),
    /// A kind that only the BIOS names.
    UnknownBios(u32),
}

/// A range `[start, end)` of physical memory and its kind.
#[derive(Clone, Copy, Debug, PartialEq, Eq, Structural)]
pub struct MemoryRegion {
    pub start: u64,
    pub end: u64,
    pub kind: MemoryRegionKind,
}

/// Number of frames that a region contributes: none unless it is usable and
/// not empty, else one for each step of a page size from `start` that stays
/// below `end`.
pub open spec fn frame_count(region: MemoryRegion) -> int {
    if region.kind == MemoryRegionKind::Usable && region.start < region.end {
        (region.end - region.start - 1) / (PAGE_SIZE as int) + 1
    } else {
        0
    }
}

/// Start address of the `index`-th frame of a region: the frame that holds
/// `start + index * PAGE_SIZE`.
pub open spec fn frame_of_region(region: MemoryRegion, index: int) -> int {
    aligned_down(region.start, PAGE_SIZE) + index * PAGE_SIZE
}

/// The `n`-th usable frame, counting through the regions from `first` on in
/// the order of the memory map, if there are that many.
pub open spec fn nth_usable_frame(regions: Seq<MemoryRegion>, first: int, n: int) -> Option<u64>
    decreases regions.len() - first,
{
    if first < 0 || first >= regions.len() || n < 0 {
        None
    } else if n < frame_count(regions[first]) {
        Some(frame_of_region(regions[first], n) as u64)
    } else {
        nth_usable_frame(regions, first + 1, n - frame_count(regions[first]))
    }
}

/// Whether `frame` is the start of one of the frames of `region`.
pub open spec fn region_holds_frame(region: MemoryRegion, frame: u64) -> bool {
    let base = aligned_down(region.start, PAGE_SIZE);
    &&& base <= frame
    &&& (frame - base) % (PAGE_SIZE as int) == 0
    &&& (frame - base) / (PAGE_SIZE as int) < frame_count(region)
}

/// Hands out the usable frames of the memory map, one after the other, and
/// never takes one back.
pub struct BootInfoFrameAllocator {
    memory_regions: Vec<MemoryRegion>,
    next: usize,
}

impl BootInfoFrameAllocator {
    /// The memory map that the allocator draws from.
    pub closed spec fn regions(&self) -> Seq<MemoryRegion> {
        self.memory_regions@
    }

    /// Number of frames handed out by `allocate_frame` so far.
    pub closed spec fn allocated(&self) -> int {
        self.next as int
    }

    /// An allocator that has handed out nothing yet.
    pub fn init(memory_regions: Vec<MemoryRegion>) -> (allocator: Self)
        ensures
            allocator.regions() == memory_regions@,
            allocator.allocated() == 0,
    {
        BootInfoFrameAllocator { memory_regions, next: 0 }
    }

    /// The frame that holds `ptr`, if it is one of the usable frames. The
    /// frame is not set aside: a later `allocate_frame` may hand it out too.
    pub fn allocate_frame_from_physical(&mut self, ptr: u64) -> (frame: Option<u64>)
        ensures
            final(self).regions() == old(self).regions(),
            final(self).allocated() == old(self).allocated(),
            frame == (if exists|i: int|
                0 <= i < old(self).regions().len() && region_holds_frame(
                    #[trigger] old(self).regions()[i],
                    aligned_down(ptr, PAGE_SIZE) as u64,
                ) {
                Some(aligned_down(ptr, PAGE_SIZE) as u64)
            } else {
                None
            }),
    {
        let target: u64 = page_start(ptr);
        let mut i: usize = 0;
        while i < self.memory_regions.len()
            invariant
                self.memory_regions@ == old(self).memory_regions@,
                self.next == old(self).next,
                target == aligned_down(ptr, PAGE_SIZE),
                i <= self.memory_regions.len(),
                forall|j: int|
                    0 <= j < i ==> !region_holds_frame(#[trigger] self.memory_regions@[j], target),
            decreases self.memory_regions.len() - i,
        {
            let region = self.memory_regions[i];
            if region.kind == MemoryRegionKind::Usable && region.start < region.end {
                let base: u64 = page_start(region.start);
                let count: u64 = (region.end - region.start - 1) / PAGE_SIZE + 1;
                if base <= target && (target - base) % PAGE_SIZE == 0 && (target - base)
                    / PAGE_SIZE < count {
                    assert(region_holds_frame(
                        old(self).regions()[i as int],
                        aligned_down(ptr, PAGE_SIZE) as u64,
                    ));
                    return Some(target);
                }
            }
            i += 1;
        }
        None
    }

    /// Hands out the next usable frame, if one is left and the count of the
    /// frames handed out still fits its counter.
    pub fn allocate_frame(&mut self) -> (frame: Option<u64>)
        ensures
            final(self).regions() == old(self).regions(),
            frame == (if old(self).allocated() < usize::MAX {
                nth_usable_frame(old(self).regions(), 0, old(self).allocated())
            } else {
                None
            }),
            final(self).allocated() == old(self).allocated() + (if frame is Some {
                1int
            } else {
                0int
            }),
    {
        if self.next == usize::MAX {
            return None;
        }
        let mut n: u64 = self.next as u64;
        let mut i: usize = 0;
        while i < self.memory_regions.len()
            invariant
                self.memory_regions@ == old(self).memory_regions@,
                self.next == old(self).next < usize::MAX,
                i <= self.memory_regions.len(),
                nth_usable_frame(self.memory_regions@, i as int, n as int) == nth_usable_frame(
                    self.memory_regions@,
                    0,
                    self.next as int,
                ),
            decreases self.memory_regions.len() - i,
        {
            let region = self.memory_regions[i];
            if region.kind == MemoryRegionKind::Usable && region.start < region.end {
                let base: u64 = page_start(region.start);
                let count: u64 = (region.end - region.start - 1) / PAGE_SIZE + 1;
                if n < count {
                    assert(n * 4096 <= region.end - region.start - 1) by (nonlinear_arith)
                        requires
                            0 <= n < count,
                            count == (region.end - region.start - 1) / 4096 + 1,
                            region.start < region.end,
                    ;
                    self.next += 1;
                    return Some(base + n * PAGE_SIZE);
                }
                n -= count;
            }
            i += 1;
        }
        None
    }
}

/// Whether a region contributes frames at all.
pub open spec fn is_usable(region: MemoryRegion) -> bool {
    region.kind == MemoryRegionKind::Usable && region.start < region.end
}

/// A memory map whose usable regions start on a frame boundary and do not
/// overlap one another.
pub open spec fn usable_regions_are_disjoint(regions: Seq<MemoryRegion>) -> bool {
    &&& forall|i: int|
        0 <= i < regions.len() && is_usable(#[trigger] regions[i]) ==> regions[i].start
            % PAGE_SIZE == 0
    &&& forall|i: int, j: int|
        0 <= i < j < regions.len() && is_usable(#[trigger] regions[i]) && is_usable(
            #[trigger] regions[j],
        ) ==> regions[i].end <= regions[j].start || regions[j].end <= regions[i].start
}

/// In such a memory map every usable frame starts inside the region that it
/// was taken from.
pub proof fn usable_frame_lies_in_a_region(regions: Seq<MemoryRegion>, first: int, n: int)
    requires
        usable_regions_are_disjoint(regions),
        0 <= first,
        nth_usable_frame(regions, first, n) is Some,
    ensures
        exists|j: int|
            first <= j < regions.len() && is_usable(#[trigger] regions[j]) && regions[j].start
                <= nth_usable_frame(regions, first, n)->0 < regions[j].end,
    decreases regions.len() - first,
{
    let region = regions[first];
    if n < frame_count(region) {
        assert(n * 4096 <= region.end - region.start - 1) by (nonlinear_arith)
            requires
                0 <= n < (region.end - region.start - 1) / 4096 + 1,
                region.start < region.end,
        ;
        assert(is_usable(regions[first]));
    } else {
        usable_frame_lies_in_a_region(regions, first + 1, n - frame_count(region));
    }
}

/// Counting from any region on, two different positions among the usable
/// frames hold two different frames.
pub proof fn usable_frames_differ(regions: Seq<MemoryRegion>, first: int, earlier: int, later: int)
    requires
        usable_regions_are_disjoint(regions),
        0 <= first,
        0 <= earlier < later,
        nth_usable_frame(regions, first, earlier) is Some,
        nth_usable_frame(regions, first, later) is Some,
    ensures
        nth_usable_frame(regions, first, earlier) != nth_usable_frame(regions, first, later),
    decreases regions.len() - first,
{
    let region = regions[first];
    let count = frame_count(region);
    if earlier < count {
        assert(earlier * 4096 <= region.end - region.start - 1) by (nonlinear_arith)
            requires
                0 <= earlier < (region.end - region.start - 1) / 4096 + 1,
                region.start < region.end,
        ;
        assert(is_usable(regions[first]));
        if later < count {
            assert(later * 4096 <= region.end - region.start - 1) by (nonlinear_arith)
                requires
                    0 <= later < (region.end - region.start - 1) / 4096 + 1,
                    region.start < region.end,
            ;
        } else {
            usable_frame_lies_in_a_region(regions, first + 1, later - count);
        }
    } else {
        usable_frames_differ(regions, first + 1, earlier - count, later - count);
    }
}

/// No frame is handed out twice by `allocate_frame`: in a memory map whose
/// usable regions start on a frame boundary and do not overlap, the frames at
/// two different positions of the allocation order are different.
pub proof fn allocated_frames_are_distinct(regions: Seq<MemoryRegion>, earlier: int, later: int)
    requires
        usable_regions_are_disjoint(regions),
        0 <= earlier < later,
        nth_usable_frame(regions, 0, earlier) is Some,
        nth_usable_frame(regions, 0, later) is Some,
    ensures
        nth_usable_frame(regions, 0, earlier) != nth_usable_frame(regions, 0, later),
{
    usable_frames_differ(regions, 0, earlier, later);
}

/// Index into the page table of `level` (4 is the root, 1 the last) that a
/// virtual address selects: nine bits, starting at bit 12 for level 1.
pub open spec fn table_index(addr: u64, level: int) -> u16 {
    if level == 4 {
        ((addr >> 39) & 0x1FF) as u16
    } else if level == 3 {
        ((addr >> 30) & 0x1FF) as u16
    } else if level == 2 {
        ((addr >> 21) & 0x1FF) as u16
    } else {
        ((addr >> 12) & 0x1FF) as u16
    }
}

/// `VirtAddr::p4_index`, after `VirtAddr::new_truncate`, which leaves the bits
/// below bit 48 as they are: bits 39..48 of the address, a number below 512.
#[verifier::external_body]
fn p4_index(addr: u64) -> (index: u16)
    ensures
        index == table_index(addr, 4),
        index < 512,
{
    u16::from(x86_64::VirtAddr::new_truncate(addr).p4_index())
}

/// `VirtAddr::p3_index`, after `VirtAddr::new_truncate`: bits 30..39 of the
/// address, a number below 512.
#[verifier::external_body]
fn p3_index(addr: u64) -> (index: u16)
    ensures
        index == table_index(addr, 3),
        index < 512,
{
    u16::from(x86_64::VirtAddr::new_truncate(addr).p3_index())
}

/// `VirtAddr::p2_index`, after `VirtAddr::new_truncate`: bits 21..30 of the
/// address, a number below 512.
#[verifier::external_body]
fn p2_index(addr: u64) -> (index: u16)
    ensures
        index == table_index(addr, 2),
        index < 512,
{
    u16::from(x86_64::VirtAddr::new_truncate(addr).p2_index())
}

/// `VirtAddr::p1_index`, after `VirtAddr::new_truncate`: bits 12..21 of the
/// address, a number below 512.
#[verifier::external_body]
fn p1_index(addr: u64) -> (index: u16)
    ensures
        index == table_index(addr, 1),
        index < 512,
{
    u16::from(x86_64::VirtAddr::new_truncate(addr).p1_index())
}

/// `VirtAddr::page_offset`, after `VirtAddr::new_truncate`: the low twelve
/// bits of the address.
#[verifier::external_body]
fn page_offset(addr: u64) -> (offset: u16)
    ensures
        offset == addr & 0xFFF,
        offset < 4096,
{
    u16::from(x86_64::VirtAddr::new_truncate(addr).page_offset())
}

/// Why a page-table entry leads to no next table or frame.
#[derive(Clone, Copy, Debug, PartialEq, Eq, Structural)]
pub enum FrameError {
    /// The present bit of the entry is clear.
    FrameNotPresent,
    /// The entry maps a huge page.
    HugeFrame,
}

/// Where a page-table entry leads: nowhere if its present bit (bit 0) is
/// clear, to a huge page if bit 7 is set, else to the frame whose start its
/// bits 12..52 give.
pub open spec fn entry_frame(entry: u64) -> Result<u64, FrameError> {
    if entry & 0x1 == 0 {
        Err(FrameError::FrameNotPresent)
    } else if entry & 0x80 != 0 {
        Err(FrameError::HugeFrame)
    } else {
        Ok(entry & 0x000f_ffff_ffff_f000)
    }
}

/// Decodes a page-table entry.
pub fn decode_entry(entry: u64) -> (target: Result<u64, FrameError>)
    ensures
        target == entry_frame(entry),
        target matches Ok(frame) ==> frame <= 0x000f_ffff_ffff_f000 && frame % PAGE_SIZE == 0,
{
    if entry & 0x1 == 0 {
        Err(FrameError::FrameNotPresent)
    } else if entry & 0x80 != 0 {
        Err(FrameError::HugeFrame)
    } else {
        let frame: u64 = entry & 0x000f_ffff_ffff_f000;
        assert(frame <= 0x000f_ffff_ffff_f000 && frame % 4096 == 0) by (bit_vector)
            requires
                frame == entry & 0x000f_ffff_ffff_f000,
        ;
        Ok(frame)
    }
}

/// The entry that a table image holds at a physical address: what was stored
/// there, and an entry that is not present where nothing was.
pub open spec fn table_entry(entries: Map<u64, u64>, address: u64) -> u64 {
    if entries.contains_key(address) {
        entries[address]
    } else {
        0
    }
}

/// The frame that the walk from the table in `frame` arrives at after the
/// tables of `level` down to 1, or why it stops before.
pub open spec fn walk(entries: Map<u64, u64>, frame: u64, addr: u64, level: int) -> Result<
    u64,
    FrameError,
>
    decreases level,
{
    if level <= 0 {
        Ok(frame)
    } else {
        match entry_frame(table_entry(entries, (frame + table_index(addr, level) * 8) as u64)) {
            Ok(next) => walk(entries, next, addr, level - 1),
            Err(error) => Err(error),
        }
    }
}

/// Result of translating a virtual address.
#[derive(Clone, Copy, Debug, PartialEq, Eq, Structural)]
pub enum Translation {
    /// The address is mapped to this physical address.
    Mapped(u64),
    /// An entry on the way is not present.
    NotMapped,
    /// An entry on the way maps a huge page, which the walk does not follow.
    HugePage,
}

/// What `translate_addr` returns: the frame at the end of the walk from the
/// root table, plus the offset of the address in its page.
pub open spec fn translation(entries: Map<u64, u64>, root: u64, addr: u64) -> Translation {
    match walk(entries, aligned_down(root, PAGE_SIZE) as u64, addr, 4) {
        Ok(frame) => Translation::Mapped((frame + (addr & 0xFFF)) as u64),
        Err(FrameError::FrameNotPresent) => Translation::NotMapped,
        Err(FrameError::HugeFrame) => Translation::HugePage,
    }
}

/// Memory as far as it has been read: 64-bit words by their address. The
/// page tables are held like this, as they are seen through the window onto
/// physical memory, and so is the stack. What was not read counts as zero.
pub struct MemoryImage {
    entries: HashMap<u64, u64>,
}

impl View for MemoryImage {
    type V = Map<u64, u64>;

    closed spec fn view(&self) -> Map<u64, u64> {
        self.entries@
    }
}

impl MemoryImage {
    /// An image of which nothing has been read.
    pub fn new() -> (image: Self)
        ensures
            image@ == Map::<u64, u64>::empty(),
    {
        MemoryImage { entries: HashMap::new() }
    }

    /// Stores the word found at an address.
    pub fn store(&mut self, address: u64, entry: u64)
        ensures
            final(self)@ == old(self)@.insert(address, entry),
    {
        self.entries.insert(address, entry);
    }

    /// The word at an address.
    pub fn entry(&self, address: u64) -> (entry: u64)
        ensures
            entry == table_entry(self@, address),
    {
        match self.entries.get(&address) {
            Some(entry) => *entry,
            None => 0,
        }
    }
}

/// Translates a virtual address by walking the four levels of page tables
/// from the table in the frame that holds `level_4_table`. Nothing is
/// changed.
pub fn translate_addr(addr: u64, tables: &MemoryImage, level_4_table: u64) -> (result:
    Translation)
    ensures
        result == translation(tables@, level_4_table, addr),
{
    let table_indexes: [u16; 4] = [p4_index(addr), p3_index(addr), p2_index(addr), p1_index(addr)];
    let mut frame: u64 = page_start(level_4_table);

    let mut i: usize = 0;
    while i < 4
        invariant
            i <= 4,
            frame <= u64::MAX - 4095,
            forall|k: int| 0 <= k < 4 ==> table_indexes[k] == table_index(addr, 4 - k),
            forall|k: int| 0 <= k < 4 ==> table_indexes[k] < 512,
            walk(tables@, frame, addr, 4 - i) == walk(
                tables@,
                aligned_down(level_4_table, PAGE_SIZE) as u64,
                addr,
                4,
            ),
        decreases 4 - i,
    {
        let index: u16 = table_indexes[i];
        let entry: u64 = tables.entry(frame + (index as u64) * 8);
        frame = match decode_entry(entry) {
            Ok(frame) => frame,
            Err(FrameError::FrameNotPresent) => { return Translation::NotMapped; },
            Err(FrameError::HugeFrame) => { return Translation::HugePage; },
        };
        i += 1;
    }

    Translation::Mapped(frame + page_offset(addr) as u64)
}

} // verus!
