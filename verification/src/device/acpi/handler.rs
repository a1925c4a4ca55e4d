//! Mapping of physical regions into the virtual address space, on demand.
//!
//! The handler chooses the pages and records which page is to be mapped to
//! which frame; the page tables themselves are edited by the platform layer.

use crate::allocator::page::{PageAllocator, PageAllocatorImpl, FIRST_PAGE, LOWER_HALF_END};
use crate::memory::{
    aligned_down, aligned_up, page_size_is_power_of_two, page_start, PAGE_SIZE,
};
use vstd::prelude::*;

verus! {

/// Page-table flag of a mapping that is present.
pub const PRESENT: u64 = 1;

/// Page-table flag of a mapping that may be written through.
pub const WRITABLE: u64 = 1 << 1;

/// Page-table flag of a mapping that is written through the cache.
pub const WRITE_THROUGH: u64 = 1 << 3;

/// Page-table flag of a mapping that is not cached.
pub const NO_CACHE: u64 = 1 << 4;

/// The flags of a mapping of ordinary memory: present and writable.
pub const REGION_FLAGS: u64 = 0x03;

/// The flags of a mapping of device registers: present, writable, and
/// strong uncacheable, which is written through and not cached.
pub const DEVICE_FLAGS: u64 = 0x1B;

/// End of the physical address space: no region may reach beyond it.
pub const PHYSICAL_END: u64 = 0x10_0000_0000_0000;

/// One edit of the page tables that the handler asks for.
#[derive(Clone, Copy, Debug, PartialEq, Eq, Structural)]
pub enum PageRequest {
    /// Map the page at `page` to the frame at `frame` and flush it.
    MapPage { page: u64, frame: u64, flags: u64 },
    /// Unmap the page at `page` and flush it.
    UnmapPage { page: u64 },
}

/// Whether four numbers are the parts of a mapping: whole pages are mapped,
/// below the end of the lower half and of physical memory; the virtual start
/// has the offset in its page that the physical start has; and the mapped
/// pages cover the region from that offset on.
pub open spec fn parts_form_mapping(
    physical_start: u64,
    virtual_start: u64,
    region_length: u64,
    mapped_length: u64,
) -> bool {
    &&& mapped_length % PAGE_SIZE == 0
    &&& virtual_start % PAGE_SIZE == physical_start % PAGE_SIZE
    &&& region_length + physical_start % PAGE_SIZE <= mapped_length
    &&& aligned_down(virtual_start, PAGE_SIZE) + mapped_length <= LOWER_HALF_END
    &&& aligned_down(physical_start, PAGE_SIZE) + mapped_length <= PHYSICAL_END
}

/// A physical region that has been given virtual addresses.
#[derive(Clone, Copy, Debug)]
pub struct PhysicalMapping {
    physical_start: u64,
    virtual_start: u64,
    region_length: u64,
    mapped_length: u64,
}

impl PhysicalMapping {
    /// What holds of every mapping: see `parts_form_mapping`.
    #[verifier::type_invariant]
    pub open spec fn well_formed(self) -> bool {
        parts_form_mapping(
            self.spec_physical_start(),
            self.spec_virtual_start(),
            self.spec_region_length(),
            self.spec_mapped_length(),
        )
    }

    pub closed spec fn spec_physical_start(&self) -> u64 {
        self.physical_start
    }

    pub closed spec fn spec_virtual_start(&self) -> u64 {
        self.virtual_start
    }

    pub closed spec fn spec_region_length(&self) -> u64 {
        self.region_length
    }

    pub closed spec fn spec_mapped_length(&self) -> u64 {
        self.mapped_length
    }

    /// The requests that install the mapping with the given flags: one for
    /// each mapped page, from the page that holds the virtual start and the
    /// frame that holds the physical start on.
    pub open spec fn installing_requests(&self, flags: u64) -> Seq<PageRequest> {
        map_requests(
            aligned_down(self.spec_virtual_start(), PAGE_SIZE) as u64,
            aligned_down(self.spec_physical_start(), PAGE_SIZE) as u64,
            (self.spec_mapped_length() / PAGE_SIZE) as int,
            flags,
        )
    }

    /// The mapping with these parts, if they are the parts of a mapping: see
    /// `well_formed`.
    pub fn from_parts(
        physical_start: u64,
        virtual_start: u64,
        region_length: u64,
        mapped_length: u64,
    ) -> (mapping: Option<Self>)
        ensures
            mapping is Some == parts_form_mapping(
                physical_start,
                virtual_start,
                region_length,
                mapped_length,
            ),
            mapping matches Some(mapping) ==> {
                &&& mapping.physical_start() == physical_start
                &&& mapping.virtual_start() == virtual_start
                &&& mapping.region_length() == region_length
                &&& mapping.mapped_length() == mapped_length
            },
    {
        let offset: u64 = physical_start % PAGE_SIZE;
        if mapped_length % PAGE_SIZE != 0 || virtual_start % PAGE_SIZE != offset {
            return None;
        }
        if region_length > mapped_length || mapped_length - region_length < offset {
            return None;
        }
        if mapped_length > LOWER_HALF_END || virtual_start - offset > LOWER_HALF_END
            - mapped_length {
            return None;
        }
        if mapped_length > PHYSICAL_END || physical_start - offset > PHYSICAL_END - mapped_length {
            return None;
        }
        Some(PhysicalMapping { physical_start, virtual_start, region_length, mapped_length })
    }

    /// Physical address of the first byte of the region.
    #[verifier::when_used_as_spec(spec_physical_start)]
    pub fn physical_start(&self) -> (address: u64)
        ensures
            address == self.spec_physical_start(),
            self.well_formed(),
    {
        proof {
            use_type_invariant(self);
        }
        self.physical_start
    }

    /// Virtual address of the first byte of the region.
    #[verifier::when_used_as_spec(spec_virtual_start)]
    pub fn virtual_start(&self) -> (address: u64)
        ensures
            address == self.spec_virtual_start(),
            self.well_formed(),
    {
        proof {
            use_type_invariant(self);
        }
        self.virtual_start
    }

    /// Number of bytes that were asked for.
    #[verifier::when_used_as_spec(spec_region_length)]
    pub fn region_length(&self) -> (length: u64)
        ensures
            length == self.spec_region_length(),
            self.well_formed(),
    {
        proof {
            use_type_invariant(self);
        }
        self.region_length
    }

    /// Number of bytes that are mapped: a whole number of pages.
    #[verifier::when_used_as_spec(spec_mapped_length)]
    pub fn mapped_length(&self) -> (length: u64)
        ensures
            length == self.spec_mapped_length(),
            self.well_formed(),
    {
        proof {
            use_type_invariant(self);
        }
        self.mapped_length
    }
}

/// The requests that map `count` pages from `page` on to the frames from
/// `frame` on, one after the other.
pub open spec fn map_requests(page: u64, frame: u64, count: int, flags: u64) -> Seq<PageRequest> {
    Seq::new(
        count as nat,
        |i: int|
            PageRequest::MapPage {
                page: (page + i * PAGE_SIZE) as u64,
                frame: (frame + i * PAGE_SIZE) as u64,
                flags,
            },
    )
}

/// The requests that unmap `count` pages, the first being the page that holds
/// `start`.
pub open spec fn unmap_requests(start: u64, count: int) -> Seq<PageRequest> {
    Seq::new(
        count as nat,
        |i: int| PageRequest::UnmapPage { page: (aligned_down(start, PAGE_SIZE) + i * PAGE_SIZE) as u64 },
    )
}

/// Number of pages that a region of `size` bytes at `physical_address`
/// touches.
pub open spec fn page_count(physical_address: u64, size: u64) -> int {
    (aligned_up((physical_address + size) as u64, PAGE_SIZE) - aligned_down(
        physical_address,
        PAGE_SIZE,
    )) / (PAGE_SIZE as int)
}

/// Whether a region can be mapped when the next free page is at `next`: it
/// ends inside physical memory, touches at least one page, and its pages fit
/// below the end of the lower half.
pub open spec fn mappable(next: u64, physical_address: u64, size: u64) -> bool {
    &&& physical_address + size <= PHYSICAL_END - PAGE_SIZE
    &&& 1 <= page_count(physical_address, size) <= usize::MAX
    &&& next + page_count(physical_address, size) * PAGE_SIZE <= LOWER_HALF_END
}

/// Maps physical regions on demand and keeps the list of page-table edits
/// that this takes.
pub struct NoccioloAcpiHandler {
    pages: PageAllocatorImpl,
    requests: Vec<PageRequest>,
}

impl NoccioloAcpiHandler {
    /// Address of the page that the next mapping will start at.
    pub closed spec fn next_page(&self) -> u64 {
        self.pages.next_address()
    }

    /// The page-table edits asked for so far, oldest first.
    pub closed spec fn requests(&self) -> Seq<PageRequest> {
        self.requests@
    }

    /// A handler that has mapped nothing yet.
    pub fn new() -> (handler: Self)
        ensures
            handler.next_page() == FIRST_PAGE,
            handler.requests() == Seq::<PageRequest>::empty(),
    {
        Self { pages: PageAllocatorImpl::new(), requests: Vec::new() }
    }

    /// Whether `map_physical_region` can be called for this region.
    pub fn can_map(&self, physical_address: u64, size: u64) -> (possible: bool)
        ensures
            possible == mappable(self.next_page(), physical_address, size),
    {
        if size > PHYSICAL_END - PAGE_SIZE || physical_address > PHYSICAL_END - PAGE_SIZE - size {
            return false;
        }
        proof {
            page_size_is_power_of_two();
        }
        let start: u64 = page_start(physical_address);
        let end: u64 = x86_64::align_up(physical_address + size, PAGE_SIZE);
        let count: u64 = (end - start) / PAGE_SIZE;
        count >= 1 && count <= usize::MAX as u64 && self.pages.fits(count as usize)
    }

    /// Gives a physical region of ordinary memory virtual addresses:
    /// reserves the pages that it touches and asks for each to be mapped to
    /// its frame, present and writable. The virtual start has the same
    /// offset in its page as the physical address.
    pub fn map_physical_region(&mut self, physical_address: u64, size: u64) -> (region:
        PhysicalMapping)
        requires
            mappable(old(self).next_page(), physical_address, size),
        ensures
            region.well_formed(),
            region.physical_start() == physical_address,
            region.region_length() == size,
            region.mapped_length() == page_count(physical_address, size) * PAGE_SIZE,
            region.virtual_start() == old(self).next_page() + physical_address % PAGE_SIZE,
            final(self).next_page() == old(self).next_page() + region.mapped_length(),
            final(self).requests() == old(self).requests() + region.installing_requests(
                REGION_FLAGS,
            ),
    {
        let flags: u64 = PRESENT | WRITABLE;
        assert(flags == REGION_FLAGS) by (bit_vector)
            requires
                flags == 1u64 | (1u64 << 1),
        ;
        self.map_region(physical_address, size, flags)
    }

    /// Gives a physical region of device registers virtual addresses, as
    /// `map_physical_region` does, but strong uncacheable: every access is
    /// to reach the device.
    pub fn map_device_region(&mut self, physical_address: u64, size: u64) -> (region:
        PhysicalMapping)
        requires
            mappable(old(self).next_page(), physical_address, size),
        ensures
            region.well_formed(),
            region.physical_start() == physical_address,
            region.region_length() == size,
            region.mapped_length() == page_count(physical_address, size) * PAGE_SIZE,
            region.virtual_start() == old(self).next_page() + physical_address % PAGE_SIZE,
            final(self).next_page() == old(self).next_page() + region.mapped_length(),
            final(self).requests() == old(self).requests() + region.installing_requests(
                DEVICE_FLAGS,
            ),
    {
        let flags: u64 = PRESENT | WRITABLE | WRITE_THROUGH | NO_CACHE;
        assert(flags == DEVICE_FLAGS) by (bit_vector)
            requires
                flags == 1u64 | (1u64 << 1) | (1u64 << 3) | (1u64 << 4),
        ;
        self.map_region(physical_address, size, flags)
    }

    fn map_region(&mut self, physical_address: u64, size: u64, flags: u64) -> (region:
        PhysicalMapping)
        requires
            mappable(old(self).next_page(), physical_address, size),
        ensures
            region.well_formed(),
            region.physical_start() == physical_address,
            region.region_length() == size,
            region.mapped_length() == page_count(physical_address, size) * PAGE_SIZE,
            region.virtual_start() == old(self).next_page() + physical_address % PAGE_SIZE,
            final(self).next_page() == old(self).next_page() + region.mapped_length(),
            final(self).requests() == old(self).requests() + region.installing_requests(flags),
    {
        proof {
            page_size_is_power_of_two();
        }
        let start: u64 = page_start(physical_address);
        let end: u64 = x86_64::align_up(physical_address + size, PAGE_SIZE);

        let page_count: usize = ((end - start) / PAGE_SIZE) as usize;
        let virt: u64 = PageAllocator::allocate_n(&mut self.pages, page_count);

        do_map_region(&mut self.requests, start, end, virt, flags);

        let mapped_length: u64 = end - start;

        let virt_offset: u64 = physical_address % PAGE_SIZE;
        let virtual_start: u64 = virt + virt_offset;

        PhysicalMapping {
            physical_start: physical_address,
            virtual_start,
            region_length: size,
            mapped_length,
        }
    }

    /// Asks for every page of a mapping to be unmapped, from the page that
    /// holds its virtual start on.
    pub fn unmap_physical_region(&mut self, region: &PhysicalMapping)
        ensures
            final(self).next_page() == old(self).next_page(),
            final(self).requests() == old(self).requests() + unmap_requests(
                region.virtual_start(),
                (region.mapped_length() / PAGE_SIZE) as int,
            ),
    {
        let mut virt: u64 = region.virtual_start();

        let count: u64 = region.mapped_length() / PAGE_SIZE;
        let mut i: u64 = 0;
        while i < count
            invariant
                region.well_formed(),
                count == region.mapped_length() / PAGE_SIZE,
                i <= count,
                virt == region.virtual_start() + i * PAGE_SIZE,
                virt % PAGE_SIZE == region.virtual_start() % PAGE_SIZE,
                self.pages == old(self).pages,
                self.requests@ == old(self).requests@ + unmap_requests(
                    region.virtual_start(),
                    i as int,
                ),
            decreases count - i,
        {
            let page: u64 = page_start(virt);
            self.requests.push(PageRequest::UnmapPage { page });
            assert(self.requests@ =~= old(self).requests@ + unmap_requests(
                region.virtual_start(),
                i + 1,
            ));
            virt += PAGE_SIZE;
            i += 1;
        }
    }

    /// Hands out the page-table edits asked for so far, oldest first, and
    /// forgets them.
    pub fn take_requests(&mut self) -> (requests: Vec<PageRequest>)
        ensures
            requests@ == old(self).requests(),
            final(self).requests() == Seq::<PageRequest>::empty(),
            final(self).next_page() == old(self).next_page(),
    {
        let mut requests: Vec<PageRequest> = Vec::new();
        std::mem::swap(&mut requests, &mut self.requests);
        requests
    }
}

/// Asks for the frames from `start` up to `end` to be mapped, page by page,
/// from `virt_start` on.
pub fn do_map_region(requests: &mut Vec<PageRequest>, start: u64, end: u64, virt_start: u64, flags: u64)
    requires
        start % PAGE_SIZE == 0,
        end % PAGE_SIZE == 0,
        start <= end,
        virt_start + (end - start) <= u64::MAX,
    ensures
        final(requests)@ == old(requests)@ + map_requests(
            virt_start,
            start,
            (end - start) / PAGE_SIZE as int,
            flags,
        ),
{
    let mut ptr: u64 = start;
    let mut virt: u64 = virt_start;
    let ghost mut done: int = 0;
    while ptr < end
        invariant
            start <= ptr <= end,
            ptr % PAGE_SIZE == 0,
            end % PAGE_SIZE == 0,
            0 <= done,
            ptr == start + done * PAGE_SIZE,
            virt == virt_start + done * PAGE_SIZE,
            virt_start + (end - start) <= u64::MAX,
            requests@ == old(requests)@ + map_requests(virt_start, start, done, flags),
        decreases end - ptr,
    {
        let page: u64 = virt;
        let frame: u64 = page_start(ptr);
        requests.push(PageRequest::MapPage { page, frame, flags });
        assert(requests@ =~= old(requests)@ + map_requests(virt_start, start, done + 1, flags));

        ptr += PAGE_SIZE;
        virt += PAGE_SIZE;
        proof {
            done = done + 1;
        }
    }
}

/// Every byte of a mapped region is reached through its virtual address:
/// the `i`-th byte lies in a page that the mapping asks to be mapped to the
/// frame of the `i`-th physical byte, at the same offset in the page.
pub proof fn region_bytes_are_mapped(region: PhysicalMapping, flags: u64, i: int)
    requires
        region.well_formed(),
        0 <= i < region.region_length(),
    ensures
        ({
            let virt = (region.virtual_start() + i) as u64;
            let phys = (region.physical_start() + i) as u64;
            let k = (region.physical_start() % PAGE_SIZE + i) / (PAGE_SIZE as int);
            &&& virt == region.virtual_start() + i
            &&& phys == region.physical_start() + i
            &&& virt % PAGE_SIZE == phys % PAGE_SIZE
            &&& 0 <= k < region.installing_requests(flags).len()
            &&& region.installing_requests(flags)[k] == PageRequest::MapPage {
                page: aligned_down(virt, PAGE_SIZE) as u64,
                frame: aligned_down(phys, PAGE_SIZE) as u64,
                flags,
            }
        }),
{
}

} // verus!
