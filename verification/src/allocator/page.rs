//! Virtual pages for mappings that are made on demand.

use crate::memory::PAGE_SIZE;
use vstd::prelude::*;

verus! {

/// First address that the page allocator hands out.
pub const FIRST_PAGE: u64 = 0x1_000_000_000;

/// End of the lower half of the canonical address space: no page is handed
/// out at or above it.
pub const LOWER_HALF_END: u64 = 0x8000_0000_0000;

/// The canonical address with the low 48 bits of `addr`: bits 48 to 63 repeat
/// bit 47.
pub open spec fn canonical(addr: u64) -> int {
    if (addr / 0x8000_0000_0000) % 2 == 1 {
        addr % 0x1_0000_0000_0000 + 0xFFFF_0000_0000_0000
    } else {
        (addr % 0x1_0000_0000_0000) as int
    }
}

/// `VirtAddr::new_truncate` overwrites bits 48 to 63 with copies of bit 47
/// and keeps the rest; it does not panic.
#[verifier::external_body]
fn truncate_virtual(addr: u64) -> (truncated: u64)
    ensures
        truncated == canonical(addr),
{
    x86_64::VirtAddr::new_truncate(addr).as_u64()
}

/// The canonical address with the low 48 bits of an address.
pub fn canonical_address(addr: u64) -> (address: u64)
    ensures
        address == canonical(addr),
{
    truncate_virtual(addr)
}

/// A bump allocator of virtual pages: each run of pages starts where the
/// last one ended, and nothing is ever taken back.
pub struct PageAllocatorImpl {
    addr: u64,
}

impl PageAllocatorImpl {
    #[verifier::type_invariant]
    spec fn well_formed(self) -> bool {
        FIRST_PAGE <= self.addr <= LOWER_HALF_END && self.addr % PAGE_SIZE == 0
    }

    /// Address of the next page that will be handed out.
    pub closed spec fn next_address(&self) -> u64 {
        self.addr
    }

    /// An allocator that has handed out nothing yet.
    pub fn new() -> (allocator: Self)
        ensures
            allocator.next_address() == FIRST_PAGE,
    {
        Self { addr: canonical_address(FIRST_PAGE) }
    }

    /// The address of the next page: a page boundary between the first page
    /// and the end of the lower half.
    pub fn address(&self) -> (addr: u64)
        ensures
            addr == self.next_address(),
            FIRST_PAGE <= addr <= LOWER_HALF_END,
            addr % PAGE_SIZE == 0,
    {
        proof {
            use_type_invariant(self);
        }
        self.addr
    }

    /// Whether a run of `n` pages still fits below the end of the lower half.
    pub fn fits(&self, n: usize) -> (fits: bool)
        ensures
            fits == (self.next_address() + n * PAGE_SIZE <= LOWER_HALF_END),
    {
        proof {
            use_type_invariant(self);
        }
        let room: u64 = (LOWER_HALF_END - self.addr) / PAGE_SIZE;
        n as u64 <= room
    }
}

/// Entry points of page allocation.
pub struct PageAllocator;

impl PageAllocator {
    /// Hands out one page.
    pub fn allocate(allocator: &mut PageAllocatorImpl) -> (addr: u64)
        requires
            old(allocator).next_address() + PAGE_SIZE <= LOWER_HALF_END,
        ensures
            addr == old(allocator).next_address(),
            final(allocator).next_address() == addr + PAGE_SIZE,
    {
        Self::allocate_n(allocator, 1)
    }

    /// Hands out `n` consecutive pages and returns the address of the first.
    pub fn allocate_n(allocator: &mut PageAllocatorImpl, n: usize) -> (addr: u64)
        requires
            n != 0,
            old(allocator).next_address() + n * PAGE_SIZE <= LOWER_HALF_END,
        ensures
            addr == old(allocator).next_address(),
            final(allocator).next_address() == addr + n * PAGE_SIZE,
            FIRST_PAGE <= addr,
            addr % PAGE_SIZE == 0,
    {
        proof {
            use_type_invariant(&*allocator);
        }
        let size: u64 = n as u64 * 4096;

        let addr: u64 = allocator.addr;
        allocator.addr += size;

        addr
    }
}

} // verus!
