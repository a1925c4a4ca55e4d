//! Allocation of address space and of the memory behind the heap.

pub mod page;

use crate::device::acpi::handler::{PageRequest, REGION_FLAGS};
use crate::memory::{nth_usable_frame, BootInfoFrameAllocator, MemoryRegion, PAGE_SIZE};
use vstd::prelude::*;

verus! {

/// First address of the heap.
pub const HEAP_START: u64 = 0x4444_4444_0000;

/// Size of the heap in bytes: 100 KiB.
pub const HEAP_SIZE: u64 = 100 * 1024;

/// Number of pages of the heap.
pub const HEAP_PAGES: u64 = 25;

/// Why the heap could not be set up.
#[derive(Debug, Clone, Copy, PartialEq, Eq, Structural)]
pub enum HeapError {
    /// The frames ran out before every page of the heap had one.
    FrameAllocationFailed,
}

/// The frame that the allocator hands out at a position of its allocation
/// order, if it hands one out there.
pub open spec fn frame_at(regions: Seq<MemoryRegion>, position: int) -> Option<u64> {
    if position < usize::MAX {
        nth_usable_frame(regions, 0, position)
    } else {
        None
    }
}

/// The request that maps page `i` of the heap to the frame handed out at
/// `position`.
pub open spec fn heap_request(regions: Seq<MemoryRegion>, position: int, i: int) -> PageRequest {
    PageRequest::MapPage {
        page: (HEAP_START + i * PAGE_SIZE) as u64,
        frame: frame_at(regions, position)->0,
        flags: REGION_FLAGS,
    }
}

/// Gives every page of the heap a frame of its own: the pages are mapped to
/// the next frames of the allocator, in order, present and writable. The
/// heap cannot be set up if the frames run out; the frames taken until then
/// stay taken.
pub fn init_heap(frames: &mut BootInfoFrameAllocator) -> (requests: Result<
    Vec<PageRequest>,
    HeapError,
>)
    ensures
        final(frames).regions() == old(frames).regions(),
        requests is Ok == (forall|i: int|
            0 <= i < HEAP_PAGES ==> (#[trigger] frame_at(
                old(frames).regions(),
                old(frames).allocated() + i,
            )) is Some),
        match requests {
            Ok(requests) => {
                &&& final(frames).allocated() == old(frames).allocated() + HEAP_PAGES
                &&& requests@ == Seq::new(
                    HEAP_PAGES as nat,
                    |i: int| heap_request(old(frames).regions(), old(frames).allocated() + i, i),
                )
            },
            Err(error) => {
                &&& error == HeapError::FrameAllocationFailed
                &&& old(frames).allocated() <= final(frames).allocated() < old(frames).allocated()
                    + HEAP_PAGES
                &&& frame_at(old(frames).regions(), final(frames).allocated()) is None
            },
        },
{
    let mut requests: Vec<PageRequest> = Vec::new();
    let mut i: u64 = 0;
    while i < HEAP_PAGES
        invariant
            i <= HEAP_PAGES,
            frames.regions() == old(frames).regions(),
            frames.allocated() == old(frames).allocated() + i,
            forall|k: int|
                0 <= k < i ==> (#[trigger] frame_at(
                    old(frames).regions(),
                    old(frames).allocated() + k,
                )) is Some,
            requests@ == Seq::new(
                i as nat,
                |k: int| heap_request(old(frames).regions(), old(frames).allocated() + k, k),
            ),
        decreases HEAP_PAGES - i,
    {
        let frame: u64 = match frames.allocate_frame() {
            Some(frame) => frame,
            None => {
                return Err(HeapError::FrameAllocationFailed);
            },
        };
        let page: u64 = HEAP_START + i * PAGE_SIZE;
        requests.push(PageRequest::MapPage { page, frame, flags: REGION_FLAGS });
        assert(requests@ =~= Seq::new(
            (i + 1) as nat,
            |k: int| heap_request(old(frames).regions(), old(frames).allocated() + k, k),
        ));
        i += 1;
    }
    Ok(requests)
}

} // verus!
