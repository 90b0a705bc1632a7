//! Frame allocators: where the physical frames that back page tables and
//! mappings come from.

use crate::memory::addr::{PhysAddr, PhysFrame, PAGE_SIZE};
use crate::memory::memory_map::{
    region_at, region_count, regions, Region, RegionType, FRAME_NUMBER_LIMIT,
};
use bootloader::bootinfo::MemoryMap;
use vstd::prelude::*;

verus! {

/// The start addresses of the frames that one region offers: none unless the
/// region is usable, else one per frame number of the region, ascending.
pub open spec fn region_frames(region: Region) -> Seq<u64> {
    if region.region_type == RegionType::Usable && region.start_frame_number
        < region.end_frame_number {
        Seq::new(
            (region.end_frame_number - region.start_frame_number) as nat,
            |i: int| ((region.start_frame_number + i) * 4096) as u64,
        )
    } else {
        Seq::empty()
    }
}

/// The start addresses of all usable frames of a memory map: the frames of
/// its first region, then those of its second, and so on.
pub open spec fn usable_frames(regions: Seq<Region>) -> Seq<u64>
    decreases regions.len(),
{
    if regions.len() == 0 {
        Seq::empty()
    } else {
        usable_frames(regions.drop_last()) + region_frames(regions.last())
    }
}

/// Whether both bounds of every usable region are frame numbers of physical
/// memory, so that each usable frame has a 52-bit address.
pub open spec fn within_physical_memory(regions: Seq<Region>) -> bool {
    forall|i: int|
        0 <= i < regions.len() && (#[trigger] regions[i]).region_type == RegionType::Usable ==> {
            &&& regions[i].start_frame_number <= FRAME_NUMBER_LIMIT
            &&& regions[i].end_frame_number <= FRAME_NUMBER_LIMIT
        }
}

/// Whether the usable regions follow one another without overlap: the frames
/// of an earlier usable region all lie below those of a later one.
pub open spec fn ascending(regions: Seq<Region>) -> bool {
    forall|i: int, j: int|
        0 <= i < j < regions.len() && region_frames(#[trigger] regions[i]).len() > 0
            && region_frames(#[trigger] regions[j]).len() > 0 ==> regions[i].end_frame_number
            <= regions[j].start_frame_number
}

/// The frame at position `n` of a sequence of frame addresses, if there is
/// one.
pub open spec fn frame_at(frames: Seq<u64>, n: int) -> Option<u64> {
    if 0 <= n < frames.len() {
        Some(frames[n])
    } else {
        None
    }
}

/// The usable frames of the first `n` regions open the usable frames of the
/// whole map.
proof fn lemma_usable_frames_prefix(regions: Seq<Region>, n: int)
    requires
        0 <= n <= regions.len(),
    ensures
        usable_frames(regions.take(n)).len() <= usable_frames(regions).len(),
        usable_frames(regions.take(n)) == usable_frames(regions).take(
            usable_frames(regions.take(n)).len() as int,
        ),
    decreases regions.len(),
{
    if n == regions.len() {
        assert(regions.take(n) == regions);
        assert(usable_frames(regions).take(usable_frames(regions).len() as int) == usable_frames(
            regions,
        ));
    } else {
        let shorter = regions.drop_last();
        assert(shorter.take(n) == regions.take(n));
        lemma_usable_frames_prefix(shorter, n);
        let k: int = usable_frames(regions.take(n)).len() as int;
        assert(usable_frames(regions).take(k) == usable_frames(shorter).take(k));
    }
}

/// Taking one region more appends that region's frames.
proof fn lemma_usable_frames_step(regions: Seq<Region>, n: int)
    requires
        0 <= n < regions.len(),
    ensures
        usable_frames(regions.take(n + 1)) == usable_frames(regions.take(n)) + region_frames(
            regions[n],
        ),
{
    let longer = regions.take(n + 1);
    assert(longer.drop_last() == regions.take(n));
    assert(longer.last() == regions[n]);
}

/// What holds of a whole map holds of the map without its last region.
proof fn lemma_drop_last(regions: Seq<Region>)
    requires
        regions.len() > 0,
    ensures
        within_physical_memory(regions) ==> within_physical_memory(regions.drop_last()),
        ascending(regions) ==> ascending(regions.drop_last()),
{
    let shorter = regions.drop_last();
    assert forall|i: int| 0 <= i < shorter.len() implies #[trigger] shorter[i] == regions[i] by {}
}

/// Every usable frame lies within one of the regions that offer frames.
proof fn lemma_frames_bounded(regions: Seq<Region>, k: int)
    requires
        within_physical_memory(regions),
        0 <= k < usable_frames(regions).len(),
    ensures
        exists|r: int|
            0 <= r < regions.len() && region_frames(#[trigger] regions[r]).len() > 0
                && regions[r].start_frame_number * 4096 <= usable_frames(regions)[k]
                < regions[r].end_frame_number * 4096,
    decreases regions.len(),
{
    let shorter = regions.drop_last();
    let last = regions.last();
    if k < usable_frames(shorter).len() {
        lemma_drop_last(regions);
        lemma_frames_bounded(shorter, k);
        let r = choose|r: int|
            0 <= r < shorter.len() && region_frames(#[trigger] shorter[r]).len() > 0
                && shorter[r].start_frame_number * 4096 <= usable_frames(shorter)[k]
                < shorter[r].end_frame_number * 4096;
        assert(shorter[r] == regions[r]);
    } else {
        let r = regions.len() - 1;
        let i = k - usable_frames(shorter).len();
        assert(regions[r] == last);
        assert(usable_frames(regions)[k] == region_frames(last)[i]);
        assert(last.region_type == RegionType::Usable);
    }
}

/// In a map whose usable regions ascend, the sequence of usable frames
/// ascends strictly.
proof fn lemma_usable_frames_ascend(regions: Seq<Region>, i: int, j: int)
    requires
        within_physical_memory(regions),
        ascending(regions),
        0 <= i < j < usable_frames(regions).len(),
    ensures
        usable_frames(regions)[i] < usable_frames(regions)[j],
    decreases regions.len(),
{
    let shorter = regions.drop_last();
    let last = regions.last();
    let split = usable_frames(shorter).len() as int;
    lemma_drop_last(regions);
    if j < split {
        lemma_usable_frames_ascend(shorter, i, j);
    } else if i >= split {
        assert(usable_frames(regions)[i] == region_frames(last)[i - split]);
        assert(usable_frames(regions)[j] == region_frames(last)[j - split]);
        assert(last.region_type == RegionType::Usable);
    } else {
        lemma_frames_bounded(shorter, i);
        let r = choose|r: int|
            0 <= r < shorter.len() && region_frames(#[trigger] shorter[r]).len() > 0
                && shorter[r].start_frame_number * 4096 <= usable_frames(shorter)[i]
                < shorter[r].end_frame_number * 4096;
        assert(shorter[r] == regions[r]);
        assert(regions[regions.len() - 1] == last);
        assert(usable_frames(regions)[j] == region_frames(last)[j - split]);
        assert(last.region_type == RegionType::Usable);
        assert(regions[r].end_frame_number <= last.start_frame_number);
    }
}

/// Frames are handed out in ascending order: in a map whose usable regions
/// ascend and lie within physical memory, of two allocations that both give
/// a frame the later one gives the frame with the strictly greater address.
/// So no frame is handed out twice.
pub proof fn lemma_allocations_ascend(regions: Seq<Region>, earlier: int, later: int)
    requires
        within_physical_memory(regions),
        ascending(regions),
        earlier < later,
        frame_at(usable_frames(regions), earlier) is Some,
        frame_at(usable_frames(regions), later) is Some,
    ensures
        frame_at(usable_frames(regions), earlier)->0 < frame_at(usable_frames(regions), later)->0,
{
    lemma_usable_frames_ascend(regions, earlier, later);
}

/// An allocation gives a frame exactly as long as frames are left: once one
/// allocation has reported exhaustion, so does every later one.
pub proof fn lemma_exhaustion_lasts(regions: Seq<Region>, earlier: int, later: int)
    requires
        0 <= earlier <= later,
        frame_at(usable_frames(regions), earlier) is None,
    ensures
        frame_at(usable_frames(regions), later) is None,
{
}

/// Every frame that is handed out is a frame of physical memory and starts
/// at a multiple of 4096.
pub proof fn lemma_frames_aligned(regions: Seq<Region>, n: int)
    requires
        within_physical_memory(regions),
        frame_at(usable_frames(regions), n) is Some,
    ensures
        frame_at(usable_frames(regions), n)->0 % 4096 == 0,
        frame_at(usable_frames(regions), n)->0 < 0x10_0000_0000_0000,
    decreases regions.len(),
{
    let shorter = regions.drop_last();
    let last = regions.last();
    if n < usable_frames(shorter).len() {
        lemma_drop_last(regions);
        lemma_frames_aligned(shorter, n);
    } else {
        let i = n - usable_frames(shorter).len();
        assert(regions[regions.len() - 1] == last);
        assert(usable_frames(regions)[n] == region_frames(last)[i]);
        assert(last.region_type == RegionType::Usable);
    }
}

/// A frame allocator without frames: every allocation reports exhaustion.
pub struct EmptyFrameAllocator;

impl EmptyFrameAllocator {
    /// Reports exhaustion.
    pub fn allocate_frame(&mut self) -> (frame: Option<PhysFrame>)
        ensures
            frame is None,
    {
        None
    }
}

/// A frame allocator that hands out the usable frames of the boot loader's
/// memory map, each once, in the order of the map. It never takes a frame
/// back.
pub struct BootInfoFrameAllocator {
    memory_map: &'static MemoryMap,
    next: usize,
}

impl BootInfoFrameAllocator {
    #[verifier::type_invariant]
    spec fn well_formed(self) -> bool {
        within_physical_memory(regions(*self.memory_map))
    }

    /// The regions of the memory map that the allocator draws from.
    pub closed spec fn memory_map(&self) -> Seq<Region> {
        regions(*self.memory_map)
    }

    /// The number of allocations made so far, whether they gave a frame or
    /// not; it stops counting at `usize::MAX`.
    pub closed spec fn cursor(&self) -> nat {
        self.next as nat
    }

    /// The frames that the allocator hands out over its lifetime, by start
    /// address, in the order in which they are handed out.
    pub open spec fn frames(&self) -> Seq<u64> {
        usable_frames(self.memory_map())
    }

    /// An allocator over `memory_map` that has not handed out any frame.
    ///
    /// Every frame of a usable region must lie in physical memory, and the
    /// caller vouches that the frames marked usable are really unused.
    pub fn init(memory_map: &'static MemoryMap) -> (allocator: Self)
        requires
            within_physical_memory(regions(*memory_map)),
        ensures
            allocator.memory_map() == regions(*memory_map),
            allocator.cursor() == 0,
    {
        BootInfoFrameAllocator { memory_map, next: 0 }
    }

    /// As [`init`](Self::init), after looking at the map: `None` for a map
    /// with a usable region that reaches beyond physical memory.
    pub fn try_init(memory_map: &'static MemoryMap) -> (allocator: Option<Self>)
        ensures
            allocator is Some <==> within_physical_memory(regions(*memory_map)),
            allocator matches Some(a) ==> a.memory_map() == regions(*memory_map) && a.cursor()
                == 0,
    {
        let count: usize = region_count(memory_map);
        let mut i: usize = 0;
        while i < count
            invariant
                i <= count,
                count == regions(*memory_map).len(),
                within_physical_memory(regions(*memory_map).take(i as int)),
            decreases count - i,
        {
            let region = region_at(memory_map, i);
            let beyond = region.start_frame_number > FRAME_NUMBER_LIMIT
                || region.end_frame_number > FRAME_NUMBER_LIMIT;
            if region.region_type == RegionType::Usable && beyond {
                return None;
            }
            proof {
                let before = regions(*memory_map).take(i as int);
                let after = regions(*memory_map).take(i + 1);
                assert forall|k: int| 0 <= k < i implies #[trigger] after[k] == before[k] by {}
            }
            i += 1;
        }
        assert(regions(*memory_map).take(count as int) == regions(*memory_map));
        Some(Self::init(memory_map))
    }

    /// The usable frame at position `n` of the sequence of usable frames,
    /// counted from the start of the map; `None` if the map has no more than
    /// `n` usable frames.
    pub fn usable_frame(&self, n: usize) -> (frame: Option<PhysFrame>)
        ensures
            match frame {
                Some(f) => frame_at(self.frames(), n as int) == Some(f@),
                None => frame_at(self.frames(), n as int) is None,
            },
    {
        proof {
            use_type_invariant(self);
        }
        let ghost all = regions(*self.memory_map);
        let count: usize = region_count(self.memory_map);
        let mut remaining: u64 = n as u64;
        let mut i: usize = 0;
        while i < count
            invariant
                i <= count,
                count == all.len(),
                all == regions(*self.memory_map),
                within_physical_memory(all),
                usable_frames(all.take(i as int)).len() + remaining == n,
            decreases count - i,
        {
            let region = region_at(self.memory_map, i);
            proof {
                lemma_usable_frames_step(all, i as int);
                lemma_usable_frames_prefix(all, i + 1);
            }
            if region.region_type == RegionType::Usable && region.start_frame_number
                < region.end_frame_number {
                let len: u64 = region.end_frame_number - region.start_frame_number;
                if remaining < len {
                    let address: u64 = (region.start_frame_number + remaining) * PAGE_SIZE;
                    proof {
                        let upto = usable_frames(all.take(i + 1));
                        assert(upto[n as int] == region_frames(region)[remaining as int]);
                        assert(usable_frames(all)[n as int] == usable_frames(all).take(
                            upto.len() as int,
                        )[n as int]);
                    }
                    return Some(PhysFrame::containing_address(PhysAddr::new(address)));
                }
                remaining -= len;
            }
            i += 1;
        }
        assert(all.take(count as int) == all);
        None
    }

    /// Hands out the next usable frame, or reports exhaustion with `None`.
    ///
    /// The frame is the one at the cursor's position in [`frames`](Self::frames),
    /// and the cursor moves on by one, whether there was a frame or not. A
    /// cursor that has reached `usize::MAX` stays there and gives no frame.
    pub fn allocate_frame(&mut self) -> (frame: Option<PhysFrame>)
        ensures
            final(self).memory_map() == old(self).memory_map(),
            old(self).cursor() < usize::MAX ==> {
                &&& final(self).cursor() == old(self).cursor() + 1
                &&& match frame {
                    Some(f) => frame_at(old(self).frames(), old(self).cursor() as int) == Some(
                        f@,
                    ),
                    None => frame_at(old(self).frames(), old(self).cursor() as int) is None,
                }
            },
            old(self).cursor() == usize::MAX ==> {
                &&& final(self).cursor() == old(self).cursor()
                &&& frame is None
            },
    {
        proof {
            use_type_invariant(&*self);
        }
        if self.next == usize::MAX {
            return None;
        }
        let frame = self.usable_frame(self.next);
        self.next += 1;
        frame
    }
}

} // verus!
