use bootloader::bootinfo::{FrameRange, MemoryMap, MemoryRegion, MemoryRegionType};
use kernel_core::memory::paging::{BootInfoFrameAllocator, EmptyFrameAllocator};

fn region(start: u64, end: u64, region_type: MemoryRegionType) -> MemoryRegion {
    MemoryRegion { range: FrameRange::new(start, end), region_type }
}

fn numbered(start_frame_number: u64, end_frame_number: u64) -> MemoryRegion {
    MemoryRegion {
        range: FrameRange { start_frame_number, end_frame_number },
        region_type: MemoryRegionType::Usable,
    }
}

fn memory_map(regions: &[MemoryRegion]) -> &'static MemoryMap {
    let mut map = MemoryMap::new();
    for region in regions {
        map.add_region(*region);
    }
    Box::leak(Box::new(map))
}

fn allocated(allocator: &mut BootInfoFrameAllocator) -> Option<u64> {
    allocator.allocate_frame().map(|frame| frame.start_address().as_u64())
}

#[test]
fn the_empty_allocator_is_always_exhausted() {
    let mut allocator = EmptyFrameAllocator;
    for _ in 0..5 {
        assert_eq!(allocator.allocate_frame(), None);
    }
}

#[test]
fn usable_regions_are_stepped_through_frame_by_frame() {
    let map = memory_map(&[
        region(0, 4096, MemoryRegionType::Usable),
        region(4096, 8192, MemoryRegionType::Reserved),
        region(8192, 16384, MemoryRegionType::Usable),
    ]);
    let mut allocator = BootInfoFrameAllocator::init(map);
    assert_eq!(allocated(&mut allocator), Some(0));
    assert_eq!(allocated(&mut allocator), Some(8192));
    assert_eq!(allocated(&mut allocator), Some(12288));
    assert_eq!(allocated(&mut allocator), None);
    assert_eq!(allocated(&mut allocator), None);
}

#[test]
fn two_single_frame_regions_give_two_frames() {
    let map = memory_map(&[
        region(0, 4096, MemoryRegionType::Usable),
        region(4096, 8192, MemoryRegionType::Reserved),
        region(8192, 12288, MemoryRegionType::Usable),
    ]);
    let mut allocator = BootInfoFrameAllocator::init(map);
    assert_eq!(allocated(&mut allocator), Some(0));
    assert_eq!(allocated(&mut allocator), Some(8192));
    assert_eq!(allocated(&mut allocator), None);
}

#[test]
fn an_empty_map_has_no_frames() {
    let mut allocator = BootInfoFrameAllocator::init(memory_map(&[]));
    assert_eq!(allocated(&mut allocator), None);
    assert_eq!(allocator.usable_frame(0), None);
}

#[test]
fn only_usable_regions_give_frames() {
    let others = [
        MemoryRegionType::InUse,
        MemoryRegionType::Reserved,
        MemoryRegionType::AcpiReclaimable,
        MemoryRegionType::AcpiNvs,
        MemoryRegionType::BadMemory,
        MemoryRegionType::Kernel,
        MemoryRegionType::KernelStack,
        MemoryRegionType::PageTable,
        MemoryRegionType::Bootloader,
        MemoryRegionType::FrameZero,
        MemoryRegionType::Empty,
        MemoryRegionType::BootInfo,
        MemoryRegionType::Package,
    ];
    for region_type in others {
        let map = memory_map(&[
            region(0x1000, 0x3000, region_type),
            region(0x5000, 0x6000, MemoryRegionType::Usable),
        ]);
        let mut allocator = BootInfoFrameAllocator::init(map);
        assert_eq!(allocated(&mut allocator), Some(0x5000));
        assert_eq!(allocated(&mut allocator), None);
    }
}

#[test]
fn frames_come_in_ascending_order_and_never_twice() {
    let map = memory_map(&[
        region(0x1000, 0x4000, MemoryRegionType::Usable),
        region(0x4000, 0x9000, MemoryRegionType::Kernel),
        region(0x9000, 0xc000, MemoryRegionType::Usable),
        region(0x10_0000, 0x10_2000, MemoryRegionType::Usable),
    ]);
    let mut allocator = BootInfoFrameAllocator::init(map);
    let mut frames = Vec::new();
    while let Some(frame) = allocated(&mut allocator) {
        frames.push(frame);
    }
    assert_eq!(
        frames,
        vec![0x1000, 0x2000, 0x3000, 0x9000, 0xa000, 0xb000, 0x10_0000, 0x10_1000]
    );
    for pair in frames.windows(2) {
        assert!(pair[0] < pair[1]);
    }
}

#[test]
fn every_frame_is_page_aligned() {
    let map = memory_map(&[region(0x7000, 0x20000, MemoryRegionType::Usable)]);
    let mut allocator = BootInfoFrameAllocator::init(map);
    let mut count = 0;
    while let Some(frame) = allocated(&mut allocator) {
        assert_eq!(frame % 4096, 0);
        count += 1;
    }
    assert_eq!(count, 25);
}

#[test]
fn frames_follow_the_order_of_the_map() {
    // A map whose regions do not ascend: the frames come in the map's order.
    let mut map = MemoryMap::new();
    map.add_region(numbered(0, 1));
    map.add_region(numbered(2, 3));
    map.swap(0, 1);
    let map: &'static MemoryMap = Box::leak(Box::new(map));
    let mut allocator = BootInfoFrameAllocator::init(map);
    assert_eq!(allocated(&mut allocator), Some(8192));
    assert_eq!(allocated(&mut allocator), Some(0));
    assert_eq!(allocated(&mut allocator), None);
}

#[test]
fn a_region_that_ends_before_it_starts_has_no_frames() {
    let mut map = MemoryMap::new();
    map.add_region(numbered(5, 6));
    map.add_region(numbered(9, 10));
    map[0] = numbered(6, 5);
    let map: &'static MemoryMap = Box::leak(Box::new(map));
    let mut allocator = BootInfoFrameAllocator::init(map);
    assert_eq!(allocated(&mut allocator), Some(9 * 4096));
    assert_eq!(allocated(&mut allocator), None);
}

#[test]
fn usable_frame_counts_from_the_start_of_the_map() {
    let map = memory_map(&[
        region(0, 0x2000, MemoryRegionType::Usable),
        region(0x8000, 0xa000, MemoryRegionType::Usable),
    ]);
    let allocator = BootInfoFrameAllocator::init(map);
    let frames: Vec<Option<u64>> = (0..6)
        .map(|n| allocator.usable_frame(n).map(|frame| frame.start_address().as_u64()))
        .collect();
    assert_eq!(frames, vec![Some(0), Some(0x1000), Some(0x8000), Some(0x9000), None, None]);
    assert_eq!(allocator.usable_frame(usize::MAX), None);
}

#[test]
fn looking_at_a_frame_does_not_allocate_it() {
    let map = memory_map(&[region(0x3000, 0x5000, MemoryRegionType::Usable)]);
    let mut allocator = BootInfoFrameAllocator::init(map);
    assert!(allocator.usable_frame(1).is_some());
    assert_eq!(allocated(&mut allocator), Some(0x3000));
    assert_eq!(allocated(&mut allocator), Some(0x4000));
    assert_eq!(allocated(&mut allocator), None);
}

#[test]
fn the_last_frame_of_physical_memory_can_be_allocated() {
    let last = (1u64 << 40) - 1;
    let map = memory_map(&[numbered(last, last + 1)]);
    let mut allocator = BootInfoFrameAllocator::try_init(map).unwrap();
    assert_eq!(allocated(&mut allocator), Some(last * 4096));
    assert_eq!(allocated(&mut allocator), None);
}

#[test]
fn a_usable_region_beyond_physical_memory_is_refused() {
    let limit = 1u64 << 40;
    assert!(BootInfoFrameAllocator::try_init(memory_map(&[numbered(0, limit + 1)])).is_none());
    assert!(BootInfoFrameAllocator::try_init(memory_map(&[numbered(limit + 1, limit + 2)]))
        .is_none());
    assert!(BootInfoFrameAllocator::try_init(memory_map(&[
        numbered(0, 4),
        numbered(8, u64::MAX),
    ]))
    .is_none());
}

#[test]
fn a_region_beyond_physical_memory_that_is_not_usable_does_no_harm() {
    let limit = 1u64 << 40;
    let reserved = MemoryRegion {
        range: FrameRange { start_frame_number: limit, end_frame_number: limit + 10 },
        region_type: MemoryRegionType::Reserved,
    };
    let map = memory_map(&[numbered(1, 2), reserved]);
    let mut allocator = BootInfoFrameAllocator::try_init(map).unwrap();
    assert_eq!(allocated(&mut allocator), Some(4096));
    assert_eq!(allocated(&mut allocator), None);
}

#[test]
fn try_init_starts_at_the_first_frame() {
    let map = memory_map(&[region(0x2000, 0x4000, MemoryRegionType::Usable)]);
    let mut allocator = BootInfoFrameAllocator::try_init(map).unwrap();
    assert_eq!(allocated(&mut allocator), Some(0x2000));
}

#[test]
fn a_full_map_is_read_to_its_end() {
    let mut regions = Vec::new();
    for n in 0..64u64 {
        let region_type = if n % 2 == 0 {
            MemoryRegionType::Usable
        } else {
            MemoryRegionType::Reserved
        };
        regions.push(region(n * 0x1000, (n + 1) * 0x1000, region_type));
    }
    let mut allocator = BootInfoFrameAllocator::init(memory_map(&regions));
    for n in 0..32u64 {
        assert_eq!(allocated(&mut allocator), Some(2 * n * 0x1000));
    }
    assert_eq!(allocated(&mut allocator), None);
}
