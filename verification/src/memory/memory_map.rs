//! The map of physical memory that the boot loader hands to the kernel.
//!
//! The map itself stays the boot loader's own type. This module says what it
//! holds, as a sequence of [`Region`]s, and reads it one region at a time.

use bootloader::bootinfo::{MemoryMap, MemoryRegionType};
use vstd::prelude::*;

verus! {

/// One past the largest frame number of physical memory: 2^52 bytes of 4 KiB
/// frames.
pub const FRAME_NUMBER_LIMIT: u64 = 0x100_0000_0000;

/// What a region of physical memory is used for.
#[derive(Clone, Copy, Debug, PartialEq, Eq, Structural)]
pub enum RegionType {
    /// Unused memory, free for the kernel.
    Usable,
    /// Memory that is already in use.
    InUse,
    /// Memory reserved by the hardware.
    Reserved,
    /// ACPI reclaimable memory.
    AcpiReclaimable,
    /// ACPI NVS memory.
    AcpiNvs,
    /// Memory known to be bad.
    BadMemory,
    /// Memory that holds the kernel.
    Kernel,
    /// Memory that holds the kernel stack.
    KernelStack,
    /// Memory that holds page tables.
    PageTable,
    /// Memory used by the boot loader.
    Bootloader,
    /// The frame at address zero.
    FrameZero,
    /// A region without frames.
    Empty,
    /// Memory that holds the boot information.
    BootInfo,
    /// Memory that holds the supplied package.
    Package,
    /// A type that this kernel does not know.
    NonExhaustive,
}

/// A region of a memory map: the frames numbered from `start_frame_number`
/// up to, but not including, `end_frame_number`. Frame number `n` is the
/// frame at physical address `n * 4096`.
#[derive(Clone, Copy, Debug, PartialEq, Eq, Structural)]
pub struct Region {
    pub start_frame_number: u64,
    pub end_frame_number: u64,
    pub region_type: RegionType,
}

/// The boot loader's memory map, `bootloader::bootinfo::MemoryMap`. Verus
/// sees nothing inside it.
#[verifier::external_type_specification]
#[verifier::external_body]
pub struct ExMemoryMap(bootloader::bootinfo::MemoryMap);

/// One entry of the boot loader's memory map,
/// `bootloader::bootinfo::MemoryRegion`: the type of the items of the slice
/// that the map dereferences to. Verus sees nothing inside it; [`Region`]
/// holds the same three values.
#[verifier::external_type_specification]
#[verifier::external_body]
pub struct ExMemoryRegion(bootloader::bootinfo::MemoryRegion);

/// The regions that a memory map holds, in the order in which the map
/// presents them as a slice.
pub uninterp spec fn regions(map: MemoryMap) -> Seq<Region>;

/// `<[MemoryRegion]>::len` on the slice that `MemoryMap` dereferences to:
/// the number of regions in the map.
#[verifier::external_body]
pub(crate) fn region_count(map: &MemoryMap) -> (count: usize)
    ensures
        count == regions(*map).len(),
{
    map.len()
}

/// Index `index` of the slice that `MemoryMap` dereferences to, field by
/// field: the two frame numbers of the region's `range`, and its
/// `region_type` variant for variant.
#[verifier::external_body]
pub(crate) fn region_at(map: &MemoryMap, index: usize) -> (region: Region)
    requires
        index < regions(*map).len(),
    ensures
        region == regions(*map)[index as int],
{
    let region = &map[index];
    let region_type = match region.region_type {
        MemoryRegionType::Usable => RegionType::Usable, MemoryRegionType::InUse => RegionType::InUse,
        MemoryRegionType::Reserved => RegionType::Reserved, MemoryRegionType::AcpiReclaimable => RegionType::AcpiReclaimable,
        MemoryRegionType::AcpiNvs => RegionType::AcpiNvs, MemoryRegionType::BadMemory => RegionType::BadMemory,
        MemoryRegionType::Kernel => RegionType::Kernel, MemoryRegionType::KernelStack => RegionType::KernelStack,
        MemoryRegionType::PageTable => RegionType::PageTable, MemoryRegionType::Bootloader => RegionType::Bootloader,
        MemoryRegionType::FrameZero => RegionType::FrameZero, MemoryRegionType::Empty => RegionType::Empty,
        MemoryRegionType::BootInfo => RegionType::BootInfo, MemoryRegionType::Package => RegionType::Package,
        MemoryRegionType::NonExhaustive => RegionType::NonExhaustive,
    };
    let (start_frame_number, end_frame_number): (u64, u64) =
        (region.range.start_frame_number, region.range.end_frame_number);
    Region { start_frame_number, end_frame_number, region_type }
}

} // verus!
