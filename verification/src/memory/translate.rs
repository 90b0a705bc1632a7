//! Translation of virtual addresses by hand: the walk through the four
//! levels of page tables that the processor makes on every access.
//!
//! The walk reads physical memory, which is handed in as a slice of 64-bit
//! words that starts at physical address zero: word `n` holds the eight
//! bytes at physical address `8 * n`. A kernel that has all physical memory
//! mapped at a fixed offset has that slice at the offset.
//!
//! The walk is meant for checking and for diagnosis, not for the path on
//! which mappings are made.

use crate::memory::addr::{
    frame_start_of, is_canonical, is_physical, page_offset_of, table_index_of, PhysAddr,
    PhysFrame, VirtAddr,
};
use vstd::prelude::*;

verus! {

/// The bit of a page-table entry that says that the entry refers to memory.
pub const PRESENT: u64 = 1;

/// The bit of a page-table entry that says that the entry maps a large page
/// instead of referring to the next table.
pub const HUGE_PAGE: u64 = 0x80;

/// The bits of a page-table entry that hold the physical address: bits 12
/// to 51.
pub const ADDRESS_MASK: u64 = 0x000f_ffff_ffff_f000;

/// Why a page-table entry refers to no 4 KiB frame.
#[derive(Clone, Copy, Debug, PartialEq, Eq, Structural)]
pub enum FrameError {
    /// The entry is not present.
    FrameNotPresent,
    /// The entry maps a large page.
    HugeFrame,
}

/// Why a walk came to no answer.
#[derive(Clone, Copy, Debug, PartialEq, Eq, Structural)]
pub enum TranslateError {
    /// An entry on the way maps a large page, which the walk does not
    /// follow.
    HugePage,
    /// A table on the way lies beyond the memory that was handed in.
    OutsideMemory,
}

/// The start of the frame that a page-table entry refers to. A present
/// entry that maps no large page refers to the frame whose address its
/// address bits hold.
pub open spec fn entry_frame(entry: u64) -> Result<u64, FrameError> {
    if entry & PRESENT == 0 {
        Err(FrameError::FrameNotPresent)
    } else if entry & HUGE_PAGE != 0 {
        Err(FrameError::HugeFrame)
    } else {
        Ok(entry & ADDRESS_MASK)
    }
}

/// Entry `index` of the page table in the frame that starts at `table`, or
/// `None` if `memory` ends before it.
pub open spec fn table_entry(memory: Seq<u64>, table: u64, index: u16) -> Option<u64> {
    let word = table / 8 + index;
    if word < memory.len() {
        Some(memory[word])
    } else {
        None
    }
}

/// The walk from the table of the given level in the frame at `table`
/// downwards. Below level 1, `table` is the frame that the address maps to,
/// and the answer is the byte of that frame at the address's page offset.
/// An entry that is not present ends the walk with "not mapped", `Ok(None)`.
pub open spec fn walk(memory: Seq<u64>, table: u64, addr: u64, level: int) -> Result<
    Option<u64>,
    TranslateError,
>
    decreases level,
{
    if level <= 0 {
        Ok(Some((table + page_offset_of(addr)) as u64))
    } else {
        match table_entry(memory, table, table_index_of(addr, level)) {
            None => Err(TranslateError::OutsideMemory),
            Some(entry) => match entry_frame(entry) {
                Err(FrameError::FrameNotPresent) => Ok(None),
                Err(FrameError::HugeFrame) => Err(TranslateError::HugePage),
                Ok(frame) => walk(memory, frame, addr, level - 1),
            },
        }
    }
}

/// The physical address that `addr` is mapped to by the page tables under
/// the level 4 table in the frame at `level_4_table`.
pub open spec fn translation(memory: Seq<u64>, level_4_table: u64, addr: u64) -> Result<
    Option<u64>,
    TranslateError,
> {
    walk(memory, level_4_table, addr, 4)
}

/// The address bits of an entry are the start of a frame of physical
/// memory.
pub proof fn lemma_entry_address(entry: u64)
    ensures
        is_physical(entry & ADDRESS_MASK),
        (entry & ADDRESS_MASK) % 4096 == 0,
        (entry & ADDRESS_MASK) + 4096 <= 0x10_0000_0000_0000,
{
    assert(entry & 0x000f_ffff_ffff_f000 < 0x10_0000_0000_0000) by (bit_vector);
    assert((entry & 0x000f_ffff_ffff_f000) % 4096 == 0) by (bit_vector);
    assert((entry & 0x000f_ffff_ffff_f000) <= 0x10_0000_0000_0000 - 4096) by (bit_vector);
}

/// The frame that a page-table entry refers to, or why it refers to none:
/// "not present" comes before "large page".
pub fn frame_of_entry(entry: u64) -> (frame: Result<PhysFrame, FrameError>)
    ensures
        frame matches Ok(f) ==> entry_frame(entry) == Ok::<u64, FrameError>(f@),
        frame matches Err(e) ==> entry_frame(entry) == Err::<u64, FrameError>(e),
{
    if entry & PRESENT == 0 {
        Err(FrameError::FrameNotPresent)
    } else if entry & HUGE_PAGE != 0 {
        Err(FrameError::HugeFrame)
    } else {
        proof {
            lemma_entry_address(entry);
        }
        Ok(PhysFrame::containing_address(PhysAddr::new(entry & ADDRESS_MASK)))
    }
}

/// Translates `addr` by walking the page tables in `memory` from the level
/// 4 table in `level_4_table_frame`: `Ok(Some(..))` with the physical
/// address that `addr` is mapped to, `Ok(None)` if it is not mapped, an
/// error if the walk meets a large page or leaves `memory`.
///
/// A physical address that comes out has the page offset of `addr`.
pub fn try_translate_addr(
    addr: VirtAddr,
    level_4_table_frame: PhysFrame,
    memory: &[u64],
) -> (result: Result<Option<PhysAddr>, TranslateError>)
    ensures
        match result {
            Ok(Some(physical)) => translation(memory@, level_4_table_frame@, addr@) == Ok::<
                Option<u64>,
                TranslateError,
            >(Some(physical@)) && physical@ % 4096 == addr@ % 4096,
            Ok(None) => translation(memory@, level_4_table_frame@, addr@) == Ok::<
                Option<u64>,
                TranslateError,
            >(None),
            Err(e) => translation(memory@, level_4_table_frame@, addr@) == Err::<
                Option<u64>,
                TranslateError,
            >(e),
        },
{
    let table_indexes: [u16; 4] = [
        addr.p4_index(),
        addr.p3_index(),
        addr.p2_index(),
        addr.p1_index(),
    ];
    let mut frame = level_4_table_frame;
    let mut i: usize = 0;
    while i < 4
        invariant
            i <= 4,
            table_indexes@.len() == 4,
            forall|k: int| 0 <= k < 4 ==> table_indexes@[k] == table_index_of(addr@, 4 - k),
            translation(memory@, level_4_table_frame@, addr@) == walk(
                memory@,
                frame@,
                addr@,
                4 - i,
            ),
        decreases 4 - i,
    {
        let index: u16 = table_indexes[i];
        let word: u64 = frame.start_address().as_u64() / 8 + index as u64;
        if word >= memory.len() as u64 {
            return Err(TranslateError::OutsideMemory);
        }
        let entry: u64 = memory[word as usize];
        frame = match frame_of_entry(entry) {
            Ok(frame) => frame,
            Err(FrameError::FrameNotPresent) => return Ok(None),
            Err(FrameError::HugeFrame) => return Err(TranslateError::HugePage),
        };
        i += 1;
    }
    let start: u64 = frame.start_address().as_u64();
    let offset: u16 = addr.page_offset();
    Ok(Some(PhysAddr::new(start + offset as u64)))
}

/// Translates `addr` to the physical address that it is mapped to, or
/// `None` if it is not mapped.
///
/// The walk does not follow large pages and reads page tables from `memory`
/// alone: the caller sees to it that it meets neither a large page nor a
/// table beyond `memory`. [`try_translate_addr`] asks for nothing and
/// reports both.
pub fn translate_addr(
    addr: VirtAddr,
    level_4_table_frame: PhysFrame,
    memory: &[u64],
) -> (physical: Option<PhysAddr>)
    requires
        translation(memory@, level_4_table_frame@, addr@) is Ok,
    ensures
        match physical {
            Some(p) => translation(memory@, level_4_table_frame@, addr@) == Ok::<
                Option<u64>,
                TranslateError,
            >(Some(p@)),
            None => translation(memory@, level_4_table_frame@, addr@) == Ok::<
                Option<u64>,
                TranslateError,
            >(None),
        },
{
    match try_translate_addr(addr, level_4_table_frame, memory) {
        Ok(physical) => physical,
        Err(_) => None,
    }
}

/// The virtual address at which the page table in `table` is found when all
/// physical memory is mapped at `physical_memory_offset`: the offset plus
/// the frame's start. `None` if that sum leaves 64 bits or is not a
/// canonical address.
pub fn table_address(physical_memory_offset: VirtAddr, table: PhysFrame) -> (address: Option<
    VirtAddr,
>)
    ensures
        address is Some <==> physical_memory_offset@ + table@ <= u64::MAX && is_canonical(
            (physical_memory_offset@ + table@) as u64,
        ),
        address matches Some(a) ==> a@ == physical_memory_offset@ + table@,
{
    physical_memory_offset.checked_add(table.start_address().as_u64())
}

/// An address is not mapped as soon as one entry on its way is not present.
/// With `e4` the entry that the address selects in the level 4 table, `e3`
/// the one it selects in the table that `e4` refers to, and so on, as far
/// down as `level`: if the entries above `level` are present and no large
/// pages, and the entry of `level` is not present, the translation is
/// "not mapped". The entries below `level` do not matter.
pub proof fn lemma_not_mapped(
    memory: Seq<u64>,
    level_4_table: u64,
    addr: u64,
    level: int,
    e4: u64,
    e3: u64,
    e2: u64,
    e1: u64,
)
    requires
        1 <= level <= 4,
        table_entry(memory, level_4_table, table_index_of(addr, 4)) == Some(e4),
        level < 4 ==> entry_frame(e4) is Ok && table_entry(
            memory,
            entry_frame(e4)->Ok_0,
            table_index_of(addr, 3),
        ) == Some(e3),
        level < 3 ==> entry_frame(e3) is Ok && table_entry(
            memory,
            entry_frame(e3)->Ok_0,
            table_index_of(addr, 2),
        ) == Some(e2),
        level < 2 ==> entry_frame(e2) is Ok && table_entry(
            memory,
            entry_frame(e2)->Ok_0,
            table_index_of(addr, 1),
        ) == Some(e1),
        (if level == 4 {
            e4
        } else if level == 3 {
            e3
        } else if level == 2 {
            e2
        } else {
            e1
        }) & PRESENT == 0,
    ensures
        translation(memory, level_4_table, addr) == Ok::<Option<u64>, TranslateError>(None),
{
    reveal_with_fuel(walk, 5);
}

/// The translation of a mapped address, written out level by level: with
/// `e4` the entry that the address selects in the level 4 table, `e3` the
/// one it selects in the table that `e4` refers to, and so on down to `e1`,
/// all four present and none a large page, the address is mapped to the
/// frame that `e1` refers to, at the page offset of the address.
pub proof fn lemma_mapped(
    memory: Seq<u64>,
    level_4_table: u64,
    addr: u64,
    e4: u64,
    e3: u64,
    e2: u64,
    e1: u64,
)
    requires
        table_entry(memory, level_4_table, table_index_of(addr, 4)) == Some(e4),
        entry_frame(e4) is Ok,
        table_entry(memory, entry_frame(e4)->Ok_0, table_index_of(addr, 3)) == Some(e3),
        entry_frame(e3) is Ok,
        table_entry(memory, entry_frame(e3)->Ok_0, table_index_of(addr, 2)) == Some(e2),
        entry_frame(e2) is Ok,
        table_entry(memory, entry_frame(e2)->Ok_0, table_index_of(addr, 1)) == Some(e1),
        entry_frame(e1) is Ok,
    ensures
        translation(memory, level_4_table, addr) == Ok::<Option<u64>, TranslateError>(
            Some(((e1 & ADDRESS_MASK) + addr % 4096) as u64),
        ),
        (e1 & ADDRESS_MASK) + addr % 4096 < 0x10_0000_0000_0000,
        ((e1 & ADDRESS_MASK) + addr % 4096) % 4096 == addr % 4096,
        frame_start_of(((e1 & ADDRESS_MASK) + addr % 4096) as u64) == e1 & ADDRESS_MASK,
{
    reveal_with_fuel(walk, 5);
    lemma_entry_address(e1);
}

} // verus!
