//! Virtual addresses, physical addresses and 4 KiB physical frames.

use vstd::prelude::*;

verus! {

/// Number of bytes in a page and in a physical frame.
pub const PAGE_SIZE: u64 = 4096;

/// One past the largest physical address: physical addresses have 52 bits.
pub const PHYSICAL_ADDRESS_LIMIT: u64 = 0x10_0000_0000_0000;

/// Whether bits 48 to 63 of `addr` are copies of bit 47.
pub open spec fn is_canonical(addr: u64) -> bool {
    addr < 0x0000_8000_0000_0000 || addr >= 0xffff_8000_0000_0000
}

/// Whether bits 52 to 63 of `addr` are clear.
pub open spec fn is_physical(addr: u64) -> bool {
    addr < PHYSICAL_ADDRESS_LIMIT
}

/// The offset of `addr` within its page: its low 12 bits.
pub open spec fn page_offset_of(addr: u64) -> u16 {
    (addr % 4096) as u16
}

/// The index that `addr` selects in the page table of the given level
/// (4 for the top-level table, 1 for the table that holds the frame):
/// nine bits, starting at bit 12 for level 1.
pub open spec fn table_index_of(addr: u64, level: int) -> u16 {
    if level == 4 {
        ((addr / 0x80_0000_0000) % 512) as u16
    } else if level == 3 {
        ((addr / 0x4000_0000) % 512) as u16
    } else if level == 2 {
        ((addr / 0x20_0000) % 512) as u16
    } else {
        ((addr / 0x1000) % 512) as u16
    }
}

/// The start of the 4 KiB frame that contains `addr`.
pub open spec fn frame_start_of(addr: u64) -> u64 {
    (addr - addr % 4096) as u64
}

/// A canonical 64-bit virtual address.
#[derive(Clone, Copy, Debug, PartialEq, Eq, Structural)]
pub struct VirtAddr {
    addr: u64,
}

impl View for VirtAddr {
    type V = u64;

    closed spec fn view(&self) -> u64 {
        self.addr
    }
}

impl VirtAddr {
    #[verifier::type_invariant]
    spec fn canonical(self) -> bool {
        is_canonical(self.addr)
    }

    /// The virtual address `addr`, which must be canonical.
    pub fn new(addr: u64) -> (v: VirtAddr)
        requires
            is_canonical(addr),
        ensures
            v@ == addr,
    {
        VirtAddr { addr }
    }

    /// The virtual address `addr` if it is canonical, `None` if it is not.
    pub fn try_new(addr: u64) -> (v: Option<VirtAddr>)
        ensures
            is_canonical(addr) ==> v is Some && v->0@ == addr,
            !is_canonical(addr) ==> v is None,
    {
        if addr < 0x0000_8000_0000_0000 || addr >= 0xffff_8000_0000_0000 {
            Some(VirtAddr { addr })
        } else {
            None
        }
    }

    /// The address as an integer; it is canonical.
    pub fn as_u64(self) -> (addr: u64)
        ensures
            addr == self@,
            is_canonical(addr),
    {
        proof {
            use_type_invariant(&self);
        }
        self.addr
    }

    /// The 12-bit offset of the address within its page.
    pub fn page_offset(self) -> (offset: u16)
        ensures
            offset == page_offset_of(self@),
            offset < 4096,
    {
        let addr: u64 = self.addr;
        assert(addr & 0xfff == addr % 4096) by (bit_vector);
        (addr & 0xfff) as u16
    }

    /// The 9-bit index into the level 1 page table.
    pub fn p1_index(self) -> (index: u16)
        ensures
            index == table_index_of(self@, 1),
            index < 512,
    {
        let addr: u64 = self.addr;
        assert((addr >> 12) & 0x1ff == (addr / 0x1000) % 512) by (bit_vector);
        ((addr >> 12) & 0x1ff) as u16
    }

    /// The 9-bit index into the level 2 page table.
    pub fn p2_index(self) -> (index: u16)
        ensures
            index == table_index_of(self@, 2),
            index < 512,
    {
        let addr: u64 = self.addr;
        assert((addr >> 21) & 0x1ff == (addr / 0x20_0000) % 512) by (bit_vector);
        ((addr >> 21) & 0x1ff) as u16
    }

    /// The 9-bit index into the level 3 page table.
    pub fn p3_index(self) -> (index: u16)
        ensures
            index == table_index_of(self@, 3),
            index < 512,
    {
        let addr: u64 = self.addr;
        assert((addr >> 30) & 0x1ff == (addr / 0x4000_0000) % 512) by (bit_vector);
        ((addr >> 30) & 0x1ff) as u16
    }

    /// The 9-bit index into the level 4 page table.
    pub fn p4_index(self) -> (index: u16)
        ensures
            index == table_index_of(self@, 4),
            index < 512,
    {
        let addr: u64 = self.addr;
        assert((addr >> 39) & 0x1ff == (addr / 0x80_0000_0000) % 512) by (bit_vector);
        ((addr >> 39) & 0x1ff) as u16
    }

    /// The address `rhs` bytes further on, by plain addition: `None` where
    /// the sum leaves 64 bits or is not canonical. The gap between the two
    /// halves of the address space is not jumped.
    pub fn checked_add(self, rhs: u64) -> (sum: Option<VirtAddr>)
        ensures
            self@ + rhs <= u64::MAX && is_canonical((self@ + rhs) as u64) ==> sum is Some
                && sum->0@ == self@ + rhs,
            !(self@ + rhs <= u64::MAX && is_canonical((self@ + rhs) as u64)) ==> sum is None,
    {
        match self.addr.checked_add(rhs) {
            Some(addr) => VirtAddr::try_new(addr),
            None => None,
        }
    }
}

/// A 52-bit physical address.
#[derive(Clone, Copy, Debug, PartialEq, Eq, Structural)]
pub struct PhysAddr {
    addr: u64,
}

impl View for PhysAddr {
    type V = u64;

    closed spec fn view(&self) -> u64 {
        self.addr
    }
}

impl PhysAddr {
    #[verifier::type_invariant]
    spec fn physical(self) -> bool {
        is_physical(self.addr)
    }

    /// The physical address `addr`, which must fit in 52 bits.
    pub fn new(addr: u64) -> (p: PhysAddr)
        requires
            is_physical(addr),
        ensures
            p@ == addr,
    {
        PhysAddr { addr }
    }

    /// The physical address `addr` if it fits in 52 bits, `None` if not.
    pub fn try_new(addr: u64) -> (p: Option<PhysAddr>)
        ensures
            is_physical(addr) ==> p is Some && p->0@ == addr,
            !is_physical(addr) ==> p is None,
    {
        if addr < PHYSICAL_ADDRESS_LIMIT {
            Some(PhysAddr { addr })
        } else {
            None
        }
    }

    /// The address as an integer; it fits in 52 bits.
    pub fn as_u64(self) -> (addr: u64)
        ensures
            addr == self@,
            is_physical(addr),
    {
        proof {
            use_type_invariant(&self);
        }
        self.addr
    }
}

/// A 4 KiB frame of physical memory, known by the address of its first byte.
#[derive(Clone, Copy, Debug, PartialEq, Eq, Structural)]
pub struct PhysFrame {
    start: u64,
}

impl View for PhysFrame {
    type V = u64;

    /// The address of the frame's first byte.
    closed spec fn view(&self) -> u64 {
        self.start
    }
}

impl PhysFrame {
    #[verifier::type_invariant]
    spec fn aligned(self) -> bool {
        is_physical(self.start) && self.start % 4096 == 0
    }

    /// The frame that contains `address`.
    pub fn containing_address(address: PhysAddr) -> (frame: PhysFrame)
        ensures
            frame@ == frame_start_of(address@),
    {
        let addr: u64 = address.as_u64();
        assert(addr & !0xfffu64 == addr - addr % 4096) by (bit_vector);
        PhysFrame { start: addr & !0xfffu64 }
    }

    /// The address of the frame's first byte: a multiple of 4096.
    pub fn start_address(self) -> (address: PhysAddr)
        ensures
            address@ == self@,
            address@ % 4096 == 0,
    {
        proof {
            use_type_invariant(&self);
        }
        PhysAddr { addr: self.start }
    }
}

} // verus!
