//! AArch64 (64-bit ARM) support.

pub mod boot;
pub mod cpu;
pub mod exception;
pub mod gic;
pub mod memory;
pub mod timer;

use vstd::prelude::*;
use crate::arch::{ArchitectureOps, MemoryManagement};

verus! {

/// A 64-bit virtual address.
#[derive(Debug, Clone, Copy, PartialEq, Eq, Structural)]
pub struct VirtAddr(pub u64);

/// A 64-bit physical address.
#[derive(Debug, Clone, Copy, PartialEq, Eq, Structural)]
pub struct PhysAddr(pub u64);

impl VirtAddr {
    /// Wraps a raw address.
    pub fn new(addr: u64) -> (ret: VirtAddr)
        ensures
            ret.0 == addr,
    {
        VirtAddr(addr)
    }

    /// The raw address.
    pub fn as_u64(&self) -> (ret: u64)
        ensures
            ret == self.0,
    {
        self.0
    }
}

impl PhysAddr {
    /// Wraps a raw address.
    pub fn new(addr: u64) -> (ret: PhysAddr)
        ensures
            ret.0 == addr,
    {
        PhysAddr(addr)
    }

    /// The raw address.
    pub fn as_u64(&self) -> (ret: u64)
        ensures
            ret == self.0,
    {
        self.0
    }
}


/// The 4KB page size.
#[derive(Debug, Clone, Copy)]
pub struct PageSize4K;

/// The AArch64 architecture.
#[derive(Debug, Clone, Copy)]
pub struct AArch64;

/// The GICv3 CPU interface seen through system registers.
pub struct AArch64InterruptController;

/// The generic timer seen through system registers.
pub struct AArch64Timer;

/// A descriptor of the single-level table that `AArch64::map_page` fills.
#[derive(Debug, Clone, Copy)]
pub struct PageTableEntry(u64);

impl View for PageTableEntry {
    type V = u64;

    closed spec fn view(&self) -> u64 {
        self.0
    }
}

impl PageTableEntry {
    pub fn new() -> (ret: Self)
        ensures
            ret@ == 0,
    {
        PageTableEntry(0)
    }

    /// Sets or clears the valid bit.
    pub fn set_present(&mut self, present: bool)
        ensures
            final(self)@ == (if present { old(self)@ | 0x1 } else { old(self)@ & !0x1u64 }),
    {
        if present {
            self.0 |= 0x1;
        } else {
            self.0 &= !0x1;
        }
    }

    /// Clears AP[2] for a writable page, sets it for a read-only one.
    pub fn set_writable(&mut self, writable: bool)
        ensures
            final(self)@ == (if !writable { old(self)@ | 0x80 } else { old(self)@ & !0x80u64 }),
    {
        if !writable {
            self.0 |= 0x80;
        } else {
            self.0 &= !0x80;
        }
    }

    /// Puts the page-aligned part of `addr` above the low 12 bits.
    pub fn set_address(&mut self, addr: PhysAddr)
        ensures
            final(self)@ == (old(self)@ & 0xFFF) | (addr.0 & !0xFFFu64),
    {
        self.0 = (self.0 & 0xFFF) | (addr.0 & !0xFFF);
    }

    /// Marks the descriptor as a table descriptor.
    pub fn set_table(&mut self)
        ensures
            final(self)@ == old(self)@ | 0x3,
    {
        self.0 |= 0x3;
    }

    /// Marks the descriptor as a block descriptor.
    pub fn set_block(&mut self)
        ensures
            final(self)@ == (old(self)@ & !0x3u64) | 0x1,
    {
        self.0 = (self.0 & !0x3) | 0x1;
    }
}

/// A table of 512 descriptors.
pub struct PageTable {
    entries: [PageTableEntry; 512],
}

impl View for PageTable {
    type V = Seq<u64>;

    closed spec fn view(&self) -> Seq<u64> {
        self.entries@.map_values(|e: PageTableEntry| e@)
    }
}

/// The slot of `virt` in a single-level table.
pub open spec fn page_index(virt: u64) -> int {
    ((virt >> 12u64) & 0x1FF) as int
}

/// The descriptor `AArch64::map_page` makes of `old` for `phys`.
pub open spec fn mapped_descriptor(old: u64, phys: u64, flags: u32) -> u64 {
    let a = (old & 0xFFF) | (phys & !0xFFFu64);
    let p = a | 0x1;
    if flags & 0x2 == 0 { p | 0x80 } else { p & !0x80u64 }
}

impl ArchitectureOps for AArch64 {
    type VirtAddr = VirtAddr;
    type PhysAddr = PhysAddr;
    type PageSize = PageSize4K;

    fn get_page_size() -> (ret: PageSize4K) {
        PageSize4K
    }

    /// Translation needs a table walk, which this layer does not do.
    fn virtual_to_physical(virt: VirtAddr) -> (ret: Option<PhysAddr>)
        ensures
            ret is None,
    {
        None
    }
}

impl MemoryManagement for AArch64 {
    type PageTable = PageTable;
    type PageTableEntry = PageTableEntry;

    fn create_page_table() -> (ret: PageTable)
        ensures
            ret@ == Seq::new(512, |i: int| 0u64),
    {
        let ret = PageTable { entries: [PageTableEntry(0); 512] };
        assert(ret@ =~= Seq::new(512, |i: int| 0u64));
        ret
    }

    /// Points the slot of `virt` at `phys`, valid, writable when bit 1 of
    /// `flags` is set.
    fn map_page(page_table: &mut PageTable, virt: VirtAddr, phys: PhysAddr, flags: u32) -> (ret: Result<
        (),
        &'static str,
    >)
        ensures
            ret is Ok,
            final(page_table)@ == old(page_table)@.update(
                page_index(virt.0),
                mapped_descriptor(old(page_table)@[page_index(virt.0)], phys.0, flags),
            ),
    {
        proof {
            crate::bits::lemma_u64_and_le(virt.0 >> 12u64, 0x1FF);
        }
        let page_index = ((virt.0 >> 12) & 0x1FF) as usize;
        let mut entry = page_table.entries[page_index];
        entry.set_address(phys);
        entry.set_present(true);
        entry.set_writable((flags & 0x2) != 0);
        page_table.entries[page_index] = entry;
        assert(page_table@ =~= old(page_table)@.update(
            page_index as int,
            mapped_descriptor(old(page_table)@[page_index as int], phys.0, flags),
        ));
        Ok(())
    }

    /// Clears the valid bit in the slot of `virt`.
    fn unmap_page(page_table: &mut PageTable, virt: VirtAddr) -> (ret: Result<(), &'static str>)
        ensures
            ret is Ok,
            final(page_table)@ == old(page_table)@.update(
                page_index(virt.0),
                old(page_table)@[page_index(virt.0)] & !0x1u64,
            ),
    {
        proof {
            crate::bits::lemma_u64_and_le(virt.0 >> 12u64, 0x1FF);
        }
        let page_index = ((virt.0 >> 12) & 0x1FF) as usize;
        let mut entry = page_table.entries[page_index];
        entry.set_present(false);
        page_table.entries[page_index] = entry;
        assert(page_table@ =~= old(page_table)@.update(
            page_index as int,
            old(page_table)@[page_index as int] & !0x1u64,
        ));
        Ok(())
    }
}

/// The registers saved on exception entry.
pub struct ExceptionFrame {
    pub x0: u64,
    pub x1: u64,
    pub x2: u64,
    pub x3: u64,
    pub x4: u64,
    pub x5: u64,
    pub x6: u64,
    pub x7: u64,
    pub x8: u64,
    pub x9: u64,
    pub x10: u64,
    pub x11: u64,
    pub x12: u64,
    pub x13: u64,
    pub x14: u64,
    pub x15: u64,
    pub x16: u64,
    pub x17: u64,
    pub x18: u64,
    pub x19: u64,
    pub x20: u64,
    pub x21: u64,
    pub x22: u64,
    pub x23: u64,
    pub x24: u64,
    pub x25: u64,
    pub x26: u64,
    pub x27: u64,
    pub x28: u64,
    pub x29: u64,
    pub x30: u64,
    pub sp: u64,
    pub pc: u64,
    pub pstate: u64,
}

impl ExceptionFrame {
    /// A frame with every register zero.
    pub fn new() -> (ret: Self)
        ensures
            ret.x0 == 0,
            ret.x1 == 0,
            ret.x2 == 0,
            ret.x3 == 0,
            ret.x4 == 0,
            ret.x5 == 0,
            ret.x6 == 0,
            ret.x7 == 0,
            ret.x8 == 0,
            ret.x9 == 0,
            ret.x10 == 0,
            ret.x11 == 0,
            ret.x12 == 0,
            ret.x13 == 0,
            ret.x14 == 0,
            ret.x15 == 0,
            ret.x16 == 0,
            ret.x17 == 0,
            ret.x18 == 0,
            ret.x19 == 0,
            ret.x20 == 0,
            ret.x21 == 0,
            ret.x22 == 0,
            ret.x23 == 0,
            ret.x24 == 0,
            ret.x25 == 0,
            ret.x26 == 0,
            ret.x27 == 0,
            ret.x28 == 0,
            ret.x29 == 0,
            ret.x30 == 0,
            ret.sp == 0,
            ret.pc == 0,
            ret.pstate == 0,
    {
        ExceptionFrame { x0: 0, x1: 0, x2: 0, x3: 0, x4: 0, x5: 0, x6: 0, x7: 0, x8: 0, x9: 0, x10: 0, x11: 0, x12: 0, x13: 0, x14: 0, x15: 0, x16: 0, x17: 0, x18: 0, x19: 0, x20: 0, x21: 0, x22: 0, x23: 0, x24: 0, x25: 0, x26: 0, x27: 0, x28: 0, x29: 0, x30: 0, sp: 0, pc: 0, pstate: 0 }
    }
}

} // verus!
