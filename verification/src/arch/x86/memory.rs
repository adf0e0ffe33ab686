//! x86 (32-bit) two-level paging: page-directory and page-table entries.

use vstd::prelude::*;
use super::{PhysAddr, VirtAddr};

verus! {

/// `v` with the bits of `mask` set or cleared.
pub open spec fn with_bits(v: u32, mask: u32, on: bool) -> u32 {
    if on { v | mask } else { v & !mask }
}

/// A page-directory entry.
#[derive(Debug, Clone, Copy)]
pub struct PageDirectoryEntry(u32);

impl View for PageDirectoryEntry {
    type V = u32;

    closed spec fn view(&self) -> u32 {
        self.0
    }
}

impl PageDirectoryEntry {
    /// The empty entry.
    pub fn new() -> (ret: Self)
        ensures
            ret@ == 0,
    {
        PageDirectoryEntry(0)
    }

    /// Sets or clears bit 0 (present).
    pub fn set_present(&mut self, present: bool)
        ensures
            final(self)@ == with_bits(old(self)@, 1, present),
    {
        self.0 = if present { self.0 | 1 } else { self.0 & !1u32 };
    }

    /// Sets or clears bit 1 (writable).
    pub fn set_writable(&mut self, writable: bool)
        ensures
            final(self)@ == with_bits(old(self)@, 2, writable),
    {
        self.0 = if writable { self.0 | 2 } else { self.0 & !2u32 };
    }

    /// Sets or clears bit 2 (user accessible).
    pub fn set_user_accessible(&mut self, user: bool)
        ensures
            final(self)@ == with_bits(old(self)@, 4, user),
    {
        self.0 = if user { self.0 | 4 } else { self.0 & !4u32 };
    }

    /// Sets or clears bit 3 (write-through).
    pub fn set_write_through(&mut self, wt: bool)
        ensures
            final(self)@ == with_bits(old(self)@, 8, wt),
    {
        self.0 = if wt { self.0 | 8 } else { self.0 & !8u32 };
    }

    /// Sets or clears bit 4 (cache disabled).
    pub fn set_cache_disabled(&mut self, cd: bool)
        ensures
            final(self)@ == with_bits(old(self)@, 0x10, cd),
    {
        self.0 = if cd { self.0 | 0x10 } else { self.0 & !0x10u32 };
    }

    /// Sets or clears bit 5 (accessed).
    pub fn set_accessed(&mut self, accessed: bool)
        ensures
            final(self)@ == with_bits(old(self)@, 0x20, accessed),
    {
        self.0 = if accessed { self.0 | 0x20 } else { self.0 & !0x20u32 };
    }

    /// Sets or clears bit 6 (dirty).
    pub fn set_dirty(&mut self, dirty: bool)
        ensures
            final(self)@ == with_bits(old(self)@, 0x40, dirty),
    {
        self.0 = if dirty { self.0 | 0x40 } else { self.0 & !0x40u32 };
    }

    /// Sets or clears bit 7 (4 MiB page).
    pub fn set_page_size(&mut self, size_4mb: bool)
        ensures
            final(self)@ == with_bits(old(self)@, 0x80, size_4mb),
    {
        self.0 = if size_4mb { self.0 | 0x80 } else { self.0 & !0x80u32 };
    }

    /// Puts the address in the top 20 bits, keeping the low 12.
    pub fn set_address(&mut self, addr: PhysAddr)
        ensures
            final(self)@ == (old(self)@ & 0xFFF) | (addr.0 & 0xFFFFF000),
    {
        self.0 = (self.0 & 0xFFF) | (addr.0 & 0xFFFFF000);
    }

    /// Bit 0.
    pub fn is_present(&self) -> (ret: bool)
        ensures
            ret == (self@ & 1 != 0),
    {
        (self.0 & 1) != 0
    }

    /// Bit 7.
    pub fn is_4mb(&self) -> (ret: bool)
        ensures
            ret == (self@ & 0x80 != 0),
    {
        (self.0 & 0x80) != 0
    }
}

/// A page-table entry.
#[derive(Debug, Clone, Copy)]
pub struct PageTableEntry(u32);

impl View for PageTableEntry {
    type V = u32;

    closed spec fn view(&self) -> u32 {
        self.0
    }
}

impl PageTableEntry {
    /// The empty entry.
    pub fn new() -> (ret: Self)
        ensures
            ret@ == 0,
    {
        PageTableEntry(0)
    }

    /// Sets or clears bit 0 (present).
    pub fn set_present(&mut self, present: bool)
        ensures
            final(self)@ == with_bits(old(self)@, 1, present),
    {
        self.0 = if present { self.0 | 1 } else { self.0 & !1u32 };
    }

    /// Sets or clears bit 1 (writable).
    pub fn set_writable(&mut self, writable: bool)
        ensures
            final(self)@ == with_bits(old(self)@, 2, writable),
    {
        self.0 = if writable { self.0 | 2 } else { self.0 & !2u32 };
    }

    /// Sets or clears bit 2 (user accessible).
    pub fn set_user_accessible(&mut self, user: bool)
        ensures
            final(self)@ == with_bits(old(self)@, 4, user),
    {
        self.0 = if user { self.0 | 4 } else { self.0 & !4u32 };
    }

    /// Sets or clears bit 3 (write-through).
    pub fn set_write_through(&mut self, wt: bool)
        ensures
            final(self)@ == with_bits(old(self)@, 8, wt),
    {
        self.0 = if wt { self.0 | 8 } else { self.0 & !8u32 };
    }

    /// Sets or clears bit 4 (cache disabled).
    pub fn set_cache_disabled(&mut self, cd: bool)
        ensures
            final(self)@ == with_bits(old(self)@, 0x10, cd),
    {
        self.0 = if cd { self.0 | 0x10 } else { self.0 & !0x10u32 };
    }

    /// Sets or clears bit 5 (accessed).
    pub fn set_accessed(&mut self, accessed: bool)
        ensures
            final(self)@ == with_bits(old(self)@, 0x20, accessed),
    {
        self.0 = if accessed { self.0 | 0x20 } else { self.0 & !0x20u32 };
    }

    /// Sets or clears bit 6 (dirty).
    pub fn set_dirty(&mut self, dirty: bool)
        ensures
            final(self)@ == with_bits(old(self)@, 0x40, dirty),
    {
        self.0 = if dirty { self.0 | 0x40 } else { self.0 & !0x40u32 };
    }

    /// Puts the frame address in the top 20 bits, keeping the low 12.
    pub fn set_address(&mut self, addr: PhysAddr)
        ensures
            final(self)@ == (old(self)@ & 0xFFF) | (addr.0 & 0xFFFFF000),
    {
        self.0 = (self.0 & 0xFFF) | (addr.0 & 0xFFFFF000);
    }

    /// Bit 0.
    pub fn is_present(&self) -> (ret: bool)
        ensures
            ret == (self@ & 1 != 0),
    {
        (self.0 & 1) != 0
    }
}

/// The page directory: 1024 entries, one per 4 MiB.
pub struct PageDirectory {
    entries: [PageDirectoryEntry; 1024],
}

impl View for PageDirectory {
    type V = Seq<u32>;

    closed spec fn view(&self) -> Seq<u32> {
        self.entries@.map_values(|e: PageDirectoryEntry| e@)
    }
}

impl PageDirectory {
    /// The directory has 1024 entries.
    pub proof fn lemma_entries(&self)
        ensures
            self@.len() == 1024,
    {
    }

    /// A directory of empty entries.
    pub fn new() -> (ret: Self)
        ensures
            ret@ == Seq::new(1024, |i: int| 0u32),
    {
        let ret = PageDirectory { entries: [PageDirectoryEntry(0); 1024] };
        assert(ret@ =~= Seq::new(1024, |i: int| 0u32));
        ret
    }

    /// The entry at `index`.
    pub fn entry(&mut self, index: usize) -> (ret: &mut PageDirectoryEntry)
        requires
            index < 1024,
        ensures
            ret@ == old(self)@[index as int],
            final(self)@ == old(self)@.update(index as int, final(ret)@),
    {
        &mut self.entries[index]
    }
}

/// A page table: 1024 entries, one per 4 KiB.
pub struct PageTable {
    entries: [PageTableEntry; 1024],
}

impl View for PageTable {
    type V = Seq<u32>;

    closed spec fn view(&self) -> Seq<u32> {
        self.entries@.map_values(|e: PageTableEntry| e@)
    }
}

impl PageTable {
    /// The table has 1024 entries.
    pub proof fn lemma_entries(&self)
        ensures
            self@.len() == 1024,
    {
    }

    /// A table of empty entries.
    pub fn new() -> (ret: Self)
        ensures
            ret@ == Seq::new(1024, |i: int| 0u32),
    {
        let ret = PageTable { entries: [PageTableEntry(0); 1024] };
        assert(ret@ =~= Seq::new(1024, |i: int| 0u32));
        ret
    }

    /// The entry at `index`.
    pub fn entry(&mut self, index: usize) -> (ret: &mut PageTableEntry)
        requires
            index < 1024,
        ensures
            ret@ == old(self)@[index as int],
            final(self)@ == old(self)@.update(index as int, final(ret)@),
    {
        &mut self.entries[index]
    }
}

/// The directory slot of `virt`: bits 22 to 31.
pub open spec fn directory_index(virt: u32) -> int {
    ((virt >> 22u32) & 0x3FF) as int
}

/// The 4 MiB entry `map_page` writes over `old`.
pub open spec fn large_page_entry(old: u32, phys: u32, writable: bool, user: bool) -> u32 {
    let p = with_bits(old, 1, true);
    let w = with_bits(p, 2, writable);
    let u = with_bits(w, 4, user);
    let s = with_bits(u, 0x80, true);
    (s & 0xFFF) | (phys & 0xFFFFF000)
}

/// Maps the 4 MiB region of `virt` to `phys` as a present large page with
/// the given access, replacing whatever the directory held there.
pub fn map_page(page_dir: &mut PageDirectory, virt: VirtAddr, phys: PhysAddr, writable: bool, user: bool)
    ensures
        0 <= directory_index(virt.0) < 1024,
        final(page_dir)@.len() == 1024,
        final(page_dir)@ == old(page_dir)@.update(
            directory_index(virt.0),
            large_page_entry(old(page_dir)@[directory_index(virt.0)], phys.0, writable, user),
        ),
{
    proof {
        crate::bits::lemma_u32_and_le(virt.0 >> 22u32, 0x3FF);
    }
    let pd_index = (virt.0 >> 22) & 0x3FF;
    let entry = page_dir.entry(pd_index as usize);
    entry.set_present(true);
    entry.set_writable(writable);
    entry.set_user_accessible(user);
    entry.set_page_size(true);
    entry.set_address(phys);
}

} // verus!
