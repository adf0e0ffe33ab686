//! ARM (32-bit) short-descriptor translation tables: 1 MiB sections in the
//! first level, 4 KiB small pages in the second.

use vstd::prelude::*;
use super::PhysAddr;

verus! {

/// `v` with the bits of `mask` set or cleared.
pub open spec fn with_bits(v: u32, mask: u32, on: bool) -> u32 {
    if on { v | mask } else { v & !mask }
}

/// A section or small-page descriptor.
#[derive(Debug, Clone, Copy)]
pub struct PageTableEntry(u32);

impl View for PageTableEntry {
    type V = u32;

    closed spec fn view(&self) -> u32 {
        self.0
    }
}

impl PageTableEntry {
    /// The empty descriptor.
    pub fn new() -> (ret: Self)
        ensures
            ret@ == 0,
    {
        PageTableEntry(0)
    }

    /// A 1 MiB section descriptor for `phys` (type 0b10, AP 0b11, with bit
    /// 10 and 11 set), dropping all other bits.
    pub fn set_section(&mut self, phys: PhysAddr)
        ensures
            final(self)@ == (phys.0 & 0xFFF00000) | 0x2 | 0xC00,
    {
        self.0 = (phys.0 & 0xFFF00000) | 0x2 | 0xC00;
    }

    /// A 4 KiB small-page descriptor for `phys` (type 0b11), dropping all
    /// other bits.
    pub fn set_small_page(&mut self, phys: PhysAddr)
        ensures
            final(self)@ == (phys.0 & 0xFFFFF000) | 0x3,
    {
        self.0 = (phys.0 & 0xFFFFF000) | 0x3;
    }

    /// Sets or clears bit 0.
    pub fn set_present(&mut self, present: bool)
        ensures
            final(self)@ == with_bits(old(self)@, 1, present),
    {
        self.0 = if present {
            self.0 | 1
        } else {
            self.0 & !1u32
        };
    }

    /// Sets the access-permission field, bits 11:10, to the two low bits
    /// of `ap` (0b00 no access, 0b01 kernel read/write, 0b10 user read,
    /// 0b11 user read/write), keeping every other bit.
    pub fn set_access_permission(&mut self, ap: u8)
        ensures
            final(self)@ == (old(self)@ & !0xC00u32) | (((ap as u32) & 3) << 10u32),
            (final(self)@ >> 10u32) & 3 == (ap as u32) & 3,
            final(self)@ & !0xC00u32 == old(self)@ & !0xC00u32,
    {
        let v = (self.0 & !0xC00u32) | (((ap as u32) & 3) << 10);
        let old_v = self.0;
        let a = ap as u32;
        assert(((old_v & !0xC00u32) | ((a & 3) << 10u32)) >> 10u32 & 3 == a & 3
            && ((old_v & !0xC00u32) | ((a & 3) << 10u32)) & !0xC00u32 == old_v & !0xC00u32)
            by (bit_vector);
        self.0 = v;
    }

    /// Sets or clears the C bit (bit 3).
    pub fn set_cacheable(&mut self, cacheable: bool)
        ensures
            final(self)@ == with_bits(old(self)@, 0x8, cacheable),
    {
        self.0 = if cacheable {
            self.0 | 0x8
        } else {
            self.0 & !0x8u32
        };
    }

    /// Sets or clears the B bit (bit 2).
    pub fn set_bufferable(&mut self, bufferable: bool)
        ensures
            final(self)@ == with_bits(old(self)@, 0x4, bufferable),
    {
        self.0 = if bufferable {
            self.0 | 0x4
        } else {
            self.0 & !0x4u32
        };
    }

    /// Clears bits 4 to 7 and puts `domain` from bit 5 on.
    pub fn set_domain(&mut self, domain: u8)
        ensures
            final(self)@ == (old(self)@ & !0xF0u32) | ((domain as u32) << 5u32),
    {
        self.0 = (self.0 & !0xF0u32) | ((domain as u32) << 5);
    }
}

/// The section descriptor `map_section` writes.
pub open spec fn section_descriptor(phys: u32, cacheable: bool) -> u32 {
    let s = (phys & 0xFFF00000) | 0x2 | 0xC00;
    let c = with_bits(s, 0x8, cacheable);
    let b = with_bits(c, 0x4, cacheable);
    (b & !0xF0u32) | ((0xFu8 as u32) << 5u32)
}

/// The small-page descriptor `map_page` writes.
pub open spec fn small_page_descriptor(phys: u32) -> u32 {
    (((phys & 0xFFFFF000) | 0x3) | 0x8) | 0x4
}

/// The first-level table: 4096 entries, one per MiB.
pub struct FirstLevelPageTable {
    entries: [PageTableEntry; 4096],
}

impl View for FirstLevelPageTable {
    type V = Seq<u32>;

    closed spec fn view(&self) -> Seq<u32> {
        self.entries@.map_values(|e: PageTableEntry| e@)
    }
}

impl FirstLevelPageTable {
    /// A table of empty descriptors.
    pub fn new() -> (ret: Self)
        ensures
            ret@ == Seq::new(4096, |i: int| 0u32),
    {
        let ret = FirstLevelPageTable { entries: [PageTableEntry(0); 4096] };
        assert(ret@ =~= Seq::new(4096, |i: int| 0u32));
        ret
    }

    /// The descriptor at `index`.
    pub fn entry(&mut self, index: usize) -> (ret: &mut PageTableEntry)
        requires
            index < 4096,
        ensures
            ret@ == old(self)@[index as int],
            final(self)@ == old(self)@.update(index as int, final(ret)@),
    {
        &mut self.entries[index]
    }

    /// Maps the MiB holding `virt` to the section at `phys`, in domain 15,
    /// cacheable and bufferable as asked.
    pub fn map_section(&mut self, virt: u32, phys: PhysAddr, cacheable: bool)
        ensures
            final(self)@ == old(self)@.update(
                (virt >> 20u32) as int,
                section_descriptor(phys.0, cacheable),
            ),
    {
        let index = (virt >> 20) as usize;
        assert(virt >> 20u32 < 4096) by (bit_vector);
        if index < 4096 {
            let mut entry = self.entries[index];
            entry.set_section(phys);
            entry.set_cacheable(cacheable);
            entry.set_bufferable(cacheable);
            entry.set_domain(0xF);
            self.entries[index] = entry;
            assert(self@ =~= old(self)@.update(index as int, section_descriptor(phys.0, cacheable)));
        }
    }
}

/// A second-level table: 256 entries, one per 4 KiB page.
pub struct SecondLevelPageTable {
    entries: [PageTableEntry; 256],
}

impl View for SecondLevelPageTable {
    type V = Seq<u32>;

    closed spec fn view(&self) -> Seq<u32> {
        self.entries@.map_values(|e: PageTableEntry| e@)
    }
}

impl SecondLevelPageTable {
    /// A table of empty descriptors.
    pub fn new() -> (ret: Self)
        ensures
            ret@ == Seq::new(256, |i: int| 0u32),
    {
        let ret = SecondLevelPageTable { entries: [PageTableEntry(0); 256] };
        assert(ret@ =~= Seq::new(256, |i: int| 0u32));
        ret
    }

    /// The descriptor at `index`.
    pub fn entry(&mut self, index: usize) -> (ret: &mut PageTableEntry)
        requires
            index < 256,
        ensures
            ret@ == old(self)@[index as int],
            final(self)@ == old(self)@.update(index as int, final(ret)@),
    {
        &mut self.entries[index]
    }

    /// Maps the page of `virt` (bits 12 to 19) to `phys`, cacheable and
    /// bufferable.
    pub fn map_page(&mut self, virt: u32, phys: PhysAddr)
        ensures
            final(self)@ == old(self)@.update(
                ((virt >> 12u32) & 0xFF) as int,
                small_page_descriptor(phys.0),
            ),
    {
        proof {
            crate::bits::lemma_u32_and_le(virt >> 12u32, 0xFF);
        }
        let index = ((virt >> 12) & 0xFF) as usize;
        if index < 256 {
            let mut entry = self.entries[index];
            entry.set_small_page(phys);
            entry.set_cacheable(true);
            entry.set_bufferable(true);
            self.entries[index] = entry;
            assert(self@ =~= old(self)@.update(index as int, small_page_descriptor(phys.0)));
        }
    }
}

} // verus!
