//! ARM (32-bit): addresses, the single-level table used by the generic
//! memory interface, and the register writes of the interrupt controller.

pub mod interrupts;
pub mod memory;
pub mod timer;

use vstd::prelude::*;
use crate::arch::{ArchitectureOps, MemoryManagement};

verus! {

/// A virtual address.
#[derive(Debug, Clone, Copy)]
pub struct VirtAddr(pub u32);

/// A physical address.
#[derive(Debug, Clone, Copy)]
pub struct PhysAddr(pub u32);

/// The 4 KiB page size.
#[derive(Debug, Clone, Copy)]
pub struct PageSize4K;

/// The ARM architecture.
#[derive(Debug, Clone, Copy)]
pub struct ARM;

/// The interrupt controller (a GIC at a fixed address).
pub struct ARMInterruptController;

/// The system timer.
pub struct ARMTimer;

/// A 32-bit write to a device register.
#[derive(Debug, Clone, Copy, PartialEq, Eq, Structural)]
pub struct MmioWrite32 {
    pub addr: u32,
    pub value: u32,
}

/// The distributor of the interrupt controller.
pub const GICD_BASE: u32 = 0x1000_1000;

/// The CPU interface of the interrupt controller.
pub const GICC_BASE: u32 = 0x1000_2000;

impl ARMInterruptController {
    /// The writes that start the controller: distributor on, CPU
    /// interface on, priority mask 0xF0.
    pub fn init_writes() -> (ret: Vec<MmioWrite32>)
        ensures
            ret@ == seq![
                MmioWrite32 { addr: GICD_BASE, value: 1 },
                MmioWrite32 { addr: GICC_BASE, value: 1 },
                MmioWrite32 { addr: (GICC_BASE + 4) as u32, value: 0xF0 },
            ],
    {
        let mut writes: Vec<MmioWrite32> = Vec::new();
        writes.push(MmioWrite32 { addr: GICD_BASE, value: 1 });
        writes.push(MmioWrite32 { addr: GICC_BASE, value: 1 });
        writes.push(MmioWrite32 { addr: GICC_BASE + 4, value: 0xF0 });
        writes
    }

    /// The set-enable register of `irq`.
    pub fn enable_register(irq: u8) -> (ret: u32)
        ensures
            ret == GICD_BASE + 0x100 + (irq / 32) * 4,
    {
        GICD_BASE + 0x100 + (irq as u32 / 32) * 4
    }

    /// The set-enable register's new value, from its `current` value, with
    /// the bit of `irq` set.
    pub fn enable_value(irq: u8, current: u32) -> (ret: u32)
        ensures
            ret == current | (1u32 << (irq % 32) as u32),
    {
        current | (1u32 << (irq % 32) as u32)
    }

    /// The write that disables `irq`: its bit in the clear-enable register.
    pub fn disable_write(irq: u8) -> (ret: MmioWrite32)
        ensures
            ret.addr == GICD_BASE + 0x180 + (irq / 32) * 4,
            ret.value == 1u32 << (irq % 32) as u32,
    {
        MmioWrite32 { addr: GICD_BASE + 0x180 + (irq as u32 / 32) * 4, value: 1u32 << (irq % 32) as u32 }
    }

    /// The write that ends `irq`: its number to the end-of-interrupt
    /// register.
    pub fn end_of_interrupt_write(irq: u8) -> (ret: MmioWrite32)
        ensures
            ret.addr == GICC_BASE + 0x10,
            ret.value == irq as u32,
    {
        MmioWrite32 { addr: GICC_BASE + 0x10, value: irq as u32 }
    }
}

impl ARMTimer {
    /// The tick count at which a sleep of `ms` milliseconds from
    /// `start_ticks` ends, at one tick per microsecond.
    pub fn sleep_deadline(start_ticks: u64, ms: u32) -> (ret: u64)
        requires
            start_ticks + ms * 1000 <= u64::MAX,
        ensures
            ret == start_ticks + ms * 1000,
    {
        start_ticks + ms as u64 * 1000
    }
}

/// A descriptor of the single-level table.
#[derive(Debug, Clone, Copy)]
pub struct PageTableEntry(u32);

impl View for PageTableEntry {
    type V = u32;

    closed spec fn view(&self) -> u32 {
        self.0
    }
}

impl PageTableEntry {
    /// The empty descriptor.
    pub fn new() -> (ret: Self)
        ensures
            ret@ == 0,
    {
        PageTableEntry(0)
    }

    /// Marks it a small page, or clears its type bits.
    pub fn set_present(&mut self, present: bool)
        ensures
            present ==> final(self)@ == old(self)@ | 0x2,
            !present ==> final(self)@ == old(self)@ & !0x3u32,
    {
        if present {
            self.0 = self.0 | 0x2;
        } else {
            self.0 = self.0 & !0x3u32;
        }
    }

    /// Read-only sets AP[2] (bit 9); writable clears it.
    pub fn set_writable(&mut self, writable: bool)
        ensures
            !writable ==> final(self)@ == old(self)@ | 0x200,
            writable ==> final(self)@ == old(self)@ & !0x200u32,
    {
        if !writable {
            self.0 = self.0 | 0x200;
        } else {
            self.0 = self.0 & !0x200u32;
        }
    }

    /// Puts the page address in the top 20 bits, keeping the low 12.
    pub fn set_address(&mut self, addr: PhysAddr)
        ensures
            final(self)@ == (old(self)@ & 0xFFF) | (addr.0 & !0xFFFu32),
    {
        self.0 = (self.0 & 0xFFF) | (addr.0 & !0xFFFu32);
    }
}

/// A table of 4096 descriptors.
pub struct PageTable {
    entries: [PageTableEntry; 4096],
}

impl View for PageTable {
    type V = Seq<u32>;

    closed spec fn view(&self) -> Seq<u32> {
        self.entries@.map_values(|e: PageTableEntry| e@)
    }
}

/// The slot of `virt`: bits 12 to 23.
pub open spec fn page_index(virt: u32) -> int {
    ((virt >> 12u32) & 0xFFF) as int
}

/// The descriptor `map_page` makes of `old` for `phys`.
pub open spec fn mapped_descriptor(old: u32, phys: u32, flags: u32) -> u32 {
    let a = (old & 0xFFF) | (phys & !0xFFFu32);
    let p = a | 0x2;
    if flags & 0x2 != 0 { p & !0x200u32 } else { p | 0x200 }
}

impl ArchitectureOps for ARM {
    type VirtAddr = VirtAddr;
    type PhysAddr = PhysAddr;
    type PageSize = PageSize4K;

    fn get_page_size() -> (ret: PageSize4K) {
        PageSize4K
    }

    /// Translation needs a table walk, which this layer does not do.
    fn virtual_to_physical(virt: VirtAddr) -> (ret: Option<PhysAddr>)
        ensures
            ret is None,
    {
        None
    }
}

impl MemoryManagement for ARM {
    type PageTable = PageTable;
    type PageTableEntry = PageTableEntry;

    fn create_page_table() -> (ret: PageTable)
        ensures
            ret@ == Seq::new(4096, |i: int| 0u32),
    {
        let ret = PageTable { entries: [PageTableEntry(0); 4096] };
        assert(ret@ =~= Seq::new(4096, |i: int| 0u32));
        ret
    }

    /// Points the slot of `virt` at `phys`, as a small page, read-only
    /// unless bit 1 of `flags` is set.
    fn map_page(page_table: &mut PageTable, virt: VirtAddr, phys: PhysAddr, flags: u32) -> (ret: Result<
        (),
        &'static str,
    >)
        ensures
            ret is Ok,
            final(page_table)@ == old(page_table)@.update(
                page_index(virt.0),
                mapped_descriptor(old(page_table)@[page_index(virt.0)], phys.0, flags),
            ),
    {
        proof {
            crate::bits::lemma_u32_and_le(virt.0 >> 12u32, 0xFFF);
        }
        let page_index = ((virt.0 >> 12) & 0xFFF) as usize;
        let mut entry = page_table.entries[page_index];
        entry.set_address(phys);
        entry.set_present(true);
        entry.set_writable((flags & 0x2) != 0);
        page_table.entries[page_index] = entry;
        assert(page_table@ =~= old(page_table)@.update(
            page_index as int,
            mapped_descriptor(old(page_table)@[page_index as int], phys.0, flags),
        ));
        Ok(())
    }

    /// Clears the type bits of the slot of `virt`.
    fn unmap_page(page_table: &mut PageTable, virt: VirtAddr) -> (ret: Result<(), &'static str>)
        ensures
            ret is Ok,
            final(page_table)@ == old(page_table)@.update(
                page_index(virt.0),
                old(page_table)@[page_index(virt.0)] & !0x3u32,
            ),
    {
        proof {
            crate::bits::lemma_u32_and_le(virt.0 >> 12u32, 0xFFF);
        }
        let page_index = ((virt.0 >> 12) & 0xFFF) as usize;
        let mut entry = page_table.entries[page_index];
        entry.set_present(false);
        page_table.entries[page_index] = entry;
        assert(page_table@ =~= old(page_table)@.update(
            page_index as int,
            old(page_table)@[page_index as int] & !0x3u32,
        ));
        Ok(())
    }
}

} // verus!
