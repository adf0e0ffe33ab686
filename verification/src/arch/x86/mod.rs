//! x86 (32-bit): addresses, the single-level table used by the generic
//! memory interface, the 8259 interrupt controller's port writes and the
//! segment descriptors.

pub mod interrupts;
pub mod memory;

use vstd::prelude::*;
use crate::arch::{ArchitectureOps, MemoryManagement};

verus! {

/// A virtual address.
#[derive(Debug, Clone, Copy)]
pub struct VirtAddr(pub u32);

/// A physical address.
#[derive(Debug, Clone, Copy)]
pub struct PhysAddr(pub u32);

/// The 4 KiB page size.
#[derive(Debug, Clone, Copy)]
pub struct PageSize4K;

/// The x86 architecture.
#[derive(Debug, Clone, Copy)]
pub struct X86;

/// The pair of 8259 interrupt controllers.
pub struct X86InterruptController;

/// A byte written to an I/O port.
#[derive(Debug, Clone, Copy, PartialEq, Eq, Structural)]
pub struct PortWrite {
    pub port: u16,
    pub value: u8,
}

/// The command port of the master controller.
pub const PIC1_COMMAND: u16 = 0x20;
/// The data port of the master controller.
pub const PIC1_DATA: u16 = 0x21;
/// The command port of the slave controller.
pub const PIC2_COMMAND: u16 = 0xA0;
/// The data port of the slave controller.
pub const PIC2_DATA: u16 = 0xA1;

/// The writes that set up both controllers: initialise, vector offsets
/// 0x20 and 0x28, cascade on line 2, 8086 mode, then every line masked.
pub open spec fn pic_init_sequence() -> Seq<PortWrite> {
    seq![
        PortWrite { port: PIC1_COMMAND, value: 0x11 },
        PortWrite { port: PIC2_COMMAND, value: 0x11 },
        PortWrite { port: PIC1_DATA, value: 0x20 },
        PortWrite { port: PIC2_DATA, value: 0x28 },
        PortWrite { port: PIC1_DATA, value: 0x04 },
        PortWrite { port: PIC2_DATA, value: 0x02 },
        PortWrite { port: PIC1_DATA, value: 0x01 },
        PortWrite { port: PIC2_DATA, value: 0x01 },
        PortWrite { port: PIC1_DATA, value: 0xFF },
        PortWrite { port: PIC2_DATA, value: 0xFF },
    ]
}

/// The line of `irq` on its controller.
pub open spec fn pic_line(irq: u8) -> u8 {
    if irq < 8 { irq } else { (irq - 8) as u8 }
}

impl X86InterruptController {
    /// The writes that set up both controllers.
    pub fn init_writes() -> (ret: Vec<PortWrite>)
        ensures
            ret@ == pic_init_sequence(),
    {
        let mut w: Vec<PortWrite> = Vec::new();
        w.push(PortWrite { port: PIC1_COMMAND, value: 0x11 });
        w.push(PortWrite { port: PIC2_COMMAND, value: 0x11 });
        w.push(PortWrite { port: PIC1_DATA, value: 0x20 });
        w.push(PortWrite { port: PIC2_DATA, value: 0x28 });
        w.push(PortWrite { port: PIC1_DATA, value: 0x04 });
        w.push(PortWrite { port: PIC2_DATA, value: 0x02 });
        w.push(PortWrite { port: PIC1_DATA, value: 0x01 });
        w.push(PortWrite { port: PIC2_DATA, value: 0x01 });
        w.push(PortWrite { port: PIC1_DATA, value: 0xFF });
        w.push(PortWrite { port: PIC2_DATA, value: 0xFF });
        w
    }

    /// The data port holding the mask of `irq`.
    pub fn mask_port(irq: u8) -> (ret: u16)
        ensures
            ret == if irq < 8 { PIC1_DATA } else { PIC2_DATA },
    {
        if irq < 8 {
            PIC1_DATA
        } else {
            PIC2_DATA
        }
    }

    /// The mask after enabling `irq`: its line's bit cleared.
    pub fn enable_mask(irq: u8, mask: u8) -> (ret: u8)
        requires
            irq < 16,
        ensures
            ret == mask & !(1u8 << pic_line(irq)),
    {
        let irq_bit = if irq < 8 {
            irq
        } else {
            irq - 8
        };
        mask & !(1u8 << irq_bit)
    }

    /// The mask after disabling `irq`: its line's bit set.
    pub fn disable_mask(irq: u8, mask: u8) -> (ret: u8)
        requires
            irq < 16,
        ensures
            ret == mask | (1u8 << pic_line(irq)),
    {
        let irq_bit = if irq < 8 {
            irq
        } else {
            irq - 8
        };
        mask | (1u8 << irq_bit)
    }

    /// The end-of-interrupt writes for `irq`: to the slave first when the
    /// line is on it, then to the master.
    pub fn eoi_writes(irq: u8) -> (ret: Vec<PortWrite>)
        ensures
            irq >= 8 ==> ret@ == seq![
                PortWrite { port: PIC2_COMMAND, value: 0x20 },
                PortWrite { port: PIC1_COMMAND, value: 0x20 },
            ],
            irq < 8 ==> ret@ == seq![PortWrite { port: PIC1_COMMAND, value: 0x20 }],
    {
        let mut w: Vec<PortWrite> = Vec::new();
        if irq >= 8 {
            w.push(PortWrite { port: PIC2_COMMAND, value: 0x20 });
        }
        w.push(PortWrite { port: PIC1_COMMAND, value: 0x20 });
        w
    }
}

/// A page-table entry of the single-level table.
#[derive(Debug, Clone, Copy)]
pub struct PageTableEntry(u32);

impl View for PageTableEntry {
    type V = u32;

    closed spec fn view(&self) -> u32 {
        self.0
    }
}

impl PageTableEntry {
    /// The empty entry.
    pub fn new() -> (ret: Self)
        ensures
            ret@ == 0,
    {
        PageTableEntry(0)
    }

    /// Sets or clears the present bit (bit 0).
    pub fn set_present(&mut self, present: bool)
        ensures
            present ==> final(self)@ == old(self)@ | 1,
            !present ==> final(self)@ == old(self)@ & !1u32,
    {
        if present {
            self.0 = self.0 | 1;
        } else {
            self.0 = self.0 & !1u32;
        }
    }

    /// Sets or clears the writable bit (bit 1).
    pub fn set_writable(&mut self, writable: bool)
        ensures
            writable ==> final(self)@ == old(self)@ | 2,
            !writable ==> final(self)@ == old(self)@ & !2u32,
    {
        if writable {
            self.0 = self.0 | 2;
        } else {
            self.0 = self.0 & !2u32;
        }
    }

    /// Puts the frame address in the top 20 bits, keeping the low 12.
    pub fn set_address(&mut self, addr: PhysAddr)
        ensures
            final(self)@ == (old(self)@ & 0xFFF) | (addr.0 & !0xFFFu32),
    {
        self.0 = (self.0 & 0xFFF) | (addr.0 & !0xFFFu32);
    }
}

/// A table of 1024 entries.
pub struct PageTable {
    entries: [PageTableEntry; 1024],
}

impl View for PageTable {
    type V = Seq<u32>;

    closed spec fn view(&self) -> Seq<u32> {
        self.entries@.map_values(|e: PageTableEntry| e@)
    }
}

/// The slot of `virt`: bits 12 to 21.
pub open spec fn page_index(virt: u32) -> int {
    ((virt >> 12u32) & 0x3FF) as int
}

/// The entry `map_page` makes of `old` for `phys`.
pub open spec fn mapped_entry(old: u32, phys: u32, flags: u32) -> u32 {
    let a = (old & 0xFFF) | (phys & !0xFFFu32);
    let p = a | 1;
    if flags & 0x2 != 0 { p | 2 } else { p & !2u32 }
}

impl ArchitectureOps for X86 {
    type VirtAddr = VirtAddr;
    type PhysAddr = PhysAddr;
    type PageSize = PageSize4K;

    fn get_page_size() -> (ret: PageSize4K) {
        PageSize4K
    }

    /// Translation needs a table walk, which this layer does not do.
    fn virtual_to_physical(virt: VirtAddr) -> (ret: Option<PhysAddr>)
        ensures
            ret is None,
    {
        None
    }
}

impl MemoryManagement for X86 {
    type PageTable = PageTable;
    type PageTableEntry = PageTableEntry;

    fn create_page_table() -> (ret: PageTable)
        ensures
            ret@ == Seq::new(1024, |i: int| 0u32),
    {
        let ret = PageTable { entries: [PageTableEntry(0); 1024] };
        assert(ret@ =~= Seq::new(1024, |i: int| 0u32));
        ret
    }

    /// Points the slot of `virt` at `phys`, present, writable when bit 1
    /// of `flags` is set.
    fn map_page(page_table: &mut PageTable, virt: VirtAddr, phys: PhysAddr, flags: u32) -> (ret: Result<
        (),
        &'static str,
    >)
        ensures
            ret is Ok,
            final(page_table)@ == old(page_table)@.update(
                page_index(virt.0),
                mapped_entry(old(page_table)@[page_index(virt.0)], phys.0, flags),
            ),
    {
        proof {
            crate::bits::lemma_u32_and_le(virt.0 >> 12u32, 0x3FF);
        }
        let page_index = ((virt.0 >> 12) & 0x3FF) as usize;
        let mut entry = page_table.entries[page_index];
        entry.set_address(phys);
        entry.set_present(true);
        entry.set_writable((flags & 0x2) != 0);
        page_table.entries[page_index] = entry;
        assert(page_table@ =~= old(page_table)@.update(
            page_index as int,
            mapped_entry(old(page_table)@[page_index as int], phys.0, flags),
        ));
        Ok(())
    }

    /// Clears the present bit of the slot of `virt`.
    fn unmap_page(page_table: &mut PageTable, virt: VirtAddr) -> (ret: Result<(), &'static str>)
        ensures
            ret is Ok,
            final(page_table)@ == old(page_table)@.update(
                page_index(virt.0),
                old(page_table)@[page_index(virt.0)] & !1u32,
            ),
    {
        proof {
            crate::bits::lemma_u32_and_le(virt.0 >> 12u32, 0x3FF);
        }
        let page_index = ((virt.0 >> 12) & 0x3FF) as usize;
        let mut entry = page_table.entries[page_index];
        entry.set_present(false);
        page_table.entries[page_index] = entry;
        assert(page_table@ =~= old(page_table)@.update(
            page_index as int,
            old(page_table)@[page_index as int] & !1u32,
        ));
        Ok(())
    }
}

/// A segment descriptor of the global descriptor table.
pub struct GdtEntry {
    limit_low: u16,
    base_low: u16,
    base_middle: u8,
    access: u8,
    granularity: u8,
    base_high: u8,
}

/// The descriptor's fields: limit bits 0-15, base bits 0-15, base bits
/// 16-23, access byte, flags with limit bits 16-19, base bits 24-31.
pub struct GdtFields {
    pub limit_low: u16,
    pub base_low: u16,
    pub base_middle: u8,
    pub access: u8,
    pub granularity: u8,
    pub base_high: u8,
}

impl GdtEntry {
    /// The descriptor's fields.
    pub closed spec fn fields(&self) -> GdtFields {
        GdtFields {
            limit_low: self.limit_low,
            base_low: self.base_low,
            base_middle: self.base_middle,
            access: self.access,
            granularity: self.granularity,
            base_high: self.base_high,
        }
    }

    /// The descriptor of the segment at `base` with `limit`, the `access`
    /// byte and the flags in the top nibble of `granularity`.
    pub fn new(base: u32, limit: u32, access: u8, granularity: u8) -> (ret: Self)
        ensures
            ret.fields().limit_low == limit & 0xFFFF,
            ret.fields().base_low == base & 0xFFFF,
            ret.fields().base_middle == (base >> 16u32) & 0xFF,
            ret.fields().access == access,
            ret.fields().granularity == (granularity & 0xF0) | (((limit >> 16u32) & 0x0F) as u8),
            ret.fields().base_high == (base >> 24u32) & 0xFF,
    {
        proof {
            crate::bits::lemma_u32_and_le(limit, 0xFFFF);
            crate::bits::lemma_u32_and_le(base, 0xFFFF);
            crate::bits::lemma_u32_and_le(base >> 16u32, 0xFF);
            crate::bits::lemma_u32_and_le(base >> 24u32, 0xFF);
            crate::bits::lemma_u32_and_le(limit >> 16u32, 0x0F);
        }
        GdtEntry {
            limit_low: (limit & 0xFFFF) as u16,
            base_low: (base & 0xFFFF) as u16,
            base_middle: ((base >> 16) & 0xFF) as u8,
            access,
            granularity: (granularity & 0xF0) | (((limit >> 16) & 0x0F) as u8),
            base_high: ((base >> 24) & 0xFF) as u8,
        }
    }
}

/// The operand of `lgdt`: the table's size less one and its address.
pub struct GdtPointer {
    limit: u16,
    base: u32,
}

} // verus!
