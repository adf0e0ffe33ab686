//! What the boot loader hands the kernel: the physical memory offset and
//! the memory map.

use vstd::prelude::*;
use vstd::string::StringSliceAdditionalSpecFns;
use crate::boot::early_print::VgaCell;

verus! {

/// Boot information passed from the boot loader to the kernel.
#[derive(Debug)]
pub struct BootInfo {
    /// Where the mapping of all physical memory starts in virtual memory.
    pub physical_memory_offset: u64,
    pub memory_map: MemoryMap,
    pub bootloader_start: u64,
    pub kernel_start: u64,
    pub kernel_end: u64,
}

/// A region of physical memory, from `start` up to `end` (exclusive).
#[derive(Debug, Clone, Copy)]
pub struct MemoryRegion {
    pub region_type: MemoryRegionType,
    pub start: u64,
    pub end: u64,
}

impl MemoryRegion {
    pub fn start_addr(&self) -> (ret: u64)
        ensures
            ret == self.start,
    {
        self.start
    }

    pub fn end_addr(&self) -> (ret: u64)
        ensures
            ret == self.end,
    {
        self.end
    }

    /// The addresses of the region.
    pub fn range(&self) -> (ret: core::ops::Range<u64>)
        ensures
            ret.start == self.start,
            ret.end == self.end,
    {
        core::ops::Range { start: self.start, end: self.end }
    }
}

/// What a region of memory holds.
#[derive(Debug, Clone, Copy, PartialEq, Eq, Structural)]
pub enum MemoryRegionType {
    Usable,
    Reserved,
    AcpiReclaimable,
    AcpiNvs,
    BadMemory,
    Firmware,
    Bootloader,
    Kernel,
}

/// The memory map.
#[derive(Debug, Clone)]
pub struct MemoryMap {
    regions: Vec<MemoryRegion>,
}

impl View for MemoryMap {
    type V = Seq<MemoryRegion>;

    closed spec fn view(&self) -> Seq<MemoryRegion> {
        self.regions@
    }
}

/// The map used when the boot loader gives none: the first megabyte and
/// the memory from there up to 256MB, both usable.
pub open spec fn default_regions() -> Seq<MemoryRegion> {
    seq![
        MemoryRegion { region_type: MemoryRegionType::Usable, start: 0, end: 0x100000 },
        MemoryRegion { region_type: MemoryRegionType::Usable, start: 0x100000, end: 0x10000000 },
    ]
}

impl MemoryMap {
    /// The default memory map.
    pub fn new() -> (ret: Self)
        ensures
            ret@ == default_regions(),
    {
        let mut regions = Vec::new();
        regions.push(MemoryRegion { region_type: MemoryRegionType::Usable, start: 0, end: 0x100000 });
        regions.push(
            MemoryRegion { region_type: MemoryRegionType::Usable, start: 0x100000, end: 0x10000000 },
        );
        let ret = MemoryMap { regions };
        assert(ret@ =~= default_regions());
        ret
    }

    /// A map of the given regions.
    pub fn from_regions(regions: Vec<MemoryRegion>) -> (ret: Self)
        ensures
            ret@ == regions@,
    {
        MemoryMap { regions }
    }

    /// The regions, in order.
    pub fn iter(&self) -> (ret: &[MemoryRegion])
        ensures
            ret@ == self@,
    {
        self.regions.as_slice()
    }
}

impl Default for MemoryMap {
    fn default() -> (ret: Self)
        ensures
            ret@ == default_regions(),
    {
        Self::new()
    }
}

impl Default for BootInfo {
    fn default() -> (ret: Self)
        ensures
            ret.physical_memory_offset == 0xffff_8000_0000_0000,
            ret.memory_map@ == default_regions(),
            ret.bootloader_start == 0,
            ret.kernel_start == 0,
            ret.kernel_end == 0,
    {
        BootInfo {
            physical_memory_offset: 0xffff_8000_0000_0000,
            memory_map: MemoryMap::new(),
            bootloader_start: 0,
            kernel_start: 0,
            kernel_end: 0,
        }
    }
}

/// The cell after writing `byte` at `pos` from the first line on, and the
/// cell written, if any: '\n' moves to the next line's start, any other
/// byte takes the cell.
pub open spec fn start_step(pos: int, byte: u8) -> (int, Option<(int, u8)>) {
    if byte == 10 {
        (((pos / 80) + 1) * 80, None)
    } else {
        (pos + 1, Some((pos, byte)))
    }
}

/// The cell after writing `bytes` from `pos`, and the cells written, in
/// order.
pub open spec fn start_run(pos: int, bytes: Seq<u8>) -> (int, Seq<(int, u8)>)
    decreases bytes.len(),
{
    if bytes.len() == 0 {
        (pos, Seq::empty())
    } else {
        let (p, cells) = start_run(pos, bytes.drop_last());
        let (q, cell) = start_step(p, bytes.last());
        (
            q,
            match cell {
                Some(c) => cells.push(c),
                None => cells,
            },
        )
    }
}

/// After `n` bytes from the top left, the cursor is within `n + 1` lines.
pub proof fn lemma_start_run_bound(bytes: Seq<u8>)
    ensures
        0 <= start_run(0, bytes).0 <= 80 * bytes.len(),
    decreases bytes.len(),
{
    if bytes.len() > 0 {
        lemma_start_run_bound(bytes.drop_last());
        let p = start_run(0, bytes.drop_last()).0;
        assert(((p / 80) + 1) * 80 <= p + 80) by (nonlinear_arith)
            requires
                p >= 0,
        ;
    }
}

/// The screen cells a message printed from the top left fills, in order,
/// each with its byte.
pub fn early_print(s: &str) -> (ret: Vec<VgaCell>)
    requires
        80 * s.spec_bytes().len() + 80 <= usize::MAX,
    ensures
        ret@.map_values(|c: VgaCell| (c.index as int, c.byte)) == start_run(0, s.spec_bytes()).1,
{
    let bytes = s.as_bytes();
    let mut cells: Vec<VgaCell> = Vec::new();
    let mut pos: usize = 0;
    let mut i: usize = 0;
    while i < bytes.len()
        invariant
            i <= bytes@.len(),
            bytes@ == s.spec_bytes(),
            80 * bytes@.len() + 80 <= usize::MAX,
            (pos as int, cells@.map_values(|c: VgaCell| (c.index as int, c.byte))) == start_run(
                0,
                bytes@.subrange(0, i as int),
            ),
        decreases bytes@.len() - i,
    {
        let byte = bytes[i];
        proof {
            assert(bytes@.subrange(0, i + 1).drop_last() =~= bytes@.subrange(0, i as int));
            assert(bytes@.subrange(0, i + 1).last() == byte);
            lemma_start_run_bound(bytes@.subrange(0, i as int));
            assert(((pos / 80) + 1) * 80 <= pos + 80) by (nonlinear_arith);
        }
        let ghost before = cells@;
        if byte == 10 {
            pos = ((pos / 80) + 1) * 80;
        } else {
            cells.push(VgaCell { index: pos, byte });
            proof {
                assert(cells@.map_values(|c: VgaCell| (c.index as int, c.byte)) =~= before.map_values(
                    |c: VgaCell| (c.index as int, c.byte),
                ).push((pos as int, byte)));
            }
            pos = pos + 1;
        }
        i = i + 1;
    }
    assert(bytes@.subrange(0, bytes@.len() as int) =~= bytes@);
    cells
}

} // verus!
