//! AArch64 translation tables: descriptor bits, the table walk and the
//! mapper that fills tables in.
//!
//! Physical memory that holds translation tables is modelled by
//! `PageTableMemory`: tables stand at physical addresses, and a table that
//! was never written reads as all zeroes (every descriptor invalid).

use vstd::prelude::*;
use super::{PhysAddr, VirtAddr};
use crate::bits::{lemma_u64_set_clear, lemma_u64_field, lemma_u64_outside, lemma_u64_and_le};
use vstd::arithmetic::div_mod::{lemma_fundamental_div_mod, lemma_fundamental_div_mod_converse_mod};

verus! {

/// Page table levels for the 4KB granule.
pub const PAGE_TABLE_LEVELS: usize = 4;
pub const PAGE_SIZE: usize = 4096;
pub const PAGE_SHIFT: usize = 12;
pub const ENTRIES_PER_TABLE: usize = 512;

/// Virtual address space layout.
pub const KERNEL_SPACE_START: u64 = 0xFFFF_0000_0000_0000;
pub const KERNEL_SPACE_END: u64 = 0xFFFF_FFFF_FFFF_FFFF;
pub const USER_SPACE_START: u64 = 0x0000_0000_0000_0000;
pub const USER_SPACE_END: u64 = 0x0000_FFFF_FFFF_FFFF;

/// Memory attribute encodings for MAIR_EL1.
pub const MAIR_DEVICE_NGNRNE: u64 = 0x00;
pub const MAIR_DEVICE_NGNRE: u64 = 0x04;
pub const MAIR_DEVICE_GRE: u64 = 0x0C;
pub const MAIR_NORMAL_NC: u64 = 0x44;
pub const MAIR_NORMAL_WB: u64 = 0xFF;
pub const MAIR_NORMAL_WT: u64 = 0xBB;

/// Memory attribute indices.
pub const ATTR_DEVICE_NGNRNE: u64 = 0;
pub const ATTR_DEVICE_NGNRE: u64 = 1;
pub const ATTR_DEVICE_GRE: u64 = 2;
pub const ATTR_NORMAL_NC: u64 = 3;
pub const ATTR_NORMAL_WB: u64 = 4;
pub const ATTR_NORMAL_WT: u64 = 5;

/// Descriptor bits.
pub const PTE_VALID: u64 = 0x1;
pub const PTE_TABLE: u64 = 0x2;
pub const PTE_BLOCK: u64 = 0x0;
pub const PTE_PAGE: u64 = 0x2;
pub const PTE_AP_RW_EL1: u64 = 0x00;
pub const PTE_AP_RW_ALL: u64 = 0x40;
pub const PTE_AP_RO_EL1: u64 = 0x80;
pub const PTE_AP_RO_ALL: u64 = 0xC0;
pub const PTE_SH_NON: u64 = 0x000;
pub const PTE_SH_OUTER: u64 = 0x200;
pub const PTE_SH_INNER: u64 = 0x300;
pub const PTE_AF: u64 = 0x400;
pub const PTE_NG: u64 = 0x800;
pub const PTE_UXN: u64 = 0x0040_0000_0000_0000;
pub const PTE_PXN: u64 = 0x0020_0000_0000_0000;
pub const PTE_CONT: u64 = 0x0010_0000_0000_0000;
pub const PTE_DBM: u64 = 0x0008_0000_0000_0000;

/// The output-address field of a descriptor.
pub const PTE_ADDR_MASK: u64 = 0x0000_FFFF_FFFF_F000;
/// The access-permission field.
pub const PTE_AP_MASK: u64 = 0xC0;
/// The shareability field.
pub const PTE_SH_MASK: u64 = 0x300;
/// The memory-attribute-index field.
pub const PTE_ATTR_MASK: u64 = 0x1C;

/// The address that the mapper's table allocator hands out.
pub const NEW_TABLE_ADDR: u64 = 0x1000;

// ---------------------------------------------------------------------
// Descriptor arithmetic
// ---------------------------------------------------------------------

/// `x` with the bits of `m` turned on or off.
pub open spec fn set_bits(x: u64, m: u64, on: bool) -> u64 {
    if on { x | m } else { x & !m }
}

/// `x` with its field `m` replaced by that of `v`.
pub open spec fn set_field(x: u64, v: u64, m: u64) -> u64 {
    (x & !m) | (v & m)
}

/// `x` with the memory attribute index replaced by `attr`.
pub open spec fn set_attr_index(x: u64, attr: u64) -> u64 {
    (x & !PTE_ATTR_MASK) | ((attr & 7) << 2u64)
}

pub open spec fn desc_valid(x: u64) -> bool {
    x & PTE_VALID != 0
}

pub open spec fn desc_table(x: u64) -> bool {
    x & PTE_TABLE != 0
}

pub open spec fn desc_block(x: u64) -> bool {
    desc_valid(x) && !desc_table(x)
}

pub open spec fn desc_addr(x: u64) -> u64 {
    x & PTE_ADDR_MASK
}

/// A translation table descriptor.
#[derive(Debug, Clone, Copy)]
pub struct PageTableEntry(pub u64);

impl PageTableEntry {
    pub fn new() -> (ret: Self)
        ensures
            ret.0 == 0,
    {
        PageTableEntry(0)
    }

    pub fn from_raw(value: u64) -> (ret: Self)
        ensures
            ret.0 == value,
    {
        PageTableEntry(value)
    }

    pub fn raw(&self) -> (ret: u64)
        ensures
            ret == self.0,
    {
        self.0
    }

    pub fn is_valid(&self) -> (ret: bool)
        ensures
            ret == desc_valid(self.0),
    {
        (self.0 & PTE_VALID) != 0
    }

    pub fn is_table(&self) -> (ret: bool)
        ensures
            ret == desc_table(self.0),
    {
        (self.0 & PTE_TABLE) != 0
    }

    pub fn is_block(&self) -> (ret: bool)
        ensures
            ret == desc_block(self.0),
    {
        self.is_valid() && !self.is_table()
    }

    pub fn is_page(&self) -> (ret: bool)
        ensures
            ret == (desc_valid(self.0) && desc_table(self.0)),
    {
        self.is_valid() && (self.0 & PTE_TABLE) != 0
    }

    pub fn physical_address(&self) -> (ret: PhysAddr)
        ensures
            ret.0 == desc_addr(self.0),
    {
        PhysAddr::new(self.0 & PTE_ADDR_MASK)
    }

    pub fn set_physical_address(&mut self, addr: PhysAddr)
        ensures
            final(self).0 == set_field(old(self).0, addr.0, PTE_ADDR_MASK),
            desc_addr(final(self).0) == addr.0 & PTE_ADDR_MASK,
            final(self).0 & !PTE_ADDR_MASK == old(self).0 & !PTE_ADDR_MASK,
    {
        proof {
            lemma_u64_field(self.0, addr.0, PTE_ADDR_MASK);
        }
        self.0 = (self.0 & !PTE_ADDR_MASK) | (addr.as_u64() & PTE_ADDR_MASK);
    }

    pub fn set_valid(&mut self, valid: bool)
        ensures
            final(self).0 == set_bits(old(self).0, PTE_VALID, valid),
            desc_valid(final(self).0) == valid,
            final(self).0 & !PTE_VALID == old(self).0 & !PTE_VALID,
    {
        proof {
            lemma_u64_set_clear(self.0, PTE_VALID);
        }
        if valid {
            self.0 = self.0 | PTE_VALID;
        } else {
            self.0 = self.0 & !PTE_VALID;
        }
    }

    pub fn set_table(&mut self)
        ensures
            final(self).0 == old(self).0 | PTE_TABLE,
            desc_table(final(self).0),
            final(self).0 & !PTE_TABLE == old(self).0 & !PTE_TABLE,
    {
        proof {
            lemma_u64_set_clear(self.0, PTE_TABLE);
        }
        self.0 = self.0 | PTE_TABLE;
    }

    pub fn set_block(&mut self)
        ensures
            final(self).0 == old(self).0 & !PTE_TABLE,
            !desc_table(final(self).0),
            final(self).0 & !PTE_TABLE == old(self).0 & !PTE_TABLE,
    {
        proof {
            lemma_u64_set_clear(self.0, PTE_TABLE);
        }
        self.0 = self.0 & !PTE_TABLE;
    }

    pub fn set_access_permissions(&mut self, ap: u64)
        ensures
            final(self).0 == set_field(old(self).0, ap, PTE_AP_MASK),
            final(self).0 & PTE_AP_MASK == ap & PTE_AP_MASK,
            final(self).0 & !PTE_AP_MASK == old(self).0 & !PTE_AP_MASK,
    {
        proof {
            lemma_u64_field(self.0, ap, PTE_AP_MASK);
        }
        self.0 = (self.0 & !PTE_AP_MASK) | (ap & PTE_AP_MASK);
    }

    pub fn set_shareability(&mut self, sh: u64)
        ensures
            final(self).0 == set_field(old(self).0, sh, PTE_SH_MASK),
            final(self).0 & PTE_SH_MASK == sh & PTE_SH_MASK,
            final(self).0 & !PTE_SH_MASK == old(self).0 & !PTE_SH_MASK,
    {
        proof {
            lemma_u64_field(self.0, sh, PTE_SH_MASK);
        }
        self.0 = (self.0 & !PTE_SH_MASK) | (sh & PTE_SH_MASK);
    }

    pub fn set_memory_attribute(&mut self, attr: u64)
        ensures
            final(self).0 == set_attr_index(old(self).0, attr),
            final(self).0 & !PTE_ATTR_MASK == old(self).0 & !PTE_ATTR_MASK,
    {
        proof {
            lemma_attr_index(self.0, attr);
        }
        self.0 = (self.0 & !PTE_ATTR_MASK) | ((attr & 7) << 2u64);
    }

    pub fn set_access_flag(&mut self, af: bool)
        ensures
            final(self).0 == set_bits(old(self).0, PTE_AF, af),
            (final(self).0 & PTE_AF != 0) == af,
            final(self).0 & !PTE_AF == old(self).0 & !PTE_AF,
    {
        proof {
            lemma_u64_set_clear(self.0, PTE_AF);
        }
        if af {
            self.0 = self.0 | PTE_AF;
        } else {
            self.0 = self.0 & !PTE_AF;
        }
    }

    pub fn set_not_global(&mut self, ng: bool)
        ensures
            final(self).0 == set_bits(old(self).0, PTE_NG, ng),
            (final(self).0 & PTE_NG != 0) == ng,
            final(self).0 & !PTE_NG == old(self).0 & !PTE_NG,
    {
        proof {
            lemma_u64_set_clear(self.0, PTE_NG);
        }
        if ng {
            self.0 = self.0 | PTE_NG;
        } else {
            self.0 = self.0 & !PTE_NG;
        }
    }

    pub fn set_user_execute_never(&mut self, uxn: bool)
        ensures
            final(self).0 == set_bits(old(self).0, PTE_UXN, uxn),
            (final(self).0 & PTE_UXN != 0) == uxn,
            final(self).0 & !PTE_UXN == old(self).0 & !PTE_UXN,
    {
        proof {
            lemma_u64_set_clear(self.0, PTE_UXN);
        }
        if uxn {
            self.0 = self.0 | PTE_UXN;
        } else {
            self.0 = self.0 & !PTE_UXN;
        }
    }

    pub fn set_privileged_execute_never(&mut self, pxn: bool)
        ensures
            final(self).0 == set_bits(old(self).0, PTE_PXN, pxn),
            (final(self).0 & PTE_PXN != 0) == pxn,
            final(self).0 & !PTE_PXN == old(self).0 & !PTE_PXN,
    {
        proof {
            lemma_u64_set_clear(self.0, PTE_PXN);
        }
        if pxn {
            self.0 = self.0 | PTE_PXN;
        } else {
            self.0 = self.0 & !PTE_PXN;
        }
    }

    pub fn clear(&mut self)
        ensures
            final(self).0 == 0,
    {
        self.0 = 0;
    }
}

/// The attribute index field holds the low three bits of `attr`, and the
/// other bits are kept.
pub proof fn lemma_attr_index(x: u64, attr: u64)
    by (bit_vector)
    ensures
        set_attr_index(x, attr) & !PTE_ATTR_MASK == x & !PTE_ATTR_MASK,
        (set_attr_index(x, attr) & PTE_ATTR_MASK) >> 2u64 == attr & 7,
        set_attr_index(x, attr) & PTE_ADDR_MASK == x & PTE_ADDR_MASK,
        set_attr_index(x, attr) & PTE_VALID == x & PTE_VALID,
{
}


// ---------------------------------------------------------------------
// Tables and the memory that holds them
// ---------------------------------------------------------------------

/// A translation table of 512 descriptors.
#[derive(Clone, Copy)]
pub struct PageTable {
    entries: [PageTableEntry; 512],
}

impl View for PageTable {
    type V = Seq<u64>;

    closed spec fn view(&self) -> Seq<u64> {
        self.entries@.map_values(|e: PageTableEntry| e.0)
    }
}

/// A table whose descriptors are all zero.
pub open spec fn zero_table() -> Seq<u64> {
    Seq::new(512, |i: int| 0u64)
}

impl PageTable {
    pub fn new() -> (ret: Self)
        ensures
            ret@ == zero_table(),
    {
        let ret = PageTable { entries: [PageTableEntry(0); 512] };
        assert(ret@ =~= zero_table());
        ret
    }

    pub fn entry(&self, index: usize) -> (ret: &PageTableEntry)
        requires
            index < 512,
        ensures
            ret.0 == self@[index as int],
    {
        &self.entries[index]
    }

    pub fn entry_mut(&mut self, index: usize) -> (ret: &mut PageTableEntry)
        requires
            index < 512,
        ensures
            ret.0 == old(self)@[index as int],
            final(self)@ == old(self)@.update(index as int, final(ret).0),
    {
        &mut self.entries[index]
    }

    /// Writes one descriptor.
    pub fn set_entry(&mut self, index: usize, entry: PageTableEntry)
        requires
            index < 512,
        ensures
            final(self)@ == old(self)@.update(index as int, entry.0),
    {
        self.entries[index] = entry;
        assert(self@ =~= old(self)@.update(index as int, entry.0));
    }

    pub fn clear(&mut self)
        ensures
            final(self)@ == zero_table(),
    {
        let mut i: usize = 0;
        while i < 512
            invariant
                i <= 512,
                forall|j: int| 0 <= j < i ==> self@[j] == 0u64,
                self@.len() == 512,
            decreases 512 - i,
        {
            self.set_entry(i, PageTableEntry(0));
            i = i + 1;
        }
        assert(self@ =~= zero_table());
    }

    /// Fills the table with zero bytes.
    pub fn zero(&mut self)
        ensures
            final(self)@ == zero_table(),
    {
        self.clear();
    }
}

/// The table at `addr` in `mem`; a table never written reads as zeroes.
pub open spec fn table_of(mem: Map<u64, Seq<u64>>, addr: u64) -> Seq<u64> {
    if mem.dom().contains(addr) { mem[addr] } else { zero_table() }
}

/// `mem` with descriptor `idx` of the table at `addr` set to `value`.
pub open spec fn write_desc(mem: Map<u64, Seq<u64>>, addr: u64, idx: int, value: u64) -> Map<
    u64,
    Seq<u64>,
> {
    mem.insert(addr, table_of(mem, addr).update(idx, value))
}

/// The physical memory that holds translation tables, by table address.
pub struct PageTableMemory {
    addrs: Vec<u64>,
    tables: Vec<PageTable>,
    contents: Ghost<Map<u64, Seq<u64>>>,
}

impl View for PageTableMemory {
    type V = Map<u64, Seq<u64>>;

    closed spec fn view(&self) -> Map<u64, Seq<u64>> {
        self.contents@
    }
}

impl PageTableMemory {
    /// The addresses are distinct, each stands for its table, and every
    /// table has 512 descriptors.
    pub closed spec fn wf(&self) -> bool {
        &&& self.addrs.len() == self.tables.len()
        &&& self.addrs@.no_duplicates()
        &&& forall|a: u64| #[trigger] self.contents@.dom().contains(a) <==> self.addrs@.contains(a)
        &&& forall|k: int|
            0 <= k < self.addrs.len() ==> self.contents@[#[trigger] self.addrs@[k]]
                == self.tables@[k]@
        &&& tables_wf(self.contents@)
    }

    /// Every table held has 512 descriptors.
    pub proof fn lemma_tables_wf(&self)
        requires
            self.wf(),
        ensures
            tables_wf(self@),
    {
    }

    /// Memory in which every table reads as zeroes.
    pub fn new() -> (ret: Self)
        ensures
            ret.wf(),
            ret@ == Map::<u64, Seq<u64>>::empty(),
    {
        PageTableMemory { addrs: Vec::new(), tables: Vec::new(), contents: Ghost(Map::empty()) }
    }

    fn find(&self, addr: u64) -> (ret: Option<usize>)
        requires
            self.wf(),
        ensures
            match ret {
                Some(k) => k < self.addrs.len() && self.addrs@[k as int] == addr,
                None => !self@.dom().contains(addr),
            },
    {
        let mut k: usize = 0;
        while k < self.addrs.len()
            invariant
                k <= self.addrs.len(),
                forall|j: int| 0 <= j < k ==> self.addrs@[j] != addr,
            decreases self.addrs.len() - k,
        {
            if self.addrs[k] == addr {
                return Some(k);
            }
            k = k + 1;
        }
        None
    }

    /// Descriptor `idx` of the table at physical address `table`.
    pub fn read_entry(&self, table: u64, idx: usize) -> (ret: PageTableEntry)
        requires
            self.wf(),
            idx < 512,
        ensures
            ret.0 == table_of(self@, table)[idx as int],
    {
        match self.find(table) {
            Some(k) => *self.tables[k].entry(idx),
            None => PageTableEntry::new(),
        }
    }

    /// Sets descriptor `idx` of the table at physical address `table`.
    pub fn write_entry(&mut self, table: u64, idx: usize, entry: PageTableEntry)
        requires
            old(self).wf(),
            idx < 512,
        ensures
            final(self).wf(),
            final(self)@ == write_desc(old(self)@, table, idx as int, entry.0),
    {
        match self.find(table) {
            Some(k) => {
                let mut t = self.tables[k];
                t.set_entry(idx, entry);
                self.tables.set(k, t);
                proof {
                    self.contents@ = self.contents@.insert(table, t@);
                    assert forall|j: int| 0 <= j < self.addrs.len() implies self.contents@[
                        #[trigger] self.addrs@[j]] == self.tables@[j]@ by {
                        if j != k {
                            assert(self.addrs@[j] != table);
                        }
                    }
                }
            },
            None => {
                let mut t = PageTable::new();
                t.set_entry(idx, entry);
                self.addrs.push(table);
                self.tables.push(t);
                proof {
                    self.contents@ = self.contents@.insert(table, t@);
                    assert forall|j: int| 0 <= j < self.addrs.len() implies self.contents@[
                        #[trigger] self.addrs@[j]] == self.tables@[j]@ by {
                        if j < self.addrs.len() - 1 {
                            assert(old(self).addrs@[j] == self.addrs@[j]);
                            assert(old(self)@.dom().contains(self.addrs@[j]));
                        }
                    }
                    assert forall|a: u64| #[trigger]
                        self.addrs@.contains(a) implies self.contents@.dom().contains(a) by {
                        {
                            let j = choose|j: int| 0 <= j < self.addrs.len() && self.addrs@[j] == a;
                            if j < self.addrs.len() - 1 {
                                assert(old(self).addrs@.contains(a));
                            }
                        }
                    }
                    assert forall|a: u64| #[trigger]
                        self.contents@.dom().contains(a) implies self.addrs@.contains(a) by {
                        if a != table {
                            assert(old(self).addrs@.contains(a));
                            let j = choose|j: int| 0 <= j < old(self).addrs.len() && old(self).addrs@[j] == a;
                            assert(self.addrs@[j] == a);
                        }
                        if a == table {
                            assert(self.addrs@[self.addrs.len() - 1] == a);
                        }
                    }
                }
            },
        }
        assert(self@ =~= write_desc(old(self)@, table, idx as int, entry.0));
    }
}


// ---------------------------------------------------------------------
// Page flags
// ---------------------------------------------------------------------

pub const PAGE_READABLE: u64 = 0x1;
pub const PAGE_WRITABLE: u64 = 0x2;
pub const PAGE_EXECUTABLE: u64 = 0x4;
pub const PAGE_USER_ACCESSIBLE: u64 = 0x8;
pub const PAGE_DEVICE: u64 = 0x10;
pub const PAGE_UNCACHEABLE: u64 = 0x20;

/// Access and caching properties requested for a mapping, a set of the
/// `PAGE_*` bits.
#[derive(Debug, Clone, Copy, PartialEq, Eq, Structural)]
pub struct PageFlags(pub u64);

impl PageFlags {
    /// Every flag of `other` is set in `self`.
    pub fn contains(&self, other: PageFlags) -> (ret: bool)
        ensures
            ret == (self.0 & other.0 == other.0),
    {
        self.0 & other.0 == other.0
    }

    /// The flags of both.
    pub fn union(self, other: PageFlags) -> (ret: PageFlags)
        ensures
            ret.0 == self.0 | other.0,
    {
        PageFlags(self.0 | other.0)
    }
}

pub open spec fn has_flag(flags: PageFlags, bit: u64) -> bool {
    flags.0 & bit == bit
}

// ---------------------------------------------------------------------
// The table walk
// ---------------------------------------------------------------------

pub open spec fn l0_index(va: u64) -> u64 {
    (va >> 39u64) & 0x1FF
}

pub open spec fn l1_index(va: u64) -> u64 {
    (va >> 30u64) & 0x1FF
}

pub open spec fn l2_index(va: u64) -> u64 {
    (va >> 21u64) & 0x1FF
}

pub open spec fn l3_index(va: u64) -> u64 {
    (va >> 12u64) & 0x1FF
}

/// The base register that translates `va`: TTBR1 for the kernel half.
pub open spec fn select_ttbr(ttbr0: u64, ttbr1: u64, va: u64) -> u64 {
    if va >= KERNEL_SPACE_START { ttbr1 } else { ttbr0 }
}

/// Why a walk stopped.
#[derive(Debug, Clone, Copy, PartialEq, Eq, Structural)]
pub enum WalkFault {
    L0Invalid,
    L0NotTable,
    L1Invalid,
    L2Invalid,
    L3Invalid,
}

/// The message the walker and the mapper give for a fault.
pub open spec fn fault_message(f: WalkFault) -> Seq<char> {
    match f {
        WalkFault::L0Invalid => "L0 entry not valid"@,
        WalkFault::L0NotTable => "L0 entry is not a table"@,
        WalkFault::L1Invalid => "L1 entry not valid"@,
        WalkFault::L2Invalid => "L2 entry not valid"@,
        WalkFault::L3Invalid => "L3 entry not valid"@,
    }
}

/// The physical address `va` translates to: a 1GB block at level 1, a
/// 2MB block at level 2, or a 4KB page at level 3.
pub open spec fn walk_spec(mem: Map<u64, Seq<u64>>, ttbr0: u64, ttbr1: u64, va: u64) -> Result<
    int,
    WalkFault,
> {
    let e0 = table_of(mem, select_ttbr(ttbr0, ttbr1, va))[l0_index(va) as int];
    if !desc_valid(e0) {
        Err(WalkFault::L0Invalid)
    } else if !desc_table(e0) {
        Err(WalkFault::L0NotTable)
    } else {
        let e1 = table_of(mem, desc_addr(e0))[l1_index(va) as int];
        if !desc_valid(e1) {
            Err(WalkFault::L1Invalid)
        } else if desc_block(e1) {
            Ok(desc_addr(e1) + (va & 0x3FFF_FFFF))
        } else {
            let e2 = table_of(mem, desc_addr(e1))[l2_index(va) as int];
            if !desc_valid(e2) {
                Err(WalkFault::L2Invalid)
            } else if desc_block(e2) {
                Ok(desc_addr(e2) + (va & 0x1F_FFFF))
            } else {
                let e3 = table_of(mem, desc_addr(e2))[l3_index(va) as int];
                if !desc_valid(e3) {
                    Err(WalkFault::L3Invalid)
                } else {
                    Ok(desc_addr(e3) + (va & 0xFFF))
                }
            }
        }
    }
}

/// `ret` is what `spec` describes: the address, or the fault's message.
pub open spec fn matches_walk(ret: Result<PhysAddr, &'static str>, spec: Result<int, WalkFault>) -> bool {
    match (ret, spec) {
        (Ok(p), Ok(a)) => p.0 == a,
        (Err(e), Err(f)) => e@ == fault_message(f),
        _ => false,
    }
}

fn table_index(va: u64, shift: u64) -> (ret: usize)
    requires
        shift < 64,
    ensures
        ret == (va >> shift) & 0x1FF,
        ret < 512,
{
    proof {
        lemma_u64_and_le(va >> shift, 0x1FF);
    }
    ((va >> shift) & 0x1FF) as usize
}

/// Walks the translation tables held in physical memory.
pub struct PageTableWalker {
    pub ttbr0: PhysAddr,
    pub ttbr1: PhysAddr,
}

impl PageTableWalker {
    pub fn new(ttbr0: PhysAddr, ttbr1: PhysAddr) -> (ret: Self)
        ensures
            ret.ttbr0 == ttbr0,
            ret.ttbr1 == ttbr1,
    {
        PageTableWalker { ttbr0, ttbr1 }
    }

    /// Translates `vaddr` through the tables in `memory`.
    pub fn walk(&self, memory: &PageTableMemory, vaddr: VirtAddr) -> (ret: Result<PhysAddr, &'static str>)
        requires
            memory.wf(),
        ensures
            matches_walk(ret, walk_spec(memory@, self.ttbr0.0, self.ttbr1.0, vaddr.0)),
    {
        let va = vaddr.as_u64();
        let ttbr = if va >= KERNEL_SPACE_START {
            self.ttbr1
        } else {
            self.ttbr0
        };
        let l0_index = table_index(va, 39);
        let l1_index = table_index(va, 30);
        let l2_index = table_index(va, 21);
        let l3_index = table_index(va, 12);
        let page_offset = va & 0xFFF;

        let l0_entry = memory.read_entry(ttbr.as_u64(), l0_index);
        if !l0_entry.is_valid() {
            return Err("L0 entry not valid");
        }
        if !l0_entry.is_table() {
            return Err("L0 entry is not a table");
        }
        let l1_entry = memory.read_entry(l0_entry.physical_address().as_u64(), l1_index);
        if !l1_entry.is_valid() {
            return Err("L1 entry not valid");
        }
        if l1_entry.is_block() {
            let block_offset = va & 0x3FFF_FFFF;
            proof {
                lemma_u64_and_le(l1_entry.0, PTE_ADDR_MASK);
                lemma_u64_and_le(va, 0x3FFF_FFFF);
            }
            return Ok(PhysAddr::new(l1_entry.physical_address().as_u64() + block_offset));
        }
        let l2_entry = memory.read_entry(l1_entry.physical_address().as_u64(), l2_index);
        if !l2_entry.is_valid() {
            return Err("L2 entry not valid");
        }
        if l2_entry.is_block() {
            let block_offset = va & 0x1F_FFFF;
            proof {
                lemma_u64_and_le(l2_entry.0, PTE_ADDR_MASK);
                lemma_u64_and_le(va, 0x1F_FFFF);
            }
            return Ok(PhysAddr::new(l2_entry.physical_address().as_u64() + block_offset));
        }
        let l3_entry = memory.read_entry(l2_entry.physical_address().as_u64(), l3_index);
        if !l3_entry.is_valid() {
            return Err("L3 entry not valid");
        }
        proof {
            lemma_u64_and_le(l3_entry.0, PTE_ADDR_MASK);
            lemma_u64_and_le(va, 0xFFF);
        }
        Ok(PhysAddr::new(l3_entry.physical_address().as_u64() + page_offset))
    }
}


// ---------------------------------------------------------------------
// The MMU's register values
// ---------------------------------------------------------------------

/// MAIR_EL1: the six attribute encodings at indices 0 to 5.
pub const MMU_MAIR_VALUE: u64 = 0x0000_BBFF_440C_0400;
/// TCR_EL1: 39-bit address spaces, 4KB granules, inner shareable
/// write-back walks, 40-bit physical addresses, top byte ignored.
pub const MMU_TCR_VALUE: u64 = 0x0000_00C2_B519_3519;
/// SCTLR_EL1 bits M (MMU), C (data cache) and I (instruction cache).
pub const MMU_SCTLR_ENABLE_BITS: u64 = 0x1005;

/// The two register values, written out, are the fields they are built from.
pub proof fn lemma_mmu_register_values()
    by (bit_vector)
    ensures
        (0x00u64 << 0u64) | (0x04u64 << 8u64) | (0x0Cu64 << 16u64) | (0x44u64 << 24u64) | (0xFFu64
            << 32u64) | (0xBBu64 << 40u64) == 0x0000_BBFF_440C_0400u64,
        (25u64 << 0u64) | (0u64 << 6u64) | (1u64 << 8u64) | (1u64 << 10u64) | (3u64 << 12u64) | (0u64
            << 14u64) | (25u64 << 16u64) | (0u64 << 22u64) | (0u64 << 23u64) | (1u64 << 24u64) | (1u64
            << 26u64) | (3u64 << 28u64) | (2u64 << 30u64) | (2u64 << 32u64) | (0u64 << 37u64) | (1u64
            << 38u64) | (1u64 << 39u64) == 0x0000_00C2_B519_3519u64,
{
}

/// The register values the MMU is programmed with.
pub struct Mmu {
    pub ttbr0_el1: PhysAddr,
    pub ttbr1_el1: PhysAddr,
    pub tcr_el1: u64,
    pub mair_el1: u64,
    pub sctlr_el1: u64,
}

impl Mmu {
    pub fn new() -> (ret: Self)
        ensures
            ret.ttbr0_el1.0 == 0,
            ret.ttbr1_el1.0 == 0,
            ret.tcr_el1 == 0,
            ret.mair_el1 == 0,
            ret.sctlr_el1 == 0,
    {
        Mmu {
            ttbr0_el1: PhysAddr::new(0),
            ttbr1_el1: PhysAddr::new(0),
            tcr_el1: 0,
            mair_el1: 0,
            sctlr_el1: 0,
        }
    }

    /// Computes MAIR_EL1, TCR_EL1 and, from the SCTLR_EL1 value read from
    /// the CPU, the SCTLR_EL1 value with the MMU and both caches enabled.
    pub fn init(&mut self, current_sctlr: u64) -> (ret: Result<(), &'static str>)
        ensures
            ret is Ok,
            final(self).mair_el1 == MMU_MAIR_VALUE,
            final(self).tcr_el1 == MMU_TCR_VALUE,
            final(self).sctlr_el1 == current_sctlr | MMU_SCTLR_ENABLE_BITS,
            final(self).ttbr0_el1 == old(self).ttbr0_el1,
            final(self).ttbr1_el1 == old(self).ttbr1_el1,
    {
        self.mair_el1 = (MAIR_DEVICE_NGNRNE << 0u64) | (MAIR_DEVICE_NGNRE << 8u64) | (MAIR_DEVICE_GRE
            << 16u64) | (MAIR_NORMAL_NC << 24u64) | (MAIR_NORMAL_WB << 32u64) | (MAIR_NORMAL_WT
            << 40u64);
        self.tcr_el1 = (25u64 << 0u64) | (0u64 << 6u64) | (1u64 << 8u64) | (1u64 << 10u64) | (3u64
            << 12u64) | (0u64 << 14u64) | (25u64 << 16u64) | (0u64 << 22u64) | (0u64 << 23u64) | (1u64
            << 24u64) | (1u64 << 26u64) | (3u64 << 28u64) | (2u64 << 30u64) | (2u64 << 32u64) | (0u64
            << 37u64) | (1u64 << 38u64) | (1u64 << 39u64);
        proof {
            lemma_mmu_register_values();
        }
        self.sctlr_el1 = current_sctlr | MMU_SCTLR_ENABLE_BITS;
        Ok(())
    }

    /// Clears the MMU enable bit of SCTLR_EL1.
    pub fn disable(&mut self) -> (ret: Result<(), &'static str>)
        ensures
            ret is Ok,
            final(self).sctlr_el1 == old(self).sctlr_el1 & !1u64,
            final(self).ttbr0_el1 == old(self).ttbr0_el1,
            final(self).ttbr1_el1 == old(self).ttbr1_el1,
            final(self).tcr_el1 == old(self).tcr_el1,
            final(self).mair_el1 == old(self).mair_el1,
    {
        self.sctlr_el1 = self.sctlr_el1 & !1u64;
        Ok(())
    }

    pub fn set_ttbr0(&mut self, page_table_addr: PhysAddr)
        ensures
            final(self).ttbr0_el1 == page_table_addr,
            final(self).ttbr1_el1 == old(self).ttbr1_el1,
            final(self).tcr_el1 == old(self).tcr_el1,
            final(self).mair_el1 == old(self).mair_el1,
            final(self).sctlr_el1 == old(self).sctlr_el1,
    {
        self.ttbr0_el1 = page_table_addr;
    }

    pub fn set_ttbr1(&mut self, page_table_addr: PhysAddr)
        ensures
            final(self).ttbr1_el1 == page_table_addr,
            final(self).ttbr0_el1 == old(self).ttbr0_el1,
            final(self).tcr_el1 == old(self).tcr_el1,
            final(self).mair_el1 == old(self).mair_el1,
            final(self).sctlr_el1 == old(self).sctlr_el1,
    {
        self.ttbr1_el1 = page_table_addr;
    }
}

// ---------------------------------------------------------------------
// The mapper
// ---------------------------------------------------------------------

/// The descriptor the mapper writes for a new next-level table at `addr`.
pub open spec fn table_descriptor(addr: u64) -> u64 {
    set_bits(set_bits(set_field(0, addr, PTE_ADDR_MASK), PTE_VALID, true) | PTE_TABLE, PTE_AF, true)
}

/// The access permissions for `flags`.
pub open spec fn access_bits(flags: PageFlags) -> u64 {
    if has_flag(flags, PAGE_WRITABLE) {
        if has_flag(flags, PAGE_USER_ACCESSIBLE) { PTE_AP_RW_ALL } else { PTE_AP_RW_EL1 }
    } else {
        if has_flag(flags, PAGE_USER_ACCESSIBLE) { PTE_AP_RO_ALL } else { PTE_AP_RO_EL1 }
    }
}

/// The memory attribute index for `flags`.
pub open spec fn attr_for(flags: PageFlags) -> u64 {
    if has_flag(flags, PAGE_DEVICE) {
        ATTR_DEVICE_NGNRNE
    } else if has_flag(flags, PAGE_UNCACHEABLE) {
        ATTR_NORMAL_NC
    } else {
        ATTR_NORMAL_WB
    }
}

/// A level-3 descriptor for `pa` with the access bits `ap`, attribute
/// index `attr` and the execute-never and not-global bits as given.
pub open spec fn leaf_bits(pa: u64, ap: u64, attr: u64, pxn: bool, uxn: bool, ng: bool) -> u64 {
    let e1 = set_bits(set_bits(set_field(0, pa, PTE_ADDR_MASK), PTE_VALID, true) | PTE_PAGE, PTE_AF, true);
    let e2 = set_field(set_field(e1, PTE_SH_INNER, PTE_SH_MASK), ap, PTE_AP_MASK);
    let e3 = if pxn { set_bits(e2, PTE_PXN, true) } else { e2 };
    let e4 = if uxn { set_bits(e3, PTE_UXN, true) } else { e3 };
    set_bits(set_attr_index(e4, attr), PTE_NG, ng)
}

/// The level-3 descriptor that maps a page at `pa` with `flags`.
pub open spec fn leaf_descriptor(pa: u64, flags: PageFlags) -> u64 {
    let user = has_flag(flags, PAGE_USER_ACCESSIBLE);
    let exec = has_flag(flags, PAGE_EXECUTABLE);
    leaf_bits(pa, access_bits(flags), attr_for(flags), !exec, user && !exec, user)
}

/// A level-3 descriptor is a valid page descriptor (bits 1:0 are 0b11)
/// and points at its page.
pub proof fn lemma_leaf_bits(pa: u64, ap: u64, attr: u64, pxn: bool, uxn: bool, ng: bool)
    by (bit_vector)
    ensures
        desc_valid(leaf_bits(pa, ap, attr, pxn, uxn, ng)),
        leaf_bits(pa, ap, attr, pxn, uxn, ng) & PTE_PAGE == PTE_PAGE,
        leaf_bits(pa, ap, attr, pxn, uxn, ng) & 0xC0 == ap & 0xC0,
        leaf_bits(pa, ap, attr, pxn, uxn, ng) & 0x3 == 0x3,
        leaf_bits(pa, ap, attr, pxn, uxn, ng) & 0x400 == 0x400,
        leaf_bits(pa, ap, attr, pxn, uxn, ng) & 0x300 == 0x300,
        (leaf_bits(pa, ap, attr, pxn, uxn, ng) >> 2u64) & 0x7 == attr & 0x7,
        (leaf_bits(pa, ap, attr, pxn, uxn, ng) & 0x800 != 0) == ng,
        (leaf_bits(pa, ap, attr, pxn, uxn, ng) & 0x0020_0000_0000_0000 != 0) == pxn,
        (leaf_bits(pa, ap, attr, pxn, uxn, ng) & 0x0040_0000_0000_0000 != 0) == uxn,
        leaf_bits(pa, ap, attr, pxn, uxn, ng) & 0x0000_FFFF_FFFF_F000 == pa & 0x0000_FFFF_FFFF_F000,
        desc_addr(leaf_bits(pa, ap, attr, pxn, uxn, ng)) == pa & PTE_ADDR_MASK,
        !desc_valid(0),
{
}

/// Every table in `mem` has 512 descriptors.
pub open spec fn tables_wf(mem: Map<u64, Seq<u64>>) -> bool {
    forall|a: u64| #[trigger] mem.dom().contains(a) ==> mem[a].len() == 512
}

/// `mem` with the descriptor at `idx` of table `t` made valid: kept when
/// it already is, else pointing at a table the allocator gives.
pub open spec fn ensure_table(mem: Map<u64, Seq<u64>>, t: u64, idx: u64) -> Map<u64, Seq<u64>> {
    if desc_valid(table_of(mem, t)[idx as int]) {
        mem
    } else {
        write_desc(mem, t, idx as int, table_descriptor(NEW_TABLE_ADDR))
    }
}

/// The table that descriptor `idx` of table `t` points at.
pub open spec fn next_table(mem: Map<u64, Seq<u64>>, t: u64, idx: u64) -> u64 {
    desc_addr(table_of(mem, t)[idx as int])
}

/// The tables after mapping `va` to `pa`.
pub open spec fn map_page_spec(
    mem: Map<u64, Seq<u64>>,
    ttbr0: u64,
    ttbr1: u64,
    va: u64,
    pa: u64,
    flags: PageFlags,
) -> Map<u64, Seq<u64>> {
    let t0 = select_ttbr(ttbr0, ttbr1, va);
    let m1 = ensure_table(mem, t0, l0_index(va));
    let t1 = next_table(m1, t0, l0_index(va));
    let m2 = ensure_table(m1, t1, l1_index(va));
    let t2 = next_table(m2, t1, l1_index(va));
    let m3 = ensure_table(m2, t2, l2_index(va));
    let t3 = next_table(m3, t2, l2_index(va));
    write_desc(m3, t3, l3_index(va) as int, leaf_descriptor(pa, flags))
}

/// The tables after unmapping `va`, or the level whose descriptor was not
/// valid.
pub open spec fn unmap_page_spec(mem: Map<u64, Seq<u64>>, ttbr0: u64, ttbr1: u64, va: u64) -> Result<
    Map<u64, Seq<u64>>,
    WalkFault,
> {
    let t0 = select_ttbr(ttbr0, ttbr1, va);
    if !desc_valid(table_of(mem, t0)[l0_index(va) as int]) {
        Err(WalkFault::L0Invalid)
    } else {
        let t1 = next_table(mem, t0, l0_index(va));
        if !desc_valid(table_of(mem, t1)[l1_index(va) as int]) {
            Err(WalkFault::L1Invalid)
        } else {
            let t2 = next_table(mem, t1, l1_index(va));
            if !desc_valid(table_of(mem, t2)[l2_index(va) as int]) {
                Err(WalkFault::L2Invalid)
            } else {
                let t3 = next_table(mem, t2, l2_index(va));
                Ok(write_desc(mem, t3, l3_index(va) as int, 0))
            }
        }
    }
}

/// The number of 4KB pages that `size` bytes take.
pub open spec fn page_count(size: u64) -> nat {
    ((size + 4095) / 4096) as nat
}

/// The tables after mapping the first `n` pages of a section, page `i`
/// going from `va + 4096 * i` to `pa + 4096 * i`.
pub open spec fn map_section_spec(
    mem: Map<u64, Seq<u64>>,
    ttbr0: u64,
    ttbr1: u64,
    pa: u64,
    va: u64,
    n: nat,
    flags: PageFlags,
) -> Map<u64, Seq<u64>>
    decreases n,
{
    if n == 0 {
        mem
    } else {
        map_page_spec(
            map_section_spec(mem, ttbr0, ttbr1, pa, va, (n - 1) as nat, flags),
            ttbr0,
            ttbr1,
            (va + (n - 1) * 4096) as u64,
            (pa + (n - 1) * 4096) as u64,
            flags,
        )
    }
}

/// Fills in translation tables.
pub struct MemoryMapper {
    pub mmu: Mmu,
    pub tables: PageTableMemory,
}

impl MemoryMapper {
    pub fn new() -> (ret: Self)
        ensures
            ret.tables.wf(),
            ret.tables@ == Map::<u64, Seq<u64>>::empty(),
            ret.mmu.ttbr0_el1.0 == 0,
            ret.mmu.ttbr1_el1.0 == 0,
            ret.mmu.tcr_el1 == 0,
            ret.mmu.mair_el1 == 0,
            ret.mmu.sctlr_el1 == 0,
    {
        MemoryMapper { mmu: Mmu::new(), tables: PageTableMemory::new() }
    }

    /// Computes the MMU's register values; see `Mmu::init`.
    pub fn init(&mut self, current_sctlr: u64) -> (ret: Result<(), &'static str>)
        ensures
            ret is Ok,
            final(self).mmu.mair_el1 == MMU_MAIR_VALUE,
            final(self).mmu.tcr_el1 == MMU_TCR_VALUE,
            final(self).mmu.sctlr_el1 == current_sctlr | MMU_SCTLR_ENABLE_BITS,
            final(self).mmu.ttbr0_el1 == old(self).mmu.ttbr0_el1,
            final(self).mmu.ttbr1_el1 == old(self).mmu.ttbr1_el1,
            final(self).tables == old(self).tables,
    {
        self.mmu.init(current_sctlr)
    }

    /// Where a new table goes: the one address the allocator hands out.
    fn allocate_page_table(&self) -> (ret: Result<PhysAddr, &'static str>)
        ensures
            ret == Ok::<PhysAddr, &'static str>(PhysAddr(NEW_TABLE_ADDR)),
    {
        Ok(PhysAddr::new(NEW_TABLE_ADDR))
    }

    fn ensure_table(&mut self, t: u64, idx: usize) -> (ret: u64)
        requires
            old(self).tables.wf(),
            idx < 512,
        ensures
            final(self).tables.wf(),
            final(self).tables@ == ensure_table(old(self).tables@, t, idx as u64),
            ret == next_table(final(self).tables@, t, idx as u64),
            final(self).mmu == old(self).mmu,
    {
        if !self.tables.read_entry(t, idx).is_valid() {
            let next_addr = match self.allocate_page_table() {
                Ok(a) => a,
                Err(e) => PhysAddr::new(NEW_TABLE_ADDR),
            };
            let mut entry = PageTableEntry::new();
            entry.set_physical_address(next_addr);
            entry.set_valid(true);
            entry.set_table();
            entry.set_access_flag(true);
            self.tables.write_entry(t, idx, entry);
        }
        self.tables.read_entry(t, idx).physical_address().as_u64()
    }

    /// Maps the 4KB page at `vaddr` to `paddr` with `flags`, creating the
    /// missing directory levels.
    pub fn map_page(&mut self, vaddr: VirtAddr, paddr: PhysAddr, flags: PageFlags) -> (ret: Result<
        (),
        &'static str,
    >)
        requires
            old(self).tables.wf(),
        ensures
            ret is Ok,
            final(self).tables.wf(),
            final(self).tables@ == map_page_spec(
                old(self).tables@,
                old(self).mmu.ttbr0_el1.0,
                old(self).mmu.ttbr1_el1.0,
                vaddr.0,
                paddr.0,
                flags,
            ),
            final(self).mmu == old(self).mmu,
    {
        let va = vaddr.as_u64();
        let ttbr = if va >= KERNEL_SPACE_START {
            self.mmu.ttbr1_el1
        } else {
            self.mmu.ttbr0_el1
        };
        let l0_index = table_index(va, 39);
        let l1_index = table_index(va, 30);
        let l2_index = table_index(va, 21);
        let l3_index = table_index(va, 12);

        let l1_table = self.ensure_table(ttbr.as_u64(), l0_index);
        let l2_table = self.ensure_table(l1_table, l1_index);
        let l3_table = self.ensure_table(l2_table, l2_index);

        // A page descriptor: valid, with bit 1 set.
        let mut l3_entry = PageTableEntry::new();
        l3_entry.set_physical_address(paddr);
        l3_entry.set_valid(true);
        l3_entry.set_table();
        l3_entry.set_access_flag(true);
        l3_entry.set_shareability(PTE_SH_INNER);
        let writable = flags.contains(PageFlags(PAGE_WRITABLE));
        let user = flags.contains(PageFlags(PAGE_USER_ACCESSIBLE));
        let executable = flags.contains(PageFlags(PAGE_EXECUTABLE));
        if writable {
            if user {
                l3_entry.set_access_permissions(PTE_AP_RW_ALL);
            } else {
                l3_entry.set_access_permissions(PTE_AP_RW_EL1);
            }
        } else {
            if user {
                l3_entry.set_access_permissions(PTE_AP_RO_ALL);
            } else {
                l3_entry.set_access_permissions(PTE_AP_RO_EL1);
            }
        }
        if !executable {
            l3_entry.set_privileged_execute_never(true);
        }
        if user && !executable {
            l3_entry.set_user_execute_never(true);
        }
        if flags.contains(PageFlags(PAGE_DEVICE)) {
            l3_entry.set_memory_attribute(ATTR_DEVICE_NGNRNE);
        } else if flags.contains(PageFlags(PAGE_UNCACHEABLE)) {
            l3_entry.set_memory_attribute(ATTR_NORMAL_NC);
        } else {
            l3_entry.set_memory_attribute(ATTR_NORMAL_WB);
        }
        if !user {
            l3_entry.set_not_global(false);
        } else {
            l3_entry.set_not_global(true);
        }
        self.tables.write_entry(l3_table, l3_index, l3_entry);
        Ok(())
    }

    /// Maps `size` bytes, rounded up to whole pages, from `vaddr` to
    /// `paddr`, page by page in increasing order.
    pub fn map_kernel_section(&mut self, paddr: PhysAddr, vaddr: VirtAddr, size: u64, flags: PageFlags) -> (ret: Result<
        (),
        &'static str,
    >)
        requires
            old(self).tables.wf(),
            size + 4095 <= u64::MAX,
            paddr.0 + page_count(size) * 4096 <= u64::MAX + 4096,
            vaddr.0 + page_count(size) * 4096 <= u64::MAX + 4096,
        ensures
            ret is Ok,
            final(self).tables.wf(),
            final(self).tables@ == map_section_spec(
                old(self).tables@,
                old(self).mmu.ttbr0_el1.0,
                old(self).mmu.ttbr1_el1.0,
                paddr.0,
                vaddr.0,
                page_count(size),
                flags,
            ),
            final(self).mmu == old(self).mmu,
    {
        let pages = (size + (PAGE_SIZE as u64 - 1)) / PAGE_SIZE as u64;
        let mut i: u64 = 0;
        while i < pages
            invariant
                pages == page_count(size),
                i <= pages,
                self.tables.wf(),
                self.mmu == old(self).mmu,
                paddr.0 + pages * 4096 <= u64::MAX + 4096,
                vaddr.0 + pages * 4096 <= u64::MAX + 4096,
                self.tables@ == map_section_spec(
                    old(self).tables@,
                    old(self).mmu.ttbr0_el1.0,
                    old(self).mmu.ttbr1_el1.0,
                    paddr.0,
                    vaddr.0,
                    i as nat,
                    flags,
                ),
            decreases pages - i,
        {
            assert(i * 4096 <= (pages - 1) * 4096) by (nonlinear_arith)
                requires
                    i < pages,
            ;
            let page_paddr = PhysAddr::new(paddr.as_u64() + i * PAGE_SIZE as u64);
            let page_vaddr = VirtAddr::new(vaddr.as_u64() + i * PAGE_SIZE as u64);
            let r = self.map_page(page_vaddr, page_paddr, flags);
            i = i + 1;
        }
        Ok(())
    }

    /// Clears the level-3 descriptor of `vaddr`; fails when a level on the
    /// way holds no valid descriptor.
    pub fn unmap_page(&mut self, vaddr: VirtAddr) -> (ret: Result<(), &'static str>)
        requires
            old(self).tables.wf(),
        ensures
            final(self).tables.wf(),
            final(self).mmu == old(self).mmu,
            match unmap_page_spec(
                old(self).tables@,
                old(self).mmu.ttbr0_el1.0,
                old(self).mmu.ttbr1_el1.0,
                vaddr.0,
            ) {
                Ok(m) => ret is Ok && final(self).tables@ == m,
                Err(f) => ret matches Err(e) && e@ == fault_message(f) && final(self).tables@
                    == old(self).tables@,
            },
    {
        let va = vaddr.as_u64();
        let ttbr = if va >= KERNEL_SPACE_START {
            self.mmu.ttbr1_el1
        } else {
            self.mmu.ttbr0_el1
        };
        let l0_index = table_index(va, 39);
        let l1_index = table_index(va, 30);
        let l2_index = table_index(va, 21);
        let l3_index = table_index(va, 12);
        let l0_entry = self.tables.read_entry(ttbr.as_u64(), l0_index);
        if !l0_entry.is_valid() {
            return Err("L0 entry not valid");
        }
        let l1_entry = self.tables.read_entry(l0_entry.physical_address().as_u64(), l1_index);
        if !l1_entry.is_valid() {
            return Err("L1 entry not valid");
        }
        let l2_entry = self.tables.read_entry(l1_entry.physical_address().as_u64(), l2_index);
        if !l2_entry.is_valid() {
            return Err("L2 entry not valid");
        }
        self.tables.write_entry(l2_entry.physical_address().as_u64(), l3_index, PageTableEntry::new());
        Ok(())
    }
}


/// The tables after the three directory steps of mapping `va`: each level
/// on its path that held no valid descriptor made to point at a new table.
pub open spec fn directories_for(mem: Map<u64, Seq<u64>>, ttbr0: u64, ttbr1: u64, va: u64) -> Map<
    u64,
    Seq<u64>,
> {
    let t0 = select_ttbr(ttbr0, ttbr1, va);
    let m1 = ensure_table(mem, t0, l0_index(va));
    let t1 = next_table(m1, t0, l0_index(va));
    let m2 = ensure_table(m1, t1, l1_index(va));
    let t2 = next_table(m2, t1, l1_index(va));
    ensure_table(m2, t2, l2_index(va))
}

/// The table whose slot mapping `va` writes.
pub open spec fn leaf_table_for(mem: Map<u64, Seq<u64>>, ttbr0: u64, ttbr1: u64, va: u64) -> u64 {
    let t0 = select_ttbr(ttbr0, ttbr1, va);
    let m1 = ensure_table(mem, t0, l0_index(va));
    let t1 = next_table(m1, t0, l0_index(va));
    let m2 = ensure_table(m1, t1, l1_index(va));
    let t2 = next_table(m2, t1, l1_index(va));
    let m3 = ensure_table(m2, t2, l2_index(va));
    next_table(m3, t2, l2_index(va))
}

/// In `mem`, the three directory descriptors on the path of `va` are table
/// descriptors, not blocks, and its level-3 slot is none of them.
pub open spec fn path_separate(mem: Map<u64, Seq<u64>>, ttbr0: u64, ttbr1: u64, va: u64) -> bool {
    let t0 = select_ttbr(ttbr0, ttbr1, va);
    let t1 = next_table(mem, t0, l0_index(va));
    let t2 = next_table(mem, t1, l1_index(va));
    let t3 = next_table(mem, t2, l2_index(va));
    &&& desc_table(table_of(mem, t0)[l0_index(va) as int])
    &&& desc_table(table_of(mem, t1)[l1_index(va) as int])
    &&& desc_table(table_of(mem, t2)[l2_index(va) as int])
    &&& !(t3 == t0 && l3_index(va) == l0_index(va))
    &&& !(t3 == t1 && l3_index(va) == l1_index(va))
    &&& !(t3 == t2 && l3_index(va) == l2_index(va))
}

/// The slots, as (table, index), that the walk of `va` reads, in order,
/// until it stops.
pub open spec fn walk_slots(mem: Map<u64, Seq<u64>>, ttbr0: u64, ttbr1: u64, va: u64) -> Seq<(u64, u64)> {
    let s0 = (select_ttbr(ttbr0, ttbr1, va), l0_index(va));
    let e0 = table_of(mem, s0.0)[s0.1 as int];
    if !desc_valid(e0) || !desc_table(e0) {
        seq![s0]
    } else {
        let s1 = (desc_addr(e0), l1_index(va));
        let e1 = table_of(mem, s1.0)[s1.1 as int];
        if !desc_valid(e1) || desc_block(e1) {
            seq![s0, s1]
        } else {
            let s2 = (desc_addr(e1), l2_index(va));
            let e2 = table_of(mem, s2.0)[s2.1 as int];
            if !desc_valid(e2) || desc_block(e2) {
                seq![s0, s1, s2]
            } else {
                seq![s0, s1, s2, (desc_addr(e2), l3_index(va))]
            }
        }
    }
}

proof fn lemma_index_bounds(va: u64)
    ensures
        l0_index(va) < 512,
        l1_index(va) < 512,
        l2_index(va) < 512,
        l3_index(va) < 512,
{
    lemma_u64_and_le(va >> 39u64, 0x1FF);
    lemma_u64_and_le(va >> 30u64, 0x1FF);
    lemma_u64_and_le(va >> 21u64, 0x1FF);
    lemma_u64_and_le(va >> 12u64, 0x1FF);
}

/// Reading a slot other than the one written gives what was there before.
proof fn lemma_write_other(mem: Map<u64, Seq<u64>>, t: u64, i: int, v: u64, u: u64, j: int)
    requires
        tables_wf(mem),
        0 <= i < 512,
        0 <= j < 512,
        !(t == u && i == j),
    ensures
        table_of(write_desc(mem, t, i, v), u)[j] == table_of(mem, u)[j],
        table_of(write_desc(mem, t, i, v), t)[i] == v,
        tables_wf(write_desc(mem, t, i, v)),
{
}

/// Making a slot point at a table leaves it valid and every slot that was
/// valid as it was.
proof fn lemma_ensure(mem: Map<u64, Seq<u64>>, t: u64, i: u64, u: u64, j: u64)
    requires
        tables_wf(mem),
        i < 512,
        j < 512,
    ensures
        tables_wf(ensure_table(mem, t, i)),
        desc_valid(table_of(ensure_table(mem, t, i), t)[i as int]),
        desc_valid(table_of(mem, u)[j as int]) ==> table_of(ensure_table(mem, t, i), u)[j as int]
            == table_of(mem, u)[j as int],
{
    assert(desc_valid(table_descriptor(NEW_TABLE_ADDR))) by (bit_vector);
    if !desc_valid(table_of(mem, t)[i as int]) {
        if !(t == u && i == j) {
            lemma_write_other(mem, t, i as int, table_descriptor(NEW_TABLE_ADDR), u, j as int);
        } else {
            let k: int = if i == 0 { 1 } else { 0 };
            lemma_write_other(mem, t, i as int, table_descriptor(NEW_TABLE_ADDR), t, k);
        }
    }
}

/// A slot valid before the directory steps of mapping `va` holds the same
/// descriptor after them, and the three slots of the path are valid then.
proof fn lemma_directories(mem: Map<u64, Seq<u64>>, ttbr0: u64, ttbr1: u64, va: u64, u: u64, j: u64)
    requires
        tables_wf(mem),
        j < 512,
    ensures
        ({
            let t0 = select_ttbr(ttbr0, ttbr1, va);
            let m3 = directories_for(mem, ttbr0, ttbr1, va);
            let t1 = next_table(m3, t0, l0_index(va));
            let t2 = next_table(m3, t1, l1_index(va));
            &&& tables_wf(m3)
            &&& desc_valid(table_of(m3, t0)[l0_index(va) as int])
            &&& desc_valid(table_of(m3, t1)[l1_index(va) as int])
            &&& desc_valid(table_of(m3, t2)[l2_index(va) as int])
            &&& next_table(m3, t2, l2_index(va)) == leaf_table_for(mem, ttbr0, ttbr1, va)
        }),
        desc_valid(table_of(mem, u)[j as int]) ==> table_of(directories_for(mem, ttbr0, ttbr1, va), u)[j
            as int] == table_of(mem, u)[j as int],
{
    lemma_index_bounds(va);
    let t0 = select_ttbr(ttbr0, ttbr1, va);
    let m1 = ensure_table(mem, t0, l0_index(va));
    let t1 = next_table(m1, t0, l0_index(va));
    let m2 = ensure_table(m1, t1, l1_index(va));
    let t2 = next_table(m2, t1, l1_index(va));
    let m3 = ensure_table(m2, t2, l2_index(va));
    lemma_ensure(mem, t0, l0_index(va), u, j);
    lemma_ensure(m1, t1, l1_index(va), u, j);
    lemma_ensure(m2, t2, l2_index(va), u, j);
    lemma_ensure(m1, t1, l1_index(va), t0, l0_index(va));
    lemma_ensure(m2, t2, l2_index(va), t0, l0_index(va));
    lemma_ensure(m2, t2, l2_index(va), t1, l1_index(va));
}

/// After the directory steps, mapping writes the leaf into the tables they
/// leave.
proof fn lemma_map_is_leaf_write(
    mem: Map<u64, Seq<u64>>,
    ttbr0: u64,
    ttbr1: u64,
    va: u64,
    pa: u64,
    flags: PageFlags,
)
    ensures
        map_page_spec(mem, ttbr0, ttbr1, va, pa, flags) == write_desc(
            directories_for(mem, ttbr0, ttbr1, va),
            leaf_table_for(mem, ttbr0, ttbr1, va),
            l3_index(va) as int,
            leaf_descriptor(pa, flags),
        ),
{
}

/// Mapping a page makes the walk of its virtual address end at the page,
/// at the same offset, whether the directory levels on the way existed or
/// were created: provided the directory descriptors on the path are
/// tables and the level-3 slot written is none of them. For a page-aligned
/// physical address below 2^48 that is the address itself plus the offset.
pub proof fn lemma_walk_after_map(
    mem: Map<u64, Seq<u64>>,
    ttbr0: u64,
    ttbr1: u64,
    va: u64,
    pa: u64,
    flags: PageFlags,
)
    requires
        tables_wf(mem),
        path_separate(directories_for(mem, ttbr0, ttbr1, va), ttbr0, ttbr1, va),
    ensures
        walk_spec(map_page_spec(mem, ttbr0, ttbr1, va, pa, flags), ttbr0, ttbr1, va) == Ok::<
            int,
            WalkFault,
        >((pa & PTE_ADDR_MASK) + (va & 0xFFF)),
        pa & 0xFFF == 0 && pa < 0x1_0000_0000_0000 ==> pa & PTE_ADDR_MASK == pa,
{
    assert(pa & 0xFFF == 0 && pa < 0x1_0000_0000_0000 ==> pa & 0x0000_FFFF_FFFF_F000 == pa)
        by (bit_vector);
    lemma_index_bounds(va);
    lemma_directories(mem, ttbr0, ttbr1, va, 0, 0);
    lemma_map_is_leaf_write(mem, ttbr0, ttbr1, va, pa, flags);
    let user = has_flag(flags, PAGE_USER_ACCESSIBLE);
    let exec = has_flag(flags, PAGE_EXECUTABLE);
    lemma_leaf_bits(pa, access_bits(flags), attr_for(flags), !exec, user && !exec, user);
    let m3 = directories_for(mem, ttbr0, ttbr1, va);
    let t0 = select_ttbr(ttbr0, ttbr1, va);
    let t1 = next_table(m3, t0, l0_index(va));
    let t2 = next_table(m3, t1, l1_index(va));
    let t3 = next_table(m3, t2, l2_index(va));
    let leaf = leaf_descriptor(pa, flags);
    lemma_write_other(m3, t3, l3_index(va) as int, leaf, t0, l0_index(va) as int);
    lemma_write_other(m3, t3, l3_index(va) as int, leaf, t1, l1_index(va) as int);
    lemma_write_other(m3, t3, l3_index(va) as int, leaf, t2, l2_index(va) as int);
}

/// The level-3 descriptor a mapping writes says what the flags ask for.
/// It permits writes exactly when they ask for them: the
/// level-3 descriptor it writes has the access-permission field (bits
/// 7:6) 0b00, read/write at EL1, for a writable kernel page, 0b01,
/// read/write at every level, for a writable user page, and bit 7 set,
/// read-only, for a page that is not writable (0b10 kernel, 0b11 user).
/// It is a valid page descriptor (bits 1:0 0b11) with the access flag set,
/// inner shareable, at the page's address; execute-never at EL1 unless
/// executable, at EL0 for user pages that are not executable; not global
/// exactly for user pages; and with attribute index 0 (device), 3
/// (uncacheable) or 4 (write-back).
pub proof fn lemma_map_access(
    mem: Map<u64, Seq<u64>>,
    ttbr0: u64,
    ttbr1: u64,
    va: u64,
    pa: u64,
    flags: PageFlags,
)
    requires
        tables_wf(mem),
    ensures
        ({
            let e = table_of(
                map_page_spec(mem, ttbr0, ttbr1, va, pa, flags),
                leaf_table_for(mem, ttbr0, ttbr1, va),
            )[l3_index(va) as int];
            let writable = flags.0 & 0x2 == 0x2;
            let user = flags.0 & 0x8 == 0x8;
            &&& writable && !user ==> e & 0xC0 == 0x00
            &&& writable && user ==> e & 0xC0 == 0x40
            &&& !writable && !user ==> e & 0xC0 == 0x80
            &&& !writable && user ==> e & 0xC0 == 0xC0
        }),
        ({
            let e = table_of(
                map_page_spec(mem, ttbr0, ttbr1, va, pa, flags),
                leaf_table_for(mem, ttbr0, ttbr1, va),
            )[l3_index(va) as int];
            let exec = flags.0 & 0x4 == 0x4;
            let user = flags.0 & 0x8 == 0x8;
            let device = flags.0 & 0x10 == 0x10;
            let uncached = flags.0 & 0x20 == 0x20;
            &&& e & 0x3 == 0x3
            &&& e & 0x400 == 0x400
            &&& e & 0x300 == 0x300
            &&& e & 0x0000_FFFF_FFFF_F000 == pa & 0x0000_FFFF_FFFF_F000
            &&& (e & 0x0020_0000_0000_0000 != 0) == !exec
            &&& (e & 0x0040_0000_0000_0000 != 0) == (user && !exec)
            &&& (e & 0x800 != 0) == user
            &&& (e >> 2u64) & 0x7 == (if device { 0u64 } else if uncached { 3u64 } else { 4u64 })
        }),
{
    lemma_index_bounds(va);
    lemma_directories(mem, ttbr0, ttbr1, va, 0, 0);
    lemma_map_is_leaf_write(mem, ttbr0, ttbr1, va, pa, flags);
    let m3 = directories_for(mem, ttbr0, ttbr1, va);
    let t3 = leaf_table_for(mem, ttbr0, ttbr1, va);
    let leaf = leaf_descriptor(pa, flags);
    let k: int = if l3_index(va) == 0 { 1 } else { 0 };
    lemma_write_other(m3, t3, l3_index(va) as int, leaf, t3, k);
    let user = has_flag(flags, PAGE_USER_ACCESSIBLE);
    let exec = has_flag(flags, PAGE_EXECUTABLE);
    let ap = access_bits(flags);
    lemma_leaf_bits(pa, ap, attr_for(flags), !exec, user && !exec, user);
    assert(0x00u64 & 0xC0 == 0x00 && 0x40u64 & 0xC0 == 0x40 && 0x80u64 & 0xC0 == 0x80 && 0xC0u64 & 0xC0
        == 0xC0 && 0u64 & 7 == 0 && 3u64 & 7 == 3 && 4u64 & 7 == 4) by (bit_vector);
}

/// Mapping a page leaves the translation of every address that was
/// already mapped as it was, unless its walk reads the level-3 slot that
/// the mapping writes.
pub proof fn lemma_map_keeps_other_translations(
    mem: Map<u64, Seq<u64>>,
    ttbr0: u64,
    ttbr1: u64,
    va: u64,
    pa: u64,
    flags: PageFlags,
    other: u64,
)
    requires
        tables_wf(mem),
        walk_spec(mem, ttbr0, ttbr1, other) is Ok,
        !walk_slots(mem, ttbr0, ttbr1, other).contains(
            (leaf_table_for(mem, ttbr0, ttbr1, va), l3_index(va)),
        ),
    ensures
        walk_spec(map_page_spec(mem, ttbr0, ttbr1, va, pa, flags), ttbr0, ttbr1, other) == walk_spec(
            mem,
            ttbr0,
            ttbr1,
            other,
        ),
{
    lemma_index_bounds(va);
    lemma_index_bounds(other);
    lemma_map_is_leaf_write(mem, ttbr0, ttbr1, va, pa, flags);
    let m3 = directories_for(mem, ttbr0, ttbr1, va);
    let t3 = leaf_table_for(mem, ttbr0, ttbr1, va);
    let leaf = leaf_descriptor(pa, flags);
    let slots = walk_slots(mem, ttbr0, ttbr1, other);
    let s0 = (select_ttbr(ttbr0, ttbr1, other), l0_index(other));
    let e0 = table_of(mem, s0.0)[s0.1 as int];
    lemma_directories(mem, ttbr0, ttbr1, va, s0.0, s0.1);
    assert(slots[0] == s0);
    lemma_write_other(m3, t3, l3_index(va) as int, leaf, s0.0, s0.1 as int);
    let s1 = (desc_addr(e0), l1_index(other));
    let e1 = table_of(mem, s1.0)[s1.1 as int];
    lemma_directories(mem, ttbr0, ttbr1, va, s1.0, s1.1);
    assert(slots[1] == s1);
    lemma_write_other(m3, t3, l3_index(va) as int, leaf, s1.0, s1.1 as int);
    if !desc_block(e1) {
        let s2 = (desc_addr(e1), l2_index(other));
        let e2 = table_of(mem, s2.0)[s2.1 as int];
        lemma_directories(mem, ttbr0, ttbr1, va, s2.0, s2.1);
        assert(slots[2] == s2);
        lemma_write_other(m3, t3, l3_index(va) as int, leaf, s2.0, s2.1 as int);
        if !desc_block(e2) {
            let s3 = (desc_addr(e2), l3_index(other));
            lemma_directories(mem, ttbr0, ttbr1, va, s3.0, s3.1);
            assert(slots[3] == s3);
            lemma_write_other(m3, t3, l3_index(va) as int, leaf, s3.0, s3.1 as int);
        }
    }
}

/// Unmapping a page that was just mapped succeeds, and the walk of its
/// virtual address then stops at level 3; on the same paths as
/// `lemma_walk_after_map`.
pub proof fn lemma_unmap_after_map(
    mem: Map<u64, Seq<u64>>,
    ttbr0: u64,
    ttbr1: u64,
    va: u64,
    pa: u64,
    flags: PageFlags,
)
    requires
        tables_wf(mem),
        path_separate(directories_for(mem, ttbr0, ttbr1, va), ttbr0, ttbr1, va),
    ensures
        unmap_page_spec(map_page_spec(mem, ttbr0, ttbr1, va, pa, flags), ttbr0, ttbr1, va) is Ok,
        walk_spec(
            unmap_page_spec(map_page_spec(mem, ttbr0, ttbr1, va, pa, flags), ttbr0, ttbr1, va)->Ok_0,
            ttbr0,
            ttbr1,
            va,
        ) == Err::<int, WalkFault>(WalkFault::L3Invalid),
{
    lemma_index_bounds(va);
    lemma_directories(mem, ttbr0, ttbr1, va, 0, 0);
    lemma_map_is_leaf_write(mem, ttbr0, ttbr1, va, pa, flags);
    lemma_leaf_bits(0, 0, 0, false, false, false);
    let m3 = directories_for(mem, ttbr0, ttbr1, va);
    let t0 = select_ttbr(ttbr0, ttbr1, va);
    let t1 = next_table(m3, t0, l0_index(va));
    let t2 = next_table(m3, t1, l1_index(va));
    let t3 = next_table(m3, t2, l2_index(va));
    let leaf = leaf_descriptor(pa, flags);
    let m4 = write_desc(m3, t3, l3_index(va) as int, leaf);
    lemma_write_other(m3, t3, l3_index(va) as int, leaf, t0, l0_index(va) as int);
    lemma_write_other(m3, t3, l3_index(va) as int, leaf, t1, l1_index(va) as int);
    lemma_write_other(m3, t3, l3_index(va) as int, leaf, t2, l2_index(va) as int);
    lemma_write_other(m4, t3, l3_index(va) as int, 0, t0, l0_index(va) as int);
    lemma_write_other(m4, t3, l3_index(va) as int, 0, t1, l1_index(va) as int);
    lemma_write_other(m4, t3, l3_index(va) as int, 0, t2, l2_index(va) as int);
}


// ---------------------------------------------------------------------
// Address space identifiers
// ---------------------------------------------------------------------

/// Hands out address space identifiers in turn, from 1 up to the largest
/// one the CPU supports, then from 1 again.
pub struct AsidManager {
    next_asid: u16,
    max_asid: u16,
}

/// The largest ASID for the ASIDBits field of ID_AA64MMFR0_EL1.
pub open spec fn max_asid_for(id_aa64mmfr0: u64) -> u16 {
    if (id_aa64mmfr0 >> 4u64) & 0xF == 0 { 255 } else { 65535 }
}

/// The identifier handed out after `next`: one more, or 1 after `max`.
pub open spec fn next_asid_after(next: int, max: int) -> int {
    if next == max {
        1
    } else {
        next + 1
    }
}

/// The identifier the allocation `j` calls after one that returns `next`
/// returns.
pub open spec fn asid_at(next: int, max: int, j: nat) -> int
    decreases j,
{
    if j == 0 {
        next
    } else {
        next_asid_after(asid_at(next, max, (j - 1) as nat), max)
    }
}

/// Allocations cycle through the identifiers: the `j`-th after `next` is
/// `next + j` counted round from 1 to `max`.
pub proof fn lemma_asid_cycle(next: int, max: int, j: nat)
    requires
        1 <= next <= max,
    ensures
        asid_at(next, max, j) == (next - 1 + j) % max + 1,
    decreases j,
{
    if j == 0 {
        lemma_fundamental_div_mod_converse_mod(next - 1, max, 0, next - 1);
    } else {
        lemma_asid_cycle(next, max, (j - 1) as nat);
        let x = next - 1 + j - 1;
        lemma_fundamental_div_mod(x, max);
        let q = x / max;
        let r = x % max;
        if r + 1 < max {
            assert(x + 1 == q * max + (r + 1)) by (nonlinear_arith)
                requires
                    x == max * q + r,
            ;
            lemma_fundamental_div_mod_converse_mod(x + 1, max, q, r + 1);
        } else {
            assert(x + 1 == (q + 1) * max + 0) by (nonlinear_arith)
                requires
                    x == max * q + r,
                    r + 1 == max,
            ;
            lemma_fundamental_div_mod_converse_mod(x + 1, max, q + 1, 0);
        }
    }
}

/// `max` allocations in a row hand out each identifier from 1 to `max`
/// exactly once: no two of them are the same, and every identifier is one
/// of them.
pub proof fn lemma_asids_each_once(next: int, max: int, i: nat, j: nat, v: int)
    requires
        1 <= next <= max,
        i < j < max,
        1 <= v <= max,
    ensures
        asid_at(next, max, i) != asid_at(next, max, j),
        ({
            let w: nat = (if v >= next { v - next } else { v - next + max }) as nat;
            w < max && asid_at(next, max, w) == v
        }),
{
    lemma_asid_cycle(next, max, i);
    lemma_asid_cycle(next, max, j);
    let a = next - 1 + i;
    let b = next - 1 + j;
    lemma_fundamental_div_mod(a, max);
    lemma_fundamental_div_mod(b, max);
    if a % max == b % max {
        let qa = a / max;
        let qb = b / max;
        assert(false) by (nonlinear_arith)
            requires
                a == max * qa + a % max,
                b == max * qb + b % max,
                a % max == b % max,
                0 < b - a < max,
        ;
    }
    let w: nat = (if v >= next { v - next } else { v - next + max }) as nat;
    lemma_asid_cycle(next, max, w);
    if v >= next {
        lemma_fundamental_div_mod_converse_mod(next - 1 + w, max, 0, v - 1);
    } else {
        lemma_fundamental_div_mod_converse_mod(next - 1 + w, max, 1, v - 1);
    }
}

impl AsidManager {
    /// The identifier the next allocation returns.
    pub closed spec fn next(&self) -> u16 {
        self.next_asid
    }

    /// The largest identifier handed out.
    pub closed spec fn max(&self) -> u16 {
        self.max_asid
    }

    /// The next identifier lies between 1 and the largest.
    pub closed spec fn wf(&self) -> bool {
        1 <= self.next_asid <= self.max_asid
    }

    /// A manager for a CPU whose ID_AA64MMFR0_EL1 reads `id_aa64mmfr0`.
    pub fn new(id_aa64mmfr0: u64) -> (ret: Self)
        ensures
            ret.wf(),
            ret.next() == 1,
            ret.max() == max_asid_for(id_aa64mmfr0),
    {
        proof {
            lemma_u64_and_le(id_aa64mmfr0 >> 4u64, 0xF);
        }
        let asid_bits = ((id_aa64mmfr0 >> 4) & 0xF) as u8;
        let max_asid = if asid_bits == 0 {
            255
        } else {
            65535
        };
        AsidManager { next_asid: 1, max_asid }
    }

    /// Returns the next identifier and moves on, back to 1 after the
    /// largest.
    pub fn allocate_asid(&mut self) -> (ret: u16)
        requires
            old(self).wf(),
            old(self).next() < u16::MAX,
        ensures
            final(self).wf(),
            ret == old(self).next(),
            final(self).max() == old(self).max(),
            final(self).next() == (if old(self).next() == old(self).max() {
                1
            } else {
                (old(self).next() + 1) as u16
            }),
            final(self).next() == next_asid_after(old(self).next() as int, old(self).max() as int),
    {
        let asid = self.next_asid;
        self.next_asid = self.next_asid + 1;
        if self.next_asid > self.max_asid {
            self.next_asid = 1;
        }
        asid
    }

    /// Gives an identifier back; identifiers are reused only by wrapping
    /// around, so nothing changes.
    pub fn free_asid(&mut self, asid: u16)
        ensures
            final(self).next() == old(self).next(),
            final(self).max() == old(self).max(),
    {
    }
}

} // verus!
