//! x86-64: addresses, the page-table interface, and reading the vendor and
//! the feature flags out of CPUID results.

use vstd::prelude::*;
use crate::arch::{ArchitectureOps, MemoryManagement};

verus! {

/// A virtual address.
#[derive(Debug, Clone, Copy)]
pub struct VirtAddr(pub u64);

/// A physical address.
#[derive(Debug, Clone, Copy)]
pub struct PhysAddr(pub u64);

/// The 4 KiB page size.
#[derive(Debug, Clone, Copy)]
pub struct Size4KiB;

/// The x86-64 architecture.
#[derive(Debug, Clone, Copy)]
pub struct X86_64;

/// The chained 8259 controllers, at vector offsets 0x20 and 0x28.
pub struct X86_64InterruptController;

/// The vector offset of the master controller.
pub const PIC_1_OFFSET: u8 = 0x20;
/// The vector offset of the slave controller.
pub const PIC_2_OFFSET: u8 = 0x28;

/// A page-table entry.
#[derive(Debug, Clone, Copy)]
pub struct PageTableEntry(u64);

/// A table of 512 entries.
pub struct PageTable {
    entries: [PageTableEntry; 512],
}

impl View for PageTable {
    type V = Seq<u64>;

    closed spec fn view(&self) -> Seq<u64> {
        self.entries@.map_values(|e: PageTableEntry| e.0)
    }
}

impl ArchitectureOps for X86_64 {
    type VirtAddr = VirtAddr;
    type PhysAddr = PhysAddr;
    type PageSize = Size4KiB;

    fn get_page_size() -> (ret: Size4KiB) {
        Size4KiB
    }

    /// Translation needs a table walk, which this layer does not do.
    fn virtual_to_physical(virt: VirtAddr) -> (ret: Option<PhysAddr>)
        ensures
            ret is None,
    {
        None
    }
}

impl MemoryManagement for X86_64 {
    type PageTable = PageTable;
    type PageTableEntry = PageTableEntry;

    /// An empty table.
    fn create_page_table() -> (ret: PageTable)
        ensures
            ret@ == Seq::new(512, |i: int| 0u64),
    {
        let ret = PageTable { entries: [PageTableEntry(0); 512] };
        assert(ret@ =~= Seq::new(512, |i: int| 0u64));
        ret
    }

    /// Mapping goes through the four-level tables, which this layer does
    /// not manage: the table is left as it is.
    fn map_page(page_table: &mut PageTable, virt: VirtAddr, phys: PhysAddr, flags: u32) -> (ret: Result<
        (),
        &'static str,
    >)
        ensures
            ret is Ok,
            final(page_table)@ == old(page_table)@,
    {
        Ok(())
    }

    /// Unmapping goes through the four-level tables, which this layer
    /// does not manage: the table is left as it is.
    fn unmap_page(page_table: &mut PageTable, virt: VirtAddr) -> (ret: Result<(), &'static str>)
        ensures
            ret is Ok,
            final(page_table)@ == old(page_table)@,
    {
        Ok(())
    }
}

/// The CPU features the kernel asks about.
#[derive(Debug, Clone, Copy, PartialEq, Eq, Structural)]
pub enum CpuFeature {
    SSE,
    SSE2,
    AVX,
    AES,
}

/// Whether leaf 1 of CPUID, with `ecx` and `edx` as it returned them,
/// reports `feature`: SSE is EDX bit 25, SSE2 EDX bit 26, AVX ECX bit 28
/// and AES ECX bit 25.
pub open spec fn feature_bit(feature: CpuFeature, ecx: u32, edx: u32) -> bool {
    match feature {
        CpuFeature::SSE => edx & (1u32 << 25u32) != 0,
        CpuFeature::SSE2 => edx & (1u32 << 26u32) != 0,
        CpuFeature::AVX => ecx & (1u32 << 28u32) != 0,
        CpuFeature::AES => ecx & (1u32 << 25u32) != 0,
    }
}

/// Whether the CPU has `feature`, from the ECX and EDX results of CPUID
/// leaf 1.
pub fn has_feature(feature: CpuFeature, ecx: u32, edx: u32) -> (ret: bool)
    ensures
        ret == feature_bit(feature, ecx, edx),
{
    match feature {
        CpuFeature::SSE => (edx & (1u32 << 25)) != 0,
        CpuFeature::SSE2 => (edx & (1u32 << 26)) != 0,
        CpuFeature::AVX => (ecx & (1u32 << 28)) != 0,
        CpuFeature::AES => (ecx & (1u32 << 25)) != 0,
    }
}

/// The four bytes of `w`, least significant first.
pub open spec fn le_bytes(w: u32) -> Seq<u8> {
    seq![(w & 0xFF) as u8, ((w >> 8u32) & 0xFF) as u8, ((w >> 16u32) & 0xFF) as u8, (w >> 24u32) as u8]
}

/// The vendor string of CPUID leaf 0: EBX, EDX and ECX, in that order.
pub open spec fn vendor_bytes(ebx: u32, edx: u32, ecx: u32) -> Seq<u8> {
    le_bytes(ebx) + le_bytes(edx) + le_bytes(ecx)
}

/// The characters as bytes.
pub open spec fn ascii_bytes(s: Seq<char>) -> Seq<u8> {
    s.map_values(|c: char| c as u8)
}

/// The bytes of `w`, least significant first, into `out`.
fn push_le_bytes(out: &mut Vec<u8>, w: u32)
    ensures
        final(out)@ == old(out)@ + le_bytes(w),
{
    proof {
        crate::bits::lemma_u32_and_le(w, 0xFF);
        crate::bits::lemma_u32_and_le(w >> 8u32, 0xFF);
        crate::bits::lemma_u32_and_le(w >> 16u32, 0xFF);
    }
    assert(w >> 24u32 <= 0xFF) by (bit_vector);
    out.push((w & 0xFF) as u8);
    out.push(((w >> 8) & 0xFF) as u8);
    out.push(((w >> 16) & 0xFF) as u8);
    out.push((w >> 24) as u8);
    assert(out@ =~= old(out)@ + le_bytes(w));
}

/// Whether the bytes spell `s`, character by character.
fn bytes_are(bytes: &Vec<u8>, s: &str) -> (ret: bool)
    ensures
        ret == (bytes@ == ascii_bytes(s@)),
{
    let n = s.unicode_len();
    if bytes.len() != n {
        return false;
    }
    let mut i: usize = 0;
    while i < n
        invariant
            n == s@.len(),
            bytes@.len() == n,
            i <= n,
            forall|j: int| 0 <= j < i ==> bytes@[j] == (s@[j] as u8),
        decreases n - i,
    {
        if bytes[i] != s.get_char(i) as u8 {
            assert(bytes@[i as int] != ascii_bytes(s@)[i as int]);
            return false;
        }
        i = i + 1;
    }
    assert(bytes@ =~= ascii_bytes(s@));
    true
}

/// The vendor named by the results of CPUID leaf 0: "Intel" for
/// "GenuineIntel", "AMD" for "AuthenticAMD", else "Unknown".
pub fn get_cpu_vendor(ebx: u32, edx: u32, ecx: u32) -> (ret: &'static str)
    ensures
        vendor_bytes(ebx, edx, ecx) == ascii_bytes("GenuineIntel"@) ==> ret@ == "Intel"@,
        vendor_bytes(ebx, edx, ecx) == ascii_bytes("AuthenticAMD"@) ==> ret@ == "AMD"@,
        vendor_bytes(ebx, edx, ecx) != ascii_bytes("GenuineIntel"@) && vendor_bytes(ebx, edx, ecx)
            != ascii_bytes("AuthenticAMD"@) ==> ret@ == "Unknown"@,
{
    let mut vendor: Vec<u8> = Vec::new();
    push_le_bytes(&mut vendor, ebx);
    push_le_bytes(&mut vendor, edx);
    push_le_bytes(&mut vendor, ecx);
    assert(vendor@ =~= vendor_bytes(ebx, edx, ecx));
    proof {
        reveal_strlit("GenuineIntel");
        reveal_strlit("AuthenticAMD");
        assert(ascii_bytes("GenuineIntel"@)[0] != ascii_bytes("AuthenticAMD"@)[0]);
    }
    if bytes_are(&vendor, "GenuineIntel") {
        "Intel"
    } else if bytes_are(&vendor, "AuthenticAMD") {
        "AMD"
    } else {
        "Unknown"
    }
}

} // verus!
