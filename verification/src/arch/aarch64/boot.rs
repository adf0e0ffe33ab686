//! AArch64 early boot: the boot information block, the checks and
//! mappings done before the kernel proper starts, and CPU identification
//! for the generic `CpuInfo`.

use vstd::prelude::*;
use crate::bits::lemma_u64_and_le;
use crate::arch::{CpuInfo, CpuFeatures, CacheInfo};
use super::{PhysAddr, VirtAddr};
use super::cpu::{cache_size_spec, CpuIdRegisters, CacheRegisters};
use super::memory::{
    MemoryMapper, PageFlags, map_section_spec, page_count, PAGE_READABLE, PAGE_WRITABLE,
    PAGE_EXECUTABLE,
};
use vstd::arithmetic::power2::{pow2, lemma2_to64, lemma_pow2_adds, lemma_pow2_strictly_increases};
use vstd::bits::lemma_u64_shl_is_mul;

verus! {

/// Boot information passed from the boot loader.
pub struct BootInfo {
    pub magic: u32,
    pub version: u32,
    pub memory_map_addr: u64,
    pub memory_map_size: u64,
    pub kernel_start: u64,
    pub kernel_end: u64,
    pub initrd_start: u64,
    pub initrd_size: u64,
    pub device_tree_addr: u64,
    pub device_tree_size: u64,
    pub command_line_addr: u64,
    pub command_line_size: u64,
    pub framebuffer_addr: u64,
    pub framebuffer_size: u64,
    pub framebuffer_width: u32,
    pub framebuffer_height: u32,
    pub framebuffer_pitch: u32,
    pub framebuffer_bpp: u32,
}

/// "RUST".
pub const BOOT_MAGIC: u32 = 0x52555354;

/// The device tree blob magic.
pub const FDT_MAGIC: u32 = 0xd00dfeed;

/// A section of `size` bytes at `start`, mapped to itself page by page,
/// stays within the address space.
pub open spec fn section_fits(start: u64, size: u64) -> bool {
    size + 4095 <= u64::MAX && start + page_count(size) * 4096 <= u64::MAX + 4096
}

/// The boot information describes sections the mapper can map.
pub open spec fn boot_sections_fit(boot_info: &BootInfo) -> bool {
    &&& boot_info.kernel_start <= boot_info.kernel_end
    &&& section_fits(boot_info.kernel_start, (boot_info.kernel_end - boot_info.kernel_start) as u64)
    &&& boot_info.device_tree_addr != 0 ==> section_fits(
        boot_info.device_tree_addr,
        boot_info.device_tree_size,
    )
    &&& boot_info.framebuffer_addr != 0 ==> section_fits(
        boot_info.framebuffer_addr,
        boot_info.framebuffer_size,
    )
}

/// The tables after identity-mapping the kernel (read, write, execute),
/// the device tree (read) and the frame buffer (read, write).
pub open spec fn early_memory_spec(
    mem: Map<u64, Seq<u64>>,
    ttbr0: u64,
    ttbr1: u64,
    bi: &BootInfo,
) -> Map<u64, Seq<u64>> {
    let m1 = map_section_spec(
        mem,
        ttbr0,
        ttbr1,
        bi.kernel_start,
        bi.kernel_start,
        page_count((bi.kernel_end - bi.kernel_start) as u64),
        PageFlags(PAGE_READABLE | PAGE_WRITABLE | PAGE_EXECUTABLE),
    );
    let m2 = if bi.device_tree_addr != 0 {
        map_section_spec(
            m1,
            ttbr0,
            ttbr1,
            bi.device_tree_addr,
            bi.device_tree_addr,
            page_count(bi.device_tree_size),
            PageFlags(PAGE_READABLE),
        )
    } else {
        m1
    };
    if bi.framebuffer_addr != 0 {
        map_section_spec(
            m2,
            ttbr0,
            ttbr1,
            bi.framebuffer_addr,
            bi.framebuffer_addr,
            page_count(bi.framebuffer_size),
            PageFlags(PAGE_READABLE | PAGE_WRITABLE),
        )
    } else {
        m2
    }
}

/// Identity-maps the kernel, and the device tree and frame buffer when
/// present.
pub fn init_early_memory(mapper: &mut MemoryMapper, boot_info: &BootInfo) -> (ret: Result<(), &'static str>)
    requires
        old(mapper).tables.wf(),
        boot_sections_fit(boot_info),
    ensures
        ret is Ok,
        final(mapper).tables.wf(),
        final(mapper).mmu == old(mapper).mmu,
        final(mapper).tables@ == early_memory_spec(
            old(mapper).tables@,
            old(mapper).mmu.ttbr0_el1.0,
            old(mapper).mmu.ttbr1_el1.0,
            boot_info,
        ),
{
    let kernel_start = PhysAddr::new(boot_info.kernel_start);
    let kernel_end = PhysAddr::new(boot_info.kernel_end);
    let kernel_size = kernel_end.as_u64() - kernel_start.as_u64();
    let r = mapper.map_kernel_section(
        kernel_start,
        VirtAddr(kernel_start.as_u64()),
        kernel_size,
        PageFlags(PAGE_READABLE).union(PageFlags(PAGE_WRITABLE)).union(PageFlags(PAGE_EXECUTABLE)),
    );
    if boot_info.device_tree_addr != 0 {
        let r = mapper.map_kernel_section(
            PhysAddr::new(boot_info.device_tree_addr),
            VirtAddr(boot_info.device_tree_addr),
            boot_info.device_tree_size,
            PageFlags(PAGE_READABLE),
        );
    }
    if boot_info.framebuffer_addr != 0 {
        let r = mapper.map_kernel_section(
            PhysAddr::new(boot_info.framebuffer_addr),
            VirtAddr(boot_info.framebuffer_addr),
            boot_info.framebuffer_size,
            PageFlags(PAGE_READABLE).union(PageFlags(PAGE_WRITABLE)),
        );
    }
    Ok(())
}

/// The big-endian 32-bit word in the first four bytes.
pub open spec fn be_u32(b: Seq<u8>) -> int {
    b[0] * 0x100_0000 + b[1] * 0x1_0000 + b[2] * 0x100 + b[3]
}

/// Checks the device tree blob's header.
pub fn parse_device_tree(dt: &[u8]) -> (ret: Result<(), &'static str>)
    ensures
        dt@.len() < 4 ==> (ret matches Err(e) && e@ == "Device tree too small"@),
        dt@.len() >= 4 && be_u32(dt@) != FDT_MAGIC ==> (ret matches Err(e) && e@
            == "Invalid device tree magic"@),
        dt@.len() >= 4 && be_u32(dt@) == FDT_MAGIC ==> ret is Ok,
{
    if dt.len() < 4 {
        return Err("Device tree too small");
    }
    let magic: u32 = (dt[0] as u32) * 0x100_0000 + (dt[1] as u32) * 0x1_0000 + (dt[2] as u32) * 0x100
        + (dt[3] as u32);
    if magic != FDT_MAGIC {
        return Err("Invalid device tree magic");
    }
    Ok(())
}

/// The checks and mappings of early boot: the magic number, the exception
/// level (at least EL1), the identity mappings, then the device tree's
/// header when there is one. Programming the system registers, the
/// interrupt controller and the timer is left to the caller.
pub fn early_init(boot_info: &BootInfo, current_el: u8, mapper: &mut MemoryMapper, device_tree: &[u8]) -> (ret:
    Result<(), &'static str>)
    requires
        old(mapper).tables.wf(),
        boot_info.magic == BOOT_MAGIC && current_el >= 1 ==> boot_sections_fit(boot_info),
    ensures
        final(mapper).tables.wf(),
        final(mapper).mmu == old(mapper).mmu,
        boot_info.magic != BOOT_MAGIC ==> (ret matches Err(e) && e@ == "Invalid boot magic"@
            && final(mapper).tables@ == old(mapper).tables@),
        boot_info.magic == BOOT_MAGIC && current_el < 1 ==> (ret matches Err(e) && e@
            == "Running at EL0, need at least EL1"@ && final(mapper).tables@ == old(mapper).tables@),
        boot_info.magic == BOOT_MAGIC && current_el >= 1 ==> final(mapper).tables@
            == early_memory_spec(
            old(mapper).tables@,
            old(mapper).mmu.ttbr0_el1.0,
            old(mapper).mmu.ttbr1_el1.0,
            boot_info,
        ),
        boot_info.magic == BOOT_MAGIC && current_el >= 1 && boot_info.device_tree_addr == 0
            ==> ret is Ok,
        boot_info.magic == BOOT_MAGIC && current_el >= 1 && boot_info.device_tree_addr != 0
            ==> (ret is Ok <==> (device_tree@.len() >= 4 && be_u32(device_tree@) == FDT_MAGIC)),
{
    if boot_info.magic != BOOT_MAGIC {
        return Err("Invalid boot magic");
    }
    if current_el < 1 {
        return Err("Running at EL0, need at least EL1");
    }
    let r = init_early_memory(mapper, boot_info);
    if boot_info.device_tree_addr != 0 {
        parse_device_tree(device_tree)?;
    }
    Ok(())
}

/// The bits of SCTLR_EL1 that early boot sets: LSMAOE, nTLSMD, SPAN,
/// EIS, TSCXT, EOS, ITD, CP15BEN, SA0, SA, C and I.
pub const SCTLR_SET_BITS: u64 = 0x30D0_18BC;
/// The bits it clears: EE, E0E, WXN, nTWE, nTWI, UCT, DZE, EnDB, EnDA,
/// EnIB and EnIA.
pub const SCTLR_CLEAR_BITS: u64 = 0xCB0D_E000;

/// SCTLR_EL1 as early boot sets it, from the value read from the CPU.
pub fn sctlr_el1_value(current: u64) -> (ret: u64)
    ensures
        ret == (current | SCTLR_SET_BITS) & !SCTLR_CLEAR_BITS,
{
    let mut sctlr = current;
    sctlr = sctlr | SCTLR_SET_BITS;
    sctlr = sctlr & !SCTLR_CLEAR_BITS;
    sctlr
}

/// The set and cleared bits are the named SCTLR_EL1 fields.
pub proof fn lemma_sctlr_bits()
    by (bit_vector)
    ensures
        SCTLR_SET_BITS == (1u64 << 29u64) | (1u64 << 28u64) | (1u64 << 23u64) | (1u64 << 22u64) | (1u64
            << 20u64) | (1u64 << 11u64) | (1u64 << 7u64) | (1u64 << 5u64) | (1u64 << 4u64) | (1u64
            << 3u64) | (1u64 << 2u64) | (1u64 << 12u64),
        SCTLR_CLEAR_BITS == (1u64 << 25u64) | (1u64 << 24u64) | (1u64 << 19u64) | (1u64 << 16u64) | (1u64
            << 18u64) | (1u64 << 15u64) | (1u64 << 14u64) | (1u64 << 13u64) | (1u64 << 27u64) | (1u64
            << 30u64) | (1u64 << 31u64),
{
}

/// MAIR_EL1 as early boot programs it: byte n holds attribute n, from
/// Device-nGnRnE (0) to Normal write-through (5).
pub const BOOT_MAIR_EL1: u64 = 0x0000_BBFF_440C_0400;

/// The attribute bytes of `BOOT_MAIR_EL1`.
pub proof fn lemma_boot_mair()
    by (bit_vector)
    ensures
        BOOT_MAIR_EL1 == (0x00u64 << 0u64) | (0x04u64 << 8u64) | (0x0Cu64 << 16u64) | (0x44u64
            << 24u64) | (0xFFu64 << 32u64) | (0xBBu64 << 40u64),
{
}

/// The value early boot writes to MAIR_EL1.
pub fn mair_el1_value() -> (ret: u64)
    ensures
        ret == BOOT_MAIR_EL1,
{
    BOOT_MAIR_EL1
}

/// TCR_EL1 as early boot programs it: 39-bit address spaces (T0SZ and
/// T1SZ 25), 4 KiB granules, inner-shareable walks, write-back walks for
/// TTBR1, 40-bit physical addresses, top byte ignored in both halves.
pub const BOOT_TCR_EL1: u64 = 0x0000_00C2_B519_3019;

/// The fields of `BOOT_TCR_EL1`.
pub proof fn lemma_boot_tcr()
    by (bit_vector)
    ensures
        BOOT_TCR_EL1 == (25u64 << 0u64) | (3u64 << 12u64) | (25u64 << 16u64) | (1u64 << 24u64) | (1u64
            << 26u64) | (3u64 << 28u64) | (2u64 << 30u64) | (2u64 << 32u64) | (1u64 << 38u64) | (1u64
            << 39u64),
{
}

/// The value early boot writes to TCR_EL1.
pub fn tcr_el1_value() -> (ret: u64)
    ensures
        ret == BOOT_TCR_EL1,
{
    BOOT_TCR_EL1
}

/// CPACR_EL1 with FP and SIMD enabled at EL1 and EL0 (FPEN, bits 20 and
/// 21, set), from the value read from the CPU.
pub fn cpacr_with_fp_simd(cpacr: u64) -> (ret: u64)
    ensures
        ret == cpacr | (3u64 << 20u64),
{
    cpacr | (3u64 << 20)
}

/// The vendor an implementer code names.
pub open spec fn vendor_name(implementer: u8) -> Seq<char> {
    match implementer {
        0x41 => "ARM"@,
        0x42 => "Broadcom"@,
        0x43 => "Cavium"@,
        0x44 => "DEC"@,
        0x46 => "Fujitsu"@,
        0x48 => "HiSilicon"@,
        0x49 => "Infineon"@,
        0x4D => "Motorola"@,
        0x4E => "NVIDIA"@,
        0x50 => "APM"@,
        0x51 => "Qualcomm"@,
        0x56 => "Marvell"@,
        0x69 => "Intel"@,
        _ => "Unknown"@,
    }
}

/// The model an implementer and part number name.
pub open spec fn model_name(implementer: u8, part_num: u16) -> Seq<char> {
    match (implementer, part_num) {
        (0x41, 0xD03) => "Cortex-A53"@,
        (0x41, 0xD07) => "Cortex-A57"@,
        (0x41, 0xD08) => "Cortex-A72"@,
        (0x41, 0xD09) => "Cortex-A73"@,
        (0x41, 0xD0A) => "Cortex-A75"@,
        (0x41, 0xD0B) => "Cortex-A76"@,
        (0x41, 0xD0C) => "Neoverse-N1"@,
        (0x41, 0xD40) => "Neoverse-V1"@,
        (0x41, 0xD41) => "Cortex-A78"@,
        (0x41, 0xD44) => "Cortex-X1"@,
        (0x41, 0xD46) => "Cortex-A510"@,
        (0x41, 0xD47) => "Cortex-A710"@,
        (0x41, 0xD48) => "Cortex-X2"@,
        _ => "Unknown"@,
    }
}

fn vendor_of(implementer: u8) -> (ret: &'static str)
    ensures
        ret@ == vendor_name(implementer),
{
    match implementer {
        0x41 => "ARM",
        0x42 => "Broadcom",
        0x43 => "Cavium",
        0x44 => "DEC",
        0x46 => "Fujitsu",
        0x48 => "HiSilicon",
        0x49 => "Infineon",
        0x4D => "Motorola",
        0x4E => "NVIDIA",
        0x50 => "APM",
        0x51 => "Qualcomm",
        0x56 => "Marvell",
        0x69 => "Intel",
        _ => "Unknown",
    }
}

fn model_of(implementer: u8, part_num: u16) -> (ret: &'static str)
    ensures
        ret@ == model_name(implementer, part_num),
{
    match (implementer, part_num) {
        (0x41, 0xD03) => "Cortex-A53",
        (0x41, 0xD07) => "Cortex-A57",
        (0x41, 0xD08) => "Cortex-A72",
        (0x41, 0xD09) => "Cortex-A73",
        (0x41, 0xD0A) => "Cortex-A75",
        (0x41, 0xD0B) => "Cortex-A76",
        (0x41, 0xD0C) => "Neoverse-N1",
        (0x41, 0xD40) => "Neoverse-V1",
        (0x41, 0xD41) => "Cortex-A78",
        (0x41, 0xD44) => "Cortex-X1",
        (0x41, 0xD46) => "Cortex-A510",
        (0x41, 0xD47) => "Cortex-A710",
        (0x41, 0xD48) => "Cortex-X2",
        _ => "Unknown",
    }
}

/// The size of a cache from its CCSIDR_EL1 value, with lines of
/// 2^(LineSize + 4) bytes.
pub open spec fn decoded_cache_size(ccsidr: u64) -> int {
    pow2(((ccsidr & 0x7) + 4) as nat) * (((ccsidr >> 3u64) & 0x3FF) + 1) * (((ccsidr >> 13u64) & 0x7FFF)
        + 1)
}

/// The cache size decoded at boot and the one `cpu::calculate_cache_size`
/// gives agree on every CCSIDR_EL1 value.
pub proof fn lemma_cache_sizes_agree(ccsidr: u64)
    ensures
        decoded_cache_size(ccsidr) == cache_size_spec(ccsidr),
{
    let k = ((ccsidr & 0x7) + 2) as nat;
    lemma_u64_and_le(ccsidr, 0x7);
    lemma2_to64();
    lemma_pow2_adds(2, k);
    assert(((ccsidr & 0x7) + 4) as nat == 2 + k);
}

/// The size of a cache from its CCSIDR_EL1 value.
pub fn decode_cache_size(ccsidr: u64) -> (ret: usize)
    ensures
        ret == decoded_cache_size(ccsidr) as usize,
{
    proof {
        lemma_u64_and_le(ccsidr, 0x7);
        lemma_u64_and_le(ccsidr >> 3u64, 0x3FF);
        lemma_u64_and_le(ccsidr >> 13u64, 0x7FFF);
        let k = ((ccsidr & 0x7) + 4) as u64;
        lemma2_to64();
        if k < 11 {
            lemma_pow2_strictly_increases(k as nat, 11);
        }
        lemma_u64_shl_is_mul(1, k);
    }
    let line_size = 1u64 << ((ccsidr & 0x7) + 4);
    let associativity = ((ccsidr >> 3) & 0x3FF) + 1;
    let num_sets = ((ccsidr >> 13) & 0x7FFF) + 1;
    assert(line_size * associativity <= 2048 * 1024) by (nonlinear_arith)
        requires
            line_size <= 2048,
            associativity <= 1024,
    ;
    assert(line_size * associativity * num_sets <= 2048 * 1024 * 32768) by (nonlinear_arith)
        requires
            line_size * associativity <= 2048 * 1024,
            num_sets <= 32768,
    ;
    (line_size * associativity * num_sets) as usize
}

/// The cache sizes for the generic `CacheInfo`: a level is present when
/// its CLIDR_EL1 type field is not zero.
fn get_cache_info(regs: &CacheRegisters) -> (ret: CacheInfo)
    ensures
        ret.l1_instruction == (if regs.clidr & 0x7 >= 1 {
            Some(decoded_cache_size(regs.ccsidr_l1i) as usize)
        } else {
            None
        }),
        ret.l1_data == (if regs.clidr & 0x7 >= 1 {
            Some(decoded_cache_size(regs.ccsidr_l1d) as usize)
        } else {
            None
        }),
        ret.l2 == (if (regs.clidr >> 3u64) & 0x7 >= 1 {
            Some(decoded_cache_size(regs.ccsidr_l2) as usize)
        } else {
            None
        }),
        ret.l3 == (if (regs.clidr >> 6u64) & 0x7 >= 1 {
            Some(decoded_cache_size(regs.ccsidr_l3) as usize)
        } else {
            None
        }),
{
    let clidr = regs.clidr;
    CacheInfo {
        l1_instruction: if (clidr & 0x7) >= 1 {
            Some(decode_cache_size(regs.ccsidr_l1i))
        } else {
            None
        },
        l1_data: if (clidr & 0x7) >= 1 {
            Some(decode_cache_size(regs.ccsidr_l1d))
        } else {
            None
        },
        l2: if ((clidr >> 3) & 0x7) >= 1 {
            Some(decode_cache_size(regs.ccsidr_l2))
        } else {
            None
        },
        l3: if ((clidr >> 6) & 0x7) >= 1 {
            Some(decode_cache_size(regs.ccsidr_l3))
        } else {
            None
        },
    }
}

/// The generic CPU information, from MIDR_EL1 and the ID and cache
/// registers.
pub fn get_cpu_info(midr: u64, id_regs: &CpuIdRegisters, cache_regs: &CacheRegisters) -> (ret: CpuInfo)
    ensures
        ret.vendor@ == vendor_name(((midr >> 24u64) & 0xFF) as u8),
        ret.model@ == model_name(((midr >> 24u64) & 0xFF) as u8, ((midr >> 4u64) & 0xFFF) as u16),
        ret.features.has_fpu,
        !ret.features.has_sse && !ret.features.has_sse2 && !ret.features.has_avx,
        ret.features.has_virtualization == (id_regs.pfr0 & 0xF000 != 0),
        ret.features.has_aes == (id_regs.isar0 & 0xF0 != 0),
        ret.cache_info.l1_instruction == (if cache_regs.clidr & 0x7 >= 1 {
            Some(decoded_cache_size(cache_regs.ccsidr_l1i) as usize)
        } else {
            None
        }),
        ret.cache_info.l1_data == (if cache_regs.clidr & 0x7 >= 1 {
            Some(decoded_cache_size(cache_regs.ccsidr_l1d) as usize)
        } else {
            None
        }),
        ret.cache_info.l3 == (if (cache_regs.clidr >> 6u64) & 0x7 >= 1 {
            Some(decoded_cache_size(cache_regs.ccsidr_l3) as usize)
        } else {
            None
        }),
        ret.cache_info.l2 == (if (cache_regs.clidr >> 3u64) & 0x7 >= 1 {
            Some(decoded_cache_size(cache_regs.ccsidr_l2) as usize)
        } else {
            None
        }),
{
    proof {
        lemma_u64_and_le(midr >> 24u64, 0xFF);
        lemma_u64_and_le(midr >> 4u64, 0xFFF);
    }
    let implementer = ((midr >> 24) & 0xFF) as u8;
    let part_num = ((midr >> 4) & 0xFFF) as u16;
    let vendor = vendor_of(implementer);
    let model = model_of(implementer, part_num);
    let features = CpuFeatures {
        has_fpu: true,
        has_sse: false,
        has_sse2: false,
        has_avx: false,
        has_virtualization: (id_regs.pfr0 & 0xF000) != 0,
        has_aes: (id_regs.isar0 & 0xF0) != 0,
    };
    CpuInfo { vendor, model, features, cache_info: get_cache_info(cache_regs) }
}

} // verus!
