//! AArch64 CPU identification: implementer, features and caches decoded
//! from the ID registers, topology from MPIDR_EL1.

use vstd::prelude::*;
use crate::bits::lemma_u64_and_le;
use vstd::arithmetic::power2::{pow2, lemma2_to64, lemma_pow2_strictly_increases};
use vstd::bits::lemma_u64_shl_is_mul;

verus! {

/// Identification and feature information of a CPU.
#[derive(Debug, Clone)]
pub struct CpuInfo {
    pub midr: u64,
    pub mpidr: u64,
    pub revidr: u64,
    pub features: CpuFeatures,
    pub cache_info: CacheInfo,
    pub implementer: CpuImplementer,
    pub part_number: u16,
    pub variant: u8,
    pub revision: u8,
}

/// The architecture features a CPU implements.
#[derive(Debug, Clone)]
pub struct CpuFeatures {
    pub has_fp: bool,
    pub has_asimd: bool,
    pub has_aes: bool,
    pub has_pmull: bool,
    pub has_sha1: bool,
    pub has_sha256: bool,
    pub has_crc32: bool,
    pub has_atomics: bool,
    pub has_rdm: bool,
    pub has_lse: bool,
    pub has_pan: bool,
    pub has_lor: bool,
    pub has_vh: bool,
    pub has_uao: bool,
    pub has_dcpop: bool,
    pub has_sha512: bool,
    pub has_sha3: bool,
    pub has_sm3: bool,
    pub has_sm4: bool,
    pub has_dp: bool,
    pub has_fhm: bool,
    pub has_fcma: bool,
    pub has_jscvt: bool,
    pub has_lrcpc: bool,
    pub has_pacg: bool,
    pub has_paca: bool,
    pub has_dit: bool,
    pub has_flagm: bool,
    pub has_lrcpc2: bool,
    pub has_sel2: bool,
    pub has_tlbios: bool,
    pub has_tlbirange: bool,
    pub has_rng: bool,
    pub has_memtag: bool,
    pub has_sb: bool,
    pub has_ssbs: bool,
    pub has_bti: bool,
    pub has_i8mm: bool,
    pub has_bf16: bool,
    pub has_dgh: bool,
    pub has_afp: bool,
    pub has_rpres: bool,
    pub has_sve: bool,
    pub has_sve2: bool,
    pub has_tme: bool,
    pub has_trbe: bool,
    pub has_pointer_auth: bool,
    pub has_mte: bool,
    pub has_ras: bool,
    pub has_mpam: bool,
}

/// Cache sizes in bytes, and the cache line size.
#[derive(Debug, Clone)]
pub struct CacheInfo {
    pub l1_icache_size: Option<usize>,
    pub l1_dcache_size: Option<usize>,
    pub l2_cache_size: Option<usize>,
    pub l3_cache_size: Option<usize>,
    pub cache_line_size: usize,
    pub cache_levels: u8,
}

/// The implementer field of MIDR_EL1.
#[derive(Debug, Clone, Copy, PartialEq, Eq, Structural)]
pub enum CpuImplementer {
    ARM,
    Broadcom,
    Cavium,
    DigitalEquipment,
    Fujitsu,
    Infineon,
    Motorola,
    Nvidia,
    AppliedMicro,
    Qualcomm,
    Marvell,
    Intel,
    Unknown(u8),
}

pub open spec fn implementer_of(value: u8) -> CpuImplementer {
    match value {
        0x41 => CpuImplementer::ARM,
        0x42 => CpuImplementer::Broadcom,
        0x43 => CpuImplementer::Cavium,
        0x44 => CpuImplementer::DigitalEquipment,
        0x46 => CpuImplementer::Fujitsu,
        0x49 => CpuImplementer::Infineon,
        0x4D => CpuImplementer::Motorola,
        0x4E => CpuImplementer::Nvidia,
        0x50 => CpuImplementer::AppliedMicro,
        0x51 => CpuImplementer::Qualcomm,
        0x56 => CpuImplementer::Marvell,
        0x69 => CpuImplementer::Intel,
        _ => CpuImplementer::Unknown(value),
    }
}

impl From<u8> for CpuImplementer {
    fn from(value: u8) -> (ret: Self) {
        match value {
            0x41 => CpuImplementer::ARM,
            0x42 => CpuImplementer::Broadcom,
            0x43 => CpuImplementer::Cavium,
            0x44 => CpuImplementer::DigitalEquipment,
            0x46 => CpuImplementer::Fujitsu,
            0x49 => CpuImplementer::Infineon,
            0x4D => CpuImplementer::Motorola,
            0x4E => CpuImplementer::Nvidia,
            0x50 => CpuImplementer::AppliedMicro,
            0x51 => CpuImplementer::Qualcomm,
            0x56 => CpuImplementer::Marvell,
            0x69 => CpuImplementer::Intel,
            _ => CpuImplementer::Unknown(value),
        }
    }
}

impl vstd::std_specs::convert::FromSpecImpl<u8> for CpuImplementer {
    open spec fn obeys_from_spec() -> bool {
        true
    }

    open spec fn from_spec(v: u8) -> CpuImplementer {
        implementer_of(v)
    }
}

/// The ID registers that features are read from.
#[derive(Debug, Clone, Copy)]
pub struct CpuIdRegisters {
    pub pfr0: u64,
    pub pfr1: u64,
    pub isar0: u64,
    pub isar1: u64,
    pub isar2: u64,
    pub mmfr0: u64,
    pub mmfr1: u64,
    pub mmfr2: u64,
    pub dfr0: u64,
}

/// The cache registers that cache sizes are read from: CLIDR_EL1, and
/// CCSIDR_EL1 for the L1 instruction, L1 data, L2 and L3 caches.
#[derive(Debug, Clone, Copy)]
pub struct CacheRegisters {
    pub clidr: u64,
    pub ccsidr_l1i: u64,
    pub ccsidr_l1d: u64,
    pub ccsidr_l2: u64,
    pub ccsidr_l3: u64,
}

/// The four-bit ID field at `shift`.
pub open spec fn id_field(r: u64, shift: u64) -> u64 {
    (r >> shift) & 0xF
}

/// Decodes the features from the ID registers.
pub fn detect_cpu_features(regs: &CpuIdRegisters) -> (ret: CpuFeatures)
    ensures
        ret.has_fp == (id_field(regs.pfr0, 0) != 0xF),
        ret.has_asimd == (id_field(regs.pfr0, 20) != 0xF),
        ret.has_aes == (id_field(regs.isar0, 4) >= 1),
        ret.has_pmull == (id_field(regs.isar0, 4) >= 2),
        ret.has_sha1 == (id_field(regs.isar0, 8) >= 1),
        ret.has_sha256 == (id_field(regs.isar0, 12) >= 1),
        ret.has_crc32 == (id_field(regs.isar0, 16) >= 1),
        ret.has_atomics == (id_field(regs.isar0, 20) >= 1),
        ret.has_rdm == (id_field(regs.isar0, 28) >= 1),
        ret.has_lse == (id_field(regs.isar0, 20) >= 2),
        ret.has_pan == (id_field(regs.mmfr1, 20) >= 1),
        ret.has_lor == (id_field(regs.mmfr1, 16) >= 1),
        ret.has_vh == (id_field(regs.mmfr1, 8) >= 1),
        ret.has_uao == (id_field(regs.mmfr2, 4) >= 1),
        ret.has_dcpop == (id_field(regs.isar1, 0) >= 1),
        ret.has_sha512 == (id_field(regs.isar0, 12) >= 2),
        ret.has_sha3 == (id_field(regs.isar0, 32) >= 1),
        ret.has_sm3 == (id_field(regs.isar0, 36) >= 1),
        ret.has_sm4 == (id_field(regs.isar0, 40) >= 1),
        ret.has_dp == (id_field(regs.isar0, 44) >= 1),
        ret.has_fhm == (id_field(regs.isar0, 48) >= 1),
        ret.has_fcma == (id_field(regs.isar1, 16) >= 1),
        ret.has_jscvt == (id_field(regs.isar1, 12) >= 1),
        ret.has_lrcpc == (id_field(regs.isar1, 20) >= 1),
        ret.has_pacg == (id_field(regs.isar1, 24) >= 1),
        ret.has_paca == (id_field(regs.isar1, 4) >= 1),
        ret.has_dit == (id_field(regs.pfr0, 48) >= 1),
        ret.has_flagm == (id_field(regs.isar0, 52) >= 1),
        ret.has_lrcpc2 == (id_field(regs.isar1, 20) >= 2),
        ret.has_sel2 == (id_field(regs.pfr0, 36) >= 1),
        ret.has_tlbios == (id_field(regs.isar0, 56) >= 1),
        ret.has_tlbirange == (id_field(regs.isar0, 56) >= 2),
        ret.has_rng == (id_field(regs.isar0, 60) >= 1),
        ret.has_memtag == (id_field(regs.pfr1, 8) >= 1),
        ret.has_sb == (id_field(regs.isar1, 36) >= 1),
        ret.has_ssbs == (id_field(regs.pfr1, 4) >= 1),
        ret.has_bti == (id_field(regs.pfr1, 0) >= 1),
        ret.has_i8mm == (id_field(regs.isar1, 52) >= 1),
        ret.has_bf16 == (id_field(regs.isar1, 44) >= 1),
        ret.has_dgh == (id_field(regs.isar1, 48) >= 1),
        ret.has_afp == (id_field(regs.mmfr1, 44) >= 1),
        ret.has_rpres == (id_field(regs.isar2, 4) >= 1),
        ret.has_sve == (id_field(regs.pfr0, 32) >= 1),
        ret.has_sve2 == (id_field(regs.pfr0, 32) >= 2),
        ret.has_tme == (id_field(regs.isar0, 24) >= 1),
        ret.has_trbe == (id_field(regs.dfr0, 44) >= 1),
        ret.has_pointer_auth == (id_field(regs.isar1, 4) >= 1 || id_field(regs.isar1, 24) >= 1),
        ret.has_mte == (id_field(regs.pfr1, 8) >= 1),
        ret.has_ras == (id_field(regs.pfr0, 28) >= 1),
        ret.has_mpam == (id_field(regs.pfr0, 40) >= 1),
{
    CpuFeatures {
        has_fp: ((regs.pfr0 >> 0) & 0xF) != 0xF,
        has_asimd: ((regs.pfr0 >> 20) & 0xF) != 0xF,
        has_aes: ((regs.isar0 >> 4) & 0xF) >= 1,
        has_pmull: ((regs.isar0 >> 4) & 0xF) >= 2,
        has_sha1: ((regs.isar0 >> 8) & 0xF) >= 1,
        has_sha256: ((regs.isar0 >> 12) & 0xF) >= 1,
        has_crc32: ((regs.isar0 >> 16) & 0xF) >= 1,
        has_atomics: ((regs.isar0 >> 20) & 0xF) >= 1,
        has_rdm: ((regs.isar0 >> 28) & 0xF) >= 1,
        has_lse: ((regs.isar0 >> 20) & 0xF) >= 2,
        has_pan: ((regs.mmfr1 >> 20) & 0xF) >= 1,
        has_lor: ((regs.mmfr1 >> 16) & 0xF) >= 1,
        has_vh: ((regs.mmfr1 >> 8) & 0xF) >= 1,
        has_uao: ((regs.mmfr2 >> 4) & 0xF) >= 1,
        has_dcpop: ((regs.isar1 >> 0) & 0xF) >= 1,
        has_sha512: ((regs.isar0 >> 12) & 0xF) >= 2,
        has_sha3: ((regs.isar0 >> 32) & 0xF) >= 1,
        has_sm3: ((regs.isar0 >> 36) & 0xF) >= 1,
        has_sm4: ((regs.isar0 >> 40) & 0xF) >= 1,
        has_dp: ((regs.isar0 >> 44) & 0xF) >= 1,
        has_fhm: ((regs.isar0 >> 48) & 0xF) >= 1,
        has_fcma: ((regs.isar1 >> 16) & 0xF) >= 1,
        has_jscvt: ((regs.isar1 >> 12) & 0xF) >= 1,
        has_lrcpc: ((regs.isar1 >> 20) & 0xF) >= 1,
        has_pacg: ((regs.isar1 >> 24) & 0xF) >= 1,
        has_paca: ((regs.isar1 >> 4) & 0xF) >= 1,
        has_dit: ((regs.pfr0 >> 48) & 0xF) >= 1,
        has_flagm: ((regs.isar0 >> 52) & 0xF) >= 1,
        has_lrcpc2: ((regs.isar1 >> 20) & 0xF) >= 2,
        has_sel2: ((regs.pfr0 >> 36) & 0xF) >= 1,
        has_tlbios: ((regs.isar0 >> 56) & 0xF) >= 1,
        has_tlbirange: ((regs.isar0 >> 56) & 0xF) >= 2,
        has_rng: ((regs.isar0 >> 60) & 0xF) >= 1,
        has_memtag: ((regs.pfr1 >> 8) & 0xF) >= 1,
        has_sb: ((regs.isar1 >> 36) & 0xF) >= 1,
        has_ssbs: ((regs.pfr1 >> 4) & 0xF) >= 1,
        has_bti: ((regs.pfr1 >> 0) & 0xF) >= 1,
        has_i8mm: ((regs.isar1 >> 52) & 0xF) >= 1,
        has_bf16: ((regs.isar1 >> 44) & 0xF) >= 1,
        has_dgh: ((regs.isar1 >> 48) & 0xF) >= 1,
        has_afp: ((regs.mmfr1 >> 44) & 0xF) >= 1,
        has_rpres: ((regs.isar2 >> 4) & 0xF) >= 1,
        has_sve: ((regs.pfr0 >> 32) & 0xF) >= 1,
        has_sve2: ((regs.pfr0 >> 32) & 0xF) >= 2,
        has_tme: ((regs.isar0 >> 24) & 0xF) >= 1,
        has_trbe: ((regs.dfr0 >> 44) & 0xF) >= 1,
        has_pointer_auth: ((regs.isar1 >> 4) & 0xF) >= 1 || ((regs.isar1 >> 24) & 0xF) >= 1,
        has_mte: ((regs.pfr1 >> 8) & 0xF) >= 1,
        has_ras: ((regs.pfr0 >> 28) & 0xF) >= 1,
        has_mpam: ((regs.pfr0 >> 40) & 0xF) >= 1,
    }
}

/// The size in bytes of a cache described by a CCSIDR_EL1 value: line
/// size times associativity times number of sets.
pub open spec fn cache_size_spec(ccsidr: u64) -> int {
    (4 * pow2(((ccsidr & 0x7) + 2) as nat)) * (((ccsidr >> 3u64) & 0x3FF) + 1) * (((ccsidr
        >> 13u64) & 0x7FFF) + 1)
}

proof fn lemma_line_size(k: u64)
    requires
        k <= 9,
    ensures
        4u64 << k == 4 * pow2(k as nat),
        4 * pow2(k as nat) <= 2048,
{
    lemma2_to64();
    if k < 9 {
        lemma_pow2_strictly_increases(k as nat, 9);
    }
    lemma_u64_shl_is_mul(4, k);
}

fn line_size(ccsidr: u64) -> (ret: u64)
    ensures
        ret == 4 * pow2(((ccsidr & 0x7) + 2) as nat),
        ret <= 2048,
{
    proof {
        lemma_u64_and_le(ccsidr, 0x7);
        lemma_line_size(((ccsidr & 0x7) + 2) as u64);
    }
    4u64 << ((ccsidr & 0x7) + 2)
}

/// The size in bytes of a cache described by a CCSIDR_EL1 value.
pub fn calculate_cache_size(ccsidr: u64) -> (ret: usize)
    ensures
        ret == cache_size_spec(ccsidr) as usize,
{
    let line_size = line_size(ccsidr);
    proof {
        lemma_u64_and_le(ccsidr >> 3u64, 0x3FF);
        lemma_u64_and_le(ccsidr >> 13u64, 0x7FFF);
    }
    let associativity = ((ccsidr >> 3) & 0x3FF) + 1;
    let num_sets = ((ccsidr >> 13) & 0x7FFF) + 1;
    assert(line_size * associativity <= 2048 * 1024) by (nonlinear_arith)
        requires
            line_size <= 2048,
            associativity <= 1024,
    ;
    assert(line_size * associativity * num_sets <= 2048 * 1024 * 32768) by (nonlinear_arith)
        requires
            line_size * associativity <= 2048 * 1024,
            num_sets <= 32768,
    ;
    (line_size * associativity * num_sets) as usize
}

/// The cache levels, sizes and line size, from the cache registers.
pub fn get_cache_info(regs: &CacheRegisters) -> (ret: CacheInfo)
    ensures
        ret.cache_levels == (regs.clidr >> 21u64) & 0x7,
        ret.l1_icache_size == (if regs.ccsidr_l1i != 0 {
            Some(cache_size_spec(regs.ccsidr_l1i) as usize)
        } else {
            None
        }),
        ret.l1_dcache_size == (if regs.ccsidr_l1d != 0 {
            Some(cache_size_spec(regs.ccsidr_l1d) as usize)
        } else {
            None
        }),
        ret.l2_cache_size == (if regs.ccsidr_l2 != 0 {
            Some(cache_size_spec(regs.ccsidr_l2) as usize)
        } else {
            None
        }),
        ret.l3_cache_size == (if regs.ccsidr_l3 != 0 {
            Some(cache_size_spec(regs.ccsidr_l3) as usize)
        } else {
            None
        }),
        ret.cache_line_size == (if regs.ccsidr_l1d != 0 {
            4 * pow2(((regs.ccsidr_l1d & 0x7) + 2) as nat)
        } else {
            64
        }),
{
    proof {
        lemma_u64_and_le(regs.clidr >> 21u64, 0x7);
    }
    let cache_levels = ((regs.clidr >> 21) & 0x7) as u8;
    let l1_icache_size = if regs.ccsidr_l1i != 0 {
        Some(calculate_cache_size(regs.ccsidr_l1i))
    } else {
        None
    };
    let l1_dcache_size = if regs.ccsidr_l1d != 0 {
        Some(calculate_cache_size(regs.ccsidr_l1d))
    } else {
        None
    };
    let l2_cache_size = if regs.ccsidr_l2 != 0 {
        Some(calculate_cache_size(regs.ccsidr_l2))
    } else {
        None
    };
    let l3_cache_size = if regs.ccsidr_l3 != 0 {
        Some(calculate_cache_size(regs.ccsidr_l3))
    } else {
        None
    };
    let cache_line_size: usize = if regs.ccsidr_l1d != 0 {
        line_size(regs.ccsidr_l1d) as usize
    } else {
        64
    };
    CacheInfo { l1_icache_size, l1_dcache_size, l2_cache_size, l3_cache_size, cache_line_size, cache_levels }
}

/// Decodes MIDR_EL1 and the ID and cache registers.
pub fn get_cpu_info(midr: u64, mpidr: u64, revidr: u64, id_regs: &CpuIdRegisters, cache_regs: &CacheRegisters) -> (ret: CpuInfo)
    ensures
        ret.midr == midr,
        ret.mpidr == mpidr,
        ret.revidr == revidr,
        ret.implementer == implementer_of(((midr >> 24u64) & 0xFF) as u8),
        ret.variant == (midr >> 20u64) & 0xF,
        ret.part_number == (midr >> 4u64) & 0xFFF,
        ret.revision == midr & 0xF,
        ret.features == detect_cpu_features_spec(id_regs),
        ret.cache_info.cache_levels == (cache_regs.clidr >> 21u64) & 0x7,
        ret.cache_info.l1_icache_size == (if cache_regs.ccsidr_l1i != 0 {
            Some(cache_size_spec(cache_regs.ccsidr_l1i) as usize)
        } else {
            None
        }),
        ret.cache_info.l1_dcache_size == (if cache_regs.ccsidr_l1d != 0 {
            Some(cache_size_spec(cache_regs.ccsidr_l1d) as usize)
        } else {
            None
        }),
        ret.cache_info.l2_cache_size == (if cache_regs.ccsidr_l2 != 0 {
            Some(cache_size_spec(cache_regs.ccsidr_l2) as usize)
        } else {
            None
        }),
        ret.cache_info.l3_cache_size == (if cache_regs.ccsidr_l3 != 0 {
            Some(cache_size_spec(cache_regs.ccsidr_l3) as usize)
        } else {
            None
        }),
        ret.cache_info.cache_line_size == (if cache_regs.ccsidr_l1d != 0 {
            4 * pow2(((cache_regs.ccsidr_l1d & 0x7) + 2) as nat)
        } else {
            64
        }),
{
    proof {
        lemma_u64_and_le(midr >> 24u64, 0xFF);
        lemma_u64_and_le(midr >> 20u64, 0xF);
        lemma_u64_and_le(midr >> 4u64, 0xFFF);
        lemma_u64_and_le(midr, 0xF);
    }
    let implementer = CpuImplementer::from(((midr >> 24) & 0xFF) as u8);
    let variant = ((midr >> 20) & 0xF) as u8;
    let part_number = ((midr >> 4) & 0xFFF) as u16;
    let revision = (midr & 0xF) as u8;
    let features = detect_cpu_features(id_regs);
    let cache_info = get_cache_info(cache_regs);
    CpuInfo { midr, mpidr, revidr, features, cache_info, implementer, part_number, variant, revision }
}

/// The features `detect_cpu_features` returns for `regs`.
pub open spec fn detect_cpu_features_spec(regs: &CpuIdRegisters) -> CpuFeatures {
    CpuFeatures {
        has_fp: id_field(regs.pfr0, 0) != 0xF,
        has_asimd: id_field(regs.pfr0, 20) != 0xF,
        has_aes: id_field(regs.isar0, 4) >= 1,
        has_pmull: id_field(regs.isar0, 4) >= 2,
        has_sha1: id_field(regs.isar0, 8) >= 1,
        has_sha256: id_field(regs.isar0, 12) >= 1,
        has_crc32: id_field(regs.isar0, 16) >= 1,
        has_atomics: id_field(regs.isar0, 20) >= 1,
        has_rdm: id_field(regs.isar0, 28) >= 1,
        has_lse: id_field(regs.isar0, 20) >= 2,
        has_pan: id_field(regs.mmfr1, 20) >= 1,
        has_lor: id_field(regs.mmfr1, 16) >= 1,
        has_vh: id_field(regs.mmfr1, 8) >= 1,
        has_uao: id_field(regs.mmfr2, 4) >= 1,
        has_dcpop: id_field(regs.isar1, 0) >= 1,
        has_sha512: id_field(regs.isar0, 12) >= 2,
        has_sha3: id_field(regs.isar0, 32) >= 1,
        has_sm3: id_field(regs.isar0, 36) >= 1,
        has_sm4: id_field(regs.isar0, 40) >= 1,
        has_dp: id_field(regs.isar0, 44) >= 1,
        has_fhm: id_field(regs.isar0, 48) >= 1,
        has_fcma: id_field(regs.isar1, 16) >= 1,
        has_jscvt: id_field(regs.isar1, 12) >= 1,
        has_lrcpc: id_field(regs.isar1, 20) >= 1,
        has_pacg: id_field(regs.isar1, 24) >= 1,
        has_paca: id_field(regs.isar1, 4) >= 1,
        has_dit: id_field(regs.pfr0, 48) >= 1,
        has_flagm: id_field(regs.isar0, 52) >= 1,
        has_lrcpc2: id_field(regs.isar1, 20) >= 2,
        has_sel2: id_field(regs.pfr0, 36) >= 1,
        has_tlbios: id_field(regs.isar0, 56) >= 1,
        has_tlbirange: id_field(regs.isar0, 56) >= 2,
        has_rng: id_field(regs.isar0, 60) >= 1,
        has_memtag: id_field(regs.pfr1, 8) >= 1,
        has_sb: id_field(regs.isar1, 36) >= 1,
        has_ssbs: id_field(regs.pfr1, 4) >= 1,
        has_bti: id_field(regs.pfr1, 0) >= 1,
        has_i8mm: id_field(regs.isar1, 52) >= 1,
        has_bf16: id_field(regs.isar1, 44) >= 1,
        has_dgh: id_field(regs.isar1, 48) >= 1,
        has_afp: id_field(regs.mmfr1, 44) >= 1,
        has_rpres: id_field(regs.isar2, 4) >= 1,
        has_sve: id_field(regs.pfr0, 32) >= 1,
        has_sve2: id_field(regs.pfr0, 32) >= 2,
        has_tme: id_field(regs.isar0, 24) >= 1,
        has_trbe: id_field(regs.dfr0, 44) >= 1,
        has_pointer_auth: id_field(regs.isar1, 4) >= 1 || id_field(regs.isar1, 24) >= 1,
        has_mte: id_field(regs.pfr1, 8) >= 1,
        has_ras: id_field(regs.pfr0, 28) >= 1,
        has_mpam: id_field(regs.pfr0, 40) >= 1,
    }
}

/// The frequency the CPU is taken to run at.
pub fn get_cpu_frequency() -> (ret: Option<u64>)
    ensures
        ret == Some(1_000_000_000u64),
{
    Some(1_000_000_000)
}

/// Accepts frequencies from 100 MHz to 4 GHz.
pub fn set_cpu_frequency(freq_hz: u64) -> (ret: Result<(), &'static str>)
    ensures
        (100_000_000 <= freq_hz <= 4_000_000_000) <==> ret is Ok,
        ret matches Err(e) ==> e@ == "Invalid frequency"@,
{
    if freq_hz < 100_000_000 || freq_hz > 4_000_000_000 {
        Err("Invalid frequency")
    } else {
        Ok(())
    }
}

/// The affinity fields of MPIDR_EL1.
#[derive(Debug, Clone)]
pub struct CpuTopology {
    pub cpu_id: u32,
    pub cluster_id: u32,
    pub core_id: u32,
    pub thread_id: u32,
}

/// Decodes the topology from an MPIDR_EL1 value.
pub fn get_cpu_topology(mpidr: u64) -> (ret: CpuTopology)
    ensures
        ret.cpu_id == mpidr & 0xFF,
        ret.cluster_id == (mpidr >> 8u64) & 0xFF,
        ret.core_id == (mpidr >> 16u64) & 0xFF,
        ret.thread_id == (mpidr >> 24u64) & 0xFF,
{
    proof {
        lemma_u64_and_le(mpidr, 0xFF);
        lemma_u64_and_le(mpidr >> 8u64, 0xFF);
        lemma_u64_and_le(mpidr >> 16u64, 0xFF);
        lemma_u64_and_le(mpidr >> 24u64, 0xFF);
    }
    CpuTopology {
        cpu_id: (mpidr & 0xFF) as u32,
        cluster_id: ((mpidr >> 8) & 0xFF) as u32,
        core_id: ((mpidr >> 16) & 0xFF) as u32,
        thread_id: ((mpidr >> 24) & 0xFF) as u32,
    }
}

/// The exception level in a CurrentEL value.
pub fn current_el_from(el: u64) -> (ret: u8)
    ensures
        ret == (el >> 2u64) & 0x3,
{
    proof {
        lemma_u64_and_le(el >> 2u64, 0x3);
    }
    ((el >> 2) & 0x3) as u8
}

} // verus!
