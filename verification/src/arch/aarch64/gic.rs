//! AArch64 Generic Interrupt Controller: the register writes that set up
//! and drive the distributor and the CPU interface.
//!
//! The controller is memory mapped. The functions here compute which
//! register to write and with what (`MmioWrite`); the caller performs the
//! writes, and hands in the values of registers it read.

use vstd::prelude::*;
use crate::bits::{lemma_u32_and_le, lemma_u64_and_le};

verus! {

/// The interrupt controller's architecture version.
#[derive(Debug, Clone, Copy, PartialEq, Eq, Structural)]
pub enum GicVersion {
    GicV2,
    GicV3,
    GicV4,
    Unknown,
}

/// Distributor register offsets.
pub const GICD_CTLR: usize = 0x000;
pub const GICD_TYPER: usize = 0x004;
pub const GICD_IIDR: usize = 0x008;
pub const GICD_IGROUPR: usize = 0x080;
pub const GICD_ISENABLER: usize = 0x100;
pub const GICD_ICENABLER: usize = 0x180;
pub const GICD_ISPENDR: usize = 0x200;
pub const GICD_ICPENDR: usize = 0x280;
pub const GICD_ISACTIVER: usize = 0x300;
pub const GICD_ICACTIVER: usize = 0x380;
pub const GICD_IPRIORITYR: usize = 0x400;
pub const GICD_ITARGETSR: usize = 0x800;
pub const GICD_ICFGR: usize = 0xC00;
pub const GICD_SGIR: usize = 0xF00;

/// CPU interface register offsets.
pub const GICC_CTLR: usize = 0x000;
pub const GICC_PMR: usize = 0x004;
pub const GICC_BPR: usize = 0x008;
pub const GICC_IAR: usize = 0x00C;
pub const GICC_EOIR: usize = 0x010;

/// A 32-bit write to the memory-mapped register at `addr`.
#[derive(Debug, Clone, Copy, PartialEq, Eq, Structural)]
pub struct MmioWrite {
    pub addr: usize,
    pub value: u32,
}

/// The distributor.
pub struct GicDistributor {
    pub base_addr: usize,
    pub version: GicVersion,
    pub num_interrupts: u32,
    pub num_cpus: u32,
}

/// The CPU interface (GICv2).
pub struct GicCpuInterface {
    pub base_addr: usize,
}

/// The redistributors (GICv3 and later), one per CPU, `stride` apart.
pub struct GicRedistributor {
    pub base_addr: usize,
    pub stride: usize,
}

/// The version the GIC field of ID_AA64PFR0_EL1 announces; other values
/// are taken for a GICv2.
pub open spec fn gic_version_of(id_aa64pfr0: u64) -> GicVersion {
    let f = (id_aa64pfr0 >> 24u64) & 0xF;
    if f == 0 {
        GicVersion::Unknown
    } else if f == 1 {
        GicVersion::GicV3
    } else if f == 2 {
        GicVersion::GicV4
    } else {
        GicVersion::GicV2
    }
}

pub fn detect_gic_version(id_aa64pfr0: u64) -> (ret: GicVersion)
    ensures
        ret == gic_version_of(id_aa64pfr0),
{
    let gic_field = (id_aa64pfr0 >> 24) & 0xF;
    match gic_field {
        0x0 => GicVersion::Unknown,
        0x1 => GicVersion::GicV3,
        0x2 => GicVersion::GicV4,
        _ => GicVersion::GicV2,
    }
}

/// The writes of a run of `count` registers from `start`, four bytes apart,
/// all with `value`.
pub open spec fn fill_writes(start: int, count: int, value: u32) -> Seq<MmioWrite> {
    if count <= 0 {
        Seq::empty()
    } else {
        Seq::new(count as nat, |i: int| MmioWrite { addr: (start + 4 * i) as usize, value })
    }
}

/// The writes `GicDistributor::init` makes, before the final enable.
pub open spec fn distributor_setup_writes(base: int, version: GicVersion, n: int) -> Seq<MmioWrite> {
    seq![MmioWrite { addr: base as usize, value: 0 }] + fill_writes(
        base + GICD_IGROUPR,
        n / 32,
        0xFFFF_FFFF,
    ) + fill_writes(base + GICD_ICENABLER, n / 32, 0xFFFF_FFFF) + fill_writes(
        base + GICD_ICPENDR,
        n / 32,
        0xFFFF_FFFF,
    ) + fill_writes(base + GICD_IPRIORITYR, n / 4, 0xA0A0_A0A0) + (if version == GicVersion::GicV2 {
        fill_writes(base + GICD_ITARGETSR + 32, n / 4 - 8, 0x0101_0101)
    } else {
        Seq::empty()
    }) + fill_writes(base + GICD_ICFGR + 8, n / 16 - 2, 0)
}

/// The addresses of a run of register writes lie from its start up to
/// four bytes per register further.
proof fn lemma_fill_addrs(start: int, count: int, value: u32)
    requires
        0 <= start,
        start + 4 * count <= usize::MAX,
    ensures
        forall|k: int|
            0 <= k < fill_writes(start, count, value).len() ==> start <= (#[trigger] fill_writes(
                start,
                count,
                value,
            )[k]).addr < start + 4 * count && fill_writes(start, count, value)[k].addr == start + 4 * k
                && fill_writes(start, count, value)[k].value == value,
{
}

/// The write of all ones to the clear-enable register `i` of the
/// distributor at `base`.
pub open spec fn clear_enable_write(base: int, i: int) -> MmioWrite {
    MmioWrite { addr: (base + 0x180 + 4 * i) as usize, value: 0xFFFF_FFFF }
}

/// Setting up the distributor disables every interrupt: for each of the
/// `n / 32` enable registers it writes all ones to the clear-enable
/// register GICD_ICENABLER (offset 0x180 + 4 i), and it writes no
/// set-enable register GICD_ISENABLER (offsets 0x100 to 0x17F).
pub proof fn lemma_setup_disables_every_interrupt(base: int, version: GicVersion, n: int)
    requires
        0 <= base,
        base + 0x1000 <= usize::MAX,
        0 <= n <= 1024,
    ensures
        forall|i: int|
            0 <= i < n / 32 ==> distributor_setup_writes(base, version, n).contains(
                #[trigger] clear_enable_write(base, i),
            ),
        forall|k: int|
            0 <= k < distributor_setup_writes(base, version, n).len() ==> !(base + 0x100
                <= (#[trigger] distributor_setup_writes(base, version, n)[k]).addr < base + 0x180),
{
    let w0 = seq![MmioWrite { addr: base as usize, value: 0 }];
    let g = fill_writes(base + GICD_IGROUPR, n / 32, 0xFFFF_FFFF);
    let c = fill_writes(base + GICD_ICENABLER, n / 32, 0xFFFF_FFFF);
    let p = fill_writes(base + GICD_ICPENDR, n / 32, 0xFFFF_FFFF);
    let pr = fill_writes(base + GICD_IPRIORITYR, n / 4, 0xA0A0_A0A0);
    let t = if version == GicVersion::GicV2 {
        fill_writes(base + GICD_ITARGETSR + 32, n / 4 - 8, 0x0101_0101)
    } else {
        Seq::empty()
    };
    let cf = fill_writes(base + GICD_ICFGR + 8, n / 16 - 2, 0);
    lemma_fill_addrs(base + GICD_IGROUPR, n / 32, 0xFFFF_FFFF);
    lemma_fill_addrs(base + GICD_ICENABLER, n / 32, 0xFFFF_FFFF);
    lemma_fill_addrs(base + GICD_ICPENDR, n / 32, 0xFFFF_FFFF);
    lemma_fill_addrs(base + GICD_IPRIORITYR, n / 4, 0xA0A0_A0A0);
    lemma_fill_addrs(base + GICD_ICFGR + 8, n / 16 - 2, 0);
    if version == GicVersion::GicV2 {
        lemma_fill_addrs(base + GICD_ITARGETSR + 32, n / 4 - 8, 0x0101_0101);
    }
    let all = distributor_setup_writes(base, version, n);
    assert(all == w0 + g + c + p + pr + t + cf);
    let front = w0 + g;
    assert forall|i: int| 0 <= i < n / 32 implies all.contains(#[trigger] clear_enable_write(base, i)) by {
        let k = front.len() + i;
        assert(c[i] == clear_enable_write(base, i));
        assert(all[k] == c[i]);
    }
    assert forall|k: int| 0 <= k < all.len() implies !(base + 0x100 <= (#[trigger] all[k]).addr < base
        + 0x180) by {
        let l1 = w0.len() as int;
        let l2 = l1 + g.len();
        let l3 = l2 + c.len();
        let l4 = l3 + p.len();
        let l5 = l4 + pr.len();
        let l6 = l5 + t.len();
        if k < l1 {
        } else if k < l2 {
            assert(all[k] == g[k - l1]);
        } else if k < l3 {
            assert(all[k] == c[k - l2]);
        } else if k < l4 {
            assert(all[k] == p[k - l3]);
        } else if k < l5 {
            assert(all[k] == pr[k - l4]);
        } else if k < l6 {
            assert(all[k] == t[k - l5]);
        } else {
            assert(all[k] == cf[k - l6]);
        }
    }
}

/// The value that enables the distributor of `version`.
pub open spec fn distributor_enable_value(version: GicVersion) -> Option<u32> {
    match version {
        GicVersion::GicV2 => Some(0x1u32),
        GicVersion::GicV3 | GicVersion::GicV4 => Some(0x37u32),
        GicVersion::Unknown => None,
    }
}

impl GicDistributor {
    /// The distributor at `base_addr` whose GICD_TYPER reads `typer`:
    /// 32 interrupts per ITLinesNumber step, and CPUNumber + 1 CPUs.
    pub fn new(base_addr: usize, version: GicVersion, typer: u32) -> (ret: Result<Self, &'static str>)
        ensures
            ret matches Ok(d) && d.base_addr == base_addr && d.version == version && d.num_interrupts
                == ((typer & 0x1F) + 1) * 32 && d.num_cpus == ((typer >> 5u32) & 0x7) + 1,
    {
        proof {
            lemma_u32_and_le(typer, 0x1F);
            lemma_u32_and_le(typer >> 5u32, 0x7);
        }
        let num_interrupts = ((typer & 0x1F) + 1) * 32;
        let num_cpus = ((typer >> 5) & 0x7) + 1;
        Ok(GicDistributor { base_addr, version, num_interrupts, num_cpus })
    }

    /// Its registers have addresses that fit in a `usize`, and it has at most
    /// 1024 interrupts.
    pub open spec fn fits(&self) -> bool {
        self.base_addr + 0x1000 <= usize::MAX && self.num_interrupts <= 1024
    }

    fn push_fill(writes: &mut Vec<MmioWrite>, start: usize, from: u32, to: u32, value: u32)
        requires
            from <= to,
            start + 4 * to <= usize::MAX,
        ensures
            final(writes)@ == old(writes)@ + fill_writes(start + 4 * from, to - from, value),
    {
        let mut i = from;
        while i < to
            invariant
                from <= i <= to,
                start + 4 * to <= usize::MAX,
                writes@ == old(writes)@ + fill_writes(start + 4 * from, i - from, value),
            decreases to - i,
        {
            writes.push(MmioWrite { addr: start + (i as usize) * 4, value });
            assert(writes@ =~= old(writes)@ + fill_writes(start + 4 * from, i + 1 - from, value));
            i = i + 1;
        }
    }

    /// The writes that set the distributor up: disable it, put every
    /// interrupt in group 1, disable and clear them all, give them the
    /// default priority, target CPU 0 (GICv2), make them level-triggered,
    /// and enable the distributor again. An unknown version gets every
    /// write but the last, and an error.
    pub fn init(&self) -> (ret: (Vec<MmioWrite>, Result<(), &'static str>))
        requires
            self.fits(),
        ensures
            ({
                let setup = distributor_setup_writes(
                    self.base_addr as int,
                    self.version,
                    self.num_interrupts as int,
                );
                match distributor_enable_value(self.version) {
                    Some(v) => ret.0@ == setup.push(MmioWrite { addr: self.base_addr, value: v })
                        && ret.1 is Ok,
                    None => ret.0@ == setup && (ret.1 matches Err(e) && e@
                        == "Unsupported GIC version"@),
                }
            }),
    {
        let base = self.base_addr;
        let n = self.num_interrupts;
        let mut writes: Vec<MmioWrite> = Vec::new();
        writes.push(MmioWrite { addr: base + GICD_CTLR, value: 0 });
        Self::push_fill(&mut writes, base + GICD_IGROUPR, 0, n / 32, 0xFFFF_FFFF);
        Self::push_fill(&mut writes, base + GICD_ICENABLER, 0, n / 32, 0xFFFF_FFFF);
        Self::push_fill(&mut writes, base + GICD_ICPENDR, 0, n / 32, 0xFFFF_FFFF);
        Self::push_fill(&mut writes, base + GICD_IPRIORITYR, 0, n / 4, 0xA0A0_A0A0);
        let ghost before_targets = writes@;
        if self.version == GicVersion::GicV2 && 8 <= n / 4 {
            Self::push_fill(&mut writes, base + GICD_ITARGETSR, 8, n / 4, 0x0101_0101);
        }
        let ghost after_targets = writes@;
        if 2 <= n / 16 {
            Self::push_fill(&mut writes, base + GICD_ICFGR, 2, n / 16, 0);
        }
        proof {
            let b = base as int;
            let ni = n as int;
            if !(self.version == GicVersion::GicV2 && 8 <= n / 4) {
                if self.version == GicVersion::GicV2 {
                    assert(fill_writes(b + GICD_ITARGETSR + 32, ni / 4 - 8, 0x0101_0101) =~= Seq::empty());
                }
                assert(after_targets =~= before_targets);
            }
            if !(2 <= n / 16) {
                assert(fill_writes(b + GICD_ICFGR + 8, ni / 16 - 2, 0) =~= Seq::empty());
            }
            assert(writes@ =~= distributor_setup_writes(b, self.version, ni));
        }
        match self.version {
            GicVersion::GicV2 => {
                writes.push(MmioWrite { addr: base + GICD_CTLR, value: 0x1 });
                (writes, Ok(()))
            },
            GicVersion::GicV3 | GicVersion::GicV4 => {
                writes.push(MmioWrite { addr: base + GICD_CTLR, value: 0x37 });
                (writes, Ok(()))
            },
            _ => (writes, Err("Unsupported GIC version")),
        }
    }

    /// Sets the interrupt's bit in its GICD_ISENABLER register; nothing
    /// for an interrupt the distributor does not have.
    pub fn enable_interrupt(&self, interrupt_id: u32) -> (ret: Option<MmioWrite>)
        requires
            self.fits(),
        ensures
            interrupt_id >= self.num_interrupts ==> ret is None,
            interrupt_id < self.num_interrupts ==> ret == Some(
                MmioWrite {
                    addr: (self.base_addr + GICD_ISENABLER + (interrupt_id / 32) * 4) as usize,
                    value: 1u32 << (interrupt_id % 32),
                },
            ),
    {
        if interrupt_id >= self.num_interrupts {
            return None;
        }
        let reg_idx = (interrupt_id / 32) as usize;
        let bit_idx = interrupt_id % 32;
        Some(MmioWrite { addr: self.base_addr + GICD_ISENABLER + reg_idx * 4, value: 1u32 << bit_idx })
    }

    /// Sets the interrupt's bit in its GICD_ICENABLER register; nothing
    /// for an interrupt the distributor does not have.
    pub fn disable_interrupt(&self, interrupt_id: u32) -> (ret: Option<MmioWrite>)
        requires
            self.fits(),
        ensures
            interrupt_id >= self.num_interrupts ==> ret is None,
            interrupt_id < self.num_interrupts ==> ret == Some(
                MmioWrite {
                    addr: (self.base_addr + GICD_ICENABLER + (interrupt_id / 32) * 4) as usize,
                    value: 1u32 << (interrupt_id % 32),
                },
            ),
    {
        if interrupt_id >= self.num_interrupts {
            return None;
        }
        let reg_idx = (interrupt_id / 32) as usize;
        let bit_idx = interrupt_id % 32;
        Some(MmioWrite { addr: self.base_addr + GICD_ICENABLER + reg_idx * 4, value: 1u32 << bit_idx })
    }

    /// Replaces the interrupt's byte in its GICD_IPRIORITYR register, which
    /// reads `current`, by `priority`.
    pub fn set_priority(&self, interrupt_id: u32, priority: u8, current: u32) -> (ret: Option<MmioWrite>)
        requires
            self.fits(),
        ensures
            interrupt_id >= self.num_interrupts ==> ret is None,
            interrupt_id < self.num_interrupts ==> ret == Some(
                MmioWrite {
                    addr: (self.base_addr + GICD_IPRIORITYR + (interrupt_id / 4) * 4) as usize,
                    value: (current & !(0xFFu32 << ((interrupt_id % 4) * 8))) | ((priority as u32) << ((
                    interrupt_id % 4) * 8)),
                },
            ),
    {
        if interrupt_id >= self.num_interrupts {
            return None;
        }
        let reg_idx = (interrupt_id / 4) as usize;
        let byte_idx = (interrupt_id % 4) * 8;
        let mut reg_val = current;
        reg_val = reg_val & !(0xFFu32 << byte_idx);
        reg_val = reg_val | ((priority as u32) << byte_idx);
        Some(MmioWrite { addr: self.base_addr + GICD_IPRIORITYR + reg_idx * 4, value: reg_val })
    }

    /// Writes GICD_SGIR with the target CPU list and the interrupt; only a
    /// GICv2 distributor sends software interrupts this way.
    pub fn send_sgi(&self, target_cpu: u8, interrupt_id: u8) -> (ret: Option<MmioWrite>)
        requires
            self.fits(),
        ensures
            self.version != GicVersion::GicV2 ==> ret is None,
            self.version == GicVersion::GicV2 ==> ret == Some(
                MmioWrite {
                    addr: (self.base_addr + GICD_SGIR) as usize,
                    value: ((target_cpu as u32) << 16u32) | (interrupt_id as u32),
                },
            ),
    {
        if self.version != GicVersion::GicV2 {
            return None;
        }
        let sgir_val = ((target_cpu as u32) << 16) | (interrupt_id as u32);
        Some(MmioWrite { addr: self.base_addr + GICD_SGIR, value: sgir_val })
    }
}

impl GicCpuInterface {
    pub fn new(base_addr: usize) -> (ret: Result<Self, &'static str>)
        ensures
            ret matches Ok(c) && c.base_addr == base_addr,
    {
        Ok(GicCpuInterface { base_addr })
    }

    /// Unmask every priority, no preemption grouping, enable the interface.
    pub fn init(&self) -> (ret: Vec<MmioWrite>)
        requires
            self.base_addr + 0x1000 <= usize::MAX,
        ensures
            ret@ == seq![
                MmioWrite { addr: (self.base_addr + GICC_PMR) as usize, value: 0xF0 },
                MmioWrite { addr: (self.base_addr + GICC_BPR) as usize, value: 0 },
                MmioWrite { addr: self.base_addr, value: 0x1 },
            ],
    {
        let mut writes = Vec::new();
        writes.push(MmioWrite { addr: self.base_addr + GICC_PMR, value: 0xF0 });
        writes.push(MmioWrite { addr: self.base_addr + GICC_BPR, value: 0 });
        writes.push(MmioWrite { addr: self.base_addr + GICC_CTLR, value: 0x1 });
        assert(writes@ =~= seq![
            MmioWrite { addr: (self.base_addr + GICC_PMR) as usize, value: 0xF0 },
            MmioWrite { addr: (self.base_addr + GICC_BPR) as usize, value: 0 },
            MmioWrite { addr: self.base_addr, value: 0x1 },
        ]);
        writes
    }

    /// The interrupt identifier in a GICC_IAR value.
    pub fn get_interrupt_id(&self, iar: u32) -> (ret: u32)
        ensures
            ret == iar & 0x3FF,
            ret <= 1023,
    {
        proof {
            lemma_u32_and_le(iar, 0x3FF);
        }
        iar & 0x3FF
    }

    /// The write to GICC_EOIR that ends the interrupt.
    pub fn end_of_interrupt(&self, interrupt_id: u32) -> (ret: MmioWrite)
        requires
            self.base_addr + 0x1000 <= usize::MAX,
        ensures
            ret == (MmioWrite { addr: (self.base_addr + GICC_EOIR) as usize, value: interrupt_id }),
    {
        MmioWrite { addr: self.base_addr + GICC_EOIR, value: interrupt_id }
    }
}

impl GicRedistributor {
    pub fn new(base_addr: usize, stride: usize) -> (ret: Result<Self, &'static str>)
        ensures
            ret matches Ok(r) && r.base_addr == base_addr && r.stride == stride,
    {
        Ok(GicRedistributor { base_addr, stride })
    }
}

/// The writes that configure an interrupt's trigger and, on GICv2 for a
/// shared interrupt, its target CPU, from the current GICD_ICFGR and
/// GICD_ITARGETSR values.
pub fn configure_interrupt(
    distributor: &GicDistributor,
    interrupt_id: u32,
    edge_triggered: bool,
    target_cpu: u8,
    icfgr_current: u32,
    itargetsr_current: u32,
) -> (ret: Vec<MmioWrite>)
    requires
        distributor.fits(),
        interrupt_id < 1024,
        target_cpu < 32,
    ensures
        ({
            let bit_idx = ((interrupt_id % 16) * 2) as u32;
            let icfgr = MmioWrite {
                addr: (distributor.base_addr + GICD_ICFGR + (interrupt_id / 16) * 4) as usize,
                value: if edge_triggered {
                    icfgr_current | (0x2u32 << bit_idx)
                } else {
                    icfgr_current & !(0x2u32 << bit_idx)
                },
            };
            let byte_idx = ((interrupt_id % 4) * 8) as u32;
            let targets = MmioWrite {
                addr: (distributor.base_addr + GICD_ITARGETSR + (interrupt_id / 4) * 4) as usize,
                value: (itargetsr_current & !(0xFFu32 << byte_idx)) | ((1u32 << target_cpu) << byte_idx),
            };
            if distributor.version == GicVersion::GicV2 && interrupt_id >= 32 {
                ret@ == seq![icfgr, targets]
            } else {
                ret@ == seq![icfgr]
            }
        }),
{
    let mut writes = Vec::new();
    let reg_idx = (interrupt_id / 16) as usize;
    let bit_idx = (interrupt_id % 16) * 2;
    let icfgr_offset = GICD_ICFGR + reg_idx * 4;
    let mut icfgr_val = icfgr_current;
    if edge_triggered {
        icfgr_val = icfgr_val | (0x2u32 << bit_idx);
    } else {
        icfgr_val = icfgr_val & !(0x2u32 << bit_idx);
    }
    writes.push(MmioWrite { addr: distributor.base_addr + icfgr_offset, value: icfgr_val });
    if distributor.version == GicVersion::GicV2 && interrupt_id >= 32 {
        let reg_idx = (interrupt_id / 4) as usize;
        let byte_idx = (interrupt_id % 4) * 8;
        let itargetsr_offset = GICD_ITARGETSR + reg_idx * 4;
        let mut itargetsr_val = itargetsr_current;
        itargetsr_val = itargetsr_val & !(0xFFu32 << byte_idx);
        itargetsr_val = itargetsr_val | ((1u32 << target_cpu) << byte_idx);
        writes.push(MmioWrite { addr: distributor.base_addr + itargetsr_offset, value: itargetsr_val });
    }
    writes
}

/// The version, number of interrupts and number of CPUs of the
/// distributor, when there is one.
pub fn get_gic_info(distributor: Option<&GicDistributor>) -> (ret: (GicVersion, u32, u32))
    ensures
        match distributor {
            Some(d) => ret == (d.version, d.num_interrupts, d.num_cpus),
            None => ret == (GicVersion::Unknown, 0u32, 0u32),
        },
{
    match distributor {
        Some(d) => (d.version, d.num_interrupts, d.num_cpus),
        None => (GicVersion::Unknown, 0, 0),
    }
}

/// The CPU number in the Aff0 field of an MPIDR_EL1 value.
pub fn get_current_cpu_id(mpidr: u64) -> (ret: usize)
    ensures
        ret == mpidr & 0xFF,
{
    proof {
        lemma_u64_and_le(mpidr, 0xFF);
    }
    (mpidr & 0xFF) as usize
}

} // verus!
