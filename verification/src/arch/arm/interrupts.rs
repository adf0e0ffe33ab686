//! ARM (32-bit) exception kinds and the register arithmetic of the vectored
//! interrupt controller.

use vstd::prelude::*;
use super::MmioWrite32;

verus! {

/// The exceptions of the ARM exception vector.
#[derive(Debug, Clone, Copy, PartialEq, Eq, Structural)]
pub enum ArmInterrupt {
    SoftwareInterrupt,
    Reserved,
    DataAbort,
    FastInterrupt,
    IRQ,
    SupervisorCall,
    PrefetchAbort,
    Undefined,
}

/// The vectored interrupt controller.
pub const VIC_BASE: u32 = 0x10140000;

/// The writes that start the controller: every line disabled twice over
/// (enable-clear and soft-interrupt-clear), IRQ rather than FIQ, then every
/// line enabled.
pub fn init_vic() -> (ret: Vec<MmioWrite32>)
    ensures
        ret@ == seq![
            MmioWrite32 { addr: (VIC_BASE + 0x014) as u32, value: 0xFFFFFFFF },
            MmioWrite32 { addr: (VIC_BASE + 0x018) as u32, value: 0xFFFFFFFF },
            MmioWrite32 { addr: (VIC_BASE + 0x0C) as u32, value: 0 },
            MmioWrite32 { addr: (VIC_BASE + 0x010) as u32, value: 0xFFFFFFFF },
        ],
{
    let mut writes: Vec<MmioWrite32> = Vec::new();
    writes.push(MmioWrite32 { addr: VIC_BASE + 0x014, value: 0xFFFFFFFF });
    writes.push(MmioWrite32 { addr: VIC_BASE + 0x018, value: 0xFFFFFFFF });
    writes.push(MmioWrite32 { addr: VIC_BASE + 0x0C, value: 0 });
    writes.push(MmioWrite32 { addr: VIC_BASE + 0x010, value: 0xFFFFFFFF });
    writes
}

/// The enable register of `irq`.
pub fn enable_register(irq: u32) -> (ret: u32)
    requires
        VIC_BASE + 0x010 + (irq / 32) * 4 <= u32::MAX,
    ensures
        ret == VIC_BASE + 0x010 + (irq / 32) * 4,
{
    VIC_BASE + 0x010 + (irq / 32) * 4
}

/// The enable register's new value, from its `current` value, with the
/// bit of `irq` set.
pub fn enable_interrupt(irq: u32, current: u32) -> (ret: u32)
    ensures
        ret == current | (1u32 << (irq % 32)),
{
    current | (1u32 << (irq % 32))
}

/// The write that disables `irq`: its bit in the enable-clear register.
pub fn disable_interrupt(irq: u32) -> (ret: MmioWrite32)
    requires
        VIC_BASE + 0x014 + (irq / 32) * 4 <= u32::MAX,
    ensures
        ret.addr == VIC_BASE + 0x014 + (irq / 32) * 4,
        ret.value == 1u32 << (irq % 32),
{
    MmioWrite32 { addr: VIC_BASE + 0x014 + (irq / 32) * 4, value: 1u32 << (irq % 32) }
}

/// The write that ends `irq`: its number to the vector-address register.
pub fn end_of_interrupt(irq: u32) -> (ret: MmioWrite32)
    ensures
        ret.addr == VIC_BASE + 0x030,
        ret.value == irq,
{
    MmioWrite32 { addr: VIC_BASE + 0x030, value: irq }
}

} // verus!
