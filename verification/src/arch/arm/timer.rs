//! ARM (32-bit) timers: the SP804 system timer's register writes and the
//! deadlines of the busy-wait delays.

use vstd::prelude::*;
use super::MmioWrite32;

verus! {

/// An SP804 system timer at `base`.
pub struct ArmTimer {
    base: u32,
}

/// The control value `init` writes: prescaler 1, free running, interrupt
/// enabled, 32-bit counter, enabled.
pub const SP804_CONTROL: u32 = 0xE2;

impl ArmTimer {
    /// The base address of the timer's registers.
    pub closed spec fn base(&self) -> u32 {
        self.base
    }

    /// A timer at `base`.
    pub fn new(base: u32) -> (ret: Self)
        ensures
            ret.base() == base,
    {
        ArmTimer { base }
    }

    /// The writes that start the timer: the load value, then the control
    /// value.
    pub fn init(&self, freq_hz: u32) -> (ret: Vec<MmioWrite32>)
        requires
            self.base() + 0x08 <= u32::MAX,
        ensures
            ret@ == seq![
                MmioWrite32 { addr: self.base(), value: freq_hz },
                MmioWrite32 { addr: (self.base() + 0x08) as u32, value: SP804_CONTROL },
            ],
    {
        let mut writes: Vec<MmioWrite32> = Vec::new();
        writes.push(MmioWrite32 { addr: self.base, value: freq_hz });
        writes.push(MmioWrite32 { addr: self.base + 0x08, value: SP804_CONTROL });
        writes
    }

    /// The address of the current-value register.
    pub fn value_register(&self) -> (ret: u32)
        requires
            self.base() + 0x04 <= u32::MAX,
        ensures
            ret == self.base() + 0x04,
    {
        self.base + 0x04
    }

    /// The write that clears the interrupt.
    pub fn clear_interrupt_write(&self) -> (ret: MmioWrite32)
        requires
            self.base() + 0x0C <= u32::MAX,
        ensures
            ret.addr == self.base() + 0x0C,
            ret.value == 0,
    {
        MmioWrite32 { addr: self.base + 0x0C, value: 0 }
    }
}

/// The count at which a delay of `us` microseconds from `start` ends, at
/// one count per microsecond.
pub open spec fn delay_target(start: u32, us: u32) -> int {
    start + us
}

/// A busy-wait started at count `start` is over at count `current` once
/// the target is reached or the counter has wrapped below the start.
pub open spec fn delay_over(start: u32, target: int, current: u32) -> bool {
    current >= target || current < start
}

/// Whether a delay of `us` microseconds started at `start` is over at
/// `current`.
pub fn delay_us(start: u32, us: u32, current: u32) -> (ret: bool)
    requires
        start + us <= u32::MAX,
    ensures
        ret == delay_over(start, delay_target(start, us), current),
{
    let target = start + us;
    current >= target || current < start
}

/// Whether a delay of `ms` milliseconds started at `start` is over at
/// `current`.
pub fn delay_ms(start: u32, ms: u32, current: u32) -> (ret: bool)
    requires
        ms * 1000 <= u32::MAX,
        start + ms * 1000 <= u32::MAX,
    ensures
        ret == delay_over(start, delay_target(start, (ms * 1000) as u32), current),
{
    delay_us(start, ms * 1000, current)
}

} // verus!
