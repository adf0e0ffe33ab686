//! AArch64 generic timer: conversions between counter ticks and time, and
//! the compare values that one-shot, periodic and watchdog timers program.
//!
//! Reading the counters and writing the timer registers is the caller's:
//! functions take the counter value read, and return the compare value to
//! write (`TimerProgram`).

use vstd::prelude::*;
use vstd::arithmetic::div_mod::{
    lemma_div_by_multiple, lemma_div_denominator, lemma_div_is_ordered, lemma_div_multiples_vanish,
    lemma_fundamental_div_mod,
};

verus! {

/// The timers of the architecture.
#[derive(Debug, Clone, Copy, PartialEq, Eq, Structural)]
pub enum TimerType {
    Physical,
    Virtual,
    Hypervisor,
    SecurePhysical,
}

/// The EL1 timer a timer type is driven through: the physical timer for
/// `Physical`, the virtual timer for every other type.
pub open spec fn el1_timer(t: TimerType) -> TimerType {
    if t == TimerType::Physical { TimerType::Physical } else { TimerType::Virtual }
}

/// Timer interrupt configuration.
#[derive(Debug, Clone, Copy)]
pub struct TimerConfig {
    pub timer_type: TimerType,
    pub interrupt_enabled: bool,
    pub auto_reload: bool,
    pub initial_count: u64,
}

impl Default for TimerConfig {
    fn default() -> (ret: Self)
        ensures
            ret.timer_type == TimerType::Virtual,
            ret.interrupt_enabled,
            !ret.auto_reload,
            ret.initial_count == 0,
    {
        TimerConfig {
            timer_type: TimerType::Virtual,
            interrupt_enabled: true,
            auto_reload: false,
            initial_count: 0,
        }
    }
}

/// A write of the compare value and enable bit of an EL1 timer.
#[derive(Debug, Clone, Copy, PartialEq, Eq, Structural)]
pub struct TimerProgram {
    pub timer: TimerType,
    pub compare: u64,
    pub enable: bool,
}

/// The generic timer and the counter frequency read from CNTFRQ_EL0.
pub struct GenericTimer {
    frequency: u64,
    enabled: bool,
}

impl GenericTimer {
    pub closed spec fn freq(&self) -> u64 {
        self.frequency
    }

    pub closed spec fn on(&self) -> bool {
        self.enabled
    }

    pub fn new() -> (ret: Self)
        ensures
            ret.freq() == 0,
            !ret.on(),
    {
        GenericTimer { frequency: 0, enabled: false }
    }

    /// Takes the frequency read from CNTFRQ_EL0; a zero frequency is an
    /// error and leaves the timer disabled.
    pub fn init(&mut self, frequency: u64) -> (ret: Result<(), &'static str>)
        ensures
            final(self).freq() == frequency,
            frequency == 0 ==> (ret matches Err(e) && e@ == "Timer frequency is zero"@) && final(self).on() == old(self).on(),
            frequency != 0 ==> ret is Ok && final(self).on(),
    {
        self.frequency = frequency;
        if self.frequency == 0 {
            return Err("Timer frequency is zero");
        }
        self.enabled = true;
        Ok(())
    }

    pub fn get_frequency(&self) -> (ret: u64)
        ensures
            ret == self.freq(),
    {
        self.frequency
    }

    pub fn is_enabled(&self) -> (ret: bool)
        ensures
            ret == self.on(),
    {
        self.enabled
    }

    pub fn ticks_to_ms(&self, ticks: u64) -> (ret: u64)
        requires
            self.freq() > 0,
            ticks * 1000 <= u64::MAX,
        ensures
            ret == (ticks * 1000) / self.freq() as int,
    {
        (ticks * 1000) / self.frequency
    }

    pub fn ticks_to_us(&self, ticks: u64) -> (ret: u64)
        requires
            self.freq() > 0,
            ticks * 1_000_000 <= u64::MAX,
        ensures
            ret == (ticks * 1_000_000) / self.freq() as int,
    {
        (ticks * 1_000_000) / self.frequency
    }

    pub fn ticks_to_ns(&self, ticks: u64) -> (ret: u64)
        requires
            self.freq() > 0,
            ticks * 1_000_000_000 <= u64::MAX,
        ensures
            ret == (ticks * 1_000_000_000) / self.freq() as int,
    {
        (ticks * 1_000_000_000) / self.frequency
    }

    pub fn ms_to_ticks(&self, ms: u64) -> (ret: u64)
        requires
            ms * self.freq() <= u64::MAX,
        ensures
            ret == (ms * self.freq()) / 1000,
    {
        (ms * self.frequency) / 1000
    }

    pub fn us_to_ticks(&self, us: u64) -> (ret: u64)
        requires
            us * self.freq() <= u64::MAX,
        ensures
            ret == (us * self.freq()) / 1_000_000,
    {
        (us * self.frequency) / 1_000_000
    }

    pub fn ns_to_ticks(&self, ns: u64) -> (ret: u64)
        requires
            ns * self.freq() <= u64::MAX,
        ensures
            ret == (ns * self.freq()) / 1_000_000_000,
    {
        (ns * self.frequency) / 1_000_000_000
    }

    /// Milliseconds since the counter started, from the virtual count.
    pub fn get_uptime_ms(&self, current_count: u64) -> (ret: u64)
        requires
            self.freq() > 0,
            current_count * 1000 <= u64::MAX,
        ensures
            ret == (current_count * 1000) / self.freq() as int,
    {
        self.ticks_to_ms(current_count)
    }

    /// Microseconds since the counter started, from the virtual count.
    pub fn get_uptime_us(&self, current_count: u64) -> (ret: u64)
        requires
            self.freq() > 0,
            current_count * 1_000_000 <= u64::MAX,
        ensures
            ret == (current_count * 1_000_000) / self.freq() as int,
    {
        self.ticks_to_us(current_count)
    }

    /// Nanoseconds since the counter started, from the virtual count.
    pub fn get_uptime_ns(&self, current_count: u64) -> (ret: u64)
        requires
            self.freq() > 0,
            current_count * 1_000_000_000 <= u64::MAX,
        ensures
            ret == (current_count * 1_000_000_000) / self.freq() as int,
    {
        self.ticks_to_ns(current_count)
    }

    /// Moves the virtual timer's compare value one second past the count
    /// and disables it, which clears its interrupt.
    pub fn clear_virtual_timer_interrupt(&self, current_count: u64) -> (ret: TimerProgram)
        requires
            current_count + self.freq() <= u64::MAX,
        ensures
            ret == (TimerProgram {
                timer: TimerType::Virtual,
                compare: (current_count + self.freq()) as u64,
                enable: false,
            }),
    {
        TimerProgram { timer: TimerType::Virtual, compare: current_count + self.frequency, enable: false }
    }

    /// Moves the physical timer's compare value one second past the count
    /// and disables it, which clears its interrupt.
    pub fn clear_physical_timer_interrupt(&self, current_count: u64) -> (ret: TimerProgram)
        requires
            current_count + self.freq() <= u64::MAX,
        ensures
            ret == (TimerProgram {
                timer: TimerType::Physical,
                compare: (current_count + self.freq()) as u64,
                enable: false,
            }),
    {
        TimerProgram { timer: TimerType::Physical, compare: current_count + self.frequency, enable: false }
    }

    /// Arms the timer of `timer_type` to fire `milliseconds` after the
    /// count read from that timer's counter.
    pub fn schedule_timeout_ms(&self, milliseconds: u64, timer_type: TimerType, current_count: u64) -> (ret:
        TimerProgram)
        requires
            milliseconds * self.freq() <= u64::MAX,
            current_count + (milliseconds * self.freq()) / 1000 <= u64::MAX,
        ensures
            ret == (TimerProgram {
                timer: el1_timer(timer_type),
                compare: (current_count + (milliseconds * self.freq()) / 1000) as u64,
                enable: true,
            }),
    {
        let ticks = (milliseconds * self.frequency) / 1000;
        let target_count = current_count + ticks;
        match timer_type {
            TimerType::Physical => TimerProgram { timer: TimerType::Physical, compare: target_count, enable: true },
            _ => TimerProgram { timer: TimerType::Virtual, compare: target_count, enable: true },
        }
    }

    /// Arms the timer of `timer_type` to fire `microseconds` after the
    /// count read from that timer's counter.
    pub fn schedule_timeout_us(&self, microseconds: u64, timer_type: TimerType, current_count: u64) -> (ret:
        TimerProgram)
        requires
            microseconds * self.freq() <= u64::MAX,
            current_count + (microseconds * self.freq()) / 1_000_000 <= u64::MAX,
        ensures
            ret == (TimerProgram {
                timer: el1_timer(timer_type),
                compare: (current_count + (microseconds * self.freq()) / 1_000_000) as u64,
                enable: true,
            }),
    {
        let ticks = (microseconds * self.frequency) / 1_000_000;
        let target_count = current_count + ticks;
        match timer_type {
            TimerType::Physical => TimerProgram { timer: TimerType::Physical, compare: target_count, enable: true },
            _ => TimerProgram { timer: TimerType::Virtual, compare: target_count, enable: true },
        }
    }

    /// The count a busy wait of `milliseconds` from `start_count` waits
    /// for.
    pub fn delay_ms(&self, milliseconds: u64, start_count: u64) -> (ret: u64)
        requires
            milliseconds * self.freq() <= u64::MAX,
            start_count + (milliseconds * self.freq()) / 1000 <= u64::MAX,
        ensures
            ret == start_count + (milliseconds * self.freq()) / 1000,
    {
        let delay_ticks = (milliseconds * self.frequency) / 1000;
        start_count + delay_ticks
    }

    /// The count a busy wait of `microseconds` from `start_count` waits
    /// for.
    pub fn delay_us(&self, microseconds: u64, start_count: u64) -> (ret: u64)
        requires
            microseconds * self.freq() <= u64::MAX,
            start_count + (microseconds * self.freq()) / 1_000_000 <= u64::MAX,
        ensures
            ret == start_count + (microseconds * self.freq()) / 1_000_000,
    {
        let delay_ticks = (microseconds * self.frequency) / 1_000_000;
        start_count + delay_ticks
    }
}

/// Measures time from a starting count.
pub struct HighResTimer {
    pub start_count: u64,
    pub frequency: u64,
}

impl HighResTimer {
    /// A measurement starting at `current_count`, at the timer's frequency.
    pub fn new(timer: &GenericTimer, current_count: u64) -> (ret: Self)
        ensures
            ret.start_count == current_count,
            ret.frequency == timer.freq(),
    {
        HighResTimer { start_count: current_count, frequency: timer.get_frequency() }
    }

    /// Restarts the measurement at `current_count`.
    pub fn start(&mut self, current_count: u64)
        ensures
            final(self).start_count == current_count,
            final(self).frequency == old(self).frequency,
    {
        self.start_count = current_count;
    }

    pub fn elapsed_ns(&self, timer: &GenericTimer, current_count: u64) -> (ret: u64)
        requires
            timer.freq() > 0,
            self.start_count <= current_count,
            (current_count - self.start_count) * 1_000_000_000 <= u64::MAX,
        ensures
            ret == ((current_count - self.start_count) * 1_000_000_000) / timer.freq() as int,
    {
        let elapsed_ticks = current_count - self.start_count;
        timer.ticks_to_ns(elapsed_ticks)
    }

    pub fn elapsed_us(&self, timer: &GenericTimer, current_count: u64) -> (ret: u64)
        requires
            timer.freq() > 0,
            self.start_count <= current_count,
            (current_count - self.start_count) * 1_000_000 <= u64::MAX,
        ensures
            ret == ((current_count - self.start_count) * 1_000_000) / timer.freq() as int,
    {
        let elapsed_ticks = current_count - self.start_count;
        timer.ticks_to_us(elapsed_ticks)
    }

    pub fn elapsed_ms(&self, timer: &GenericTimer, current_count: u64) -> (ret: u64)
        requires
            timer.freq() > 0,
            self.start_count <= current_count,
            (current_count - self.start_count) * 1000 <= u64::MAX,
        ensures
            ret == ((current_count - self.start_count) * 1000) / timer.freq() as int,
    {
        let elapsed_ticks = current_count - self.start_count;
        timer.ticks_to_ms(elapsed_ticks)
    }
}

/// Fires every `interval_ticks`.
pub struct PeriodicTimer {
    pub interval_ticks: u64,
    pub next_trigger: u64,
    pub timer_type: TimerType,
}

impl PeriodicTimer {
    /// A timer whose first trigger is one interval after `current_count`.
    pub fn new(interval_ms: u64, timer_type: TimerType, timer: &GenericTimer, current_count: u64) -> (ret: Self)
        requires
            interval_ms * timer.freq() <= u64::MAX,
            current_count + (interval_ms * timer.freq()) / 1000 <= u64::MAX,
        ensures
            ret.interval_ticks == (interval_ms * timer.freq()) / 1000,
            ret.next_trigger == current_count + ret.interval_ticks,
            ret.timer_type == timer_type,
    {
        let interval_ticks = timer.ms_to_ticks(interval_ms);
        PeriodicTimer { interval_ticks, next_trigger: current_count + interval_ticks, timer_type }
    }

    /// Arms the timer for the next trigger.
    pub fn start(&mut self) -> (ret: TimerProgram)
        ensures
            *final(self) == *old(self),
            ret == (TimerProgram {
                timer: el1_timer(old(self).timer_type),
                compare: old(self).next_trigger,
                enable: true,
            }),
    {
        match self.timer_type {
            TimerType::Physical => TimerProgram { timer: TimerType::Physical, compare: self.next_trigger, enable: true },
            _ => TimerProgram { timer: TimerType::Virtual, compare: self.next_trigger, enable: true },
        }
    }

    /// Moves the trigger one interval on and arms the timer for it.
    pub fn handle_interrupt(&mut self) -> (ret: TimerProgram)
        requires
            old(self).next_trigger + old(self).interval_ticks <= u64::MAX,
        ensures
            *final(self) == after_interrupt(*old(self)),
            final(self).next_trigger == old(self).next_trigger + old(self).interval_ticks,
            final(self).interval_ticks == old(self).interval_ticks,
            final(self).timer_type == old(self).timer_type,
            ret == (TimerProgram {
                timer: el1_timer(final(self).timer_type),
                compare: final(self).next_trigger,
                enable: true,
            }),
    {
        self.next_trigger = self.next_trigger + self.interval_ticks;
        self.start()
    }

    /// The EL1 timer to disable.
    pub fn stop(&self) -> (ret: TimerType)
        ensures
            ret == el1_timer(self.timer_type),
    {
        match self.timer_type {
            TimerType::Physical => TimerType::Physical,
            _ => TimerType::Virtual,
        }
    }
}

/// Fires when not kicked within its timeout, on the virtual timer.
pub struct WatchdogTimer {
    pub timeout_ticks: u64,
    pub enabled: bool,
}

impl WatchdogTimer {
    pub fn new(timeout_ms: u64, timer: &GenericTimer) -> (ret: Self)
        requires
            timeout_ms * timer.freq() <= u64::MAX,
        ensures
            ret.timeout_ticks == (timeout_ms * timer.freq()) / 1000,
            !ret.enabled,
    {
        let timeout_ticks = timer.ms_to_ticks(timeout_ms);
        WatchdogTimer { timeout_ticks, enabled: false }
    }

    /// Arms the virtual timer one timeout after `current_count`.
    pub fn start(&mut self, current_count: u64) -> (ret: TimerProgram)
        requires
            current_count + old(self).timeout_ticks <= u64::MAX,
        ensures
            final(self).enabled,
            final(self).timeout_ticks == old(self).timeout_ticks,
            ret == (TimerProgram {
                timer: TimerType::Virtual,
                compare: (current_count + old(self).timeout_ticks) as u64,
                enable: true,
            }),
    {
        let timeout_count = current_count + self.timeout_ticks;
        self.enabled = true;
        TimerProgram { timer: TimerType::Virtual, compare: timeout_count, enable: true }
    }

    /// Pushes the deadline one timeout past `current_count`, when armed.
    pub fn kick(&mut self, current_count: u64) -> (ret: Option<TimerProgram>)
        requires
            current_count + old(self).timeout_ticks <= u64::MAX,
        ensures
            final(self).enabled == old(self).enabled,
            final(self).timeout_ticks == old(self).timeout_ticks,
            !old(self).enabled ==> ret is None,
            old(self).enabled ==> ret == Some(
                TimerProgram {
                    timer: TimerType::Virtual,
                    compare: (current_count + old(self).timeout_ticks) as u64,
                    enable: true,
                },
            ),
    {
        if self.enabled {
            let timeout_count = current_count + self.timeout_ticks;
            Some(TimerProgram { timer: TimerType::Virtual, compare: timeout_count, enable: true })
        } else {
            None
        }
    }

    /// Disarms the watchdog; the caller disables the virtual timer.
    pub fn stop(&mut self)
        ensures
            !final(self).enabled,
            final(self).timeout_ticks == old(self).timeout_ticks,
    {
        self.enabled = false;
    }

    pub fn is_enabled(&self) -> (ret: bool)
        ensures
            ret == self.enabled,
    {
        self.enabled
    }
}

/// Milliseconds turned into ticks and back never come out longer; at a
/// frequency of a whole number of kilohertz they come out the same.
pub proof fn lemma_ms_round_trip(timer: &GenericTimer, ms: u64)
    requires
        timer.freq() > 0,
    ensures
        ((ms * timer.freq()) / 1000) * 1000 / (timer.freq() as int) <= ms,
        timer.freq() % 1000 == 0 ==> ((ms * timer.freq()) / 1000) * 1000 / (timer.freq() as int) == ms,
{
    let f = timer.freq() as int;
    let m = ms as int;
    let t = (m * f) / 1000;
    lemma_fundamental_div_mod(m * f, 1000);
    assert(t * 1000 <= m * f) by (nonlinear_arith)
        requires
            m * f == 1000 * t + (m * f) % 1000,
            (m * f) % 1000 >= 0,
    ;
    lemma_div_is_ordered(t * 1000, m * f, f);
    lemma_div_by_multiple(m, f);
    if f % 1000 == 0 {
        let k = f / 1000;
        lemma_fundamental_div_mod(f, 1000);
        assert(m * f == (m * k) * 1000) by (nonlinear_arith)
            requires
                f == 1000 * k + f % 1000,
                f % 1000 == 0,
        ;
        assert(m * k >= 0) by (nonlinear_arith)
            requires
                m >= 0,
                f >= 0,
                f == 1000 * k,
        ;
        lemma_div_by_multiple(m * k, 1000);
    }
}

/// The three conversions into ticks agree on the same span given in
/// milliseconds, microseconds and nanoseconds, and a longer span never
/// gives fewer ticks.
pub proof fn lemma_ticks_units_agree(timer: &GenericTimer, x: u64, y: u64)
    requires
        x <= y,
    ensures
        (1000 * x * timer.freq()) / 1_000_000 == (x * timer.freq()) / 1000,
        (1_000_000 * x * timer.freq()) / 1_000_000_000 == (x * timer.freq()) / 1000,
        (x * timer.freq()) / 1000 <= (y * timer.freq()) / 1000,
{
    let f = timer.freq() as int;
    let a = x * f;
    assert(a >= 0) by (nonlinear_arith)
        requires
            x >= 0,
            f >= 0,
            a == x * f,
    ;
    assert(1000 * x * f == 1000 * a && 1_000_000 * x * f == 1_000_000 * a) by (nonlinear_arith)
        requires
            a == x * f,
    ;
    lemma_div_multiples_vanish(a, 1000);
    lemma_div_denominator(1000 * a, 1000, 1000);
    lemma_div_multiples_vanish(a, 1_000_000);
    lemma_div_denominator(1_000_000 * a, 1_000_000, 1000);
    assert(x * f <= y * f) by (nonlinear_arith)
        requires
            x <= y,
            f >= 0,
    ;
    lemma_div_is_ordered(x * f, y * f, 1000);
}

/// A periodic timer after one interrupt: its trigger one interval on.
pub open spec fn after_interrupt(p: PeriodicTimer) -> PeriodicTimer {
    PeriodicTimer {
        interval_ticks: p.interval_ticks,
        next_trigger: (p.next_trigger + p.interval_ticks) as u64,
        timer_type: p.timer_type,
    }
}

/// A periodic timer after `k` interrupts.
pub open spec fn after_interrupts(p: PeriodicTimer, k: nat) -> PeriodicTimer
    decreases k,
{
    if k == 0 {
        p
    } else {
        after_interrupt(after_interrupts(p, (k - 1) as nat))
    }
}

/// A periodic timer does not drift: after `k` interrupts its trigger has
/// moved exactly `k` intervals from where it started, whatever the counter
/// read in between, and its interval and timer are as they were. The
/// `k`-th interrupt arms the timer for that trigger.
pub proof fn lemma_periodic_no_drift(p: PeriodicTimer, k: nat)
    requires
        p.next_trigger + k * p.interval_ticks <= u64::MAX,
    ensures
        after_interrupts(p, k).next_trigger == p.next_trigger + k * p.interval_ticks,
        after_interrupts(p, k).interval_ticks == p.interval_ticks,
        after_interrupts(p, k).timer_type == p.timer_type,
    decreases k,
{
    if k > 0 {
        assert((k - 1) * p.interval_ticks <= k * p.interval_ticks) by (nonlinear_arith)
            requires
                k > 0,
        ;
        assert(k * p.interval_ticks == (k - 1) * p.interval_ticks + p.interval_ticks) by (nonlinear_arith);
        lemma_periodic_no_drift(p, (k - 1) as nat);
        let q = after_interrupts(p, (k - 1) as nat);
        assert(q.next_trigger + q.interval_ticks == p.next_trigger + k * p.interval_ticks);
        assert(after_interrupts(p, k) == after_interrupt(q));
    } else {
        assert(k * p.interval_ticks == 0) by (nonlinear_arith)
            requires
                k == 0,
        ;
    }
}

/// The writes a timer interrupt makes: the one that clears the virtual
/// timer's interrupt when it is pending, then the one that clears the
/// physical timer's when that is pending.
pub open spec fn timer_interrupt_writes(
    freq: u64,
    virtual_pending: bool,
    virtual_count: u64,
    physical_pending: bool,
    physical_count: u64,
) -> Seq<TimerProgram> {
    let v = if virtual_pending {
        seq![TimerProgram { timer: TimerType::Virtual, compare: (virtual_count + freq) as u64, enable: false }]
    } else {
        Seq::empty()
    };
    let p = if physical_pending {
        seq![TimerProgram { timer: TimerType::Physical, compare: (physical_count + freq) as u64, enable: false }]
    } else {
        Seq::empty()
    };
    v + p
}

/// Handles a timer interrupt from the pending bits of the two EL1 timers
/// and their counts: the writes that clear each pending interrupt, virtual
/// first. The caller makes them, and after the virtual one ticks the
/// scheduler.
pub fn handle_timer_interrupt(
    timer: &GenericTimer,
    virtual_pending: bool,
    virtual_count: u64,
    physical_pending: bool,
    physical_count: u64,
) -> (ret: Vec<TimerProgram>)
    requires
        virtual_pending ==> virtual_count + timer.freq() <= u64::MAX,
        physical_pending ==> physical_count + timer.freq() <= u64::MAX,
    ensures
        ret@ == timer_interrupt_writes(
            timer.freq(),
            virtual_pending,
            virtual_count,
            physical_pending,
            physical_count,
        ),
{
    let mut writes: Vec<TimerProgram> = Vec::new();
    if virtual_pending {
        writes.push(timer.clear_virtual_timer_interrupt(virtual_count));
    }
    if physical_pending {
        writes.push(timer.clear_physical_timer_interrupt(physical_count));
    }
    assert(writes@ =~= timer_interrupt_writes(
        timer.freq(),
        virtual_pending,
        virtual_count,
        physical_pending,
        physical_count,
    ));
    writes
}

/// Timer interrupt statistics.
pub struct TimerStats {
    pub virtual_timer_interrupts: u64,
    pub physical_timer_interrupts: u64,
    pub timer_overruns: u64,
    pub max_interrupt_latency_ns: u64,
    pub avg_interrupt_latency_ns: u64,
}

/// Statistics with every count zero.
pub fn reset_timer_stats() -> (ret: TimerStats)
    ensures
        ret.virtual_timer_interrupts == 0,
        ret.physical_timer_interrupts == 0,
        ret.timer_overruns == 0,
        ret.max_interrupt_latency_ns == 0,
        ret.avg_interrupt_latency_ns == 0,
{
    TimerStats {
        virtual_timer_interrupts: 0,
        physical_timer_interrupts: 0,
        timer_overruns: 0,
        max_interrupt_latency_ns: 0,
        avg_interrupt_latency_ns: 0,
    }
}

} // verus!
