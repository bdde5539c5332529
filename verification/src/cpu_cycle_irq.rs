//! An interrupt counter clocked by CPU cycles, in three flavours:
//!
//! - `DownToZero`: while enabled, each cycle decrements the counter (wrapping
//!   from 0 to `$FFFF`); reaching 0 raises the IRQ and disables counting.
//! - `UpReset`: while enabled, each cycle increments the counter; reaching
//!   `threshold` raises the IRQ and sets the counter back to 0.
//! - `UpLevel`: while enabled, each cycle increments the counter within
//!   `mask`; the IRQ line follows `counter >= threshold`.
use vstd::prelude::*;

verus! {

#[derive(Clone, Copy, Debug, PartialEq, Eq, Structural)]
pub enum CpuCycleIrqMode {
    DownToZero,
    UpReset { threshold: u16 },
    UpLevel { threshold: u16, mask: u16 },
}

#[derive(Clone, Copy, Debug, PartialEq, Eq, Structural)]
pub struct CpuCycleIrq {
    pub mode: CpuCycleIrqMode,
    pub counter: u16,
    pub enabled: bool,
    pub pending: bool,
}

impl CpuCycleIrq {
    /// The counter after one CPU cycle.
    pub open spec fn ticked(self) -> CpuCycleIrq {
        if !self.enabled {
            self
        } else {
            match self.mode {
                CpuCycleIrqMode::DownToZero => {
                    let c = if self.counter == 0 { 0xFFFFu16 } else { (self.counter - 1) as u16 };
                    if c == 0 {
                        CpuCycleIrq { counter: c, pending: true, enabled: false, ..self }
                    } else {
                        CpuCycleIrq { counter: c, ..self }
                    }
                },
                CpuCycleIrqMode::UpReset { threshold } => {
                    let c = if self.counter == 0xFFFF { 0u16 } else { (self.counter + 1) as u16 };
                    if c >= threshold {
                        CpuCycleIrq { counter: 0, pending: true, ..self }
                    } else {
                        CpuCycleIrq { counter: c, ..self }
                    }
                },
                CpuCycleIrqMode::UpLevel { threshold, mask } => {
                    let c = ((if self.counter == 0xFFFF { 0u16 } else { (self.counter + 1) as u16 }) & mask) as u16;
                    CpuCycleIrq { counter: c, pending: c >= threshold, ..self }
                },
            }
        }
    }

    /// The counter after `n` CPU cycles.
    pub open spec fn ticked_n(self, n: nat) -> CpuCycleIrq
        decreases n,
    {
        if n == 0 { self } else { self.ticked_n((n - 1) as nat).ticked() }
    }

    /// A stopped counter at 0 with no IRQ.
    pub fn new(mode: CpuCycleIrqMode) -> (irq: CpuCycleIrq)
        ensures
            irq == (CpuCycleIrq { mode, counter: 0, enabled: false, pending: false }),
    {
        CpuCycleIrq { mode, counter: 0, enabled: false, pending: false }
    }

    pub fn tick(&mut self)
        ensures
            *final(self) == old(self).ticked(),
    {
        if !self.enabled {
            return;
        }
        match self.mode {
            CpuCycleIrqMode::DownToZero => {
                let c = if self.counter == 0 { 0xFFFFu16 } else { self.counter - 1 };
                self.counter = c;
                if c == 0 {
                    self.pending = true;
                    self.enabled = false;
                }
            },
            CpuCycleIrqMode::UpReset { threshold } => {
                let c = if self.counter == 0xFFFF { 0u16 } else { self.counter + 1 };
                if c >= threshold {
                    self.counter = 0;
                    self.pending = true;
                } else {
                    self.counter = c;
                }
            },
            CpuCycleIrqMode::UpLevel { threshold, mask } => {
                let c = (if self.counter == 0xFFFF { 0u16 } else { self.counter + 1 }) & mask;
                self.counter = c;
                self.pending = c >= threshold;
            },
        }
    }

    pub fn is_pending(&self) -> (p: bool)
        ensures
            p == self.pending,
    {
        self.pending
    }

    pub fn enabled(&self) -> (e: bool)
        ensures
            e == self.enabled,
    {
        self.enabled
    }

    pub fn counter(&self) -> (c: u16)
        ensures
            c == self.counter,
    {
        self.counter
    }

    /// Clears the IRQ.
    pub fn acknowledge(&mut self)
        ensures
            *final(self) == (CpuCycleIrq { pending: false, ..*old(self) }),
    {
        self.pending = false;
    }

    pub fn set_counter(&mut self, counter: u16)
        ensures
            *final(self) == (CpuCycleIrq { counter, ..*old(self) }),
    {
        self.counter = counter;
    }

    pub fn set_enabled(&mut self, enabled: bool)
        ensures
            *final(self) == (CpuCycleIrq { enabled, ..*old(self) }),
    {
        self.enabled = enabled;
    }

    pub fn set_pending(&mut self, pending: bool)
        ensures
            *final(self) == (CpuCycleIrq { pending, ..*old(self) }),
    {
        self.pending = pending;
    }
}

/// A down-counter loaded with `n > 0` and enabled raises the IRQ exactly
/// after `n` cycles: not before, and the counter then stops.
pub proof fn lemma_down_counter_fires_after_n(irq: CpuCycleIrq, k: nat)
    requires
        irq.mode == CpuCycleIrqMode::DownToZero,
        irq.enabled,
        !irq.pending,
        irq.counter > 0,
        k <= irq.counter,
    ensures
        irq.ticked_n(k).counter == irq.counter - k,
        irq.ticked_n(k).pending == (k == irq.counter),
        irq.ticked_n(k).enabled == (k < irq.counter),
        irq.ticked_n(k).mode == irq.mode,
    decreases k,
{
    if k > 0 {
        lemma_down_counter_fires_after_n(irq, (k - 1) as nat);
        assert(irq.ticked_n(k) == irq.ticked_n((k - 1) as nat).ticked());
    }
}

/// An up-counter from 0 with threshold `t > 0`, enabled and with no IRQ,
/// raises the IRQ exactly at cycle `t` and then starts over from 0.
pub proof fn lemma_up_counter_fires_at_threshold(irq: CpuCycleIrq, t: u16, k: nat)
    requires
        irq.mode == (CpuCycleIrqMode::UpReset { threshold: t }),
        irq.enabled,
        !irq.pending,
        irq.counter == 0,
        t > 0,
        k <= t,
    ensures
        irq.ticked_n(k).enabled,
        irq.ticked_n(k).mode == irq.mode,
        irq.ticked_n(k).pending == (k == t),
        irq.ticked_n(k).counter == (if k == t { 0 } else { k }),
    decreases k,
{
    if k > 0 {
        lemma_up_counter_fires_at_threshold(irq, t, (k - 1) as nat);
        assert(irq.ticked_n(k) == irq.ticked_n((k - 1) as nat).ticked());
    }
}

/// An enabled level-mode counter steps by one within its mask each cycle, and
/// after every cycle the IRQ line is up exactly while the counter is at or
/// past the threshold.
pub proof fn lemma_up_level_line_follows_counter(irq: CpuCycleIrq, t: u16, mask: u16)
    requires
        irq.mode == (CpuCycleIrqMode::UpLevel { threshold: t, mask }),
        irq.enabled,
    ensures
        irq.ticked().counter == ((irq.counter as int + 1) % 0x10000) as u16 & mask,
        irq.ticked().pending == (irq.ticked().counter >= t),
        irq.ticked().enabled,
{
}

} // verus!
