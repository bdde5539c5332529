//! Mapper 303 - Kaiser KS7017.
//!
//! Two 16 KiB PRG slots: `$8000` switchable, `$C000` fixed to page 2. CHR is
//! a fixed 8 KiB bank. Registers at `$4020-$5FFF`:
//! - `$4020`: IRQ counter low byte (staged); acknowledges the IRQ.
//! - `$4021`: loads the counter from the staged low byte and this high
//!   byte, enables counting, acknowledges the IRQ.
//! - `$4025`: bit 3 selects horizontal (1) or vertical (0) mirroring.
//! - `$4A00-$4AFF`: latches PRG bank `((addr >> 2) & 3) | ((addr >> 4) & 4)`.
//! - `$5100-$51FF`: applies the latched bank.
//! - `$4030` (read): bit 0 is the IRQ line.
//!
//! The IRQ counter counts CPU cycles down to zero.
use vstd::prelude::*;
use crate::cartridge::{NametableLayout, MapperCapabilities, MapperContext};
use crate::base_mapper::{BaseMapper, wrap_page};
use crate::cpu_cycle_irq::{CpuCycleIrq, CpuCycleIrqMode};
use crate::bits::flag_byte;

verus! {

pub const MAPPER_NUMBER: u16 = 303;
pub const PRG_BANK_SIZE: usize = 0x4000;
pub const FIXED_PRG_BANK: i16 = 2;

/// The PRG bank latched by a write to `$4Axx`.
pub open spec fn latch_of(addr: u16) -> u8 {
    (((addr >> 2) as u8) & 0x03) | (((addr >> 4) as u8) & 0x04)
}

/// Mapper 303 - Kaiser KS7017.
pub struct Mapper303 {
    pub base: BaseMapper,
    /// Bank latched by `$4Axx`.
    pub prg_bank_latch: u8,
    /// Bank shown at `$8000`.
    pub prg_bank: u8,
    pub irq: CpuCycleIrq,
    /// Staged low byte of the IRQ counter.
    pub irq_counter_low: u8,
}

impl Mapper303 {
    pub open spec fn wf(&self) -> bool {
        &&& self.base.wf()
        &&& self.base.prg_page_size == PRG_BANK_SIZE
        &&& self.base.prg_pages@.len() == 2
        &&& self.base.prg_ram@.len() == 0
        &&& self.irq.mode == CpuCycleIrqMode::DownToZero
    }

    /// `$8000` shows the applied bank, `$C000` page 2.
    pub open spec fn applied(&self) -> bool {
        self.base.shows_prg(seq![self.prg_bank as int, FIXED_PRG_BANK as int])
    }

    pub open spec fn write_post(&self, old: &Self, addr: u16, value: u8) -> bool {
        &&& self.wf()
        &&& if addr == 0x4020 {
            *self == (Mapper303 { irq: CpuCycleIrq { pending: false, ..old.irq }, irq_counter_low: value, ..*old })
        } else if addr == 0x4021 {
            *self == (Mapper303 {
                irq: CpuCycleIrq {
                    counter: ((old.irq_counter_low as u16) | ((value as u16) << 8)) as u16,
                    enabled: true,
                    pending: false,
                    ..old.irq
                },
                ..*old
            })
        } else if addr == 0x4025 {
            &&& self.base.mirroring == (if (value >> 3) & 1 == 1 { NametableLayout::Horizontal } else { NametableLayout::Vertical })
            &&& self.base.same_memory(&old.base)
            &&& self.base.prg_pages@ == old.base.prg_pages@
            &&& self.base.chr_pages@ == old.base.chr_pages@
            &&& self.base.prg_6000_page == old.base.prg_6000_page
            &&& *self == (Mapper303 { base: self.base, ..*old })
        } else if 0x4A00 <= addr <= 0x4AFF {
            *self == (Mapper303 { prg_bank_latch: latch_of(addr), ..*old })
        } else if 0x5100 <= addr <= 0x51FF {
            &&& self.base.prg_pages@ == old.base.prg_pages@.update(0, wrap_page(old.prg_bank_latch as int, old.base.prg_count()) as usize)
            &&& self.base.same_memory(&old.base)
            &&& self.base.chr_pages@ == old.base.chr_pages@
            &&& self.base.prg_6000_page == old.base.prg_6000_page
            &&& self.base.mirroring == old.base.mirroring
            &&& *self == (Mapper303 { base: self.base, prg_bank: old.prg_bank_latch, ..*old })
        } else {
            *self == *old
        }
    }

    pub open spec fn snapshot(&self) -> Seq<u8> {
        seq![
            self.prg_bank_latch,
            self.prg_bank,
            flag_byte(self.irq.enabled, self.irq.pending),
            (self.irq.counter & 0xFF) as u8,
            (self.irq.counter >> 8) as u8,
            self.irq_counter_low,
        ]
    }

    pub open spec fn restore_post(&self, old: &Self, data: Seq<u8>) -> bool {
        if data.len() < 6 {
            *self == *old
        } else {
            &&& self.wf()
            &&& self.prg_bank_latch == data[0]
            &&& self.prg_bank == data[1]
            &&& self.irq.enabled == (data[2] & 0x01 != 0)
            &&& self.irq.pending == (data[2] & 0x02 != 0)
            &&& self.irq.counter == ((data[3] as u16) | ((data[4] as u16) << 8)) as u16
            &&& self.irq.mode == old.irq.mode
            &&& self.irq_counter_low == data[5]
            &&& self.base.same_memory(&old.base)
            &&& self.base.mirroring == old.base.mirroring
            &&& self.applied()
        }
    }

    pub open spec fn reset_post(&self, old: &Self) -> bool {
        &&& self.wf()
        &&& self.prg_bank_latch == 0
        &&& self.prg_bank == 0
        &&& self.irq == (CpuCycleIrq { mode: CpuCycleIrqMode::DownToZero, counter: 0, enabled: false, pending: false })
        &&& self.irq_counter_low == 0
        &&& self.base.same_memory(&old.base)
        &&& self.base.mirroring == NametableLayout::Vertical
        &&& self.applied()
    }

    pub open spec fn spec_read_prg(&self, addr: u16) -> u8 {
        self.base.spec_read_prg_rom(addr)
    }

    pub open spec fn spec_read_chr(&self, addr: u16) -> u8 {
        self.base.spec_read_chr(addr)
    }

    pub open spec fn spec_read_prg_open_bus(&self, addr: u16, open_bus: u8) -> u8 {
        if addr == 0x4030 {
            if self.irq.pending { 1u8 } else { 0u8 }
        } else if addr >= 0x8000 {
            self.spec_read_prg(addr)
        } else {
            open_bus
        }
    }

    pub open spec fn read_ok(&self, addr: u16) -> bool {
        true
    }

    /// State after a CPU read of `addr`: reading `$4030` clears the pending
    /// IRQ; no other read changes the board.
    pub open spec fn read_post(&self, old: &Self, addr: u16) -> bool {
        if addr == 0x4030 {
            *self == (Mapper303 { irq: CpuCycleIrq { pending: false, ..old.irq }, ..*old })
        } else {
            *self == *old
        }
    }

    pub open spec fn spec_mirroring(&self) -> NametableLayout {
        self.base.mirroring
    }

    pub open spec fn spec_irq_pending(&self) -> bool {
        self.irq.pending
    }

    pub open spec fn cycle_ok(&self) -> bool {
        true
    }

    pub open spec fn cycle_post(&self, old: &Self) -> bool {
        *self == (Mapper303 { irq: old.irq.ticked(), ..*old })
    }

    pub open spec fn write_chr_post(&self, old: &Self, addr: u16, value: u8) -> bool {
        &&& self.wf()
        &&& self.base.chr@ == (if old.base.chr_writable && old.base.chr_count() > 0 {
            old.base.chr@.update(old.base.chr_index(addr) as int, value)
        } else {
            old.base.chr@
        })
        &&& self.base.prg_pages@ == old.base.prg_pages@
        &&& self.base.mirroring == old.base.mirroring
        &&& self.prg_bank == old.prg_bank
        &&& self.prg_bank_latch == old.prg_bank_latch
        &&& self.irq == old.irq
        &&& self.irq_counter_low == old.irq_counter_low
    }

    pub fn new(ctx: MapperContext) -> (m: Self)
        ensures
            m.wf(),
            m.prg_bank == 0,
            m.prg_bank_latch == 0,
            m.irq == (CpuCycleIrq { mode: CpuCycleIrqMode::DownToZero, counter: 0, enabled: false, pending: false }),
            m.base.mirroring == NametableLayout::Vertical,
            m.applied(),
            m.base.prg_rom@ == ctx.prg_rom@,
            m.base.capabilities == (MapperCapabilities { has_irq: false, has_expansion_audio: false, has_chr_banking: false, has_dynamic_mirroring: true, max_prg_ram_kb: 0, prg_bank_size_kb: 16, chr_bank_size_kb: 0 }),
            m.base.chr_from(ctx.chr_rom@),
    {
        let capabilities = MapperCapabilities {
            has_irq: false,
            has_expansion_audio: false,
            has_chr_banking: false,
            has_dynamic_mirroring: true,
            max_prg_ram_kb: 0,
            prg_bank_size_kb: 16,
            chr_bank_size_kb: 0,
        };
        let mut base = BaseMapper::new(&ctx, capabilities);
        base.configure_prg_banking(PRG_BANK_SIZE);
        let mut mapper = Mapper303 {
            base,
            prg_bank_latch: 0,
            prg_bank: 0,
            irq: CpuCycleIrq::new(CpuCycleIrqMode::DownToZero),
            irq_counter_low: 0,
        };
        mapper.apply_state();
        mapper
    }

    fn apply_state(&mut self)
        requires
            old(self).wf(),
        ensures
            final(self).wf(),
            final(self).applied(),
            final(self).base.mirroring == NametableLayout::Vertical,
            final(self).base.same_memory(&old(self).base),
            final(self).prg_bank == old(self).prg_bank,
            final(self).prg_bank_latch == old(self).prg_bank_latch,
            final(self).irq == old(self).irq,
            final(self).irq_counter_low == old(self).irq_counter_low,
    {
        self.select_banks();
        self.base.set_mirroring(NametableLayout::Vertical);
    }

    fn select_banks(&mut self)
        requires
            old(self).wf(),
        ensures
            final(self).wf(),
            final(self).applied(),
            final(self).base.mirroring == old(self).base.mirroring,
            final(self).base.same_memory(&old(self).base),
            final(self).prg_bank == old(self).prg_bank,
            final(self).prg_bank_latch == old(self).prg_bank_latch,
            final(self).irq == old(self).irq,
            final(self).irq_counter_low == old(self).irq_counter_low,
    {
        self.base.select_prg_page(0, self.prg_bank as i16);
        self.base.select_prg_page(1, FIXED_PRG_BANK);
        proof {
            self.base.lemma_shows_prg2(self.prg_bank as int, FIXED_PRG_BANK as int);
        }
    }

    pub fn read_prg(&self, addr: u16) -> (v: u8)
        requires
            self.wf(),
        ensures
            v == self.spec_read_prg(addr),
    {
        self.base.read_prg_banked(addr)
    }

    /// `$4030` reads the IRQ line in bit 0 and acknowledges the IRQ;
    /// `$8000-$FFFF` reads PRG-ROM; other addresses read as `open_bus`.
    pub fn read_prg_open_bus(&mut self, addr: u16, open_bus: u8) -> (v: u8)
        requires
            old(self).wf(),
        ensures
            v == old(self).spec_read_prg_open_bus(addr, open_bus),
            final(self).wf(),
            final(self).read_post(old(self), addr),
    {
        if addr == 0x4030 {
            let v: u8 = if self.irq.is_pending() { 1 } else { 0 };
            self.irq.acknowledge();
            return v;
        }
        if addr >= 0x8000 {
            self.read_prg(addr)
        } else {
            open_bus
        }
    }

    pub fn write_prg(&mut self, addr: u16, value: u8)
        requires
            old(self).wf(),
        ensures
            final(self).write_post(old(self), addr, value),
    {
        if addr == 0x4020 {
            self.irq.acknowledge();
            self.irq_counter_low = value;
        } else if addr == 0x4021 {
            self.irq.acknowledge();
            let counter = (self.irq_counter_low as u16) | ((value as u16) << 8);
            self.irq.set_counter(counter);
            self.irq.set_enabled(true);
            self.irq.set_pending(false);
        } else if addr == 0x4025 {
            let layout = if (value >> 3) & 1 == 1 { NametableLayout::Horizontal } else { NametableLayout::Vertical };
            self.base.set_mirroring(layout);
        } else if 0x4A00 <= addr && addr <= 0x4AFF {
            self.prg_bank_latch = (((addr >> 2) as u8) & 0x03) | (((addr >> 4) as u8) & 0x04);
        } else if 0x5100 <= addr && addr <= 0x51FF {
            self.prg_bank = self.prg_bank_latch;
            self.base.select_prg_page(0, self.prg_bank as i16);
            proof {
                assert(self.base.prg_pages@ =~= old(self).base.prg_pages@.update(0, wrap_page(old(self).prg_bank_latch as int, old(self).base.prg_count()) as usize));
            }
        }
    }

    pub fn read_chr(&self, addr: u16) -> (v: u8)
        requires
            self.wf(),
        ensures
            v == self.spec_read_chr(addr),
    {
        self.base.read_chr(addr)
    }

    pub fn write_chr(&mut self, addr: u16, value: u8)
        requires
            old(self).wf(),
        ensures
            final(self).write_chr_post(old(self), addr, value),
    {
        self.base.write_chr(addr, value);
    }

    pub fn cpu_cycle(&mut self)
        requires
            old(self).wf(),
        ensures
            final(self).cycle_post(old(self)),
    {
        self.irq.tick();
    }

    pub fn irq_pending(&self) -> (p: bool)
        ensures
            p == self.spec_irq_pending(),
    {
        self.irq.is_pending()
    }

    pub fn reset(&mut self)
        requires
            old(self).wf(),
        ensures
            final(self).reset_post(old(self)),
    {
        self.prg_bank_latch = 0;
        self.prg_bank = 0;
        self.irq = CpuCycleIrq::new(CpuCycleIrqMode::DownToZero);
        self.irq_counter_low = 0;
        self.apply_state();
    }

    pub fn registers_snapshot(&self) -> (s: Vec<u8>)
        ensures
            s@ == self.snapshot(),
    {
        let flags = (if self.irq.enabled() { 1u8 } else { 0u8 }) | ((if self.irq.is_pending() { 1u8 } else { 0u8 }) << 1);
        let s = vec![
            self.prg_bank_latch,
            self.prg_bank,
            flags,
            (self.irq.counter() & 0xFF) as u8,
            (self.irq.counter() >> 8) as u8,
            self.irq_counter_low,
        ];
        proof {
            assert(s@ =~= self.snapshot());
        }
        s
    }

    pub fn restore_registers(&mut self, data: &[u8])
        requires
            old(self).wf(),
        ensures
            final(self).restore_post(old(self), data@),
    {
        if data.len() < 6 {
            return;
        }
        self.prg_bank_latch = data[0];
        self.prg_bank = data[1];
        let flags = data[2];
        self.irq.set_enabled(flags & 0x01 != 0);
        self.irq.set_pending(flags & 0x02 != 0);
        self.irq.set_counter((data[3] as u16) | ((data[4] as u16) << 8));
        self.irq_counter_low = data[5];
        self.select_banks();
    }

    pub fn base(&self) -> (b: &BaseMapper)
        ensures
            *b == self.base,
    {
        &self.base
    }

    pub fn get_mirroring(&self) -> (m: NametableLayout)
        ensures
            m == self.spec_mirroring(),
    {
        self.base.mirroring
    }

    pub fn capabilities(&self) -> (c: MapperCapabilities)
        ensures
            c == self.base.capabilities,
    {
        self.base.capabilities
    }

    pub fn mapper_number(&self) -> (n: u16)
        ensures
            n == MAPPER_NUMBER,
    {
        MAPPER_NUMBER
    }
}

/// Restoring a board from its own snapshot brings back its registers and
/// its IRQ counter.
/// The restored board then snapshots to the same bytes.
pub proof fn lemma_snapshot_roundtrip(m: Mapper303, before: Mapper303, restored: Mapper303)
    requires
        m.wf(),
        before.wf(),
        restored.restore_post(&before, m.snapshot()),
    ensures
        restored.prg_bank == m.prg_bank,
        restored.prg_bank_latch == m.prg_bank_latch,
        restored.irq == m.irq,
        restored.irq_counter_low == m.irq_counter_low,
        restored.snapshot() == m.snapshot(),
{
    crate::bits::lemma_flag_byte(m.irq.enabled, m.irq.pending);
    crate::bits::lemma_u16_bytes(m.irq.counter);
}

/// Writing the low byte to `$4020` and the high byte to `$4021` loads a
/// counter of `n = hi << 8 | lo`; when `n > 0` the IRQ is raised after
/// exactly `n` CPU cycles and not before.
pub proof fn lemma_irq_after_loaded_cycles(m0: Mapper303, m1: Mapper303, m2: Mapper303, lo: u8, hi: u8, k: nat)
    requires
        m0.wf(),
        m1.write_post(&m0, 0x4020, lo),
        m2.write_post(&m1, 0x4021, hi),
        ((lo as u16) | ((hi as u16) << 8)) as u16 > 0,
        k <= ((lo as u16) | ((hi as u16) << 8)) as u16,
    ensures
        m2.irq.ticked_n(k).pending == (k == ((lo as u16) | ((hi as u16) << 8)) as u16),
{
    crate::cpu_cycle_irq::lemma_down_counter_fires_after_n(m2.irq, k);
}

} // verus!
