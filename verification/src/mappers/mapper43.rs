//! Mapper 43 - TONY-I / YS-612 (Super Mario Bros. 2 FDS conversion).
//!
//! Fixed 8 KiB PRG windows: `$6000` bank 2, `$8000` bank 1, `$A000` bank 0,
//! `$E000` bank 9; `$C000` shows the bank that the register at
//! `(addr & $71FF) == $4022` selects through the table `[4, 3, 4, 4, 4, 7, 5, 6]`.
//! `$5000-$5FFF` reads the 2 KiB chip at PRG offset `$10000` (0 beyond the ROM).
//! A 12-bit CPU-cycle counter always runs and raises the IRQ when it
//! overflows (every 4096 cycles); a write at `(addr & $71FF) == $4122`
//! clears it and acknowledges the IRQ. CHR is a fixed 8 KiB bank.
use vstd::prelude::*;
use crate::cartridge::{NametableLayout, MapperCapabilities, MapperContext};
use crate::base_mapper::{BaseMapper, wrap_page};
use crate::cpu_cycle_irq::{CpuCycleIrq, CpuCycleIrqMode};

verus! {

pub const MAPPER_NUMBER: u16 = 43;
pub const PRG_BANK_SIZE: usize = 0x2000;
pub const IRQ_THRESHOLD: u16 = 0x1000;
pub const CHIP_OFFSET: usize = 0x10000;

/// The 8 KiB bank at `$C000` for a register value.
pub open spec fn bank_lookup(index: u8) -> u8 {
    let i = index & 7;
    if i == 1 { 3 } else if i == 5 { 7 } else if i == 6 { 5 } else if i == 7 { 6 } else { 4 }
}

pub open spec fn irq_mode() -> CpuCycleIrqMode {
    CpuCycleIrqMode::UpReset { threshold: IRQ_THRESHOLD }
}

/// Mapper 43 - TONY-I / YS-612.
pub struct Mapper43 {
    pub base: BaseMapper,
    pub switchable_bank: u8,
    pub irq: CpuCycleIrq,
}

impl Mapper43 {
    pub open spec fn regs(&self) -> (u8, CpuCycleIrq) {
        (self.switchable_bank, self.irq)
    }

    pub open spec fn wf(&self) -> bool {
        &&& self.base.wf()
        &&& self.base.prg_page_size == PRG_BANK_SIZE
        &&& self.base.prg_pages@.len() == 4
        &&& self.base.prg_6000_banked
        &&& self.irq.mode == irq_mode()
        &&& self.irq.enabled
    }

    pub open spec fn applied(&self) -> bool {
        &&& self.base.prg_6000_page == wrap_page(2, self.base.prg_6000_count())
        &&& self.base.shows_prg(seq![1int, 0, bank_lookup(self.switchable_bank) as int, 9])
    }

    pub open spec fn write_post(&self, old: &Self, addr: u16, value: u8) -> bool {
        if addr & 0x71FF == 0x4022 {
            &&& self.wf()
            &&& self.applied()
            &&& self.base.same_memory(&old.base)
            &&& self.base.chr_pages@ == old.base.chr_pages@
            &&& self.base.mirroring == old.base.mirroring
            &&& self.regs() == (value & 0x07, old.irq)
        } else if addr & 0x71FF == 0x4122 {
            *self == (Mapper43 { irq: CpuCycleIrq { counter: 0, pending: false, ..old.irq }, ..*old })
        } else {
            *self == *old
        }
    }

    pub open spec fn snapshot(&self) -> Seq<u8> {
        seq![
            self.switchable_bank,
            (self.irq.counter & 0xFF) as u8,
            (self.irq.counter >> 8) as u8,
            if self.irq.pending { 1u8 } else { 0u8 },
        ]
    }

    pub open spec fn restore_post(&self, old: &Self, data: Seq<u8>) -> bool {
        if data.len() < 4 {
            *self == *old
        } else {
            &&& self.wf()
            &&& self.applied()
            &&& self.base.same_memory(&old.base)
            &&& self.base.chr_pages@ == old.base.chr_pages@
            &&& self.base.mirroring == old.base.mirroring
            &&& self.switchable_bank == data[0]
            &&& self.irq == (CpuCycleIrq {
                counter: ((data[1] as u16) | ((data[2] as u16) << 8)) as u16,
                pending: data[3] != 0,
                enabled: true,
                ..old.irq
            })
        }
    }

    /// The board keeps its state across a reset.
    pub open spec fn reset_post(&self, old: &Self) -> bool {
        *self == *old
    }

    pub open spec fn spec_read_prg(&self, addr: u16) -> u8 {
        if 0x5000 <= addr < 0x6000 {
            let i = CHIP_OFFSET + (addr & 0x7FF) as int;
            if i < self.base.prg_rom@.len() { self.base.prg_rom@[i] } else { 0 }
        } else {
            self.base.spec_read_prg(addr)
        }
    }

    pub open spec fn spec_irq_pending(&self) -> bool {
        self.irq.pending
    }

    pub open spec fn cycle_ok(&self) -> bool {
        true
    }

    pub open spec fn cycle_post(&self, old: &Self) -> bool {
        *self == (Mapper43 { irq: old.irq.ticked(), ..*old })
    }

    pub fn new(ctx: MapperContext) -> (m: Self)
        ensures
            m.wf(),
            m.applied(),
            m.switchable_bank == 0,
            m.irq == (CpuCycleIrq { mode: irq_mode(), counter: 0, enabled: true, pending: false }),
            m.base.mirroring == ctx.mirroring,
            m.base.prg_rom@ == ctx.prg_rom@,
            m.base.capabilities == (MapperCapabilities { has_irq: true, has_expansion_audio: false, has_chr_banking: false, has_dynamic_mirroring: false, max_prg_ram_kb: 0, prg_bank_size_kb: 8, chr_bank_size_kb: 8 }),
            m.base.chr_from(ctx.chr_rom@),
    {
        let mirroring = ctx.mirroring;
        let capabilities = MapperCapabilities {
            has_irq: true,
            has_expansion_audio: false,
            has_chr_banking: false,
            has_dynamic_mirroring: false,
            max_prg_ram_kb: 0,
            prg_bank_size_kb: 8,
            chr_bank_size_kb: 8,
        };
        let mut base = BaseMapper::new(&ctx, capabilities);
        base.configure_prg_banking(PRG_BANK_SIZE);
        base.configure_prg_6000_banking();
        base.set_mirroring(mirroring);
        let mut mapper = Mapper43 {
            base,
            switchable_bank: 0,
            irq: CpuCycleIrq::new(CpuCycleIrqMode::UpReset { threshold: IRQ_THRESHOLD }),
        };
        mapper.irq.set_enabled(true);
        mapper.update_banks();
        mapper
    }

    pub fn bank_lookup(index: u8) -> (b: u8)
        ensures
            b == bank_lookup(index),
    {
        let i = index & 7;
        if i == 1 { 3 } else if i == 5 { 7 } else if i == 6 { 5 } else if i == 7 { 6 } else { 4 }
    }

    fn update_banks(&mut self)
        requires
            old(self).base.wf(),
            old(self).base.prg_page_size == PRG_BANK_SIZE,
            old(self).base.prg_pages@.len() == 4,
            old(self).base.prg_6000_banked,
        ensures
            final(self).base.wf(),
            final(self).base.prg_page_size == PRG_BANK_SIZE,
            final(self).base.prg_pages@.len() == 4,
            final(self).base.prg_6000_banked,
            final(self).applied(),
            final(self).regs() == old(self).regs(),
            final(self).base.same_memory(&old(self).base),
            final(self).base.chr_pages@ == old(self).base.chr_pages@,
            final(self).base.mirroring == old(self).base.mirroring,
    {
        self.base.select_prg_6000_page(2);
        self.base.select_prg_page(0, 1);
        self.base.select_prg_page(1, 0);
        let c000 = Self::bank_lookup(self.switchable_bank) as i16;
        self.base.select_prg_page(2, c000);
        self.base.select_prg_page(3, 9);
        proof {
            self.base.lemma_shows_prg4(1, 0, c000 as int, 9);
        }
    }

    fn read_prg_5000(&self, addr: u16) -> (v: u8)
        requires
            0x5000 <= addr < 0x6000,
        ensures
            v == self.spec_read_prg(addr),
    {
        let i = CHIP_OFFSET + (addr & 0x7FF) as usize;
        if i < self.base.prg_rom.len() { self.base.prg_rom[i] } else { 0 }
    }

    pub fn read_prg(&self, addr: u16) -> (v: u8)
        requires
            self.wf(),
        ensures
            v == self.spec_read_prg(addr),
    {
        if 0x5000 <= addr && addr < 0x6000 {
            self.read_prg_5000(addr)
        } else {
            self.base.read_prg(addr)
        }
    }

    pub fn write_prg(&mut self, addr: u16, value: u8)
        requires
            old(self).wf(),
        ensures
            final(self).write_post(old(self), addr, value),
    {
        if addr & 0x71FF == 0x4022 {
            self.switchable_bank = value & 0x07;
            self.update_banks();
        } else if addr & 0x71FF == 0x4122 {
            self.irq.set_counter(0);
            self.irq.acknowledge();
        }
    }

    pub fn cpu_cycle(&mut self)
        requires
            old(self).wf(),
        ensures
            final(self).cycle_post(old(self)),
    {
        self.irq.tick();
    }

    pub fn irq_pending(&self) -> (p: bool)
        ensures
            p == self.spec_irq_pending(),
    {
        self.irq.is_pending()
    }

    pub fn registers_snapshot(&self) -> (s: Vec<u8>)
        ensures
            s@ == self.snapshot(),
    {
        let c = self.irq.counter();
        vec![self.switchable_bank, (c & 0xFF) as u8, (c >> 8) as u8, if self.irq.is_pending() { 1 } else { 0 }]
    }

    pub fn restore_registers(&mut self, data: &[u8])
        requires
            old(self).wf(),
        ensures
            final(self).restore_post(old(self), data@),
    {
        if data.len() >= 4 {
            self.switchable_bank = data[0];
            self.irq.set_counter((data[1] as u16) | ((data[2] as u16) << 8));
            self.irq.set_pending(data[3] != 0);
            self.irq.set_enabled(true);
            self.update_banks();
        }
    }

    /// Nothing to reset: the board has no reset logic of its own.
    pub fn reset(&mut self)
        requires
            old(self).wf(),
        ensures
            final(self).reset_post(old(self)),
    {
    }

    pub open spec fn spec_mirroring(&self) -> NametableLayout {
        self.base.mirroring
    }

    pub open spec fn spec_read_chr(&self, addr: u16) -> u8 {
        self.base.spec_read_chr(addr)
    }

    /// State after a PPU write to pattern memory: CHR-RAM takes the byte.
    pub open spec fn write_chr_post(&self, old: &Self, addr: u16, value: u8) -> bool {
        &&& self.wf()
        &&& self.base.chr@ == (if old.base.chr_writable && old.base.chr_count() > 0 {
            old.base.chr@.update(old.base.chr_index(addr) as int, value)
        } else {
            old.base.chr@
        })
        &&& self.base.prg_pages@ == old.base.prg_pages@
        &&& self.base.chr_pages@ == old.base.chr_pages@
        &&& self.base.mirroring == old.base.mirroring
        &&& self.regs() == old.regs()
    }

    pub fn read_chr(&self, addr: u16) -> (v: u8)
        requires
            self.wf(),
        ensures
            v == self.spec_read_chr(addr),
    {
        self.base.read_chr(addr)
    }

    pub fn write_chr(&mut self, addr: u16, value: u8)
        requires
            old(self).wf(),
        ensures
            final(self).write_chr_post(old(self), addr, value),
    {
        self.base.write_chr(addr, value);
    }

    /// Every CPU read is defined.
    pub open spec fn read_ok(&self, addr: u16) -> bool {
        true
    }

    /// The board's memory and page tables.
    pub fn base(&self) -> (b: &BaseMapper)
        ensures
            *b == self.base,
    {
        &self.base
    }

    pub fn get_mirroring(&self) -> (m: NametableLayout)
        ensures
            m == self.spec_mirroring(),
    {
        self.base.mirroring
    }

    pub fn capabilities(&self) -> (c: MapperCapabilities)
        ensures
            c == self.base.capabilities,
    {
        self.base.capabilities
    }

    pub fn mapper_number(&self) -> (n: u16)
        ensures
            n == MAPPER_NUMBER,
    {
        MAPPER_NUMBER
    }

}

/// Restoring a board from its own snapshot brings back the bank register
/// and the IRQ counter.
/// The restored board then snapshots to the same bytes.
pub proof fn lemma_snapshot_roundtrip(m: Mapper43, before: Mapper43, restored: Mapper43)
    requires
        m.wf(),
        before.wf(),
        restored.restore_post(&before, m.snapshot()),
    ensures
        restored.regs() == m.regs(),
        restored.snapshot() == m.snapshot(),
{
    crate::bits::lemma_u16_bytes(m.irq.counter);
}

/// The IRQ is raised every 4096 CPU cycles: from a cleared counter with no
/// IRQ pending, exactly at cycle 4096 and not before.
pub proof fn lemma_irq_every_4096_cycles(m: Mapper43, k: nat)
    requires
        m.wf(),
        m.irq.counter == 0,
        !m.irq.pending,
        k <= IRQ_THRESHOLD,
    ensures
        m.irq.ticked_n(k).pending == (k == IRQ_THRESHOLD),
        m.irq.ticked_n(k).counter == (if k == IRQ_THRESHOLD { 0 } else { k }),
{
    crate::cpu_cycle_irq::lemma_up_counter_fires_at_threshold(m.irq, IRQ_THRESHOLD, k);
}

} // verus!
