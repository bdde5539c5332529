//! Mapper 55 - BTL-MARIOBABY (Mario Baby bootleg).
//!
//! `$8000-$FFFF` shows the last 32 KiB of PRG-ROM; `$6000-$7FFF` shows the
//! 8 KiB bank in the PRG latch. CHR is a fixed 8 KiB bank. Registers at
//! `$F000-$FFFF`, decoded by `addr & 3`:
//! - 0: PRG latch.
//! - 1: bit 3 selects horizontal (1) or vertical (0) mirroring.
//! - 2: bit 1 enables the IRQ counter; clearing it also acknowledges the IRQ
//!   and resets the counter.
//!
//! The IRQ counter counts CPU cycles within 15 bits and holds the IRQ line
//! while it is at `$6000` or above.
use vstd::prelude::*;
use crate::cartridge::{NametableLayout, MapperCapabilities, MapperContext, layout_hv};
use crate::base_mapper::{BaseMapper, wrap_page};
use crate::cpu_cycle_irq::{CpuCycleIrq, CpuCycleIrqMode};
use crate::bits::flag_byte;

verus! {

pub const MAPPER_NUMBER: u16 = 55;
pub const PRG_BANK_SIZE: usize = 0x2000;
pub const CHR_BANK_SIZE: usize = 0x2000;
pub const IRQ_THRESHOLD: u16 = 0x6000;
pub const IRQ_MASK: u16 = 0x7FFF;

pub open spec fn irq_mode() -> CpuCycleIrqMode {
    CpuCycleIrqMode::UpLevel { threshold: IRQ_THRESHOLD, mask: IRQ_MASK }
}

/// Mapper 55 - BTL-MARIOBABY.
pub struct Mapper55 {
    pub base: BaseMapper,
    pub prg_bank: u8,
    pub irq: CpuCycleIrq,
    /// Mirroring from the header, restored on reset.
    pub initial_mirroring: NametableLayout,
}

impl Mapper55 {
    pub open spec fn regs(&self) -> (u8, CpuCycleIrq) {
        (self.prg_bank, self.irq)
    }

    pub open spec fn wf(&self) -> bool {
        &&& self.base.wf()
        &&& self.base.prg_page_size == PRG_BANK_SIZE
        &&& self.base.chr_page_size == CHR_BANK_SIZE
        &&& self.base.prg_pages@.len() == 4
        &&& self.base.chr_pages@.len() == 1
        &&& self.base.prg_6000_banked
        &&& self.irq.mode == irq_mode()
    }

    pub open spec fn applied(&self) -> bool {
        &&& self.base.prg_6000_page == wrap_page(self.prg_bank as int, self.base.prg_6000_count())
        &&& self.base.shows_prg(seq![-4int, -3, -2, -1])
        &&& self.base.shows_chr(seq![0int])
    }

    pub open spec fn write_post(&self, old: &Self, addr: u16, value: u8) -> bool {
        if addr < 0xF000 {
            *self == *old
        } else {
            let reg = addr & 0x03;
            &&& self.wf()
            &&& self.base.same_memory(&old.base)
            &&& self.base.prg_pages@ == old.base.prg_pages@
            &&& self.base.chr_pages@ == old.base.chr_pages@
            &&& self.initial_mirroring == old.initial_mirroring
            &&& if reg == 0 {
                &&& self.prg_bank == value
                &&& self.irq == old.irq
                &&& self.base.mirroring == old.base.mirroring
                &&& self.base.prg_6000_page == wrap_page(value as int, old.base.prg_6000_count())
            } else if reg == 1 {
                &&& self.regs() == old.regs()
                &&& self.base.mirroring == layout_hv(value & 0x08 != 0)
                &&& self.base.prg_6000_page == old.base.prg_6000_page
            } else if reg == 2 {
                &&& self.prg_bank == old.prg_bank
                &&& self.irq == (if value & 0x02 != 0 {
                    CpuCycleIrq { enabled: true, ..old.irq }
                } else {
                    CpuCycleIrq { enabled: false, pending: false, counter: 0, ..old.irq }
                })
                &&& self.base.mirroring == old.base.mirroring
                &&& self.base.prg_6000_page == old.base.prg_6000_page
            } else {
                &&& self.regs() == old.regs()
                &&& self.base.mirroring == old.base.mirroring
                &&& self.base.prg_6000_page == old.base.prg_6000_page
            }
        }
    }

    pub open spec fn mirror_byte(&self) -> u8 {
        if self.base.mirroring == NametableLayout::Horizontal { 1 } else { 0 }
    }

    pub open spec fn snapshot(&self) -> Seq<u8> {
        seq![
            self.prg_bank,
            flag_byte(self.irq.enabled, self.irq.pending),
            (self.irq.counter & 0xFF) as u8,
            (self.irq.counter >> 8) as u8,
            self.mirror_byte(),
        ]
    }

    pub open spec fn restore_post(&self, old: &Self, data: Seq<u8>) -> bool {
        if data.len() < 5 {
            *self == *old
        } else {
            &&& self.wf()
            &&& self.applied()
            &&& self.base.same_memory(&old.base)
            &&& self.initial_mirroring == old.initial_mirroring
            &&& self.prg_bank == data[0]
            &&& self.irq == (CpuCycleIrq {
                enabled: data[1] & 1 != 0,
                pending: data[1] & 2 != 0,
                counter: ((data[2] as u16) | ((data[3] as u16) << 8)) as u16,
                ..old.irq
            })
            &&& self.base.mirroring == layout_hv(data[4] != 0)
        }
    }

    pub open spec fn reset_post(&self, old: &Self) -> bool {
        &&& self.wf()
        &&& self.applied()
        &&& self.base.same_memory(&old.base)
        &&& self.initial_mirroring == old.initial_mirroring
        &&& self.prg_bank == 0
        &&& self.irq == (CpuCycleIrq { enabled: false, pending: false, counter: 0, ..old.irq })
        &&& self.base.mirroring == old.initial_mirroring
    }

    pub open spec fn spec_irq_pending(&self) -> bool {
        self.irq.pending
    }

    pub open spec fn cycle_ok(&self) -> bool {
        true
    }

    pub open spec fn cycle_post(&self, old: &Self) -> bool {
        *self == (Mapper55 { irq: old.irq.ticked(), ..*old })
    }

    pub fn new(ctx: MapperContext) -> (m: Self)
        ensures
            m.wf(),
            m.applied(),
            m.prg_bank == 0,
            m.irq == (CpuCycleIrq { mode: irq_mode(), counter: 0, enabled: false, pending: false }),
            m.base.mirroring == ctx.mirroring,
            m.initial_mirroring == ctx.mirroring,
            m.base.prg_rom@ == ctx.prg_rom@,
            m.base.capabilities == (MapperCapabilities { has_irq: true, has_expansion_audio: false, has_chr_banking: false, has_dynamic_mirroring: true, max_prg_ram_kb: 0, prg_bank_size_kb: 8, chr_bank_size_kb: 8 }),
            m.base.chr_from(ctx.chr_rom@),
    {
        let mirroring = ctx.mirroring;
        let capabilities = MapperCapabilities {
            has_irq: true,
            has_expansion_audio: false,
            has_chr_banking: false,
            has_dynamic_mirroring: true,
            max_prg_ram_kb: 0,
            prg_bank_size_kb: 8,
            chr_bank_size_kb: 8,
        };
        let mut base = BaseMapper::new(&ctx, capabilities);
        base.configure_prg_banking(PRG_BANK_SIZE);
        base.configure_prg_6000_banking();
        base.configure_chr_banking(CHR_BANK_SIZE);
        base.set_mirroring(mirroring);
        let mut mapper = Mapper55 {
            base,
            prg_bank: 0,
            irq: CpuCycleIrq::new(CpuCycleIrqMode::UpLevel { threshold: IRQ_THRESHOLD, mask: IRQ_MASK }),
            initial_mirroring: mirroring,
        };
        mapper.update_banks();
        mapper
    }

    fn update_banks(&mut self)
        requires
            old(self).wf(),
        ensures
            final(self).wf(),
            final(self).applied(),
            final(self).regs() == old(self).regs(),
            final(self).initial_mirroring == old(self).initial_mirroring,
            final(self).base.same_memory(&old(self).base),
            final(self).base.mirroring == old(self).base.mirroring,
    {
        self.base.select_prg_6000_page(self.prg_bank as i16);
        self.base.select_prg_page(0, -4);
        self.base.select_prg_page(1, -3);
        self.base.select_prg_page(2, -2);
        self.base.select_prg_page(3, -1);
        self.base.select_chr_page(0, 0);
        proof {
            self.base.lemma_shows_prg4(-4, -3, -2, -1);
            self.base.lemma_shows_chr1(0);
        }
    }

    pub fn write_prg(&mut self, addr: u16, value: u8)
        requires
            old(self).wf(),
        ensures
            final(self).write_post(old(self), addr, value),
    {
        if addr < 0xF000 {
            return;
        }
        let reg = addr & 0x03;
        if reg == 0 {
            self.prg_bank = value;
            self.base.select_prg_6000_page(value as i16);
        } else if reg == 1 {
            self.base.set_mirroring_hv((value & 0x08) != 0);
        } else if reg == 2 {
            self.irq.set_enabled((value & 0x02) != 0);
            if !self.irq.enabled() {
                self.irq.acknowledge();
                self.irq.set_counter(0);
            }
        }
    }

    pub fn cpu_cycle(&mut self)
        requires
            old(self).wf(),
        ensures
            final(self).cycle_post(old(self)),
    {
        self.irq.tick();
    }

    pub fn irq_pending(&self) -> (p: bool)
        ensures
            p == self.spec_irq_pending(),
    {
        self.irq.is_pending()
    }

    pub fn registers_snapshot(&self) -> (s: Vec<u8>)
        ensures
            s@ == self.snapshot(),
    {
        let flags = (if self.irq.enabled() { 1u8 } else { 0u8 }) | ((if self.irq.is_pending() { 1u8 } else { 0u8 }) << 1);
        let mirror_byte: u8 = match self.base.mirroring {
            NametableLayout::Horizontal => 1,
            _ => 0,
        };
        let counter = self.irq.counter();
        vec![self.prg_bank, flags, (counter & 0xFF) as u8, (counter >> 8) as u8, mirror_byte]
    }

    pub fn restore_registers(&mut self, data: &[u8])
        requires
            old(self).wf(),
        ensures
            final(self).restore_post(old(self), data@),
    {
        if data.len() >= 5 {
            self.prg_bank = data[0];
            self.irq.set_enabled((data[1] & 1) != 0);
            self.irq.set_pending((data[1] & 2) != 0);
            self.irq.set_counter((data[2] as u16) | ((data[3] as u16) << 8));
            self.base.set_mirroring_hv(data[4] != 0);
            self.update_banks();
        }
    }

    pub fn reset(&mut self)
        requires
            old(self).wf(),
        ensures
            final(self).reset_post(old(self)),
    {
        self.prg_bank = 0;
        self.irq.set_enabled(false);
        self.irq.acknowledge();
        self.irq.set_counter(0);
        self.base.set_mirroring(self.initial_mirroring);
        self.update_banks();
    }

    pub open spec fn spec_mirroring(&self) -> NametableLayout {
        self.base.mirroring
    }

    pub open spec fn spec_read_chr(&self, addr: u16) -> u8 {
        self.base.spec_read_chr(addr)
    }

    /// State after a PPU write to pattern memory: CHR-RAM takes the byte.
    pub open spec fn write_chr_post(&self, old: &Self, addr: u16, value: u8) -> bool {
        &&& self.wf()
        &&& self.base.chr@ == (if old.base.chr_writable && old.base.chr_count() > 0 {
            old.base.chr@.update(old.base.chr_index(addr) as int, value)
        } else {
            old.base.chr@
        })
        &&& self.base.prg_pages@ == old.base.prg_pages@
        &&& self.base.chr_pages@ == old.base.chr_pages@
        &&& self.base.mirroring == old.base.mirroring
        &&& self.regs() == old.regs()
    }

    pub fn read_chr(&self, addr: u16) -> (v: u8)
        requires
            self.wf(),
        ensures
            v == self.spec_read_chr(addr),
    {
        self.base.read_chr(addr)
    }

    pub fn write_chr(&mut self, addr: u16, value: u8)
        requires
            old(self).wf(),
        ensures
            final(self).write_chr_post(old(self), addr, value),
    {
        self.base.write_chr(addr, value);
    }

    /// Every CPU read is defined.
    pub open spec fn read_ok(&self, addr: u16) -> bool {
        true
    }

    pub open spec fn spec_read_prg(&self, addr: u16) -> u8 {
        self.base.spec_read_prg(addr)
    }

    pub fn read_prg(&self, addr: u16) -> (v: u8)
        requires
            self.wf(),
        ensures
            v == self.spec_read_prg(addr),
    {
        self.base.read_prg(addr)
    }

    /// The board's memory and page tables.
    pub fn base(&self) -> (b: &BaseMapper)
        ensures
            *b == self.base,
    {
        &self.base
    }

    pub fn get_mirroring(&self) -> (m: NametableLayout)
        ensures
            m == self.spec_mirroring(),
    {
        self.base.mirroring
    }

    pub fn capabilities(&self) -> (c: MapperCapabilities)
        ensures
            c == self.base.capabilities,
    {
        self.base.capabilities
    }

    pub fn mapper_number(&self) -> (n: u16)
        ensures
            n == MAPPER_NUMBER,
    {
        MAPPER_NUMBER
    }

}

/// Restoring a board from its own snapshot brings back the PRG latch and
/// the IRQ counter, and keeps horizontal and vertical mirroring.
/// The restored board then snapshots to the same bytes.
pub proof fn lemma_snapshot_roundtrip(m: Mapper55, before: Mapper55, restored: Mapper55)
    requires
        m.wf(),
        before.wf(),
        restored.restore_post(&before, m.snapshot()),
    ensures
        restored.prg_bank == m.prg_bank,
        restored.irq == m.irq,
        (m.base.mirroring == NametableLayout::Horizontal || m.base.mirroring == NametableLayout::Vertical) ==> restored.base.mirroring == m.base.mirroring,
        restored.snapshot() == m.snapshot(),
{
    crate::bits::lemma_flag_byte(m.irq.enabled, m.irq.pending);
    crate::bits::lemma_u16_bytes(m.irq.counter);
}

/// Once enabled from a cleared counter, the IRQ line comes up at CPU cycle
/// `$6000` and stays up while the 15-bit counter is at or past `$6000`: `k`
/// cycles later (before the counter wraps at `$8000`) the counter is `k` and
/// the line is up exactly when `k >= $6000`.
pub proof fn lemma_irq_at_threshold(m: Mapper55, k: nat)
    requires
        m.wf(),
        m.irq.enabled,
        m.irq.counter == 0,
        !m.irq.pending,
        k < 0x8000,
    ensures
        m.irq.ticked_n(k).counter == k,
        m.irq.ticked_n(k).pending == (k >= IRQ_THRESHOLD),
        m.irq.ticked_n(k).enabled,
        m.irq.ticked_n(k).mode == m.irq.mode,
    decreases k,
{
    if k > 0 {
        lemma_irq_at_threshold(m, (k - 1) as nat);
        let prev = m.irq.ticked_n((k - 1) as nat);
        assert(m.irq.ticked_n(k) == prev.ticked());
        let c = prev.counter;
        assert(c < 0x7FFF ==> ((c + 1) as u16) & 0x7FFF == c + 1) by (bit_vector);
    }
}

} // verus!
