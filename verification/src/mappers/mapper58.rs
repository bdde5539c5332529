//! Mapper 058 - BMC multicart (address latch).
//!
//! A write to `$8000-$FFFF` decodes the low address byte: bits 2:0 select the
//! PRG page, bits 5:3 the 8 KiB CHR bank, bit 6 NROM-128 mode (the 16 KiB
//! page in both windows; otherwise the 32 KiB pair `page & 6`, `page | 1`),
//! bit 7 horizontal mirroring.
use vstd::prelude::*;
use crate::cartridge::{NametableLayout, MapperCapabilities, MapperContext, layout_hv};
use crate::base_mapper::BaseMapper;

verus! {

pub const MAPPER_NUMBER: u16 = 58;

/// The 16 KiB pages of an NROM board: the same page twice in NROM-128 mode,
/// else the even/odd pair around it.
pub open spec fn nrom_pages(bank: u8, nrom_128: bool) -> Seq<int> {
    if nrom_128 { seq![bank as int, bank as int] } else { seq![(bank & 0xFE) as int, (bank | 1) as int] }
}

/// Mapper 058 - BMC multicart.
pub struct Mapper58 {
    pub base: BaseMapper,
    pub prg_bank: u8,
    pub chr_bank: u8,
    /// Set: NROM-128 (16 KiB mirrored); clear: NROM-256 (32 KiB).
    pub prg_mode: bool,
}

impl Mapper58 {
    pub open spec fn regs(&self) -> (u8, u8, bool) {
        (self.prg_bank, self.chr_bank, self.prg_mode)
    }

    pub open spec fn wf(&self) -> bool {
        &&& self.base.wf()
        &&& self.base.prg_page_size == 0x4000
        &&& self.base.chr_page_size == 0x2000
        &&& self.base.prg_pages@.len() == 2
        &&& self.base.chr_pages@.len() == 1
    }

    pub open spec fn applied(&self) -> bool {
        &&& self.base.shows_prg(nrom_pages(self.prg_bank, self.prg_mode))
        &&& self.base.shows_chr(seq![self.chr_bank as int])
    }

    pub open spec fn write_post(&self, old: &Self, addr: u16, value: u8) -> bool {
        let a = (addr & 0x00FF) as u8;
        &&& self.wf()
        &&& self.base.same_memory(&old.base)
        &&& if addr >= 0x8000 {
            &&& self.regs() == (a & 0x07, (a >> 3) & 0x07, (a & 0x40) != 0)
            &&& self.base.mirroring == layout_hv((a & 0x80) != 0)
            &&& self.applied()
        } else {
            self.regs() == old.regs() && self.base.unchanged(&old.base)
        }
    }

    pub open spec fn restore_post(&self, old: &Self, data: Seq<u8>) -> bool {
        &&& self.wf()
        &&& self.base.same_memory(&old.base)
        &&& if data.len() >= 3 {
            &&& self.regs() == (data[0], data[1], (data[2] & 1) != 0)
            &&& self.base.mirroring == layout_hv((data[2] & 2) != 0)
            &&& self.applied()
        } else {
            self.regs() == old.regs() && self.base.unchanged(&old.base)
        }
    }

    pub open spec fn reset_post(&self, old: &Self) -> bool {
        &&& self.wf()
        &&& self.base.same_memory(&old.base)
        &&& self.regs() == (0u8, 0u8, false)
        &&& self.base.mirroring == NametableLayout::Vertical
        &&& self.applied()
    }

    pub open spec fn snapshot(&self) -> Seq<u8> {
        seq![
            self.prg_bank,
            self.chr_bank,
            (if self.prg_mode { 1u8 } else { 0u8 }) | ((if self.base.mirroring == NametableLayout::Horizontal { 1u8 } else { 0u8 }) << 1),
        ]
    }

    pub fn new(ctx: MapperContext) -> (m: Self)
        ensures
            m.wf(),
            m.regs() == (0u8, 0u8, false),
            m.applied(),
            m.base.mirroring == ctx.mirroring,
            m.base.prg_rom@ == ctx.prg_rom@,
            m.base.capabilities == (MapperCapabilities { has_irq: false, has_expansion_audio: false, has_dynamic_mirroring: true, has_chr_banking: true, max_prg_ram_kb: 0, prg_bank_size_kb: 16, chr_bank_size_kb: 8 }),
            m.base.chr_from(ctx.chr_rom@),
    {
        let capabilities = MapperCapabilities {
            has_irq: false,
            has_expansion_audio: false,
            has_dynamic_mirroring: true,
            has_chr_banking: true,
            max_prg_ram_kb: 0,
            prg_bank_size_kb: 16,
            chr_bank_size_kb: 8,
        };
        let mut base = BaseMapper::new(&ctx, capabilities);
        base.configure_prg_banking(16 * 1024);
        base.configure_chr_banking(8 * 1024);
        base.select_prg_page(1, 1);
        proof {
            assert(0u8 & 0xFE == 0 && 0u8 | 1 == 1) by (bit_vector);
            base.lemma_shows_prg2(0, 1);
            base.lemma_shows_chr1(0);
        }
        Mapper58 { base, prg_bank: 0, chr_bank: 0, prg_mode: false }
    }

    fn update_banks(&mut self)
        requires
            old(self).wf(),
        ensures
            final(self).wf(),
            final(self).regs() == old(self).regs(),
            final(self).base.same_memory(&old(self).base),
            final(self).base.mirroring == old(self).base.mirroring,
            final(self).applied(),
    {
        self.apply_nrom_prg_banking(self.prg_bank, self.prg_mode);
        self.base.select_chr_page(0, self.chr_bank as i16);
        proof {
            self.base.lemma_shows_chr1(self.chr_bank as int);
        }
    }

    /// Shows the NROM-128 or NROM-256 PRG layout for `bank`.
    fn apply_nrom_prg_banking(&mut self, bank: u8, nrom_128: bool)
        requires
            old(self).wf(),
        ensures
            final(self).wf(),
            final(self).regs() == old(self).regs(),
            final(self).base.same_memory(&old(self).base),
            final(self).base.chr_pages@ == old(self).base.chr_pages@,
            final(self).base.mirroring == old(self).base.mirroring,
            final(self).base.shows_prg(nrom_pages(bank, nrom_128)),
    {
        let ghost pages = nrom_pages(bank, nrom_128);
        if nrom_128 {
            self.base.select_prg_page(0, bank as i16);
            self.base.select_prg_page(1, bank as i16);
        } else {
            self.base.select_prg_page(0, (bank & 0xFE) as i16);
            self.base.select_prg_page(1, (bank | 1) as i16);
        }
        proof {
            self.base.lemma_shows_prg2(pages[0], pages[1]);
            assert(pages =~= seq![pages[0], pages[1]]);
        }
    }

    pub fn write_prg(&mut self, addr: u16, value: u8)
        requires
            old(self).wf(),
        ensures
            final(self).write_post(old(self), addr, value),
    {
        if addr >= 0x8000 {
            let a = (addr & 0x00FF) as u8;
            self.prg_bank = a & 0x07;
            self.chr_bank = (a >> 3) & 0x07;
            self.prg_mode = (a & 0x40) != 0;
            self.base.set_mirroring_hv((a & 0x80) != 0);
            self.update_banks();
        }
    }

    pub fn registers_snapshot(&self) -> (s: Vec<u8>)
        ensures
            s@ == self.snapshot(),
    {
        let flags: u8 = (if self.prg_mode { 1u8 } else { 0u8 })
            | ((if self.base.mirroring == NametableLayout::Horizontal { 1u8 } else { 0u8 }) << 1);
        vec![self.prg_bank, self.chr_bank, flags]
    }

    pub fn restore_registers(&mut self, data: &[u8])
        requires
            old(self).wf(),
        ensures
            final(self).restore_post(old(self), data@),
    {
        if data.len() >= 3 {
            self.prg_bank = data[0];
            self.chr_bank = data[1];
            self.prg_mode = (data[2] & 1) != 0;
            self.base.set_mirroring_hv((data[2] & 2) != 0);
            self.update_banks();
        }
    }

    pub fn reset(&mut self)
        requires
            old(self).wf(),
        ensures
            final(self).reset_post(old(self)),
    {
        self.prg_bank = 0;
        self.chr_bank = 0;
        self.prg_mode = false;
        self.base.set_mirroring(NametableLayout::Vertical);
        self.update_banks();
    }

    /// Every CPU read is defined.
    pub open spec fn read_ok(&self, addr: u16) -> bool {
        true
    }

    pub open spec fn spec_mirroring(&self) -> NametableLayout {
        self.base.mirroring
    }

    pub open spec fn spec_read_chr(&self, addr: u16) -> u8 {
        self.base.spec_read_chr(addr)
    }

    /// State after a PPU write to pattern memory: CHR-RAM takes the byte.
    pub open spec fn write_chr_post(&self, old: &Self, addr: u16, value: u8) -> bool {
        &&& self.wf()
        &&& self.base.chr@ == (if old.base.chr_writable && old.base.chr_count() > 0 {
            old.base.chr@.update(old.base.chr_index(addr) as int, value)
        } else {
            old.base.chr@
        })
        &&& self.base.prg_pages@ == old.base.prg_pages@
        &&& self.base.chr_pages@ == old.base.chr_pages@
        &&& self.base.mirroring == old.base.mirroring
        &&& self.regs() == old.regs()
    }

    pub fn read_chr(&self, addr: u16) -> (v: u8)
        requires
            self.wf(),
        ensures
            v == self.spec_read_chr(addr),
    {
        self.base.read_chr(addr)
    }

    pub fn write_chr(&mut self, addr: u16, value: u8)
        requires
            old(self).wf(),
        ensures
            final(self).write_chr_post(old(self), addr, value),
    {
        self.base.write_chr(addr, value);
    }

    pub open spec fn spec_read_prg(&self, addr: u16) -> u8 {
        self.base.spec_read_prg(addr)
    }

    pub fn read_prg(&self, addr: u16) -> (v: u8)
        requires
            self.wf(),
        ensures
            v == self.spec_read_prg(addr),
    {
        self.base.read_prg(addr)
    }

    /// The board's memory and page tables.
    pub fn base(&self) -> (b: &BaseMapper)
        ensures
            *b == self.base,
    {
        &self.base
    }

    pub fn get_mirroring(&self) -> (m: NametableLayout)
        ensures
            m == self.spec_mirroring(),
    {
        self.base.mirroring
    }

    pub fn capabilities(&self) -> (c: MapperCapabilities)
        ensures
            c == self.base.capabilities,
    {
        self.base.capabilities
    }

    pub fn mapper_number(&self) -> (n: u16)
        ensures
            n == MAPPER_NUMBER,
    {
        MAPPER_NUMBER
    }

    pub open spec fn spec_irq_pending(&self) -> bool {
        false
    }

    /// The board raises no interrupt.
    pub fn irq_pending(&self) -> (p: bool)
        ensures
            p == self.spec_irq_pending(),
    {
        false
    }

    pub open spec fn cycle_ok(&self) -> bool {
        true
    }

    pub open spec fn cycle_post(&self, old: &Self) -> bool {
        *self == *old
    }

    /// The board does not count CPU cycles.
    pub fn cpu_cycle(&mut self)
        requires
            old(self).wf(),
        ensures
            final(self).cycle_post(old(self)),
    {
    }

}

/// Restoring the snapshot of a mapper with horizontal or vertical mirroring
/// brings back its registers and its mirroring.
/// The restored board then snapshots to the same bytes.
pub proof fn lemma_snapshot_roundtrip(m: Mapper58, before: Mapper58, restored: Mapper58)
    requires
        m.base.mirroring == NametableLayout::Horizontal || m.base.mirroring == NametableLayout::Vertical,
        restored.restore_post(&before, m.snapshot()),
    ensures
        restored.regs() == m.regs(),
        restored.base.mirroring == m.base.mirroring,
        restored.snapshot() == m.snapshot(),
{
    let p = m.prg_mode;
    let h = m.base.mirroring == NametableLayout::Horizontal;
    let f: u8 = (if p { 1u8 } else { 0u8 }) | ((if h { 1u8 } else { 0u8 }) << 1);
    assert(((f & 1) != 0) == p && ((f & 2) != 0) == h) by (bit_vector)
        requires f == (if p { 1u8 } else { 0u8 }) | ((if h { 1u8 } else { 0u8 }) << 1);
}

} // verus!
