//! Mapper 300 - BMC-190in1.
//!
//! A write to `$8000-$FFFF` stores the value: bits 4:2 select the 16 KiB PRG
//! bank (shown in both windows) and the 8 KiB CHR bank, bit 0 selects
//! horizontal mirroring.
use vstd::prelude::*;
use crate::cartridge::{NametableLayout, MapperCapabilities, MapperContext, layout_hv};
use crate::base_mapper::BaseMapper;

verus! {

pub const MAPPER_NUMBER: u16 = 300;
pub const PRG_BANK_SIZE_BYTES: usize = 16 * 1024;
pub const CHR_BANK_SIZE_BYTES: usize = 8 * 1024;
pub const BANK_MASK: u8 = 0x07;
pub const MIRROR_BIT: u8 = 0x01;

pub open spec fn bank_of(reg: u8) -> int {
    ((reg >> 2) & BANK_MASK) as int
}

/// Mapper 300 - BMC-190in1.
pub struct Mapper300 {
    pub base: BaseMapper,
    pub reg: u8,
}

impl Mapper300 {
    pub open spec fn regs(&self) -> u8 {
        self.reg
    }

    pub open spec fn wf(&self) -> bool {
        &&& self.base.wf()
        &&& self.base.prg_page_size == PRG_BANK_SIZE_BYTES
        &&& self.base.chr_page_size == CHR_BANK_SIZE_BYTES
        &&& self.base.prg_pages@.len() == 2
        &&& self.base.chr_pages@.len() == 1
    }

    pub open spec fn applied(&self) -> bool {
        &&& self.base.shows_prg(seq![bank_of(self.reg), bank_of(self.reg)])
        &&& self.base.shows_chr(seq![bank_of(self.reg)])
        &&& self.base.mirroring == layout_hv(self.reg & MIRROR_BIT != 0)
    }

    pub open spec fn write_post(&self, old: &Self, addr: u16, value: u8) -> bool {
        &&& self.wf()
        &&& self.base.same_memory(&old.base)
        &&& if addr >= 0x8000 { self.reg == value && self.applied() } else { *self == *old }
    }

    pub open spec fn restore_post(&self, old: &Self, data: Seq<u8>) -> bool {
        &&& self.wf()
        &&& self.base.same_memory(&old.base)
        &&& if data.len() == 0 { *self == *old } else { self.reg == data[0] && self.applied() }
    }

    pub open spec fn reset_post(&self, old: &Self) -> bool {
        &&& self.wf()
        &&& self.base.same_memory(&old.base)
        &&& self.reg == 0
        &&& self.applied()
    }

    pub open spec fn snapshot(&self) -> Seq<u8> {
        seq![self.reg]
    }

    pub fn new(ctx: MapperContext) -> (m: Self)
        ensures
            m.wf(),
            m.reg == 0,
            m.applied(),
            m.base.prg_rom@ == ctx.prg_rom@,
            m.base.capabilities == (MapperCapabilities { has_irq: false, has_expansion_audio: false, has_dynamic_mirroring: true, has_chr_banking: true, prg_bank_size_kb: 16, chr_bank_size_kb: 8, max_prg_ram_kb: 0 }),
            m.base.chr_from(ctx.chr_rom@),
    {
        let capabilities = MapperCapabilities {
            has_irq: false,
            has_expansion_audio: false,
            has_dynamic_mirroring: true,
            has_chr_banking: true,
            prg_bank_size_kb: 16,
            chr_bank_size_kb: 8,
            max_prg_ram_kb: 0,
        };
        let mut base = BaseMapper::new(&ctx, capabilities);
        base.configure_prg_banking(PRG_BANK_SIZE_BYTES);
        base.configure_chr_banking(CHR_BANK_SIZE_BYTES);
        let mut mapper = Mapper300 { base, reg: 0 };
        mapper.apply_state(0);
        mapper
    }

    /// Stores `reg` and shows the banks and mirroring it selects.
    fn apply_state(&mut self, reg: u8)
        requires
            old(self).wf(),
        ensures
            final(self).wf(),
            final(self).reg == reg,
            final(self).base.same_memory(&old(self).base),
            final(self).applied(),
    {
        self.reg = reg;
        let bank = ((reg >> 2) & BANK_MASK) as i16;
        self.base.select_prg_page(0, bank);
        self.base.select_prg_page(1, bank);
        proof {
            self.base.lemma_shows_prg2(bank as int, bank as int);
        }
        self.base.select_chr_page(0, bank);
        proof {
            self.base.lemma_shows_chr1(bank as int);
        }
        self.base.set_mirroring_hv((reg & MIRROR_BIT) != 0);
    }

    pub fn write_prg(&mut self, addr: u16, value: u8)
        requires
            old(self).wf(),
        ensures
            final(self).write_post(old(self), addr, value),
    {
        if addr >= 0x8000 {
            self.apply_state(value);
        }
    }

    pub fn registers_snapshot(&self) -> (s: Vec<u8>)
        ensures
            s@ == self.snapshot(),
    {
        vec![self.reg]
    }

    pub fn restore_registers(&mut self, data: &[u8])
        requires
            old(self).wf(),
        ensures
            final(self).restore_post(old(self), data@),
    {
        if data.len() == 0 {
            return;
        }
        self.apply_state(data[0]);
    }

    pub fn reset(&mut self)
        requires
            old(self).wf(),
        ensures
            final(self).reset_post(old(self)),
    {
        self.apply_state(0);
    }

    /// Every CPU read is defined.
    pub open spec fn read_ok(&self, addr: u16) -> bool {
        true
    }

    pub open spec fn spec_mirroring(&self) -> NametableLayout {
        self.base.mirroring
    }

    pub open spec fn spec_read_chr(&self, addr: u16) -> u8 {
        self.base.spec_read_chr(addr)
    }

    /// State after a PPU write to pattern memory: CHR-RAM takes the byte.
    pub open spec fn write_chr_post(&self, old: &Self, addr: u16, value: u8) -> bool {
        &&& self.wf()
        &&& self.base.chr@ == (if old.base.chr_writable && old.base.chr_count() > 0 {
            old.base.chr@.update(old.base.chr_index(addr) as int, value)
        } else {
            old.base.chr@
        })
        &&& self.base.prg_pages@ == old.base.prg_pages@
        &&& self.base.chr_pages@ == old.base.chr_pages@
        &&& self.base.mirroring == old.base.mirroring
        &&& self.regs() == old.regs()
    }

    pub fn read_chr(&self, addr: u16) -> (v: u8)
        requires
            self.wf(),
        ensures
            v == self.spec_read_chr(addr),
    {
        self.base.read_chr(addr)
    }

    pub fn write_chr(&mut self, addr: u16, value: u8)
        requires
            old(self).wf(),
        ensures
            final(self).write_chr_post(old(self), addr, value),
    {
        self.base.write_chr(addr, value);
    }

    pub open spec fn spec_read_prg(&self, addr: u16) -> u8 {
        self.base.spec_read_prg(addr)
    }

    pub fn read_prg(&self, addr: u16) -> (v: u8)
        requires
            self.wf(),
        ensures
            v == self.spec_read_prg(addr),
    {
        self.base.read_prg(addr)
    }

    /// The board's memory and page tables.
    pub fn base(&self) -> (b: &BaseMapper)
        ensures
            *b == self.base,
    {
        &self.base
    }

    pub fn get_mirroring(&self) -> (m: NametableLayout)
        ensures
            m == self.spec_mirroring(),
    {
        self.base.mirroring
    }

    pub fn capabilities(&self) -> (c: MapperCapabilities)
        ensures
            c == self.base.capabilities,
    {
        self.base.capabilities
    }

    pub fn mapper_number(&self) -> (n: u16)
        ensures
            n == MAPPER_NUMBER,
    {
        MAPPER_NUMBER
    }

    pub open spec fn spec_irq_pending(&self) -> bool {
        false
    }

    /// The board raises no interrupt.
    pub fn irq_pending(&self) -> (p: bool)
        ensures
            p == self.spec_irq_pending(),
    {
        false
    }

    pub open spec fn cycle_ok(&self) -> bool {
        true
    }

    pub open spec fn cycle_post(&self, old: &Self) -> bool {
        *self == *old
    }

    /// The board does not count CPU cycles.
    pub fn cpu_cycle(&mut self)
        requires
            old(self).wf(),
        ensures
            final(self).cycle_post(old(self)),
    {
    }

}

/// Restoring the snapshot of a mapper brings back its register.
/// The restored board then snapshots to the same bytes.
pub proof fn lemma_snapshot_roundtrip(m: Mapper300, before: Mapper300, restored: Mapper300)
    requires
        restored.restore_post(&before, m.snapshot()),
    ensures
        restored.reg == m.reg,
        restored.snapshot() == m.snapshot(),
{
}

} // verus!
