//! Mapper 041 - Caltron 6-in-1.
//!
//! A write to `$6000-$67FF` (address bits only) selects the 32 KiB PRG bank
//! from A2:A0, the outer CHR bits 3:2 from A4:A3 and horizontal mirroring
//! from A5. While the PRG bank is 4 or above, writes to `$8000-$FFFF` set
//! the inner CHR bits 1:0 from the value.
use vstd::prelude::*;
use crate::cartridge::{NametableLayout, MapperCapabilities, MapperContext, layout_hv};
use crate::base_mapper::BaseMapper;

verus! {

pub const MAPPER_NUMBER: u16 = 41;
pub const OUTER_REGISTER_START: u16 = 0x6000;
pub const OUTER_REGISTER_END: u16 = 0x67FF;
pub const INNER_REGISTER_START: u16 = 0x8000;
pub const PRG_BANK_MASK: u16 = 0x0007;
pub const CHR_OUTER_FROM_ADDR_MASK: u16 = 0x000C;
pub const CHR_INNER_MASK: u8 = 0x03;
pub const CHR_OUTER_MASK: u8 = 0x0C;
pub const MIRROR_HORIZONTAL_ADDR_BIT: u16 = 0x0020;
pub const INNER_ENABLE_PRG_THRESHOLD: u8 = 4;

/// Mapper 041 - Caltron 6-in-1.
pub struct Mapper41 {
    pub base: BaseMapper,
    pub prg_bank: u8,
    pub chr_bank: u8,
}

impl Mapper41 {
    pub open spec fn regs(&self) -> (u8, u8) {
        (self.prg_bank, self.chr_bank)
    }

    pub open spec fn wf(&self) -> bool {
        &&& self.base.wf()
        &&& self.base.prg_page_size == 0x8000
        &&& self.base.chr_page_size == 0x2000
        &&& self.base.prg_pages@.len() == 1
        &&& self.base.chr_pages@.len() == 1
    }

    pub open spec fn applied(&self) -> bool {
        &&& self.base.shows_prg(seq![self.prg_bank as int])
        &&& self.base.shows_chr(seq![self.chr_bank as int])
    }

    pub open spec fn write_post(&self, old: &Self, addr: u16, value: u8) -> bool {
        &&& self.wf()
        &&& self.base.same_memory(&old.base)
        &&& if OUTER_REGISTER_START <= addr <= OUTER_REGISTER_END {
            &&& self.prg_bank == (addr & PRG_BANK_MASK) as u8
            &&& self.chr_bank == (old.chr_bank & CHR_INNER_MASK) | (((addr >> 1) & CHR_OUTER_FROM_ADDR_MASK) as u8)
            &&& self.base.mirroring == layout_hv(addr & MIRROR_HORIZONTAL_ADDR_BIT != 0)
            &&& self.applied()
        } else if addr >= INNER_REGISTER_START && old.prg_bank >= INNER_ENABLE_PRG_THRESHOLD {
            &&& self.prg_bank == old.prg_bank
            &&& self.chr_bank == (old.chr_bank & CHR_OUTER_MASK) | (value & CHR_INNER_MASK)
            &&& self.base.mirroring == old.base.mirroring
            &&& self.applied()
        } else {
            self.regs() == old.regs() && self.base.unchanged(&old.base)
        }
    }

    pub open spec fn restore_post(&self, old: &Self, data: Seq<u8>) -> bool {
        &&& self.wf()
        &&& self.base.same_memory(&old.base)
        &&& if data.len() >= 2 {
            &&& self.regs() == (data[0], data[1])
            &&& self.base.mirroring == (if data.len() >= 3 { layout_hv(data[2] != 0) } else { old.base.mirroring })
            &&& self.applied()
        } else {
            self.regs() == old.regs() && self.base.unchanged(&old.base)
        }
    }

    pub open spec fn reset_post(&self, old: &Self) -> bool {
        &&& self.wf()
        &&& self.base.same_memory(&old.base)
        &&& self.regs() == (0u8, 0u8)
        &&& self.base.mirroring == NametableLayout::Vertical
        &&& self.applied()
    }

    pub open spec fn snapshot(&self) -> Seq<u8> {
        seq![self.prg_bank, self.chr_bank, if self.base.mirroring == NametableLayout::Horizontal { 1u8 } else { 0u8 }]
    }

    pub fn new(ctx: MapperContext) -> (m: Self)
        ensures
            m.wf(),
            m.regs() == (0u8, 0u8),
            m.applied(),
            m.base.mirroring == ctx.mirroring,
            m.base.prg_rom@ == ctx.prg_rom@,
            m.base.capabilities == (MapperCapabilities { has_irq: false, has_expansion_audio: false, has_chr_banking: true, has_dynamic_mirroring: true, max_prg_ram_kb: 0, prg_bank_size_kb: 32, chr_bank_size_kb: 8 }),
            m.base.chr_from(ctx.chr_rom@),
    {
        let capabilities = MapperCapabilities {
            has_irq: false,
            has_expansion_audio: false,
            has_chr_banking: true,
            has_dynamic_mirroring: true,
            max_prg_ram_kb: 0,
            prg_bank_size_kb: 32,
            chr_bank_size_kb: 8,
        };
        let mut base = BaseMapper::new(&ctx, capabilities);
        base.configure_prg_banking(32 * 1024);
        base.configure_chr_banking(8 * 1024);
        let mut mapper = Mapper41 { base, prg_bank: 0, chr_bank: 0 };
        mapper.update_mapping();
        mapper
    }

    fn update_mapping(&mut self)
        requires
            old(self).wf(),
        ensures
            final(self).wf(),
            final(self).regs() == old(self).regs(),
            final(self).base.same_memory(&old(self).base),
            final(self).base.mirroring == old(self).base.mirroring,
            final(self).applied(),
    {
        self.base.select_prg_page(0, self.prg_bank as i16);
        self.base.select_chr_page(0, self.chr_bank as i16);
        proof {
            self.base.lemma_shows_prg1(self.prg_bank as int);
            self.base.lemma_shows_chr1(self.chr_bank as int);
        }
    }

    pub fn write_prg(&mut self, addr: u16, value: u8)
        requires
            old(self).wf(),
        ensures
            final(self).write_post(old(self), addr, value),
    {
        if OUTER_REGISTER_START <= addr && addr <= OUTER_REGISTER_END {
            proof {
                assert(addr & 0x0007 <= 7 && (addr >> 1) & 0x000C <= 0x0C) by (bit_vector);
            }
            self.prg_bank = (addr & PRG_BANK_MASK) as u8;
            self.chr_bank = (self.chr_bank & CHR_INNER_MASK) | (((addr >> 1) & CHR_OUTER_FROM_ADDR_MASK) as u8);
            self.base.set_mirroring_hv((addr & MIRROR_HORIZONTAL_ADDR_BIT) != 0);
            self.update_mapping();
            return;
        }
        if addr >= INNER_REGISTER_START && self.prg_bank >= INNER_ENABLE_PRG_THRESHOLD {
            self.chr_bank = (self.chr_bank & CHR_OUTER_MASK) | (value & CHR_INNER_MASK);
            self.update_mapping();
        }
    }

    pub fn registers_snapshot(&self) -> (s: Vec<u8>)
        ensures
            s@ == self.snapshot(),
    {
        let mirroring_h: u8 = if self.base.mirroring == NametableLayout::Horizontal { 1 } else { 0 };
        vec![self.prg_bank, self.chr_bank, mirroring_h]
    }

    pub fn restore_registers(&mut self, data: &[u8])
        requires
            old(self).wf(),
        ensures
            final(self).restore_post(old(self), data@),
    {
        if data.len() >= 2 {
            self.prg_bank = data[0];
            self.chr_bank = data[1];
            if data.len() >= 3 {
                self.base.set_mirroring_hv(data[2] != 0);
            }
            self.update_mapping();
        }
    }

    pub fn reset(&mut self)
        requires
            old(self).wf(),
        ensures
            final(self).reset_post(old(self)),
    {
        self.prg_bank = 0;
        self.chr_bank = 0;
        self.base.set_mirroring(NametableLayout::Vertical);
        self.update_mapping();
    }

    /// Every CPU read is defined.
    pub open spec fn read_ok(&self, addr: u16) -> bool {
        true
    }

    pub open spec fn spec_mirroring(&self) -> NametableLayout {
        self.base.mirroring
    }

    pub open spec fn spec_read_chr(&self, addr: u16) -> u8 {
        self.base.spec_read_chr(addr)
    }

    /// State after a PPU write to pattern memory: CHR-RAM takes the byte.
    pub open spec fn write_chr_post(&self, old: &Self, addr: u16, value: u8) -> bool {
        &&& self.wf()
        &&& self.base.chr@ == (if old.base.chr_writable && old.base.chr_count() > 0 {
            old.base.chr@.update(old.base.chr_index(addr) as int, value)
        } else {
            old.base.chr@
        })
        &&& self.base.prg_pages@ == old.base.prg_pages@
        &&& self.base.chr_pages@ == old.base.chr_pages@
        &&& self.base.mirroring == old.base.mirroring
        &&& self.regs() == old.regs()
    }

    pub fn read_chr(&self, addr: u16) -> (v: u8)
        requires
            self.wf(),
        ensures
            v == self.spec_read_chr(addr),
    {
        self.base.read_chr(addr)
    }

    pub fn write_chr(&mut self, addr: u16, value: u8)
        requires
            old(self).wf(),
        ensures
            final(self).write_chr_post(old(self), addr, value),
    {
        self.base.write_chr(addr, value);
    }

    pub open spec fn spec_read_prg(&self, addr: u16) -> u8 {
        self.base.spec_read_prg(addr)
    }

    pub fn read_prg(&self, addr: u16) -> (v: u8)
        requires
            self.wf(),
        ensures
            v == self.spec_read_prg(addr),
    {
        self.base.read_prg(addr)
    }

    /// The board's memory and page tables.
    pub fn base(&self) -> (b: &BaseMapper)
        ensures
            *b == self.base,
    {
        &self.base
    }

    pub fn get_mirroring(&self) -> (m: NametableLayout)
        ensures
            m == self.spec_mirroring(),
    {
        self.base.mirroring
    }

    pub fn capabilities(&self) -> (c: MapperCapabilities)
        ensures
            c == self.base.capabilities,
    {
        self.base.capabilities
    }

    pub fn mapper_number(&self) -> (n: u16)
        ensures
            n == MAPPER_NUMBER,
    {
        MAPPER_NUMBER
    }

    pub open spec fn spec_irq_pending(&self) -> bool {
        false
    }

    /// The board raises no interrupt.
    pub fn irq_pending(&self) -> (p: bool)
        ensures
            p == self.spec_irq_pending(),
    {
        false
    }

    pub open spec fn cycle_ok(&self) -> bool {
        true
    }

    pub open spec fn cycle_post(&self, old: &Self) -> bool {
        *self == *old
    }

    /// The board does not count CPU cycles.
    pub fn cpu_cycle(&mut self)
        requires
            old(self).wf(),
        ensures
            final(self).cycle_post(old(self)),
    {
    }

}

/// Restoring the snapshot of a mapper with horizontal or vertical mirroring
/// brings back its registers and its mirroring.
/// The restored board then snapshots to the same bytes.
pub proof fn lemma_snapshot_roundtrip(m: Mapper41, before: Mapper41, restored: Mapper41)
    requires
        m.base.mirroring == NametableLayout::Horizontal || m.base.mirroring == NametableLayout::Vertical,
        restored.restore_post(&before, m.snapshot()),
    ensures
        restored.regs() == m.regs(),
        restored.base.mirroring == m.base.mirroring,
        restored.snapshot() == m.snapshot(),
{
}

} // verus!
