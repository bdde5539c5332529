//! Mapper 294 - 63-1601 multicart PCB (UNROM games).
//!
//! The outer register (any address with `addr & 0xC100 == 0x4100`) holds the
//! 128 KiB outer block in bits 3:0 and horizontal mirroring in bit 4. Writes
//! to `$8000-$FFFF` (ANDed with the ROM byte, bus conflicts) set the inner
//! 16 KiB bank from bits 2:0. `$8000` shows `outer * 8 + inner`, `$C000`
//! shows `outer * 8 + 7`. CHR is 8 KiB of RAM. Power-on mirroring follows
//! the header (horizontal, or else vertical); a reset selects vertical.
use vstd::prelude::*;
use crate::cartridge::{NametableLayout, MapperCapabilities, MapperContext, layout_hv};
use crate::base_mapper::{BaseMapper, ChrMemory};

verus! {

pub const MAPPER_NUMBER: u16 = 294;
pub const OUTER_PRG_MASK: u8 = 0x0F;
pub const INNER_PRG_MASK: u8 = 0x07;
pub const MIRRORING_BIT: u8 = 0x10;

pub open spec fn is_outer_reg_spec(addr: u16) -> bool {
    addr & 0xC100 == 0x4100
}

/// Mapper 294 - 63-1601 multicart PCB.
pub struct Mapper294 {
    pub base: BaseMapper,
    pub outer_bank: u8,
    pub inner_bank: u8,
    pub mirroring_horizontal: bool,
}

impl Mapper294 {
    pub open spec fn regs(&self) -> (u8, u8, bool) {
        (self.outer_bank, self.inner_bank, self.mirroring_horizontal)
    }

    pub open spec fn wf(&self) -> bool {
        &&& self.base.wf()
        &&& self.base.prg_page_size == 0x4000
        &&& self.base.chr_page_size == 0x2000
        &&& self.base.prg_pages@.len() == 2
        &&& self.base.chr_pages@.len() == 1
        &&& self.base.bus_conflicts
    }

    pub open spec fn applied(&self) -> bool {
        &&& self.base.shows_prg(seq![
            ((self.outer_bank << 3) | self.inner_bank) as int,
            ((self.outer_bank << 3) | INNER_PRG_MASK) as int,
        ])
        &&& self.base.shows_chr(seq![0int])
        &&& self.base.mirroring == layout_hv(self.mirroring_horizontal)
    }

    pub open spec fn write_post(&self, old: &Self, addr: u16, value: u8) -> bool {
        &&& self.wf()
        &&& self.base.same_memory(&old.base)
        &&& if is_outer_reg_spec(addr) {
            &&& self.regs() == (value & OUTER_PRG_MASK, old.inner_bank, value & MIRRORING_BIT != 0)
            &&& self.applied()
        } else if addr >= 0x8000 {
            &&& self.regs() == (old.outer_bank, (value & old.base.spec_read_prg(addr)) & INNER_PRG_MASK, old.mirroring_horizontal)
            &&& self.applied()
        } else {
            *self == *old
        }
    }

    pub open spec fn restore_post(&self, old: &Self, data: Seq<u8>) -> bool {
        &&& self.wf()
        &&& self.base.same_memory(&old.base)
        &&& data.len() < 3 ==> *self == *old
        &&& data.len() >= 3 ==> self.regs() == (data[0] & OUTER_PRG_MASK, data[1] & INNER_PRG_MASK, data[2] != 0)
            && self.applied()
    }

    pub open spec fn reset_post(&self, old: &Self) -> bool {
        &&& self.wf()
        &&& self.base.same_memory(&old.base)
        &&& self.regs() == (0u8, 0u8, false)
        &&& self.applied()
    }

    pub open spec fn snapshot(&self) -> Seq<u8> {
        seq![self.outer_bank, self.inner_bank, if self.mirroring_horizontal { 1u8 } else { 0u8 }]
    }

    pub fn new(ctx: MapperContext) -> (m: Self)
        ensures
            m.wf(),
            m.regs() == (0u8, 0u8, ctx.mirroring == NametableLayout::Horizontal),
            m.applied(),
            m.base.prg_rom@ == ctx.prg_rom@,
            m.base.chr_writable,
            m.base.capabilities == (MapperCapabilities { has_irq: false, has_expansion_audio: false, has_dynamic_mirroring: true, has_chr_banking: false, prg_bank_size_kb: 16, chr_bank_size_kb: 8, max_prg_ram_kb: 0 }),
    {
        let capabilities = MapperCapabilities {
            has_irq: false,
            has_expansion_audio: false,
            has_dynamic_mirroring: true,
            has_chr_banking: false,
            prg_bank_size_kb: 16,
            chr_bank_size_kb: 8,
            max_prg_ram_kb: 0,
        };
        let mut base = BaseMapper::new(&ctx, capabilities);
        base.configure_prg_banking(16 * 1024);
        base.configure_chr_banking(8 * 1024);
        base.set_chr_memory(ChrMemory::new_ram(8 * 1024));
        base.set_bus_conflicts(true);
        let horizontal = match ctx.mirroring {
            NametableLayout::Horizontal => true,
            _ => false,
        };
        let mut mapper = Mapper294 { base, outer_bank: 0, inner_bank: 0, mirroring_horizontal: horizontal };
        mapper.update_banks();
        mapper
    }

    fn update_banks(&mut self)
        requires
            old(self).wf(),
        ensures
            final(self).wf(),
            final(self).regs() == old(self).regs(),
            final(self).base.same_memory(&old(self).base),
            final(self).applied(),
    {
        let bank_8000 = (self.outer_bank << 3) | self.inner_bank;
        let bank_c000 = (self.outer_bank << 3) | INNER_PRG_MASK;
        self.base.select_prg_page(0, bank_8000 as i16);
        self.base.select_prg_page(1, bank_c000 as i16);
        proof {
            self.base.lemma_shows_prg2(bank_8000 as int, bank_c000 as int);
        }
        self.base.select_chr_page(0, 0);
        self.base.set_mirroring_hv(self.mirroring_horizontal);
    }

    /// Whether `addr` reaches the outer register.
    pub fn is_outer_reg(addr: u16) -> (r: bool)
        ensures
            r == is_outer_reg_spec(addr),
    {
        addr & 0xC100 == 0x4100
    }

    pub fn write_prg(&mut self, addr: u16, value: u8)
        requires
            old(self).wf(),
        ensures
            final(self).write_post(old(self), addr, value),
    {
        if Self::is_outer_reg(addr) {
            self.outer_bank = value & OUTER_PRG_MASK;
            self.mirroring_horizontal = (value & MIRRORING_BIT) != 0;
            self.update_banks();
        } else if addr >= 0x8000 {
            let effective = self.base.apply_bus_conflict(addr, value);
            self.inner_bank = effective & INNER_PRG_MASK;
            self.update_banks();
        }
    }

    pub fn registers_snapshot(&self) -> (s: Vec<u8>)
        ensures
            s@ == self.snapshot(),
    {
        vec![self.outer_bank, self.inner_bank, if self.mirroring_horizontal { 1u8 } else { 0u8 }]
    }

    pub fn restore_registers(&mut self, data: &[u8])
        requires
            old(self).wf(),
        ensures
            final(self).restore_post(old(self), data@),
    {
        if data.len() < 3 {
            return;
        }
        self.outer_bank = data[0] & OUTER_PRG_MASK;
        self.inner_bank = data[1] & INNER_PRG_MASK;
        self.mirroring_horizontal = data[2] != 0;
        self.update_banks();
    }

    pub fn reset(&mut self)
        requires
            old(self).wf(),
        ensures
            final(self).reset_post(old(self)),
    {
        self.outer_bank = 0;
        self.inner_bank = 0;
        self.mirroring_horizontal = false;
        self.update_banks();
    }

    /// Every CPU read is defined.
    pub open spec fn read_ok(&self, addr: u16) -> bool {
        true
    }

    pub open spec fn spec_mirroring(&self) -> NametableLayout {
        self.base.mirroring
    }

    pub open spec fn spec_read_chr(&self, addr: u16) -> u8 {
        self.base.spec_read_chr(addr)
    }

    /// State after a PPU write to pattern memory: CHR-RAM takes the byte.
    pub open spec fn write_chr_post(&self, old: &Self, addr: u16, value: u8) -> bool {
        &&& self.wf()
        &&& self.base.chr@ == (if old.base.chr_writable && old.base.chr_count() > 0 {
            old.base.chr@.update(old.base.chr_index(addr) as int, value)
        } else {
            old.base.chr@
        })
        &&& self.base.prg_pages@ == old.base.prg_pages@
        &&& self.base.chr_pages@ == old.base.chr_pages@
        &&& self.base.mirroring == old.base.mirroring
        &&& self.regs() == old.regs()
    }

    pub fn read_chr(&self, addr: u16) -> (v: u8)
        requires
            self.wf(),
        ensures
            v == self.spec_read_chr(addr),
    {
        self.base.read_chr(addr)
    }

    pub fn write_chr(&mut self, addr: u16, value: u8)
        requires
            old(self).wf(),
        ensures
            final(self).write_chr_post(old(self), addr, value),
    {
        self.base.write_chr(addr, value);
    }

    pub open spec fn spec_read_prg(&self, addr: u16) -> u8 {
        self.base.spec_read_prg(addr)
    }

    pub fn read_prg(&self, addr: u16) -> (v: u8)
        requires
            self.wf(),
        ensures
            v == self.spec_read_prg(addr),
    {
        self.base.read_prg(addr)
    }

    /// The board's memory and page tables.
    pub fn base(&self) -> (b: &BaseMapper)
        ensures
            *b == self.base,
    {
        &self.base
    }

    pub fn get_mirroring(&self) -> (m: NametableLayout)
        ensures
            m == self.spec_mirroring(),
    {
        self.base.mirroring
    }

    pub fn capabilities(&self) -> (c: MapperCapabilities)
        ensures
            c == self.base.capabilities,
    {
        self.base.capabilities
    }

    pub fn mapper_number(&self) -> (n: u16)
        ensures
            n == MAPPER_NUMBER,
    {
        MAPPER_NUMBER
    }

    pub open spec fn spec_irq_pending(&self) -> bool {
        false
    }

    /// The board raises no interrupt.
    pub fn irq_pending(&self) -> (p: bool)
        ensures
            p == self.spec_irq_pending(),
    {
        false
    }

    pub open spec fn cycle_ok(&self) -> bool {
        true
    }

    pub open spec fn cycle_post(&self, old: &Self) -> bool {
        *self == *old
    }

    /// The board does not count CPU cycles.
    pub fn cpu_cycle(&mut self)
        requires
            old(self).wf(),
        ensures
            final(self).cycle_post(old(self)),
    {
    }

}

/// Restoring the snapshot of a mapper whose registers are within their masks
/// brings back those registers.
/// The restored board then snapshots to the same bytes.
pub proof fn lemma_snapshot_roundtrip(m: Mapper294, before: Mapper294, restored: Mapper294)
    requires
        m.outer_bank <= 0x0F,
        m.inner_bank <= 0x07,
        restored.restore_post(&before, m.snapshot()),
    ensures
        restored.regs() == m.regs(),
        restored.snapshot() == m.snapshot(),
{
    let o = m.outer_bank;
    let i = m.inner_bank;
    assert(o & 0x0F == o && i & 0x07 == i) by (bit_vector)
        requires o <= 0x0F, i <= 0x07;
}

} // verus!
