//! Mapper 301 - BMC 8157.
//!
//! Banking comes from the address of the last write to `$8000-$FFFF`:
//! `inner0 = A4:A2`, `inner1 = A7 | A9 << 1`, `outer128 = A6:A5`,
//! `outer512 = A8`. Slot 0 shows `outer512 << 6 | outer128 << 3 | inner0`;
//! slot 1 the same block with bank 0 (inner1 = 0), `inner0` (inner1 = 1) or
//! 7 (otherwise). A1 selects horizontal mirroring. CHR is fixed to bank 0.
use vstd::prelude::*;
use crate::cartridge::{NametableLayout, MapperCapabilities, MapperContext, layout_hv};
use crate::base_mapper::BaseMapper;

verus! {

pub const MAPPER_NUMBER: u16 = 301;
pub const PRG_BANK_SIZE: usize = 16 * 1024;
pub const CHR_BANK_SIZE: usize = 8 * 1024;

pub open spec fn inner0_of(a: u16) -> u16 {
    (a >> 2) & 0x07
}

pub open spec fn inner1_of(a: u16) -> u16 {
    ((a >> 7) & 0x01) | ((a >> 8) & 0x02)
}

pub open spec fn block_of(a: u16) -> u16 {
    (((a >> 8) & 0x01) << 6) | (((a >> 5) & 0x03) << 3)
}

pub open spec fn base_bank_of(a: u16) -> u16 {
    if inner1_of(a) == 0 { 0 } else if inner1_of(a) == 1 { inner0_of(a) } else { 7 }
}

/// Mapper 301 - BMC 8157.
pub struct Mapper301 {
    pub base: BaseMapper,
    pub last_addr: u16,
}

impl Mapper301 {
    pub open spec fn regs(&self) -> u16 {
        self.last_addr
    }

    pub open spec fn wf(&self) -> bool {
        &&& self.base.wf()
        &&& self.base.prg_page_size == PRG_BANK_SIZE
        &&& self.base.chr_page_size == CHR_BANK_SIZE
        &&& self.base.prg_pages@.len() == 2
        &&& self.base.chr_pages@.len() == 1
    }

    pub open spec fn applied(&self) -> bool {
        let a = self.last_addr;
        &&& self.base.shows_prg(seq![
            (block_of(a) | inner0_of(a)) as int,
            (block_of(a) | base_bank_of(a)) as int,
        ])
        &&& self.base.shows_chr(seq![0int])
        &&& self.base.mirroring == layout_hv(a & 0x02 != 0)
    }

    pub open spec fn write_post(&self, old: &Self, addr: u16, value: u8) -> bool {
        &&& self.wf()
        &&& self.base.same_memory(&old.base)
        &&& if addr >= 0x8000 { self.last_addr == addr && self.applied() } else { *self == *old }
    }

    pub open spec fn restore_post(&self, old: &Self, data: Seq<u8>) -> bool {
        &&& self.wf()
        &&& self.base.same_memory(&old.base)
        &&& if data.len() >= 2 {
            self.last_addr == ((data[0] as u16) | ((data[1] as u16) << 8)) && self.applied()
        } else {
            *self == *old
        }
    }

    pub open spec fn reset_post(&self, old: &Self) -> bool {
        &&& self.wf()
        &&& self.base.same_memory(&old.base)
        &&& self.last_addr == 0
        &&& self.applied()
    }

    pub open spec fn snapshot(&self) -> Seq<u8> {
        seq![(self.last_addr & 0xFF) as u8, ((self.last_addr >> 8) & 0xFF) as u8]
    }

    /// Banked PRG-ROM at `$8000-$FFFF`, 0 elsewhere.
    pub open spec fn spec_read_prg(&self, addr: u16) -> u8 {
        self.base.spec_read_prg_rom(addr)
    }

    pub fn new(ctx: MapperContext) -> (m: Self)
        ensures
            m.wf(),
            m.last_addr == 0,
            m.applied(),
            m.base.prg_rom@ == ctx.prg_rom@,
            m.base.capabilities == (MapperCapabilities { has_irq: false, has_expansion_audio: false, has_chr_banking: false, prg_bank_size_kb: PRG_BANK_SIZE / 1024, chr_bank_size_kb: CHR_BANK_SIZE / 1024, has_dynamic_mirroring: true, max_prg_ram_kb: 0 }),
            m.base.chr_from(ctx.chr_rom@),
    {
        let capabilities = MapperCapabilities {
            has_irq: false,
            has_expansion_audio: false,
            has_chr_banking: false,
            prg_bank_size_kb: PRG_BANK_SIZE / 1024,
            chr_bank_size_kb: CHR_BANK_SIZE / 1024,
            has_dynamic_mirroring: true,
            max_prg_ram_kb: 0,
        };
        let mut base = BaseMapper::new(&ctx, capabilities);
        base.configure_prg_banking(PRG_BANK_SIZE);
        base.configure_chr_banking(CHR_BANK_SIZE);
        let mut mapper = Mapper301 { base, last_addr: 0 };
        mapper.update_state();
        mapper
    }

    fn update_state(&mut self)
        requires
            old(self).wf(),
        ensures
            final(self).wf(),
            final(self).last_addr == old(self).last_addr,
            final(self).base.same_memory(&old(self).base),
            final(self).applied(),
    {
        let a = self.last_addr;
        let inner_prg0: u16 = (a >> 2) & 0x07;
        let inner_prg1: u16 = ((a >> 7) & 0x01) | ((a >> 8) & 0x02);
        let outer128: u16 = (a >> 5) & 0x03;
        let outer512: u16 = (a >> 8) & 0x01;
        proof {
            assert(inner_prg0 <= 7) by (bit_vector)
                requires inner_prg0 == (a >> 2) & 0x07;
        }
        let base_bank: u16 = match inner_prg1 {
            0 => 0,
            1 => inner_prg0,
            _ => 7,
        };
        let block: u16 = (outer512 << 6) | (outer128 << 3);
        proof {
            assert(block | inner_prg0 <= 127 && block | base_bank <= 127) by (bit_vector)
                requires
                    block == (((a >> 8) & 0x01) << 6) | (((a >> 5) & 0x03) << 3),
                    inner_prg0 == (a >> 2) & 0x07,
                    base_bank <= 7;
        }
        let p0 = (block | inner_prg0) as i16;
        let p1 = (block | base_bank) as i16;
        self.base.select_prg_page(0, p0);
        self.base.select_prg_page(1, p1);
        proof {
            self.base.lemma_shows_prg2(p0 as int, p1 as int);
        }
        self.base.select_chr_page(0, 0);
        if (a & 0x02) != 0 {
            self.base.set_mirroring(NametableLayout::Horizontal);
        } else {
            self.base.set_mirroring(NametableLayout::Vertical);
        }
    }

    pub fn read_prg(&self, addr: u16) -> (v: u8)
        requires
            self.wf(),
        ensures
            v == self.spec_read_prg(addr),
    {
        if addr >= 0x8000 {
            return self.base.read_prg_banked(addr);
        }
        0
    }

    pub fn write_prg(&mut self, addr: u16, value: u8)
        requires
            old(self).wf(),
        ensures
            final(self).write_post(old(self), addr, value),
    {
        if addr >= 0x8000 {
            self.last_addr = addr;
            self.update_state();
        }
    }

    pub fn registers_snapshot(&self) -> (s: Vec<u8>)
        ensures
            s@ == self.snapshot(),
    {
        vec![(self.last_addr & 0xFF) as u8, ((self.last_addr >> 8) & 0xFF) as u8]
    }

    pub fn restore_registers(&mut self, data: &[u8])
        requires
            old(self).wf(),
        ensures
            final(self).restore_post(old(self), data@),
    {
        if data.len() >= 2 {
            self.last_addr = (data[0] as u16) | ((data[1] as u16) << 8);
            self.update_state();
        }
    }

    pub fn reset(&mut self)
        requires
            old(self).wf(),
        ensures
            final(self).reset_post(old(self)),
    {
        self.last_addr = 0;
        self.update_state();
    }

    /// Every CPU read is defined.
    pub open spec fn read_ok(&self, addr: u16) -> bool {
        true
    }

    pub open spec fn spec_mirroring(&self) -> NametableLayout {
        self.base.mirroring
    }

    pub open spec fn spec_read_chr(&self, addr: u16) -> u8 {
        self.base.spec_read_chr(addr)
    }

    /// State after a PPU write to pattern memory: CHR-RAM takes the byte.
    pub open spec fn write_chr_post(&self, old: &Self, addr: u16, value: u8) -> bool {
        &&& self.wf()
        &&& self.base.chr@ == (if old.base.chr_writable && old.base.chr_count() > 0 {
            old.base.chr@.update(old.base.chr_index(addr) as int, value)
        } else {
            old.base.chr@
        })
        &&& self.base.prg_pages@ == old.base.prg_pages@
        &&& self.base.chr_pages@ == old.base.chr_pages@
        &&& self.base.mirroring == old.base.mirroring
        &&& self.regs() == old.regs()
    }

    pub fn read_chr(&self, addr: u16) -> (v: u8)
        requires
            self.wf(),
        ensures
            v == self.spec_read_chr(addr),
    {
        self.base.read_chr(addr)
    }

    pub fn write_chr(&mut self, addr: u16, value: u8)
        requires
            old(self).wf(),
        ensures
            final(self).write_chr_post(old(self), addr, value),
    {
        self.base.write_chr(addr, value);
    }

    /// The board's memory and page tables.
    pub fn base(&self) -> (b: &BaseMapper)
        ensures
            *b == self.base,
    {
        &self.base
    }

    pub fn get_mirroring(&self) -> (m: NametableLayout)
        ensures
            m == self.spec_mirroring(),
    {
        self.base.mirroring
    }

    pub fn capabilities(&self) -> (c: MapperCapabilities)
        ensures
            c == self.base.capabilities,
    {
        self.base.capabilities
    }

    pub fn mapper_number(&self) -> (n: u16)
        ensures
            n == MAPPER_NUMBER,
    {
        MAPPER_NUMBER
    }

    pub open spec fn spec_irq_pending(&self) -> bool {
        false
    }

    /// The board raises no interrupt.
    pub fn irq_pending(&self) -> (p: bool)
        ensures
            p == self.spec_irq_pending(),
    {
        false
    }

    pub open spec fn cycle_ok(&self) -> bool {
        true
    }

    pub open spec fn cycle_post(&self, old: &Self) -> bool {
        *self == *old
    }

    /// The board does not count CPU cycles.
    pub fn cpu_cycle(&mut self)
        requires
            old(self).wf(),
        ensures
            final(self).cycle_post(old(self)),
    {
    }

}

/// Restoring the snapshot of a mapper brings back its latched address.
/// The restored board then snapshots to the same bytes.
pub proof fn lemma_snapshot_roundtrip(m: Mapper301, before: Mapper301, restored: Mapper301)
    requires
        restored.restore_post(&before, m.snapshot()),
    ensures
        restored.last_addr == m.last_addr,
        restored.snapshot() == m.snapshot(),
{
    let l = m.last_addr;
    crate::bits::lemma_u16_bytes(l);
}

} // verus!
