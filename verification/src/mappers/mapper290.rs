//! Mapper 290 - BMC-NTD-03 (Asder 20-in-1 multicart).
//!
//! All banking comes from a latched write address. Bits 14:11 select a
//! 32 KiB outer block, bit 8 selects 16 KiB mode (then bit 7 picks the half,
//! shown in both windows), bit 10 selects horizontal mirroring, and the 8 KiB
//! CHR bank takes address bits 9:8 as its bits 4:3 and address bits 2:0 as
//! its bits 2:0: `(((addr >> 8) & 3) << 3) | (addr & 7)`. Every write to
//! `$8000-$FFFF` latches its address.
use vstd::prelude::*;
use crate::cartridge::{NametableLayout, MapperCapabilities, MapperContext, layout_hv};
use crate::base_mapper::BaseMapper;

verus! {

pub const MAPPER_NUMBER: u16 = 290;
pub const PRG_BANK_SIZE: usize = 16 * 1024;
pub const CHR_BANK_SIZE: usize = 8 * 1024;

pub open spec fn outer_of(latch: u16) -> u16 {
    (latch >> 11) & 0x0F
}

/// Page numbers of the two 16 KiB PRG windows for a latch value.
pub open spec fn prg_pages_of(latch: u16) -> Seq<int> {
    let outer = outer_of(latch);
    if latch & 0x0100 != 0 {
        let page = ((outer << 1) | ((latch >> 7) & 0x01)) as int;
        seq![page, page]
    } else {
        seq![(outer << 1) as int, (outer << 1) as int + 1]
    }
}

/// The 8 KiB CHR page for a latch value.
pub open spec fn chr_page_of(latch: u16) -> int {
    ((((latch >> 8) & 0x03) << 3) | (latch & 0x07)) as int
}

/// Mapper 290 - BMC-NTD-03 multicart.
pub struct Mapper290 {
    pub base: BaseMapper,
    /// The last write address latched.
    pub latch: u16,
}

impl Mapper290 {
    pub open spec fn regs(&self) -> u16 {
        self.latch
    }

    pub open spec fn wf(&self) -> bool {
        &&& self.base.wf()
        &&& self.base.prg_page_size == PRG_BANK_SIZE
        &&& self.base.chr_page_size == CHR_BANK_SIZE
        &&& self.base.prg_pages@.len() == 2
        &&& self.base.chr_pages@.len() == 1
    }

    /// The banks and mirroring agree with the latch.
    pub open spec fn applied(&self) -> bool {
        &&& self.base.shows_prg(prg_pages_of(self.latch))
        &&& self.base.shows_chr(seq![chr_page_of(self.latch)])
        &&& self.base.mirroring == layout_hv(self.latch & 0x0400 != 0)
    }

    pub open spec fn write_post(&self, old: &Self, addr: u16, value: u8) -> bool {
        &&& self.wf()
        &&& self.base.same_memory(&old.base)
        &&& if addr >= 0x8000 {
            self.latch == addr && self.applied()
        } else {
            *self == *old
        }
    }

    pub open spec fn restore_post(&self, old: &Self, data: Seq<u8>) -> bool {
        &&& self.wf()
        &&& self.base.same_memory(&old.base)
        &&& data.len() < 2 ==> *self == *old
        &&& data.len() >= 2 ==> self.latch == ((data[0] as u16) | ((data[1] as u16) << 8)) && self.applied()
    }

    pub open spec fn reset_post(&self, old: &Self) -> bool {
        &&& self.wf()
        &&& self.base.same_memory(&old.base)
        &&& self.latch == 0x8000
        &&& self.applied()
    }

    pub open spec fn snapshot(&self) -> Seq<u8> {
        seq![(self.latch & 0xFF) as u8, (self.latch >> 8) as u8]
    }

    pub fn new(ctx: MapperContext) -> (m: Self)
        ensures
            m.wf(),
            m.latch == 0x8000,
            m.applied(),
            m.base.prg_rom@ == ctx.prg_rom@,
            m.base.capabilities == (MapperCapabilities { has_irq: false, has_expansion_audio: false, has_chr_banking: true, has_dynamic_mirroring: true, prg_bank_size_kb: PRG_BANK_SIZE / 1024, chr_bank_size_kb: CHR_BANK_SIZE / 1024, max_prg_ram_kb: 0 }),
            m.base.chr_from(ctx.chr_rom@),
    {
        let capabilities = MapperCapabilities {
            has_irq: false,
            has_expansion_audio: false,
            has_chr_banking: true,
            has_dynamic_mirroring: true,
            prg_bank_size_kb: PRG_BANK_SIZE / 1024,
            chr_bank_size_kb: CHR_BANK_SIZE / 1024,
            max_prg_ram_kb: 0,
        };
        let mut base = BaseMapper::new(&ctx, capabilities);
        base.configure_prg_banking(PRG_BANK_SIZE);
        base.configure_chr_banking(CHR_BANK_SIZE);
        let mut mapper = Mapper290 { base, latch: 0x8000 };
        mapper.apply_latch();
        mapper
    }

    fn apply_latch(&mut self)
        requires
            old(self).wf(),
        ensures
            final(self).wf(),
            final(self).latch == old(self).latch,
            final(self).base.same_memory(&old(self).base),
            final(self).applied(),
    {
        let addr = self.latch;
        let outer: u16 = (addr >> 11) & 0x0F;
        let size_16k = addr & 0x0100 != 0;
        let inner: u16 = (addr >> 7) & 0x01;
        let horiz = addr & 0x0400 != 0;
        let chr: u16 = (((addr >> 8) & 0x03) << 3) | (addr & 0x07);
        proof {
            assert(outer << 1 <= 30 && (outer << 1) | inner <= 31 && chr <= 31) by (bit_vector)
                requires
                    outer == (addr >> 11) & 0x0F,
                    inner == (addr >> 7) & 0x01,
                    chr == (((addr >> 8) & 0x03) << 3) | (addr & 0x07);
        }
        let ghost pages = prg_pages_of(addr);
        if size_16k {
            let page = ((outer << 1) | inner) as i16;
            self.base.select_prg_page(0, page);
            self.base.select_prg_page(1, page);
        } else {
            self.base.select_prg_page(0, (outer << 1) as i16);
            self.base.select_prg_page(1, (outer << 1) as i16 + 1);
        }
        proof {
            self.base.lemma_shows_prg2(pages[0], pages[1]);
            assert(pages == seq![pages[0], pages[1]]);
        }
        self.base.select_chr_page(0, chr as i16);
        proof {
            self.base.lemma_shows_chr1(chr as int);
        }
        self.base.set_mirroring_hv(horiz);
    }

    pub fn write_prg(&mut self, addr: u16, value: u8)
        requires
            old(self).wf(),
        ensures
            final(self).write_post(old(self), addr, value),
    {
        if addr >= 0x8000 {
            self.latch = addr;
            self.apply_latch();
        }
    }

    pub fn reset(&mut self)
        requires
            old(self).wf(),
        ensures
            final(self).reset_post(old(self)),
    {
        self.latch = 0x8000;
        self.apply_latch();
    }

    pub fn registers_snapshot(&self) -> (s: Vec<u8>)
        ensures
            s@ == self.snapshot(),
    {
        vec![(self.latch & 0xFF) as u8, (self.latch >> 8) as u8]
    }

    pub fn restore_registers(&mut self, data: &[u8])
        requires
            old(self).wf(),
        ensures
            final(self).restore_post(old(self), data@),
    {
        if data.len() < 2 {
            return;
        }
        self.latch = (data[0] as u16) | ((data[1] as u16) << 8);
        self.apply_latch();
    }

    /// Every CPU read is defined.
    pub open spec fn read_ok(&self, addr: u16) -> bool {
        true
    }

    pub open spec fn spec_mirroring(&self) -> NametableLayout {
        self.base.mirroring
    }

    pub open spec fn spec_read_chr(&self, addr: u16) -> u8 {
        self.base.spec_read_chr(addr)
    }

    /// State after a PPU write to pattern memory: CHR-RAM takes the byte.
    pub open spec fn write_chr_post(&self, old: &Self, addr: u16, value: u8) -> bool {
        &&& self.wf()
        &&& self.base.chr@ == (if old.base.chr_writable && old.base.chr_count() > 0 {
            old.base.chr@.update(old.base.chr_index(addr) as int, value)
        } else {
            old.base.chr@
        })
        &&& self.base.prg_pages@ == old.base.prg_pages@
        &&& self.base.chr_pages@ == old.base.chr_pages@
        &&& self.base.mirroring == old.base.mirroring
        &&& self.regs() == old.regs()
    }

    pub fn read_chr(&self, addr: u16) -> (v: u8)
        requires
            self.wf(),
        ensures
            v == self.spec_read_chr(addr),
    {
        self.base.read_chr(addr)
    }

    pub fn write_chr(&mut self, addr: u16, value: u8)
        requires
            old(self).wf(),
        ensures
            final(self).write_chr_post(old(self), addr, value),
    {
        self.base.write_chr(addr, value);
    }

    pub open spec fn spec_read_prg(&self, addr: u16) -> u8 {
        self.base.spec_read_prg(addr)
    }

    pub fn read_prg(&self, addr: u16) -> (v: u8)
        requires
            self.wf(),
        ensures
            v == self.spec_read_prg(addr),
    {
        self.base.read_prg(addr)
    }

    /// The board's memory and page tables.
    pub fn base(&self) -> (b: &BaseMapper)
        ensures
            *b == self.base,
    {
        &self.base
    }

    pub fn get_mirroring(&self) -> (m: NametableLayout)
        ensures
            m == self.spec_mirroring(),
    {
        self.base.mirroring
    }

    pub fn capabilities(&self) -> (c: MapperCapabilities)
        ensures
            c == self.base.capabilities,
    {
        self.base.capabilities
    }

    pub fn mapper_number(&self) -> (n: u16)
        ensures
            n == MAPPER_NUMBER,
    {
        MAPPER_NUMBER
    }

    pub open spec fn spec_irq_pending(&self) -> bool {
        false
    }

    /// The board raises no interrupt.
    pub fn irq_pending(&self) -> (p: bool)
        ensures
            p == self.spec_irq_pending(),
    {
        false
    }

    pub open spec fn cycle_ok(&self) -> bool {
        true
    }

    pub open spec fn cycle_post(&self, old: &Self) -> bool {
        *self == *old
    }

    /// The board does not count CPU cycles.
    pub fn cpu_cycle(&mut self)
        requires
            old(self).wf(),
        ensures
            final(self).cycle_post(old(self)),
    {
    }

}

/// Restoring the snapshot of a mapper brings back its latch, and with it
/// every bank and the mirroring.
/// The restored board then snapshots to the same bytes.
pub proof fn lemma_snapshot_roundtrip(m: Mapper290, before: Mapper290, restored: Mapper290)
    requires
        restored.restore_post(&before, m.snapshot()),
    ensures
        restored.latch == m.latch,
        restored.snapshot() == m.snapshot(),
{
    let l = m.latch;
    crate::bits::lemma_u16_bytes(l);
}

} // verus!
