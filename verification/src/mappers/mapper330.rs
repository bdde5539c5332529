//! Mapper 330 - unknown bootleg board (Romance of the Three Kingdoms III port).
//!
//! The board's register interface is not documented: the last 32 KiB of
//! PRG-ROM is fixed at `$8000-$FFFF`, CHR bank 0 at `$0000-$1FFF`, and 8 KiB of
//! PRG-RAM sits at `$6000-$7FFF`.
use vstd::prelude::*;
use crate::cartridge::{NametableLayout, MapperCapabilities, MapperContext};
use crate::base_mapper::BaseMapper;

verus! {

pub const MAPPER_NUMBER: u16 = 330;

/// Mapper 330.
pub struct Mapper330 {
    pub base: BaseMapper,
}

impl Mapper330 {
    /// The board has no registers.
    pub open spec fn regs(&self) -> () {
        ()
    }

    pub open spec fn wf(&self) -> bool {
        &&& self.base.wf()
        &&& self.base.prg_page_size == 32768
        &&& self.base.chr_page_size == 8192
        &&& self.base.prg_pages@.len() == 1
        &&& self.base.chr_pages@.len() == 1
    }

    /// The last 32 KiB page (the page number is truncated to 16 bits) and CHR page 0.
    pub open spec fn applied(&self) -> bool {
        &&& self.base.shows_prg(seq![(if self.base.prg_count() == 0 { 0 } else { self.base.prg_count() - 1 }) as i16 as int])
        &&& self.base.shows_chr(seq![0int])
    }

    pub open spec fn write_post(&self, old: &Self, addr: u16, value: u8) -> bool {
        &&& self.wf()
        &&& self.base.same_layout(&old.base)
        &&& self.base.prg_pages@ == old.base.prg_pages@
        &&& self.base.chr_pages@ == old.base.chr_pages@
        &&& self.base.mirroring == old.base.mirroring
        &&& self.base.prg_ram@ == (if 0x6000 <= addr < 0x8000 && old.base.prg_ram@.len() > 0 {
            old.base.prg_ram@.update(((addr - 0x6000) as nat % old.base.prg_ram@.len()) as int, value)
        } else {
            old.base.prg_ram@
        })
    }

    pub open spec fn restore_post(&self, old: &Self, data: Seq<u8>) -> bool {
        &&& self.wf()
        &&& self.base.unchanged(&old.base)
    }

    pub open spec fn reset_post(&self, old: &Self) -> bool {
        &&& self.wf()
        &&& self.base.unchanged(&old.base)
    }

    /// The board has no registers to save.
    pub open spec fn snapshot(&self) -> Seq<u8> {
        Seq::empty()
    }

    pub fn new(ctx: MapperContext) -> (m: Self)
        ensures
            m.wf(),
            m.applied(),
            m.base.prg_rom@ == ctx.prg_rom@,
            m.base.mirroring == ctx.mirroring,
            m.base.capabilities == (MapperCapabilities { has_irq: false, has_expansion_audio: false, has_chr_banking: false, has_dynamic_mirroring: false, max_prg_ram_kb: 8, prg_bank_size_kb: 32, chr_bank_size_kb: 8 }),
            m.base.chr_from(ctx.chr_rom@),
    {
        let capabilities = MapperCapabilities {
            has_irq: false,
            has_expansion_audio: false,
            has_chr_banking: false,
            has_dynamic_mirroring: false,
            max_prg_ram_kb: 8,
            prg_bank_size_kb: 32,
            chr_bank_size_kb: 8,
        };
        let mut base = BaseMapper::new(&ctx, capabilities);
        base.configure_prg_banking(32768);
        base.configure_chr_banking(8192);
        let mut mapper = Mapper330 { base };
        mapper.update_banks();
        mapper
    }

    fn update_banks(&mut self)
        requires
            old(self).wf(),
        ensures
            final(self).wf(),
            final(self).base.same_memory(&old(self).base),
            final(self).base.mirroring == old(self).base.mirroring,
            final(self).applied(),
    {


        let count = self.base.prg_bank_count();
        let last_bank = if count == 0 { 0 } else { count - 1 };
        self.base.select_prg_page(0, last_bank as i16);
        self.base.select_chr_page(0, 0);
        proof {
            self.base.lemma_shows_prg1(last_bank as i16 as int);
            self.base.lemma_shows_chr1(0);
        }
    }

    /// PRG-RAM at `$6000-$7FFF` (0 without RAM), ROM above, 0 below.
    pub open spec fn spec_read_prg(&self, addr: u16) -> u8 {
        if 0x6000 <= addr < 0x8000 {
            match self.base.spec_prg_ram(addr) { Some(v) => v, None => 0 }
        } else {
            self.base.spec_read_prg_rom(addr)
        }
    }

    pub fn read_prg(&self, addr: u16) -> (v: u8)
        requires
            self.wf(),
        ensures
            v == self.spec_read_prg(addr),
    {
        if 0x6000 <= addr && addr < 0x8000 {
            match self.base.try_read_prg_ram(addr) { Some(v) => v, None => 0 }
        } else if addr >= 0x8000 {
            self.base.read_prg_rom(addr)
        } else {
            0
        }
    }

    pub fn write_prg(&mut self, addr: u16, value: u8)
        requires
            old(self).wf(),
        ensures
            final(self).write_post(old(self), addr, value),
    {
        let _ = self.base.try_write_prg_ram(addr, value);
    }

    pub fn registers_snapshot(&self) -> (s: Vec<u8>)
        ensures
            s@ == self.snapshot(),
    {
        Vec::new()
    }

    pub fn restore_registers(&mut self, data: &[u8])
        requires
            old(self).wf(),
        ensures
            final(self).restore_post(old(self), data@),
    {
    }

    pub fn reset(&mut self)
        requires
            old(self).wf(),
        ensures
            final(self).reset_post(old(self)),
    {
    }

    /// Every CPU read is defined.
    pub open spec fn read_ok(&self, addr: u16) -> bool {
        true
    }

    pub open spec fn spec_mirroring(&self) -> NametableLayout {
        self.base.mirroring
    }

    pub open spec fn spec_read_chr(&self, addr: u16) -> u8 {
        self.base.spec_read_chr(addr)
    }

    /// State after a PPU write to pattern memory: CHR-RAM takes the byte.
    pub open spec fn write_chr_post(&self, old: &Self, addr: u16, value: u8) -> bool {
        &&& self.wf()
        &&& self.base.chr@ == (if old.base.chr_writable && old.base.chr_count() > 0 {
            old.base.chr@.update(old.base.chr_index(addr) as int, value)
        } else {
            old.base.chr@
        })
        &&& self.base.prg_pages@ == old.base.prg_pages@
        &&& self.base.chr_pages@ == old.base.chr_pages@
        &&& self.base.mirroring == old.base.mirroring
        &&& self.regs() == old.regs()
    }

    pub fn read_chr(&self, addr: u16) -> (v: u8)
        requires
            self.wf(),
        ensures
            v == self.spec_read_chr(addr),
    {
        self.base.read_chr(addr)
    }

    pub fn write_chr(&mut self, addr: u16, value: u8)
        requires
            old(self).wf(),
        ensures
            final(self).write_chr_post(old(self), addr, value),
    {
        self.base.write_chr(addr, value);
    }

    /// The board's memory and page tables.
    pub fn base(&self) -> (b: &BaseMapper)
        ensures
            *b == self.base,
    {
        &self.base
    }

    pub fn get_mirroring(&self) -> (m: NametableLayout)
        ensures
            m == self.spec_mirroring(),
    {
        self.base.mirroring
    }

    pub fn capabilities(&self) -> (c: MapperCapabilities)
        ensures
            c == self.base.capabilities,
    {
        self.base.capabilities
    }

    pub fn mapper_number(&self) -> (n: u16)
        ensures
            n == MAPPER_NUMBER,
    {
        MAPPER_NUMBER
    }

    pub open spec fn spec_irq_pending(&self) -> bool {
        false
    }

    /// The board raises no interrupt.
    pub fn irq_pending(&self) -> (p: bool)
        ensures
            p == self.spec_irq_pending(),
    {
        false
    }

    pub open spec fn cycle_ok(&self) -> bool {
        true
    }

    pub open spec fn cycle_post(&self, old: &Self) -> bool {
        *self == *old
    }

    /// The board does not count CPU cycles.
    pub fn cpu_cycle(&mut self)
        requires
            old(self).wf(),
        ensures
            final(self).cycle_post(old(self)),
    {
    }

}

} // verus!
