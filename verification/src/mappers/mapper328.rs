//! Mapper 328 - RT-01 board (Thunderbirds).
//!
//! PRG-ROM is fixed (16 KiB banks 0 and 1), CHR is fixed (2 KiB banks 0-3).
//! Reads of `$CE80-$CEFF` and `$FE80-$FEFF` return the copy-protection value
//! 0xFF.
use vstd::prelude::*;
use crate::cartridge::{NametableLayout, MapperCapabilities, MapperContext};
use crate::base_mapper::BaseMapper;

verus! {

pub const MAPPER_NUMBER: u16 = 328;

/// Mapper 328.
pub struct Mapper328 {
    pub base: BaseMapper,
}

impl Mapper328 {
    /// The board has no registers.
    pub open spec fn regs(&self) -> () {
        ()
    }

    pub open spec fn wf(&self) -> bool {
        &&& self.base.wf()
        &&& self.base.prg_page_size == 16384
        &&& self.base.chr_page_size == 2048
        &&& self.base.prg_pages@.len() == 2
        &&& self.base.chr_pages@.len() == 4
        &&& self.base.prg_ram@.len() == 0
    }

    pub open spec fn applied(&self) -> bool {
        &&& self.base.shows_prg(seq![0int, 1int])
        &&& self.base.shows_chr(seq![0int, 1int, 2int, 3int])
    }

    pub open spec fn write_post(&self, old: &Self, addr: u16, value: u8) -> bool {
        &&& self.wf()
        &&& self.base.unchanged(&old.base)
    }

    pub open spec fn restore_post(&self, old: &Self, data: Seq<u8>) -> bool {
        &&& self.wf()
        &&& self.base.unchanged(&old.base)
    }

    pub open spec fn reset_post(&self, old: &Self) -> bool {
        &&& self.wf()
        &&& self.base.unchanged(&old.base)
    }

    /// The board has no registers to save.
    pub open spec fn snapshot(&self) -> Seq<u8> {
        Seq::empty()
    }

    pub fn new(ctx: MapperContext) -> (m: Self)
        ensures
            m.wf(),
            m.applied(),
            m.base.prg_rom@ == ctx.prg_rom@,
            m.base.mirroring == ctx.mirroring,
            m.base.capabilities == (MapperCapabilities { has_irq: false, has_expansion_audio: false, has_chr_banking: false, has_dynamic_mirroring: false, max_prg_ram_kb: 0, prg_bank_size_kb: 16, chr_bank_size_kb: 2 }),
            m.base.chr_from(ctx.chr_rom@),
    {
        let capabilities = MapperCapabilities {
            has_irq: false,
            has_expansion_audio: false,
            has_chr_banking: false,
            has_dynamic_mirroring: false,
            max_prg_ram_kb: 0,
            prg_bank_size_kb: 16,
            chr_bank_size_kb: 2,
        };
        let mut base = BaseMapper::new(&ctx, capabilities);
        base.configure_prg_banking(16384);
        base.configure_chr_banking(2048);
        let mut mapper = Mapper328 { base };
        mapper.update_banks();
        mapper
    }

    fn update_banks(&mut self)
        requires
            old(self).wf(),
        ensures
            final(self).wf(),
            final(self).base.same_memory(&old(self).base),
            final(self).base.mirroring == old(self).base.mirroring,
            final(self).applied(),
    {
        self.base.select_prg_page(0, 0);
        self.base.select_prg_page(1, 1);
        self.base.select_chr_page(0, 0);
        self.base.select_chr_page(1, 1);
        self.base.select_chr_page(2, 2);
        self.base.select_chr_page(3, 3);
        proof {
            self.base.lemma_shows_prg2(0, 1); self.base.lemma_shows_chr4(0, 1, 2, 3);
        }
    }

    pub open spec fn is_protection_addr_spec(addr: u16) -> bool {
        (0xCE80 <= addr < 0xCF00) || (0xFE80 <= addr < 0xFF00)
    }

    /// Copy-protection addresses read 0xFF, the rest of `$8000-$FFFF` reads
    /// the ROM, lower addresses read 0.
    pub open spec fn spec_read_prg(&self, addr: u16) -> u8 {
        if addr >= 0x8000 && Self::is_protection_addr_spec(addr) {
            0xFF
        } else {
            self.base.spec_read_prg_rom(addr)
        }
    }

    pub fn is_protection_addr(addr: u16) -> (r: bool)
        ensures
            r == Self::is_protection_addr_spec(addr),
    {
        (0xCE80 <= addr && addr < 0xCF00) || (0xFE80 <= addr && addr < 0xFF00)
    }

    pub fn read_prg(&self, addr: u16) -> (v: u8)
        requires
            self.wf(),
        ensures
            v == self.spec_read_prg(addr),
    {
        if addr >= 0x8000 && Self::is_protection_addr(addr) {
            return 0xFF;
        }
        if addr >= 0x8000 { self.base.read_prg_rom(addr) } else { 0 }
    }

    pub fn write_prg(&mut self, addr: u16, value: u8)
        requires
            old(self).wf(),
        ensures
            final(self).write_post(old(self), addr, value),
    {

    }

    pub fn registers_snapshot(&self) -> (s: Vec<u8>)
        ensures
            s@ == self.snapshot(),
    {
        Vec::new()
    }

    pub fn restore_registers(&mut self, data: &[u8])
        requires
            old(self).wf(),
        ensures
            final(self).restore_post(old(self), data@),
    {
    }

    pub fn reset(&mut self)
        requires
            old(self).wf(),
        ensures
            final(self).reset_post(old(self)),
    {
    }

    /// Every CPU read is defined.
    pub open spec fn read_ok(&self, addr: u16) -> bool {
        true
    }

    pub open spec fn spec_mirroring(&self) -> NametableLayout {
        self.base.mirroring
    }

    pub open spec fn spec_read_chr(&self, addr: u16) -> u8 {
        self.base.spec_read_chr(addr)
    }

    /// State after a PPU write to pattern memory: CHR-RAM takes the byte.
    pub open spec fn write_chr_post(&self, old: &Self, addr: u16, value: u8) -> bool {
        &&& self.wf()
        &&& self.base.chr@ == (if old.base.chr_writable && old.base.chr_count() > 0 {
            old.base.chr@.update(old.base.chr_index(addr) as int, value)
        } else {
            old.base.chr@
        })
        &&& self.base.prg_pages@ == old.base.prg_pages@
        &&& self.base.chr_pages@ == old.base.chr_pages@
        &&& self.base.mirroring == old.base.mirroring
        &&& self.regs() == old.regs()
    }

    pub fn read_chr(&self, addr: u16) -> (v: u8)
        requires
            self.wf(),
        ensures
            v == self.spec_read_chr(addr),
    {
        self.base.read_chr(addr)
    }

    pub fn write_chr(&mut self, addr: u16, value: u8)
        requires
            old(self).wf(),
        ensures
            final(self).write_chr_post(old(self), addr, value),
    {
        self.base.write_chr(addr, value);
    }

    /// The board's memory and page tables.
    pub fn base(&self) -> (b: &BaseMapper)
        ensures
            *b == self.base,
    {
        &self.base
    }

    pub fn get_mirroring(&self) -> (m: NametableLayout)
        ensures
            m == self.spec_mirroring(),
    {
        self.base.mirroring
    }

    pub fn capabilities(&self) -> (c: MapperCapabilities)
        ensures
            c == self.base.capabilities,
    {
        self.base.capabilities
    }

    pub fn mapper_number(&self) -> (n: u16)
        ensures
            n == MAPPER_NUMBER,
    {
        MAPPER_NUMBER
    }

    pub open spec fn spec_irq_pending(&self) -> bool {
        false
    }

    /// The board raises no interrupt.
    pub fn irq_pending(&self) -> (p: bool)
        ensures
            p == self.spec_irq_pending(),
    {
        false
    }

    pub open spec fn cycle_ok(&self) -> bool {
        true
    }

    pub open spec fn cycle_post(&self, old: &Self) -> bool {
        *self == *old
    }

    /// The board does not count CPU cycles.
    pub fn cpu_cycle(&mut self)
        requires
            old(self).wf(),
        ensures
            final(self).cycle_post(old(self)),
    {
    }

}

} // verus!
