//! Mapper 309 - UNL-LH51 (Ai Senshi Nicol FDS conversion).
//!
//! `$6000-$7FFF` is 8 KiB of PRG-RAM. `$8000` shows the 8 KiB PRG bank that
//! writes to `(addr & $E000) == $8000` select (4 bits); `$A000`, `$C000` and
//! `$E000` show banks 13, 14 and 15. Writes to `(addr & $E000) == $E000` set
//! the mirroring from bit 3 (1 = horizontal). CHR is unbanked 8 KiB.
use vstd::prelude::*;
use crate::cartridge::{NametableLayout, MapperCapabilities, MapperContext, RamInitMode, ram_init_byte, layout_hv};
use crate::base_mapper::BaseMapper;

verus! {

pub const MAPPER_NUMBER: u16 = 309;
pub const PRG_BANK_SIZE: usize = 8 * 1024;

/// Mapper 309 - UNL-LH51.
pub struct Mapper309 {
    pub base: BaseMapper,
    /// 4-bit PRG bank at `$8000`.
    pub prg_bank: u8,
    /// Horizontal mirroring when set.
    pub mirroring_h: bool,
}

impl Mapper309 {
    pub open spec fn regs(&self) -> (u8, bool) {
        (self.prg_bank, self.mirroring_h)
    }

    pub open spec fn wf(&self) -> bool {
        &&& self.base.wf()
        &&& self.base.prg_page_size == PRG_BANK_SIZE
        &&& self.base.prg_pages@.len() == 4
        &&& self.prg_bank <= 0x0F
    }

    pub open spec fn applied(&self) -> bool {
        &&& self.base.shows_prg(seq![self.prg_bank as int, 13, 14, 15])
        &&& self.base.mirroring == layout_hv(self.mirroring_h)
    }

    pub open spec fn write_post(&self, old: &Self, addr: u16, value: u8) -> bool {
        if 0x6000 <= addr < 0x8000 && old.base.prg_ram@.len() > 0 {
            &&& self.wf()
            &&& self.regs() == old.regs()
            &&& self.base.same_layout(&old.base)
            &&& self.base.prg_pages@ == old.base.prg_pages@
            &&& self.base.chr_pages@ == old.base.chr_pages@
            &&& self.base.mirroring == old.base.mirroring
            &&& self.base.prg_ram@ == old.base.prg_ram@.update(((addr - 0x6000) as nat % old.base.prg_ram@.len()) as int, value)
        } else if addr & 0xE000 == 0x8000 {
            &&& self.wf()
            &&& self.applied()
            &&& self.base.same_memory(&old.base)
            &&& self.base.chr_pages@ == old.base.chr_pages@
            &&& self.regs() == (value & 0x0F, old.mirroring_h)
        } else if addr & 0xE000 == 0xE000 {
            &&& self.wf()
            &&& self.applied()
            &&& self.base.same_memory(&old.base)
            &&& self.base.chr_pages@ == old.base.chr_pages@
            &&& self.regs() == (old.prg_bank, value & 0x08 != 0)
        } else {
            &&& self.wf()
            &&& self.regs() == old.regs()
            &&& self.base.unchanged(&old.base)
        }
    }

    pub open spec fn snapshot(&self) -> Seq<u8> {
        seq![self.prg_bank, if self.mirroring_h { 1u8 } else { 0u8 }]
    }

    pub open spec fn restore_post(&self, old: &Self, data: Seq<u8>) -> bool {
        if data.len() < 2 {
            *self == *old
        } else {
            &&& self.wf()
            &&& self.applied()
            &&& self.base.same_memory(&old.base)
            &&& self.base.chr_pages@ == old.base.chr_pages@
            &&& self.regs() == (data[0] & 0x0F, data[1] & 0x01 != 0)
        }
    }

    pub open spec fn reset_post(&self, old: &Self) -> bool {
        &&& self.wf()
        &&& self.applied()
        &&& self.base.same_memory(&old.base)
        &&& self.base.chr_pages@ == old.base.chr_pages@
        &&& self.regs() == (0u8, false)
    }

    pub fn new(ctx: MapperContext) -> (m: Self)
        ensures
            m.wf(),
            m.applied(),
            m.regs() == (0u8, false),
            m.base.prg_rom@ == ctx.prg_rom@,
            m.base.capabilities == (MapperCapabilities { has_irq: false, has_expansion_audio: false, has_chr_banking: false, has_dynamic_mirroring: true, max_prg_ram_kb: 8, prg_bank_size_kb: PRG_BANK_SIZE / 1024, chr_bank_size_kb: 8 }),
            m.base.chr_from(ctx.chr_rom@),
    {
        let capabilities = MapperCapabilities {
            has_irq: false,
            has_expansion_audio: false,
            has_chr_banking: false,
            has_dynamic_mirroring: true,
            max_prg_ram_kb: 8,
            prg_bank_size_kb: PRG_BANK_SIZE / 1024,
            chr_bank_size_kb: 8,
        };
        let mut base = BaseMapper::new(&ctx, capabilities);
        base.configure_prg_banking(PRG_BANK_SIZE);
        let mut mapper = Mapper309 { base, prg_bank: 0, mirroring_h: false };
        mapper.apply_banks();
        mapper
    }

    fn apply_banks(&mut self)
        requires
            old(self).wf(),
        ensures
            final(self).wf(),
            final(self).applied(),
            final(self).regs() == old(self).regs(),
            final(self).base.same_memory(&old(self).base),
            final(self).base.chr_pages@ == old(self).base.chr_pages@,
    {
        self.base.select_prg_page(0, self.prg_bank as i16);
        self.base.select_prg_page(1, 13);
        self.base.select_prg_page(2, 14);
        self.base.select_prg_page(3, 15);
        proof {
            self.base.lemma_shows_prg4(self.prg_bank as int, 13, 14, 15);
        }
        self.base.set_mirroring_hv(self.mirroring_h);
    }

    pub fn write_prg(&mut self, addr: u16, value: u8)
        requires
            old(self).wf(),
        ensures
            final(self).write_post(old(self), addr, value),
    {
        if self.base.try_write_prg_ram(addr, value) {
            return;
        }
        let sel = addr & 0xE000;
        if sel == 0x8000 {
            proof { crate::bits::lemma_byte_fields(value); }
            self.prg_bank = value & 0x0F;
            self.apply_banks();
        } else if sel == 0xE000 {
            self.mirroring_h = value & 0x08 != 0;
            self.apply_banks();
        }
    }

    pub fn reset(&mut self)
        requires
            old(self).wf(),
        ensures
            final(self).reset_post(old(self)),
    {
        self.prg_bank = 0;
        self.mirroring_h = false;
        self.apply_banks();
    }

    pub fn registers_snapshot(&self) -> (s: Vec<u8>)
        ensures
            s@ == self.snapshot(),
    {
        vec![self.prg_bank, if self.mirroring_h { 1 } else { 0 }]
    }

    pub fn restore_registers(&mut self, data: &[u8])
        requires
            old(self).wf(),
        ensures
            final(self).restore_post(old(self), data@),
    {
        if data.len() < 2 {
            return;
        }
        proof { crate::bits::lemma_byte_fields(data@[0]); }
        self.prg_bank = data[0] & 0x0F;
        self.mirroring_h = data[1] & 0x01 != 0;
        self.apply_banks();
    }

    pub fn wram_size(&self) -> (n: usize)
        ensures
            n == self.base.prg_ram@.len(),
    {
        self.base.wram_size()
    }

    pub fn wram_snapshot(&self) -> (s: Vec<u8>)
        ensures
            s@ == self.base.prg_ram@,
    {
        self.base.wram_snapshot()
    }

    pub fn load_wram_snapshot(&mut self, data: &[u8])
        requires
            old(self).wf(),
        ensures
            final(self).wf(),
            final(self).regs() == old(self).regs(),
            final(self).base.prg_ram@ == (if data@.len() < old(self).base.prg_ram@.len() {
                data@ + old(self).base.prg_ram@.subrange(data@.len() as int, old(self).base.prg_ram@.len() as int)
            } else {
                data@.subrange(0, old(self).base.prg_ram@.len() as int)
            }),
    {
        self.base.load_wram_snapshot(data);
    }

    pub fn initialize_ram(&mut self, mode: RamInitMode)
        requires
            old(self).wf(),
        ensures
            final(self).wf(),
            final(self).regs() == old(self).regs(),
            final(self).base.prg_ram@ == Seq::new(old(self).base.prg_ram@.len(), |i: int| ram_init_byte(mode)),
    {
        self.base.initialize_ram(mode);
    }

    pub open spec fn spec_mirroring(&self) -> NametableLayout {
        self.base.mirroring
    }

    pub open spec fn spec_read_chr(&self, addr: u16) -> u8 {
        self.base.spec_read_chr(addr)
    }

    /// State after a PPU write to pattern memory: CHR-RAM takes the byte.
    pub open spec fn write_chr_post(&self, old: &Self, addr: u16, value: u8) -> bool {
        &&& self.wf()
        &&& self.base.chr@ == (if old.base.chr_writable && old.base.chr_count() > 0 {
            old.base.chr@.update(old.base.chr_index(addr) as int, value)
        } else {
            old.base.chr@
        })
        &&& self.base.prg_pages@ == old.base.prg_pages@
        &&& self.base.chr_pages@ == old.base.chr_pages@
        &&& self.base.mirroring == old.base.mirroring
        &&& self.regs() == old.regs()
    }

    pub fn read_chr(&self, addr: u16) -> (v: u8)
        requires
            self.wf(),
        ensures
            v == self.spec_read_chr(addr),
    {
        self.base.read_chr(addr)
    }

    pub fn write_chr(&mut self, addr: u16, value: u8)
        requires
            old(self).wf(),
        ensures
            final(self).write_chr_post(old(self), addr, value),
    {
        self.base.write_chr(addr, value);
    }

    /// Every CPU read is defined.
    pub open spec fn read_ok(&self, addr: u16) -> bool {
        true
    }

    pub open spec fn spec_read_prg(&self, addr: u16) -> u8 {
        self.base.spec_read_prg(addr)
    }

    pub fn read_prg(&self, addr: u16) -> (v: u8)
        requires
            self.wf(),
        ensures
            v == self.spec_read_prg(addr),
    {
        self.base.read_prg(addr)
    }

    /// The board's memory and page tables.
    pub fn base(&self) -> (b: &BaseMapper)
        ensures
            *b == self.base,
    {
        &self.base
    }

    pub fn get_mirroring(&self) -> (m: NametableLayout)
        ensures
            m == self.spec_mirroring(),
    {
        self.base.mirroring
    }

    pub fn capabilities(&self) -> (c: MapperCapabilities)
        ensures
            c == self.base.capabilities,
    {
        self.base.capabilities
    }

    pub fn mapper_number(&self) -> (n: u16)
        ensures
            n == MAPPER_NUMBER,
    {
        MAPPER_NUMBER
    }

    pub open spec fn spec_irq_pending(&self) -> bool {
        false
    }

    /// The board raises no interrupt.
    pub fn irq_pending(&self) -> (p: bool)
        ensures
            p == self.spec_irq_pending(),
    {
        false
    }

    pub open spec fn cycle_ok(&self) -> bool {
        true
    }

    pub open spec fn cycle_post(&self, old: &Self) -> bool {
        *self == *old
    }

    /// The board does not count CPU cycles.
    pub fn cpu_cycle(&mut self)
        requires
            old(self).wf(),
        ensures
            final(self).cycle_post(old(self)),
    {
    }

}

/// Restoring a board from its own snapshot brings back the bank and the
/// mirroring bit.
/// The restored board then snapshots to the same bytes.
pub proof fn lemma_snapshot_roundtrip(m: Mapper309, before: Mapper309, restored: Mapper309)
    requires
        m.wf(),
        restored.restore_post(&before, m.snapshot()),
    ensures
        restored.regs() == m.regs(),
        restored.snapshot() == m.snapshot(),
{
    crate::bits::lemma_byte_fields(m.prg_bank);
    crate::bits::lemma_byte_fields(1u8);
    crate::bits::lemma_byte_fields(0u8);
}

} // verus!
