//! Mapper 312 - unlicensed board with a switchable and a fixed 16 KiB window.
//!
//! `$6000-$7FFF` writes select the 16 KiB PRG bank at `$8000`; `$C000` shows
//! the last bank. `$8000-$FFFF` writes set the mirroring from bit 0
//! (1 = horizontal, 0 = vertical). CHR is one 8 KiB bank (ROM, or 8 KiB RAM
//! when the cartridge has no CHR-ROM). Power-on: bank 0, vertical.
use vstd::prelude::*;
use crate::cartridge::{NametableLayout, MapperCapabilities, MapperContext, layout_from_byte, layout_byte};
use crate::base_mapper::{BaseMapper, ChrMemory};

verus! {

pub const MAPPER_NUMBER: u16 = 312;
pub const PRG_16K_BANK_SIZE: usize = 0x4000;
pub const CHR_RAM_SIZE: usize = 8 * 1024;

/// Mapper 312.
pub struct Mapper312 {
    pub base: BaseMapper,
    /// PRG bank written at `$6000-$7FFF`.
    pub prg_bank: u8,
    /// Mirroring selected by the last `$8000-$FFFF` write.
    pub mirroring: NametableLayout,
}

impl Mapper312 {
    pub open spec fn regs(&self) -> (u8, NametableLayout) {
        (self.prg_bank, self.mirroring)
    }

    pub open spec fn wf(&self) -> bool {
        &&& self.base.wf()
        &&& self.base.prg_page_size == PRG_16K_BANK_SIZE
        &&& self.base.prg_pages@.len() == 2
        &&& self.base.chr_page_size == crate::base_mapper::CHR_WINDOW
        &&& self.base.chr_pages@ == seq![0usize]
    }

    pub open spec fn applied(&self) -> bool {
        &&& self.base.shows_prg(seq![self.prg_bank as int, -1])
        &&& self.base.mirroring == self.mirroring
    }

    pub open spec fn write_post(&self, old: &Self, addr: u16, value: u8) -> bool {
        if addr < 0x6000 {
            *self == *old
        } else {
            &&& self.wf()
            &&& self.applied()
            &&& self.base.same_memory(&old.base)
            &&& self.base.chr_pages@ == old.base.chr_pages@
            &&& if addr < 0x8000 {
                self.regs() == (value, old.mirroring)
            } else {
                self.regs() == (old.prg_bank, if value & 0x01 != 0 { NametableLayout::Horizontal } else { NametableLayout::Vertical })
            }
        }
    }

    pub open spec fn snapshot(&self) -> Seq<u8> {
        seq![self.prg_bank, layout_byte(self.mirroring)]
    }

    pub open spec fn restore_post(&self, old: &Self, data: Seq<u8>) -> bool {
        if data.len() < 2 {
            *self == *old
        } else {
            &&& self.wf()
            &&& self.applied()
            &&& self.base.same_memory(&old.base)
            &&& self.base.chr_pages@ == old.base.chr_pages@
            &&& self.regs() == (data[0], layout_from_byte(data[1]))
        }
    }

    pub open spec fn reset_post(&self, old: &Self) -> bool {
        &&& self.wf()
        &&& self.applied()
        &&& self.base.same_memory(&old.base)
        &&& self.base.chr_pages@ == old.base.chr_pages@
        &&& self.regs() == (0u8, NametableLayout::Vertical)
    }

    pub fn new(ctx: MapperContext) -> (m: Self)
        ensures
            m.wf(),
            m.applied(),
            m.regs() == (0u8, NametableLayout::Vertical),
            m.base.prg_rom@ == ctx.prg_rom@,
            m.base.chr_from(ctx.chr_rom@),
            m.base.capabilities == (MapperCapabilities { has_irq: false, has_expansion_audio: false, has_chr_banking: false, has_dynamic_mirroring: true, max_prg_ram_kb: 0, prg_bank_size_kb: 16, chr_bank_size_kb: 0 }),
    {
        let capabilities = MapperCapabilities {
            has_irq: false,
            has_expansion_audio: false,
            has_chr_banking: false,
            has_dynamic_mirroring: true,
            max_prg_ram_kb: 0,
            prg_bank_size_kb: 16,
            chr_bank_size_kb: 0,
        };
        let mut base = BaseMapper::new(&ctx, capabilities);
        base.configure_prg_banking(PRG_16K_BANK_SIZE);
        if ctx.chr_rom.len() == 0 {
            base.set_chr_memory(ChrMemory::new_ram(CHR_RAM_SIZE));
        }
        assert(base.chr_pages@ =~= seq![0usize]);
        let mut mapper = Mapper312 { base, prg_bank: 0, mirroring: NametableLayout::Vertical };
        mapper.apply_banking();
        mapper
    }

    fn apply_banking(&mut self)
        requires
            old(self).wf(),
        ensures
            final(self).wf(),
            final(self).applied(),
            final(self).regs() == old(self).regs(),
            final(self).base.same_memory(&old(self).base),
            final(self).base.chr_pages@ == old(self).base.chr_pages@,
    {
        self.base.select_prg_page(0, self.prg_bank as i16);
        self.base.select_prg_page(1, -1);
        proof {
            self.base.lemma_shows_prg2(self.prg_bank as int, -1);
        }
        self.base.set_mirroring(self.mirroring);
    }

    pub fn write_prg(&mut self, addr: u16, value: u8)
        requires
            old(self).wf(),
        ensures
            final(self).write_post(old(self), addr, value),
    {
        if addr < 0x6000 {
            return;
        }
        if addr < 0x8000 {
            self.prg_bank = value;
        } else {
            self.mirroring = if (value & 0x01) != 0 { NametableLayout::Horizontal } else { NametableLayout::Vertical };
        }
        self.apply_banking();
    }

    pub fn reset(&mut self)
        requires
            old(self).wf(),
        ensures
            final(self).reset_post(old(self)),
    {
        self.prg_bank = 0;
        self.mirroring = NametableLayout::Vertical;
        self.apply_banking();
    }

    pub fn registers_snapshot(&self) -> (s: Vec<u8>)
        ensures
            s@ == self.snapshot(),
    {
        vec![self.prg_bank, self.mirroring.to_snapshot_byte()]
    }

    pub fn restore_registers(&mut self, data: &[u8])
        requires
            old(self).wf(),
        ensures
            final(self).restore_post(old(self), data@),
    {
        if data.len() < 2 {
            return;
        }
        self.prg_bank = data[0];
        self.mirroring = NametableLayout::from_snapshot_byte(data[1]);
        self.apply_banking();
    }

    pub open spec fn spec_mirroring(&self) -> NametableLayout {
        self.base.mirroring
    }

    pub open spec fn spec_read_chr(&self, addr: u16) -> u8 {
        self.base.spec_read_chr(addr)
    }

    /// State after a PPU write to pattern memory: CHR-RAM takes the byte.
    pub open spec fn write_chr_post(&self, old: &Self, addr: u16, value: u8) -> bool {
        &&& self.wf()
        &&& self.base.chr@ == (if old.base.chr_writable && old.base.chr_count() > 0 {
            old.base.chr@.update(old.base.chr_index(addr) as int, value)
        } else {
            old.base.chr@
        })
        &&& self.base.prg_pages@ == old.base.prg_pages@
        &&& self.base.chr_pages@ == old.base.chr_pages@
        &&& self.base.mirroring == old.base.mirroring
        &&& self.regs() == old.regs()
    }

    pub fn read_chr(&self, addr: u16) -> (v: u8)
        requires
            self.wf(),
        ensures
            v == self.spec_read_chr(addr),
    {
        self.base.read_chr(addr)
    }

    pub fn write_chr(&mut self, addr: u16, value: u8)
        requires
            old(self).wf(),
        ensures
            final(self).write_chr_post(old(self), addr, value),
    {
        self.base.write_chr(addr, value);
    }

    /// Every CPU read is defined.
    pub open spec fn read_ok(&self, addr: u16) -> bool {
        true
    }

    pub open spec fn spec_read_prg(&self, addr: u16) -> u8 {
        self.base.spec_read_prg(addr)
    }

    pub fn read_prg(&self, addr: u16) -> (v: u8)
        requires
            self.wf(),
        ensures
            v == self.spec_read_prg(addr),
    {
        self.base.read_prg(addr)
    }

    /// The board's memory and page tables.
    pub fn base(&self) -> (b: &BaseMapper)
        ensures
            *b == self.base,
    {
        &self.base
    }

    pub fn get_mirroring(&self) -> (m: NametableLayout)
        ensures
            m == self.spec_mirroring(),
    {
        self.base.mirroring
    }

    pub fn capabilities(&self) -> (c: MapperCapabilities)
        ensures
            c == self.base.capabilities,
    {
        self.base.capabilities
    }

    pub fn mapper_number(&self) -> (n: u16)
        ensures
            n == MAPPER_NUMBER,
    {
        MAPPER_NUMBER
    }

    pub open spec fn spec_irq_pending(&self) -> bool {
        false
    }

    /// The board raises no interrupt.
    pub fn irq_pending(&self) -> (p: bool)
        ensures
            p == self.spec_irq_pending(),
    {
        false
    }

    pub open spec fn cycle_ok(&self) -> bool {
        true
    }

    pub open spec fn cycle_post(&self, old: &Self) -> bool {
        *self == *old
    }

    /// The board does not count CPU cycles.
    pub fn cpu_cycle(&mut self)
        requires
            old(self).wf(),
        ensures
            final(self).cycle_post(old(self)),
    {
    }

}

/// Restoring a board from its own snapshot brings back the bank and the mirroring.
/// The restored board then snapshots to the same bytes.
pub proof fn lemma_snapshot_roundtrip(m: Mapper312, before: Mapper312, restored: Mapper312)
    requires
        restored.restore_post(&before, m.snapshot()),
    ensures
        restored.regs() == m.regs(),
        restored.snapshot() == m.snapshot(),
{
    crate::cartridge::lemma_layout_byte_roundtrip(m.mirroring);
}


/// A byte written to CHR-RAM reads back unchanged.
pub proof fn lemma_chr_ram_write_read(m: Mapper312, after: Mapper312, addr: u16, value: u8)
    requires
        m.wf(),
        m.base.chr_writable,
        m.base.chr_count() > 0,
        after.write_chr_post(&m, addr, value),
    ensures
        after.spec_read_chr(addr) == value,
{
    crate::base_mapper::lemma_chr_write_read(m.base, after.base, addr, value);
}

} // verus!
