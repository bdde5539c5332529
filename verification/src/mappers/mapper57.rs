//! Mapper 057 - BMC GK-192 multicart.
//!
//! Address bit 11 chooses the register a write to `$8000-$FFFF` reaches:
//! `reg0` (`$8000`: `CH.. ..AA`) or `reg1` (`$8800`: `PPPO MBbb`). The 8 KiB
//! CHR bank is `H << 3 | B << 2 | (C ? bb : AA)`. PRG: `O = 0` shows 16 KiB
//! bank `PPP` in both windows, `O = 1` the 32 KiB pair `PPP & 6`, `PPP | 1`.
//! `M` selects horizontal mirroring.
use vstd::prelude::*;
use crate::cartridge::{NametableLayout, MapperCapabilities, MapperContext, layout_hv};
use crate::base_mapper::BaseMapper;

verus! {

pub const MAPPER_NUMBER: u16 = 57;

pub open spec fn prg_bank_of(reg1: u8) -> u8 {
    (reg1 >> 5) & 0x07
}

pub open spec fn chr_bank_of(reg0: u8, reg1: u8) -> u8 {
    let h = (reg0 >> 6) & 0x01;
    let b = (reg1 >> 2) & 0x01;
    let low = if (reg0 & 0x80) != 0 { reg1 & 0x03 } else { reg0 & 0x03 };
    (h << 3) | (b << 2) | low
}

pub open spec fn prg_pages_of(reg1: u8) -> Seq<int> {
    let p = prg_bank_of(reg1);
    if (reg1 & 0x10) != 0 {
        seq![(p & 0xFE) as int, ((p & 0xFE) | 1) as int]
    } else {
        seq![p as int, p as int]
    }
}

/// Mapper 057 - BMC GK-192 multicart.
pub struct Mapper57 {
    pub base: BaseMapper,
    /// `$8000` register: `CH.. ..AA`.
    pub reg0: u8,
    /// `$8800` register: `PPPO MBbb`.
    pub reg1: u8,
}

impl Mapper57 {
    pub open spec fn regs(&self) -> (u8, u8) {
        (self.reg0, self.reg1)
    }

    pub open spec fn wf(&self) -> bool {
        &&& self.base.wf()
        &&& self.base.prg_page_size == 0x4000
        &&& self.base.chr_page_size == 0x2000
        &&& self.base.prg_pages@.len() == 2
        &&& self.base.chr_pages@.len() == 1
    }

    pub open spec fn applied(&self) -> bool {
        &&& self.base.shows_prg(prg_pages_of(self.reg1))
        &&& self.base.shows_chr(seq![chr_bank_of(self.reg0, self.reg1) as int])
        &&& self.base.mirroring == layout_hv((self.reg1 & 0x08) != 0)
    }

    pub open spec fn write_post(&self, old: &Self, addr: u16, value: u8) -> bool {
        &&& self.wf()
        &&& self.base.same_memory(&old.base)
        &&& if addr >= 0x8000 {
            &&& self.regs() == (if (addr & 0x0800) != 0 { (old.reg0, value) } else { (value, old.reg1) })
            &&& self.applied()
        } else {
            self.regs() == old.regs() && self.base.unchanged(&old.base)
        }
    }

    pub open spec fn restore_post(&self, old: &Self, data: Seq<u8>) -> bool {
        &&& self.wf()
        &&& self.base.same_memory(&old.base)
        &&& if data.len() >= 2 {
            self.regs() == (data[0], data[1]) && self.applied()
        } else {
            self.regs() == old.regs() && self.base.unchanged(&old.base)
        }
    }

    pub open spec fn reset_post(&self, old: &Self) -> bool {
        &&& self.wf()
        &&& self.base.same_memory(&old.base)
        &&& self.regs() == (0u8, 0u8)
        &&& self.applied()
    }

    pub open spec fn snapshot(&self) -> Seq<u8> {
        seq![self.reg0, self.reg1]
    }

    pub fn new(ctx: MapperContext) -> (m: Self)
        ensures
            m.wf(),
            m.regs() == (0u8, 0u8),
            m.applied(),
            m.base.prg_rom@ == ctx.prg_rom@,
            m.base.capabilities == (MapperCapabilities { has_irq: false, has_expansion_audio: false, has_dynamic_mirroring: true, has_chr_banking: true, max_prg_ram_kb: 0, prg_bank_size_kb: 16, chr_bank_size_kb: 8 }),
            m.base.chr_from(ctx.chr_rom@),
    {
        let capabilities = MapperCapabilities {
            has_irq: false,
            has_expansion_audio: false,
            has_dynamic_mirroring: true,
            has_chr_banking: true,
            max_prg_ram_kb: 0,
            prg_bank_size_kb: 16,
            chr_bank_size_kb: 8,
        };
        let mut base = BaseMapper::new(&ctx, capabilities);
        base.configure_prg_banking(16 * 1024);
        base.configure_chr_banking(8 * 1024);
        base.select_prg_page(1, 0);
        let mut s = Mapper57 { base, reg0: 0, reg1: 0 };
        s.update_banks();
        s
    }

    pub fn prg_16k_bank(&self) -> (b: u8)
        ensures
            b == prg_bank_of(self.reg1),
    {
        (self.reg1 >> 5) & 0x07
    }

    pub fn prg_mode_32k(&self) -> (m: bool)
        ensures
            m == ((self.reg1 & 0x10) != 0),
    {
        (self.reg1 & 0x10) != 0
    }

    pub fn chr_bank(&self) -> (b: u8)
        ensures
            b == chr_bank_of(self.reg0, self.reg1),
    {
        let h = (self.reg0 >> 6) & 0x01;
        let b = (self.reg1 >> 2) & 0x01;
        let chr_mode = (self.reg0 & 0x80) != 0;
        let low = if chr_mode { self.reg1 & 0x03 } else { self.reg0 & 0x03 };
        (h << 3) | (b << 2) | low
    }

    fn update_banks(&mut self)
        requires
            old(self).wf(),
        ensures
            final(self).wf(),
            final(self).regs() == old(self).regs(),
            final(self).base.same_memory(&old(self).base),
            final(self).applied(),
    {
        let prg_bank = self.prg_16k_bank();
        let ghost pages = prg_pages_of(self.reg1);
        if self.prg_mode_32k() {
            let base = prg_bank & 0xFE;
            self.base.select_prg_page(0, base as i16);
            self.base.select_prg_page(1, (base | 1) as i16);
        } else {
            self.base.select_prg_page(0, prg_bank as i16);
            self.base.select_prg_page(1, prg_bank as i16);
        }
        let chr = self.chr_bank();
        self.base.select_chr_page(0, chr as i16);
        proof {
            self.base.lemma_shows_prg2(pages[0], pages[1]);
            assert(pages =~= seq![pages[0], pages[1]]);
            self.base.lemma_shows_chr1(chr as int);
        }
        self.base.set_mirroring_hv((self.reg1 & 0x08) != 0);
    }

    pub fn write_prg(&mut self, addr: u16, value: u8)
        requires
            old(self).wf(),
        ensures
            final(self).write_post(old(self), addr, value),
    {
        if addr >= 0x8000 {
            if (addr & 0x0800) != 0 {
                self.reg1 = value;
            } else {
                self.reg0 = value;
            }
            self.update_banks();
        }
    }

    pub fn registers_snapshot(&self) -> (s: Vec<u8>)
        ensures
            s@ == self.snapshot(),
    {
        vec![self.reg0, self.reg1]
    }

    pub fn restore_registers(&mut self, data: &[u8])
        requires
            old(self).wf(),
        ensures
            final(self).restore_post(old(self), data@),
    {
        if data.len() >= 2 {
            self.reg0 = data[0];
            self.reg1 = data[1];
            self.update_banks();
        }
    }

    pub fn reset(&mut self)
        requires
            old(self).wf(),
        ensures
            final(self).reset_post(old(self)),
    {
        self.reg0 = 0;
        self.reg1 = 0;
        self.update_banks();
    }

    /// Every CPU read is defined.
    pub open spec fn read_ok(&self, addr: u16) -> bool {
        true
    }

    pub open spec fn spec_mirroring(&self) -> NametableLayout {
        self.base.mirroring
    }

    pub open spec fn spec_read_chr(&self, addr: u16) -> u8 {
        self.base.spec_read_chr(addr)
    }

    /// State after a PPU write to pattern memory: CHR-RAM takes the byte.
    pub open spec fn write_chr_post(&self, old: &Self, addr: u16, value: u8) -> bool {
        &&& self.wf()
        &&& self.base.chr@ == (if old.base.chr_writable && old.base.chr_count() > 0 {
            old.base.chr@.update(old.base.chr_index(addr) as int, value)
        } else {
            old.base.chr@
        })
        &&& self.base.prg_pages@ == old.base.prg_pages@
        &&& self.base.chr_pages@ == old.base.chr_pages@
        &&& self.base.mirroring == old.base.mirroring
        &&& self.regs() == old.regs()
    }

    pub fn read_chr(&self, addr: u16) -> (v: u8)
        requires
            self.wf(),
        ensures
            v == self.spec_read_chr(addr),
    {
        self.base.read_chr(addr)
    }

    pub fn write_chr(&mut self, addr: u16, value: u8)
        requires
            old(self).wf(),
        ensures
            final(self).write_chr_post(old(self), addr, value),
    {
        self.base.write_chr(addr, value);
    }

    pub open spec fn spec_read_prg(&self, addr: u16) -> u8 {
        self.base.spec_read_prg(addr)
    }

    pub fn read_prg(&self, addr: u16) -> (v: u8)
        requires
            self.wf(),
        ensures
            v == self.spec_read_prg(addr),
    {
        self.base.read_prg(addr)
    }

    /// The board's memory and page tables.
    pub fn base(&self) -> (b: &BaseMapper)
        ensures
            *b == self.base,
    {
        &self.base
    }

    pub fn get_mirroring(&self) -> (m: NametableLayout)
        ensures
            m == self.spec_mirroring(),
    {
        self.base.mirroring
    }

    pub fn capabilities(&self) -> (c: MapperCapabilities)
        ensures
            c == self.base.capabilities,
    {
        self.base.capabilities
    }

    pub fn mapper_number(&self) -> (n: u16)
        ensures
            n == MAPPER_NUMBER,
    {
        MAPPER_NUMBER
    }

    pub open spec fn spec_irq_pending(&self) -> bool {
        false
    }

    /// The board raises no interrupt.
    pub fn irq_pending(&self) -> (p: bool)
        ensures
            p == self.spec_irq_pending(),
    {
        false
    }

    pub open spec fn cycle_ok(&self) -> bool {
        true
    }

    pub open spec fn cycle_post(&self, old: &Self) -> bool {
        *self == *old
    }

    /// The board does not count CPU cycles.
    pub fn cpu_cycle(&mut self)
        requires
            old(self).wf(),
        ensures
            final(self).cycle_post(old(self)),
    {
    }

}

/// Restoring the snapshot of a mapper brings back its registers.
/// The restored board then snapshots to the same bytes.
pub proof fn lemma_snapshot_roundtrip(m: Mapper57, before: Mapper57, restored: Mapper57)
    requires
        restored.restore_post(&before, m.snapshot()),
    ensures
        restored.regs() == m.regs(),
        restored.snapshot() == m.snapshot(),
{
}

} // verus!
