//! Mapper 293 - NewStar 12-in-1 / 76-in-1 multicart.
//!
//! Register 1 (written when address bit 13 is 0) holds the inner 16 KiB bank
//! in bits 2:0 and mode bit 1 in bit 3. Register 2 (written when address bit
//! 14 is 0) holds the outer bank bits (outer[0] = bit 4, outer[1] = bit 5,
//! outer[2] = bit 0), mode bit 0 in bit 6 and horizontal mirroring in bit 7.
//! Writes to `$8000-$9FFF` update both. Modes: 0 UNROM (inner, 7), 1 (inner
//! even, 7), 2 NROM-128 (inner, inner), 3 NROM-256 (inner even, +1), all
//! inside the outer 128 KiB block.
use vstd::prelude::*;
use crate::cartridge::{NametableLayout, MapperCapabilities, MapperContext, layout_hv};
use crate::base_mapper::BaseMapper;

verus! {

pub const MAPPER_NUMBER: u16 = 293;
pub const PRG_BANK_SIZE: usize = 16 * 1024;

pub open spec fn outer_of(reg2: u8) -> u8 {
    ((reg2 >> 4) & 0x01) | (((reg2 >> 5) & 0x01) << 1) | ((reg2 & 0x01) << 2)
}

pub open spec fn inner_of(reg1: u8) -> u8 {
    reg1 & 0x07
}

pub open spec fn mode_of(reg1: u8, reg2: u8) -> u8 {
    (((reg1 >> 3) & 0x01) << 1) | ((reg2 >> 6) & 0x01)
}

/// Absolute 16 KiB bank for PRG slot `slot` (0 = `$8000`, 1 = `$C000`).
pub open spec fn bank_for_slot(reg1: u8, reg2: u8, slot: u8) -> u8 {
    let base = outer_of(reg2) << 3;
    let inner = inner_of(reg1);
    let mode = mode_of(reg1, reg2);
    if mode == 0 {
        if slot == 0 { base | inner } else { base | 7 }
    } else if mode == 1 {
        if slot == 0 { base | (inner & 0xFE) } else { base | 7 }
    } else if mode == 2 {
        base | inner
    } else {
        base | (inner & 0xFE) | slot
    }
}

/// Registers `(reg1, reg2)` after a CPU write.
pub open spec fn regs_after_write(regs: (u8, u8), addr: u16, value: u8) -> (u8, u8) {
    if addr < 0x8000 {
        regs
    } else {
        (
            if addr & 0x2000 == 0 { value } else { regs.0 },
            if addr & 0x4000 == 0 { value } else { regs.1 },
        )
    }
}

/// Mapper 293 - NewStar 12-in-1 / 76-in-1 multicart.
pub struct Mapper293 {
    pub base: BaseMapper,
    /// Register 1: written when address bit 13 is 0.
    pub reg1: u8,
    /// Register 2: written when address bit 14 is 0.
    pub reg2: u8,
}

impl Mapper293 {
    pub open spec fn regs(&self) -> (u8, u8) {
        (self.reg1, self.reg2)
    }

    pub open spec fn wf(&self) -> bool {
        &&& self.base.wf()
        &&& self.base.prg_page_size == PRG_BANK_SIZE
        &&& self.base.prg_pages@.len() == 2
        &&& self.base.chr_page_size == crate::base_mapper::CHR_WINDOW
        &&& self.base.chr_pages@ == seq![0usize]
    }

    pub open spec fn applied(&self) -> bool {
        &&& self.base.shows_prg(seq![
            bank_for_slot(self.reg1, self.reg2, 0) as int,
            bank_for_slot(self.reg1, self.reg2, 1) as int,
        ])
        &&& self.base.mirroring == layout_hv(self.reg2 & 0x80 != 0)
    }

    pub open spec fn write_post(&self, old: &Self, addr: u16, value: u8) -> bool {
        &&& self.wf()
        &&& self.base.same_memory(&old.base)
        &&& self.base.chr_pages@ == old.base.chr_pages@
        &&& self.regs() == regs_after_write(old.regs(), addr, value)
        &&& addr < 0x8000 ==> *self == *old
        &&& addr >= 0x8000 ==> self.applied()
    }

    pub open spec fn restore_post(&self, old: &Self, data: Seq<u8>) -> bool {
        &&& self.wf()
        &&& self.base.same_memory(&old.base)
        &&& self.base.chr_pages@ == old.base.chr_pages@
        &&& data.len() < 2 ==> *self == *old
        &&& data.len() >= 2 ==> self.regs() == (data[0], data[1]) && self.applied()
    }

    pub open spec fn reset_post(&self, old: &Self) -> bool {
        &&& self.wf()
        &&& self.base.same_memory(&old.base)
        &&& self.base.chr_pages@ == old.base.chr_pages@
        &&& self.regs() == (0u8, 0u8)
        &&& self.applied()
    }

    pub open spec fn snapshot(&self) -> Seq<u8> {
        seq![self.reg1, self.reg2]
    }

    pub fn new(ctx: MapperContext) -> (m: Self)
        ensures
            m.wf(),
            m.regs() == (0u8, 0u8),
            m.applied(),
            m.base.prg_rom@ == ctx.prg_rom@,
            m.base.capabilities == (MapperCapabilities { has_irq: false, has_expansion_audio: false, has_dynamic_mirroring: true, has_chr_banking: false, max_prg_ram_kb: 0, prg_bank_size_kb: 16, chr_bank_size_kb: 8 }),
            m.base.chr_from(ctx.chr_rom@),
    {
        let capabilities = MapperCapabilities {
            has_irq: false,
            has_expansion_audio: false,
            has_dynamic_mirroring: true,
            has_chr_banking: false,
            max_prg_ram_kb: 0,
            prg_bank_size_kb: 16,
            chr_bank_size_kb: 8,
        };
        let mut base = BaseMapper::new(&ctx, capabilities);
        base.configure_prg_banking(PRG_BANK_SIZE);
        let mut s = Mapper293 { base, reg1: 0, reg2: 0 };
        s.update_banks();
        s
    }

    /// The 3-bit outer bank: outer[0] = reg2[4], outer[1] = reg2[5], outer[2] = reg2[0].
    pub fn outer_bank(&self) -> (r: u8)
        ensures
            r == outer_of(self.reg2),
    {
        let bit0 = (self.reg2 >> 4) & 0x01;
        let bit1 = (self.reg2 >> 5) & 0x01;
        let bit2 = self.reg2 & 0x01;
        bit0 | (bit1 << 1) | (bit2 << 2)
    }

    /// The 3-bit inner bank (reg1 bits 2:0).
    pub fn inner_bank(&self) -> (r: u8)
        ensures
            r == inner_of(self.reg1),
    {
        self.reg1 & 0x07
    }

    /// The 2-bit PRG mode `{reg1[3], reg2[6]}`.
    pub fn mode(&self) -> (r: u8)
        ensures
            r == mode_of(self.reg1, self.reg2),
    {
        let bit1 = (self.reg1 >> 3) & 0x01;
        let bit0 = (self.reg2 >> 6) & 0x01;
        (bit1 << 1) | bit0
    }

    /// The absolute 16 KiB bank for PRG slot `slot`.
    pub fn prg_bank_for_slot(&self, slot: u8) -> (r: i16)
        requires
            slot <= 1,
        ensures
            r as int == bank_for_slot(self.reg1, self.reg2, slot) as int,
    {
        let outer = self.outer_bank();
        let inner = self.inner_bank();
        let r1 = self.reg1;
        let r2 = self.reg2;
        proof {
            assert(outer_of(r2) <= 7 && inner_of(r1) <= 7) by (bit_vector);
        }
        let base = outer << 3;
        let b: u8 = match self.mode() {
            0 => if slot == 0 { base | inner } else { base | 7 },
            1 => if slot == 0 { base | (inner & 0xFE) } else { base | 7 },
            2 => base | inner,
            _ => base | (inner & 0xFE) | slot,
        };
        proof {
            assert(mode_of(r1, r2) <= 3) by (bit_vector);
        }
        b as i16
    }

    fn update_banks(&mut self)
        requires
            old(self).wf(),
        ensures
            final(self).wf(),
            final(self).regs() == old(self).regs(),
            final(self).base.same_memory(&old(self).base),
            final(self).base.chr_pages@ == old(self).base.chr_pages@,
            final(self).applied(),
    {
        let p0 = self.prg_bank_for_slot(0);
        let p1 = self.prg_bank_for_slot(1);
        self.base.select_prg_page(0, p0);
        self.base.select_prg_page(1, p1);
        proof {
            self.base.lemma_shows_prg2(p0 as int, p1 as int);
        }
        self.base.set_mirroring_hv((self.reg2 & 0x80) != 0);
    }

    pub fn write_prg(&mut self, addr: u16, value: u8)
        requires
            old(self).wf(),
        ensures
            final(self).write_post(old(self), addr, value),
    {
        if addr < 0x8000 {
            return;
        }
        if (addr & 0x2000) == 0 {
            self.reg1 = value;
        }
        if (addr & 0x4000) == 0 {
            self.reg2 = value;
        }
        self.update_banks();
    }

    pub fn registers_snapshot(&self) -> (s: Vec<u8>)
        ensures
            s@ == self.snapshot(),
    {
        vec![self.reg1, self.reg2]
    }

    pub fn restore_registers(&mut self, data: &[u8])
        requires
            old(self).wf(),
        ensures
            final(self).restore_post(old(self), data@),
    {
        if data.len() >= 2 {
            self.reg1 = data[0];
            self.reg2 = data[1];
            self.update_banks();
        }
    }

    pub fn reset(&mut self)
        requires
            old(self).wf(),
        ensures
            final(self).reset_post(old(self)),
    {
        self.reg1 = 0;
        self.reg2 = 0;
        self.update_banks();
    }

    /// Every CPU read is defined.
    pub open spec fn read_ok(&self, addr: u16) -> bool {
        true
    }

    pub open spec fn spec_mirroring(&self) -> NametableLayout {
        self.base.mirroring
    }

    pub open spec fn spec_read_chr(&self, addr: u16) -> u8 {
        self.base.spec_read_chr(addr)
    }

    /// State after a PPU write to pattern memory: CHR-RAM takes the byte.
    pub open spec fn write_chr_post(&self, old: &Self, addr: u16, value: u8) -> bool {
        &&& self.wf()
        &&& self.base.chr@ == (if old.base.chr_writable && old.base.chr_count() > 0 {
            old.base.chr@.update(old.base.chr_index(addr) as int, value)
        } else {
            old.base.chr@
        })
        &&& self.base.prg_pages@ == old.base.prg_pages@
        &&& self.base.chr_pages@ == old.base.chr_pages@
        &&& self.base.mirroring == old.base.mirroring
        &&& self.regs() == old.regs()
    }

    pub fn read_chr(&self, addr: u16) -> (v: u8)
        requires
            self.wf(),
        ensures
            v == self.spec_read_chr(addr),
    {
        self.base.read_chr(addr)
    }

    pub fn write_chr(&mut self, addr: u16, value: u8)
        requires
            old(self).wf(),
        ensures
            final(self).write_chr_post(old(self), addr, value),
    {
        self.base.write_chr(addr, value);
    }

    pub open spec fn spec_read_prg(&self, addr: u16) -> u8 {
        self.base.spec_read_prg(addr)
    }

    pub fn read_prg(&self, addr: u16) -> (v: u8)
        requires
            self.wf(),
        ensures
            v == self.spec_read_prg(addr),
    {
        self.base.read_prg(addr)
    }

    /// The board's memory and page tables.
    pub fn base(&self) -> (b: &BaseMapper)
        ensures
            *b == self.base,
    {
        &self.base
    }

    pub fn get_mirroring(&self) -> (m: NametableLayout)
        ensures
            m == self.spec_mirroring(),
    {
        self.base.mirroring
    }

    pub fn capabilities(&self) -> (c: MapperCapabilities)
        ensures
            c == self.base.capabilities,
    {
        self.base.capabilities
    }

    pub fn mapper_number(&self) -> (n: u16)
        ensures
            n == MAPPER_NUMBER,
    {
        MAPPER_NUMBER
    }

    pub open spec fn spec_irq_pending(&self) -> bool {
        false
    }

    /// The board raises no interrupt.
    pub fn irq_pending(&self) -> (p: bool)
        ensures
            p == self.spec_irq_pending(),
    {
        false
    }

    pub open spec fn cycle_ok(&self) -> bool {
        true
    }

    pub open spec fn cycle_post(&self, old: &Self) -> bool {
        *self == *old
    }

    /// The board does not count CPU cycles.
    pub fn cpu_cycle(&mut self)
        requires
            old(self).wf(),
        ensures
            final(self).cycle_post(old(self)),
    {
    }

}

/// Restoring the snapshot of a mapper brings back its registers.
/// The restored board then snapshots to the same bytes.
pub proof fn lemma_snapshot_roundtrip(m: Mapper293, before: Mapper293, restored: Mapper293)
    requires
        restored.restore_post(&before, m.snapshot()),
    ensures
        restored.regs() == m.regs(),
        restored.snapshot() == m.snapshot(),
{
}


/// A byte written to CHR-RAM reads back unchanged.
pub proof fn lemma_chr_ram_write_read(m: Mapper293, after: Mapper293, addr: u16, value: u8)
    requires
        m.wf(),
        m.base.chr_writable,
        m.base.chr_count() > 0,
        after.write_chr_post(&m, addr, value),
    ensures
        after.spec_read_chr(addr) == value,
{
    crate::base_mapper::lemma_chr_write_read(m.base, after.base, addr, value);
}

} // verus!
