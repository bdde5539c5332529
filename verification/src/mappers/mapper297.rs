//! Mapper 297 - multicart presenting either mapper-70 or MMC1 banking.
//!
//! Any write to `$8000-$FFFF` with `(addr & $E100) == $E100` sets the outer
//! register: bit 0 (M) selects MMC1 mode, bit 1 is PRG A16 for mapper-70
//! mode. Other writes go to the MMC1 serial port (M = 1) or to the mapper-70
//! latch (M = 0).
//!
//! - Mapper-70 mode: 16 KiB PRG bank `(A16 << 2) | latch[5:4]` at `$8000`,
//!   `(A16 << 2) | 3` at `$C000`; 8 KiB CHR bank `latch[3:0]`.
//! - MMC1 mode: the MMC1 banking within the upper 128 KiB of PRG (A17 = 1:
//!   the MMC1 bank taken modulo 8 and offset by 8, so the fixed `$C000` bank
//!   is bank 15) and with CHR banks offset by 16 (4 KiB units).
//!
//! Mirroring is always vertical. The board has no PRG-RAM.
use vstd::prelude::*;
use crate::cartridge::{NametableLayout, MapperCapabilities, MapperContext, RamInitMode};
use crate::base_mapper::{BaseMapper, slice_prefix};
use crate::mmc1::{MMC1Mapper, Mmc1Regs, next_regs, power_on_regs};

verus! {

pub const MAPPER_NUMBER: u16 = 297;
/// 16 KiB PRG bank offset in MMC1 mode (upper 128 KiB).
pub const MMC1_PRG_OFFSET: i16 = 8;
/// 4 KiB CHR bank offset in MMC1 mode.
pub const MMC1_CHR_OFFSET: i16 = 16;

/// Page numbers of the two 16 KiB PRG slots.
pub open spec fn prg_pages_of(outer: u8, latch: u8, r: Mmc1Regs) -> Seq<int> {
    if outer & 0x01 != 0 {
        let mode = (r.control >> 2) & 0x03;
        if mode <= 1 {
            let bank_32k = ((r.prg & 0x06) >> 1) as int;
            seq![8 + bank_32k * 2, 8 + bank_32k * 2 + 1]
        } else if mode == 2 {
            seq![8int, 8 + (r.prg & 0x07) as int]
        } else {
            seq![8 + (r.prg & 0x07) as int, 8int + 7]
        }
    } else {
        let a16 = ((outer >> 1) & 0x01) as int;
        seq![a16 * 4 + ((latch >> 4) & 0x03) as int, a16 * 4 + 3]
    }
}

/// Page numbers of the two 4 KiB CHR slots.
pub open spec fn chr_pages_of(outer: u8, latch: u8, r: Mmc1Regs) -> Seq<int> {
    if outer & 0x01 != 0 {
        if (r.control >> 4) & 0x01 == 0 {
            let bank = ((r.chr0 & 0x1E) >> 1) as int;
            seq![16 + bank * 2, 16 + bank * 2 + 1]
        } else {
            seq![16 + (r.chr0 & 0x1F) as int, 16 + (r.chr1 & 0x1F) as int]
        }
    } else {
        let chr = (latch & 0x0F) as int;
        seq![chr * 2, chr * 2 + 1]
    }
}

/// Mapper 297 - mapper-70 / MMC1 multicart.
pub struct Mapper297 {
    pub mmc1: MMC1Mapper,
    pub outer_reg: u8,
    /// Mapper-70 latch.
    pub latch_70: u8,
}

impl Mapper297 {
    pub open spec fn wf(&self) -> bool {
        &&& self.mmc1.wf()
        &&& self.mmc1.base.prg_ram@.len() == 0
    }

    pub open spec fn is_mmc1_mode(&self) -> bool {
        self.outer_reg & 0x01 != 0
    }

    /// The banks agree with the registers and mirroring is vertical.
    pub open spec fn applied(&self) -> bool {
        &&& self.mmc1.base.shows_prg(prg_pages_of(self.outer_reg, self.latch_70, self.mmc1.regs))
        &&& self.mmc1.base.shows_chr(chr_pages_of(self.outer_reg, self.latch_70, self.mmc1.regs))
        &&& self.mmc1.base.mirroring == NametableLayout::Vertical
    }

    pub open spec fn write_post(&self, old: &Self, addr: u16, value: u8) -> bool {
        if addr < 0x8000 {
            *self == *old
        } else {
            &&& self.wf()
            &&& self.applied()
            &&& self.mmc1.base.same_memory(&old.mmc1.base)
            &&& if addr & 0xE100 == 0xE100 {
                &&& self.outer_reg == value
                &&& self.latch_70 == old.latch_70
                &&& self.mmc1.regs == old.mmc1.regs
                &&& self.mmc1.cycles_since_write == old.mmc1.cycles_since_write
            } else if old.is_mmc1_mode() {
                &&& self.outer_reg == old.outer_reg
                &&& self.latch_70 == old.latch_70
                &&& self.mmc1.cycles_since_write == 0
                &&& self.mmc1.regs == (if old.mmc1.accepts_write() { next_regs(old.mmc1.regs, addr, value) } else { old.mmc1.regs })
            } else {
                &&& self.outer_reg == old.outer_reg
                &&& self.latch_70 == value
                &&& self.mmc1.regs == old.mmc1.regs
                &&& self.mmc1.cycles_since_write == old.mmc1.cycles_since_write
            }
        }
    }

    pub open spec fn snapshot(&self) -> Seq<u8> {
        seq![self.outer_reg, self.latch_70] + self.mmc1.snapshot()
    }

    pub open spec fn restore_post(&self, old: &Self, data: Seq<u8>) -> bool {
        if data.len() < 2 {
            *self == *old
        } else {
            &&& self.wf()
            &&& self.outer_reg == data[0]
            &&& self.latch_70 == data[1]
            &&& self.mmc1.base.same_memory(&old.mmc1.base)
            &&& (data.len() < 2 + crate::mmc1::SNAPSHOT_LEN || data[3] > 4 ==> self.mmc1.regs == old.mmc1.regs && self.mmc1.cycles_since_write == old.mmc1.cycles_since_write)
            &&& (data.len() >= 2 + crate::mmc1::SNAPSHOT_LEN && data[3] <= 4 ==> self.mmc1.snapshot() == data.subrange(2, 2 + crate::mmc1::SNAPSHOT_LEN))
            &&& self.applied()
        }
    }

    pub open spec fn reset_post(&self, old: &Self) -> bool {
        &&& self.wf()
        &&& self.outer_reg == 0
        &&& self.latch_70 == 0
        &&& self.mmc1.regs == power_on_regs()
        &&& self.mmc1.base.same_memory(&old.mmc1.base)
        &&& self.applied()
    }

    pub open spec fn spec_read_prg(&self, addr: u16) -> u8 {
        self.mmc1.base.spec_read_prg(addr)
    }

    pub open spec fn spec_read_chr(&self, addr: u16) -> u8 {
        self.mmc1.base.spec_read_chr(addr)
    }

    pub open spec fn spec_read_prg_open_bus(&self, addr: u16, open_bus: u8) -> u8 {
        if addr >= 0x8000 { self.spec_read_prg(addr) } else { open_bus }
    }

    pub open spec fn read_ok(&self, addr: u16) -> bool {
        true
    }

    pub open spec fn spec_mirroring(&self) -> NametableLayout {
        NametableLayout::Vertical
    }

    pub open spec fn spec_irq_pending(&self) -> bool {
        false
    }

    pub open spec fn cycle_ok(&self) -> bool {
        true
    }

    pub open spec fn cycle_post(&self, old: &Self) -> bool {
        &&& self.outer_reg == old.outer_reg
        &&& self.latch_70 == old.latch_70
        &&& self.mmc1 == (MMC1Mapper {
            cycles_since_write: if old.mmc1.cycles_since_write < 0xFF { (old.mmc1.cycles_since_write + 1) as u8 } else { 0xFF },
            ..old.mmc1
        })
    }

    /// State after a PPU write to pattern memory: CHR-RAM, where the cartridge
    /// has it, takes the byte; CHR-ROM is left as it is.
    pub open spec fn write_chr_post(&self, old: &Self, addr: u16, value: u8) -> bool {
        &&& self.wf()
        &&& old.applied() ==> self.applied()
        &&& self.mmc1.base.chr@ == (if old.mmc1.base.chr_writable && old.mmc1.base.chr_count() > 0 {
            old.mmc1.base.chr@.update(old.mmc1.base.chr_index(addr) as int, value)
        } else {
            old.mmc1.base.chr@
        })
        &&& self.mmc1.base.prg_pages@ == old.mmc1.base.prg_pages@
        &&& self.mmc1.base.chr_pages@ == old.mmc1.base.chr_pages@
        &&& self.mmc1.base.mirroring == old.mmc1.base.mirroring
        &&& self.mmc1.regs == old.mmc1.regs
        &&& self.outer_reg == old.outer_reg
        &&& self.latch_70 == old.latch_70
    }

    pub fn new(ctx: MapperContext) -> (m: Self)
        ensures
            m.wf(),
            m.outer_reg == 0,
            m.latch_70 == 0,
            m.mmc1.regs == power_on_regs(),
            m.applied(),
            m.mmc1.base.prg_rom@ == ctx.prg_rom@,
            m.mmc1.base.capabilities == (MapperCapabilities { has_irq: false, has_expansion_audio: false, has_chr_banking: true, has_dynamic_mirroring: false, max_prg_ram_kb: 0, prg_bank_size_kb: 16, chr_bank_size_kb: 4 }),
            m.mmc1.base.chr_from(ctx.chr_rom@),
    {
        let capabilities = MapperCapabilities {
            has_irq: false,
            has_expansion_audio: false,
            has_chr_banking: true,
            has_dynamic_mirroring: false,
            max_prg_ram_kb: 0,
            prg_bank_size_kb: 16,
            chr_bank_size_kb: 4,
        };
        let mmc1 = MMC1Mapper::new(&ctx, capabilities);
        let mut mapper = Mapper297 { mmc1, outer_reg: 0, latch_70: 0 };
        mapper.apply_banks();
        mapper
    }

    pub fn is_mmc1(&self) -> (b: bool)
        ensures
            b == self.is_mmc1_mode(),
    {
        (self.outer_reg & 0x01) != 0
    }

    fn apply_banks(&mut self)
        requires
            old(self).wf(),
        ensures
            final(self).wf(),
            final(self).applied(),
            final(self).outer_reg == old(self).outer_reg,
            final(self).latch_70 == old(self).latch_70,
            final(self).mmc1.regs == old(self).mmc1.regs,
            final(self).mmc1.cycles_since_write == old(self).mmc1.cycles_since_write,
            final(self).mmc1.base.same_memory(&old(self).mmc1.base),
    {
        let ghost prg = prg_pages_of(self.outer_reg, self.latch_70, self.mmc1.regs);
        let ghost chr = chr_pages_of(self.outer_reg, self.latch_70, self.mmc1.regs);
        if self.is_mmc1() {
            self.apply_mmc1_banks();
        } else {
            self.apply_mapper70_banks();
        }
        proof {
            self.mmc1.base.lemma_shows_prg2(prg[0], prg[1]);
            assert(prg == seq![prg[0], prg[1]]);
            self.mmc1.base.lemma_shows_chr2(chr[0], chr[1]);
            assert(chr == seq![chr[0], chr[1]]);
        }
        self.mmc1.base.set_mirroring(NametableLayout::Vertical);
    }

    fn apply_mapper70_banks(&mut self)
        requires
            old(self).wf(),
            !old(self).is_mmc1_mode(),
        ensures
            final(self).wf(),
            final(self).outer_reg == old(self).outer_reg,
            final(self).latch_70 == old(self).latch_70,
            final(self).mmc1.regs == old(self).mmc1.regs,
            final(self).mmc1.cycles_since_write == old(self).mmc1.cycles_since_write,
            final(self).mmc1.base.same_memory(&old(self).mmc1.base),
            ({
                let prg = prg_pages_of(old(self).outer_reg, old(self).latch_70, old(self).mmc1.regs);
                let chr = chr_pages_of(old(self).outer_reg, old(self).latch_70, old(self).mmc1.regs);
                &&& final(self).mmc1.base.prg_pages@[0] == crate::base_mapper::wrap_page(prg[0], final(self).mmc1.base.prg_count())
                &&& final(self).mmc1.base.prg_pages@[1] == crate::base_mapper::wrap_page(prg[1], final(self).mmc1.base.prg_count())
                &&& final(self).mmc1.base.chr_pages@[0] == crate::base_mapper::wrap_page(chr[0], final(self).mmc1.base.chr_count())
                &&& final(self).mmc1.base.chr_pages@[1] == crate::base_mapper::wrap_page(chr[1], final(self).mmc1.base.chr_count())
            }),
    {
        let o = self.outer_reg;
        let l = self.latch_70;
        proof {
            crate::bits::lemma_byte_fields(o >> 1);
            crate::bits::lemma_byte_fields(l >> 4);
            crate::bits::lemma_byte_fields(l);
        }
        let a16 = ((o >> 1) & 0x01) as i16;
        let inner_prg = ((l >> 4) & 0x03) as i16;
        let chr_bank = (l & 0x0F) as i16;
        self.mmc1.base.select_prg_page(0, a16 * 4 + inner_prg);
        self.mmc1.base.select_prg_page(1, a16 * 4 + 3);
        self.mmc1.base.select_chr_page(0, chr_bank * 2);
        self.mmc1.base.select_chr_page(1, chr_bank * 2 + 1);
    }

    fn apply_mmc1_banks(&mut self)
        requires
            old(self).wf(),
            old(self).is_mmc1_mode(),
        ensures
            final(self).wf(),
            final(self).outer_reg == old(self).outer_reg,
            final(self).latch_70 == old(self).latch_70,
            final(self).mmc1.regs == old(self).mmc1.regs,
            final(self).mmc1.cycles_since_write == old(self).mmc1.cycles_since_write,
            final(self).mmc1.base.same_memory(&old(self).mmc1.base),
            ({
                let prg = prg_pages_of(old(self).outer_reg, old(self).latch_70, old(self).mmc1.regs);
                let chr = chr_pages_of(old(self).outer_reg, old(self).latch_70, old(self).mmc1.regs);
                &&& final(self).mmc1.base.prg_pages@[0] == crate::base_mapper::wrap_page(prg[0], final(self).mmc1.base.prg_count())
                &&& final(self).mmc1.base.prg_pages@[1] == crate::base_mapper::wrap_page(prg[1], final(self).mmc1.base.prg_count())
                &&& final(self).mmc1.base.chr_pages@[0] == crate::base_mapper::wrap_page(chr[0], final(self).mmc1.base.chr_count())
                &&& final(self).mmc1.base.chr_pages@[1] == crate::base_mapper::wrap_page(chr[1], final(self).mmc1.base.chr_count())
            }),
    {
        let control = self.mmc1.control();
        let chr0 = self.mmc1.chr_bank_0();
        let chr1 = self.mmc1.chr_bank_1();
        let prg = self.mmc1.prg_bank();
        proof {
            crate::bits::lemma_byte_fields(control >> 2);
            crate::bits::lemma_byte_fields(control >> 4);
            crate::bits::lemma_byte_fields(prg);
            crate::bits::lemma_byte_fields(chr0);
            crate::bits::lemma_byte_fields(chr1);
            assert((prg & 0x06) >> 1 <= 3 && (chr0 & 0x1E) >> 1 <= 15) by (bit_vector);
        }
        let prg_mode = (control >> 2) & 0x03;
        if prg_mode <= 1 {
            let bank_32k = ((prg & 0x06) >> 1) as i16;
            self.mmc1.base.select_prg_page(0, MMC1_PRG_OFFSET + bank_32k * 2);
            self.mmc1.base.select_prg_page(1, MMC1_PRG_OFFSET + bank_32k * 2 + 1);
        } else if prg_mode == 2 {
            self.mmc1.base.select_prg_page(0, MMC1_PRG_OFFSET);
            self.mmc1.base.select_prg_page(1, MMC1_PRG_OFFSET + (prg & 0x07) as i16);
        } else {
            self.mmc1.base.select_prg_page(0, MMC1_PRG_OFFSET + (prg & 0x07) as i16);
            self.mmc1.base.select_prg_page(1, MMC1_PRG_OFFSET + 7);
        }
        let chr_mode = (control >> 4) & 0x01;
        if chr_mode == 0 {
            let bank = ((chr0 & 0x1E) >> 1) as i16;
            self.mmc1.base.select_chr_page(0, MMC1_CHR_OFFSET + bank * 2);
            self.mmc1.base.select_chr_page(1, MMC1_CHR_OFFSET + bank * 2 + 1);
        } else {
            self.mmc1.base.select_chr_page(0, MMC1_CHR_OFFSET + (chr0 & 0x1F) as i16);
            self.mmc1.base.select_chr_page(1, MMC1_CHR_OFFSET + (chr1 & 0x1F) as i16);
        }
    }

    pub fn read_prg(&self, addr: u16) -> (v: u8)
        requires
            self.wf(),
        ensures
            v == self.spec_read_prg(addr),
    {
        self.mmc1.read_prg(addr)
    }

    /// `$6000-$7FFF` and addresses below read as `open_bus` (no PRG-RAM).
    pub fn read_prg_open_bus(&self, addr: u16, open_bus: u8) -> (v: u8)
        requires
            self.wf(),
        ensures
            v == self.spec_read_prg_open_bus(addr, open_bus),
    {
        if addr >= 0x8000 {
            self.read_prg(addr)
        } else {
            open_bus
        }
    }

    pub fn write_prg(&mut self, addr: u16, value: u8)
        requires
            old(self).wf(),
        ensures
            final(self).write_post(old(self), addr, value),
    {
        if addr < 0x8000 {
            return;
        }
        if (addr & 0xE100) == 0xE100 {
            self.outer_reg = value;
            self.apply_banks();
            return;
        }
        if self.is_mmc1() {
            self.mmc1.write_prg(addr, value);
        } else {
            self.latch_70 = value;
        }
        self.apply_banks();
    }

    pub fn read_chr(&self, addr: u16) -> (v: u8)
        requires
            self.wf(),
        ensures
            v == self.spec_read_chr(addr),
    {
        self.mmc1.read_chr(addr)
    }

    /// Pattern writes reach CHR-RAM where the cartridge has it.
    pub fn write_chr(&mut self, addr: u16, value: u8)
        requires
            old(self).wf(),
        ensures
            final(self).write_chr_post(old(self), addr, value),
    {
        self.mmc1.base.write_chr(addr, value);
    }

    pub fn cpu_cycle(&mut self)
        requires
            old(self).wf(),
        ensures
            final(self).cycle_post(old(self)),
    {
        self.mmc1.cpu_cycle();
    }

    pub fn get_mirroring(&self) -> (m: NametableLayout)
        ensures
            m == self.spec_mirroring(),
    {
        NametableLayout::Vertical
    }

    pub fn registers_snapshot(&self) -> (s: Vec<u8>)
        ensures
            s@ == self.snapshot(),
    {
        let mut s = vec![self.outer_reg, self.latch_70];
        let inner = self.mmc1.registers_snapshot();
        let mut i: usize = 0;
        while i < inner.len()
            invariant
                0 <= i <= inner@.len(),
                s@ =~= seq![self.outer_reg, self.latch_70] + inner@.subrange(0, i as int),
            decreases inner@.len() - i,
        {
            s.push(inner[i]);
            i = i + 1;
        }
        proof {
            assert(inner@.subrange(0, inner@.len() as int) =~= inner@);
        }
        s
    }

    pub fn restore_registers(&mut self, data: &[u8])
        requires
            old(self).wf(),
        ensures
            final(self).restore_post(old(self), data@),
    {
        if data.len() < 2 {
            return;
        }
        self.outer_reg = data[0];
        self.latch_70 = data[1];
        let mut rest: Vec<u8> = Vec::new();
        let mut i: usize = 2;
        while i < data.len()
            invariant
                2 <= i <= data@.len(),
                rest@ =~= data@.subrange(2, i as int),
            decreases data@.len() - i,
        {
            rest.push(data[i]);
            i = i + 1;
        }
        self.mmc1.restore_registers(rest.as_slice());
        self.apply_banks();
        proof {
            if data@.len() >= 2 + crate::mmc1::SNAPSHOT_LEN && data@[3] <= 4 {
                assert(rest@.subrange(0, crate::mmc1::SNAPSHOT_LEN as int) =~= data@.subrange(2, 2 + crate::mmc1::SNAPSHOT_LEN));
            }
        }
    }

    pub fn reset(&mut self)
        requires
            old(self).wf(),
        ensures
            final(self).reset_post(old(self)),
    {
        self.mmc1.reset();
        self.outer_reg = 0;
        self.latch_70 = 0;
        self.apply_banks();
    }

    pub fn initialize_ram(&mut self, mode: RamInitMode)
        requires
            old(self).wf(),
        ensures
            final(self).wf(),
            final(self).mmc1.regs == old(self).mmc1.regs,
            final(self).mmc1.base.prg_pages@ == old(self).mmc1.base.prg_pages@,
            final(self).mmc1.base.chr_pages@ == old(self).mmc1.base.chr_pages@,
            final(self).outer_reg == old(self).outer_reg,
            final(self).latch_70 == old(self).latch_70,
    {
        self.mmc1.initialize_ram(mode);
    }

    pub fn base(&self) -> (b: &BaseMapper)
        ensures
            *b == self.mmc1.base,
    {
        &self.mmc1.base
    }

    pub fn capabilities(&self) -> (c: MapperCapabilities)
        ensures
            c == self.mmc1.base.capabilities,
    {
        self.mmc1.base.capabilities
    }

    pub fn mapper_number(&self) -> (n: u16)
        ensures
            n == MAPPER_NUMBER,
    {
        MAPPER_NUMBER
    }

    pub fn irq_pending(&self) -> (p: bool)
        ensures
            p == self.spec_irq_pending(),
    {
        false
    }
}

/// Restoring a board from its own snapshot brings back the outer register,
/// the latch and the MMC1 registers.
/// The restored board then snapshots to the same bytes.
pub proof fn lemma_snapshot_roundtrip(m: Mapper297, before: Mapper297, restored: Mapper297)
    requires
        m.wf(),
        restored.restore_post(&before, m.snapshot()),
    ensures
        restored.outer_reg == m.outer_reg,
        restored.latch_70 == m.latch_70,
        restored.mmc1.regs == m.mmc1.regs,
        restored.mmc1.cycles_since_write == m.mmc1.cycles_since_write,
        restored.snapshot() == m.snapshot(),
{
    let s = m.snapshot();
    assert(s.subrange(2, 2 + crate::mmc1::SNAPSHOT_LEN) =~= m.mmc1.snapshot());
}

} // verus!
