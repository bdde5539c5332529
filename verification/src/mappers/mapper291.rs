//! Mapper 291 - Kasheng 2-in-1 multicart: an MMC3 with an outer bank register.
//!
//! The outer register at `$6000-$7FFF` (always writable) holds:
//! - bit 6 (O): outer 128 KiB PRG / 256 KiB CHR block,
//! - bit 5 (M): PRG mode, 0 = MMC3 banking inside the block, 1 = 32 KiB direct,
//! - bits 2:1 (PP): the 32 KiB bank inside the block in direct mode.
//!
//! PRG 8 KiB bank: `(O << 4) | (mmc3_bank & $0F)` in MMC3 mode,
//! `(O << 4) | (PP << 2) | slot` in direct mode. CHR 1 KiB bank:
//! `(O << 8) | (mmc3_bank & $FF)`. The board has no PRG-RAM.
use vstd::prelude::*;
use crate::cartridge::{NametableLayout, MapperCapabilities, MapperContext};
use crate::base_mapper::{BaseMapper, slice_prefix};
use crate::mmc3::{MMC3Mapper, SNAPSHOT_LEN};

verus! {

pub const MAPPER_NUMBER: u16 = 291;
pub const PRG_PP_MASK: u8 = 0x06;
pub const MODE_BIT: u8 = 0x20;
pub const OUTER_BIT: u8 = 0x40;

/// Mapper 291 - Kasheng 2-in-1 multicart.
pub struct Mapper291 {
    pub mmc3: MMC3Mapper,
    /// Last value written to `$6000-$7FFF`.
    pub outer_reg: u8,
}

impl Mapper291 {
    pub open spec fn wf(&self) -> bool {
        self.mmc3.wf()
    }

    pub open spec fn spec_outer(&self) -> usize {
        ((self.outer_reg & OUTER_BIT) >> 6) as usize
    }

    pub open spec fn spec_prg_32kb_mode(&self) -> bool {
        self.outer_reg & MODE_BIT != 0
    }

    pub open spec fn spec_prg_pp(&self) -> usize {
        ((self.outer_reg & PRG_PP_MASK) >> 1) as usize
    }

    /// The 8 KiB PRG bank shown at `addr` (`$8000-$FFFF`).
    pub open spec fn spec_mapped_prg_bank(&self, addr: u16) -> usize {
        let outer = self.spec_outer();
        if self.spec_prg_32kb_mode() {
            let slot = ((addr - 0x8000) as usize) >> 13;
            (outer << 4) | (self.spec_prg_pp() << 2) | (slot & 0x03)
        } else {
            (outer << 4) | ((self.mmc3.spec_mapped_prg_bank(addr) as usize) & 0x0F)
        }
    }

    /// The 1 KiB CHR bank shown at `addr`.
    pub open spec fn spec_mapped_chr_1k_bank(&self, addr: u16) -> usize {
        (self.spec_outer() << 8) | ((self.mmc3.spec_mapped_chr_1k_bank(addr) as usize) & 0xFF)
    }

    pub open spec fn spec_read_prg(&self, addr: u16) -> u8 {
        if addr >= 0x8000 {
            self.mmc3.prg_byte(self.spec_mapped_prg_bank(addr) as nat, (addr & 0x1FFF) as nat)
        } else {
            0
        }
    }

    pub open spec fn spec_read_chr(&self, addr: u16) -> u8 {
        self.mmc3.chr_byte(self.spec_mapped_chr_1k_bank(addr) as nat, (addr & 0x3FF) as nat)
    }

    pub open spec fn spec_read_prg_open_bus(&self, addr: u16, open_bus: u8) -> u8 {
        if addr >= 0x8000 { self.spec_read_prg(addr) } else { open_bus }
    }

    pub open spec fn read_ok(&self, addr: u16) -> bool {
        true
    }

    pub open spec fn spec_mirroring(&self) -> NametableLayout {
        self.mmc3.base.mirroring
    }

    pub open spec fn spec_irq_pending(&self) -> bool {
        self.mmc3.irq_pending
    }

    pub open spec fn write_post(&self, old: &Self, addr: u16, value: u8) -> bool {
        if 0x6000 <= addr < 0x8000 {
            *self == (Mapper291 { outer_reg: value, ..*old })
        } else if addr >= 0x8000 {
            &&& self.wf()
            &&& self.outer_reg == old.outer_reg
            &&& self.mmc3.write_post(&old.mmc3, addr, value)
        } else {
            *self == *old
        }
    }

    pub open spec fn write_chr_post(&self, old: &Self, addr: u16, value: u8) -> bool {
        &&& self.outer_reg == old.outer_reg
        &&& self.mmc3.chr_write_post(&old.mmc3, old.mmc3.spec_mapped_chr_1k_bank(addr), (addr & 0x3FF) as nat, value)
    }

    pub open spec fn snapshot(&self) -> Seq<u8> {
        self.mmc3.snapshot().push(self.outer_reg)
    }

    pub open spec fn restore_post(&self, old: &Self, data: Seq<u8>) -> bool {
        if data.len() == 0 {
            *self == *old
        } else {
            &&& self.outer_reg == data.last()
            &&& self.mmc3.restore_post(&old.mmc3, data.drop_last())
        }
    }

    pub open spec fn reset_post(&self, old: &Self) -> bool {
        &&& self.outer_reg == 0
        &&& self.mmc3.reset_post(&old.mmc3)
    }

    pub open spec fn cycle_ok(&self) -> bool {
        true
    }

    pub open spec fn cycle_post(&self, old: &Self) -> bool {
        &&& self.outer_reg == old.outer_reg
        &&& self.mmc3.cycle_post(&old.mmc3)
    }

    pub open spec fn ppu_address_post(&self, old: &Self, addr: u16) -> bool {
        &&& self.outer_reg == old.outer_reg
        &&& self.mmc3.ppu_address_post(&old.mmc3, addr)
    }

    pub fn new(ctx: MapperContext) -> (m: Self)
        ensures
            m.wf(),
            m.outer_reg == 0,
            m.mmc3.base.prg_rom@ == ctx.prg_rom@,
            m.mmc3.base.chr_from(ctx.chr_rom@),
            m.mmc3.bank_select == 0,
            m.mmc3.regs@ == seq![0u8, 2, 4, 5, 6, 7, 0, 1],
            m.mmc3.base.prg_ram@.len() == 0,
            !m.mmc3.irq_pending,
            m.mmc3.base.mirroring == ctx.mirroring,
            m.mmc3.prg_ram_ctl == crate::mmc3::PRG_RAM_CTL_POWER_ON,
            m.mmc3.irq_latch == 0,
            m.mmc3.irq_counter == 0,
            !m.mmc3.irq_reload,
            !m.mmc3.irq_enabled,
            m.mmc3.base.capabilities == (MapperCapabilities { has_irq: true, has_expansion_audio: false, has_chr_banking: true, has_dynamic_mirroring: true, max_prg_ram_kb: 0, prg_bank_size_kb: 8, chr_bank_size_kb: 1 }),
    {
        let capabilities = MapperCapabilities {
            has_irq: true,
            has_expansion_audio: false,
            has_chr_banking: true,
            has_dynamic_mirroring: true,
            max_prg_ram_kb: 0,
            prg_bank_size_kb: 8,
            chr_bank_size_kb: 1,
        };
        let mmc3 = MMC3Mapper::new_with_irq_mode_and_prg_ram_banks(&ctx, capabilities, false, 0);
        Mapper291 { mmc3, outer_reg: 0 }
    }

    pub fn outer(&self) -> (o: usize)
        ensures
            o == self.spec_outer(),
    {
        ((self.outer_reg & OUTER_BIT) >> 6) as usize
    }

    pub fn prg_32kb_mode(&self) -> (b: bool)
        ensures
            b == self.spec_prg_32kb_mode(),
    {
        (self.outer_reg & MODE_BIT) != 0
    }

    pub fn prg_pp(&self) -> (p: usize)
        ensures
            p == self.spec_prg_pp(),
    {
        ((self.outer_reg & PRG_PP_MASK) >> 1) as usize
    }

    pub fn mapped_prg_bank(&self, addr: u16) -> (b: usize)
        requires
            self.wf(),
            addr >= 0x8000,
        ensures
            b == self.spec_mapped_prg_bank(addr),
    {
        let outer = self.outer();
        let r = self.outer_reg;
        proof { crate::bits::lemma_byte_fields(r); }
        if self.prg_32kb_mode() {
            let pp = self.prg_pp();
            let slot = ((addr - 0x8000) as usize) >> 13;
            (outer << 4) | (pp << 2) | (slot & 0x03)
        } else {
            let bank = self.mmc3.mapped_prg_bank(addr);
            (outer << 4) | (bank & 0x0F)
        }
    }

    pub fn mapped_chr_1k_bank(&self, addr: u16) -> (b: usize)
        requires
            self.wf(),
        ensures
            b == self.spec_mapped_chr_1k_bank(addr),
    {
        let outer = self.outer();
        let bank = self.mmc3.mapped_chr_1k_bank(addr);
        (outer << 8) | (bank & 0xFF)
    }

    pub fn read_prg(&self, addr: u16) -> (v: u8)
        requires
            self.wf(),
        ensures
            v == self.spec_read_prg(addr),
    {
        if addr >= 0x8000 {
            let bank = self.mapped_prg_bank(addr);
            proof { crate::bits::lemma_addr_fields(addr); }
            self.mmc3.read_prg_at_bank(bank, (addr & 0x1FFF) as usize)
        } else {
            0
        }
    }

    /// `read_prg` at `$8000-$FFFF`; `open_bus` elsewhere.
    pub fn read_prg_open_bus(&self, addr: u16, open_bus: u8) -> (v: u8)
        requires
            self.wf(),
        ensures
            v == self.spec_read_prg_open_bus(addr, open_bus),
    {
        if addr >= 0x8000 {
            self.read_prg(addr)
        } else {
            open_bus
        }
    }

    pub fn write_prg(&mut self, addr: u16, value: u8)
        requires
            old(self).wf(),
        ensures
            final(self).write_post(old(self), addr, value),
    {
        if 0x6000 <= addr && addr < 0x8000 {
            self.outer_reg = value;
        } else if addr >= 0x8000 {
            self.mmc3.write_prg(addr, value);
        }
    }

    pub fn read_chr(&self, addr: u16) -> (v: u8)
        requires
            self.wf(),
        ensures
            v == self.spec_read_chr(addr),
    {
        let bank = self.mapped_chr_1k_bank(addr);
        proof { crate::bits::lemma_addr_fields(addr); }
        self.mmc3.read_chr_1k_at(bank, (addr & 0x3FF) as usize)
    }

    pub fn write_chr(&mut self, addr: u16, value: u8)
        requires
            old(self).wf(),
        ensures
            final(self).write_chr_post(old(self), addr, value),
    {
        self.mmc3.write_chr(addr, value);
    }

    pub fn registers_snapshot(&self) -> (s: Vec<u8>)
        requires
            self.wf(),
        ensures
            s@ == self.snapshot(),
    {
        let mut s = self.mmc3.registers_snapshot();
        s.push(self.outer_reg);
        s
    }

    pub fn restore_registers(&mut self, data: &[u8])
        requires
            old(self).wf(),
        ensures
            final(self).restore_post(old(self), data@),
    {
        if data.len() == 0 {
            return;
        }
        let n = data.len() - 1;
        self.outer_reg = data[n];
        let head = slice_prefix(data, n);
        self.mmc3.restore_registers(head.as_slice());
    }

    pub fn reset(&mut self)
        requires
            old(self).wf(),
        ensures
            final(self).reset_post(old(self)),
    {
        self.mmc3.reset();
        self.outer_reg = 0;
    }

    pub fn cpu_cycle(&mut self)
        requires
            old(self).wf(),
        ensures
            final(self).cycle_post(old(self)),
    {
        self.mmc3.cpu_cycle();
    }

    pub fn ppu_address_changed(&mut self, addr: u16)
        requires
            old(self).wf(),
        ensures
            final(self).ppu_address_post(old(self), addr),
    {
        self.mmc3.ppu_address_changed(addr);
    }

    pub fn irq_pending(&self) -> (p: bool)
        ensures
            p == self.spec_irq_pending(),
    {
        self.mmc3.irq_pending
    }

    pub fn base(&self) -> (b: &BaseMapper)
        ensures
            *b == self.mmc3.base,
    {
        &self.mmc3.base
    }

    pub fn get_mirroring(&self) -> (m: NametableLayout)
        ensures
            m == self.spec_mirroring(),
    {
        self.mmc3.base.mirroring
    }

    pub fn capabilities(&self) -> (c: MapperCapabilities)
        ensures
            c == self.mmc3.base.capabilities,
    {
        self.mmc3.base.capabilities
    }

    pub fn mapper_number(&self) -> (n: u16)
        ensures
            n == MAPPER_NUMBER,
    {
        MAPPER_NUMBER
    }

    /// The board has no PRG-RAM.
    pub fn wram_size(&self) -> (n: usize)
        ensures
            n == 0,
    {
        0
    }
}

/// Restoring a board from its own snapshot brings back the outer register
/// and every MMC3 register.
/// The restored board then snapshots to the same bytes.
pub proof fn lemma_snapshot_roundtrip(m: Mapper291, before: Mapper291, restored: Mapper291)
    requires
        m.wf(),
        restored.restore_post(&before, m.snapshot()),
    ensures
        restored.outer_reg == m.outer_reg,
        restored.mmc3.bank_select == m.mmc3.bank_select,
        restored.mmc3.regs@ == m.mmc3.regs@,
        restored.mmc3.base.mirroring == m.mmc3.base.mirroring,
        restored.mmc3.irq_latch == m.mmc3.irq_latch,
        restored.mmc3.irq_counter == m.mmc3.irq_counter,
        restored.mmc3.irq_enabled == m.mmc3.irq_enabled,
        restored.mmc3.irq_pending == m.mmc3.irq_pending,
        restored.snapshot() == m.snapshot(),
{
    assert(m.snapshot().drop_last() =~= m.mmc3.snapshot());
    crate::mmc3::lemma_snapshot_roundtrip(m.mmc3, before.mmc3, restored.mmc3);
}

} // verus!
