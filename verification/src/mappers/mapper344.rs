//! Mapper 344 - BMC-GN-26: an MMC3 multicart with an outer register.
//!
//! A write to `$6000-$7FFF` while the MMC3 PRG-RAM is enabled and writable
//! stores the address's low nibble into the outer register (the write also
//! reaches the PRG-RAM):
//! - bits 1:0: outer 128 KiB PRG bank (`(outer & 3) << 4` in 8 KiB banks),
//! - bit 3: NROM mode, a 32 KiB window from R6 (bits 3:1) and CPU A13,
//! - bit 1: CHR A18, bit 0: CHR A17 when bit 2 is set (else A17 comes from
//!   the MMC3 bank).
use vstd::prelude::*;
use crate::cartridge::{NametableLayout, MapperCapabilities, MapperContext};
use crate::base_mapper::{BaseMapper, slice_prefix};
use crate::mmc3::{MMC3Mapper, SNAPSHOT_LEN};

verus! {

pub const MAPPER_NUMBER: u16 = 344;
pub const PRG_BANK_SIZE: usize = 0x2000;
pub const CHR_BANK_SIZE: usize = 0x0400;

/// Mapper 344 - BMC-GN-26.
pub struct Mapper344 {
    pub mmc3: MMC3Mapper,
    pub outer_reg: u8,
}

impl Mapper344 {
    pub open spec fn wf(&self) -> bool {
        self.mmc3.wf()
    }

    pub open spec fn spec_outer_prg_bank_base(&self) -> usize {
        ((self.outer_reg as usize) & 0x03) << 4
    }

    pub open spec fn spec_nrom_mode(&self) -> bool {
        self.outer_reg & 0x08 != 0
    }

    /// R6 (bits 3:1) as the base of the 32 KiB window in NROM mode: taken
    /// from `$8000`, or from `$C000` when the PRG windows are swapped.
    pub open spec fn spec_nrom_base_inner_bank(&self) -> usize {
        let bank_8000 = self.mmc3.spec_raw_prg_page(0x8000) as usize;
        let bank_c000 = self.mmc3.spec_raw_prg_page(0xC000) as usize;
        let register_6 = if bank_8000 == 0xFE || bank_8000 == 0xFF { bank_c000 } else { bank_8000 };
        register_6 & 0x0E
    }

    /// The 8 KiB PRG bank shown at `addr` (`$8000-$FFFF`).
    pub open spec fn spec_mapped_prg_bank(&self, addr: u16) -> usize {
        if self.spec_nrom_mode() {
            self.spec_outer_prg_bank_base() | ((self.spec_nrom_base_inner_bank() + (((addr as usize) >> 13) & 0x01)) as usize)
        } else {
            self.spec_outer_prg_bank_base() | ((self.mmc3.spec_mapped_prg_bank(addr) as usize) & 0x0F)
        }
    }

    /// The 1 KiB CHR bank shown at `addr`.
    pub open spec fn spec_mapped_chr_1k_bank(&self, addr: u16) -> usize {
        let raw = self.mmc3.spec_mapped_chr_1k_bank(addr) as usize;
        let a18 = (((self.outer_reg as usize) >> 1) & 0x01) << 8;
        let a17 = if self.outer_reg & 0x04 != 0 { ((self.outer_reg as usize) & 0x01) << 7 } else { raw & 0x80 };
        a18 | a17 | (raw & 0x7F)
    }

    pub open spec fn spec_read_prg(&self, addr: u16) -> u8 {
        if addr >= 0x8000 {
            self.mmc3.prg_byte(self.spec_mapped_prg_bank(addr) as nat, (addr & 0x1FFF) as nat)
        } else {
            self.mmc3.spec_read_prg(addr)
        }
    }

    pub open spec fn spec_read_chr(&self, addr: u16) -> u8 {
        self.mmc3.chr_byte(self.spec_mapped_chr_1k_bank(addr) as nat, (addr & 0x3FF) as nat)
    }

    pub open spec fn spec_read_prg_open_bus(&self, addr: u16, open_bus: u8) -> u8 {
        if addr >= 0x8000 {
            self.spec_read_prg(addr)
        } else {
            self.mmc3.spec_read_prg_open_bus(addr, open_bus)
        }
    }

    pub open spec fn read_ok(&self, addr: u16) -> bool {
        true
    }

    pub open spec fn spec_mirroring(&self) -> NametableLayout {
        self.mmc3.base.mirroring
    }

    pub open spec fn spec_irq_pending(&self) -> bool {
        self.mmc3.irq_pending
    }

    pub open spec fn write_post(&self, old: &Self, addr: u16, value: u8) -> bool {
        if 0x6000 <= addr < 0x8000 {
            &&& self.outer_reg == (if old.mmc3.ram_writable() { (addr & 0x0F) as u8 } else { old.outer_reg })
            &&& self.mmc3.write_post(&old.mmc3, addr, value)
        } else if addr >= 0x8000 {
            &&& self.wf()
            &&& self.outer_reg == old.outer_reg
            &&& self.mmc3.write_post(&old.mmc3, addr, value)
        } else {
            *self == *old
        }
    }

    pub open spec fn write_chr_post(&self, old: &Self, addr: u16, value: u8) -> bool {
        &&& self.outer_reg == old.outer_reg
        &&& self.mmc3.chr_write_post(&old.mmc3, old.spec_mapped_chr_1k_bank(addr) as nat, (addr & 0x3FF) as nat, value)
    }

    pub open spec fn snapshot(&self) -> Seq<u8> {
        self.mmc3.snapshot().push(self.outer_reg)
    }

    pub open spec fn restore_post(&self, old: &Self, data: Seq<u8>) -> bool {
        if data.len() == 0 {
            *self == *old
        } else {
            &&& self.outer_reg == data.last()
            &&& self.mmc3.restore_post(&old.mmc3, data.drop_last())
        }
    }

    pub open spec fn reset_post(&self, old: &Self) -> bool {
        &&& self.outer_reg == 0
        &&& self.mmc3.reset_post(&old.mmc3)
    }

    pub open spec fn cycle_ok(&self) -> bool {
        true
    }

    pub open spec fn cycle_post(&self, old: &Self) -> bool {
        &&& self.outer_reg == old.outer_reg
        &&& self.mmc3.cycle_post(&old.mmc3)
    }

    pub open spec fn ppu_address_post(&self, old: &Self, addr: u16) -> bool {
        &&& self.outer_reg == old.outer_reg
        &&& self.mmc3.ppu_address_post(&old.mmc3, addr)
    }

    pub fn new(ctx: MapperContext) -> (m: Self)
        ensures
            m.wf(),
            m.outer_reg == 0,
            m.mmc3.base.prg_rom@ == ctx.prg_rom@,
            m.mmc3.base.chr_from(ctx.chr_rom@),
            m.mmc3.bank_select == 0,
            m.mmc3.regs@ == seq![0u8, 2, 4, 5, 6, 7, 0, 1],
            !m.mmc3.irq_pending,
            m.mmc3.base.capabilities == (MapperCapabilities { has_irq: true, has_expansion_audio: false, has_chr_banking: true, has_dynamic_mirroring: true, max_prg_ram_kb: 8, prg_bank_size_kb: 8, chr_bank_size_kb: 1 }),
    {
        let capabilities = MapperCapabilities {
            has_irq: true,
            has_expansion_audio: false,
            has_chr_banking: true,
            has_dynamic_mirroring: true,
            max_prg_ram_kb: 8,
            prg_bank_size_kb: 8,
            chr_bank_size_kb: 1,
        };
        let mmc3 = MMC3Mapper::new_with_irq_mode_and_prg_ram_banks(&ctx, capabilities, false, 1);
        Mapper344 { mmc3, outer_reg: 0 }
    }

    pub fn outer_prg_bank_base(&self) -> (b: usize)
        ensures
            b == self.spec_outer_prg_bank_base(),
            b <= 0x30,
    {
        let r = self.outer_reg as usize;
        proof { crate::bits::lemma_usize_fields(r); }
        (r & 0x03) << 4
    }

    pub fn nrom_base_inner_bank(&self) -> (b: usize)
        requires
            self.wf(),
        ensures
            b == self.spec_nrom_base_inner_bank(),
            b <= 0xFE,
    {
        let bank_8000 = self.mmc3.raw_prg_8k_page_number(0x8000) as usize;
        let bank_c000 = self.mmc3.raw_prg_8k_page_number(0xC000) as usize;
        let register_6 = if bank_8000 == 0xFE || bank_8000 == 0xFF { bank_c000 } else { bank_8000 };
        proof { crate::bits::lemma_usize_fields(register_6); }
        register_6 & 0x0E
    }

    pub fn prg_bank_for_addr(&self, addr: u16) -> (b: usize)
        requires
            self.wf(),
            addr >= 0x8000,
        ensures
            b == self.spec_mapped_prg_bank(addr),
    {
        let base = self.outer_prg_bank_base();
        if self.outer_reg & 0x08 != 0 {
            let a13 = ((addr as usize) >> 13) & 0x01;
            proof { crate::bits::lemma_usize_fields(addr as usize); }
            base | (self.nrom_base_inner_bank() + a13)
        } else {
            base | (self.mmc3.mapped_prg_bank(addr) & 0x0F)
        }
    }

    pub fn chr_bank_for_addr(&self, addr: u16) -> (b: usize)
        requires
            self.wf(),
        ensures
            b == self.spec_mapped_chr_1k_bank(addr),
    {
        let raw = self.mmc3.raw_chr_1k_bank(addr);
        let a18 = (((self.outer_reg as usize) >> 1) & 0x01) << 8;
        let a17 = if self.outer_reg & 0x04 != 0 { ((self.outer_reg as usize) & 0x01) << 7 } else { raw & 0x80 };
        a18 | a17 | (raw & 0x7F)
    }

    pub fn read_prg(&self, addr: u16) -> (v: u8)
        requires
            self.wf(),
        ensures
            v == self.spec_read_prg(addr),
    {
        if addr >= 0x8000 {
            let bank = self.prg_bank_for_addr(addr);
            proof { crate::bits::lemma_addr_fields(addr); }
            self.mmc3.read_prg_at_bank(bank, (addr & 0x1FFF) as usize)
        } else {
            self.mmc3.read_prg(addr)
        }
    }

    /// `read_prg` at `$8000-$FFFF`; `open_bus` elsewhere.
    pub fn read_prg_open_bus(&self, addr: u16, open_bus: u8) -> (v: u8)
        requires
            self.wf(),
        ensures
            v == self.spec_read_prg_open_bus(addr, open_bus),
    {
        if addr >= 0x8000 {
            self.read_prg(addr)
        } else {
            self.mmc3.read_prg_open_bus(addr, open_bus)
        }
    }

    pub fn write_prg(&mut self, addr: u16, value: u8)
        requires
            old(self).wf(),
        ensures
            final(self).write_post(old(self), addr, value),
    {
        if 0x6000 <= addr && addr < 0x8000 {
            if self.mmc3.is_prg_ram_writable() {
                self.outer_reg = (addr & 0x0F) as u8;
            }
            self.mmc3.write_prg(addr, value);
        } else if addr >= 0x8000 {
            self.mmc3.write_prg(addr, value);
        }
    }

    pub fn read_chr(&self, addr: u16) -> (v: u8)
        requires
            self.wf(),
        ensures
            v == self.spec_read_chr(addr),
    {
        let bank = self.chr_bank_for_addr(addr);
        proof { crate::bits::lemma_addr_fields(addr); }
        self.mmc3.read_chr_1k_at(bank, (addr & 0x3FF) as usize)
    }

    pub fn write_chr(&mut self, addr: u16, value: u8)
        requires
            old(self).wf(),
        ensures
            final(self).write_chr_post(old(self), addr, value),
    {
        let bank = self.chr_bank_for_addr(addr);
        proof { crate::bits::lemma_addr_fields(addr); }
        self.mmc3.write_chr_1k_at(bank, (addr & 0x3FF) as usize, value);
    }

    pub fn registers_snapshot(&self) -> (s: Vec<u8>)
        requires
            self.wf(),
        ensures
            s@ == self.snapshot(),
    {
        let mut s = self.mmc3.registers_snapshot();
        s.push(self.outer_reg);
        s
    }

    pub fn restore_registers(&mut self, data: &[u8])
        requires
            old(self).wf(),
        ensures
            final(self).restore_post(old(self), data@),
    {
        if data.len() == 0 {
            return;
        }
        let n = data.len() - 1;
        let head = slice_prefix(data, n);
        self.mmc3.restore_registers(head.as_slice());
        self.outer_reg = data[n];
    }

    pub fn reset(&mut self)
        requires
            old(self).wf(),
        ensures
            final(self).reset_post(old(self)),
    {
        self.mmc3.reset();
        self.outer_reg = 0;
    }

    pub fn cpu_cycle(&mut self)
        requires
            old(self).wf(),
        ensures
            final(self).cycle_post(old(self)),
    {
        self.mmc3.cpu_cycle();
    }

    pub fn ppu_address_changed(&mut self, addr: u16)
        requires
            old(self).wf(),
        ensures
            final(self).ppu_address_post(old(self), addr),
    {
        self.mmc3.ppu_address_changed(addr);
    }

    pub fn irq_pending(&self) -> (p: bool)
        ensures
            p == self.spec_irq_pending(),
    {
        self.mmc3.irq_pending
    }

    pub fn base(&self) -> (b: &BaseMapper)
        ensures
            *b == self.mmc3.base,
    {
        &self.mmc3.base
    }

    pub fn get_mirroring(&self) -> (m: NametableLayout)
        ensures
            m == self.spec_mirroring(),
    {
        self.mmc3.base.mirroring
    }

    pub fn capabilities(&self) -> (c: MapperCapabilities)
        ensures
            c == self.mmc3.base.capabilities,
    {
        self.mmc3.base.capabilities
    }

    pub fn mapper_number(&self) -> (n: u16)
        ensures
            n == MAPPER_NUMBER,
    {
        MAPPER_NUMBER
    }

    pub fn wram_size(&self) -> (n: usize)
        ensures
            n == self.mmc3.base.prg_ram@.len(),
    {
        self.mmc3.wram_size()
    }

    pub fn wram_snapshot(&self) -> (s: Vec<u8>)
        ensures
            s@ == self.mmc3.base.prg_ram@,
    {
        self.mmc3.wram_snapshot()
    }

    pub fn load_wram_snapshot(&mut self, data: &[u8])
        requires
            old(self).wf(),
        ensures
            final(self).wf(),
            final(self).outer_reg == old(self).outer_reg,
            final(self).mmc3.same_registers(&old(self).mmc3),
    {
        self.mmc3.load_wram_snapshot(data);
    }

    pub fn initialize_ram(&mut self, mode: crate::cartridge::RamInitMode)
        requires
            old(self).wf(),
        ensures
            final(self).wf(),
            final(self).outer_reg == old(self).outer_reg,
            final(self).mmc3.same_registers(&old(self).mmc3),
            final(self).mmc3.base.prg_ram@ == Seq::new(old(self).mmc3.base.prg_ram@.len(), |i: int| crate::cartridge::ram_init_byte(mode)),
    {
        self.mmc3.initialize_ram(mode);
    }
}

/// Restoring a board from its own snapshot brings back the outer register
/// and every MMC3 register.
/// The restored board then snapshots to the same bytes.
pub proof fn lemma_snapshot_roundtrip(m: Mapper344, before: Mapper344, restored: Mapper344)
    requires
        m.wf(),
        restored.restore_post(&before, m.snapshot()),
    ensures
        restored.outer_reg == m.outer_reg,
        restored.mmc3.bank_select == m.mmc3.bank_select,
        restored.mmc3.regs@ == m.mmc3.regs@,
        restored.mmc3.base.mirroring == m.mmc3.base.mirroring,
        restored.mmc3.irq_latch == m.mmc3.irq_latch,
        restored.mmc3.irq_counter == m.mmc3.irq_counter,
        restored.mmc3.irq_enabled == m.mmc3.irq_enabled,
        restored.mmc3.irq_pending == m.mmc3.irq_pending,
        restored.snapshot() == m.snapshot(),
{
    assert(m.snapshot().len() == crate::mmc3::SNAPSHOT_LEN + 1);
    assert(m.snapshot().drop_last() =~= m.mmc3.snapshot());
    crate::mmc3::lemma_snapshot_roundtrip(m.mmc3, before.mmc3, restored.mmc3);
}

} // verus!
