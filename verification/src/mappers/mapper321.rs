//! Mapper 321 - BMC-820310-C: an MMC3 multicart whose outer register is
//! the low byte of the address of a `$6000-$7FFF` write.
//!
//! Outer register bits 5:4 (PP) are outer bank bits and bit 3 (M) selects
//! NROM-256 mode. PRG 8 KiB bank: `(PP << 4) | (mmc3_page & $0F)`, or in
//! NROM-256 mode `(PP << 2) | slot`. CHR 1 KiB bank: `(PP << 7) | (mmc3_bank & $7F)`.
//! The write itself still reaches the MMC3 PRG-RAM (8 KiB, `$A001` controlled).
use vstd::prelude::*;
use crate::cartridge::{NametableLayout, MapperCapabilities, MapperContext};
use crate::base_mapper::{BaseMapper, slice_prefix};
use crate::mmc3::{MMC3Mapper, SNAPSHOT_LEN};

verus! {

pub const MAPPER_NUMBER: u16 = 321;
pub const PRG_BANK_SIZE: usize = 0x2000;
pub const CHR_BANK_SIZE: usize = 0x0400;

/// Mapper 321 - BMC-820310-C.
pub struct Mapper321 {
    pub mmc3: MMC3Mapper,
    /// Address low byte of the last `$6000-$7FFF` write.
    pub ex_reg: u8,
}

impl Mapper321 {
    pub open spec fn wf(&self) -> bool {
        self.mmc3.wf()
    }

    pub open spec fn spec_pp(&self) -> usize {
        ((self.ex_reg >> 4) & 0x03) as usize
    }

    pub open spec fn spec_nrom_mode(&self) -> bool {
        self.ex_reg & 0x08 != 0
    }

    /// The 8 KiB PRG bank shown at `addr` (`$8000-$FFFF`).
    pub open spec fn spec_mapped_prg_bank(&self, addr: u16) -> usize {
        let pp = self.spec_pp();
        if self.spec_nrom_mode() {
            let slot = ((addr - 0x8000) as usize) >> 13;
            (pp << 2) | (slot & 0x03)
        } else {
            (pp << 4) | ((self.mmc3.spec_raw_prg_page(addr) as usize) & 0x0F)
        }
    }

    /// The 1 KiB CHR bank shown at `addr`.
    pub open spec fn spec_mapped_chr_1k_bank(&self, addr: u16) -> usize {
        (self.spec_pp() << 7) | ((self.mmc3.spec_mapped_chr_1k_bank(addr) as usize) & 0x7F)
    }

    pub open spec fn spec_read_prg(&self, addr: u16) -> u8 {
        if addr >= 0x8000 {
            self.mmc3.prg_byte(self.spec_mapped_prg_bank(addr) as nat, (addr & 0x1FFF) as nat)
        } else if addr >= 0x6000 {
            self.mmc3.spec_read_prg(addr)
        } else {
            0
        }
    }

    pub open spec fn spec_read_chr(&self, addr: u16) -> u8 {
        self.mmc3.chr_byte(self.spec_mapped_chr_1k_bank(addr) as nat, (addr & 0x3FF) as nat)
    }

    pub open spec fn spec_read_prg_open_bus(&self, addr: u16, open_bus: u8) -> u8 {
        if addr >= 0x8000 {
            self.spec_read_prg(addr)
        } else if addr >= 0x6000 {
            self.mmc3.spec_read_prg_open_bus(addr, open_bus)
        } else {
            open_bus
        }
    }

    pub open spec fn read_ok(&self, addr: u16) -> bool {
        true
    }

    pub open spec fn spec_mirroring(&self) -> NametableLayout {
        self.mmc3.base.mirroring
    }

    pub open spec fn spec_irq_pending(&self) -> bool {
        self.mmc3.irq_pending
    }

    pub open spec fn write_post(&self, old: &Self, addr: u16, value: u8) -> bool {
        if 0x6000 <= addr < 0x8000 {
            &&& self.ex_reg == (addr & 0xFF) as u8
            &&& self.mmc3.write_post(&old.mmc3, addr, value)
        } else if addr >= 0x8000 {
            &&& self.wf()
            &&& self.ex_reg == old.ex_reg
            &&& self.mmc3.write_post(&old.mmc3, addr, value)
        } else {
            *self == *old
        }
    }

    pub open spec fn write_chr_post(&self, old: &Self, addr: u16, value: u8) -> bool {
        let count = old.mmc3.chr_count();
        let bank = old.spec_mapped_chr_1k_bank(addr) as nat;
        &&& self.ex_reg == old.ex_reg
        &&& self.mmc3.chr_write_post(&old.mmc3, if count > 0 { bank % count } else { 0 }, (addr & 0x3FF) as nat, value)
    }

    pub open spec fn snapshot(&self) -> Seq<u8> {
        self.mmc3.snapshot().push(self.ex_reg)
    }

    /// With at least 17 bytes the last is the outer register and the rest
    /// goes to the MMC3; shorter data goes to the MMC3 whole and clears the
    /// outer register.
    pub open spec fn restore_post(&self, old: &Self, data: Seq<u8>) -> bool {
        if data.len() >= 17 {
            &&& self.ex_reg == data.last()
            &&& self.mmc3.restore_post(&old.mmc3, data.drop_last())
        } else {
            &&& self.ex_reg == 0
            &&& self.mmc3.restore_post(&old.mmc3, data)
        }
    }

    pub open spec fn reset_post(&self, old: &Self) -> bool {
        &&& self.ex_reg == 0
        &&& self.mmc3.reset_post(&old.mmc3)
    }

    pub open spec fn cycle_ok(&self) -> bool {
        true
    }

    pub open spec fn cycle_post(&self, old: &Self) -> bool {
        &&& self.ex_reg == old.ex_reg
        &&& self.mmc3.cycle_post(&old.mmc3)
    }

    pub open spec fn ppu_address_post(&self, old: &Self, addr: u16) -> bool {
        &&& self.ex_reg == old.ex_reg
        &&& self.mmc3.ppu_address_post(&old.mmc3, addr)
    }

    pub fn new(ctx: MapperContext) -> (m: Self)
        ensures
            m.wf(),
            m.ex_reg == 0,
            m.mmc3.base.prg_rom@ == ctx.prg_rom@,
            m.mmc3.base.chr_from(ctx.chr_rom@),
            m.mmc3.bank_select == 0,
            m.mmc3.regs@ == seq![0u8, 2, 4, 5, 6, 7, 0, 1],
            !m.mmc3.irq_pending,
            m.mmc3.base.capabilities == (MapperCapabilities { has_irq: true, has_expansion_audio: false, has_chr_banking: true, has_dynamic_mirroring: true, max_prg_ram_kb: 8, prg_bank_size_kb: 8, chr_bank_size_kb: 1 }),
    {
        let capabilities = MapperCapabilities {
            has_irq: true,
            has_expansion_audio: false,
            has_chr_banking: true,
            has_dynamic_mirroring: true,
            max_prg_ram_kb: 8,
            prg_bank_size_kb: 8,
            chr_bank_size_kb: 1,
        };
        let mmc3 = MMC3Mapper::new_with_irq_mode_and_prg_ram_banks(&ctx, capabilities, false, 1);
        Mapper321 { mmc3, ex_reg: 0 }
    }

    pub fn pp(&self) -> (p: usize)
        ensures
            p == self.spec_pp(),
            p <= 3,
    {
        let r = self.ex_reg;
        proof { crate::bits::lemma_byte_fields(r >> 4); }
        ((self.ex_reg >> 4) & 0x03) as usize
    }

    pub fn nrom_mode(&self) -> (b: bool)
        ensures
            b == self.spec_nrom_mode(),
    {
        (self.ex_reg & 0x08) != 0
    }

    pub fn prg_bank_for_addr(&self, addr: u16) -> (b: usize)
        requires
            self.wf(),
            addr >= 0x8000,
        ensures
            b == self.spec_mapped_prg_bank(addr),
    {
        let pp = self.pp();
        if self.nrom_mode() {
            let slot = ((addr - 0x8000) as usize) >> 13;
            (pp << 2) | (slot & 0x03)
        } else {
            let mmc3_page = self.mmc3.raw_prg_8k_page_number(addr) as usize;
            (pp << 4) | (mmc3_page & 0x0F)
        }
    }

    pub fn chr_bank_for_addr(&self, addr: u16) -> (b: usize)
        requires
            self.wf(),
        ensures
            b == self.spec_mapped_chr_1k_bank(addr),
    {
        let pp = self.pp();
        let inner = self.mmc3.raw_chr_1k_bank(addr);
        (pp << 7) | (inner & 0x7F)
    }

    pub fn read_prg(&self, addr: u16) -> (v: u8)
        requires
            self.wf(),
        ensures
            v == self.spec_read_prg(addr),
    {
        if addr >= 0x8000 {
            let bank = self.prg_bank_for_addr(addr);
            proof { crate::bits::lemma_addr_fields(addr); }
            self.mmc3.read_prg_at_bank(bank, (addr & 0x1FFF) as usize)
        } else if addr >= 0x6000 {
            self.mmc3.read_prg(addr)
        } else {
            0
        }
    }

    /// `read_prg` at `$8000-$FFFF`; `open_bus` elsewhere.
    pub fn read_prg_open_bus(&self, addr: u16, open_bus: u8) -> (v: u8)
        requires
            self.wf(),
        ensures
            v == self.spec_read_prg_open_bus(addr, open_bus),
    {
        if addr >= 0x8000 {
            self.read_prg(addr)
        } else if addr >= 0x6000 {
            self.mmc3.read_prg_open_bus(addr, open_bus)
        } else {
            open_bus
        }
    }

    pub fn write_prg(&mut self, addr: u16, value: u8)
        requires
            old(self).wf(),
        ensures
            final(self).write_post(old(self), addr, value),
    {
        if 0x6000 <= addr && addr < 0x8000 {
            self.ex_reg = (addr & 0xFF) as u8;
            self.mmc3.write_prg(addr, value);
        } else if addr >= 0x8000 {
            self.mmc3.write_prg(addr, value);
        }
    }

    pub fn read_chr(&self, addr: u16) -> (v: u8)
        requires
            self.wf(),
        ensures
            v == self.spec_read_chr(addr),
    {
        let bank = self.chr_bank_for_addr(addr);
        let count = self.mmc3.chr_bank_count_1k();
        let wrapped = if count > 0 { bank % count } else { 0 };
        proof {
            crate::bits::lemma_addr_fields(addr);
            if count > 0 {
                vstd::arithmetic::div_mod::lemma_mod_twice(bank as int, count as int);
            }
        }
        self.mmc3.read_chr_1k_at(wrapped, (addr & 0x3FF) as usize)
    }

    pub fn write_chr(&mut self, addr: u16, value: u8)
        requires
            old(self).wf(),
        ensures
            final(self).write_chr_post(old(self), addr, value),
    {
        let bank = self.chr_bank_for_addr(addr);
        let count = self.mmc3.chr_bank_count_1k();
        let wrapped = if count > 0 { bank % count } else { 0 };
        proof { crate::bits::lemma_addr_fields(addr); }
        self.mmc3.write_chr_1k_at(wrapped, (addr & 0x3FF) as usize, value);
    }

    pub fn registers_snapshot(&self) -> (s: Vec<u8>)
        requires
            self.wf(),
        ensures
            s@ == self.snapshot(),
    {
        let mut s = self.mmc3.registers_snapshot();
        s.push(self.ex_reg);
        s
    }

    pub fn restore_registers(&mut self, data: &[u8])
        requires
            old(self).wf(),
        ensures
            final(self).restore_post(old(self), data@),
    {
        if data.len() >= 17 {
            let n = data.len() - 1;
            self.ex_reg = data[n];
            let head = slice_prefix(data, n);
            self.mmc3.restore_registers(head.as_slice());
        } else {
            self.mmc3.restore_registers(data);
            self.ex_reg = 0;
        }
    }

    pub fn reset(&mut self)
        requires
            old(self).wf(),
        ensures
            final(self).reset_post(old(self)),
    {
        self.mmc3.reset();
        self.ex_reg = 0;
    }

    pub fn cpu_cycle(&mut self)
        requires
            old(self).wf(),
        ensures
            final(self).cycle_post(old(self)),
    {
        self.mmc3.cpu_cycle();
    }

    pub fn ppu_address_changed(&mut self, addr: u16)
        requires
            old(self).wf(),
        ensures
            final(self).ppu_address_post(old(self), addr),
    {
        self.mmc3.ppu_address_changed(addr);
    }

    pub fn irq_pending(&self) -> (p: bool)
        ensures
            p == self.spec_irq_pending(),
    {
        self.mmc3.irq_pending
    }

    pub fn base(&self) -> (b: &BaseMapper)
        ensures
            *b == self.mmc3.base,
    {
        &self.mmc3.base
    }

    pub fn get_mirroring(&self) -> (m: NametableLayout)
        ensures
            m == self.spec_mirroring(),
    {
        self.mmc3.base.mirroring
    }

    pub fn capabilities(&self) -> (c: MapperCapabilities)
        ensures
            c == self.mmc3.base.capabilities,
    {
        self.mmc3.base.capabilities
    }

    pub fn mapper_number(&self) -> (n: u16)
        ensures
            n == MAPPER_NUMBER,
    {
        MAPPER_NUMBER
    }

    pub fn wram_size(&self) -> (n: usize)
        ensures
            n == self.mmc3.base.prg_ram@.len(),
    {
        self.mmc3.wram_size()
    }

    pub fn wram_snapshot(&self) -> (s: Vec<u8>)
        ensures
            s@ == self.mmc3.base.prg_ram@,
    {
        self.mmc3.wram_snapshot()
    }

    pub fn load_wram_snapshot(&mut self, data: &[u8])
        requires
            old(self).wf(),
        ensures
            final(self).wf(),
            final(self).ex_reg == old(self).ex_reg,
            final(self).mmc3.same_registers(&old(self).mmc3),
    {
        self.mmc3.load_wram_snapshot(data);
    }

    pub fn initialize_ram(&mut self, mode: crate::cartridge::RamInitMode)
        requires
            old(self).wf(),
        ensures
            final(self).wf(),
            final(self).ex_reg == old(self).ex_reg,
            final(self).mmc3.same_registers(&old(self).mmc3),
            final(self).mmc3.base.prg_ram@ == Seq::new(old(self).mmc3.base.prg_ram@.len(), |i: int| crate::cartridge::ram_init_byte(mode)),
    {
        self.mmc3.initialize_ram(mode);
    }
}

/// Restoring a board from its own snapshot brings back the outer register
/// and every MMC3 register.
/// The restored board then snapshots to the same bytes.
pub proof fn lemma_snapshot_roundtrip(m: Mapper321, before: Mapper321, restored: Mapper321)
    requires
        m.wf(),
        restored.restore_post(&before, m.snapshot()),
    ensures
        restored.ex_reg == m.ex_reg,
        restored.mmc3.bank_select == m.mmc3.bank_select,
        restored.mmc3.regs@ == m.mmc3.regs@,
        restored.mmc3.base.mirroring == m.mmc3.base.mirroring,
        restored.mmc3.irq_latch == m.mmc3.irq_latch,
        restored.mmc3.irq_counter == m.mmc3.irq_counter,
        restored.mmc3.irq_enabled == m.mmc3.irq_enabled,
        restored.mmc3.irq_pending == m.mmc3.irq_pending,
        restored.snapshot() == m.snapshot(),
{
    assert(m.snapshot().len() == crate::mmc3::SNAPSHOT_LEN + 1);
    assert(m.snapshot().drop_last() =~= m.mmc3.snapshot());
    crate::mmc3::lemma_snapshot_roundtrip(m.mmc3, before.mmc3, restored.mmc3);
}

} // verus!
