//! Mapper 44 - MMC3 7-in-1 multicart (Super HIK 7-in-1 and others).
//!
//! Bits 2:0 of every `$A001` write (the MMC3 PRG-RAM control) also select a
//! block (7 acts as 6). Banks are the MMC3 banks masked and offset per block:
//! PRG 8 KiB `(bank & $0F) | (block * $10)` and CHR 1 KiB
//! `(bank & $7F) | (block * $80)` for blocks 0-5, `(bank & $1F) | $60` and
//! `(bank & $FF) | $300` for block 6. PRG-RAM is 8 KiB.
use vstd::prelude::*;
use crate::cartridge::{NametableLayout, MapperCapabilities, MapperContext};
use crate::base_mapper::{BaseMapper, slice_prefix};
use crate::mmc3::{MMC3Mapper, SNAPSHOT_LEN};

verus! {

pub const MAPPER_NUMBER: u16 = 44;
pub const PRG_BANK_SIZE: usize = 0x2000;
pub const CHR_BANK_SIZE: usize = 0x0400;

/// Mapper 44 - BMC-GN-26.
pub struct Mapper44 {
    pub mmc3: MMC3Mapper,
    pub block: u8,
}

impl Mapper44 {
    pub open spec fn wf(&self) -> bool {
        &&& self.mmc3.wf()
        &&& self.block <= 7
    }

    pub open spec fn spec_effective_block(&self) -> u8 {
        if self.block >= 6 { 6 } else { self.block }
    }

    pub open spec fn spec_prg_and_or(&self) -> (usize, usize) {
        let b = self.spec_effective_block() as usize;
        if b < 6 { (0x0Fusize, (b * 0x10) as usize) } else { (0x1Fusize, 0x60usize) }
    }

    pub open spec fn spec_chr_and_or(&self) -> (usize, usize) {
        let b = self.spec_effective_block() as usize;
        if b < 6 { (0x7Fusize, (b * 0x80) as usize) } else { (0xFFusize, 0x300usize) }
    }

    /// The 8 KiB PRG bank shown at `addr` (`$8000-$FFFF`).
    pub open spec fn spec_mapped_prg_bank(&self, addr: u16) -> usize {
        let (and, or) = self.spec_prg_and_or();
        ((self.mmc3.spec_mapped_prg_bank(addr) as usize) & and) | or
    }

    /// The 1 KiB CHR bank shown at `addr`.
    pub open spec fn spec_mapped_chr_1k_bank(&self, addr: u16) -> usize {
        let (and, or) = self.spec_chr_and_or();
        ((self.mmc3.spec_mapped_chr_1k_bank(addr) as usize) & and) | or
    }

    pub open spec fn spec_read_prg(&self, addr: u16) -> u8 {
        if addr >= 0x8000 {
            self.mmc3.prg_byte(self.spec_mapped_prg_bank(addr) as nat, (addr & 0x1FFF) as nat)
        } else {
            self.mmc3.spec_read_prg(addr)
        }
    }

    pub open spec fn spec_read_chr(&self, addr: u16) -> u8 {
        self.mmc3.chr_byte(self.spec_mapped_chr_1k_bank(addr) as nat, (addr & 0x3FF) as nat)
    }

    pub open spec fn spec_read_prg_open_bus(&self, addr: u16, open_bus: u8) -> u8 {
        if addr >= 0x8000 {
            self.spec_read_prg(addr)
        } else {
            self.mmc3.spec_read_prg_open_bus(addr, open_bus)
        }
    }

    pub open spec fn read_ok(&self, addr: u16) -> bool {
        true
    }

    pub open spec fn spec_mirroring(&self) -> NametableLayout {
        self.mmc3.base.mirroring
    }

    pub open spec fn spec_irq_pending(&self) -> bool {
        self.mmc3.irq_pending
    }

    pub open spec fn write_post(&self, old: &Self, addr: u16, value: u8) -> bool {
        &&& self.wf()
        &&& self.block == (if addr & 0xE001 == 0xA001 {
            if value & 0x07 == 7 { 6 } else { value & 0x07 }
        } else {
            old.block
        })
        &&& self.mmc3.write_post(&old.mmc3, addr, value)
    }

    pub open spec fn write_chr_post(&self, old: &Self, addr: u16, value: u8) -> bool {
        &&& self.block == old.block
        &&& self.mmc3.chr_write_post(&old.mmc3, old.spec_mapped_chr_1k_bank(addr) as nat, (addr & 0x3FF) as nat, value)
    }

    pub open spec fn snapshot(&self) -> Seq<u8> {
        self.mmc3.snapshot().push(self.block)
    }

    pub open spec fn restore_post(&self, old: &Self, data: Seq<u8>) -> bool {
        if data.len() == 0 {
            *self == *old
        } else {
            &&& self.block == data.last() & 0x07
            &&& self.mmc3.restore_post(&old.mmc3, data.drop_last())
        }
    }

    /// A reset returns the MMC3 to power-on and keeps the block.
    pub open spec fn reset_post(&self, old: &Self) -> bool {
        &&& self.block == old.block
        &&& self.mmc3.reset_post(&old.mmc3)
    }

    pub open spec fn cycle_ok(&self) -> bool {
        true
    }

    pub open spec fn cycle_post(&self, old: &Self) -> bool {
        &&& self.block == old.block
        &&& self.mmc3.cycle_post(&old.mmc3)
    }

    pub open spec fn ppu_address_post(&self, old: &Self, addr: u16) -> bool {
        &&& self.block == old.block
        &&& self.mmc3.ppu_address_post(&old.mmc3, addr)
    }

    pub fn new(ctx: MapperContext) -> (m: Self)
        ensures
            m.wf(),
            m.block == 0,
            m.mmc3.base.prg_rom@ == ctx.prg_rom@,
            m.mmc3.base.chr_from(ctx.chr_rom@),
            m.mmc3.bank_select == 0,
            m.mmc3.regs@ == seq![0u8, 2, 4, 5, 6, 7, 0, 1],
            !m.mmc3.irq_pending,
            m.mmc3.base.capabilities == (MapperCapabilities { has_irq: true, has_expansion_audio: false, has_chr_banking: true, has_dynamic_mirroring: true, max_prg_ram_kb: 8, prg_bank_size_kb: 8, chr_bank_size_kb: 1 }),
    {
        let capabilities = MapperCapabilities {
            has_irq: true,
            has_expansion_audio: false,
            has_chr_banking: true,
            has_dynamic_mirroring: true,
            max_prg_ram_kb: 8,
            prg_bank_size_kb: 8,
            chr_bank_size_kb: 1,
        };
        let mmc3 = MMC3Mapper::new_with_irq_mode_and_prg_ram_banks(&ctx, capabilities, false, 1);
        Mapper44 { mmc3, block: 0 }
    }

    pub fn effective_block(&self) -> (b: u8)
        ensures
            b == self.spec_effective_block(),
    {
        if self.block >= 6 { 6 } else { self.block }
    }

    pub fn prg_and_or(&self) -> (r: (usize, usize))
        ensures
            r == self.spec_prg_and_or(),
    {
        let b = self.effective_block() as usize;
        if b < 6 { (0x0F, b * 0x10) } else { (0x1F, 0x60) }
    }

    pub fn chr_and_or(&self) -> (r: (usize, usize))
        ensures
            r == self.spec_chr_and_or(),
    {
        let b = self.effective_block() as usize;
        if b < 6 { (0x7F, b * 0x80) } else { (0xFF, 0x300) }
    }

    pub fn prg_bank_for_addr(&self, addr: u16) -> (b: usize)
        requires
            self.wf(),
            addr >= 0x8000,
        ensures
            b == self.spec_mapped_prg_bank(addr),
    {
        let raw = self.mmc3.mapped_prg_bank(addr);
        let (and, or) = self.prg_and_or();
        (raw & and) | or
    }

    pub fn chr_bank_for_addr(&self, addr: u16) -> (b: usize)
        requires
            self.wf(),
        ensures
            b == self.spec_mapped_chr_1k_bank(addr),
    {
        let raw = self.mmc3.mapped_chr_1k_bank(addr);
        let (and, or) = self.chr_and_or();
        (raw & and) | or
    }

    pub fn read_prg(&self, addr: u16) -> (v: u8)
        requires
            self.wf(),
        ensures
            v == self.spec_read_prg(addr),
    {
        if addr >= 0x8000 {
            let bank = self.prg_bank_for_addr(addr);
            proof { crate::bits::lemma_addr_fields(addr); }
            self.mmc3.read_prg_at_bank(bank, (addr & 0x1FFF) as usize)
        } else {
            self.mmc3.read_prg(addr)
        }
    }

    /// `read_prg` at `$8000-$FFFF`; `open_bus` elsewhere.
    pub fn read_prg_open_bus(&self, addr: u16, open_bus: u8) -> (v: u8)
        requires
            self.wf(),
        ensures
            v == self.spec_read_prg_open_bus(addr, open_bus),
    {
        if addr >= 0x8000 {
            self.read_prg(addr)
        } else {
            self.mmc3.read_prg_open_bus(addr, open_bus)
        }
    }

    pub fn write_prg(&mut self, addr: u16, value: u8)
        requires
            old(self).wf(),
        ensures
            final(self).write_post(old(self), addr, value),
    {
        if (addr & 0xE001) == 0xA001 {
            proof { crate::bits::lemma_byte_fields(value); }
            self.block = value & 0x07;
            if self.block == 7 {
                self.block = 6;
            }
        }
        self.mmc3.write_prg(addr, value);
    }

    pub fn read_chr(&self, addr: u16) -> (v: u8)
        requires
            self.wf(),
        ensures
            v == self.spec_read_chr(addr),
    {
        let bank = self.chr_bank_for_addr(addr);
        proof { crate::bits::lemma_addr_fields(addr); }
        self.mmc3.read_chr_1k_at(bank, (addr & 0x3FF) as usize)
    }

    pub fn write_chr(&mut self, addr: u16, value: u8)
        requires
            old(self).wf(),
        ensures
            final(self).write_chr_post(old(self), addr, value),
    {
        let bank = self.chr_bank_for_addr(addr);
        proof { crate::bits::lemma_addr_fields(addr); }
        self.mmc3.write_chr_1k_at(bank, (addr & 0x3FF) as usize, value);
    }

    pub fn registers_snapshot(&self) -> (s: Vec<u8>)
        requires
            self.wf(),
        ensures
            s@ == self.snapshot(),
    {
        let mut s = self.mmc3.registers_snapshot();
        s.push(self.block);
        s
    }

    pub fn restore_registers(&mut self, data: &[u8])
        requires
            old(self).wf(),
        ensures
            final(self).restore_post(old(self), data@),
    {
        if data.len() == 0 {
            return;
        }
        let n = data.len() - 1;
        let head = slice_prefix(data, n);
        proof { crate::bits::lemma_byte_fields(data@[n as int]); }
        self.block = data[n] & 0x07;
        self.mmc3.restore_registers(head.as_slice());
    }

    pub fn reset(&mut self)
        requires
            old(self).wf(),
        ensures
            final(self).reset_post(old(self)),
    {
        self.mmc3.reset();
    }

    pub fn cpu_cycle(&mut self)
        requires
            old(self).wf(),
        ensures
            final(self).cycle_post(old(self)),
    {
        self.mmc3.cpu_cycle();
    }

    pub fn ppu_address_changed(&mut self, addr: u16)
        requires
            old(self).wf(),
        ensures
            final(self).ppu_address_post(old(self), addr),
    {
        self.mmc3.ppu_address_changed(addr);
    }

    pub fn irq_pending(&self) -> (p: bool)
        ensures
            p == self.spec_irq_pending(),
    {
        self.mmc3.irq_pending
    }

    pub fn base(&self) -> (b: &BaseMapper)
        ensures
            *b == self.mmc3.base,
    {
        &self.mmc3.base
    }

    pub fn get_mirroring(&self) -> (m: NametableLayout)
        ensures
            m == self.spec_mirroring(),
    {
        self.mmc3.base.mirroring
    }

    pub fn capabilities(&self) -> (c: MapperCapabilities)
        ensures
            c == self.mmc3.base.capabilities,
    {
        self.mmc3.base.capabilities
    }

    pub fn mapper_number(&self) -> (n: u16)
        ensures
            n == MAPPER_NUMBER,
    {
        MAPPER_NUMBER
    }

    /// The board carries 8 KiB of PRG-RAM.
    pub fn wram_size(&self) -> (n: usize)
        ensures
            n == 8 * 1024,
    {
        8 * 1024
    }

    pub fn wram_snapshot(&self) -> (s: Vec<u8>)
        ensures
            s@ == self.mmc3.base.prg_ram@,
    {
        self.mmc3.wram_snapshot()
    }

    pub fn load_wram_snapshot(&mut self, data: &[u8])
        requires
            old(self).wf(),
        ensures
            final(self).wf(),
            final(self).block == old(self).block,
            final(self).mmc3.same_registers(&old(self).mmc3),
    {
        self.mmc3.load_wram_snapshot(data);
    }

    pub fn initialize_ram(&mut self, mode: crate::cartridge::RamInitMode)
        requires
            old(self).wf(),
        ensures
            final(self).wf(),
            final(self).block == old(self).block,
            final(self).mmc3.same_registers(&old(self).mmc3),
            final(self).mmc3.base.prg_ram@ == Seq::new(old(self).mmc3.base.prg_ram@.len(), |i: int| crate::cartridge::ram_init_byte(mode)),
    {
        self.mmc3.initialize_ram(mode);
    }
}

/// Restoring a board from its own snapshot brings back the outer register
/// and every MMC3 register.
/// The restored board then snapshots to the same bytes.
pub proof fn lemma_snapshot_roundtrip(m: Mapper44, before: Mapper44, restored: Mapper44)
    requires
        m.wf(),
        restored.restore_post(&before, m.snapshot()),
    ensures
        restored.block == m.block,
        restored.mmc3.bank_select == m.mmc3.bank_select,
        restored.mmc3.regs@ == m.mmc3.regs@,
        restored.mmc3.base.mirroring == m.mmc3.base.mirroring,
        restored.mmc3.irq_latch == m.mmc3.irq_latch,
        restored.mmc3.irq_counter == m.mmc3.irq_counter,
        restored.mmc3.irq_enabled == m.mmc3.irq_enabled,
        restored.mmc3.irq_pending == m.mmc3.irq_pending,
        restored.snapshot() == m.snapshot(),
{
    crate::bits::lemma_byte_fields(m.block);
    assert(m.snapshot().len() == crate::mmc3::SNAPSHOT_LEN + 1);
    assert(m.snapshot().drop_last() =~= m.mmc3.snapshot());
    crate::mmc3::lemma_snapshot_roundtrip(m.mmc3, before.mmc3, restored.mmc3);
}

} // verus!
