//! Mapper 348 - BMC-830118-C: an MMC3 with an outer register at `$6800-$68FF`.
//!
//! Outer bits 3:2 extend the banks: CHR 1 KiB bank `(outer[3:2] << 5) |
//! (mmc3_bank & $7F)`, PRG 8 KiB bank `(outer[3:2] << 2) | (mmc3_page & $0F)`.
//! With both bits set, `$8000`/`$A000` keep that rule while `$C000` and
//! `$E000` show `$32 | (page & $0F)` of the pages at `$8000` and `$A000`.
//! The board's PRG-RAM is not reachable.
use vstd::prelude::*;
use crate::cartridge::{NametableLayout, MapperCapabilities, MapperContext};
use crate::base_mapper::{BaseMapper, slice_prefix};
use crate::mmc3::{MMC3Mapper, SNAPSHOT_LEN};

verus! {

pub const MAPPER_NUMBER: u16 = 348;
pub const PRG_BANK_SIZE: usize = 0x2000;
pub const CHR_BANK_SIZE: usize = 0x0400;

/// Mapper 348 - BMC-GN-26.
pub struct Mapper348 {
    pub mmc3: MMC3Mapper,
    pub outer_reg: u8,
}

impl Mapper348 {
    pub open spec fn wf(&self) -> bool {
        self.mmc3.wf()
    }

    pub open spec fn spec_outer_bank_high_bits(&self) -> usize {
        (self.outer_reg as usize) & 0x0C
    }

    pub open spec fn spec_special_mode(&self) -> bool {
        self.spec_outer_bank_high_bits() == 0x0C
    }

    pub open spec fn spec_apply_prg_outer_bits(&self, raw_8k_page: u8) -> usize {
        (self.spec_outer_bank_high_bits() << 2) | ((raw_8k_page as usize) & 0x0F)
    }

    pub open spec fn spec_forced_special_mode_prg_bank(&self, source_window_addr: u16) -> usize {
        0x32usize | ((self.mmc3.spec_raw_prg_page(source_window_addr) as usize) & 0x0F)
    }

    /// The 8 KiB PRG bank shown at `addr` (`$8000-$FFFF`).
    pub open spec fn spec_mapped_prg_bank(&self, addr: u16) -> usize {
        if self.spec_special_mode() {
            if addr < 0xA000 {
                self.spec_apply_prg_outer_bits(self.mmc3.spec_raw_prg_page(0x8000))
            } else if addr < 0xC000 {
                self.spec_apply_prg_outer_bits(self.mmc3.spec_raw_prg_page(0xA000))
            } else if addr < 0xE000 {
                self.spec_forced_special_mode_prg_bank(0x8000)
            } else {
                self.spec_forced_special_mode_prg_bank(0xA000)
            }
        } else {
            self.spec_apply_prg_outer_bits(self.mmc3.spec_raw_prg_page(addr))
        }
    }

    /// The 1 KiB CHR bank shown at `addr`.
    pub open spec fn spec_mapped_chr_1k_bank(&self, addr: u16) -> usize {
        (self.spec_outer_bank_high_bits() << 5) | ((self.mmc3.spec_mapped_chr_1k_bank(addr) as usize) & 0x7F)
    }

    pub open spec fn spec_read_prg(&self, addr: u16) -> u8 {
        if addr >= 0x8000 {
            self.mmc3.prg_byte(self.spec_mapped_prg_bank(addr) as nat, (addr & 0x1FFF) as nat)
        } else {
            0
        }
    }

    pub open spec fn spec_read_chr(&self, addr: u16) -> u8 {
        self.mmc3.chr_byte(self.spec_mapped_chr_1k_bank(addr) as nat, (addr & 0x3FF) as nat)
    }

    pub open spec fn spec_read_prg_open_bus(&self, addr: u16, open_bus: u8) -> u8 {
        if addr >= 0x8000 { self.spec_read_prg(addr) } else { open_bus }
    }

    pub open spec fn read_ok(&self, addr: u16) -> bool {
        true
    }

    pub open spec fn spec_mirroring(&self) -> NametableLayout {
        self.mmc3.base.mirroring
    }

    pub open spec fn spec_irq_pending(&self) -> bool {
        self.mmc3.irq_pending
    }

    pub open spec fn write_post(&self, old: &Self, addr: u16, value: u8) -> bool {
        if 0x6800 <= addr <= 0x68FF {
            *self == (Mapper348 { outer_reg: value, ..*old })
        } else if addr >= 0x8000 {
            &&& self.wf()
            &&& self.outer_reg == old.outer_reg
            &&& self.mmc3.write_post(&old.mmc3, addr, value)
        } else {
            *self == *old
        }
    }

    pub open spec fn write_chr_post(&self, old: &Self, addr: u16, value: u8) -> bool {
        &&& self.outer_reg == old.outer_reg
        &&& self.mmc3.chr_write_post(&old.mmc3, old.spec_mapped_chr_1k_bank(addr) as nat, (addr & 0x3FF) as nat, value)
    }

    pub open spec fn snapshot(&self) -> Seq<u8> {
        self.mmc3.snapshot().push(self.outer_reg)
    }

    pub open spec fn restore_post(&self, old: &Self, data: Seq<u8>) -> bool {
        if data.len() == 0 {
            *self == *old
        } else {
            &&& self.outer_reg == data.last()
            &&& self.mmc3.restore_post(&old.mmc3, data.drop_last())
        }
    }

    pub open spec fn reset_post(&self, old: &Self) -> bool {
        &&& self.outer_reg == 0
        &&& self.mmc3.reset_post(&old.mmc3)
    }

    pub open spec fn cycle_ok(&self) -> bool {
        true
    }

    pub open spec fn cycle_post(&self, old: &Self) -> bool {
        &&& self.outer_reg == old.outer_reg
        &&& self.mmc3.cycle_post(&old.mmc3)
    }

    pub open spec fn ppu_address_post(&self, old: &Self, addr: u16) -> bool {
        &&& self.outer_reg == old.outer_reg
        &&& self.mmc3.ppu_address_post(&old.mmc3, addr)
    }

    pub fn new(ctx: MapperContext) -> (m: Self)
        ensures
            m.wf(),
            m.outer_reg == 0,
            m.mmc3.base.prg_rom@ == ctx.prg_rom@,
            m.mmc3.base.chr_from(ctx.chr_rom@),
            m.mmc3.bank_select == 0,
            m.mmc3.regs@ == seq![0u8, 2, 4, 5, 6, 7, 0, 1],
            !m.mmc3.irq_pending,
            m.mmc3.base.capabilities == (MapperCapabilities { has_irq: true, has_expansion_audio: false, has_chr_banking: true, has_dynamic_mirroring: true, max_prg_ram_kb: 0, prg_bank_size_kb: 8, chr_bank_size_kb: 1 }),
    {
        let capabilities = MapperCapabilities {
            has_irq: true,
            has_expansion_audio: false,
            has_chr_banking: true,
            has_dynamic_mirroring: true,
            max_prg_ram_kb: 0,
            prg_bank_size_kb: 8,
            chr_bank_size_kb: 1,
        };
        let mmc3 = MMC3Mapper::new_with_irq_mode_and_prg_ram_banks(&ctx, capabilities, false, 0);
        Mapper348 { mmc3, outer_reg: 0 }
    }

    pub fn outer_bank_high_bits(&self) -> (b: usize)
        ensures
            b == self.spec_outer_bank_high_bits(),
            b <= 0x0C,
    {
        let r = self.outer_reg as usize;
        proof { crate::bits::lemma_usize_fields(r); }
        r & 0x0C
    }

    pub fn special_mode(&self) -> (b: bool)
        ensures
            b == self.spec_special_mode(),
    {
        self.outer_bank_high_bits() == 0x0C
    }

    pub fn apply_prg_outer_bits(&self, raw_8k_page: u8) -> (b: usize)
        ensures
            b == self.spec_apply_prg_outer_bits(raw_8k_page),
    {
        (self.outer_bank_high_bits() << 2) | ((raw_8k_page as usize) & 0x0F)
    }

    pub fn forced_special_mode_prg_bank(&self, source_window_addr: u16) -> (b: usize)
        requires
            self.wf(),
        ensures
            b == self.spec_forced_special_mode_prg_bank(source_window_addr),
    {
        0x32 | ((self.mmc3.raw_prg_8k_page_number(source_window_addr) as usize) & 0x0F)
    }

    pub fn prg_bank_for_addr(&self, addr: u16) -> (b: usize)
        requires
            self.wf(),
            addr >= 0x8000,
        ensures
            b == self.spec_mapped_prg_bank(addr),
    {
        if self.special_mode() {
            if addr < 0xA000 {
                self.apply_prg_outer_bits(self.mmc3.raw_prg_8k_page_number(0x8000))
            } else if addr < 0xC000 {
                self.apply_prg_outer_bits(self.mmc3.raw_prg_8k_page_number(0xA000))
            } else if addr < 0xE000 {
                self.forced_special_mode_prg_bank(0x8000)
            } else {
                self.forced_special_mode_prg_bank(0xA000)
            }
        } else {
            self.apply_prg_outer_bits(self.mmc3.raw_prg_8k_page_number(addr))
        }
    }

    pub fn chr_bank_for_addr(&self, addr: u16) -> (b: usize)
        requires
            self.wf(),
        ensures
            b == self.spec_mapped_chr_1k_bank(addr),
    {
        (self.outer_bank_high_bits() << 5) | (self.mmc3.raw_chr_1k_bank(addr) & 0x7F)
    }

    pub fn read_prg(&self, addr: u16) -> (v: u8)
        requires
            self.wf(),
        ensures
            v == self.spec_read_prg(addr),
    {
        if addr >= 0x8000 {
            let bank = self.prg_bank_for_addr(addr);
            proof { crate::bits::lemma_addr_fields(addr); }
            self.mmc3.read_prg_at_bank(bank, (addr & 0x1FFF) as usize)
        } else {
            0
        }
    }

    /// `read_prg` at `$8000-$FFFF`; `open_bus` elsewhere.
    pub fn read_prg_open_bus(&self, addr: u16, open_bus: u8) -> (v: u8)
        requires
            self.wf(),
        ensures
            v == self.spec_read_prg_open_bus(addr, open_bus),
    {
        if addr >= 0x8000 { self.read_prg(addr) } else { open_bus }
    }

    pub fn write_prg(&mut self, addr: u16, value: u8)
        requires
            old(self).wf(),
        ensures
            final(self).write_post(old(self), addr, value),
    {
        if 0x6800 <= addr && addr <= 0x68FF {
            self.outer_reg = value;
        } else if addr >= 0x8000 {
            self.mmc3.write_prg(addr, value);
        }
    }

    pub fn read_chr(&self, addr: u16) -> (v: u8)
        requires
            self.wf(),
        ensures
            v == self.spec_read_chr(addr),
    {
        let bank = self.chr_bank_for_addr(addr);
        proof { crate::bits::lemma_addr_fields(addr); }
        self.mmc3.read_chr_1k_at(bank, (addr & 0x3FF) as usize)
    }

    pub fn write_chr(&mut self, addr: u16, value: u8)
        requires
            old(self).wf(),
        ensures
            final(self).write_chr_post(old(self), addr, value),
    {
        let bank = self.chr_bank_for_addr(addr);
        proof { crate::bits::lemma_addr_fields(addr); }
        self.mmc3.write_chr_1k_at(bank, (addr & 0x3FF) as usize, value);
    }

    pub fn registers_snapshot(&self) -> (s: Vec<u8>)
        requires
            self.wf(),
        ensures
            s@ == self.snapshot(),
    {
        let mut s = self.mmc3.registers_snapshot();
        s.push(self.outer_reg);
        s
    }

    pub fn restore_registers(&mut self, data: &[u8])
        requires
            old(self).wf(),
        ensures
            final(self).restore_post(old(self), data@),
    {
        if data.len() == 0 {
            return;
        }
        let n = data.len() - 1;
        let head = slice_prefix(data, n);
        self.mmc3.restore_registers(head.as_slice());
        self.outer_reg = data[n];
    }

    pub fn reset(&mut self)
        requires
            old(self).wf(),
        ensures
            final(self).reset_post(old(self)),
    {
        self.mmc3.reset();
        self.outer_reg = 0;
    }

    pub fn cpu_cycle(&mut self)
        requires
            old(self).wf(),
        ensures
            final(self).cycle_post(old(self)),
    {
        self.mmc3.cpu_cycle();
    }

    pub fn ppu_address_changed(&mut self, addr: u16)
        requires
            old(self).wf(),
        ensures
            final(self).ppu_address_post(old(self), addr),
    {
        self.mmc3.ppu_address_changed(addr);
    }

    pub fn irq_pending(&self) -> (p: bool)
        ensures
            p == self.spec_irq_pending(),
    {
        self.mmc3.irq_pending
    }

    pub fn base(&self) -> (b: &BaseMapper)
        ensures
            *b == self.mmc3.base,
    {
        &self.mmc3.base
    }

    pub fn get_mirroring(&self) -> (m: NametableLayout)
        ensures
            m == self.spec_mirroring(),
    {
        self.mmc3.base.mirroring
    }

    pub fn capabilities(&self) -> (c: MapperCapabilities)
        ensures
            c == self.mmc3.base.capabilities,
    {
        self.mmc3.base.capabilities
    }

    pub fn mapper_number(&self) -> (n: u16)
        ensures
            n == MAPPER_NUMBER,
    {
        MAPPER_NUMBER
    }

    pub fn wram_size(&self) -> (n: usize)
        ensures
            n == self.mmc3.base.prg_ram@.len(),
    {
        self.mmc3.wram_size()
    }

    pub fn wram_snapshot(&self) -> (s: Vec<u8>)
        ensures
            s@ == self.mmc3.base.prg_ram@,
    {
        self.mmc3.wram_snapshot()
    }

    pub fn load_wram_snapshot(&mut self, data: &[u8])
        requires
            old(self).wf(),
        ensures
            final(self).wf(),
            final(self).outer_reg == old(self).outer_reg,
            final(self).mmc3.same_registers(&old(self).mmc3),
    {
        self.mmc3.load_wram_snapshot(data);
    }

    pub fn initialize_ram(&mut self, mode: crate::cartridge::RamInitMode)
        requires
            old(self).wf(),
        ensures
            final(self).wf(),
            final(self).outer_reg == old(self).outer_reg,
            final(self).mmc3.same_registers(&old(self).mmc3),
            final(self).mmc3.base.prg_ram@ == Seq::new(old(self).mmc3.base.prg_ram@.len(), |i: int| crate::cartridge::ram_init_byte(mode)),
    {
        self.mmc3.initialize_ram(mode);
    }
}

/// Restoring a board from its own snapshot brings back the outer register
/// and every MMC3 register.
/// The restored board then snapshots to the same bytes.
pub proof fn lemma_snapshot_roundtrip(m: Mapper348, before: Mapper348, restored: Mapper348)
    requires
        m.wf(),
        restored.restore_post(&before, m.snapshot()),
    ensures
        restored.outer_reg == m.outer_reg,
        restored.mmc3.bank_select == m.mmc3.bank_select,
        restored.mmc3.regs@ == m.mmc3.regs@,
        restored.mmc3.base.mirroring == m.mmc3.base.mirroring,
        restored.mmc3.irq_latch == m.mmc3.irq_latch,
        restored.mmc3.irq_counter == m.mmc3.irq_counter,
        restored.mmc3.irq_enabled == m.mmc3.irq_enabled,
        restored.mmc3.irq_pending == m.mmc3.irq_pending,
        restored.snapshot() == m.snapshot(),
{
    assert(m.snapshot().len() == crate::mmc3::SNAPSHOT_LEN + 1);
    assert(m.snapshot().drop_last() =~= m.mmc3.snapshot());
    crate::mmc3::lemma_snapshot_roundtrip(m.mmc3, before.mmc3, restored.mmc3);
}

/// Outer bits 3:2 choose a 128 KiB block of CHR: the byte read at `addr` is
/// byte `addr & $3FF` of 1 KiB bank `128 * outer[3:2] + mmc3_bank % 128`.
pub proof fn lemma_chr_outer_block(m: Mapper348, addr: u16)
    ensures
        m.spec_read_chr(addr) == m.mmc3.chr_byte(
            128 * (((m.outer_reg >> 2) & 3) as nat) + m.mmc3.spec_mapped_chr_1k_bank(addr) % 128,
            (addr & 0x3FF) as nat,
        ),
{
    let b = m.mmc3.spec_mapped_chr_1k_bank(addr);
    assert(b < 256);
    let bu = b as usize;
    let o = m.outer_reg;
    assert((((o as usize) & 0x0C) << 5) | (bu & 0x7F) == 128 * (((o >> 2) & 3) as usize) + bu % 128) by (bit_vector)
        requires bu < 256;
}

/// Unless outer bits 3:2 are both set, they choose a 128 KiB block of PRG:
/// the byte read at `addr` in `$8000-$FFFF` is byte `addr & $1FFF` of 8 KiB
/// bank `16 * outer[3:2] + mmc3_page % 16`.
pub proof fn lemma_prg_outer_block(m: Mapper348, addr: u16)
    requires
        addr >= 0x8000,
        (m.outer_reg >> 2) & 3 != 3,
    ensures
        m.spec_read_prg(addr) == m.mmc3.prg_byte(
            16 * (((m.outer_reg >> 2) & 3) as nat) + (m.mmc3.spec_raw_prg_page(addr) % 16) as nat,
            (addr & 0x1FFF) as nat,
        ),
{
    let o = m.outer_reg;
    let r = m.mmc3.spec_raw_prg_page(addr);
    assert(((o as usize) & 0x0C) != 0x0C && ((((o as usize) & 0x0C) << 2) | ((r as usize) & 0x0F)) == 16 * (((o >> 2) & 3) as usize) + (r % 16) as usize) by (bit_vector)
        requires (o >> 2) & 3 != 3;
}

/// With outer bits 3:2 both set, `$8000` and `$A000` show banks
/// `48 + page % 16` of the MMC3 pages there, and `$C000` and `$E000` show
/// banks `48 + ((page & $0F) | 2)` of the pages at `$8000` and `$A000`.
pub proof fn lemma_prg_special_mode(m: Mapper348, addr: u16)
    requires
        addr >= 0x8000,
        (m.outer_reg >> 2) & 3 == 3,
    ensures
        ({
            let window: u16 = if addr < 0xA000 || (0xC000 <= addr && addr < 0xE000) { 0x8000 } else { 0xA000 };
            let page = m.mmc3.spec_raw_prg_page(window);
            let bank: nat = if addr < 0xC000 { 48 + (page % 16) as nat } else { 48 + ((page & 0x0F) | 2) as nat };
            m.spec_read_prg(addr) == m.mmc3.prg_byte(bank, (addr & 0x1FFF) as nat)
        }),
{
    let o = m.outer_reg;
    let r0 = m.mmc3.spec_raw_prg_page(0x8000);
    let r1 = m.mmc3.spec_raw_prg_page(0xA000);
    assert(((o as usize) & 0x0C) == 0x0C
        && (0x0Cusize << 2) | ((r0 as usize) & 0x0F) == 48 + (r0 % 16) as usize
        && (0x0Cusize << 2) | ((r1 as usize) & 0x0F) == 48 + (r1 % 16) as usize
        && 0x32usize | ((r0 as usize) & 0x0F) == 48 + ((r0 & 0x0F) | 2) as usize
        && 0x32usize | ((r1 as usize) & 0x0F) == 48 + ((r1 & 0x0F) | 2) as usize) by (bit_vector)
        requires (o >> 2) & 3 == 3;
}

} // verus!
