//! Mapper 334 - 5/20-in-1 Copyright multicart: MMC3 CHR banking and
//! mirroring, with PRG banking taken over by an outer register.
//!
//! - `$6000` (mask `$6003`): bits 2:1 select the 32 KiB PRG bank shown at
//!   `$8000-$FFFF`; the MMC3 PRG registers are ignored.
//! - `$6001` (mask `$6003`): stored, no known effect.
//! - `$6002` (mask `$6003`) read: bit 0 is the menu jumper (submapper 1 sets
//!   it), bits 7:1 the open bus.
//!
//! Writes to these registers take effect only while the MMC3 PRG-RAM is
//! enabled and writable (`$A001` bit 7 set, bit 6 clear), as at power-on; the
//! jumper reads back whatever `$A001` holds. Writes to `$6000-$7FFF` also
//! reach the MMC3 PRG-RAM (8 KiB).
use vstd::prelude::*;
use crate::cartridge::{NametableLayout, MapperCapabilities, MapperContext};
use crate::base_mapper::{BaseMapper, slice_prefix};
use crate::mmc3::{MMC3Mapper, SNAPSHOT_LEN};

verus! {

pub const MAPPER_NUMBER: u16 = 334;
pub const PRG_BANK_SIZE: usize = 0x2000;
pub const CHR_BANK_SIZE: usize = 0x0400;

/// Mapper 334 - 5/20-in-1 multicart.
pub struct Mapper334 {
    pub mmc3: MMC3Mapper,
    /// `$6000`: bits 2:1 select the 32 KiB PRG bank.
    pub reg6000: u8,
    /// `$6001`: no known effect.
    pub reg6001: u8,
    /// Menu jumper (true for the 5-in-1 menu).
    pub jumper: bool,
}

impl Mapper334 {
    pub open spec fn wf(&self) -> bool {
        self.mmc3.wf()
    }

    /// First 8 KiB bank of the selected 32 KiB bank.
    pub open spec fn spec_prg_base_slot(&self) -> usize {
        (((self.reg6000 >> 1) & 0x03) as usize * 4) as usize
    }

    /// The 8 KiB PRG bank shown at `addr` (`$8000-$FFFF`).
    pub open spec fn spec_mapped_prg_bank(&self, addr: u16) -> usize {
        let slot = ((addr - 0x8000) as usize) >> 13;
        (self.spec_prg_base_slot() + (slot & 0x03)) as usize
    }

    /// The 1 KiB CHR bank shown at `addr`.
    pub open spec fn spec_mapped_chr_1k_bank(&self, addr: u16) -> usize {
        self.mmc3.spec_mapped_chr_1k_bank(addr) as usize
    }

    /// Whether the `$600x` registers answer.
    pub open spec fn regs_enabled(&self) -> bool {
        self.mmc3.ram_writable()
    }

    pub open spec fn spec_read_prg(&self, addr: u16) -> u8 {
        if addr >= 0x8000 {
            self.mmc3.prg_byte(self.spec_mapped_prg_bank(addr) as nat, (addr & 0x1FFF) as nat)
        } else if addr >= 0x6000 {
            self.mmc3.spec_read_prg(addr)
        } else {
            0
        }
    }

    pub open spec fn spec_read_chr(&self, addr: u16) -> u8 {
        self.mmc3.chr_byte(self.spec_mapped_chr_1k_bank(addr) as nat, (addr & 0x3FF) as nat)
    }

    pub open spec fn spec_read_prg_open_bus(&self, addr: u16, open_bus: u8) -> u8 {
        if addr >= 0x8000 {
            self.spec_read_prg(addr)
        } else if addr >= 0x6000 && addr & 0x6003 == 0x6002 {
            (open_bus & 0xFE) | (if self.jumper { 1u8 } else { 0u8 })
        } else if addr >= 0x6000 {
            self.mmc3.spec_read_prg_open_bus(addr, open_bus)
        } else {
            open_bus
        }
    }

    pub open spec fn read_ok(&self, addr: u16) -> bool {
        true
    }

    pub open spec fn spec_mirroring(&self) -> NametableLayout {
        self.mmc3.base.mirroring
    }

    pub open spec fn spec_irq_pending(&self) -> bool {
        self.mmc3.irq_pending
    }

    pub open spec fn write_post(&self, old: &Self, addr: u16, value: u8) -> bool {
        if 0x6000 <= addr < 0x8000 {
            let reg = addr & 0x6003;
            &&& self.wf()
            &&& self.reg6000 == (if old.regs_enabled() && reg == 0x6000 { value } else { old.reg6000 })
            &&& self.reg6001 == (if old.regs_enabled() && reg == 0x6001 { value } else { old.reg6001 })
            &&& self.jumper == old.jumper
            &&& self.mmc3.write_post(&old.mmc3, addr, value)
        } else if addr >= 0x8000 {
            &&& self.wf()
            &&& self.reg6000 == old.reg6000
            &&& self.reg6001 == old.reg6001
            &&& self.jumper == old.jumper
            &&& self.mmc3.write_post(&old.mmc3, addr, value)
        } else {
            *self == *old
        }
    }

    pub open spec fn write_chr_post(&self, old: &Self, addr: u16, value: u8) -> bool {
        let count = old.mmc3.chr_count();
        let bank = old.spec_mapped_chr_1k_bank(addr) as nat;
        &&& self.reg6000 == old.reg6000
        &&& self.reg6001 == old.reg6001
        &&& self.jumper == old.jumper
        &&& self.mmc3.chr_write_post(&old.mmc3, if count > 0 { bank % count } else { 0 }, (addr & 0x3FF) as nat, value)
    }

    pub open spec fn snapshot(&self) -> Seq<u8> {
        self.mmc3.snapshot() + seq![self.reg6000, self.reg6001]
    }

    /// The last two bytes are `$6000` and `$6001`, the rest goes to the MMC3;
    /// shorter data changes nothing.
    pub open spec fn restore_post(&self, old: &Self, data: Seq<u8>) -> bool {
        let n = data.len();
        if n < 2 {
            *self == *old
        } else {
            &&& self.reg6000 == data[n - 2]
            &&& self.reg6001 == data[n - 1]
            &&& self.jumper == old.jumper
            &&& self.mmc3.restore_post(&old.mmc3, data.subrange(0, n - 2))
        }
    }

    pub open spec fn reset_post(&self, old: &Self) -> bool {
        &&& self.reg6000 == 0
        &&& self.reg6001 == 0
        &&& self.jumper == old.jumper
        &&& self.mmc3.reset_post(&old.mmc3)
    }

    pub open spec fn cycle_ok(&self) -> bool {
        true
    }

    pub open spec fn cycle_post(&self, old: &Self) -> bool {
        &&& self.reg6000 == old.reg6000
        &&& self.reg6001 == old.reg6001
        &&& self.jumper == old.jumper
        &&& self.mmc3.cycle_post(&old.mmc3)
    }

    pub open spec fn ppu_address_post(&self, old: &Self, addr: u16) -> bool {
        &&& self.reg6000 == old.reg6000
        &&& self.reg6001 == old.reg6001
        &&& self.jumper == old.jumper
        &&& self.mmc3.ppu_address_post(&old.mmc3, addr)
    }

    pub fn new(ctx: MapperContext) -> (m: Self)
        ensures
            m.wf(),
            m.reg6000 == 0,
            m.reg6001 == 0,
            m.jumper == (ctx.submapper == 1),
            m.mmc3.base.prg_rom@ == ctx.prg_rom@,
            m.mmc3.base.chr_from(ctx.chr_rom@),
            m.mmc3.bank_select == 0,
            m.mmc3.regs@ == seq![0u8, 2, 4, 5, 6, 7, 0, 1],
            !m.mmc3.irq_pending,
            m.mmc3.prg_ram_ctl == crate::mmc3::PRG_RAM_CTL_POWER_ON,
            m.regs_enabled(),
            m.mmc3.base.capabilities == (MapperCapabilities { has_irq: true, has_expansion_audio: false, has_chr_banking: true, has_dynamic_mirroring: true, max_prg_ram_kb: 8, prg_bank_size_kb: 32, chr_bank_size_kb: 1 }),
    {
        let jumper = ctx.submapper == 1;
        let capabilities = MapperCapabilities {
            has_irq: true,
            has_expansion_audio: false,
            has_chr_banking: true,
            has_dynamic_mirroring: true,
            max_prg_ram_kb: 8,
            prg_bank_size_kb: 32,
            chr_bank_size_kb: 1,
        };
        let mmc3 = MMC3Mapper::new_with_irq_mode_and_prg_ram_banks(&ctx, capabilities, false, 1);
        assert(0x80u8 & 0x80 != 0 && 0x80u8 & 0x40 == 0) by (bit_vector);
        Mapper334 { mmc3, reg6000: 0, reg6001: 0, jumper }
    }

    pub fn prg_base_slot(&self) -> (b: usize)
        ensures
            b == self.spec_prg_base_slot(),
            b <= 12,
    {
        let r = self.reg6000;
        proof { crate::bits::lemma_byte_fields(r >> 1); }
        (((self.reg6000 >> 1) & 0x03) as usize) * 4
    }

    pub fn prg_bank_for_addr(&self, addr: u16) -> (b: usize)
        requires
            addr >= 0x8000,
        ensures
            b == self.spec_mapped_prg_bank(addr),
    {
        let slot = ((addr - 0x8000) as usize) >> 13;
        proof { crate::bits::lemma_usize_fields(slot); }
        self.prg_base_slot() + (slot & 0x03)
    }

    pub fn chr_bank_for_addr(&self, addr: u16) -> (b: usize)
        requires
            self.wf(),
        ensures
            b == self.spec_mapped_chr_1k_bank(addr),
    {
        self.mmc3.raw_chr_1k_bank(addr)
    }

    fn regs_enabled_exec(&self) -> (b: bool)
        ensures
            b == self.regs_enabled(),
    {
        self.mmc3.is_prg_ram_writable()
    }

    pub fn read_prg(&self, addr: u16) -> (v: u8)
        requires
            self.wf(),
        ensures
            v == self.spec_read_prg(addr),
    {
        if addr >= 0x8000 {
            let bank = self.prg_bank_for_addr(addr);
            proof { crate::bits::lemma_addr_fields(addr); }
            self.mmc3.read_prg_at_bank(bank, (addr & 0x1FFF) as usize)
        } else if addr >= 0x6000 {
            self.mmc3.read_prg(addr)
        } else {
            0
        }
    }

    /// `read_prg` at `$8000-$FFFF`; `open_bus` elsewhere.
    pub fn read_prg_open_bus(&self, addr: u16, open_bus: u8) -> (v: u8)
        requires
            self.wf(),
        ensures
            v == self.spec_read_prg_open_bus(addr, open_bus),
    {
        if addr >= 0x8000 {
            self.read_prg(addr)
        } else if addr >= 0x6000 && addr & 0x6003 == 0x6002 {
            (open_bus & 0xFE) | (if self.jumper { 1u8 } else { 0u8 })
        } else if addr >= 0x6000 {
            self.mmc3.read_prg_open_bus(addr, open_bus)
        } else {
            open_bus
        }
    }

    pub fn write_prg(&mut self, addr: u16, value: u8)
        requires
            old(self).wf(),
        ensures
            final(self).write_post(old(self), addr, value),
    {
        if 0x6000 <= addr && addr < 0x8000 {
            if self.regs_enabled_exec() {
                let reg = addr & 0x6003;
                if reg == 0x6000 {
                    self.reg6000 = value;
                } else if reg == 0x6001 {
                    self.reg6001 = value;
                }
            }
            self.mmc3.write_prg(addr, value);
        } else if addr >= 0x8000 {
            self.mmc3.write_prg(addr, value);
        }
    }

    pub fn read_chr(&self, addr: u16) -> (v: u8)
        requires
            self.wf(),
        ensures
            v == self.spec_read_chr(addr),
    {
        let bank = self.chr_bank_for_addr(addr);
        let count = self.mmc3.chr_bank_count_1k();
        let wrapped = if count > 0 { bank % count } else { 0 };
        proof {
            crate::bits::lemma_addr_fields(addr);
            if count > 0 {
                vstd::arithmetic::div_mod::lemma_mod_twice(bank as int, count as int);
            }
        }
        self.mmc3.read_chr_1k_at(wrapped, (addr & 0x3FF) as usize)
    }

    pub fn write_chr(&mut self, addr: u16, value: u8)
        requires
            old(self).wf(),
        ensures
            final(self).write_chr_post(old(self), addr, value),
    {
        let bank = self.chr_bank_for_addr(addr);
        let count = self.mmc3.chr_bank_count_1k();
        let wrapped = if count > 0 { bank % count } else { 0 };
        proof { crate::bits::lemma_addr_fields(addr); }
        self.mmc3.write_chr_1k_at(wrapped, (addr & 0x3FF) as usize, value);
    }

    pub fn registers_snapshot(&self) -> (s: Vec<u8>)
        requires
            self.wf(),
        ensures
            s@ == self.snapshot(),
    {
        let mut s = self.mmc3.registers_snapshot();
        s.push(self.reg6000);
        s.push(self.reg6001);
        proof {
            assert(s@ =~= self.snapshot());
        }
        s
    }

    pub fn restore_registers(&mut self, data: &[u8])
        requires
            old(self).wf(),
        ensures
            final(self).restore_post(old(self), data@),
    {
        let n = data.len();
        if n >= 2 {
            self.reg6000 = data[n - 2];
            self.reg6001 = data[n - 1];
            let head = slice_prefix(data, n - 2);
            self.mmc3.restore_registers(head.as_slice());
        }
    }

    pub fn reset(&mut self)
        requires
            old(self).wf(),
        ensures
            final(self).reset_post(old(self)),
    {
        self.mmc3.reset();
        self.reg6000 = 0;
        self.reg6001 = 0;
    }

    pub fn cpu_cycle(&mut self)
        requires
            old(self).wf(),
        ensures
            final(self).cycle_post(old(self)),
    {
        self.mmc3.cpu_cycle();
    }

    pub fn ppu_address_changed(&mut self, addr: u16)
        requires
            old(self).wf(),
        ensures
            final(self).ppu_address_post(old(self), addr),
    {
        self.mmc3.ppu_address_changed(addr);
    }

    pub fn irq_pending(&self) -> (p: bool)
        ensures
            p == self.spec_irq_pending(),
    {
        self.mmc3.irq_pending
    }

    pub fn base(&self) -> (b: &BaseMapper)
        ensures
            *b == self.mmc3.base,
    {
        &self.mmc3.base
    }

    pub fn get_mirroring(&self) -> (m: NametableLayout)
        ensures
            m == self.spec_mirroring(),
    {
        self.mmc3.base.mirroring
    }

    pub fn capabilities(&self) -> (c: MapperCapabilities)
        ensures
            c == self.mmc3.base.capabilities,
    {
        self.mmc3.base.capabilities
    }

    pub fn mapper_number(&self) -> (n: u16)
        ensures
            n == MAPPER_NUMBER,
    {
        MAPPER_NUMBER
    }

    pub fn wram_size(&self) -> (n: usize)
        ensures
            n == self.mmc3.base.prg_ram@.len(),
    {
        self.mmc3.wram_size()
    }

    pub fn wram_snapshot(&self) -> (s: Vec<u8>)
        ensures
            s@ == self.mmc3.base.prg_ram@,
    {
        self.mmc3.wram_snapshot()
    }

    pub fn load_wram_snapshot(&mut self, data: &[u8])
        requires
            old(self).wf(),
        ensures
            final(self).wf(),
            final(self).reg6000 == old(self).reg6000,
            final(self).reg6001 == old(self).reg6001,
            final(self).mmc3.same_registers(&old(self).mmc3),
    {
        self.mmc3.load_wram_snapshot(data);
    }

    pub fn initialize_ram(&mut self, mode: crate::cartridge::RamInitMode)
        requires
            old(self).wf(),
        ensures
            final(self).wf(),
            final(self).reg6000 == old(self).reg6000,
            final(self).reg6001 == old(self).reg6001,
            final(self).mmc3.same_registers(&old(self).mmc3),
            final(self).mmc3.base.prg_ram@ == Seq::new(old(self).mmc3.base.prg_ram@.len(), |i: int| crate::cartridge::ram_init_byte(mode)),
    {
        self.mmc3.initialize_ram(mode);
    }
}

/// Restoring a board from its own snapshot brings back the outer registers
/// and every MMC3 register.
/// The restored board then snapshots to the same bytes.
pub proof fn lemma_snapshot_roundtrip(m: Mapper334, before: Mapper334, restored: Mapper334)
    requires
        m.wf(),
        restored.restore_post(&before, m.snapshot()),
    ensures
        restored.reg6000 == m.reg6000,
        restored.reg6001 == m.reg6001,
        restored.mmc3.bank_select == m.mmc3.bank_select,
        restored.mmc3.regs@ == m.mmc3.regs@,
        restored.mmc3.base.mirroring == m.mmc3.base.mirroring,
        restored.mmc3.irq_latch == m.mmc3.irq_latch,
        restored.mmc3.irq_counter == m.mmc3.irq_counter,
        restored.mmc3.irq_enabled == m.mmc3.irq_enabled,
        restored.mmc3.irq_pending == m.mmc3.irq_pending,
        restored.snapshot() == m.snapshot(),
{
    let s = m.snapshot();
    assert(s.subrange(0, s.len() - 2) =~= m.mmc3.snapshot());
    crate::mmc3::lemma_snapshot_roundtrip(m.mmc3, before.mmc3, restored.mmc3);
}

} // verus!
