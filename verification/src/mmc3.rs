//! The MMC3 core shared by the boards built around it.
//!
//! Registers (decoded by `addr & $E001` in `$8000-$FFFF`):
//! - `$8000` bank select: bits 2:0 pick R0-R7, bit 6 swaps the PRG windows
//!   `$8000`/`$C000`, bit 7 swaps the CHR halves.
//! - `$8001` bank data: stores into the selected register.
//! - `$A000` mirroring: bit 0 set is horizontal, clear is vertical.
//! - `$A001` PRG-RAM control: bit 7 enables the RAM, bit 6 protects it from writes.
//! - `$C000` IRQ latch, `$C001` IRQ reload, `$E000` IRQ disable and acknowledge,
//!   `$E001` IRQ enable.
//!
//! PRG is banked in 8 KiB units: `$A000` shows R7, `$E000` the last bank, and
//! `$8000`/`$C000` show R6 and the second-last bank (swapped by bit 6).
//! CHR is banked in 1 KiB units: R0/R1 are 2 KiB banks (bit 0 ignored) and
//! R2-R5 1 KiB banks; bit 7 of the bank select swaps the two 4 KiB halves.
//!
//! The scanline counter is clocked by a rising edge of PPU A12 once A12 has
//! been low for at least three CPU cycles. A clock reloads the counter from the
//! latch when it is zero or a reload was requested, and decrements it
//! otherwise; when the counter is then zero and IRQs are enabled, the IRQ is
//! raised. In the alternate (revision A) behaviour a zero counter raises the
//! IRQ only when it was just decremented to zero or reloaded by request.
use vstd::prelude::*;
use crate::cartridge::{NametableLayout, MapperCapabilities, MapperContext, RamInitMode, layout_hv, layout_byte, layout_from_byte, ram_init_byte};
use crate::base_mapper::{BaseMapper, page_count, page_byte, lemma_page_index, ram_bytes};

verus! {

pub const PRG_BANK_SIZE: usize = 0x2000;
pub const CHR_BANK_SIZE: usize = 0x0400;
/// CPU cycles A12 must stay low before a rising edge clocks the counter.
pub const A12_FILTER_CYCLES: u8 = 3;
/// Length of the register snapshot.
pub const SNAPSHOT_LEN: usize = 18;
/// Power-on value of `$A001`: RAM enabled and writable.
pub const PRG_RAM_CTL_POWER_ON: u8 = 0x80;

pub open spec fn bool_byte(b: bool) -> u8 {
    if b { 1 } else { 0 }
}

pub struct MMC3Mapper {
    pub base: BaseMapper,
    pub bank_select: u8,
    /// R0-R7.
    pub regs: Vec<u8>,
    /// Last value written to `$A001`.
    pub prg_ram_ctl: u8,
    pub irq_latch: u8,
    pub irq_counter: u8,
    pub irq_reload: bool,
    pub irq_enabled: bool,
    pub irq_pending: bool,
    /// Revision A counter behaviour.
    pub alt_irq: bool,
    /// Level of PPU A12 last seen.
    pub a12_high: bool,
    /// CPU cycles since A12 went low (saturating).
    pub a12_low_cycles: u8,
}

impl MMC3Mapper {
    pub open spec fn wf(&self) -> bool {
        &&& self.base.wf()
        &&& self.base.prg_page_size == PRG_BANK_SIZE
        &&& self.base.chr_page_size == CHR_BANK_SIZE
        &&& self.regs@.len() == 8
    }

    /// Number of 8 KiB PRG banks.
    pub open spec fn prg_count(&self) -> nat {
        page_count(self.base.prg_rom@.len(), PRG_BANK_SIZE as nat)
    }

    /// Number of 1 KiB CHR banks.
    pub open spec fn chr_count(&self) -> nat {
        page_count(self.base.chr@.len(), CHR_BANK_SIZE as nat)
    }

    pub open spec fn second_last_bank(&self) -> nat {
        if self.prg_count() >= 2 { (self.prg_count() - 2) as nat } else { 0 }
    }

    pub open spec fn last_bank(&self) -> nat {
        if self.prg_count() >= 1 { (self.prg_count() - 1) as nat } else { 0 }
    }

    /// The 8 KiB bank the core maps at CPU address `addr` (`$8000-$FFFF`),
    /// before any reduction to the ROM size.
    pub open spec fn spec_mapped_prg_bank(&self, addr: u16) -> nat {
        let slot = (addr >> 13) & 3;
        let swap = self.bank_select & 0x40 != 0;
        let r6 = (self.regs@[6] & 0x3F) as nat;
        let r7 = (self.regs@[7] & 0x3F) as nat;
        if slot == 0 {
            if swap { self.second_last_bank() } else { r6 }
        } else if slot == 1 {
            r7
        } else if slot == 2 {
            if swap { r6 } else { self.second_last_bank() }
        } else {
            self.last_bank()
        }
    }

    /// The register value selecting the 1 KiB CHR bank of `slot` (0-7),
    /// without the CHR swap.
    pub open spec fn spec_chr_slot_bank(&self, slot: u16) -> nat {
        if slot == 0 {
            (self.regs@[0] & 0xFE) as nat
        } else if slot == 1 {
            (self.regs@[0] | 1) as nat
        } else if slot == 2 {
            (self.regs@[1] & 0xFE) as nat
        } else if slot == 3 {
            (self.regs@[1] | 1) as nat
        } else {
            self.regs@[slot - 2] as nat
        }
    }

    /// The 1 KiB CHR bank the core maps at PPU address `addr`.
    pub open spec fn spec_mapped_chr_1k_bank(&self, addr: u16) -> nat {
        let slot = (addr >> 10) & 7;
        if self.bank_select & 0x80 != 0 {
            self.spec_chr_slot_bank(slot ^ 4)
        } else {
            self.spec_chr_slot_bank(slot)
        }
    }

    /// Byte `off` of 8 KiB PRG bank `bank`, the bank reduced modulo the bank count.
    pub open spec fn prg_byte(&self, bank: nat, off: nat) -> u8 {
        let count = self.prg_count();
        page_byte(self.base.prg_rom@, PRG_BANK_SIZE as nat, if count == 0 { 0 } else { bank % count }, off)
    }

    /// Index into CHR memory of byte `off` of 1 KiB bank `bank`.
    pub open spec fn chr_1k_index(&self, bank: nat, off: nat) -> nat {
        (bank % self.chr_count()) * (CHR_BANK_SIZE as nat) + off
    }

    /// Byte `off` of 1 KiB CHR bank `bank`, the bank reduced modulo the bank count.
    pub open spec fn chr_byte(&self, bank: nat, off: nat) -> u8 {
        if self.chr_count() == 0 { 0 } else { self.base.chr@[self.chr_1k_index(bank, off) as int] }
    }

    pub open spec fn ram_enabled(&self) -> bool {
        self.prg_ram_ctl & 0x80 != 0
    }

    pub open spec fn ram_writable(&self) -> bool {
        self.ram_enabled() && self.prg_ram_ctl & 0x40 == 0
    }

    /// What the CPU reads: PRG-RAM at `$6000-$7FFF` when enabled, the mapped
    /// ROM at `$8000-$FFFF`, 0 elsewhere.
    pub open spec fn spec_read_prg(&self, addr: u16) -> u8 {
        if 0x6000 <= addr < 0x8000 {
            if self.ram_enabled() {
                match self.base.spec_prg_ram(addr) {
                    Some(v) => v,
                    None => 0,
                }
            } else {
                0
            }
        } else if addr >= 0x8000 {
            self.prg_byte(self.spec_mapped_prg_bank(addr), (addr & 0x1FFF) as nat)
        } else {
            0
        }
    }

    pub open spec fn spec_read_chr(&self, addr: u16) -> u8 {
        self.chr_byte(self.spec_mapped_chr_1k_bank(addr), (addr & 0x3FF) as nat)
    }

    /// Nothing but the base memory changes and nothing of it but the listed parts.
    pub open spec fn same_registers(&self, old: &Self) -> bool {
        &&& self.bank_select == old.bank_select
        &&& self.regs@ == old.regs@
        &&& self.prg_ram_ctl == old.prg_ram_ctl
        &&& self.irq_latch == old.irq_latch
        &&& self.irq_counter == old.irq_counter
        &&& self.irq_reload == old.irq_reload
        &&& self.irq_enabled == old.irq_enabled
        &&& self.irq_pending == old.irq_pending
        &&& self.alt_irq == old.alt_irq
        &&& self.a12_high == old.a12_high
        &&& self.a12_low_cycles == old.a12_low_cycles
    }

    /// Builds the core over the context's ROMs with `prg_ram_banks` 8 KiB
    /// banks of PRG-RAM (capped by the capabilities).
    pub fn new_with_irq_mode_and_prg_ram_banks(
        ctx: &MapperContext,
        capabilities: MapperCapabilities,
        alt_irq: bool,
        prg_ram_banks: usize,
    ) -> (m: Self)
        requires
            capabilities.max_prg_ram_kb <= 1024,
        ensures
            m.wf(),
            m.base.prg_rom@ == ctx.prg_rom@,
            m.base.chr_from(ctx.chr_rom@),
            m.base.mirroring == ctx.mirroring,
            m.base.capabilities == capabilities,
            m.base.prg_ram@.len() == ram_bytes(prg_ram_banks as nat, capabilities.max_prg_ram_kb as nat),
            m.bank_select == 0,
            m.regs@ == seq![0u8, 2, 4, 5, 6, 7, 0, 1],
            m.prg_ram_ctl == PRG_RAM_CTL_POWER_ON,
            m.irq_latch == 0,
            m.irq_counter == 0,
            !m.irq_reload,
            !m.irq_enabled,
            !m.irq_pending,
            m.alt_irq == alt_irq,
            !m.a12_high,
            m.a12_low_cycles == 0,
    {
        let ram_ctx = MapperContext {
            mapper_number: ctx.mapper_number,
            submapper: ctx.submapper,
            prg_rom: ctx.prg_rom.clone(),
            chr_rom: ctx.chr_rom.clone(),
            mirroring: ctx.mirroring,
            prg_ram_banks,
            crc32: ctx.crc32,
        };
        let mut base = BaseMapper::new(&ram_ctx, capabilities);
        base.configure_prg_banking(PRG_BANK_SIZE);
        base.configure_chr_banking(CHR_BANK_SIZE);
        proof {
            assert(ram_ctx.prg_rom@ == ctx.prg_rom@);
            assert(ram_ctx.chr_rom@ == ctx.chr_rom@);
        }
        MMC3Mapper {
            base,
            bank_select: 0,
            regs: vec![0u8, 2, 4, 5, 6, 7, 0, 1],
            prg_ram_ctl: PRG_RAM_CTL_POWER_ON,
            irq_latch: 0,
            irq_counter: 0,
            irq_reload: false,
            irq_enabled: false,
            irq_pending: false,
            alt_irq,
            a12_high: false,
            a12_low_cycles: 0,
        }
    }

    pub fn mapped_prg_bank(&self, addr: u16) -> (b: usize)
        requires
            self.wf(),
        ensures
            b == self.spec_mapped_prg_bank(addr),
    {
        let slot = (addr >> 13) & 3;
        let swap = self.bank_select & 0x40 != 0;
        let count = self.base.prg_rom.len() / PRG_BANK_SIZE;
        let second_last: usize = if count >= 2 { count - 2 } else { 0 };
        let r6 = (self.regs[6] & 0x3F) as usize;
        let r7 = (self.regs[7] & 0x3F) as usize;
        if slot == 0 {
            if swap { second_last } else { r6 }
        } else if slot == 1 {
            r7
        } else if slot == 2 {
            if swap { r6 } else { second_last }
        } else {
            if count >= 1 { count - 1 } else { 0 }
        }
    }

    fn chr_slot_bank(&self, slot: u16) -> (b: usize)
        requires
            self.wf(),
            slot < 8,
        ensures
            b == self.spec_chr_slot_bank(slot),
    {
        if slot == 0 {
            (self.regs[0] & 0xFE) as usize
        } else if slot == 1 {
            (self.regs[0] | 1) as usize
        } else if slot == 2 {
            (self.regs[1] & 0xFE) as usize
        } else if slot == 3 {
            (self.regs[1] | 1) as usize
        } else {
            self.regs[(slot - 2) as usize] as usize
        }
    }

    pub fn mapped_chr_1k_bank(&self, addr: u16) -> (b: usize)
        requires
            self.wf(),
        ensures
            b == self.spec_mapped_chr_1k_bank(addr),
    {
        let slot: u16 = (addr >> 10) & 7;
        proof { crate::bits::lemma_addr_fields(addr); }
        if self.bank_select & 0x80 != 0 {
            self.chr_slot_bank(slot ^ 4)
        } else {
            self.chr_slot_bank(slot)
        }
    }

    /// The 1 KiB CHR bank that the registers select for `addr`, before any
    /// reduction to the CHR size (the same number as `mapped_chr_1k_bank`).
    pub fn raw_chr_1k_bank(&self, addr: u16) -> (b: usize)
        requires
            self.wf(),
        ensures
            b == self.spec_mapped_chr_1k_bank(addr),
    {
        self.mapped_chr_1k_bank(addr)
    }

    /// Number of 1 KiB CHR banks.
    pub fn chr_bank_count_1k(&self) -> (n: usize)
        requires
            self.wf(),
        ensures
            n == self.chr_count(),
    {
        self.base.chr.len() / CHR_BANK_SIZE
    }

    pub fn read_prg_at_bank(&self, bank: usize, offset: usize) -> (v: u8)
        requires
            self.wf(),
            offset < PRG_BANK_SIZE,
        ensures
            v == self.prg_byte(bank as nat, offset as nat),
    {
        let count = self.base.prg_rom.len() / PRG_BANK_SIZE;
        if count == 0 {
            return 0;
        }
        let page = bank % count;
        proof {
            lemma_page_index(page as nat, count as nat, PRG_BANK_SIZE as nat, self.base.prg_rom@.len(), offset as nat);
        }
        self.base.prg_rom[page * PRG_BANK_SIZE + offset]
    }

    pub fn read_chr_1k_at(&self, bank: usize, offset: usize) -> (v: u8)
        requires
            self.wf(),
            offset < CHR_BANK_SIZE,
        ensures
            v == self.chr_byte(bank as nat, offset as nat),
            self.chr_count() > 0 ==> self.chr_1k_index(bank as nat, offset as nat) < self.base.chr@.len(),
    {
        let count = self.base.chr.len() / CHR_BANK_SIZE;
        if count == 0 {
            return 0;
        }
        let page = bank % count;
        proof {
            lemma_page_index(page as nat, count as nat, CHR_BANK_SIZE as nat, self.base.chr@.len(), offset as nat);
        }
        self.base.chr[page * CHR_BANK_SIZE + offset]
    }

    pub fn read_prg(&self, addr: u16) -> (v: u8)
        requires
            self.wf(),
        ensures
            v == self.spec_read_prg(addr),
    {
        if 0x6000 <= addr && addr < 0x8000 {
            if self.prg_ram_ctl & 0x80 != 0 {
                match self.base.try_read_prg_ram(addr) {
                    Some(v) => v,
                    None => 0,
                }
            } else {
                0
            }
        } else if addr >= 0x8000 {
            let bank = self.mapped_prg_bank(addr);
            let off = (addr & 0x1FFF) as usize;
            proof { crate::bits::lemma_addr_fields(addr); }
            self.read_prg_at_bank(bank, off)
        } else {
            0
        }
    }

    /// Counter value after a clock: the latch when the counter is zero or a
    /// reload was requested, else one less.
    pub open spec fn counter_after_clock(&self) -> u8 {
        if self.irq_counter == 0 || self.irq_reload { self.irq_latch } else { (self.irq_counter - 1) as u8 }
    }

    /// Whether a clock raises the IRQ.
    pub open spec fn clock_raises_irq(&self) -> bool {
        &&& self.counter_after_clock() == 0
        &&& self.irq_enabled
        &&& (!self.alt_irq || self.irq_counter != 0 || self.irq_reload)
    }

    /// The core after one clock of the scanline counter.
    pub open spec fn clocked(&self) -> MMC3Mapper {
        MMC3Mapper {
            irq_counter: self.counter_after_clock(),
            irq_reload: false,
            irq_pending: self.irq_pending || self.clock_raises_irq(),
            ..*self
        }
    }

    /// The core after `n` clocks of the scanline counter.
    pub open spec fn clocked_n(&self, n: nat) -> MMC3Mapper
        decreases n,
    {
        if n == 0 { *self } else { self.clocked_n((n - 1) as nat).clocked() }
    }

    pub open spec fn clock_post(&self, old: &Self) -> bool {
        *self == old.clocked()
    }

    /// State after a CPU write to `$6000-$FFFF` (other addresses change nothing).
    pub open spec fn write_post(&self, old: &Self, addr: u16, value: u8) -> bool {
        if 0x6000 <= addr < 0x8000 {
            &&& self.wf()
            &&& self.same_registers(old)
            &&& self.base.same_layout(&old.base)
            &&& self.base.prg_pages@ == old.base.prg_pages@
            &&& self.base.chr_pages@ == old.base.chr_pages@
            &&& self.base.prg_6000_page == old.base.prg_6000_page
            &&& self.base.mirroring == old.base.mirroring
            &&& self.base.prg_ram@ == (if old.ram_writable() && old.base.prg_ram@.len() > 0 {
                old.base.prg_ram@.update(((addr - 0x6000) as nat % old.base.prg_ram@.len()) as int, value)
            } else {
                old.base.prg_ram@
            })
        } else if addr >= 0x8000 {
            let reg = addr & 0xE001;
            if reg == 0x8000 {
                *self == (MMC3Mapper { bank_select: value, ..*old })
            } else if reg == 0x8001 {
                &&& self.wf()
                &&& self.regs@ == old.regs@.update((old.bank_select & 7) as int, value)
                &&& *self == (MMC3Mapper { regs: self.regs, ..*old })
            } else if reg == 0xA000 {
                &&& self.wf()
                &&& self.base.mirroring == layout_hv(value & 1 != 0)
                &&& self.base.same_memory(&old.base)
                &&& self.base.prg_pages@ == old.base.prg_pages@
                &&& self.base.chr_pages@ == old.base.chr_pages@
                &&& self.base.prg_6000_page == old.base.prg_6000_page
                &&& *self == (MMC3Mapper { base: self.base, ..*old })
            } else if reg == 0xA001 {
                *self == (MMC3Mapper { prg_ram_ctl: value, ..*old })
            } else if reg == 0xC000 {
                *self == (MMC3Mapper { irq_latch: value, ..*old })
            } else if reg == 0xC001 {
                *self == (MMC3Mapper { irq_counter: 0, irq_reload: true, ..*old })
            } else if reg == 0xE000 {
                *self == (MMC3Mapper { irq_enabled: false, irq_pending: false, ..*old })
            } else {
                *self == (MMC3Mapper { irq_enabled: true, ..*old })
            }
        } else {
            *self == *old
        }
    }

    pub fn write_prg(&mut self, addr: u16, value: u8)
        requires
            old(self).wf(),
        ensures
            final(self).write_post(old(self), addr, value),
    {
        if 0x6000 <= addr && addr < 0x8000 {
            if self.prg_ram_ctl & 0x80 != 0 && self.prg_ram_ctl & 0x40 == 0 {
                self.base.try_write_prg_ram(addr, value);
            }
            return;
        }
        if addr < 0x8000 {
            return;
        }
        let reg = addr & 0xE001;
        if reg == 0x8000 {
            self.bank_select = value;
        } else if reg == 0x8001 {
            let sel = self.bank_select;
            let i = (sel & 7) as usize;
            proof { crate::bits::lemma_byte_fields(sel); }
            self.regs.set(i, value);
        } else if reg == 0xA000 {
            self.base.set_mirroring_hv(value & 1 != 0);
        } else if reg == 0xA001 {
            self.prg_ram_ctl = value;
        } else if reg == 0xC000 {
            self.irq_latch = value;
        } else if reg == 0xC001 {
            self.irq_counter = 0;
            self.irq_reload = true;
        } else if reg == 0xE000 {
            self.irq_enabled = false;
            self.irq_pending = false;
        } else {
            self.irq_enabled = true;
        }
    }

    /// One clock of the scanline counter.
    pub fn clock_irq_counter(&mut self)
        requires
            old(self).wf(),
        ensures
            final(self).wf(),
            final(self).clock_post(old(self)),
    {
        let was_nonzero = self.irq_counter != 0;
        let forced = self.irq_reload;
        if self.irq_counter == 0 || self.irq_reload {
            self.irq_counter = self.irq_latch;
            self.irq_reload = false;
        } else {
            self.irq_counter = self.irq_counter - 1;
        }
        if self.irq_counter == 0 && self.irq_enabled && (!self.alt_irq || was_nonzero || forced) {
            self.irq_pending = true;
        }
    }

    /// State after the PPU puts `addr` on its bus.
    pub open spec fn ppu_address_post(&self, old: &Self, addr: u16) -> bool {
        let a12 = addr & 0x1000 != 0;
        if a12 {
            if !old.a12_high && old.a12_low_cycles >= A12_FILTER_CYCLES {
                exists|mid: MMC3Mapper| mid.clock_post(old) && *self == (MMC3Mapper { a12_high: true, ..mid })
            } else {
                *self == (MMC3Mapper { a12_high: true, ..*old })
            }
        } else if old.a12_high {
            *self == (MMC3Mapper { a12_high: false, a12_low_cycles: 0, ..*old })
        } else {
            *self == *old
        }
    }

    /// Watches PPU A12: a rising edge after A12 was low for long enough clocks
    /// the scanline counter.
    pub fn ppu_address_changed(&mut self, addr: u16)
        requires
            old(self).wf(),
        ensures
            final(self).wf(),
            final(self).ppu_address_post(old(self), addr),
    {
        if addr & 0x1000 != 0 {
            if !self.a12_high && self.a12_low_cycles >= A12_FILTER_CYCLES {
                self.clock_irq_counter();
                let ghost mid = *self;
                self.a12_high = true;
                assert(mid.clock_post(old(self)));
            } else {
                self.a12_high = true;
            }
        } else if self.a12_high {
            self.a12_high = false;
            self.a12_low_cycles = 0;
        }
    }

    pub open spec fn cycle_post(&self, old: &Self) -> bool {
        if !old.a12_high && old.a12_low_cycles < 255 {
            *self == (MMC3Mapper { a12_low_cycles: (old.a12_low_cycles + 1) as u8, ..*old })
        } else {
            *self == *old
        }
    }

    /// Counts CPU cycles while A12 is low.
    pub fn cpu_cycle(&mut self)
        requires
            old(self).wf(),
        ensures
            final(self).wf(),
            final(self).cycle_post(old(self)),
    {
        if !self.a12_high && self.a12_low_cycles < 255 {
            self.a12_low_cycles = self.a12_low_cycles + 1;
        }
    }

    /// The 8 KiB page number the core selects for `addr` as a register byte:
    /// R6/R7 (6 bits) for the switchable windows, `$FE` for the second-last
    /// and `$FF` for the last bank.
    pub open spec fn spec_raw_prg_page(&self, addr: u16) -> u8 {
        let slot = (addr >> 13) & 3;
        let swap = self.bank_select & 0x40 != 0;
        let r6 = self.regs@[6] & 0x3F;
        let r7 = self.regs@[7] & 0x3F;
        if slot == 0 {
            if swap { 0xFE } else { r6 }
        } else if slot == 1 {
            r7
        } else if slot == 2 {
            if swap { r6 } else { 0xFE }
        } else {
            0xFF
        }
    }

    pub fn raw_prg_8k_page_number(&self, addr: u16) -> (p: u8)
        requires
            self.wf(),
        ensures
            p == self.spec_raw_prg_page(addr),
    {
        let slot = (addr >> 13) & 3;
        let swap = self.bank_select & 0x40 != 0;
        let r6 = self.regs[6] & 0x3F;
        let r7 = self.regs[7] & 0x3F;
        if slot == 0 {
            if swap { 0xFE } else { r6 }
        } else if slot == 1 {
            r7
        } else if slot == 2 {
            if swap { r6 } else { 0xFE }
        } else {
            0xFF
        }
    }

    /// The base memory changed only in CHR memory, which took `value` at
    /// byte `off` of 1 KiB bank `bank` when it is writable.
    pub open spec fn chr_write_post(&self, old: &Self, bank: nat, off: nat, value: u8) -> bool {
        &&& self.wf()
        &&& self.same_registers(old)
        &&& self.base.chr@ == (if old.base.chr_writable && old.chr_count() > 0 {
            old.base.chr@.update(old.chr_1k_index(bank, off) as int, value)
        } else {
            old.base.chr@
        })
        &&& self.base.prg_rom@ == old.base.prg_rom@
        &&& self.base.prg_ram@ == old.base.prg_ram@
        &&& self.base.chr_writable == old.base.chr_writable
        &&& self.base.prg_page_size == old.base.prg_page_size
        &&& self.base.chr_page_size == old.base.chr_page_size
        &&& self.base.chr_banked == old.base.chr_banked
        &&& self.base.prg_6000_banked == old.base.prg_6000_banked
        &&& self.base.capabilities == old.base.capabilities
        &&& self.base.bus_conflicts == old.base.bus_conflicts
        &&& self.base.prg_pages@ == old.base.prg_pages@
        &&& self.base.chr_pages@ == old.base.chr_pages@
        &&& self.base.prg_6000_page == old.base.prg_6000_page
        &&& self.base.mirroring == old.base.mirroring
    }

    /// Stores `value` at byte `offset` of 1 KiB CHR bank `bank` when CHR is RAM.
    pub fn write_chr_1k_at(&mut self, bank: usize, offset: usize, value: u8)
        requires
            old(self).wf(),
            offset < CHR_BANK_SIZE,
        ensures
            final(self).chr_write_post(old(self), bank as nat, offset as nat, value),
    {
        if !self.base.chr_writable {
            return;
        }
        let count = self.base.chr.len() / CHR_BANK_SIZE;
        if count == 0 {
            return;
        }
        let page = bank % count;
        proof {
            lemma_page_index(page as nat, count as nat, CHR_BANK_SIZE as nat, self.base.chr@.len(), offset as nat);
        }
        self.base.chr.set(page * CHR_BANK_SIZE + offset, value);
    }

    pub fn write_chr(&mut self, addr: u16, value: u8)
        requires
            old(self).wf(),
        ensures
            final(self).chr_write_post(old(self), old(self).spec_mapped_chr_1k_bank(addr), (addr & 0x3FF) as nat, value),
    {
        let bank = self.mapped_chr_1k_bank(addr);
        proof { crate::bits::lemma_addr_fields(addr); }
        self.write_chr_1k_at(bank, (addr & 0x3FF) as usize, value);
    }

    /// Like `read_prg`, but `$6000-$7FFF` without enabled RAM, and
    /// addresses below `$6000`, read as `open_bus`.
    pub open spec fn spec_read_prg_open_bus(&self, addr: u16, open_bus: u8) -> u8 {
        if addr >= 0x8000 {
            self.spec_read_prg(addr)
        } else if 0x6000 <= addr && self.ram_enabled() && self.base.prg_ram@.len() > 0 {
            self.spec_read_prg(addr)
        } else {
            open_bus
        }
    }

    pub fn read_prg_open_bus(&self, addr: u16, open_bus: u8) -> (v: u8)
        requires
            self.wf(),
        ensures
            v == self.spec_read_prg_open_bus(addr, open_bus),
    {
        if addr >= 0x8000 {
            self.read_prg(addr)
        } else if 0x6000 <= addr && self.prg_ram_ctl & 0x80 != 0 && self.base.prg_ram.len() > 0 {
            self.read_prg(addr)
        } else {
            open_bus
        }
    }

    pub fn is_prg_ram_writable(&self) -> (w: bool)
        ensures
            w == self.ram_writable(),
    {
        self.prg_ram_ctl & 0x80 != 0 && self.prg_ram_ctl & 0x40 == 0
    }

    pub fn irq_pending(&self) -> (p: bool)
        ensures
            p == self.irq_pending,
    {
        self.irq_pending
    }

    /// State after a reset: every register back to its power-on value; memory
    /// and mirroring kept.
    pub open spec fn reset_post(&self, old: &Self) -> bool {
        &&& self.wf()
        &&& self.regs@ == seq![0u8, 2, 4, 5, 6, 7, 0, 1]
        &&& *self == (MMC3Mapper {
            bank_select: 0,
            regs: self.regs,
            prg_ram_ctl: PRG_RAM_CTL_POWER_ON,
            irq_latch: 0,
            irq_counter: 0,
            irq_reload: false,
            irq_enabled: false,
            irq_pending: false,
            a12_high: false,
            a12_low_cycles: 0,
            ..*old
        })
    }

    pub fn reset(&mut self)
        requires
            old(self).wf(),
        ensures
            final(self).reset_post(old(self)),
    {
        self.bank_select = 0;
        self.regs = vec![0u8, 2, 4, 5, 6, 7, 0, 1];
        self.prg_ram_ctl = PRG_RAM_CTL_POWER_ON;
        self.irq_latch = 0;
        self.irq_counter = 0;
        self.irq_reload = false;
        self.irq_enabled = false;
        self.irq_pending = false;
        self.a12_high = false;
        self.a12_low_cycles = 0;
    }

    /// Register snapshot: bank select, R0-R7, mirroring, `$A001`, IRQ latch,
    /// counter, reload/enable/pending flags, A12 level and low-cycle count.
    pub open spec fn snapshot(&self) -> Seq<u8> {
        seq![self.bank_select] + self.regs@ + seq![
            layout_byte(self.base.mirroring),
            self.prg_ram_ctl,
            self.irq_latch,
            self.irq_counter,
            bool_byte(self.irq_reload),
            bool_byte(self.irq_enabled),
            bool_byte(self.irq_pending),
            bool_byte(self.a12_high),
            self.a12_low_cycles,
        ]
    }

    pub fn registers_snapshot(&self) -> (s: Vec<u8>)
        requires
            self.wf(),
        ensures
            s@ == self.snapshot(),
    {
        let mut s: Vec<u8> = Vec::new();
        s.push(self.bank_select);
        let mut i: usize = 0;
        while i < 8
            invariant
                self.wf(),
                0 <= i <= 8,
                s@ =~= seq![self.bank_select] + self.regs@.subrange(0, i as int),
            decreases 8 - i,
        {
            s.push(self.regs[i]);
            i = i + 1;
        }
        s.push(self.base.mirroring.to_snapshot_byte());
        s.push(self.prg_ram_ctl);
        s.push(self.irq_latch);
        s.push(self.irq_counter);
        s.push(if self.irq_reload { 1 } else { 0 });
        s.push(if self.irq_enabled { 1 } else { 0 });
        s.push(if self.irq_pending { 1 } else { 0 });
        s.push(if self.a12_high { 1 } else { 0 });
        s.push(self.a12_low_cycles);
        proof {
            assert(self.regs@.subrange(0, 8) =~= self.regs@);
            assert(s@ =~= self.snapshot());
        }
        s
    }

    /// State after restoring from `data`: a snapshot's worth of bytes is read
    /// from its start; shorter data changes nothing.
    pub open spec fn restore_post(&self, old: &Self, data: Seq<u8>) -> bool {
        if data.len() < SNAPSHOT_LEN {
            *self == *old
        } else {
            &&& self.wf()
            &&& self.regs@ == data.subrange(1, 9)
            &&& self.base.mirroring == layout_from_byte(data[9])
            &&& self.base.same_memory(&old.base)
            &&& self.base.prg_pages@ == old.base.prg_pages@
            &&& self.base.chr_pages@ == old.base.chr_pages@
            &&& self.base.prg_6000_page == old.base.prg_6000_page
            &&& *self == (MMC3Mapper {
                base: self.base,
                bank_select: data[0],
                regs: self.regs,
                prg_ram_ctl: data[10],
                irq_latch: data[11],
                irq_counter: data[12],
                irq_reload: data[13] != 0,
                irq_enabled: data[14] != 0,
                irq_pending: data[15] != 0,
                a12_high: data[16] != 0,
                a12_low_cycles: data[17],
                ..*old
            })
        }
    }

    pub fn restore_registers(&mut self, data: &[u8])
        requires
            old(self).wf(),
        ensures
            final(self).restore_post(old(self), data@),
    {
        if data.len() < SNAPSHOT_LEN {
            return;
        }
        let mut regs: Vec<u8> = Vec::new();
        let mut i: usize = 0;
        while i < 8
            invariant
                0 <= i <= 8,
                data@.len() >= SNAPSHOT_LEN,
                regs@ =~= data@.subrange(1, 1 + i as int),
            decreases 8 - i,
        {
            regs.push(data[1 + i]);
            i = i + 1;
        }
        self.bank_select = data[0];
        self.regs = regs;
        let layout = NametableLayout::from_snapshot_byte(data[9]);
        self.base.set_mirroring(layout);
        self.prg_ram_ctl = data[10];
        self.irq_latch = data[11];
        self.irq_counter = data[12];
        self.irq_reload = data[13] != 0;
        self.irq_enabled = data[14] != 0;
        self.irq_pending = data[15] != 0;
        self.a12_high = data[16] != 0;
        self.a12_low_cycles = data[17];
    }

    pub fn initialize_ram(&mut self, mode: RamInitMode)
        requires
            old(self).wf(),
        ensures
            final(self).wf(),
            final(self).same_registers(old(self)),
            final(self).base.prg_ram@ == Seq::new(old(self).base.prg_ram@.len(), |i: int| ram_init_byte(mode)),
            final(self).base.same_layout(&old(self).base),
            final(self).base.prg_pages@ == old(self).base.prg_pages@,
            final(self).base.chr_pages@ == old(self).base.chr_pages@,
            final(self).base.prg_6000_page == old(self).base.prg_6000_page,
            final(self).base.mirroring == old(self).base.mirroring,
    {
        self.base.initialize_ram(mode);
    }

    pub fn wram_size(&self) -> (n: usize)
        ensures
            n == self.base.prg_ram@.len(),
    {
        self.base.wram_size()
    }

    pub fn wram_snapshot(&self) -> (s: Vec<u8>)
        ensures
            s@ == self.base.prg_ram@,
    {
        self.base.wram_snapshot()
    }

    /// Copies the leading bytes of `data` (at most the RAM size) into PRG-RAM.
    pub fn load_wram_snapshot(&mut self, data: &[u8])
        requires
            old(self).wf(),
        ensures
            final(self).wf(),
            final(self).same_registers(old(self)),
            final(self).base.same_layout(&old(self).base),
            final(self).base.mirroring == old(self).base.mirroring,
            final(self).base.prg_ram@ == (if data@.len() < old(self).base.prg_ram@.len() {
                data@ + old(self).base.prg_ram@.subrange(data@.len() as int, old(self).base.prg_ram@.len() as int)
            } else {
                data@.subrange(0, old(self).base.prg_ram@.len() as int)
            }),
    {
        self.base.load_wram_snapshot(data);
    }

    pub fn read_chr(&self, addr: u16) -> (v: u8)
        requires
            self.wf(),
        ensures
            v == self.spec_read_chr(addr),
    {
        let bank = self.mapped_chr_1k_bank(addr);
        proof { crate::bits::lemma_addr_fields(addr); }
        self.read_chr_1k_at(bank, (addr & 0x3FF) as usize)
    }
}

} // verus!

verus! {

/// Restoring a core from its own snapshot brings back every register and
/// the mirroring.
/// The restored board then snapshots to the same bytes.
pub proof fn lemma_snapshot_roundtrip(m: MMC3Mapper, before: MMC3Mapper, restored: MMC3Mapper)
    requires
        m.wf(),
        restored.restore_post(&before, m.snapshot()),
    ensures
        restored.bank_select == m.bank_select,
        restored.regs@ == m.regs@,
        restored.base.mirroring == m.base.mirroring,
        restored.prg_ram_ctl == m.prg_ram_ctl,
        restored.irq_latch == m.irq_latch,
        restored.irq_counter == m.irq_counter,
        restored.irq_reload == m.irq_reload,
        restored.irq_enabled == m.irq_enabled,
        restored.irq_pending == m.irq_pending,
        restored.a12_high == m.a12_high,
        restored.a12_low_cycles == m.a12_low_cycles,
        restored.snapshot() == m.snapshot(),
{
    let s = m.snapshot();
    assert(s.len() == SNAPSHOT_LEN);
    assert(s.subrange(1, 9) =~= m.regs@);
    crate::cartridge::lemma_layout_byte_roundtrip(m.base.mirroring);
}

} // verus!

verus! {

/// After `$C001` (reload) with IRQs enabled and none pending, the counter
/// counts down from the latch: the first `latch` clocks raise no IRQ and the
/// next one does.
pub proof fn lemma_irq_after_latch_plus_one_clocks(m: MMC3Mapper, k: nat)
    requires
        m.irq_reload,
        m.irq_enabled,
        !m.irq_pending,
        1 <= k <= m.irq_latch + 1,
    ensures
        m.clocked_n(k).irq_counter == m.irq_latch - (k - 1),
        !m.clocked_n(k).irq_reload,
        m.clocked_n(k).irq_enabled,
        m.clocked_n(k).irq_latch == m.irq_latch,
        m.clocked_n(k).alt_irq == m.alt_irq,
        m.clocked_n(k).irq_pending == (k == m.irq_latch + 1),
    decreases k,
{
    let prev = m.clocked_n((k - 1) as nat);
    assert(m.clocked_n(k) == prev.clocked());
    if k > 1 {
        lemma_irq_after_latch_plus_one_clocks(m, (k - 1) as nat);
    } else {
        assert(prev == m);
    }
}

} // verus!
