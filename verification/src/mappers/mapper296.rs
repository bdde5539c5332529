//! Mapper 296 - VT3x (FC Pocket RS-20 / dreamGEAR My Arcade Gamer V).
//!
//! A multi-mode board: `$411D` bits 1:0 pick the legacy banking in use
//! (0 = MMC3, 1 = MMC1, 2 = UNROM, 3 = CNROM) and bit 2 switches the pattern
//! space to an unbanked 8 KiB CHR-RAM. `$412C` (bits 3:0 = CHR A26, PRG A26,
//! CHR A25, PRG A25) and `$412E` (bit 0 = A27 for both) extend the bank numbers
//! of every mode:
//!
//! - PRG 8 KiB bank = `(A27 << 14) | (A26 << 13) | (A25 << 12) | inner`,
//! - CHR 1 KiB bank = `(A27 << 17) | (A26 << 16) | (A25 << 15) | inner`.
//!
//! `$411E` (encryption control) is accepted and ignored. The MMC3 counter
//! and IRQ are only active in MMC3 mode. The board has no PRG-RAM.
use vstd::prelude::*;
use crate::cartridge::{NametableLayout, MapperCapabilities, MapperContext, RamInitMode, ram_init_byte};
use crate::base_mapper::{BaseMapper, slice_prefix, copy_prefix, fill_bytes, copy_bytes};
use crate::mmc3::MMC3Mapper;

verus! {

pub const MAPPER_NUMBER: u16 = 296;
pub const CHR_RAM_SIZE: usize = 8 * 1024;
pub const MODE_MASK: u8 = 0x03;
pub const CHR_RAM_BIT: u8 = 0x04;
pub const PRG_A25_BIT: u8 = 0x01;
pub const CHR_A25_BIT: u8 = 0x02;
pub const PRG_A26_BIT: u8 = 0x04;
pub const CHR_A26_BIT: u8 = 0x08;
pub const A27_BIT: u8 = 0x01;
pub const MMC1_PRG_MODE_MASK: u8 = 0x0C;
pub const MMC1_CHR_MODE_BIT: u8 = 0x10;
/// Power-on MMC1 control: PRG mode 3 (`$C000` fixed to the last bank).
pub const MMC1_CONTROL_POWER_ON: u8 = 0x0C;
/// Bytes the board appends to the MMC3 snapshot.
pub const TAIL_LEN: usize = 11;

/// Layout selected by the two low bits of an MMC1 control value.
pub open spec fn mmc1_layout(control: u8) -> NametableLayout {
    let m = control & 0x03;
    if m == 0 {
        NametableLayout::SingleScreenLower
    } else if m == 1 {
        NametableLayout::SingleScreenUpper
    } else if m == 2 {
        NametableLayout::Vertical
    } else {
        NametableLayout::Horizontal
    }
}

/// Mapper 296 - VT3x multi-mode board.
pub struct Mapper296 {
    pub mmc3: MMC3Mapper,
    /// `$411D`: bits 1:0 mode, bit 2 CHR-RAM.
    pub config_reg: u8,
    /// `$412C`: bit 0 PRG A25, bit 1 CHR A25, bit 2 PRG A26, bit 3 CHR A26.
    pub outer_reg: u8,
    /// `$412E`: bit 0 A27.
    pub outer_reg2: u8,
    pub chr_ram: Vec<u8>,
    /// UNROM mode: 16 KiB bank at `$8000`.
    pub unrom_bank: u8,
    /// CNROM mode: 8 KiB CHR bank.
    pub cnrom_bank: u8,
    /// MMC1 mode: serial shift register and the number of bits shifted in.
    pub mmc1_shift: u8,
    pub mmc1_count: u8,
    pub mmc1_control: u8,
    pub mmc1_chr0: u8,
    pub mmc1_chr1: u8,
    pub mmc1_prg: u8,
}

impl Mapper296 {
    pub open spec fn wf(&self) -> bool {
        &&& self.mmc3.wf()
        &&& self.mmc3.base.prg_ram@.len() == 0
        &&& self.chr_ram@.len() == CHR_RAM_SIZE
    }

    /// Writes that the board takes without fault: an MMC1 serial write needs
    /// fewer than 8 bits in the shift register (a snapshot may restore more).
    pub open spec fn write_ok(&self, addr: u16, value: u8) -> bool {
        !(self.spec_mapper_mode() == 1 && addr >= 0x8000 && value & 0x80 == 0 && self.mmc1_count >= 8)
    }

    pub open spec fn spec_mapper_mode(&self) -> u8 {
        self.config_reg & MODE_MASK
    }

    pub open spec fn spec_chr_ram_enabled(&self) -> bool {
        self.config_reg & CHR_RAM_BIT != 0
    }

    pub open spec fn spec_prg_8kb_outer_offset(&self) -> usize {
        (if self.outer_reg2 & A27_BIT != 0 { 0x4000usize } else { 0 })
            | (if self.outer_reg & PRG_A26_BIT != 0 { 0x2000usize } else { 0 })
            | (if self.outer_reg & PRG_A25_BIT != 0 { 0x1000usize } else { 0 })
    }

    pub open spec fn spec_chr_1kb_outer_offset(&self) -> usize {
        (if self.outer_reg2 & A27_BIT != 0 { 0x20000usize } else { 0 })
            | (if self.outer_reg & CHR_A26_BIT != 0 { 0x10000usize } else { 0 })
            | (if self.outer_reg & CHR_A25_BIT != 0 { 0x8000usize } else { 0 })
    }

    pub open spec fn spec_chr_8kb_outer_offset(&self) -> usize {
        (if self.outer_reg2 & A27_BIT != 0 { 0x4000usize } else { 0 })
            | (if self.outer_reg & CHR_A26_BIT != 0 { 0x2000usize } else { 0 })
            | (if self.outer_reg & CHR_A25_BIT != 0 { 0x1000usize } else { 0 })
    }

    /// Second-last and last 8 KiB PRG banks (0 when there are too few).
    pub open spec fn second_last(&self) -> usize {
        if self.mmc3.prg_count() >= 2 { (self.mmc3.prg_count() - 2) as usize } else { 0 }
    }

    pub open spec fn last(&self) -> usize {
        if self.mmc3.prg_count() >= 1 { (self.mmc3.prg_count() - 1) as usize } else { 0 }
    }

    /// The 8 KiB PRG bank shown at `addr` (`$8000-$FFFF`) in the current mode.
    pub open spec fn spec_prg_bank(&self, addr: u16) -> usize {
        let outer = self.spec_prg_8kb_outer_offset();
        let mode = self.spec_mapper_mode();
        if mode == 0 {
            outer | (self.mmc3.spec_mapped_prg_bank(addr) as usize)
        } else if mode == 1 {
            let prg_mode = (self.mmc1_control & MMC1_PRG_MODE_MASK) >> 2;
            let bank_16kb = (self.mmc1_prg & 0x0F) as usize;
            if prg_mode <= 1 {
                let base = ((bank_16kb & !1usize) * 2) as usize;
                let slot = (((addr - 0x8000) as usize) >> 13) & 0x03;
                outer | ((base + slot) as usize)
            } else if prg_mode == 2 {
                if addr < 0xA000 {
                    outer
                } else if addr < 0xC000 {
                    outer | 1
                } else if addr < 0xE000 {
                    outer | ((bank_16kb * 2) as usize)
                } else {
                    outer | ((bank_16kb * 2 + 1) as usize)
                }
            } else {
                if addr < 0xA000 {
                    outer | ((bank_16kb * 2) as usize)
                } else if addr < 0xC000 {
                    outer | ((bank_16kb * 2 + 1) as usize)
                } else if addr < 0xE000 {
                    outer | self.second_last()
                } else {
                    outer | self.last()
                }
            }
        } else if mode == 2 {
            if addr < 0xA000 {
                outer | ((self.unrom_bank as usize * 2) as usize)
            } else if addr < 0xC000 {
                outer | ((self.unrom_bank as usize * 2 + 1) as usize)
            } else if addr < 0xE000 {
                outer | self.second_last()
            } else {
                outer | self.last()
            }
        } else {
            let slot = ((addr - 0x8000) as usize) >> 13;
            outer | (slot & 0x03)
        }
    }

    /// The 1 KiB CHR bank shown at `addr` in the current mode (CHR-ROM side).
    pub open spec fn spec_chr_bank(&self, addr: u16) -> usize {
        let mode = self.spec_mapper_mode();
        let outer = self.spec_chr_1kb_outer_offset();
        let sub = ((addr & 0x1FFF) >> 10) as usize;
        if mode == 0 {
            outer | (self.mmc3.spec_mapped_chr_1k_bank(addr) as usize)
        } else if mode == 1 {
            if self.mmc1_control & MMC1_CHR_MODE_BIT == 0 {
                outer | (((self.mmc1_chr0 & 0xFE) as usize * 4 + sub) as usize)
            } else if addr & 0x1000 == 0 {
                outer | ((self.mmc1_chr0 as usize * 4 + ((addr & 0x0FFF) >> 10) as usize) as usize)
            } else {
                outer | ((self.mmc1_chr1 as usize * 4 + ((addr & 0x0FFF) >> 10) as usize) as usize)
            }
        } else if mode == 2 {
            outer | sub
        } else {
            ((self.spec_chr_8kb_outer_offset() | (self.cnrom_bank & 0x03) as usize) * 8 + sub) as usize
        }
    }

    pub open spec fn spec_read_prg(&self, addr: u16) -> u8 {
        if addr >= 0x8000 {
            self.mmc3.prg_byte(self.spec_prg_bank(addr) as nat, (addr & 0x1FFF) as nat)
        } else {
            0
        }
    }

    pub open spec fn spec_read_chr(&self, addr: u16) -> u8 {
        if self.spec_chr_ram_enabled() {
            self.chr_ram@[(addr & 0x1FFF) as int]
        } else {
            self.mmc3.chr_byte(self.spec_chr_bank(addr) as nat, (addr & 0x3FF) as nat)
        }
    }

    pub open spec fn spec_read_prg_open_bus(&self, addr: u16, open_bus: u8) -> u8 {
        if addr >= 0x8000 { self.spec_read_prg(addr) } else { open_bus }
    }

    pub open spec fn read_ok(&self, addr: u16) -> bool {
        true
    }

    pub open spec fn spec_mirroring(&self) -> NametableLayout {
        self.mmc3.base.mirroring
    }

    pub open spec fn spec_irq_pending(&self) -> bool {
        self.spec_mapper_mode() == 0 && self.mmc3.irq_pending
    }

    pub open spec fn spec_capabilities(&self) -> MapperCapabilities {
        MapperCapabilities {
            has_irq: self.spec_mapper_mode() == 0,
            has_expansion_audio: false,
            has_chr_banking: true,
            has_dynamic_mirroring: true,
            max_prg_ram_kb: 0,
            prg_bank_size_kb: 8,
            chr_bank_size_kb: 1,
        }
    }

    /// The board after an MMC1 serial write of `value` to `addr`, apart from
    /// the mirroring that a control write also sets.
    pub open spec fn mmc1_after_write(&self, addr: u16, value: u8) -> Mapper296 {
        if value & 0x80 != 0 {
            Mapper296 { mmc1_shift: 0, mmc1_count: 0, mmc1_control: self.mmc1_control | 0x0C, ..*self }
        } else {
            let shift = self.mmc1_shift | ((value & 1) << self.mmc1_count);
            let count = (self.mmc1_count + 1) as u8;
            if count == 5 {
                let target = addr & 0x6000;
                if target == 0x0000 {
                    Mapper296 { mmc1_shift: 0, mmc1_count: 0, mmc1_control: shift & 0x1F, ..*self }
                } else if target == 0x2000 {
                    Mapper296 { mmc1_shift: 0, mmc1_count: 0, mmc1_chr0: shift & 0x1F, ..*self }
                } else if target == 0x4000 {
                    Mapper296 { mmc1_shift: 0, mmc1_count: 0, mmc1_chr1: shift & 0x1F, ..*self }
                } else {
                    Mapper296 { mmc1_shift: 0, mmc1_count: 0, mmc1_prg: shift & 0x1F, ..*self }
                }
            } else {
                Mapper296 { mmc1_shift: shift, mmc1_count: count, ..*self }
            }
        }
    }

    /// Whether an MMC1 serial write of `value` to `addr` loads the control register.
    pub open spec fn mmc1_loads_control(&self, addr: u16, value: u8) -> bool {
        value & 0x80 == 0 && self.mmc1_count == 4 && addr & 0x6000 == 0
    }

    /// `self` is `target` except for the MMC3 base, whose only change is the mirroring.
    pub open spec fn is_with_mirroring(&self, target: Mapper296, layout: NametableLayout) -> bool {
        &&& self.mmc3.base.mirroring == layout
        &&& self.mmc3.base.same_memory(&target.mmc3.base)
        &&& self.mmc3.base.prg_pages@ == target.mmc3.base.prg_pages@
        &&& self.mmc3.base.chr_pages@ == target.mmc3.base.chr_pages@
        &&& self.mmc3.base.prg_6000_page == target.mmc3.base.prg_6000_page
        &&& *self == (Mapper296 { mmc3: MMC3Mapper { base: self.mmc3.base, ..target.mmc3 }, ..target })
    }

    pub open spec fn write_post(&self, old: &Self, addr: u16, value: u8) -> bool {
        &&& self.wf()
        &&& if addr == 0x411D {
            *self == (Mapper296 { config_reg: value & 0x07, ..*old })
        } else if addr == 0x412C {
            *self == (Mapper296 { outer_reg: value & 0x0F, ..*old })
        } else if addr == 0x412E {
            *self == (Mapper296 { outer_reg2: value & 0x01, ..*old })
        } else if addr >= 0x8000 {
            let mode = old.spec_mapper_mode();
            if mode == 0 {
                &&& self.mmc3.write_post(&old.mmc3, addr, value)
                &&& *self == (Mapper296 { mmc3: self.mmc3, ..*old })
            } else if mode == 1 {
                if old.mmc1_loads_control(addr, value) {
                    let next = old.mmc1_after_write(addr, value);
                    self.is_with_mirroring(next, mmc1_layout(next.mmc1_control))
                } else {
                    *self == old.mmc1_after_write(addr, value)
                }
            } else if mode == 2 {
                *self == (Mapper296 { unrom_bank: value & 0x0F, ..*old })
            } else {
                *self == (Mapper296 { cnrom_bank: value & 0x03, ..*old })
            }
        } else {
            *self == *old
        }
    }

    pub open spec fn write_chr_post(&self, old: &Self, addr: u16, value: u8) -> bool {
        &&& self.wf()
        &&& if old.spec_chr_ram_enabled() {
            &&& self.chr_ram@ == old.chr_ram@.update((addr & 0x1FFF) as int, value)
            &&& *self == (Mapper296 { chr_ram: self.chr_ram, ..*old })
        } else {
            &&& self.mmc3.chr_write_post(&old.mmc3, old.mmc3.spec_mapped_chr_1k_bank(addr), (addr & 0x3FF) as nat, value)
            &&& *self == (Mapper296 { mmc3: self.mmc3, ..*old })
        }
    }

    pub open spec fn tail(&self) -> Seq<u8> {
        seq![
            self.config_reg,
            self.outer_reg,
            self.outer_reg2,
            self.unrom_bank,
            self.cnrom_bank,
            self.mmc1_shift,
            self.mmc1_count,
            self.mmc1_control,
            self.mmc1_chr0,
            self.mmc1_chr1,
            self.mmc1_prg,
        ]
    }

    pub open spec fn snapshot(&self) -> Seq<u8> {
        self.mmc3.snapshot() + self.tail()
    }

    /// State after a restore: data shorter than the board's own bytes changes
    /// nothing; otherwise the last bytes are the board's registers (taken
    /// as they are) and the rest goes to the MMC3.
    pub open spec fn restore_post(&self, old: &Self, data: Seq<u8>) -> bool {
        let n = data.len();
        if n < TAIL_LEN {
            *self == *old
        } else {
            let t = data.subrange(n - TAIL_LEN, n as int);
            &&& self.wf()
            &&& self.mmc3.restore_post(&old.mmc3, data.subrange(0, n - TAIL_LEN))
            &&& self.tail() == t
            &&& self.chr_ram == old.chr_ram
        }
    }

    pub open spec fn reset_post(&self, old: &Self) -> bool {
        &&& self.wf()
        &&& self.mmc3.reset_post(&old.mmc3)
        &&& *self == (Mapper296 {
            mmc3: self.mmc3,
            config_reg: 0,
            outer_reg: 0,
            outer_reg2: 0,
            unrom_bank: 0,
            cnrom_bank: 0,
            mmc1_shift: 0,
            mmc1_count: 0,
            mmc1_control: MMC1_CONTROL_POWER_ON,
            mmc1_chr0: 0,
            mmc1_chr1: 0,
            mmc1_prg: 0,
            ..*old
        })
    }

    pub open spec fn cycle_ok(&self) -> bool {
        true
    }

    /// The MMC3 counts cycles only in MMC3 mode.
    pub open spec fn cycle_post(&self, old: &Self) -> bool {
        if old.spec_mapper_mode() == 0 {
            &&& self.mmc3.cycle_post(&old.mmc3)
            &&& *self == (Mapper296 { mmc3: self.mmc3, ..*old })
        } else {
            *self == *old
        }
    }

    pub open spec fn ppu_address_post(&self, old: &Self, addr: u16) -> bool {
        if old.spec_mapper_mode() == 0 {
            &&& self.mmc3.ppu_address_post(&old.mmc3, addr)
            &&& *self == (Mapper296 { mmc3: self.mmc3, ..*old })
        } else {
            *self == *old
        }
    }

    pub fn new(ctx: MapperContext) -> (m: Self)
        ensures
            m.wf(),
            m.mmc3.base.prg_rom@ == ctx.prg_rom@,
            m.mmc3.base.chr_from(ctx.chr_rom@),
            m.mmc3.bank_select == 0,
            m.mmc3.regs@ == seq![0u8, 2, 4, 5, 6, 7, 0, 1],
            m.chr_ram@ == Seq::new(CHR_RAM_SIZE as nat, |i: int| 0u8),
            m.tail() == seq![0u8, 0, 0, 0, 0, 0, 0, MMC1_CONTROL_POWER_ON, 0, 0, 0],
            m.mmc3.base.mirroring == ctx.mirroring,
            m.mmc3.prg_ram_ctl == crate::mmc3::PRG_RAM_CTL_POWER_ON,
            m.mmc3.irq_latch == 0,
            m.mmc3.irq_counter == 0,
            !m.mmc3.irq_reload,
            !m.mmc3.irq_enabled,
            !m.mmc3.irq_pending,
            m.mmc3.base.capabilities == (MapperCapabilities { has_irq: true, has_expansion_audio: false, has_chr_banking: true, has_dynamic_mirroring: true, max_prg_ram_kb: 0, prg_bank_size_kb: 8, chr_bank_size_kb: 1 }),
    {
        let capabilities = MapperCapabilities {
            has_irq: true,
            has_expansion_audio: false,
            has_chr_banking: true,
            has_dynamic_mirroring: true,
            max_prg_ram_kb: 0,
            prg_bank_size_kb: 8,
            chr_bank_size_kb: 1,
        };
        let mmc3 = MMC3Mapper::new_with_irq_mode_and_prg_ram_banks(&ctx, capabilities, false, 0);
        let chr_ram = vec![0u8; CHR_RAM_SIZE];
        proof {
            assert(chr_ram@ =~= Seq::new(CHR_RAM_SIZE as nat, |i: int| 0u8));
        }
        Mapper296 {
            mmc3,
            config_reg: 0,
            outer_reg: 0,
            outer_reg2: 0,
            chr_ram,
            unrom_bank: 0,
            cnrom_bank: 0,
            mmc1_shift: 0,
            mmc1_count: 0,
            mmc1_control: MMC1_CONTROL_POWER_ON,
            mmc1_chr0: 0,
            mmc1_chr1: 0,
            mmc1_prg: 0,
        }
    }

    pub fn mapper_mode(&self) -> (m: u8)
        ensures
            m == self.spec_mapper_mode(),
    {
        self.config_reg & MODE_MASK
    }

    pub fn chr_ram_enabled(&self) -> (b: bool)
        ensures
            b == self.spec_chr_ram_enabled(),
    {
        (self.config_reg & CHR_RAM_BIT) != 0
    }

    /// PRG outer offset in 8 KiB banks: A25 is bit 12, A26 bit 13, A27 bit 14.
    pub fn prg_8kb_outer_offset(&self) -> (o: usize)
        ensures
            o == self.spec_prg_8kb_outer_offset(),
    {
        let a27: usize = if self.outer_reg2 & A27_BIT != 0 { 0x4000 } else { 0 };
        let a26: usize = if self.outer_reg & PRG_A26_BIT != 0 { 0x2000 } else { 0 };
        let a25: usize = if self.outer_reg & PRG_A25_BIT != 0 { 0x1000 } else { 0 };
        a27 | a26 | a25
    }

    /// CHR outer offset in 1 KiB banks: A25 is bit 15, A26 bit 16, A27 bit 17.
    pub fn chr_1kb_outer_offset(&self) -> (o: usize)
        ensures
            o == self.spec_chr_1kb_outer_offset(),
    {
        let a27: usize = if self.outer_reg2 & A27_BIT != 0 { 0x20000 } else { 0 };
        let a26: usize = if self.outer_reg & CHR_A26_BIT != 0 { 0x10000 } else { 0 };
        let a25: usize = if self.outer_reg & CHR_A25_BIT != 0 { 0x8000 } else { 0 };
        a27 | a26 | a25
    }

    /// CHR outer offset in 8 KiB banks (CNROM mode).
    pub fn chr_8kb_outer_offset(&self) -> (o: usize)
        ensures
            o == self.spec_chr_8kb_outer_offset(),
            o <= 0x7000,
            o & 0x0FFF == 0,
    {
        let a27: usize = if self.outer_reg2 & A27_BIT != 0 { 0x4000 } else { 0 };
        let a26: usize = if self.outer_reg & CHR_A26_BIT != 0 { 0x2000 } else { 0 };
        let a25: usize = if self.outer_reg & CHR_A25_BIT != 0 { 0x1000 } else { 0 };
        assert((a27 | a26 | a25) <= 0x7000 && (a27 | a26 | a25) & 0x0FFF == 0) by (bit_vector)
            requires
                a27 == 0 || a27 == 0x4000,
                a26 == 0 || a26 == 0x2000,
                a25 == 0 || a25 == 0x1000;
        a27 | a26 | a25
    }

    fn last_two_banks(&self) -> (r: (usize, usize))
        requires
            self.wf(),
        ensures
            r.0 == self.second_last(),
            r.1 == self.last(),
    {
        let count = self.mmc3.base.prg_bank_count();
        (if count >= 2 { count - 2 } else { 0 }, if count >= 1 { count - 1 } else { 0 })
    }

    fn prg_bank(&self, addr: u16) -> (b: usize)
        requires
            self.wf(),
            addr >= 0x8000,
        ensures
            b == self.spec_prg_bank(addr),
    {
        let outer = self.prg_8kb_outer_offset();
        let mode = self.mapper_mode();
        if mode == 0 {
            outer | self.mmc3.mapped_prg_bank(addr)
        } else if mode == 1 {
            let prg_mode = (self.mmc1_control & MMC1_PRG_MODE_MASK) >> 2;
            let p = self.mmc1_prg;
            proof { crate::bits::lemma_byte_fields(p); }
            let bank_16kb = (p & 0x0F) as usize;
            if prg_mode <= 1 {
                proof { crate::bits::lemma_usize_fields(bank_16kb); }
                let base = (bank_16kb & !1usize) * 2;
                let off = (addr - 0x8000) as usize;
                let slot = (off >> 13) & 0x03;
                proof { crate::bits::lemma_usize_fields(off); }
                outer | (base + slot)
            } else if prg_mode == 2 {
                if addr < 0xA000 {
                    outer
                } else if addr < 0xC000 {
                    outer | 1
                } else if addr < 0xE000 {
                    outer | (bank_16kb * 2)
                } else {
                    outer | (bank_16kb * 2 + 1)
                }
            } else {
                let (second_last, last) = self.last_two_banks();
                if addr < 0xA000 {
                    outer | (bank_16kb * 2)
                } else if addr < 0xC000 {
                    outer | (bank_16kb * 2 + 1)
                } else if addr < 0xE000 {
                    outer | second_last
                } else {
                    outer | last
                }
            }
        } else if mode == 2 {
            let (second_last, last) = self.last_two_banks();
            if addr < 0xA000 {
                outer | (self.unrom_bank as usize * 2)
            } else if addr < 0xC000 {
                outer | (self.unrom_bank as usize * 2 + 1)
            } else if addr < 0xE000 {
                outer | second_last
            } else {
                outer | last
            }
        } else {
            let slot = ((addr - 0x8000) as usize) >> 13;
            outer | (slot & 0x03)
        }
    }

    fn chr_bank(&self, addr: u16) -> (b: usize)
        requires
            self.wf(),
        ensures
            b == self.spec_chr_bank(addr),
    {
        let mode = self.mapper_mode();
        let outer = self.chr_1kb_outer_offset();
        let sub = ((addr & 0x1FFF) >> 10) as usize;
        proof { crate::bits::lemma_addr_fields(addr); }
        if mode == 0 {
            outer | self.mmc3.mapped_chr_1k_bank(addr)
        } else if mode == 1 {
            if self.mmc1_control & MMC1_CHR_MODE_BIT == 0 {
                outer | ((self.mmc1_chr0 & 0xFE) as usize * 4 + sub)
            } else if addr & 0x1000 == 0 {
                outer | (self.mmc1_chr0 as usize * 4 + ((addr & 0x0FFF) >> 10) as usize)
            } else {
                outer | (self.mmc1_chr1 as usize * 4 + ((addr & 0x0FFF) >> 10) as usize)
            }
        } else if mode == 2 {
            outer | sub
        } else {
            let o8 = self.chr_8kb_outer_offset();
            let c = self.cnrom_bank;
            assert((o8 | (c & 0x03) as usize) <= 0x7003) by (bit_vector)
                requires o8 <= 0x7000usize, o8 & 0x0FFF == 0usize;
            (o8 | (c & 0x03) as usize) * 8 + sub
        }
    }

    pub fn read_prg(&self, addr: u16) -> (v: u8)
        requires
            self.wf(),
        ensures
            v == self.spec_read_prg(addr),
    {
        if addr >= 0x8000 {
            let bank = self.prg_bank(addr);
            proof { crate::bits::lemma_addr_fields(addr); }
            self.mmc3.read_prg_at_bank(bank, (addr & 0x1FFF) as usize)
        } else {
            0
        }
    }

    /// `read_prg` at `$8000-$FFFF`; `open_bus` elsewhere.
    pub fn read_prg_open_bus(&self, addr: u16, open_bus: u8) -> (v: u8)
        requires
            self.wf(),
        ensures
            v == self.spec_read_prg_open_bus(addr, open_bus),
    {
        if addr >= 0x8000 {
            self.read_prg(addr)
        } else {
            open_bus
        }
    }

    pub fn read_chr(&self, addr: u16) -> (v: u8)
        requires
            self.wf(),
        ensures
            v == self.spec_read_chr(addr),
    {
        if self.chr_ram_enabled() {
            proof { crate::bits::lemma_addr_fields(addr); }
            return self.chr_ram[(addr & 0x1FFF) as usize];
        }
        let bank = self.chr_bank(addr);
        proof { crate::bits::lemma_addr_fields(addr); }
        self.mmc3.read_chr_1k_at(bank, (addr & 0x3FF) as usize)
    }

    pub fn mmc1_mirroring(&self) -> (l: NametableLayout)
        ensures
            l == mmc1_layout(self.mmc1_control),
    {
        let m = self.mmc1_control & 0x03;
        if m == 0 {
            NametableLayout::SingleScreenLower
        } else if m == 1 {
            NametableLayout::SingleScreenUpper
        } else if m == 2 {
            NametableLayout::Vertical
        } else {
            NametableLayout::Horizontal
        }
    }

    fn write_mmc1_serial(&mut self, addr: u16, value: u8)
        requires
            old(self).wf(),
            old(self).spec_mapper_mode() == 1,
            value & 0x80 == 0 ==> old(self).mmc1_count < 8,
        ensures
            final(self).wf(),
            old(self).mmc1_loads_control(addr, value) ==> {
                let next = old(self).mmc1_after_write(addr, value);
                final(self).is_with_mirroring(next, mmc1_layout(next.mmc1_control))
            },
            !old(self).mmc1_loads_control(addr, value) ==> *final(self) == old(self).mmc1_after_write(addr, value),
    {
        if value & 0x80 != 0 {
            self.mmc1_shift = 0;
            self.mmc1_count = 0;
            self.mmc1_control = self.mmc1_control | 0x0C;
            return;
        }
        self.mmc1_shift = self.mmc1_shift | ((value & 1) << self.mmc1_count);
        self.mmc1_count = self.mmc1_count + 1;
        if self.mmc1_count == 5 {
            let val = self.mmc1_shift;
            self.mmc1_shift = 0;
            self.mmc1_count = 0;
            let target = addr & 0x6000;
            if target == 0x0000 {
                self.mmc1_control = val & 0x1F;
                let layout = self.mmc1_mirroring();
                self.mmc3.base.set_mirroring(layout);
            } else if target == 0x2000 {
                self.mmc1_chr0 = val & 0x1F;
            } else if target == 0x4000 {
                self.mmc1_chr1 = val & 0x1F;
            } else {
                self.mmc1_prg = val & 0x1F;
            }
        }
    }

    pub fn write_prg(&mut self, addr: u16, value: u8)
        requires
            old(self).wf(),
            old(self).write_ok(addr, value),
        ensures
            final(self).write_post(old(self), addr, value),
    {
        if addr == 0x411D {
            self.config_reg = value & 0x07;
        } else if addr == 0x412C {
            self.outer_reg = value & 0x0F;
        } else if addr == 0x412E {
            self.outer_reg2 = value & 0x01;
        } else if addr >= 0x8000 {
            let mode = self.mapper_mode();
            if mode == 0 {
                self.mmc3.write_prg(addr, value);
            } else if mode == 1 {
                self.write_mmc1_serial(addr, value);
            } else if mode == 2 {
                self.unrom_bank = value & 0x0F;
            } else {
                self.cnrom_bank = value & 0x03;
            }
        }
    }

    pub fn write_chr(&mut self, addr: u16, value: u8)
        requires
            old(self).wf(),
        ensures
            final(self).write_chr_post(old(self), addr, value),
    {
        if self.chr_ram_enabled() {
            proof { crate::bits::lemma_addr_fields(addr); }
            self.chr_ram.set((addr & 0x1FFF) as usize, value);
        } else {
            self.mmc3.write_chr(addr, value);
        }
    }

    pub fn registers_snapshot(&self) -> (s: Vec<u8>)
        requires
            self.wf(),
        ensures
            s@ == self.snapshot(),
    {
        let mut s = self.mmc3.registers_snapshot();
        s.push(self.config_reg);
        s.push(self.outer_reg);
        s.push(self.outer_reg2);
        s.push(self.unrom_bank);
        s.push(self.cnrom_bank);
        s.push(self.mmc1_shift);
        s.push(self.mmc1_count);
        s.push(self.mmc1_control);
        s.push(self.mmc1_chr0);
        s.push(self.mmc1_chr1);
        s.push(self.mmc1_prg);
        proof {
            assert(s@ =~= self.snapshot());
        }
        s
    }

    pub fn restore_registers(&mut self, data: &[u8])
        requires
            old(self).wf(),
        ensures
            final(self).restore_post(old(self), data@),
    {
        let n = data.len();
        if n < TAIL_LEN {
            return;
        }
        let t = n - TAIL_LEN;
        self.config_reg = data[t];
        self.outer_reg = data[t + 1];
        self.outer_reg2 = data[t + 2];
        self.unrom_bank = data[t + 3];
        self.cnrom_bank = data[t + 4];
        self.mmc1_shift = data[t + 5];
        self.mmc1_count = data[t + 6];
        self.mmc1_control = data[t + 7];
        self.mmc1_chr0 = data[t + 8];
        self.mmc1_chr1 = data[t + 9];
        self.mmc1_prg = data[t + 10];
        let head = slice_prefix(data, t);
        self.mmc3.restore_registers(head.as_slice());
        proof {
            assert(self.tail() =~= data@.subrange(t as int, n as int));
        }
    }

    pub fn initialize_ram(&mut self, mode: RamInitMode)
        requires
            old(self).wf(),
        ensures
            final(self).wf(),
            final(self).chr_ram@ == Seq::new(CHR_RAM_SIZE as nat, |i: int| ram_init_byte(mode)),
            final(self).tail() == old(self).tail(),
            final(self).mmc3.same_registers(&old(self).mmc3),
    {
        self.mmc3.initialize_ram(mode);
        let b: u8 = match mode {
            RamInitMode::Zero => 0x00,
            RamInitMode::Ones => 0xFF,
        };
        fill_bytes(&mut self.chr_ram, b);
    }

    /// The board keeps no battery-backed RAM.
    pub fn wram_snapshot(&self) -> (s: Vec<u8>)
        ensures
            s@.len() == 0,
    {
        Vec::new()
    }

    /// Nothing to restore: the board keeps no battery-backed RAM.
    pub fn load_wram_snapshot(&mut self, data: &[u8])
        ensures
            *final(self) == *old(self),
    {
    }

    pub fn wram_size(&self) -> (n: usize)
        ensures
            n == 0,
    {
        0
    }

    pub fn chr_ram_snapshot(&self) -> (s: Vec<u8>)
        ensures
            s@ == self.chr_ram@,
    {
        copy_bytes(&self.chr_ram)
    }

    /// Copies the leading bytes of `data` (at most 8 KiB) into CHR-RAM.
    pub fn restore_chr_ram(&mut self, data: &[u8])
        requires
            old(self).wf(),
        ensures
            final(self).wf(),
            final(self).chr_ram@ == (if data@.len() < CHR_RAM_SIZE {
                data@ + old(self).chr_ram@.subrange(data@.len() as int, CHR_RAM_SIZE as int)
            } else {
                data@.subrange(0, CHR_RAM_SIZE as int)
            }),
            *final(self) == (Mapper296 { chr_ram: final(self).chr_ram, ..*old(self) }),
    {
        copy_prefix(&mut self.chr_ram, data);
    }

    pub fn reset(&mut self)
        requires
            old(self).wf(),
        ensures
            final(self).reset_post(old(self)),
    {
        self.mmc3.reset();
        self.config_reg = 0;
        self.outer_reg = 0;
        self.outer_reg2 = 0;
        self.unrom_bank = 0;
        self.cnrom_bank = 0;
        self.mmc1_shift = 0;
        self.mmc1_count = 0;
        self.mmc1_control = MMC1_CONTROL_POWER_ON;
        self.mmc1_chr0 = 0;
        self.mmc1_chr1 = 0;
        self.mmc1_prg = 0;
    }

    pub fn cpu_cycle(&mut self)
        requires
            old(self).wf(),
        ensures
            final(self).cycle_post(old(self)),
    {
        if self.mapper_mode() == 0 {
            self.mmc3.cpu_cycle();
        }
    }

    pub fn ppu_address_changed(&mut self, addr: u16)
        requires
            old(self).wf(),
        ensures
            final(self).ppu_address_post(old(self), addr),
    {
        if self.mapper_mode() == 0 {
            self.mmc3.ppu_address_changed(addr);
        }
    }

    pub fn irq_pending(&self) -> (p: bool)
        ensures
            p == self.spec_irq_pending(),
    {
        self.mapper_mode() == 0 && self.mmc3.irq_pending
    }

    pub fn base(&self) -> (b: &BaseMapper)
        ensures
            *b == self.mmc3.base,
    {
        &self.mmc3.base
    }

    pub fn get_mirroring(&self) -> (m: NametableLayout)
        ensures
            m == self.spec_mirroring(),
    {
        self.mmc3.base.mirroring
    }

    /// IRQ support is reported only in MMC3 mode.
    pub fn capabilities(&self) -> (c: MapperCapabilities)
        ensures
            c == self.spec_capabilities(),
    {
        MapperCapabilities {
            has_irq: self.mapper_mode() == 0,
            has_expansion_audio: false,
            has_chr_banking: true,
            has_dynamic_mirroring: true,
            max_prg_ram_kb: 0,
            prg_bank_size_kb: 8,
            chr_bank_size_kb: 1,
        }
    }

    pub fn mapper_number(&self) -> (n: u16)
        ensures
            n == MAPPER_NUMBER,
    {
        MAPPER_NUMBER
    }
}

/// Restoring a board from its own snapshot brings back every register of
/// the board and of its MMC3.
/// The restored board then snapshots to the same bytes.
pub proof fn lemma_snapshot_roundtrip(m: Mapper296, before: Mapper296, restored: Mapper296)
    requires
        m.wf(),
        restored.restore_post(&before, m.snapshot()),
    ensures
        restored.tail() == m.tail(),
        restored.mmc3.bank_select == m.mmc3.bank_select,
        restored.mmc3.regs@ == m.mmc3.regs@,
        restored.mmc3.base.mirroring == m.mmc3.base.mirroring,
        restored.mmc3.irq_latch == m.mmc3.irq_latch,
        restored.mmc3.irq_counter == m.mmc3.irq_counter,
        restored.mmc3.irq_enabled == m.mmc3.irq_enabled,
        restored.mmc3.irq_pending == m.mmc3.irq_pending,
        restored.snapshot() == m.snapshot(),
{
    let s = m.snapshot();
    let n = s.len();
    assert(s.subrange(n - TAIL_LEN, n as int) =~= m.tail());
    assert(s.subrange(0, n - TAIL_LEN) =~= m.mmc3.snapshot());
    crate::mmc3::lemma_snapshot_roundtrip(m.mmc3, before.mmc3, restored.mmc3);
}

/// The value that five MMC1 serial writes of `v1`..`v5` shift in: bit 0 of
/// each, first write lowest.
pub open spec fn serial_value(v1: u8, v2: u8, v3: u8, v4: u8, v5: u8) -> u8 {
    (v1 & 1) | ((v2 & 1) << 1) | ((v3 & 1) << 2) | ((v4 & 1) << 3) | ((v5 & 1) << 4)
}

/// In MMC1 mode, five serial writes to `$8000-$FFFF` (none with bit 7 set)
/// starting from an empty shift register load the shifted-in value into the
/// register chosen by the last address (`$8000` control, `$A000` CHR 0,
/// `$C000` CHR 1, `$E000` PRG); the other three keep their values and the
/// shift register is empty again. A control load also sets the mirroring.
pub proof fn lemma_five_serial_writes(
    n0: Mapper296, n1: Mapper296, n2: Mapper296, n3: Mapper296, n4: Mapper296, n5: Mapper296,
    a1: u16, a2: u16, a3: u16, a4: u16, a5: u16,
    v1: u8, v2: u8, v3: u8, v4: u8, v5: u8,
)
    requires
        n0.spec_mapper_mode() == 1,
        n0.mmc1_count == 0,
        n0.mmc1_shift == 0,
        a1 >= 0x8000 && a2 >= 0x8000 && a3 >= 0x8000 && a4 >= 0x8000 && a5 >= 0x8000,
        v1 & 0x80 == 0 && v2 & 0x80 == 0 && v3 & 0x80 == 0 && v4 & 0x80 == 0 && v5 & 0x80 == 0,
        n1.write_post(&n0, a1, v1),
        n2.write_post(&n1, a2, v2),
        n3.write_post(&n2, a3, v3),
        n4.write_post(&n3, a4, v4),
        n5.write_post(&n4, a5, v5),
    ensures
        n5.mmc1_count == 0,
        n5.mmc1_shift == 0,
        n5.config_reg == n0.config_reg,
        n5.mmc1_control == (if a5 & 0x6000 == 0x0000 { serial_value(v1, v2, v3, v4, v5) } else { n0.mmc1_control }),
        n5.mmc1_chr0 == (if a5 & 0x6000 == 0x2000 { serial_value(v1, v2, v3, v4, v5) } else { n0.mmc1_chr0 }),
        n5.mmc1_chr1 == (if a5 & 0x6000 == 0x4000 { serial_value(v1, v2, v3, v4, v5) } else { n0.mmc1_chr1 }),
        n5.mmc1_prg == (if a5 & 0x6000 == 0x6000 { serial_value(v1, v2, v3, v4, v5) } else { n0.mmc1_prg }),
        a5 & 0x6000 == 0x0000 ==> n5.spec_mirroring() == mmc1_layout(n5.mmc1_control),
{
    let s1 = (0u8 | ((v1 & 1) << 0u8)) as u8;
    let s2 = (s1 | ((v2 & 1) << 1u8)) as u8;
    let s3 = (s2 | ((v3 & 1) << 2u8)) as u8;
    let s4 = (s3 | ((v4 & 1) << 3u8)) as u8;
    assert(n1.mmc1_shift == s1 && n1.mmc1_count == 1);
    assert(n2.mmc1_shift == s2 && n2.mmc1_count == 2);
    assert(n3.mmc1_shift == s3 && n3.mmc1_count == 3);
    assert(n4.mmc1_shift == s4 && n4.mmc1_count == 4);
    let t = a5 & 0x6000;
    assert(((s4 | ((v5 & 1) << 4u8)) as u8) & 0x1F == serial_value(v1, v2, v3, v4, v5)
        && (t == 0x0000 || t == 0x2000 || t == 0x4000 || t == 0x6000)) by (bit_vector)
        requires
            s1 == (0u8 | ((v1 & 1) << 0u8)) as u8,
            s2 == (s1 | ((v2 & 1) << 1u8)) as u8,
            s3 == (s2 | ((v3 & 1) << 2u8)) as u8,
            s4 == (s3 | ((v4 & 1) << 3u8)) as u8,
            t == a5 & 0x6000;
}

/// The first 8 KiB PRG bank of the outer block chosen by PRG A25 (`$412C`
/// bit 0), PRG A26 (`$412C` bit 2) and A27 (`$412E` bit 0): 512, 1024 and
/// 2048 KiB steps.
pub open spec fn prg_outer_base(outer_reg: u8, outer_reg2: u8) -> nat {
    (if outer_reg2 & 1 != 0 { 0x4000nat } else { 0 })
        + (if outer_reg & 4 != 0 { 0x2000nat } else { 0 })
        + (if outer_reg & 1 != 0 { 0x1000nat } else { 0 })
}

/// What MMC1 mode reads at `$8000-$FFFF`, by control bits 3:2 (PRG mode) and
/// the 16 KiB PRG register `p = prg & $0F`, within the outer block `o`:
/// - modes 0 and 1: the 32 KiB bank `p & $0E`, so 8 KiB bank `o + 2 * (p & $0E) + slot`;
/// - mode 2: `$8000-$BFFF` fixed to the first 16 KiB of the block (`o`, `o + 1`),
///   `$C000-$FFFF` the 16 KiB bank `p` (`o + 2p`, `o + 2p + 1`);
/// - mode 3: `$8000-$BFFF` the 16 KiB bank `p`, `$C000-$FFFF` the last 16 KiB
///   of PRG-ROM, as the MMC3 side names them, within the block.
/// `slot` is the 8 KiB window, `(addr - $8000) / $2000`.
pub proof fn lemma_mmc1_prg_windows(m: Mapper296, addr: u16)
    requires
        m.config_reg & 3 == 1,
        addr >= 0x8000,
    ensures
        ({
            let o = prg_outer_base(m.outer_reg, m.outer_reg2);
            let p = (m.mmc1_prg & 0x0F) as nat;
            let mode = (m.mmc1_control >> 2) & 3;
            let slot = ((addr - 0x8000) / 0x2000) as nat;
            let bank: nat = if mode <= 1 {
                o + 2 * ((p - p % 2) as nat) + slot
            } else if mode == 2 {
                if slot < 2 { o + slot } else { o + 2 * p + ((slot - 2) as nat) }
            } else {
                if slot < 2 { o + 2 * p + slot } else if slot == 2 {
                    (m.spec_prg_8kb_outer_offset() | m.second_last()) as nat
                } else {
                    (m.spec_prg_8kb_outer_offset() | m.last()) as nat
                }
            };
            m.spec_read_prg(addr) == m.mmc3.prg_byte(bank, (addr & 0x1FFF) as nat)
        }),
{
    let o2 = m.outer_reg2;
    let or = m.outer_reg;
    let c = m.mmc1_control;
    let pr = m.mmc1_prg;
    let outer = m.spec_prg_8kb_outer_offset();
    let d = (addr - 0x8000) as usize;
    assert({
        &&& (((if o2 & 1 != 0 { 0x4000usize } else { 0usize }) | (if or & 4 != 0 { 0x2000usize } else { 0usize }))
            | (if or & 1 != 0 { 0x1000usize } else { 0usize }))
            == (if o2 & 1 != 0 { 0x4000usize } else { 0usize }) + (if or & 4 != 0 { 0x2000usize } else { 0usize })
                + (if or & 1 != 0 { 0x1000usize } else { 0usize })
        &&& ((((if o2 & 1 != 0 { 0x4000usize } else { 0usize }) | (if or & 4 != 0 { 0x2000usize } else { 0usize }))
            | (if or & 1 != 0 { 0x1000usize } else { 0usize })) & 0xFFF) == 0
        &&& (c & 0x0C) >> 2 == (c >> 2) & 3
        &&& pr & 0x0F <= 15
        &&& (((pr & 0x0F) as usize) & !1usize) == ((pr & 0x0F) as usize) - ((pr & 0x0F) as usize) % 2
        &&& (d >> 13) & 3 == d / 0x2000
    }) by (bit_vector)
        requires d < 0x8000;
    assert(outer == prg_outer_base(or, o2));
    assert(forall|x: usize| x < 0x1000 ==> #[trigger] (outer | x) == outer + x) by {
        assert forall|x: usize| x < 0x1000 implies #[trigger] (outer | x) == outer + x by {
            assert((outer & 0xFFF) == 0 && x < 0x1000 ==> (outer | x) == outer + x) by (bit_vector);
        }
    }
    assert(addr < 0xA000 <==> d / 0x2000 == 0);
    assert(0xA000 <= addr < 0xC000 <==> d / 0x2000 == 1);
    assert(0xC000 <= addr < 0xE000 <==> d / 0x2000 == 2);
}

/// In MMC1 mode a write to `$8000-$FFFF` with bit 7 set empties the shift
/// register and sets PRG mode 3 (`control | $0C`), leaving the CHR and PRG
/// registers and the board's other registers as they were.
pub proof fn lemma_mmc1_reset_write(m: Mapper296, n: Mapper296, addr: u16, value: u8)
    requires
        m.config_reg & 3 == 1,
        addr >= 0x8000,
        value & 0x80 != 0,
        n.write_post(&m, addr, value),
    ensures
        n.mmc1_shift == 0,
        n.mmc1_count == 0,
        n.mmc1_control == m.mmc1_control | 0x0C,
        (n.mmc1_control >> 2) & 3 == 3,
        n.mmc1_control & 0x13 == m.mmc1_control & 0x13,
        n.mmc1_chr0 == m.mmc1_chr0,
        n.mmc1_chr1 == m.mmc1_chr1,
        n.mmc1_prg == m.mmc1_prg,
        n.config_reg == m.config_reg,
        n.outer_reg == m.outer_reg,
        n.outer_reg2 == m.outer_reg2,
        n.mmc3 == m.mmc3,
{
    let c = m.mmc1_control;
    assert(((c | 0x0C) >> 2) & 3 == 3 && (c | 0x0C) & 0x13 == c & 0x13) by (bit_vector);
}

} // verus!
