//! Mapper 51 - 11-in-1 Ball Games (JY-010).
//!
//! Two registers: `bank` (4 bits) and `mode` (2 bits, power-on 1).
//! - `$6000-$7FFF`: `mode = ((v >> 3) & 2) | ((v >> 1) & 1)`.
//! - `$C000-$DFFF`: `bank = v & $0F`, mode bit 1 from the same decoding.
//! - `$8000-$BFFF`, `$E000-$FFFF`: `bank = v & $0F`.
//!
//! With mode bit 0 set (32 KiB mode) `$8000-$FFFF` shows 8 KiB banks
//! `bank << 2` to `(bank << 2) | 3` and `$6000` shows bank `$23 | (bank << 2)`;
//! otherwise `$8000` shows `(bank << 2) | mode` and the next bank, `$C000`
//! shows `(bank << 2) | $0E` and `| $0F`, and `$6000` bank `$2F | (bank << 2)`.
//! Mirroring is horizontal when mode is 3, vertical otherwise. CHR is a fixed
//! 8 KiB bank; one known bad dump (submapper 0, CRC-32 `$A912B064`) carries
//! CHR-RAM contents as CHR-ROM, and gets writable CHR-RAM loaded with them.
use vstd::prelude::*;
use crate::cartridge::{NametableLayout, MapperCapabilities, MapperContext, layout_hv};
use crate::base_mapper::{BaseMapper, ChrMemory, wrap_page};

verus! {

pub const MAPPER_NUMBER: u16 = 51;
pub const BAD_DUMP_CHR_ROM_ON_CHR_RAM_CRC32: u32 = 0xA912_B064;

pub open spec fn decode_mode(value: u8) -> u8 {
    ((value >> 3) & 0x02) | ((value >> 1) & 0x01)
}

/// 8 KiB bank shown at `$6000`.
pub open spec fn prg_6000_of(bank: u8, mode: u8) -> int {
    if mode & 0x01 != 0 { (0x23usize | ((bank as usize) << 2)) as int } else { (0x2Fusize | ((bank as usize) << 2)) as int }
}

/// 8 KiB banks shown in the four slots of `$8000-$FFFF`.
pub open spec fn prg_pages_of(bank: u8, mode: u8) -> Seq<int> {
    let b = (bank as usize) << 2;
    if mode & 0x01 != 0 {
        seq![b as int, (b | 1) as int, (b | 2) as int, (b | 3) as int]
    } else {
        seq![(b | mode as usize) as int, (b | mode as usize) as int + 1, (b | 0x0E) as int, (b | 0x0F) as int]
    }
}

/// Mapper 51 - 11-in-1 Ball Games.
pub struct Mapper51 {
    pub base: BaseMapper,
    pub bank: u8,
    pub mode: u8,
}

impl Mapper51 {
    pub open spec fn regs(&self) -> (u8, u8) {
        (self.bank, self.mode)
    }

    pub open spec fn wf(&self) -> bool {
        &&& self.base.wf()
        &&& self.base.prg_page_size == 0x2000
        &&& self.base.prg_pages@.len() == 4
        &&& self.base.prg_6000_banked
        &&& self.base.chr_page_size == crate::base_mapper::CHR_WINDOW
        &&& self.base.chr_pages@ == seq![0usize]
    }

    pub open spec fn applied(&self) -> bool {
        &&& self.base.shows_prg(prg_pages_of(self.bank, self.mode))
        &&& self.base.prg_6000_page == wrap_page(prg_6000_of(self.bank, self.mode), self.base.prg_6000_count())
        &&& self.base.mirroring == layout_hv(self.mode == 0x03)
    }

    pub open spec fn write_post(&self, old: &Self, addr: u16, value: u8) -> bool {
        if addr < 0x6000 {
            *self == *old
        } else {
            &&& self.wf()
            &&& self.applied()
            &&& self.base.same_memory(&old.base)
            &&& self.base.chr_pages@ == old.base.chr_pages@
            &&& if addr < 0x8000 {
                self.regs() == (old.bank, decode_mode(value))
            } else if 0xC000 <= addr < 0xE000 {
                self.regs() == (value & 0x0F, (decode_mode(value) & 0x02) | (old.mode & 0x01))
            } else {
                self.regs() == (value & 0x0F, old.mode)
            }
        }
    }

    pub open spec fn snapshot(&self) -> Seq<u8> {
        seq![self.bank, self.mode]
    }

    pub open spec fn restore_post(&self, old: &Self, data: Seq<u8>) -> bool {
        if data.len() < 2 {
            *self == *old
        } else {
            &&& self.wf()
            &&& self.applied()
            &&& self.base.same_memory(&old.base)
            &&& self.base.chr_pages@ == old.base.chr_pages@
            &&& self.regs() == (data[0], data[1])
        }
    }

    pub open spec fn reset_post(&self, old: &Self) -> bool {
        &&& self.wf()
        &&& self.applied()
        &&& self.base.same_memory(&old.base)
        &&& self.base.chr_pages@ == old.base.chr_pages@
        &&& self.regs() == (0u8, 1u8)
    }

    /// Whether the context is the known dump whose CHR-RAM contents sit in the CHR-ROM slot.
    pub open spec fn is_bad_dump(ctx: &MapperContext) -> bool {
        ctx.submapper == 0 && ctx.crc32 == BAD_DUMP_CHR_ROM_ON_CHR_RAM_CRC32
    }

    pub fn new(ctx: MapperContext) -> (m: Self)
        ensures
            m.wf(),
            m.applied(),
            m.regs() == (0u8, 1u8),
            m.base.prg_rom@ == ctx.prg_rom@,
            Self::is_bad_dump(&ctx) ==> m.base.chr_writable && m.base.chr@ == crate::base_mapper::seeded_chr_ram(ctx.chr_rom@),
            !Self::is_bad_dump(&ctx) ==> m.base.chr_from(ctx.chr_rom@),
            m.base.capabilities == (MapperCapabilities { has_irq: false, has_expansion_audio: false, has_chr_banking: false, has_dynamic_mirroring: true, max_prg_ram_kb: 0, prg_bank_size_kb: 8, chr_bank_size_kb: 8 }),
    {
        let capabilities = MapperCapabilities {
            has_irq: false,
            has_expansion_audio: false,
            has_chr_banking: false,
            has_dynamic_mirroring: true,
            max_prg_ram_kb: 0,
            prg_bank_size_kb: 8,
            chr_bank_size_kb: 8,
        };
        let mut base = BaseMapper::new(&ctx, capabilities);
        base.configure_prg_banking(0x2000);
        base.configure_prg_6000_banking();
        if ctx.submapper == 0 && ctx.crc32 == BAD_DUMP_CHR_ROM_ON_CHR_RAM_CRC32 {
            let mut chr_memory = ChrMemory::new_ram(0x2000);
            if ctx.chr_rom.len() > 0 {
                chr_memory.load_snapshot(ctx.chr_rom.as_slice());
            }
            proof {
                assert(chr_memory.data@ =~= crate::base_mapper::seeded_chr_ram(ctx.chr_rom@));
            }
            base.set_chr_memory(chr_memory);
        }
        assert(base.chr_pages@ =~= seq![0usize]);
        let mut mapper = Mapper51 { base, bank: 0, mode: 1 };
        mapper.update_banks();
        mapper
    }

    pub fn decode_mode(value: u8) -> (m: u8)
        ensures
            m == decode_mode(value),
    {
        ((value >> 3) & 0x02) | ((value >> 1) & 0x01)
    }

    fn update_banks(&mut self)
        requires
            old(self).wf(),
        ensures
            final(self).wf(),
            final(self).applied(),
            final(self).regs() == old(self).regs(),
            final(self).base.same_memory(&old(self).base),
            final(self).base.chr_pages@ == old(self).base.chr_pages@,
    {
        let bank = self.bank as usize;
        let b = bank << 2;
        let ghost pages = prg_pages_of(self.bank, self.mode);
        let m = self.mode as usize;
        assert(b <= 0x3FC && (0x23 | b) <= 0x3FF && (0x2F | b) <= 0x3FF && (b | 0x0F) <= 0x3FF && (b | m) <= 0x3FF) by (bit_vector)
            requires b == bank << 2, bank <= 255, m <= 255;
        let prg_6000 = if self.mode & 0x01 != 0 { (0x23 | b) as i16 } else { (0x2F | b) as i16 };
        self.base.select_prg_6000_page(prg_6000);
        if self.mode & 0x01 != 0 {
            self.base.select_prg_page(0, b as i16);
            self.base.select_prg_page(1, (b | 1) as i16);
            self.base.select_prg_page(2, (b | 2) as i16);
            self.base.select_prg_page(3, (b | 3) as i16);
        } else {
            let mode = self.mode as usize;
            self.base.select_prg_page(0, (b | mode) as i16);
            self.base.select_prg_page(1, ((b | mode) + 1) as i16);
            self.base.select_prg_page(2, (b | 0x0E) as i16);
            self.base.select_prg_page(3, (b | 0x0F) as i16);
        }
        proof {
            self.base.lemma_shows_prg4(pages[0], pages[1], pages[2], pages[3]);
            assert(pages =~= seq![pages[0], pages[1], pages[2], pages[3]]);
        }
        self.base.set_mirroring_hv(self.mode == 0x03);
    }

    pub fn write_prg(&mut self, addr: u16, value: u8)
        requires
            old(self).wf(),
        ensures
            final(self).write_post(old(self), addr, value),
    {
        if addr < 0x6000 {
            return;
        }
        if addr < 0x8000 {
            self.mode = Self::decode_mode(value);
        } else if 0xC000 <= addr && addr < 0xE000 {
            self.bank = value & 0x0F;
            self.mode = (Self::decode_mode(value) & 0x02) | (self.mode & 0x01);
        } else {
            self.bank = value & 0x0F;
        }
        self.update_banks();
    }

    pub open spec fn spec_read_prg(&self, addr: u16) -> u8 {
        self.base.spec_read_prg(addr)
    }

    pub fn read_prg(&self, addr: u16) -> (v: u8)
        requires
            self.wf(),
        ensures
            v == self.spec_read_prg(addr),
    {
        self.base.read_prg(addr)
    }

    pub open spec fn spec_read_prg_open_bus(&self, addr: u16, open_bus: u8) -> u8 {
        if addr < 0x6000 { open_bus } else { self.spec_read_prg(addr) }
    }

    /// Below `$6000` the bus keeps `open_bus`; elsewhere `read_prg`.
    pub fn read_prg_open_bus(&self, addr: u16, open_bus: u8) -> (v: u8)
        requires
            self.wf(),
        ensures
            v == self.spec_read_prg_open_bus(addr, open_bus),
    {
        if addr < 0x6000 { open_bus } else { self.read_prg(addr) }
    }

    pub fn registers_snapshot(&self) -> (s: Vec<u8>)
        ensures
            s@ == self.snapshot(),
    {
        vec![self.bank, self.mode]
    }

    pub fn restore_registers(&mut self, data: &[u8])
        requires
            old(self).wf(),
        ensures
            final(self).restore_post(old(self), data@),
    {
        if data.len() >= 2 {
            self.bank = data[0];
            self.mode = data[1];
            self.update_banks();
        }
    }

    pub fn reset(&mut self)
        requires
            old(self).wf(),
        ensures
            final(self).reset_post(old(self)),
    {
        self.bank = 0;
        self.mode = 1;
        self.update_banks();
    }

    pub open spec fn spec_mirroring(&self) -> NametableLayout {
        self.base.mirroring
    }

    pub open spec fn spec_read_chr(&self, addr: u16) -> u8 {
        self.base.spec_read_chr(addr)
    }

    /// State after a PPU write to pattern memory: CHR-RAM takes the byte.
    pub open spec fn write_chr_post(&self, old: &Self, addr: u16, value: u8) -> bool {
        &&& self.wf()
        &&& self.base.chr@ == (if old.base.chr_writable && old.base.chr_count() > 0 {
            old.base.chr@.update(old.base.chr_index(addr) as int, value)
        } else {
            old.base.chr@
        })
        &&& self.base.prg_pages@ == old.base.prg_pages@
        &&& self.base.chr_pages@ == old.base.chr_pages@
        &&& self.base.mirroring == old.base.mirroring
        &&& self.regs() == old.regs()
    }

    pub fn read_chr(&self, addr: u16) -> (v: u8)
        requires
            self.wf(),
        ensures
            v == self.spec_read_chr(addr),
    {
        self.base.read_chr(addr)
    }

    pub fn write_chr(&mut self, addr: u16, value: u8)
        requires
            old(self).wf(),
        ensures
            final(self).write_chr_post(old(self), addr, value),
    {
        self.base.write_chr(addr, value);
    }

    /// Every CPU read is defined.
    pub open spec fn read_ok(&self, addr: u16) -> bool {
        true
    }

    /// The board's memory and page tables.
    pub fn base(&self) -> (b: &BaseMapper)
        ensures
            *b == self.base,
    {
        &self.base
    }

    pub fn get_mirroring(&self) -> (m: NametableLayout)
        ensures
            m == self.spec_mirroring(),
    {
        self.base.mirroring
    }

    pub fn capabilities(&self) -> (c: MapperCapabilities)
        ensures
            c == self.base.capabilities,
    {
        self.base.capabilities
    }

    pub fn mapper_number(&self) -> (n: u16)
        ensures
            n == MAPPER_NUMBER,
    {
        MAPPER_NUMBER
    }

    pub open spec fn spec_irq_pending(&self) -> bool {
        false
    }

    /// The board raises no interrupt.
    pub fn irq_pending(&self) -> (p: bool)
        ensures
            p == self.spec_irq_pending(),
    {
        false
    }

    pub open spec fn cycle_ok(&self) -> bool {
        true
    }

    pub open spec fn cycle_post(&self, old: &Self) -> bool {
        *self == *old
    }

    /// The board does not count CPU cycles.
    pub fn cpu_cycle(&mut self)
        requires
            old(self).wf(),
        ensures
            final(self).cycle_post(old(self)),
    {
    }

}

/// Restoring a board from its own snapshot brings back both registers.
/// The restored board then snapshots to the same bytes.
pub proof fn lemma_snapshot_roundtrip(m: Mapper51, before: Mapper51, restored: Mapper51)
    requires
        restored.restore_post(&before, m.snapshot()),
    ensures
        restored.regs() == m.regs(),
        restored.snapshot() == m.snapshot(),
{
}

} // verus!
