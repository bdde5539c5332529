//! Mapper 060 - reset-based NROM-128 4-in-1.
//!
//! A 2-bit counter selects the game: 16 KiB PRG bank `game` in both windows
//! and 8 KiB CHR bank `game`. Every reset advances the counter (3 wraps to
//! 0); a hard reset (RAM initialisation) presets it to 3 so that the reset
//! that follows starts at game 0. Writes have no effect.
use vstd::prelude::*;
use crate::cartridge::{NametableLayout, MapperCapabilities, MapperContext, RamInitMode};
use crate::base_mapper::BaseMapper;

verus! {

pub const MAPPER_NUMBER: u16 = 60;

/// Mapper 060 - reset-based 4-in-1.
pub struct Mapper60 {
    pub base: BaseMapper,
    /// 2-bit counter, advanced by every reset.
    pub game_select: u8,
}

impl Mapper60 {
    pub open spec fn regs(&self) -> u8 {
        self.game_select
    }

    pub open spec fn wf(&self) -> bool {
        &&& self.base.wf()
        &&& self.base.prg_page_size == 0x4000
        &&& self.base.chr_page_size == 0x2000
        &&& self.base.prg_pages@.len() == 2
        &&& self.base.chr_pages@.len() == 1
        &&& self.base.prg_ram@.len() == 0
        &&& self.game_select <= 3
    }

    pub open spec fn applied(&self) -> bool {
        &&& self.base.shows_prg(seq![self.game_select as int, self.game_select as int])
        &&& self.base.shows_chr(seq![self.game_select as int])
    }

    /// Writes have no effect.
    pub open spec fn write_post(&self, old: &Self, addr: u16, value: u8) -> bool {
        &&& self.wf()
        &&& self.game_select == old.game_select
        &&& self.base.unchanged(&old.base)
    }

    pub open spec fn restore_post(&self, old: &Self, data: Seq<u8>) -> bool {
        &&& self.wf()
        &&& self.base.same_memory(&old.base)
        &&& self.base.mirroring == old.base.mirroring
        &&& if data.len() >= 1 {
            self.game_select == data[0] & 0x03 && self.applied()
        } else {
            self.game_select == old.game_select && self.base.unchanged(&old.base)
        }
    }

    /// A reset advances to the next game.
    pub open spec fn reset_post(&self, old: &Self) -> bool {
        &&& self.wf()
        &&& self.base.same_memory(&old.base)
        &&& self.base.mirroring == old.base.mirroring
        &&& self.game_select == (old.game_select + 1) % 4
        &&& self.applied()
    }

    pub open spec fn snapshot(&self) -> Seq<u8> {
        seq![self.game_select]
    }

    pub fn new(ctx: MapperContext) -> (m: Self)
        ensures
            m.wf(),
            m.game_select == 0,
            m.applied(),
            m.base.mirroring == ctx.mirroring,
            m.base.prg_rom@ == ctx.prg_rom@,
            m.base.capabilities == (MapperCapabilities { has_irq: false, has_expansion_audio: false, has_chr_banking: true, has_dynamic_mirroring: false, max_prg_ram_kb: 0, prg_bank_size_kb: 16, chr_bank_size_kb: 8 }),
            m.base.chr_from(ctx.chr_rom@),
    {
        let capabilities = MapperCapabilities {
            has_irq: false,
            has_expansion_audio: false,
            has_chr_banking: true,
            has_dynamic_mirroring: false,
            max_prg_ram_kb: 0,
            prg_bank_size_kb: 16,
            chr_bank_size_kb: 8,
        };
        let mut base = BaseMapper::new(&ctx, capabilities);
        base.configure_prg_banking(16 * 1024);
        base.configure_chr_banking(8 * 1024);
        proof {
            base.lemma_shows_prg2(0, 0);
            base.lemma_shows_chr1(0);
        }
        Mapper60 { base, game_select: 0 }
    }

    fn apply_game_select(&mut self)
        requires
            old(self).wf(),
        ensures
            final(self).wf(),
            final(self).game_select == old(self).game_select,
            final(self).base.same_memory(&old(self).base),
            final(self).base.mirroring == old(self).base.mirroring,
            final(self).applied(),
    {
        let bank = self.game_select as i16;
        self.base.select_prg_page(0, bank);
        self.base.select_prg_page(1, bank);
        self.base.select_chr_page(0, bank);
        proof {
            self.base.lemma_shows_prg2(bank as int, bank as int);
            self.base.lemma_shows_chr1(bank as int);
        }
    }

    pub fn write_prg(&mut self, addr: u16, value: u8)
        requires
            old(self).wf(),
        ensures
            final(self).write_post(old(self), addr, value),
    {
    }

    pub fn registers_snapshot(&self) -> (s: Vec<u8>)
        ensures
            s@ == self.snapshot(),
    {
        vec![self.game_select]
    }

    pub fn restore_registers(&mut self, data: &[u8])
        requires
            old(self).wf(),
        ensures
            final(self).restore_post(old(self), data@),
    {
        if data.len() >= 1 {
            let v = data[0];
            proof {
                assert(v & 0x03 <= 3) by (bit_vector);
            }
            self.game_select = v & 0x03;
            self.apply_game_select();
        }
    }

    /// Advances to the next game.
    pub fn reset(&mut self)
        requires
            old(self).wf(),
        ensures
            final(self).reset_post(old(self)),
    {
        let g = self.game_select;
        proof {
            assert(((g + 1) as u8) & 0x03 == ((g + 1) % 4) as u8) by (bit_vector)
                requires g <= 3;
        }
        self.game_select = (self.game_select + 1) & 0x03;
        self.apply_game_select();
    }

    /// Hard reset: presets the counter to 3 so that the following reset
    /// selects game 0, and fills PRG-RAM.
    pub fn initialize_ram(&mut self, mode: RamInitMode)
        requires
            old(self).wf(),
        ensures
            final(self).wf(),
            final(self).game_select == 3,
            final(self).base.same_memory(&old(self).base),
            final(self).base.mirroring == old(self).base.mirroring,
            final(self).applied(),
    {
        self.game_select = 3;
        self.apply_game_select();
        self.base.initialize_ram(mode);
        proof {
            assert(self.base.prg_ram@ =~= old(self).base.prg_ram@);
        }
    }

    /// Every CPU read is defined.
    pub open spec fn read_ok(&self, addr: u16) -> bool {
        true
    }

    pub open spec fn spec_mirroring(&self) -> NametableLayout {
        self.base.mirroring
    }

    pub open spec fn spec_read_chr(&self, addr: u16) -> u8 {
        self.base.spec_read_chr(addr)
    }

    /// State after a PPU write to pattern memory: CHR-RAM takes the byte.
    pub open spec fn write_chr_post(&self, old: &Self, addr: u16, value: u8) -> bool {
        &&& self.wf()
        &&& self.base.chr@ == (if old.base.chr_writable && old.base.chr_count() > 0 {
            old.base.chr@.update(old.base.chr_index(addr) as int, value)
        } else {
            old.base.chr@
        })
        &&& self.base.prg_pages@ == old.base.prg_pages@
        &&& self.base.chr_pages@ == old.base.chr_pages@
        &&& self.base.mirroring == old.base.mirroring
        &&& self.regs() == old.regs()
    }

    pub fn read_chr(&self, addr: u16) -> (v: u8)
        requires
            self.wf(),
        ensures
            v == self.spec_read_chr(addr),
    {
        self.base.read_chr(addr)
    }

    pub fn write_chr(&mut self, addr: u16, value: u8)
        requires
            old(self).wf(),
        ensures
            final(self).write_chr_post(old(self), addr, value),
    {
        self.base.write_chr(addr, value);
    }

    pub open spec fn spec_read_prg(&self, addr: u16) -> u8 {
        self.base.spec_read_prg(addr)
    }

    pub fn read_prg(&self, addr: u16) -> (v: u8)
        requires
            self.wf(),
        ensures
            v == self.spec_read_prg(addr),
    {
        self.base.read_prg(addr)
    }

    /// The board's memory and page tables.
    pub fn base(&self) -> (b: &BaseMapper)
        ensures
            *b == self.base,
    {
        &self.base
    }

    pub fn get_mirroring(&self) -> (m: NametableLayout)
        ensures
            m == self.spec_mirroring(),
    {
        self.base.mirroring
    }

    pub fn capabilities(&self) -> (c: MapperCapabilities)
        ensures
            c == self.base.capabilities,
    {
        self.base.capabilities
    }

    pub fn mapper_number(&self) -> (n: u16)
        ensures
            n == MAPPER_NUMBER,
    {
        MAPPER_NUMBER
    }

    pub open spec fn spec_irq_pending(&self) -> bool {
        false
    }

    /// The board raises no interrupt.
    pub fn irq_pending(&self) -> (p: bool)
        ensures
            p == self.spec_irq_pending(),
    {
        false
    }

    pub open spec fn cycle_ok(&self) -> bool {
        true
    }

    pub open spec fn cycle_post(&self, old: &Self) -> bool {
        *self == *old
    }

    /// The board does not count CPU cycles.
    pub fn cpu_cycle(&mut self)
        requires
            old(self).wf(),
        ensures
            final(self).cycle_post(old(self)),
    {
    }

}

/// Restoring the snapshot of a mapper brings back its game counter.
/// The restored board then snapshots to the same bytes.
pub proof fn lemma_snapshot_roundtrip(m: Mapper60, before: Mapper60, restored: Mapper60)
    requires
        m.wf(),
        restored.restore_post(&before, m.snapshot()),
    ensures
        restored.game_select == m.game_select,
        restored.snapshot() == m.snapshot(),
{
    let g = m.game_select;
    assert(g & 0x03 == g) by (bit_vector)
        requires g <= 3;
}

/// Four resets bring the board back to the game it showed.
pub proof fn lemma_four_resets_cycle(m0: Mapper60, m1: Mapper60, m2: Mapper60, m3: Mapper60, m4: Mapper60)
    requires
        m0.wf(),
        m1.reset_post(&m0),
        m2.reset_post(&m1),
        m3.reset_post(&m2),
        m4.reset_post(&m3),
    ensures
        m4.game_select == m0.game_select,
{
}

} // verus!
