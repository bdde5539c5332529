//! Mapper 329 - EDU2000 board.
//!
//! A write to `$8000-$FFFF` stores the control register: bits 4:0 select the
//! 32 KiB PRG bank, bits 7:6 the 8 KiB page of the board's 32 KiB of work RAM
//! shown at `$6000-$7FFF`. CHR is fixed to bank 0.
use vstd::prelude::*;
use crate::cartridge::{NametableLayout, MapperCapabilities, MapperContext};
use crate::base_mapper::BaseMapper;

verus! {

pub const MAPPER_NUMBER: u16 = 329;
pub const WRAM_SIZE: usize = 32 * 1024;
pub const WRAM_PAGE_SIZE: usize = 8 * 1024;

pub open spec fn wram_page_of(reg: u8) -> nat {
    ((reg >> 6) & 0x03) as nat
}

/// Index into work RAM of `$6000-$7FFF` address `addr`.
pub open spec fn wram_index(reg: u8, addr: u16) -> int {
    (wram_page_of(reg) * WRAM_PAGE_SIZE as nat + (addr - 0x6000)) as int
}

/// Mapper 329 - EDU2000 board.
pub struct Mapper329 {
    pub base: BaseMapper,
    pub reg: u8,
    pub wram: Vec<u8>,
}

impl Mapper329 {
    pub open spec fn regs(&self) -> u8 {
        self.reg
    }

    pub open spec fn wf(&self) -> bool {
        &&& self.base.wf()
        &&& self.base.prg_page_size == 0x8000
        &&& self.base.chr_page_size == 0x2000
        &&& self.base.prg_pages@.len() == 1
        &&& self.base.chr_pages@.len() == 1
        &&& self.wram@.len() == WRAM_SIZE
    }

    pub open spec fn applied(&self) -> bool {
        &&& self.base.shows_prg(seq![(self.reg & 0x1F) as int])
        &&& self.base.shows_chr(seq![0int])
    }

    pub open spec fn write_post(&self, old: &Self, addr: u16, value: u8) -> bool {
        &&& self.wf()
        &&& self.base.same_memory(&old.base)
        &&& self.base.mirroring == old.base.mirroring
        &&& if 0x6000 <= addr < 0x8000 {
            &&& self.reg == old.reg
            &&& self.wram@ == old.wram@.update(wram_index(old.reg, addr), value)
            &&& self.base.unchanged(&old.base)
        } else if addr >= 0x8000 {
            &&& self.reg == value
            &&& self.wram@ == old.wram@
            &&& self.applied()
        } else {
            &&& self.reg == old.reg
            &&& self.wram@ == old.wram@
            &&& self.base.unchanged(&old.base)
        }
    }

    pub open spec fn restore_post(&self, old: &Self, data: Seq<u8>) -> bool {
        &&& self.wf()
        &&& self.base.same_memory(&old.base)
        &&& self.base.mirroring == old.base.mirroring
        &&& self.wram@ == old.wram@
        &&& if data.len() == 0 {
            self.reg == old.reg && self.base.unchanged(&old.base)
        } else {
            self.reg == data[0] && self.applied()
        }
    }

    /// Reset leaves the board as it is.
    pub open spec fn reset_post(&self, old: &Self) -> bool {
        &&& self.wf()
        &&& self.reg == old.reg
        &&& self.wram@ == old.wram@
        &&& self.base.unchanged(&old.base)
    }

    pub open spec fn snapshot(&self) -> Seq<u8> {
        seq![self.reg]
    }

    /// Work RAM at `$6000-$7FFF`, ROM above, 0 below.
    pub open spec fn spec_read_prg(&self, addr: u16) -> u8 {
        if 0x6000 <= addr < 0x8000 {
            self.wram@[wram_index(self.reg, addr)]
        } else {
            self.base.spec_read_prg_rom(addr)
        }
    }

    pub fn new(ctx: MapperContext) -> (m: Self)
        ensures
            m.wf(),
            m.reg == 0,
            m.wram@ == Seq::new(WRAM_SIZE as nat, |i: int| 0u8),
            m.applied(),
            m.base.prg_rom@ == ctx.prg_rom@,
            m.base.capabilities == (MapperCapabilities { has_irq: false, has_expansion_audio: false, has_chr_banking: false, has_dynamic_mirroring: false, prg_bank_size_kb: 32, chr_bank_size_kb: 8, max_prg_ram_kb: 32 }),
            m.base.chr_from(ctx.chr_rom@),
    {
        let capabilities = MapperCapabilities {
            has_irq: false,
            has_expansion_audio: false,
            has_chr_banking: false,
            has_dynamic_mirroring: false,
            prg_bank_size_kb: 32,
            chr_bank_size_kb: 8,
            max_prg_ram_kb: 32,
        };
        let mut base = BaseMapper::new(&ctx, capabilities);
        base.configure_prg_banking(32 * 1024);
        base.configure_chr_banking(8 * 1024);
        let wram = vec![0u8; WRAM_SIZE];
        proof {
            assert(wram@ =~= Seq::new(WRAM_SIZE as nat, |i: int| 0u8));
        }
        let mut mapper = Mapper329 { base, reg: 0, wram };
        mapper.update_banks();
        mapper
    }

    fn update_banks(&mut self)
        requires
            old(self).wf(),
        ensures
            final(self).wf(),
            final(self).reg == old(self).reg,
            final(self).wram@ == old(self).wram@,
            final(self).base.same_memory(&old(self).base),
            final(self).base.mirroring == old(self).base.mirroring,
            final(self).applied(),
    {
        let prg_bank = (self.reg & 0x1F) as i16;
        self.base.select_prg_page(0, prg_bank);
        self.base.select_chr_page(0, 0);
        proof {
            self.base.lemma_shows_prg1(prg_bank as int);
            self.base.lemma_shows_chr1(0);
        }
    }

    /// The 8 KiB work RAM page selected by bits 7:6.
    pub fn wram_page(&self) -> (p: usize)
        ensures
            p == wram_page_of(self.reg),
            p <= 3,
    {
        let r = self.reg;
        proof {
            crate::bits::lemma_byte_fields(r);
        }
        ((self.reg >> 6) & 0x03) as usize
    }

    /// Index into work RAM of `addr` in `$6000-$7FFF`.
    pub fn wram_offset(&self, addr: u16) -> (o: usize)
        requires
            0x6000 <= addr < 0x8000,
        ensures
            o == wram_index(self.reg, addr),
            o < WRAM_SIZE,
    {
        let page_base = self.wram_page() * WRAM_PAGE_SIZE;
        page_base + (addr - 0x6000) as usize
    }

    pub fn read_prg(&self, addr: u16) -> (v: u8)
        requires
            self.wf(),
        ensures
            v == self.spec_read_prg(addr),
    {
        if 0x6000 <= addr && addr < 0x8000 {
            self.wram[self.wram_offset(addr)]
        } else if addr >= 0x8000 {
            self.base.read_prg_rom(addr)
        } else {
            0
        }
    }

    pub fn write_prg(&mut self, addr: u16, value: u8)
        requires
            old(self).wf(),
        ensures
            final(self).write_post(old(self), addr, value),
    {
        if 0x6000 <= addr && addr < 0x8000 {
            let offset = self.wram_offset(addr);
            self.wram.set(offset, value);
        } else if addr >= 0x8000 {
            self.reg = value;
            self.update_banks();
        }
    }

    pub fn wram_size(&self) -> (n: usize)
        ensures
            n == WRAM_SIZE,
    {
        WRAM_SIZE
    }

    pub fn wram_snapshot(&self) -> (s: Vec<u8>)
        ensures
            s@ == self.wram@,
    {
        let mut s: Vec<u8> = Vec::new();
        let mut i: usize = 0;
        while i < self.wram.len()
            invariant
                0 <= i <= self.wram@.len(),
                s@ =~= self.wram@.subrange(0, i as int),
            decreases self.wram@.len() - i,
        {
            s.push(self.wram[i]);
            i = i + 1;
        }
        proof {
            assert(self.wram@.subrange(0, self.wram@.len() as int) =~= self.wram@);
        }
        s
    }

    /// Copies the first bytes of `data` (at most the RAM size) into work RAM.
    pub fn load_wram_snapshot(&mut self, data: &[u8])
        requires
            old(self).wf(),
        ensures
            final(self).wf(),
            final(self).reg == old(self).reg,
            final(self).base == old(self).base,
            final(self).wram@ == (if data@.len() < WRAM_SIZE {
                data@ + old(self).wram@.subrange(data@.len() as int, WRAM_SIZE as int)
            } else {
                data@.subrange(0, WRAM_SIZE as int)
            }),
    {
        let len = if data.len() < WRAM_SIZE { data.len() } else { WRAM_SIZE };
        let mut i: usize = 0;
        while i < len
            invariant
                0 <= i <= len,
                len <= data@.len(),
                len <= WRAM_SIZE,
                len == (if data@.len() < WRAM_SIZE { data@.len() } else { WRAM_SIZE as nat }),
                self.wf(),
                self.reg == old(self).reg,
                self.base == old(self).base,
                old(self).wram@.len() == WRAM_SIZE,
                self.wram@ =~= data@.subrange(0, i as int) + old(self).wram@.subrange(i as int, WRAM_SIZE as int),
            decreases len - i,
        {
            self.wram.set(i, data[i]);
            i = i + 1;
        }
        proof {
            if data@.len() < WRAM_SIZE {
                assert(data@.subrange(0, len as int) =~= data@);
            }
            assert(old(self).wram@.subrange(WRAM_SIZE as int, WRAM_SIZE as int) =~= Seq::<u8>::empty());
        }
    }

    pub fn registers_snapshot(&self) -> (s: Vec<u8>)
        ensures
            s@ == self.snapshot(),
    {
        vec![self.reg]
    }

    pub fn restore_registers(&mut self, data: &[u8])
        requires
            old(self).wf(),
        ensures
            final(self).restore_post(old(self), data@),
    {
        if data.len() > 0 {
            self.reg = data[0];
            self.update_banks();
        }
    }

    pub fn reset(&mut self)
        requires
            old(self).wf(),
        ensures
            final(self).reset_post(old(self)),
    {
    }

    /// Every CPU read is defined.
    pub open spec fn read_ok(&self, addr: u16) -> bool {
        true
    }

    pub open spec fn spec_mirroring(&self) -> NametableLayout {
        self.base.mirroring
    }

    pub open spec fn spec_read_chr(&self, addr: u16) -> u8 {
        self.base.spec_read_chr(addr)
    }

    /// State after a PPU write to pattern memory: CHR-RAM takes the byte.
    pub open spec fn write_chr_post(&self, old: &Self, addr: u16, value: u8) -> bool {
        &&& self.wf()
        &&& self.base.chr@ == (if old.base.chr_writable && old.base.chr_count() > 0 {
            old.base.chr@.update(old.base.chr_index(addr) as int, value)
        } else {
            old.base.chr@
        })
        &&& self.base.prg_pages@ == old.base.prg_pages@
        &&& self.base.chr_pages@ == old.base.chr_pages@
        &&& self.base.mirroring == old.base.mirroring
        &&& self.regs() == old.regs()
    }

    pub fn read_chr(&self, addr: u16) -> (v: u8)
        requires
            self.wf(),
        ensures
            v == self.spec_read_chr(addr),
    {
        self.base.read_chr(addr)
    }

    pub fn write_chr(&mut self, addr: u16, value: u8)
        requires
            old(self).wf(),
        ensures
            final(self).write_chr_post(old(self), addr, value),
    {
        self.base.write_chr(addr, value);
    }

    /// The board's memory and page tables.
    pub fn base(&self) -> (b: &BaseMapper)
        ensures
            *b == self.base,
    {
        &self.base
    }

    pub fn get_mirroring(&self) -> (m: NametableLayout)
        ensures
            m == self.spec_mirroring(),
    {
        self.base.mirroring
    }

    pub fn capabilities(&self) -> (c: MapperCapabilities)
        ensures
            c == self.base.capabilities,
    {
        self.base.capabilities
    }

    pub fn mapper_number(&self) -> (n: u16)
        ensures
            n == MAPPER_NUMBER,
    {
        MAPPER_NUMBER
    }

    pub open spec fn spec_irq_pending(&self) -> bool {
        false
    }

    /// The board raises no interrupt.
    pub fn irq_pending(&self) -> (p: bool)
        ensures
            p == self.spec_irq_pending(),
    {
        false
    }

    pub open spec fn cycle_ok(&self) -> bool {
        true
    }

    pub open spec fn cycle_post(&self, old: &Self) -> bool {
        *self == *old
    }

    /// The board does not count CPU cycles.
    pub fn cpu_cycle(&mut self)
        requires
            old(self).wf(),
        ensures
            final(self).cycle_post(old(self)),
    {
    }

}

/// Restoring the snapshot of a mapper brings back its register.
/// The restored board then snapshots to the same bytes.
pub proof fn lemma_snapshot_roundtrip(m: Mapper329, before: Mapper329, restored: Mapper329)
    requires
        restored.restore_post(&before, m.snapshot()),
    ensures
        restored.reg == m.reg,
        restored.snapshot() == m.snapshot(),
{
}

} // verus!
