//! Mapper 320 - BMC-830425C-4391T (Super HiK 6-in-1 and others).
//!
//! Every write to `$8000-$FFFF` sets the inner register to `value & $0F`;
//! when `(addr & $FFE0) == $F0E0` it also sets the outer register to
//! `addr & $0F` and the PRG mode to address bit 4.
//! - UOROM (mode 0): `$8000` shows 16 KiB bank `inner | (outer << 3)`,
//!   `$C000` bank `$0F | (outer << 3)`.
//! - UNROM (mode 1): `$8000` shows `(inner & 7) | (outer << 3)`, `$C000`
//!   bank `7 | (outer << 3)`.
//!
//! CHR is 8 KiB of RAM; mirroring is fixed horizontal.
use vstd::prelude::*;
use crate::cartridge::{NametableLayout, MapperCapabilities, MapperContext};
use crate::base_mapper::{BaseMapper, ChrMemory};

verus! {

pub const MAPPER_NUMBER: u16 = 320;
pub const PRG_BANK_SIZE_BYTES: usize = 16 * 1024;
pub const CHR_BANK_SIZE_BYTES: usize = 8 * 1024;
pub const OUTER_REG_ADDR_MASK: u16 = 0xFFE0;
pub const OUTER_REG_ADDR_MATCH: u16 = 0xF0E0;
pub const REGISTERS_SNAPSHOT_LEN: usize = 3;

/// 16 KiB banks at `$8000` and `$C000`.
pub open spec fn banks_of(inner: u8, outer: u8, mode: u8) -> (u16, u16) {
    let outer_shift = (outer as u16) << 3;
    if mode != 0 {
        (((inner & 0x07) as u16) | outer_shift, 0x07u16 | outer_shift)
    } else {
        (((inner & 0x0F) as u16) | outer_shift, 0x0Fu16 | outer_shift)
    }
}

/// Mapper 320 - BMC-830425C-4391T.
pub struct Mapper320 {
    pub base: BaseMapper,
    pub inner_reg: u8,
    pub outer_reg: u8,
    pub prg_mode: u8,
}

impl Mapper320 {
    pub open spec fn regs(&self) -> (u8, u8, u8) {
        (self.inner_reg, self.outer_reg, self.prg_mode)
    }

    pub open spec fn wf(&self) -> bool {
        &&& self.base.wf()
        &&& self.base.prg_page_size == PRG_BANK_SIZE_BYTES
        &&& self.base.chr_page_size == CHR_BANK_SIZE_BYTES
        &&& self.base.prg_pages@.len() == 2
        &&& self.base.chr_pages@.len() == 1
        &&& self.inner_reg <= 0x0F
        &&& self.outer_reg <= 0x0F
        &&& self.prg_mode <= 1
    }

    pub open spec fn applied(&self) -> bool {
        let (b0, b1) = banks_of(self.inner_reg, self.outer_reg, self.prg_mode);
        &&& self.base.shows_prg(seq![b0 as int, b1 as int])
        &&& self.base.shows_chr(seq![0int])
        &&& self.base.mirroring == NametableLayout::Horizontal
    }

    pub open spec fn write_post(&self, old: &Self, addr: u16, value: u8) -> bool {
        if addr < 0x8000 {
            *self == *old
        } else {
            &&& self.wf()
            &&& self.applied()
            &&& self.base.same_memory(&old.base)
            &&& self.regs() == (if addr & OUTER_REG_ADDR_MASK == OUTER_REG_ADDR_MATCH {
                (value & 0x0F, (addr & 0x0F) as u8, ((addr >> 4) & 0x01) as u8)
            } else {
                (value & 0x0F, old.outer_reg, old.prg_mode)
            })
        }
    }

    pub open spec fn snapshot(&self) -> Seq<u8> {
        seq![self.inner_reg, self.outer_reg, self.prg_mode]
    }

    pub open spec fn restore_post(&self, old: &Self, data: Seq<u8>) -> bool {
        if data.len() < REGISTERS_SNAPSHOT_LEN {
            *self == *old
        } else {
            &&& self.wf()
            &&& self.applied()
            &&& self.base.same_memory(&old.base)
            &&& self.regs() == (data[0] & 0x0F, data[1] & 0x0F, data[2] & 0x01)
        }
    }

    pub open spec fn reset_post(&self, old: &Self) -> bool {
        &&& self.wf()
        &&& self.applied()
        &&& self.base.same_memory(&old.base)
        &&& self.regs() == (0u8, 0u8, 0u8)
    }

    pub fn new(ctx: MapperContext) -> (m: Self)
        ensures
            m.wf(),
            m.applied(),
            m.regs() == (0u8, 0u8, 0u8),
            m.base.prg_rom@ == ctx.prg_rom@,
            m.base.chr_writable,
            m.base.chr@ == Seq::new(CHR_BANK_SIZE_BYTES as nat, |i: int| 0u8),
            m.base.capabilities == (MapperCapabilities { has_irq: false, has_expansion_audio: false, has_chr_banking: false, has_dynamic_mirroring: false, max_prg_ram_kb: 0, prg_bank_size_kb: 16, chr_bank_size_kb: 8 }),
    {
        let capabilities = MapperCapabilities {
            has_irq: false,
            has_expansion_audio: false,
            has_chr_banking: false,
            has_dynamic_mirroring: false,
            max_prg_ram_kb: 0,
            prg_bank_size_kb: 16,
            chr_bank_size_kb: 8,
        };
        let mut base = BaseMapper::new(&ctx, capabilities);
        base.configure_prg_banking(PRG_BANK_SIZE_BYTES);
        base.configure_chr_banking(CHR_BANK_SIZE_BYTES);
        let chr_ram = ChrMemory::new_ram(CHR_BANK_SIZE_BYTES);
        base.set_chr_memory(chr_ram);
        let mut mapper = Mapper320 { base, inner_reg: 0, outer_reg: 0, prg_mode: 0 };
        mapper.update_banks();
        mapper
    }

    fn update_banks(&mut self)
        requires
            old(self).wf(),
        ensures
            final(self).wf(),
            final(self).applied(),
            final(self).regs() == old(self).regs(),
            final(self).base.same_memory(&old(self).base),
    {
        let outer_shift = (self.outer_reg as u16) << 3;
        let (bank_8000, bank_c000) = if self.prg_mode != 0 {
            (((self.inner_reg & 0x07) as u16) | outer_shift, 0x07u16 | outer_shift)
        } else {
            (((self.inner_reg & 0x0F) as u16) | outer_shift, 0x0Fu16 | outer_shift)
        };
        let o = self.outer_reg as u16;
        let i = self.inner_reg;
        assert(((((i & 0x07) as u16) | (o << 3)) <= 0x7FF) && ((((i & 0x0F) as u16) | (o << 3)) <= 0x7FF)
            && ((0x07u16 | (o << 3)) <= 0x7FF) && ((0x0Fu16 | (o << 3)) <= 0x7FF)) by (bit_vector)
            requires o <= 0xFF;
        self.base.select_prg_page(0, bank_8000 as i16);
        self.base.select_prg_page(1, bank_c000 as i16);
        self.base.select_chr_page(0, 0);
        proof {
            self.base.lemma_shows_prg2(bank_8000 as int, bank_c000 as int);
            self.base.lemma_shows_chr1(0);
        }
        self.base.set_mirroring(NametableLayout::Horizontal);
    }

    fn apply_state(&mut self, inner_reg: u8, outer_reg: u8, prg_mode: u8)
        requires
            old(self).wf(),
            inner_reg <= 0x0F,
            outer_reg <= 0x0F,
            prg_mode <= 1,
        ensures
            final(self).wf(),
            final(self).applied(),
            final(self).regs() == (inner_reg, outer_reg, prg_mode),
            final(self).base.same_memory(&old(self).base),
    {
        self.inner_reg = inner_reg;
        self.outer_reg = outer_reg;
        self.prg_mode = prg_mode;
        self.update_banks();
    }

    pub fn write_prg(&mut self, addr: u16, value: u8)
        requires
            old(self).wf(),
        ensures
            final(self).write_post(old(self), addr, value),
    {
        if addr < 0x8000 {
            return;
        }
        proof {
            crate::bits::lemma_byte_fields(value);
            crate::bits::lemma_addr_fields(addr);
        }
        let new_inner = value & 0x0F;
        let (new_outer, new_mode) = if (addr & OUTER_REG_ADDR_MASK) == OUTER_REG_ADDR_MATCH {
            ((addr & 0x0F) as u8, ((addr >> 4) & 0x01) as u8)
        } else {
            (self.outer_reg, self.prg_mode)
        };
        self.apply_state(new_inner, new_outer, new_mode);
    }

    pub fn registers_snapshot(&self) -> (s: Vec<u8>)
        ensures
            s@ == self.snapshot(),
    {
        vec![self.inner_reg, self.outer_reg, self.prg_mode]
    }

    pub fn restore_registers(&mut self, data: &[u8])
        requires
            old(self).wf(),
        ensures
            final(self).restore_post(old(self), data@),
    {
        if data.len() < REGISTERS_SNAPSHOT_LEN {
            return;
        }
        proof {
            crate::bits::lemma_byte_fields(data@[0]);
            crate::bits::lemma_byte_fields(data@[1]);
            crate::bits::lemma_byte_fields(data@[2]);
        }
        self.apply_state(data[0] & 0x0F, data[1] & 0x0F, data[2] & 0x01);
    }

    pub fn reset(&mut self)
        requires
            old(self).wf(),
        ensures
            final(self).reset_post(old(self)),
    {
        self.apply_state(0, 0, 0);
    }

    pub open spec fn spec_mirroring(&self) -> NametableLayout {
        self.base.mirroring
    }

    pub open spec fn spec_read_chr(&self, addr: u16) -> u8 {
        self.base.spec_read_chr(addr)
    }

    /// State after a PPU write to pattern memory: CHR-RAM takes the byte.
    pub open spec fn write_chr_post(&self, old: &Self, addr: u16, value: u8) -> bool {
        &&& self.wf()
        &&& self.base.chr@ == (if old.base.chr_writable && old.base.chr_count() > 0 {
            old.base.chr@.update(old.base.chr_index(addr) as int, value)
        } else {
            old.base.chr@
        })
        &&& self.base.prg_pages@ == old.base.prg_pages@
        &&& self.base.chr_pages@ == old.base.chr_pages@
        &&& self.base.mirroring == old.base.mirroring
        &&& self.regs() == old.regs()
    }

    pub fn read_chr(&self, addr: u16) -> (v: u8)
        requires
            self.wf(),
        ensures
            v == self.spec_read_chr(addr),
    {
        self.base.read_chr(addr)
    }

    pub fn write_chr(&mut self, addr: u16, value: u8)
        requires
            old(self).wf(),
        ensures
            final(self).write_chr_post(old(self), addr, value),
    {
        self.base.write_chr(addr, value);
    }

    /// Every CPU read is defined.
    pub open spec fn read_ok(&self, addr: u16) -> bool {
        true
    }

    pub open spec fn spec_read_prg(&self, addr: u16) -> u8 {
        self.base.spec_read_prg(addr)
    }

    pub fn read_prg(&self, addr: u16) -> (v: u8)
        requires
            self.wf(),
        ensures
            v == self.spec_read_prg(addr),
    {
        self.base.read_prg(addr)
    }

    /// The board's memory and page tables.
    pub fn base(&self) -> (b: &BaseMapper)
        ensures
            *b == self.base,
    {
        &self.base
    }

    pub fn get_mirroring(&self) -> (m: NametableLayout)
        ensures
            m == self.spec_mirroring(),
    {
        self.base.mirroring
    }

    pub fn capabilities(&self) -> (c: MapperCapabilities)
        ensures
            c == self.base.capabilities,
    {
        self.base.capabilities
    }

    pub fn mapper_number(&self) -> (n: u16)
        ensures
            n == MAPPER_NUMBER,
    {
        MAPPER_NUMBER
    }

    pub open spec fn spec_irq_pending(&self) -> bool {
        false
    }

    /// The board raises no interrupt.
    pub fn irq_pending(&self) -> (p: bool)
        ensures
            p == self.spec_irq_pending(),
    {
        false
    }

    pub open spec fn cycle_ok(&self) -> bool {
        true
    }

    pub open spec fn cycle_post(&self, old: &Self) -> bool {
        *self == *old
    }

    /// The board does not count CPU cycles.
    pub fn cpu_cycle(&mut self)
        requires
            old(self).wf(),
        ensures
            final(self).cycle_post(old(self)),
    {
    }

}

/// Restoring a board from its own snapshot brings back its registers.
/// The restored board then snapshots to the same bytes.
pub proof fn lemma_snapshot_roundtrip(m: Mapper320, before: Mapper320, restored: Mapper320)
    requires
        m.wf(),
        restored.restore_post(&before, m.snapshot()),
    ensures
        restored.regs() == m.regs(),
        restored.snapshot() == m.snapshot(),
{
    crate::bits::lemma_byte_fields(m.inner_reg);
    crate::bits::lemma_byte_fields(m.outer_reg);
    crate::bits::lemma_byte_fields(m.prg_mode);
}

} // verus!
