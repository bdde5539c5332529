//! Mapper 289 - BMC-60311C multicart.
//!
//! `$8000-$FFFF` writes set `inner_prg = value & 7`; even addresses in
//! `$6000-$7FFF` set `mode = value & 0x0F`, odd ones set `outer_prg = value`.
//! `page = outer_prg | (mode bit 2 ? 0 : inner_prg)`; mode bits 1:0 choose
//! NROM-128 (page, page), NROM-256 (page & 0xFE, +1), UNROM (page, outer | 7)
//! or, for 3, leave the PRG banks as they are. CHR is fixed to bank 0 and mode
//! bit 3 selects horizontal mirroring.
use vstd::prelude::*;
use crate::cartridge::{NametableLayout, MapperCapabilities, MapperContext, layout_hv};
use crate::base_mapper::BaseMapper;

verus! {

pub const MAPPER_NUMBER: u16 = 289;
pub const PRG_BANK_SIZE_BYTES: usize = 16 * 1024;
pub const CHR_BANK_SIZE_BYTES: usize = 8 * 1024;

/// The 16 KiB page selected by the registers before the layout is applied.
pub open spec fn page_of(inner: u8, outer: u8, mode: u8) -> u8 {
    outer | (if mode & 0x04 != 0 { 0u8 } else { inner })
}

/// The page numbers of the two PRG windows (meaningless for layout 3).
pub open spec fn prg_pages_of(inner: u8, outer: u8, mode: u8) -> Seq<int> {
    let page = page_of(inner, outer, mode);
    if mode & 0x03 == 0 {
        seq![page as int, page as int]
    } else if mode & 0x03 == 1 {
        seq![(page & 0xFE) as int, (page & 0xFE) as int + 1]
    } else {
        seq![page as int, (outer | 0x07) as int]
    }
}

/// Registers `(inner_prg, outer_prg, mode)` after a CPU write.
pub open spec fn regs_after_write(regs: (u8, u8, u8), addr: u16, value: u8) -> (u8, u8, u8) {
    if addr >= 0x8000 {
        (value & 0x07, regs.1, regs.2)
    } else if 0x6000 <= addr && addr & 0xE001 == 0x6000 {
        (regs.0, regs.1, value & 0x0F)
    } else if 0x6000 <= addr && addr & 0xE001 == 0x6001 {
        (regs.0, value, regs.2)
    } else {
        regs
    }
}

/// Whether a CPU write reaches one of the registers.
pub open spec fn is_register_write(addr: u16) -> bool {
    addr >= 0x8000 || (0x6000 <= addr && (addr & 0xE001 == 0x6000 || addr & 0xE001 == 0x6001))
}

/// Mapper 289 - BMC-60311C multicart.
pub struct Mapper289 {
    pub base: BaseMapper,
    pub inner_prg: u8,
    pub outer_prg: u8,
    pub mode: u8,
}

impl Mapper289 {
    pub open spec fn regs(&self) -> (u8, u8, u8) {
        (self.inner_prg, self.outer_prg, self.mode)
    }

    pub open spec fn wf(&self) -> bool {
        &&& self.base.wf()
        &&& self.base.prg_page_size == PRG_BANK_SIZE_BYTES
        &&& self.base.chr_page_size == CHR_BANK_SIZE_BYTES
        &&& self.base.prg_pages@.len() == 2
        &&& self.base.chr_pages@.len() == 1
        &&& self.inner_prg <= 7
        &&& self.mode <= 0x0F
    }

    /// The banks shown agree with the registers, except that layout 3 keeps
    /// whatever PRG banks `prev` showed.
    pub open spec fn applied(&self, prev: Seq<usize>) -> bool {
        &&& if self.mode & 0x03 == 3 {
            self.base.prg_pages@ == prev
        } else {
            self.base.shows_prg(prg_pages_of(self.inner_prg, self.outer_prg, self.mode))
        }
        &&& self.base.shows_chr(seq![0int])
        &&& self.base.mirroring == layout_hv(self.mode & 0x08 != 0)
    }

    /// State after a CPU write of `value` to `addr`, starting from `old`.
    pub open spec fn write_post(&self, old: &Self, addr: u16, value: u8) -> bool {
        &&& self.wf()
        &&& self.regs() == regs_after_write(old.regs(), addr, value)
        &&& self.base.same_memory(&old.base)
        &&& is_register_write(addr) ==> self.applied(old.base.prg_pages@)
        &&& !is_register_write(addr) ==> self.base == old.base
    }

    /// State after restoring registers from `data`, starting from `old`.
    pub open spec fn restore_post(&self, old: &Self, data: Seq<u8>) -> bool {
        &&& self.wf()
        &&& self.base.same_memory(&old.base)
        &&& data.len() < 3 ==> *self == *old
        &&& data.len() >= 3 ==> self.regs() == (data[0] & 0x07, data[1], data[2] & 0x0F)
            && self.applied(old.base.prg_pages@)
    }

    /// Power-on state reached again by a reset of `old`.
    pub open spec fn reset_post(&self, old: &Self) -> bool {
        &&& self.wf()
        &&& self.regs() == (0u8, 0u8, 0u8)
        &&& self.base.same_memory(&old.base)
        &&& self.base.shows_prg(seq![0int, 0int])
        &&& self.applied(old.base.prg_pages@)
    }

    pub open spec fn snapshot(&self) -> Seq<u8> {
        seq![self.inner_prg, self.outer_prg, self.mode]
    }

    pub fn new(ctx: MapperContext) -> (m: Self)
        ensures
            m.wf(),
            m.regs() == (0u8, 0u8, 0u8),
            m.base.shows_prg(seq![0int, 0int]),
            m.applied(m.base.prg_pages@),
            m.base.prg_rom@ == ctx.prg_rom@,
            m.base.capabilities == (MapperCapabilities { has_irq: false, has_expansion_audio: false, has_dynamic_mirroring: true, has_chr_banking: false, prg_bank_size_kb: 16, chr_bank_size_kb: 8, max_prg_ram_kb: 0 }),
            m.base.chr_from(ctx.chr_rom@),
    {
        let capabilities = MapperCapabilities {
            has_irq: false,
            has_expansion_audio: false,
            has_dynamic_mirroring: true,
            has_chr_banking: false,
            prg_bank_size_kb: 16,
            chr_bank_size_kb: 8,
            max_prg_ram_kb: 0,
        };
        let mut base = BaseMapper::new(&ctx, capabilities);
        base.configure_prg_banking(PRG_BANK_SIZE_BYTES);
        base.configure_chr_banking(CHR_BANK_SIZE_BYTES);
        let mut mapper = Mapper289 { base, inner_prg: 0, outer_prg: 0, mode: 0 };
        proof { lemma_zero_bits(); }
        mapper.apply_state();
        mapper
    }

    fn apply_state(&mut self)
        requires
            old(self).wf(),
        ensures
            final(self).wf(),
            final(self).regs() == old(self).regs(),
            final(self).base.same_memory(&old(self).base),
            final(self).applied(old(self).base.prg_pages@),
    {
        let inner = if self.mode & 0x04 != 0 { 0 } else { self.inner_prg };
        let page = self.outer_prg | inner;
        let ghost pages = prg_pages_of(self.inner_prg, self.outer_prg, self.mode);
        let mode = self.mode;
        proof { crate::bits::lemma_byte_fields(mode); }
        match self.mode & 0x03 {
            0 => {
                self.base.select_prg_page(0, page as i16);
                self.base.select_prg_page(1, page as i16);
            },
            1 => {
                let aligned = (page & 0xFE) as i16;
                self.base.select_prg_page(0, aligned);
                self.base.select_prg_page(1, aligned + 1);
            },
            2 => {
                self.base.select_prg_page(0, page as i16);
                self.base.select_prg_page(1, (self.outer_prg | 0x07) as i16);
            },
            _ => {},
        }
        proof {
            if mode & 0x03 != 3 {
                assert(self.base.prg_pages@[0] == crate::base_mapper::wrap_page(pages[0], self.base.prg_count()));
                assert(self.base.prg_pages@[1] == crate::base_mapper::wrap_page(pages[1], self.base.prg_count()));
                self.base.lemma_shows_prg2(pages[0], pages[1]);
                assert(pages == seq![pages[0], pages[1]]);
            }
        }
        self.base.select_chr_page(0, 0);
        self.base.set_mirroring_hv(self.mode & 0x08 != 0);
    }

    pub fn write_prg(&mut self, addr: u16, value: u8)
        requires
            old(self).wf(),
        ensures
            final(self).write_post(old(self), addr, value),
    {
        proof { lemma_masks(value); }
        if addr >= 0x8000 {
            self.inner_prg = value & 0x07;
            self.apply_state();
        } else if addr >= 0x6000 {
            let sel = addr & 0xE001;
            if sel == 0x6000 {
                self.mode = value & 0x0F;
                self.apply_state();
            } else if sel == 0x6001 {
                self.outer_prg = value;
                self.apply_state();
            }
        }
    }

    pub fn registers_snapshot(&self) -> (s: Vec<u8>)
        ensures
            s@ == self.snapshot(),
    {
        vec![self.inner_prg, self.outer_prg, self.mode]
    }

    pub fn restore_registers(&mut self, data: &[u8])
        requires
            old(self).wf(),
        ensures
            final(self).restore_post(old(self), data@),
    {
        if data.len() < 3 {
            return;
        }
        proof { lemma_masks(data@[0]); lemma_masks(data@[2]); }
        self.inner_prg = data[0] & 0x07;
        self.outer_prg = data[1];
        self.mode = data[2] & 0x0F;
        self.apply_state();
    }

    pub fn reset(&mut self)
        requires
            old(self).wf(),
        ensures
            final(self).reset_post(old(self)),
    {
        self.inner_prg = 0;
        self.outer_prg = 0;
        self.mode = 0;
        proof { lemma_zero_bits(); }
        self.apply_state();
    }


    /// Every CPU read is defined.
    pub open spec fn read_ok(&self, addr: u16) -> bool {
        true
    }

    pub open spec fn spec_mirroring(&self) -> NametableLayout {
        self.base.mirroring
    }

    pub open spec fn spec_read_chr(&self, addr: u16) -> u8 {
        self.base.spec_read_chr(addr)
    }

    /// State after a PPU write to pattern memory: CHR-RAM takes the byte.
    pub open spec fn write_chr_post(&self, old: &Self, addr: u16, value: u8) -> bool {
        &&& self.wf()
        &&& self.base.chr@ == (if old.base.chr_writable && old.base.chr_count() > 0 {
            old.base.chr@.update(old.base.chr_index(addr) as int, value)
        } else {
            old.base.chr@
        })
        &&& self.base.prg_pages@ == old.base.prg_pages@
        &&& self.base.chr_pages@ == old.base.chr_pages@
        &&& self.base.mirroring == old.base.mirroring
        &&& self.regs() == old.regs()
    }

    pub fn read_chr(&self, addr: u16) -> (v: u8)
        requires
            self.wf(),
        ensures
            v == self.spec_read_chr(addr),
    {
        self.base.read_chr(addr)
    }

    pub fn write_chr(&mut self, addr: u16, value: u8)
        requires
            old(self).wf(),
        ensures
            final(self).write_chr_post(old(self), addr, value),
    {
        self.base.write_chr(addr, value);
    }

    pub open spec fn spec_read_prg(&self, addr: u16) -> u8 {
        self.base.spec_read_prg(addr)
    }

    pub fn read_prg(&self, addr: u16) -> (v: u8)
        requires
            self.wf(),
        ensures
            v == self.spec_read_prg(addr),
    {
        self.base.read_prg(addr)
    }

    /// The board's memory and page tables.
    pub fn base(&self) -> (b: &BaseMapper)
        ensures
            *b == self.base,
    {
        &self.base
    }

    pub fn get_mirroring(&self) -> (m: NametableLayout)
        ensures
            m == self.spec_mirroring(),
    {
        self.base.mirroring
    }

    pub fn capabilities(&self) -> (c: MapperCapabilities)
        ensures
            c == self.base.capabilities,
    {
        self.base.capabilities
    }

    pub fn mapper_number(&self) -> (n: u16)
        ensures
            n == MAPPER_NUMBER,
    {
        MAPPER_NUMBER
    }

    pub open spec fn spec_irq_pending(&self) -> bool {
        false
    }

    /// The board raises no interrupt.
    pub fn irq_pending(&self) -> (p: bool)
        ensures
            p == self.spec_irq_pending(),
    {
        false
    }

    pub open spec fn cycle_ok(&self) -> bool {
        true
    }

    pub open spec fn cycle_post(&self, old: &Self) -> bool {
        *self == *old
    }

    /// The board does not count CPU cycles.
    pub fn cpu_cycle(&mut self)
        requires
            old(self).wf(),
        ensures
            final(self).cycle_post(old(self)),
    {
    }

}

proof fn lemma_masks(v: u8)
    ensures
        v & 0x07 <= 7,
        v & 0x0F <= 0x0F,
{
    assert(v & 0x07 <= 7 && v & 0x0F <= 0x0F) by (bit_vector);
}

proof fn lemma_zero_bits()
    ensures
        0u8 & 0x03 == 0,
        0u8 & 0x04 == 0,
        0u8 & 0x08 == 0,
        0u8 | 0u8 == 0,
{
    assert(0u8 & 0x03 == 0 && 0u8 & 0x04 == 0 && 0u8 & 0x08 == 0 && 0u8 | 0u8 == 0) by (bit_vector);
}

/// Restoring the snapshot of a mapper brings back its registers.
/// The restored board then snapshots to the same bytes.
pub proof fn lemma_snapshot_roundtrip(m: Mapper289, before: Mapper289, restored: Mapper289)
    requires
        m.wf(),
        restored.restore_post(&before, m.snapshot()),
    ensures
        restored.regs() == m.regs(),
        restored.snapshot() == m.snapshot(),
{
    let inner = m.inner_prg;
    let mode = m.mode;
    assert(inner & 0x07 == inner) by (bit_vector)
        requires inner <= 7;
    assert(mode & 0x0F == mode) by (bit_vector)
        requires mode <= 0x0F;
}

} // verus!
