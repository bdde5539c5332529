//! Mapper 319 - HP898F (4-in-1 multicart).
//!
//! Writes with `(addr & $6000) == $6000` (`$6000-$7FFF` and `$E000-$FFFF`)
//! store into register `(addr & 4) >> 2`.
//! - Register 0: CHR bank `(r0 >> 4) & 7` with bit 2 cleared when bit 0 is set
//!   and bit 1 cleared when bit 1 is set.
//! - Register 1: bit 7 selects vertical (1) or horizontal (0) mirroring;
//!   PRG bank `(r1 >> 3) & 7`; with bit 6 set the two 16 KiB windows form a
//!   32 KiB pair (bit 2 cleared at `$8000`, set at `$C000`), otherwise both
//!   show the same bank.
use vstd::prelude::*;
use crate::cartridge::{NametableLayout, MapperCapabilities, MapperContext};
use crate::base_mapper::BaseMapper;

verus! {

pub const MAPPER_NUMBER: u16 = 319;
pub const PRG_BANK_SIZE_BYTES: usize = 16 * 1024;
pub const CHR_BANK_SIZE_BYTES: usize = 8 * 1024;
pub const REGISTERS_SNAPSHOT_LEN: usize = 2;

pub open spec fn chr_page_of(r0: u8) -> u8 {
    let bank = (r0 >> 4) & 0x07;
    let mask = ((r0 & 0x01) << 2) | (r0 & 0x02);
    bank & !mask
}

pub open spec fn prg_pages_of(r1: u8) -> (u8, u8) {
    let reg = (r1 >> 3) & 0x07;
    let mask = (r1 >> 4) & 0x04;
    (reg & !mask, reg | mask)
}

pub open spec fn layout_of(r1: u8) -> NametableLayout {
    if r1 & 0x80 != 0 { NametableLayout::Vertical } else { NametableLayout::Horizontal }
}

/// Mapper 319 - HP898F.
pub struct Mapper319 {
    pub base: BaseMapper,
    pub regs: [u8; 2],
}

impl Mapper319 {
    pub open spec fn regs(&self) -> Seq<u8> {
        self.regs@
    }

    pub open spec fn wf(&self) -> bool {
        &&& self.base.wf()
        &&& self.base.prg_page_size == PRG_BANK_SIZE_BYTES
        &&& self.base.chr_page_size == CHR_BANK_SIZE_BYTES
        &&& self.base.prg_pages@.len() == 2
        &&& self.base.chr_pages@.len() == 1
    }

    pub open spec fn applied(&self) -> bool {
        let (p0, p1) = prg_pages_of(self.regs@[1]);
        &&& self.base.shows_prg(seq![p0 as int, p1 as int])
        &&& self.base.shows_chr(seq![chr_page_of(self.regs@[0]) as int])
        &&& self.base.mirroring == layout_of(self.regs@[1])
    }

    pub open spec fn is_register_write(addr: u16) -> bool {
        addr & 0x6000 == 0x6000
    }

    pub open spec fn write_post(&self, old: &Self, addr: u16, value: u8) -> bool {
        if Self::is_register_write(addr) {
            &&& self.wf()
            &&& self.applied()
            &&& self.base.same_memory(&old.base)
            &&& self.regs@ == old.regs@.update(((addr & 0x04) >> 2) as int, value)
        } else {
            *self == *old
        }
    }

    pub open spec fn snapshot(&self) -> Seq<u8> {
        self.regs@
    }

    pub open spec fn restore_post(&self, old: &Self, data: Seq<u8>) -> bool {
        if data.len() < REGISTERS_SNAPSHOT_LEN {
            *self == *old
        } else {
            &&& self.wf()
            &&& self.applied()
            &&& self.base.same_memory(&old.base)
            &&& self.regs@ == data.subrange(0, 2)
        }
    }

    pub open spec fn reset_post(&self, old: &Self) -> bool {
        &&& self.wf()
        &&& self.applied()
        &&& self.base.same_memory(&old.base)
        &&& self.regs@ == seq![0u8, 0]
    }

    pub fn new(ctx: MapperContext) -> (m: Self)
        ensures
            m.wf(),
            m.applied(),
            m.regs@ == seq![0u8, 0],
            m.base.prg_rom@ == ctx.prg_rom@,
            m.base.capabilities == (MapperCapabilities { has_irq: false, has_expansion_audio: false, has_chr_banking: true, has_dynamic_mirroring: true, max_prg_ram_kb: 0, prg_bank_size_kb: 16, chr_bank_size_kb: 8 }),
            m.base.chr_from(ctx.chr_rom@),
    {
        let capabilities = MapperCapabilities {
            has_irq: false,
            has_expansion_audio: false,
            has_chr_banking: true,
            has_dynamic_mirroring: true,
            max_prg_ram_kb: 0,
            prg_bank_size_kb: 16,
            chr_bank_size_kb: 8,
        };
        let mut base = BaseMapper::new(&ctx, capabilities);
        base.configure_prg_banking(PRG_BANK_SIZE_BYTES);
        base.configure_chr_banking(CHR_BANK_SIZE_BYTES);
        let mut mapper = Mapper319 { base, regs: [0u8; 2] };
        mapper.apply_banking();
        proof {
            assert(mapper.regs@ =~= seq![0u8, 0]);
        }
        mapper
    }

    pub fn chr_page(&self) -> (p: i16)
        ensures
            p == chr_page_of(self.regs@[0]) as i16,
    {
        let r0 = self.regs[0];
        let bank = (r0 >> 4) & 0x07;
        let mask = ((r0 & 0x01) << 2) | (r0 & 0x02);
        (bank & !mask) as i16
    }

    pub fn prg_pages(&self) -> (p: (i16, i16))
        ensures
            p.0 == prg_pages_of(self.regs@[1]).0 as i16,
            p.1 == prg_pages_of(self.regs@[1]).1 as i16,
    {
        let r1 = self.regs[1];
        let reg = (r1 >> 3) & 0x07;
        let mask = (r1 >> 4) & 0x04;
        ((reg & !mask) as i16, (reg | mask) as i16)
    }

    pub fn resolve_mirroring(&self) -> (l: NametableLayout)
        ensures
            l == layout_of(self.regs@[1]),
    {
        if self.regs[1] & 0x80 != 0 { NametableLayout::Vertical } else { NametableLayout::Horizontal }
    }

    fn apply_banking(&mut self)
        requires
            old(self).wf(),
        ensures
            final(self).wf(),
            final(self).applied(),
            final(self).regs@ == old(self).regs@,
            final(self).base.same_memory(&old(self).base),
    {
        let c = self.chr_page();
        self.base.select_chr_page(0, c);
        let (page0, page1) = self.prg_pages();
        self.base.select_prg_page(0, page0);
        self.base.select_prg_page(1, page1);
        proof {
            self.base.lemma_shows_chr1(c as int);
            self.base.lemma_shows_prg2(page0 as int, page1 as int);
        }
        let mirroring = self.resolve_mirroring();
        self.base.set_mirroring(mirroring);
    }

    pub fn write_prg(&mut self, addr: u16, value: u8)
        requires
            old(self).wf(),
        ensures
            final(self).write_post(old(self), addr, value),
    {
        if (addr & 0x6000) == 0x6000 {
            let i = ((addr & 0x04) >> 2) as usize;
            proof { crate::bits::lemma_addr_fields(addr); }
            self.regs[i] = value;
            self.apply_banking();
        }
    }

    pub fn registers_snapshot(&self) -> (s: Vec<u8>)
        ensures
            s@ == self.snapshot(),
    {
        let s = vec![self.regs[0], self.regs[1]];
        proof {
            assert(s@ =~= self.regs@);
        }
        s
    }

    pub fn restore_registers(&mut self, data: &[u8])
        requires
            old(self).wf(),
        ensures
            final(self).restore_post(old(self), data@),
    {
        if data.len() < REGISTERS_SNAPSHOT_LEN {
            return;
        }
        self.regs = [data[0], data[1]];
        self.apply_banking();
        proof {
            assert(self.regs@ =~= data@.subrange(0, 2));
        }
    }

    pub fn reset(&mut self)
        requires
            old(self).wf(),
        ensures
            final(self).reset_post(old(self)),
    {
        self.regs = [0u8; 2];
        self.apply_banking();
        proof {
            assert(self.regs@ =~= seq![0u8, 0]);
        }
    }

    pub open spec fn spec_mirroring(&self) -> NametableLayout {
        self.base.mirroring
    }

    pub open spec fn spec_read_chr(&self, addr: u16) -> u8 {
        self.base.spec_read_chr(addr)
    }

    /// State after a PPU write to pattern memory: CHR-RAM takes the byte.
    pub open spec fn write_chr_post(&self, old: &Self, addr: u16, value: u8) -> bool {
        &&& self.wf()
        &&& self.base.chr@ == (if old.base.chr_writable && old.base.chr_count() > 0 {
            old.base.chr@.update(old.base.chr_index(addr) as int, value)
        } else {
            old.base.chr@
        })
        &&& self.base.prg_pages@ == old.base.prg_pages@
        &&& self.base.chr_pages@ == old.base.chr_pages@
        &&& self.base.mirroring == old.base.mirroring
        &&& self.regs() == old.regs()
    }

    pub fn read_chr(&self, addr: u16) -> (v: u8)
        requires
            self.wf(),
        ensures
            v == self.spec_read_chr(addr),
    {
        self.base.read_chr(addr)
    }

    pub fn write_chr(&mut self, addr: u16, value: u8)
        requires
            old(self).wf(),
        ensures
            final(self).write_chr_post(old(self), addr, value),
    {
        self.base.write_chr(addr, value);
    }

    /// Every CPU read is defined.
    pub open spec fn read_ok(&self, addr: u16) -> bool {
        true
    }

    pub open spec fn spec_read_prg(&self, addr: u16) -> u8 {
        self.base.spec_read_prg(addr)
    }

    pub fn read_prg(&self, addr: u16) -> (v: u8)
        requires
            self.wf(),
        ensures
            v == self.spec_read_prg(addr),
    {
        self.base.read_prg(addr)
    }

    /// The board's memory and page tables.
    pub fn base(&self) -> (b: &BaseMapper)
        ensures
            *b == self.base,
    {
        &self.base
    }

    pub fn get_mirroring(&self) -> (m: NametableLayout)
        ensures
            m == self.spec_mirroring(),
    {
        self.base.mirroring
    }

    pub fn capabilities(&self) -> (c: MapperCapabilities)
        ensures
            c == self.base.capabilities,
    {
        self.base.capabilities
    }

    pub fn mapper_number(&self) -> (n: u16)
        ensures
            n == MAPPER_NUMBER,
    {
        MAPPER_NUMBER
    }

    pub open spec fn spec_irq_pending(&self) -> bool {
        false
    }

    /// The board raises no interrupt.
    pub fn irq_pending(&self) -> (p: bool)
        ensures
            p == self.spec_irq_pending(),
    {
        false
    }

    pub open spec fn cycle_ok(&self) -> bool {
        true
    }

    pub open spec fn cycle_post(&self, old: &Self) -> bool {
        *self == *old
    }

    /// The board does not count CPU cycles.
    pub fn cpu_cycle(&mut self)
        requires
            old(self).wf(),
        ensures
            final(self).cycle_post(old(self)),
    {
    }

}

/// Restoring a board from its own snapshot brings back both registers.
/// The restored board then snapshots to the same bytes.
pub proof fn lemma_snapshot_roundtrip(m: Mapper319, before: Mapper319, restored: Mapper319)
    requires
        restored.restore_post(&before, m.snapshot()),
    ensures
        restored.regs@ == m.regs@,
        restored.snapshot() == m.snapshot(),
{
    assert(m.snapshot().subrange(0, 2) =~= m.regs@);
}

} // verus!
