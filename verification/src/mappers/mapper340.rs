//! Mapper 340 - BMC-K-3036 (35-in-1 multicart).
//!
//! A write to `$8000-$FFFF` sets the outer 16 KiB bank from address bits
//! 4:0, the inner bank from value bits 2:0, NROM-128 mode from address bit 5
//! and horizontal mirroring when address bits 5, 2 and 0 are all set. In
//! NROM-128 mode both windows show the outer bank; otherwise (UNROM) `$8000`
//! shows `outer | inner` and `$C000` shows `outer | 7`. CHR is 8 KiB of RAM,
//! seeded from the CHR-ROM image when there is one.
use vstd::prelude::*;
use crate::cartridge::{NametableLayout, MapperCapabilities, MapperContext, layout_hv};
use crate::base_mapper::{BaseMapper, ChrMemory};

verus! {

pub const MAPPER_NUMBER: u16 = 340;
pub const PRG_BANK_SIZE_BYTES: usize = 16 * 1024;
pub const CHR_BANK_SIZE_BYTES: usize = 8 * 1024;
pub const PRG_WRITE_START: u16 = 0x8000;
pub const OUTER_PRG_MASK: u8 = 0x1F;
pub const INNER_PRG_MASK: u8 = 0x07;
pub const MODE_NROM_128_BIT: u16 = 0x20;
pub const HORIZONTAL_MIRROR_BITS: u16 = 0x25;
pub const UNROM_FIXED_INNER_BANK: i16 = 0x07;
pub const REGISTERS_SNAPSHOT_LEN: usize = 4;

pub open spec fn bank_8000_of(outer: u8, inner: u8, nrom: bool) -> int {
    if nrom { outer as int } else { (outer | inner) as int }
}

pub open spec fn bank_c000_of(outer: u8, nrom: bool) -> int {
    if nrom { outer as int } else { (outer | 7) as int }
}

/// Mapper 340 - BMC-K-3036.
pub struct Mapper340 {
    pub base: BaseMapper,
    pub outer_prg_bank: u8,
    pub inner_prg_bank: u8,
    pub nrom_128_mode: bool,
    pub mirroring_horizontal: bool,
}

impl Mapper340 {
    pub open spec fn regs(&self) -> (u8, u8, bool, bool) {
        (self.outer_prg_bank, self.inner_prg_bank, self.nrom_128_mode, self.mirroring_horizontal)
    }

    pub open spec fn wf(&self) -> bool {
        &&& self.base.wf()
        &&& self.base.prg_page_size == PRG_BANK_SIZE_BYTES
        &&& self.base.chr_page_size == CHR_BANK_SIZE_BYTES
        &&& self.base.prg_pages@.len() == 2
        &&& self.base.chr_pages@.len() == 1
        &&& self.outer_prg_bank <= 0x1F
        &&& self.inner_prg_bank <= 0x07
    }

    pub open spec fn applied(&self) -> bool {
        &&& self.base.shows_prg(seq![
            bank_8000_of(self.outer_prg_bank, self.inner_prg_bank, self.nrom_128_mode),
            bank_c000_of(self.outer_prg_bank, self.nrom_128_mode),
        ])
        &&& self.base.shows_chr(seq![0int])
        &&& self.base.mirroring == layout_hv(self.mirroring_horizontal)
    }

    pub open spec fn write_post(&self, old: &Self, addr: u16, value: u8) -> bool {
        &&& self.wf()
        &&& self.base.same_memory(&old.base)
        &&& if addr >= PRG_WRITE_START {
            &&& self.regs() == (
                (addr as u8) & OUTER_PRG_MASK,
                value & INNER_PRG_MASK,
                (addr & MODE_NROM_128_BIT) != 0,
                (addr & HORIZONTAL_MIRROR_BITS) == HORIZONTAL_MIRROR_BITS,
            )
            &&& self.applied()
        } else {
            self.regs() == old.regs() && self.base.unchanged(&old.base)
        }
    }

    pub open spec fn restore_post(&self, old: &Self, data: Seq<u8>) -> bool {
        &&& self.wf()
        &&& self.base.same_memory(&old.base)
        &&& if data.len() < REGISTERS_SNAPSHOT_LEN {
            self.regs() == old.regs() && self.base.unchanged(&old.base)
        } else {
            self.regs() == (data[0] & OUTER_PRG_MASK, data[1] & INNER_PRG_MASK, data[2] != 0, data[3] != 0)
                && self.applied()
        }
    }

    pub open spec fn reset_post(&self, old: &Self) -> bool {
        &&& self.wf()
        &&& self.base.same_memory(&old.base)
        &&& self.regs() == (0u8, 0u8, false, false)
        &&& self.applied()
    }

    pub open spec fn snapshot(&self) -> Seq<u8> {
        seq![
            self.outer_prg_bank,
            self.inner_prg_bank,
            if self.nrom_128_mode { 1u8 } else { 0u8 },
            if self.mirroring_horizontal { 1u8 } else { 0u8 },
        ]
    }

    pub fn new(ctx: MapperContext) -> (m: Self)
        ensures
            m.wf(),
            m.regs() == (0u8, 0u8, false, false),
            m.applied(),
            m.base.prg_rom@ == ctx.prg_rom@,
            m.base.chr_writable,
            m.base.chr@ == crate::base_mapper::seeded_chr_ram(ctx.chr_rom@),
            m.base.capabilities == (MapperCapabilities { has_irq: false, has_expansion_audio: false, has_chr_banking: false, has_dynamic_mirroring: true, prg_bank_size_kb: 16, chr_bank_size_kb: 8, max_prg_ram_kb: 0 }),
    {
        let capabilities = MapperCapabilities {
            has_irq: false,
            has_expansion_audio: false,
            has_chr_banking: false,
            has_dynamic_mirroring: true,
            prg_bank_size_kb: 16,
            chr_bank_size_kb: 8,
            max_prg_ram_kb: 0,
        };
        let mut base = BaseMapper::new(&ctx, capabilities);
        base.configure_prg_banking(PRG_BANK_SIZE_BYTES);
        base.configure_chr_banking(CHR_BANK_SIZE_BYTES);
        let mut chr_ram = ChrMemory::new_ram(CHR_BANK_SIZE_BYTES);
        if ctx.chr_rom.len() > 0 {
            chr_ram.load_snapshot(ctx.chr_rom.as_slice());
        }
        proof {
            assert(chr_ram.data@ =~= crate::base_mapper::seeded_chr_ram(ctx.chr_rom@));
        }
        base.set_chr_memory(chr_ram);
        let mut mapper = Mapper340 {
            base,
            outer_prg_bank: 0,
            inner_prg_bank: 0,
            nrom_128_mode: false,
            mirroring_horizontal: false,
        };
        mapper.update_banks();
        mapper
    }

    fn update_banks(&mut self)
        requires
            old(self).wf(),
        ensures
            final(self).wf(),
            final(self).regs() == old(self).regs(),
            final(self).base.same_memory(&old(self).base),
            final(self).applied(),
    {
        let bank_8000 = self.prg_bank_8000();
        let bank_c000 = self.prg_bank_c000();
        self.base.select_prg_page(0, bank_8000);
        self.base.select_prg_page(1, bank_c000);
        self.base.select_chr_page(0, 0);
        proof {
            self.base.lemma_shows_prg2(bank_8000 as int, bank_c000 as int);
            self.base.lemma_shows_chr1(0);
        }
        self.base.set_mirroring_hv(self.mirroring_horizontal);
    }

    pub fn prg_bank_8000(&self) -> (b: i16)
        ensures
            b as int == bank_8000_of(self.outer_prg_bank, self.inner_prg_bank, self.nrom_128_mode),
    {
        if self.nrom_128_mode {
            self.outer_prg_bank as i16
        } else {
            (self.outer_prg_bank | self.inner_prg_bank) as i16
        }
    }

    pub fn prg_bank_c000(&self) -> (b: i16)
        ensures
            b as int == bank_c000_of(self.outer_prg_bank, self.nrom_128_mode),
    {
        if self.nrom_128_mode {
            self.outer_prg_bank as i16
        } else {
            (self.outer_prg_bank | 7) as i16
        }
    }

    fn apply_state(&mut self, outer_prg_bank: u8, inner_prg_bank: u8, nrom_128_mode: bool, mirroring_horizontal: bool)
        requires
            old(self).wf(),
            outer_prg_bank <= 0x1F,
            inner_prg_bank <= 0x07,
        ensures
            final(self).wf(),
            final(self).regs() == (outer_prg_bank, inner_prg_bank, nrom_128_mode, mirroring_horizontal),
            final(self).base.same_memory(&old(self).base),
            final(self).applied(),
    {
        self.outer_prg_bank = outer_prg_bank;
        self.inner_prg_bank = inner_prg_bank;
        self.nrom_128_mode = nrom_128_mode;
        self.mirroring_horizontal = mirroring_horizontal;
        self.update_banks();
    }

    pub fn decode_mirroring_horizontal(addr: u16) -> (h: bool)
        ensures
            h == ((addr & HORIZONTAL_MIRROR_BITS) == HORIZONTAL_MIRROR_BITS),
    {
        (addr & HORIZONTAL_MIRROR_BITS) == HORIZONTAL_MIRROR_BITS
    }

    pub fn write_prg(&mut self, addr: u16, value: u8)
        requires
            old(self).wf(),
        ensures
            final(self).write_post(old(self), addr, value),
    {
        if addr < PRG_WRITE_START {
            return;
        }
        let a = addr as u8;
        proof {
            assert(a & 0x1F <= 0x1F && value & 0x07 <= 0x07) by (bit_vector);
        }
        self.apply_state(
            (addr as u8) & OUTER_PRG_MASK,
            value & INNER_PRG_MASK,
            (addr & MODE_NROM_128_BIT) != 0,
            Self::decode_mirroring_horizontal(addr),
        );
    }

    pub fn registers_snapshot(&self) -> (s: Vec<u8>)
        ensures
            s@ == self.snapshot(),
    {
        vec![
            self.outer_prg_bank,
            self.inner_prg_bank,
            if self.nrom_128_mode { 1u8 } else { 0u8 },
            if self.mirroring_horizontal { 1u8 } else { 0u8 },
        ]
    }

    pub fn restore_registers(&mut self, data: &[u8])
        requires
            old(self).wf(),
        ensures
            final(self).restore_post(old(self), data@),
    {
        if data.len() < REGISTERS_SNAPSHOT_LEN {
            return;
        }
        let d0 = data[0];
        let d1 = data[1];
        proof {
            assert(d0 & 0x1F <= 0x1F && d1 & 0x07 <= 0x07) by (bit_vector);
        }
        self.apply_state(d0 & OUTER_PRG_MASK, d1 & INNER_PRG_MASK, data[2] != 0, data[3] != 0);
    }

    pub fn reset(&mut self)
        requires
            old(self).wf(),
        ensures
            final(self).reset_post(old(self)),
    {
        self.apply_state(0, 0, false, false);
    }

    /// Every CPU read is defined.
    pub open spec fn read_ok(&self, addr: u16) -> bool {
        true
    }

    pub open spec fn spec_mirroring(&self) -> NametableLayout {
        self.base.mirroring
    }

    pub open spec fn spec_read_chr(&self, addr: u16) -> u8 {
        self.base.spec_read_chr(addr)
    }

    /// State after a PPU write to pattern memory: CHR-RAM takes the byte.
    pub open spec fn write_chr_post(&self, old: &Self, addr: u16, value: u8) -> bool {
        &&& self.wf()
        &&& self.base.chr@ == (if old.base.chr_writable && old.base.chr_count() > 0 {
            old.base.chr@.update(old.base.chr_index(addr) as int, value)
        } else {
            old.base.chr@
        })
        &&& self.base.prg_pages@ == old.base.prg_pages@
        &&& self.base.chr_pages@ == old.base.chr_pages@
        &&& self.base.mirroring == old.base.mirroring
        &&& self.regs() == old.regs()
    }

    pub fn read_chr(&self, addr: u16) -> (v: u8)
        requires
            self.wf(),
        ensures
            v == self.spec_read_chr(addr),
    {
        self.base.read_chr(addr)
    }

    pub fn write_chr(&mut self, addr: u16, value: u8)
        requires
            old(self).wf(),
        ensures
            final(self).write_chr_post(old(self), addr, value),
    {
        self.base.write_chr(addr, value);
    }

    pub open spec fn spec_read_prg(&self, addr: u16) -> u8 {
        self.base.spec_read_prg(addr)
    }

    pub fn read_prg(&self, addr: u16) -> (v: u8)
        requires
            self.wf(),
        ensures
            v == self.spec_read_prg(addr),
    {
        self.base.read_prg(addr)
    }

    /// The board's memory and page tables.
    pub fn base(&self) -> (b: &BaseMapper)
        ensures
            *b == self.base,
    {
        &self.base
    }

    pub fn get_mirroring(&self) -> (m: NametableLayout)
        ensures
            m == self.spec_mirroring(),
    {
        self.base.mirroring
    }

    pub fn capabilities(&self) -> (c: MapperCapabilities)
        ensures
            c == self.base.capabilities,
    {
        self.base.capabilities
    }

    pub fn mapper_number(&self) -> (n: u16)
        ensures
            n == MAPPER_NUMBER,
    {
        MAPPER_NUMBER
    }

    pub open spec fn spec_irq_pending(&self) -> bool {
        false
    }

    /// The board raises no interrupt.
    pub fn irq_pending(&self) -> (p: bool)
        ensures
            p == self.spec_irq_pending(),
    {
        false
    }

    pub open spec fn cycle_ok(&self) -> bool {
        true
    }

    pub open spec fn cycle_post(&self, old: &Self) -> bool {
        *self == *old
    }

    /// The board does not count CPU cycles.
    pub fn cpu_cycle(&mut self)
        requires
            old(self).wf(),
        ensures
            final(self).cycle_post(old(self)),
    {
    }

}

/// Restoring the snapshot of a mapper brings back its registers.
/// The restored board then snapshots to the same bytes.
pub proof fn lemma_snapshot_roundtrip(m: Mapper340, before: Mapper340, restored: Mapper340)
    requires
        m.wf(),
        restored.restore_post(&before, m.snapshot()),
    ensures
        restored.regs() == m.regs(),
        restored.snapshot() == m.snapshot(),
{
    let o = m.outer_prg_bank;
    let i = m.inner_prg_bank;
    assert(o & 0x1F == o && i & 0x07 == i) by (bit_vector)
        requires o <= 0x1F, i <= 0x07;
}

} // verus!
