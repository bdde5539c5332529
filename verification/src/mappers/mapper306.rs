//! Mapper 306 - Kaiser KS7016.
//!
//! `$8000-$FFFF` is fixed to 8 KiB banks 0x0C-0x0F; `$6000-$7FFF` shows the
//! 8 KiB bank in `prg_reg` (8 at power-on). The register is set from the
//! address of a write to `$8000-$FFFF`: with `mode = (addr & 0x30) == 0x30`,
//! `addr & 0xD943 == 0xD943` sets `mode ? 0x0B : (addr >> 2) & 0x0F` and
//! `addr & 0xD943 == 0xD903` sets `mode ? 8 | ((addr >> 2) & 3) : 0x0B`.
use vstd::prelude::*;
use crate::cartridge::{NametableLayout, MapperCapabilities, MapperContext};
use crate::base_mapper::BaseMapper;

verus! {

pub const MAPPER_NUMBER: u16 = 306;

/// The register value a write to `addr` stores, if it reaches the register.
pub open spec fn decoded_reg(addr: u16) -> Option<u8> {
    let mode = (addr & 0x30) == 0x30;
    if addr & 0xD943 == 0xD943 {
        Some(if mode { 0x0Bu8 } else { ((addr >> 2) & 0x0F) as u8 })
    } else if addr & 0xD943 == 0xD903 {
        Some(if mode { 0x08u8 | (((addr >> 2) & 0x03) as u8) } else { 0x0Bu8 })
    } else {
        None
    }
}

/// Mapper 306 - Kaiser KS7016.
pub struct Mapper306 {
    pub base: BaseMapper,
    /// 8 KiB PRG-ROM bank shown at `$6000-$7FFF`.
    pub prg_reg: u8,
}

impl Mapper306 {
    pub open spec fn regs(&self) -> u8 {
        self.prg_reg
    }

    pub open spec fn wf(&self) -> bool {
        &&& self.base.wf()
        &&& self.base.prg_page_size == 0x2000
        &&& self.base.chr_page_size == 0x2000
        &&& self.base.prg_pages@.len() == 4
        &&& self.base.chr_pages@.len() == 1
        &&& self.base.prg_6000_banked
        &&& self.base.prg_ram@.len() == 0
        &&& self.applied()
    }

    /// Slot sizes and counts, before the banks are set.
    pub open spec fn shape(&self) -> bool {
        &&& self.base.wf()
        &&& self.base.prg_page_size == 0x2000
        &&& self.base.chr_page_size == 0x2000
        &&& self.base.prg_pages@.len() == 4
        &&& self.base.chr_pages@.len() == 1
        &&& self.base.prg_6000_banked
        &&& self.base.prg_ram@.len() == 0
    }

    pub open spec fn window_applied(&self) -> bool {
        self.base.prg_6000_page == crate::base_mapper::wrap_page(self.prg_reg as int, self.base.prg_6000_count())
    }

    pub open spec fn applied(&self) -> bool {
        &&& self.base.shows_prg(seq![0x0Cint, 0x0Dint, 0x0Eint, 0x0Fint])
        &&& self.base.shows_chr(seq![0int])
        &&& self.window_applied()
    }

    pub open spec fn write_post(&self, old: &Self, addr: u16, value: u8) -> bool {
        &&& self.wf()
        &&& self.base.same_memory(&old.base)
        &&& self.base.prg_pages@ == old.base.prg_pages@
        &&& self.base.chr_pages@ == old.base.chr_pages@
        &&& self.base.mirroring == old.base.mirroring
        &&& match (if addr >= 0x8000 { decoded_reg(addr) } else { None }) {
            Some(r) => self.prg_reg == r && self.window_applied(),
            None => self.prg_reg == old.prg_reg && self.base.prg_6000_page == old.base.prg_6000_page,
        }
    }

    pub open spec fn restore_post(&self, old: &Self, data: Seq<u8>) -> bool {
        &&& self.wf()
        &&& self.base.same_memory(&old.base)
        &&& self.base.prg_pages@ == old.base.prg_pages@
        &&& self.base.chr_pages@ == old.base.chr_pages@
        &&& self.base.mirroring == old.base.mirroring
        &&& if data.len() >= 1 {
            self.prg_reg == data[0] && self.window_applied()
        } else {
            self.prg_reg == old.prg_reg && self.base.prg_6000_page == old.base.prg_6000_page
        }
    }

    pub open spec fn reset_post(&self, old: &Self) -> bool {
        &&& self.wf()
        &&& self.base.same_memory(&old.base)
        &&& self.base.mirroring == old.base.mirroring
        &&& self.prg_reg == 8
        &&& self.applied()
    }

    pub open spec fn snapshot(&self) -> Seq<u8> {
        seq![self.prg_reg]
    }

    /// Banked ROM at `$6000-$FFFF`, 0 below.
    pub open spec fn spec_read_prg(&self, addr: u16) -> u8 {
        if 0x6000 <= addr < 0x8000 {
            match self.base.spec_prg_6000(addr) { Some(v) => v, None => 0 }
        } else {
            self.base.spec_read_prg_rom(addr)
        }
    }

    pub fn new(ctx: MapperContext) -> (m: Self)
        ensures
            m.wf(),
            m.prg_reg == 8,
            m.applied(),
            m.base.mirroring == ctx.mirroring,
            m.base.prg_rom@ == ctx.prg_rom@,
            m.base.capabilities == (MapperCapabilities { has_irq: false, has_expansion_audio: false, has_chr_banking: false, has_dynamic_mirroring: false, max_prg_ram_kb: 0, prg_bank_size_kb: 8, chr_bank_size_kb: 8 }),
            m.base.chr_from(ctx.chr_rom@),
    {
        let capabilities = MapperCapabilities {
            has_irq: false,
            has_expansion_audio: false,
            has_chr_banking: false,
            has_dynamic_mirroring: false,
            max_prg_ram_kb: 0,
            prg_bank_size_kb: 8,
            chr_bank_size_kb: 8,
        };
        let mut base = BaseMapper::new(&ctx, capabilities);
        base.configure_prg_banking(8 * 1024);
        base.configure_chr_banking(8 * 1024);
        base.configure_prg_6000_banking();
        let mut mapper = Mapper306 { base, prg_reg: 8 };
        mapper.apply_state();
        mapper
    }

    fn apply_state(&mut self)
        requires
            old(self).shape(),
        ensures
            final(self).wf(),
            final(self).prg_reg == old(self).prg_reg,
            final(self).base.same_memory(&old(self).base),
            final(self).base.mirroring == old(self).base.mirroring,
            final(self).applied(),
    {
        self.base.select_prg_page(0, 0x0C);
        self.base.select_prg_page(1, 0x0D);
        self.base.select_prg_page(2, 0x0E);
        self.base.select_prg_page(3, 0x0F);
        self.base.select_prg_6000_page(self.prg_reg as i16);
        self.base.select_chr_page(0, 0);
        proof {
            self.base.lemma_shows_prg4(0x0C, 0x0D, 0x0E, 0x0F);
            self.base.lemma_shows_chr1(0);
        }
    }

    /// Sets the `$6000` bank from the address of a write to `$8000-$FFFF`.
    fn decode_write(&mut self, addr: u16)
        requires
            old(self).wf(),
        ensures
            final(self).wf(),
            final(self).base.same_memory(&old(self).base),
            final(self).base.prg_pages@ == old(self).base.prg_pages@,
            final(self).base.chr_pages@ == old(self).base.chr_pages@,
            final(self).base.mirroring == old(self).base.mirroring,
            match decoded_reg(addr) {
                Some(r) => final(self).prg_reg == r && final(self).window_applied(),
                None => final(self).prg_reg == old(self).prg_reg && final(self).base.prg_6000_page == old(self).base.prg_6000_page,
            },
    {
        let mode = (addr & 0x30) == 0x30;
        let sel = addr & 0xD943;
        if sel == 0xD943 {
            self.prg_reg = if mode { 0x0B } else { ((addr >> 2) & 0x0F) as u8 };
            self.base.select_prg_6000_page(self.prg_reg as i16);
        } else if sel == 0xD903 {
            self.prg_reg = if mode { 0x08 | (((addr >> 2) & 0x03) as u8) } else { 0x0B };
            self.base.select_prg_6000_page(self.prg_reg as i16);
        }
    }

    pub fn read_prg(&self, addr: u16) -> (v: u8)
        requires
            self.wf(),
        ensures
            v == self.spec_read_prg(addr),
    {
        if 0x6000 <= addr && addr < 0x8000 {
            match self.base.try_read_prg_6000(addr) { Some(v) => v, None => 0 }
        } else {
            self.base.read_prg_banked(addr)
        }
    }

    /// `$6000-$FFFF` reads as `read_prg`; lower addresses leave the bus value.
    pub fn read_prg_open_bus(&self, addr: u16, open_bus: u8) -> (v: u8)
        requires
            self.wf(),
        ensures
            v == (if addr >= 0x6000 { self.spec_read_prg(addr) } else { open_bus }),
    {
        if 0x6000 <= addr && addr < 0x8000 {
            match self.base.try_read_prg_6000(addr) { Some(v) => v, None => open_bus }
        } else if addr >= 0x8000 {
            self.read_prg(addr)
        } else {
            open_bus
        }
    }

    pub fn write_prg(&mut self, addr: u16, value: u8)
        requires
            old(self).wf(),
        ensures
            final(self).write_post(old(self), addr, value),
    {
        if self.base.try_write_prg_ram(addr, value) {
            return;
        }
        if addr >= 0x8000 {
            self.decode_write(addr);
        }
    }

    pub fn reset(&mut self)
        requires
            old(self).wf(),
        ensures
            final(self).reset_post(old(self)),
    {
        self.prg_reg = 8;
        self.apply_state();
    }

    pub fn registers_snapshot(&self) -> (s: Vec<u8>)
        ensures
            s@ == self.snapshot(),
    {
        vec![self.prg_reg]
    }

    pub fn restore_registers(&mut self, data: &[u8])
        requires
            old(self).wf(),
        ensures
            final(self).restore_post(old(self), data@),
    {
        if data.len() >= 1 {
            self.prg_reg = data[0];
            self.base.select_prg_6000_page(self.prg_reg as i16);
        }
    }

    pub open spec fn spec_mirroring(&self) -> NametableLayout {
        self.base.mirroring
    }

    pub open spec fn spec_read_chr(&self, addr: u16) -> u8 {
        self.base.spec_read_chr(addr)
    }

    /// State after a PPU write to pattern memory: CHR-RAM takes the byte.
    pub open spec fn write_chr_post(&self, old: &Self, addr: u16, value: u8) -> bool {
        &&& self.wf()
        &&& self.base.chr@ == (if old.base.chr_writable && old.base.chr_count() > 0 {
            old.base.chr@.update(old.base.chr_index(addr) as int, value)
        } else {
            old.base.chr@
        })
        &&& self.base.prg_pages@ == old.base.prg_pages@
        &&& self.base.chr_pages@ == old.base.chr_pages@
        &&& self.base.mirroring == old.base.mirroring
        &&& self.regs() == old.regs()
    }

    pub fn read_chr(&self, addr: u16) -> (v: u8)
        requires
            self.wf(),
        ensures
            v == self.spec_read_chr(addr),
    {
        self.base.read_chr(addr)
    }

    pub fn write_chr(&mut self, addr: u16, value: u8)
        requires
            old(self).wf(),
        ensures
            final(self).write_chr_post(old(self), addr, value),
    {
        self.base.write_chr(addr, value);
    }

    /// Every CPU read is defined.
    pub open spec fn read_ok(&self, addr: u16) -> bool {
        true
    }

    /// The board's memory and page tables.
    pub fn base(&self) -> (b: &BaseMapper)
        ensures
            *b == self.base,
    {
        &self.base
    }

    pub fn get_mirroring(&self) -> (m: NametableLayout)
        ensures
            m == self.spec_mirroring(),
    {
        self.base.mirroring
    }

    pub fn capabilities(&self) -> (c: MapperCapabilities)
        ensures
            c == self.base.capabilities,
    {
        self.base.capabilities
    }

    pub fn mapper_number(&self) -> (n: u16)
        ensures
            n == MAPPER_NUMBER,
    {
        MAPPER_NUMBER
    }

    pub open spec fn spec_irq_pending(&self) -> bool {
        false
    }

    /// The board raises no interrupt.
    pub fn irq_pending(&self) -> (p: bool)
        ensures
            p == self.spec_irq_pending(),
    {
        false
    }

    pub open spec fn cycle_ok(&self) -> bool {
        true
    }

    pub open spec fn cycle_post(&self, old: &Self) -> bool {
        *self == *old
    }

    /// The board does not count CPU cycles.
    pub fn cpu_cycle(&mut self)
        requires
            old(self).wf(),
        ensures
            final(self).cycle_post(old(self)),
    {
    }

}

/// Restoring the snapshot of a mapper brings back its `$6000` bank.
/// The restored board then snapshots to the same bytes.
pub proof fn lemma_snapshot_roundtrip(m: Mapper306, before: Mapper306, restored: Mapper306)
    requires
        restored.restore_post(&before, m.snapshot()),
    ensures
        restored.prg_reg == m.prg_reg,
        restored.snapshot() == m.snapshot(),
{
}

} // verus!
