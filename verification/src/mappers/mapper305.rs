//! Mapper 305 - Kaiser KS7031.
//!
//! `$8000-$FFFF` is fixed to 2 KiB pages 15 down to 0. `$6000-$7FFF` shows
//! four 2 KiB PRG-ROM banks chosen by four registers; a write to
//! `$8000-$FFFF` stores the value in register `(addr >> 11) & 3`. Mirroring
//! is always vertical and CHR is unbanked.
use vstd::prelude::*;
use crate::cartridge::{NametableLayout, MapperCapabilities, MapperContext};
use crate::base_mapper::BaseMapper;

verus! {

pub const MAPPER_NUMBER: u16 = 305;
pub const PRG_PAGE_SIZE: usize = 0x800;
pub const PRG_SLOTS: usize = 16;
pub const NUM_REGS: usize = 4;

/// Mapper 305 - Kaiser KS7031.
pub struct Mapper305 {
    pub base: BaseMapper,
    /// Bank selectors of the four 2 KiB windows at `$6000-$7FFF`.
    pub regs: [u8; 4],
}

impl Mapper305 {
    pub open spec fn regs(&self) -> Seq<u8> {
        self.regs@
    }

    pub open spec fn wf(&self) -> bool {
        &&& self.base.wf()
        &&& self.base.prg_page_size == PRG_PAGE_SIZE
        &&& self.base.prg_pages@.len() == 16
        &&& self.base.prg_ram@.len() == 0
    }

    /// Slot `i` of `$8000-$FFFF` shows page `15 - i`, mirroring is vertical.
    pub open spec fn applied(&self) -> bool {
        &&& forall|j: int| 0 <= j < 16 ==> #[trigger] self.base.prg_pages@[j]
            == crate::base_mapper::wrap_page(15 - j, self.base.prg_count())
        &&& self.base.mirroring == NametableLayout::Vertical
    }

    pub open spec fn write_post(&self, old: &Self, addr: u16, value: u8) -> bool {
        &&& self.wf()
        &&& self.base.unchanged(&old.base)
        &&& self.regs@ == if addr >= 0x8000 {
            old.regs@.update(((addr >> 11) & 0x03) as int, value)
        } else {
            old.regs@
        }
    }

    pub open spec fn restore_post(&self, old: &Self, data: Seq<u8>) -> bool {
        &&& self.wf()
        &&& self.base.unchanged(&old.base)
        &&& self.regs@ == if data.len() >= NUM_REGS { data.subrange(0, 4) } else { old.regs@ }
    }

    pub open spec fn reset_post(&self, old: &Self) -> bool {
        &&& self.wf()
        &&& self.base.same_memory(&old.base)
        &&& self.base.chr_pages@ == old.base.chr_pages@
        &&& self.regs@ == seq![0u8, 0u8, 0u8, 0u8]
        &&& self.applied()
    }

    pub open spec fn snapshot(&self) -> Seq<u8> {
        self.regs@
    }

    /// A `$6000-$7FFF` read needs PRG-ROM to take the window offset modulo.
    pub open spec fn read_ok(&self, addr: u16) -> bool {
        0x6000 <= addr < 0x8000 ==> self.base.prg_rom@.len() > 0
    }

    /// Byte of the `$6000` windows: offset `bank * 2 KiB + (addr & 0x7FF)`
    /// taken modulo the PRG-ROM size.
    pub open spec fn window_byte(&self, addr: u16) -> u8 {
        let slot = ((addr - 0x6000) as u16 >> 11) as int;
        let i = self.regs@[slot] as int * PRG_PAGE_SIZE as int + ((addr - 0x6000) as int % PRG_PAGE_SIZE as int);
        self.base.prg_rom@[i % self.base.prg_rom@.len() as int]
    }

    pub open spec fn spec_read_prg(&self, addr: u16) -> u8 {
        if 0x6000 <= addr < 0x8000 { self.window_byte(addr) } else { self.base.spec_read_prg_rom(addr) }
    }

    pub fn new(ctx: MapperContext) -> (m: Self)
        ensures
            m.wf(),
            m.regs@ == seq![0u8, 0u8, 0u8, 0u8],
            m.applied(),
            m.base.prg_rom@ == ctx.prg_rom@,
            m.base.capabilities == (MapperCapabilities { has_irq: false, has_expansion_audio: false, has_chr_banking: false, has_dynamic_mirroring: false, max_prg_ram_kb: 0, prg_bank_size_kb: 2, chr_bank_size_kb: 8 }),
            m.base.chr_from(ctx.chr_rom@),
    {
        let capabilities = MapperCapabilities {
            has_irq: false,
            has_expansion_audio: false,
            has_chr_banking: false,
            has_dynamic_mirroring: false,
            max_prg_ram_kb: 0,
            prg_bank_size_kb: 2,
            chr_bank_size_kb: 8,
        };
        let mut base = BaseMapper::new(&ctx, capabilities);
        base.configure_prg_banking(PRG_PAGE_SIZE);
        let mut mapper = Mapper305 { base, regs: [0, 0, 0, 0] };
        proof {
            assert(mapper.regs@ =~= seq![0u8, 0u8, 0u8, 0u8]);
        }
        mapper.set_power_on_state();
        mapper
    }

    fn set_power_on_state(&mut self)
        requires
            old(self).wf(),
        ensures
            final(self).wf(),
            final(self).regs@ == old(self).regs@,
            final(self).base.same_memory(&old(self).base),
            final(self).base.chr_pages@ == old(self).base.chr_pages@,
            final(self).applied(),
    {
        let mut i: usize = 0;
        while i < PRG_SLOTS
            invariant
                0 <= i <= 16,
                self.wf(),
                self.regs@ == old(self).regs@,
                self.base.same_memory(&old(self).base),
                self.base.chr_pages@ == old(self).base.chr_pages@,
                forall|j: int| 0 <= j < i ==> #[trigger] self.base.prg_pages@[j]
                    == crate::base_mapper::wrap_page(15 - j, self.base.prg_count()),
            decreases 16 - i,
        {
            self.base.select_prg_page(i, 15 - i as i16);
            i = i + 1;
        }
        self.base.set_mirroring(NametableLayout::Vertical);
    }

    /// Reads the `$6000-$7FFF` windows.
    pub fn read_prg_6000_window(&self, addr: u16) -> (v: u8)
        requires
            self.wf(),
            0x6000 <= addr < 0x8000,
            self.base.prg_rom@.len() > 0,
        ensures
            v == self.window_byte(addr),
    {
        let slot = ((addr - 0x6000) >> 11) as usize;
        let a = addr - 0x6000;
        proof {
            assert(a >> 11 < 4 && (a as usize) & 0x7FF == (a as usize) % 0x800) by (bit_vector)
                requires a < 0x2000;
        }
        let bank = self.regs[slot] as usize;
        let offset = (addr as usize - 0x6000) & (PRG_PAGE_SIZE - 1);
        let prg = self.base.prg_rom();
        prg[(bank * PRG_PAGE_SIZE + offset) % prg.len()]
    }

    pub fn read_prg(&self, addr: u16) -> (v: u8)
        requires
            self.wf(),
            self.read_ok(addr),
        ensures
            v == self.spec_read_prg(addr),
    {
        if 0x6000 <= addr && addr < 0x8000 {
            self.read_prg_6000_window(addr)
        } else {
            self.base.read_prg_banked(addr)
        }
    }

    /// `$6000-$FFFF` reads as `read_prg`; lower addresses leave the bus value.
    pub fn read_prg_open_bus(&self, addr: u16, open_bus: u8) -> (v: u8)
        requires
            self.wf(),
            self.read_ok(addr),
        ensures
            v == (if addr >= 0x6000 { self.spec_read_prg(addr) } else { open_bus }),
    {
        if addr >= 0x6000 { self.read_prg(addr) } else { open_bus }
    }

    pub fn write_prg(&mut self, addr: u16, value: u8)
        requires
            old(self).wf(),
        ensures
            final(self).write_post(old(self), addr, value),
    {
        if self.base.try_write_prg_ram(addr, value) {
            return;
        }
        if addr >= 0x8000 {
            proof { crate::bits::lemma_addr_fields(addr); }
            let slot = ((addr >> 11) & 0x03) as usize;
            self.regs[slot] = value;
        }
    }

    pub fn reset(&mut self)
        requires
            old(self).wf(),
        ensures
            final(self).reset_post(old(self)),
    {
        self.regs = [0, 0, 0, 0];
        proof {
            assert(self.regs@ =~= seq![0u8, 0u8, 0u8, 0u8]);
        }
        self.set_power_on_state();
    }

    pub fn registers_snapshot(&self) -> (s: Vec<u8>)
        ensures
            s@ == self.snapshot(),
    {
        let s = vec![self.regs[0], self.regs[1], self.regs[2], self.regs[3]];
        proof {
            assert(s@ =~= self.regs@);
        }
        s
    }

    pub fn restore_registers(&mut self, data: &[u8])
        requires
            old(self).wf(),
        ensures
            final(self).restore_post(old(self), data@),
    {
        if data.len() >= NUM_REGS {
            self.regs = [data[0], data[1], data[2], data[3]];
            proof {
                assert(self.regs@ =~= data@.subrange(0, 4));
            }
        }
    }

    pub open spec fn spec_mirroring(&self) -> NametableLayout {
        self.base.mirroring
    }

    pub open spec fn spec_read_chr(&self, addr: u16) -> u8 {
        self.base.spec_read_chr(addr)
    }

    /// State after a PPU write to pattern memory: CHR-RAM takes the byte.
    pub open spec fn write_chr_post(&self, old: &Self, addr: u16, value: u8) -> bool {
        &&& self.wf()
        &&& self.base.chr@ == (if old.base.chr_writable && old.base.chr_count() > 0 {
            old.base.chr@.update(old.base.chr_index(addr) as int, value)
        } else {
            old.base.chr@
        })
        &&& self.base.prg_pages@ == old.base.prg_pages@
        &&& self.base.chr_pages@ == old.base.chr_pages@
        &&& self.base.mirroring == old.base.mirroring
        &&& self.regs() == old.regs()
    }

    pub fn read_chr(&self, addr: u16) -> (v: u8)
        requires
            self.wf(),
        ensures
            v == self.spec_read_chr(addr),
    {
        self.base.read_chr(addr)
    }

    pub fn write_chr(&mut self, addr: u16, value: u8)
        requires
            old(self).wf(),
        ensures
            final(self).write_chr_post(old(self), addr, value),
    {
        self.base.write_chr(addr, value);
    }

    /// The board's memory and page tables.
    pub fn base(&self) -> (b: &BaseMapper)
        ensures
            *b == self.base,
    {
        &self.base
    }

    pub fn get_mirroring(&self) -> (m: NametableLayout)
        ensures
            m == self.spec_mirroring(),
    {
        self.base.mirroring
    }

    pub fn capabilities(&self) -> (c: MapperCapabilities)
        ensures
            c == self.base.capabilities,
    {
        self.base.capabilities
    }

    pub fn mapper_number(&self) -> (n: u16)
        ensures
            n == MAPPER_NUMBER,
    {
        MAPPER_NUMBER
    }

    pub open spec fn spec_irq_pending(&self) -> bool {
        false
    }

    /// The board raises no interrupt.
    pub fn irq_pending(&self) -> (p: bool)
        ensures
            p == self.spec_irq_pending(),
    {
        false
    }

    pub open spec fn cycle_ok(&self) -> bool {
        true
    }

    pub open spec fn cycle_post(&self, old: &Self) -> bool {
        *self == *old
    }

    /// The board does not count CPU cycles.
    pub fn cpu_cycle(&mut self)
        requires
            old(self).wf(),
        ensures
            final(self).cycle_post(old(self)),
    {
    }

}

/// Restoring the snapshot of a mapper brings back its registers.
/// The restored board then snapshots to the same bytes.
pub proof fn lemma_snapshot_roundtrip(m: Mapper305, before: Mapper305, restored: Mapper305)
    requires
        restored.restore_post(&before, m.snapshot()),
    ensures
        restored.regs@ == m.regs@,
        restored.snapshot() == m.snapshot(),
{
    assert(m.regs@.subrange(0, 4) =~= m.regs@);
}

} // verus!
