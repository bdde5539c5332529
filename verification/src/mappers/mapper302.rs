//! Mapper 302 - Kaiser KS7057.
//!
//! Sixteen 2 KiB PRG slots cover `$8000-$FFFF`: the first four show
//! `regs[0..4]`, the rest are fixed to banks `0x34-0x3F`. `$6000-$7FFF` shows
//! four 2 KiB banks chosen by `regs[4..8]`. Registers are written a nibble at
//! a time (`$B000/$B002/$C000/$C002/$D000/$D002/$E000/$E002`, low nibble on
//! even addresses, high nibble on odd ones); writes to `$8000-$9FFF` at
//! `addr & 0xF002` in {`$8000`, `$8002`, `$9000`, `$9002`} select vertical
//! mirroring with bit 0, horizontal otherwise. Power-on: all registers zero,
//! horizontal mirroring.
use vstd::prelude::*;
use crate::cartridge::{NametableLayout, MapperCapabilities, MapperContext};
use crate::base_mapper::{BaseMapper, page_byte, page_count, lemma_page_index};

verus! {

pub const MAPPER_NUMBER: u16 = 302;
pub const PRG_PAGE_SIZE: usize = 0x800;
pub const LOWER_NIBBLE_MASK: u8 = 0x0F;
pub const UPPER_NIBBLE_MASK: u8 = 0xF0;
pub const REGISTER_ADDR_MASK: u16 = 0xF002;
pub const FIXED_A_BASE: i16 = 0x34;
pub const FIXED_B_BASE: i16 = 0x38;
pub const FIXED_C_BASE: i16 = 0x3C;

/// Page number of `$8000` slot `j`: a register for the first four, fixed after.
pub open spec fn slot_page(regs: Seq<u8>, j: int) -> int {
    if j < 4 { regs[j] as int } else { 0x30 + j }
}

/// The register a write to `addr` reaches, if any.
pub open spec fn reg_index(addr: u16) -> Option<int> {
    let sel = addr & REGISTER_ADDR_MASK;
    if addr < 0x8000 { None }
    else if sel == 0xB000 { Some(0) } else if sel == 0xB002 { Some(1) }
    else if sel == 0xC000 { Some(2) } else if sel == 0xC002 { Some(3) }
    else if sel == 0xD000 { Some(4) } else if sel == 0xD002 { Some(5) }
    else if sel == 0xE000 { Some(6) } else if sel == 0xE002 { Some(7) }
    else { None }
}

/// Whether a write to `addr` reaches the mirroring control.
pub open spec fn is_mirroring_write(addr: u16) -> bool {
    let sel = addr & REGISTER_ADDR_MASK;
    addr >= 0x8000 && (sel == 0x8000 || sel == 0x8002 || sel == 0x9000 || sel == 0x9002)
}

/// A register after a nibble write: the low nibble when `low`, else the high one.
pub open spec fn nibble_write(reg: u8, value: u8, low: bool) -> u8 {
    if low {
        (reg & UPPER_NIBBLE_MASK) | (value & LOWER_NIBBLE_MASK)
    } else {
        (reg & LOWER_NIBBLE_MASK) | ((value & LOWER_NIBBLE_MASK) << 4)
    }
}

pub open spec fn mirroring_of(value: u8) -> NametableLayout {
    if value & 0x01 != 0 { NametableLayout::Vertical } else { NametableLayout::Horizontal }
}

/// Mapper 302 - Kaiser KS7057.
pub struct Mapper302 {
    pub base: BaseMapper,
    /// `regs[0..4]` select the `$8000-$9FFF` banks, `regs[4..8]` the `$6000-$7FFF` banks.
    pub regs: [u8; 8],
}

impl Mapper302 {
    pub open spec fn regs(&self) -> Seq<u8> {
        self.regs@
    }

    pub open spec fn wf(&self) -> bool {
        &&& self.base.wf()
        &&& self.base.prg_page_size == PRG_PAGE_SIZE
        &&& self.base.prg_pages@.len() == 16
    }

    pub open spec fn applied(&self) -> bool {
        &&& self.base.prg_pages@.len() == 16
        &&& forall|j: int| 0 <= j < 16 ==> #[trigger] self.base.prg_pages@[j]
            == crate::base_mapper::wrap_page(slot_page(self.regs@, j), self.base.prg_count())
    }

    pub open spec fn write_post(&self, old: &Self, addr: u16, value: u8) -> bool {
        &&& self.wf()
        &&& self.base.same_memory(&old.base)
        &&& self.base.chr_pages@ == old.base.chr_pages@
        &&& match reg_index(addr) {
            Some(i) => {
                &&& self.regs@ == old.regs@.update(i, nibble_write(old.regs@[i], value, addr & 0x01 == 0))
                &&& self.base.mirroring == old.base.mirroring
                &&& self.applied()
            },
            None => {
                &&& self.regs@ == old.regs@
                &&& self.base.prg_pages@ == old.base.prg_pages@
                &&& self.base.mirroring == if is_mirroring_write(addr) { mirroring_of(value) } else { old.base.mirroring }
            },
        }
    }

    pub open spec fn restore_post(&self, old: &Self, data: Seq<u8>) -> bool {
        &&& self.wf()
        &&& self.base.same_memory(&old.base)
        &&& self.base.chr_pages@ == old.base.chr_pages@
        &&& data.len() < 8 ==> *self == *old
        &&& data.len() >= 8 ==> {
            &&& self.regs@ == data.subrange(0, 8)
            &&& self.applied()
            &&& self.base.mirroring == if data.len() >= 9 {
                if data[8] != 0 { NametableLayout::Vertical } else { NametableLayout::Horizontal }
            } else {
                old.base.mirroring
            }
        }
    }

    pub open spec fn reset_post(&self, old: &Self) -> bool {
        &&& self.wf()
        &&& self.base.same_memory(&old.base)
        &&& self.base.chr_pages@ == old.base.chr_pages@
        &&& self.regs@ == Seq::new(8, |i: int| 0u8)
        &&& self.base.mirroring == NametableLayout::Horizontal
        &&& self.applied()
    }

    pub open spec fn snapshot(&self) -> Seq<u8> {
        self.regs@.push(if self.base.mirroring == NametableLayout::Vertical { 1u8 } else { 0u8 })
    }

    /// `$6000-$7FFF` shows the 2 KiB banks of `regs[4..8]`, `$8000-$FFFF`
    /// the banked ROM, everything else reads 0.
    pub open spec fn spec_read_prg(&self, addr: u16) -> u8 {
        if 0x6000 <= addr < 0x8000 {
            let off = (addr - 0x6000) as nat;
            let count = page_count(self.base.prg_rom@.len(), PRG_PAGE_SIZE as nat);
            if count == 0 {
                0
            } else {
                page_byte(self.base.prg_rom@, PRG_PAGE_SIZE as nat,
                    (self.regs@[4 + (off / PRG_PAGE_SIZE as nat) as int] as nat % count), off % PRG_PAGE_SIZE as nat)
            }
        } else {
            self.base.spec_read_prg_rom(addr)
        }
    }

    pub fn new(ctx: MapperContext) -> (m: Self)
        ensures
            m.wf(),
            m.regs@ == Seq::new(8, |i: int| 0u8),
            m.applied(),
            m.base.mirroring == NametableLayout::Horizontal,
            m.base.prg_rom@ == ctx.prg_rom@,
            m.base.capabilities == (MapperCapabilities { has_irq: false, has_expansion_audio: false, has_chr_banking: false, has_dynamic_mirroring: true, prg_bank_size_kb: 2, chr_bank_size_kb: 0, max_prg_ram_kb: 0 }),
            m.base.chr_from(ctx.chr_rom@),
    {
        let capabilities = MapperCapabilities {
            has_irq: false,
            has_expansion_audio: false,
            has_chr_banking: false,
            has_dynamic_mirroring: true,
            prg_bank_size_kb: 2,
            chr_bank_size_kb: 0,
            max_prg_ram_kb: 0,
        };
        let mut base = BaseMapper::new(&ctx, capabilities);
        base.configure_prg_banking(PRG_PAGE_SIZE);
        let mut mapper = Mapper302 { base, regs: [0, 0, 0, 0, 0, 0, 0, 0] };
        proof {
            assert(mapper.regs@ =~= Seq::new(8, |i: int| 0u8));
        }
        mapper.update_state();
        mapper.base.set_mirroring(NametableLayout::Horizontal);
        mapper
    }

    /// Applies all registers to the PRG slots.
    fn update_state(&mut self)
        requires
            old(self).wf(),
        ensures
            final(self).wf(),
            final(self).regs@ == old(self).regs@,
            final(self).base.same_memory(&old(self).base),
            final(self).base.chr_pages@ == old(self).base.chr_pages@,
            final(self).base.mirroring == old(self).base.mirroring,
            final(self).applied(),
    {
        let mut i: usize = 0;
        while i < 16
            invariant
                0 <= i <= 16,
                self.wf(),
                self.regs@ == old(self).regs@,
                self.base.same_memory(&old(self).base),
                self.base.chr_pages@ == old(self).base.chr_pages@,
                self.base.mirroring == old(self).base.mirroring,
                forall|j: int| 0 <= j < i ==> #[trigger] self.base.prg_pages@[j]
                    == crate::base_mapper::wrap_page(slot_page(self.regs@, j), self.base.prg_count()),
            decreases 16 - i,
        {
            let page: i16 = if i < 4 { self.regs[i] as i16 } else { 0x30 + i as i16 };
            self.base.select_prg_page(i, page);
            i = i + 1;
        }
    }

    /// Nibble-wise write to register `index`.
    fn write_prg_reg(&mut self, index: usize, value: u8, low: bool)
        requires
            old(self).wf(),
            index < 8,
        ensures
            final(self).wf(),
            final(self).regs@ == old(self).regs@.update(index as int, nibble_write(old(self).regs@[index as int], value, low)),
            final(self).base.same_memory(&old(self).base),
            final(self).base.chr_pages@ == old(self).base.chr_pages@,
            final(self).base.mirroring == old(self).base.mirroring,
            final(self).applied(),
    {
        if low {
            self.regs[index] = (self.regs[index] & UPPER_NIBBLE_MASK) | (value & LOWER_NIBBLE_MASK);
        } else {
            self.regs[index] = (self.regs[index] & LOWER_NIBBLE_MASK) | ((value & LOWER_NIBBLE_MASK) << 4);
        }
        self.update_state();
    }

    pub fn read_prg(&self, addr: u16) -> (v: u8)
        requires
            self.wf(),
        ensures
            v == self.spec_read_prg(addr),
    {
        if 0x6000 <= addr && addr < 0x8000 {
            let bank_count = self.base.prg_rom.len() / PRG_PAGE_SIZE;
            if bank_count == 0 {
                return 0;
            }
            let off = (addr - 0x6000) as usize;
            let slot = off / PRG_PAGE_SIZE;
            let bank = self.regs[4 + slot] as usize % bank_count;
            let offset = off % PRG_PAGE_SIZE;
            proof {
                lemma_page_index(bank as nat, bank_count as nat, PRG_PAGE_SIZE as nat, self.base.prg_rom@.len(), offset as nat);
            }
            self.base.prg_rom[bank * PRG_PAGE_SIZE + offset]
        } else {
            self.base.read_prg_banked(addr)
        }
    }

    /// The CPU read with an open bus: `$6000-$FFFF` reads as `read_prg`,
    /// lower addresses leave the bus value.
    pub fn read_prg_open_bus(&self, addr: u16, open_bus: u8) -> (v: u8)
        requires
            self.wf(),
        ensures
            v == (if addr >= 0x6000 { self.spec_read_prg(addr) } else { open_bus }),
    {
        if addr >= 0x6000 { self.read_prg(addr) } else { open_bus }
    }

    pub fn write_prg(&mut self, addr: u16, value: u8)
        requires
            old(self).wf(),
        ensures
            final(self).write_post(old(self), addr, value),
    {
        if addr < 0x8000 {
            return;
        }
        let low = (addr & 0x01) == 0x00;
        let sel = addr & REGISTER_ADDR_MASK;
        if sel == 0x8000 || sel == 0x8002 || sel == 0x9000 || sel == 0x9002 {
            if (value & 0x01) != 0 {
                self.base.set_mirroring(NametableLayout::Vertical);
            } else {
                self.base.set_mirroring(NametableLayout::Horizontal);
            }
        } else if sel == 0xB000 {
            self.write_prg_reg(0, value, low);
        } else if sel == 0xB002 {
            self.write_prg_reg(1, value, low);
        } else if sel == 0xC000 {
            self.write_prg_reg(2, value, low);
        } else if sel == 0xC002 {
            self.write_prg_reg(3, value, low);
        } else if sel == 0xD000 {
            self.write_prg_reg(4, value, low);
        } else if sel == 0xD002 {
            self.write_prg_reg(5, value, low);
        } else if sel == 0xE000 {
            self.write_prg_reg(6, value, low);
        } else if sel == 0xE002 {
            self.write_prg_reg(7, value, low);
        }
    }

    pub fn registers_snapshot(&self) -> (s: Vec<u8>)
        ensures
            s@ == self.snapshot(),
    {
        let mut snap: Vec<u8> = Vec::new();
        let mut i: usize = 0;
        while i < 8
            invariant
                0 <= i <= 8,
                snap@ == self.regs@.subrange(0, i as int),
            decreases 8 - i,
        {
            snap.push(self.regs[i]);
            i = i + 1;
            proof {
                assert(snap@ =~= self.regs@.subrange(0, i as int));
            }
        }
        let v: u8 = if self.base.mirroring == NametableLayout::Vertical { 1 } else { 0 };
        snap.push(v);
        proof {
            assert(snap@ =~= self.snapshot());
        }
        snap
    }

    pub fn restore_registers(&mut self, data: &[u8])
        requires
            old(self).wf(),
        ensures
            final(self).restore_post(old(self), data@),
    {
        if data.len() < 8 {
            return;
        }
        self.regs = [data[0], data[1], data[2], data[3], data[4], data[5], data[6], data[7]];
        proof {
            assert(self.regs@ =~= data@.subrange(0, 8));
        }
        if data.len() >= 9 {
            if data[8] != 0 {
                self.base.set_mirroring(NametableLayout::Vertical);
            } else {
                self.base.set_mirroring(NametableLayout::Horizontal);
            }
        }
        self.update_state();
    }

    pub fn reset(&mut self)
        requires
            old(self).wf(),
        ensures
            final(self).reset_post(old(self)),
    {
        self.regs = [0, 0, 0, 0, 0, 0, 0, 0];
        proof {
            assert(self.regs@ =~= Seq::new(8, |i: int| 0u8));
        }
        self.base.set_mirroring(NametableLayout::Horizontal);
        self.update_state();
    }

    /// Every CPU read is defined.
    pub open spec fn read_ok(&self, addr: u16) -> bool {
        true
    }

    pub open spec fn spec_mirroring(&self) -> NametableLayout {
        self.base.mirroring
    }

    pub open spec fn spec_read_chr(&self, addr: u16) -> u8 {
        self.base.spec_read_chr(addr)
    }

    /// State after a PPU write to pattern memory: CHR-RAM takes the byte.
    pub open spec fn write_chr_post(&self, old: &Self, addr: u16, value: u8) -> bool {
        &&& self.wf()
        &&& self.base.chr@ == (if old.base.chr_writable && old.base.chr_count() > 0 {
            old.base.chr@.update(old.base.chr_index(addr) as int, value)
        } else {
            old.base.chr@
        })
        &&& self.base.prg_pages@ == old.base.prg_pages@
        &&& self.base.chr_pages@ == old.base.chr_pages@
        &&& self.base.mirroring == old.base.mirroring
        &&& self.regs() == old.regs()
    }

    pub fn read_chr(&self, addr: u16) -> (v: u8)
        requires
            self.wf(),
        ensures
            v == self.spec_read_chr(addr),
    {
        self.base.read_chr(addr)
    }

    pub fn write_chr(&mut self, addr: u16, value: u8)
        requires
            old(self).wf(),
        ensures
            final(self).write_chr_post(old(self), addr, value),
    {
        self.base.write_chr(addr, value);
    }

    /// The board's memory and page tables.
    pub fn base(&self) -> (b: &BaseMapper)
        ensures
            *b == self.base,
    {
        &self.base
    }

    pub fn get_mirroring(&self) -> (m: NametableLayout)
        ensures
            m == self.spec_mirroring(),
    {
        self.base.mirroring
    }

    pub fn capabilities(&self) -> (c: MapperCapabilities)
        ensures
            c == self.base.capabilities,
    {
        self.base.capabilities
    }

    pub fn mapper_number(&self) -> (n: u16)
        ensures
            n == MAPPER_NUMBER,
    {
        MAPPER_NUMBER
    }

    pub open spec fn spec_irq_pending(&self) -> bool {
        false
    }

    /// The board raises no interrupt.
    pub fn irq_pending(&self) -> (p: bool)
        ensures
            p == self.spec_irq_pending(),
    {
        false
    }

    pub open spec fn cycle_ok(&self) -> bool {
        true
    }

    pub open spec fn cycle_post(&self, old: &Self) -> bool {
        *self == *old
    }

    /// The board does not count CPU cycles.
    pub fn cpu_cycle(&mut self)
        requires
            old(self).wf(),
        ensures
            final(self).cycle_post(old(self)),
    {
    }

}

/// Restoring the snapshot of a mapper brings back its registers and its
/// mirroring.
/// The restored board then snapshots to the same bytes.
pub proof fn lemma_snapshot_roundtrip(m: Mapper302, before: Mapper302, restored: Mapper302)
    requires
        m.base.mirroring == NametableLayout::Vertical || m.base.mirroring == NametableLayout::Horizontal,
        restored.restore_post(&before, m.snapshot()),
    ensures
        restored.regs@ == m.regs@,
        restored.base.mirroring == m.base.mirroring,
        restored.snapshot() == m.snapshot(),
{
    assert(m.snapshot().subrange(0, 8) =~= m.regs@);
}

} // verus!
