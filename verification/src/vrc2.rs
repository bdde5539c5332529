//! The VRC2b core (address lines A0/A1 wired straight to the chip).
//!
//! Registers, decoded by `addr & $F003`:
//! - `$8000-$8003`: PRG bank for `$8000` (5 bits).
//! - `$9000-$9003`: mirroring, bit 0 set is horizontal, clear vertical.
//! - `$A000-$A003`: PRG bank for `$A000` (5 bits).
//! - `$B000-$E003`: eight 1 KiB CHR bank registers written a nibble at a
//!   time: address bits 14:12 and A1 pick the register, A0 the nibble
//!   (0 = low, 1 = high).
//!
//! `$C000` and `$E000` show the second-last and last 8 KiB banks. PRG-RAM at
//! `$6000-$7FFF` is always enabled.
use vstd::prelude::*;
use crate::cartridge::{NametableLayout, MapperCapabilities, MapperContext, RamInitMode, layout_hv, layout_byte, layout_from_byte, ram_init_byte};
use crate::base_mapper::{BaseMapper, wrap_page, ram_bytes};

verus! {

pub const PRG_BANK_SIZE: usize = 0x2000;
pub const CHR_BANK_SIZE: usize = 0x0400;
/// Length of the register snapshot, in the layout that the VRC2/VRC4 family
/// shares (see `snapshot`).
pub const SNAPSHOT_LEN: usize = 27;
/// Offset of the mirroring byte in the snapshot.
pub const MIRRORING_BYTE: usize = 18;

/// CHR register reached by a decoded address in `$B000-$E003`.
pub open spec fn chr_slot_of(reg: u16) -> u16 {
    ((((reg >> 11) - 0x16) as u16) | ((reg >> 1) & 0x01)) & 0x07
}

/// A CHR register after writing `value` to its low (`high == false`) or high nibble.
pub open spec fn chr_nibble(reg: u8, high: bool, value: u8) -> u8 {
    if high { (reg & 0x0F) | ((value & 0x0F) << 4) } else { (reg & 0xF0) | (value & 0x0F) }
}

pub struct Vrc2Mapper {
    pub base: BaseMapper,
    pub prg_regs: [u8; 2],
    pub chr_regs: [u8; 8],
}

impl Vrc2Mapper {
    pub open spec fn regs(&self) -> (Seq<u8>, Seq<u8>) {
        (self.prg_regs@, self.chr_regs@)
    }

    /// Slot sizes and counts (the banks may lag the registers).
    pub open spec fn shape(&self) -> bool {
        &&& self.base.wf()
        &&& self.base.prg_page_size == PRG_BANK_SIZE
        &&& self.base.chr_page_size == CHR_BANK_SIZE
        &&& self.base.prg_pages@.len() == 4
        &&& self.base.chr_pages@.len() == 8
    }

    pub open spec fn applied(&self) -> bool {
        &&& self.base.shows_prg(seq![self.prg_regs@[0] as int, self.prg_regs@[1] as int, -2, -1])
        &&& self.base.shows_chr(Seq::new(8, |i: int| self.chr_regs@[i] as int))
    }

    /// The shape holds and the banks agree with the registers.
    pub open spec fn wf(&self) -> bool {
        self.shape() && self.applied()
    }

    /// State after a CPU write (PRG-RAM at `$6000-$7FFF`, registers at
    /// `$8000-$EFFF`; other addresses change nothing).
    pub open spec fn write_post(&self, old: &Self, addr: u16, value: u8) -> bool {
        let reg = addr & 0xF003;
        &&& self.wf()
        &&& if 0x6000 <= addr < 0x8000 {
            &&& self.regs() == old.regs()
            &&& self.base.same_layout(&old.base)
            &&& self.base.prg_pages@ == old.base.prg_pages@
            &&& self.base.chr_pages@ == old.base.chr_pages@
            &&& self.base.mirroring == old.base.mirroring
            &&& self.base.prg_ram@ == (if old.base.prg_ram@.len() > 0 {
                old.base.prg_ram@.update(((addr - 0x6000) as nat % old.base.prg_ram@.len()) as int, value)
            } else {
                old.base.prg_ram@
            })
        } else if 0x8000 <= addr < 0xF000 {
            &&& self.base.same_memory(&old.base)
            &&& if addr < 0x9000 {
                &&& self.prg_regs@ == old.prg_regs@.update(0, value & 0x1F)
                &&& self.chr_regs@ == old.chr_regs@
                &&& self.base.mirroring == old.base.mirroring
            } else if addr < 0xA000 {
                &&& self.regs() == old.regs()
                &&& self.base.mirroring == layout_hv(value & 0x01 != 0)
            } else if addr < 0xB000 {
                &&& self.prg_regs@ == old.prg_regs@.update(1, value & 0x1F)
                &&& self.chr_regs@ == old.chr_regs@
                &&& self.base.mirroring == old.base.mirroring
            } else {
                let slot = chr_slot_of(reg) as int;
                &&& self.prg_regs@ == old.prg_regs@
                &&& self.chr_regs@ == old.chr_regs@.update(slot, chr_nibble(old.chr_regs@[slot], reg & 0x01 != 0, value))
                &&& self.base.mirroring == old.base.mirroring
            }
        } else {
            *self == *old
        }
    }

    /// The register snapshot, in the VRC2/VRC4 layout: the two PRG
    /// registers; the eight CHR registers as 16-bit little-endian words; the
    /// mirroring byte; then the VRC4 PRG swap mode, WRAM control and IRQ state
    /// (latch, counter, control, 16-bit prescaler, pending). VRC2b has none
    /// of the VRC4 parts, so those eight bytes are 0 and are ignored on
    /// restore.
    pub open spec fn snapshot(&self) -> Seq<u8> {
        self.prg_regs@
            + Seq::new(16, |i: int| if i % 2 == 0 { self.chr_regs@[i / 2] } else { 0u8 })
            + seq![layout_byte(self.base.mirroring), 0u8, 0u8, 0u8, 0u8, 0u8, 0u8, 0u8, 0u8]
    }

    pub open spec fn restore_post(&self, old: &Self, data: Seq<u8>) -> bool {
        if data.len() < SNAPSHOT_LEN {
            *self == *old
        } else {
            &&& self.wf()
            &&& self.prg_regs@ == data.subrange(0, 2)
            &&& self.chr_regs@ == Seq::new(8, |j: int| data[2 + 2 * j])
            &&& self.base.mirroring == layout_from_byte(data[MIRRORING_BYTE as int])
            &&& self.base.same_memory(&old.base)
            &&& self.applied()
        }
    }

    pub fn new(ctx: &MapperContext, capabilities: MapperCapabilities) -> (m: Self)
        requires
            capabilities.max_prg_ram_kb <= 1024,
        ensures
            m.wf(),
            m.prg_regs@ == seq![0u8, 1],
            m.chr_regs@ == seq![0u8, 0, 0, 0, 0, 0, 0, 0],
            m.applied(),
            m.base.mirroring == ctx.mirroring,
            m.base.prg_rom@ == ctx.prg_rom@,
            m.base.capabilities == capabilities,
            m.base.prg_ram@.len() == ram_bytes(ctx.prg_ram_banks as nat, capabilities.max_prg_ram_kb as nat),
            m.base.chr_from(ctx.chr_rom@),
    {
        let mut base = BaseMapper::new(ctx, capabilities);
        base.configure_prg_banking(PRG_BANK_SIZE);
        base.configure_chr_banking(CHR_BANK_SIZE);
        let mut m = Vrc2Mapper { base, prg_regs: [0u8, 1], chr_regs: [0u8; 8] };
        m.update_prg();
        m.update_chr();
        proof {
            assert(m.prg_regs@ =~= seq![0u8, 1]);
            assert(m.chr_regs@ =~= seq![0u8, 0, 0, 0, 0, 0, 0, 0]);
        }
        m
    }

    fn update_prg(&mut self)
        requires
            old(self).shape(),
        ensures
            final(self).shape(),
            final(self).regs() == old(self).regs(),
            final(self).base.same_memory(&old(self).base),
            final(self).base.chr_pages@ == old(self).base.chr_pages@,
            final(self).base.mirroring == old(self).base.mirroring,
            final(self).base.shows_prg(seq![final(self).prg_regs@[0] as int, final(self).prg_regs@[1] as int, -2, -1]),
    {
        self.base.select_prg_page(0, self.prg_regs[0] as i16);
        self.base.select_prg_page(1, self.prg_regs[1] as i16);
        self.base.select_prg_page(2, -2);
        self.base.select_prg_page(3, -1);
        proof {
            self.base.lemma_shows_prg4(self.prg_regs@[0] as int, self.prg_regs@[1] as int, -2, -1);
        }
    }

    fn update_chr(&mut self)
        requires
            old(self).shape(),
        ensures
            final(self).shape(),
            final(self).regs() == old(self).regs(),
            final(self).base.same_memory(&old(self).base),
            final(self).base.prg_pages@ == old(self).base.prg_pages@,
            final(self).base.mirroring == old(self).base.mirroring,
            final(self).base.shows_chr(Seq::new(8, |i: int| final(self).chr_regs@[i] as int)),
    {
        let mut i: usize = 0;
        while i < 8
            invariant
                0 <= i <= 8,
                self.shape(),
                self.regs() == old(self).regs(),
                self.base.same_memory(&old(self).base),
                self.base.prg_pages@ == old(self).base.prg_pages@,
                self.base.mirroring == old(self).base.mirroring,
                forall|j: int| 0 <= j < i ==> #[trigger] self.base.chr_pages@[j]
                    == wrap_page(self.chr_regs@[j] as int, self.base.chr_count()),
            decreases 8 - i,
        {
            self.base.select_chr_page(i, self.chr_regs[i] as i16);
            i = i + 1;
        }
    }

    pub fn write_prg(&mut self, addr: u16, value: u8)
        requires
            old(self).wf(),
        ensures
            final(self).write_post(old(self), addr, value),
    {
        if 0x6000 <= addr && addr < 0x8000 {
            self.base.try_write_prg_ram(addr, value);
            return;
        }
        if addr < 0x8000 || addr >= 0xF000 {
            return;
        }
        let reg = addr & 0xF003;
        if addr < 0x9000 {
            self.prg_regs[0] = value & 0x1F;
            self.update_prg();
            self.update_chr();
        } else if addr < 0xA000 {
            self.base.set_mirroring_hv(value & 0x01 != 0);
        } else if addr < 0xB000 {
            self.prg_regs[1] = value & 0x1F;
            self.update_prg();
            self.update_chr();
        } else {
            proof {
                assert(0x16 <= reg >> 11 && ((((reg >> 11) - 0x16) as u16) | ((reg >> 1) & 0x01)) & 0x07 < 8) by (bit_vector)
                    requires reg == addr & 0xF003, 0xB000 <= addr < 0xF000;
            }
            let slot = ((((reg >> 11) - 0x16) as u16) | ((reg >> 1) & 0x01)) & 0x07;
            let s = slot as usize;
            let old_reg = self.chr_regs[s];
            self.chr_regs[s] = if reg & 0x01 != 0 {
                (old_reg & 0x0F) | ((value & 0x0F) << 4)
            } else {
                (old_reg & 0xF0) | (value & 0x0F)
            };
            self.update_prg();
            self.update_chr();
        }
    }

    pub fn read_prg(&self, addr: u16) -> (v: u8)
        requires
            self.wf(),
        ensures
            v == self.base.spec_read_prg(addr),
    {
        self.base.read_prg(addr)
    }

    pub fn read_chr(&self, addr: u16) -> (v: u8)
        requires
            self.wf(),
        ensures
            v == self.base.spec_read_chr(addr),
    {
        self.base.read_chr(addr)
    }

    pub fn registers_snapshot(&self) -> (s: Vec<u8>)
        ensures
            s@ == self.snapshot(),
    {
        let mut s: Vec<u8> = Vec::new();
        s.push(self.prg_regs[0]);
        s.push(self.prg_regs[1]);
        let ghost words = Seq::new(16, |i: int| if i % 2 == 0 { self.chr_regs@[i / 2] } else { 0u8 });
        let mut i: usize = 0;
        while i < 8
            invariant
                0 <= i <= 8,
                words == Seq::new(16, |k: int| if k % 2 == 0 { self.chr_regs@[k / 2] } else { 0u8 }),
                s@ =~= self.prg_regs@ + words.subrange(0, 2 * i as int),
            decreases 8 - i,
        {
            s.push(self.chr_regs[i]);
            s.push(0);
            proof {
                assert(words.subrange(0, 2 * (i + 1) as int) =~= words.subrange(0, 2 * i as int).push(self.chr_regs@[i as int]).push(0u8));
            }
            i = i + 1;
        }
        s.push(self.base.mirroring.to_snapshot_byte());
        let mut k: usize = 0;
        while k < 8
            invariant
                0 <= k <= 8,
                s@ =~= self.prg_regs@ + words + seq![layout_byte(self.base.mirroring)] + Seq::new(k as nat, |j: int| 0u8),
            decreases 8 - k,
        {
            s.push(0);
            k = k + 1;
        }
        proof {
            assert(words.subrange(0, 16) =~= words);
        }
        s
    }

    pub fn restore_registers(&mut self, data: &[u8])
        requires
            old(self).wf(),
        ensures
            final(self).restore_post(old(self), data@),
    {
        if data.len() < SNAPSHOT_LEN {
            return;
        }
        self.prg_regs = [data[0], data[1]];
        assert(self.prg_regs@ =~= data@.subrange(0, 2));
        let layout = NametableLayout::from_snapshot_byte(data[MIRRORING_BYTE]);
        self.base.set_mirroring(layout);
        let mut i: usize = 0;
        while i < 8
            invariant
                0 <= i <= 8,
                data@.len() >= SNAPSHOT_LEN,
                self.shape(),
                self.prg_regs@ == data@.subrange(0, 2),
                self.base.mirroring == layout_from_byte(data@[MIRRORING_BYTE as int]),
                self.base.same_memory(&old(self).base),
                self.chr_regs@.len() == 8,
                forall|j: int| 0 <= j < i ==> #[trigger] self.chr_regs@[j] == data@[2 + 2 * j],
            decreases 8 - i,
        {
            self.chr_regs[i] = data[2 + 2 * i];
            i = i + 1;
        }
        self.update_prg();
        self.update_chr();
        proof {
            assert(self.chr_regs@ =~= Seq::new(8, |j: int| data@[2 + 2 * j]));
        }
    }

    /// Registers back to power-on (mirroring kept).
    pub fn reset(&mut self)
        requires
            old(self).wf(),
        ensures
            final(self).wf(),
            final(self).prg_regs@ == seq![0u8, 1],
            final(self).chr_regs@ == seq![0u8, 0, 0, 0, 0, 0, 0, 0],
            final(self).base.same_memory(&old(self).base),
            final(self).base.mirroring == old(self).base.mirroring,
            final(self).applied(),
    {
        self.prg_regs = [0u8, 1];
        self.chr_regs = [0u8; 8];
        self.update_prg();
        self.update_chr();
        proof {
            assert(self.prg_regs@ =~= seq![0u8, 1]);
            assert(self.chr_regs@ =~= seq![0u8, 0, 0, 0, 0, 0, 0, 0]);
        }
    }

    pub fn initialize_ram(&mut self, mode: RamInitMode)
        requires
            old(self).wf(),
        ensures
            final(self).wf(),
            final(self).regs() == old(self).regs(),
            final(self).base.prg_ram@ == Seq::new(old(self).base.prg_ram@.len(), |i: int| ram_init_byte(mode)),
            final(self).base.same_layout(&old(self).base),
            final(self).base.prg_pages@ == old(self).base.prg_pages@,
            final(self).base.chr_pages@ == old(self).base.chr_pages@,
            final(self).base.mirroring == old(self).base.mirroring,
    {
        self.base.initialize_ram(mode);
    }
}

} // verus!
