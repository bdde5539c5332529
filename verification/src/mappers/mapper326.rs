//! Mapper 326 - bootleg Contra/Gryzor board.
//!
//! Four 8 KiB PRG slots (`$8000`, `$A000`, `$C000` switchable, `$E000` fixed
//! to the last bank), eight 1 KiB CHR slots and one VRAM-page bit per
//! nametable. Writes to `$8000-$FFFF` with A4 clear set the PRG bank of the
//! slot in address bits 14:13 (the fixed slot ignores them); with A4 set and
//! A3 clear they set the CHR bank of slot `addr & 7`; with A4 and A3 set they
//! set the page bit (`data & 1`) of nametable `addr & 3`.
//!
//! The four page bits map to a layout: `0000` single-screen lower, `1111`
//! single-screen upper, `0011` horizontal, `0101` vertical, anything else
//! horizontal.
use vstd::prelude::*;
use crate::cartridge::{NametableLayout, MapperCapabilities, MapperContext};
use crate::base_mapper::{BaseMapper, wrap_page};

verus! {

pub const MAPPER_NUMBER: u16 = 326;
pub const PRG_SWITCHABLE_SLOTS: usize = 3;
pub const CHR_SLOTS: usize = 8;
pub const SNAPSHOT_LEN: usize = 15;

/// Layout for the four nametable page bits.
pub open spec fn layout_of(nt: Seq<u8>) -> NametableLayout {
    if nt == seq![0u8, 0, 0, 0] {
        NametableLayout::SingleScreenLower
    } else if nt == seq![1u8, 1, 1, 1] {
        NametableLayout::SingleScreenUpper
    } else if nt == seq![0u8, 0, 1, 1] {
        NametableLayout::Horizontal
    } else if nt == seq![0u8, 1, 0, 1] {
        NametableLayout::Vertical
    } else {
        NametableLayout::Horizontal
    }
}

/// Mapper 326 - bootleg Contra/Gryzor.
pub struct Mapper326 {
    pub base: BaseMapper,
    pub prg_banks: [u8; 3],
    pub chr_banks: [u8; 8],
    pub nt_banks: [u8; 4],
}

impl Mapper326 {
    pub open spec fn regs(&self) -> (Seq<u8>, Seq<u8>, Seq<u8>) {
        (self.prg_banks@, self.chr_banks@, self.nt_banks@)
    }

    pub open spec fn shape(&self) -> bool {
        &&& self.base.wf()
        &&& self.base.prg_page_size == 0x2000
        &&& self.base.chr_page_size == 0x0400
        &&& self.base.prg_pages@.len() == 4
        &&& self.base.chr_pages@.len() == 8
        &&& self.base.prg_ram@.len() == 0
    }

    /// The banks and mirroring agree with the registers.
    pub open spec fn applied(&self) -> bool {
        &&& self.base.shows_prg(seq![self.prg_banks@[0] as int, self.prg_banks@[1] as int, self.prg_banks@[2] as int, -1])
        &&& self.base.shows_chr(Seq::new(8, |i: int| self.chr_banks@[i] as int))
        &&& self.base.mirroring == layout_of(self.nt_banks@)
    }

    pub open spec fn wf(&self) -> bool {
        self.shape() && self.applied()
    }

    pub open spec fn write_post(&self, old: &Self, addr: u16, value: u8) -> bool {
        if addr < 0x8000 {
            *self == *old
        } else {
            &&& self.wf()
            &&& self.base.same_memory(&old.base)
            &&& if addr & 0x0010 == 0 {
                let slot = (addr >> 13) & 3;
                &&& self.prg_banks@ == (if slot < 3 { old.prg_banks@.update(slot as int, value) } else { old.prg_banks@ })
                &&& self.chr_banks@ == old.chr_banks@
                &&& self.nt_banks@ == old.nt_banks@
            } else if addr & 0x0008 == 0 {
                &&& self.prg_banks@ == old.prg_banks@
                &&& self.chr_banks@ == old.chr_banks@.update((addr & 7) as int, value)
                &&& self.nt_banks@ == old.nt_banks@
            } else {
                &&& self.prg_banks@ == old.prg_banks@
                &&& self.chr_banks@ == old.chr_banks@
                &&& self.nt_banks@ == old.nt_banks@.update((addr & 3) as int, value & 1)
            }
        }
    }

    pub open spec fn snapshot(&self) -> Seq<u8> {
        self.prg_banks@ + self.chr_banks@ + self.nt_banks@
    }

    /// Only a snapshot of exactly the right length is taken.
    pub open spec fn restore_post(&self, old: &Self, data: Seq<u8>) -> bool {
        if data.len() != SNAPSHOT_LEN {
            *self == *old
        } else {
            &&& self.wf()
            &&& self.base.same_memory(&old.base)
            &&& self.snapshot() == data
        }
    }

    pub open spec fn reset_post(&self, old: &Self) -> bool {
        &&& self.wf()
        &&& self.base.same_memory(&old.base)
        &&& self.snapshot() == Seq::new(SNAPSHOT_LEN as nat, |i: int| 0u8)
    }

    pub fn new(ctx: MapperContext) -> (m: Self)
        ensures
            m.wf(),
            m.snapshot() == Seq::new(SNAPSHOT_LEN as nat, |i: int| 0u8),
            m.base.prg_rom@ == ctx.prg_rom@,
            m.base.capabilities == (MapperCapabilities { has_irq: false, has_expansion_audio: false, has_chr_banking: false, has_dynamic_mirroring: false, max_prg_ram_kb: 0, prg_bank_size_kb: 8, chr_bank_size_kb: 1 }),
            m.base.chr_from(ctx.chr_rom@),
    {
        let capabilities = MapperCapabilities {
            has_irq: false,
            has_expansion_audio: false,
            has_chr_banking: false,
            has_dynamic_mirroring: false,
            max_prg_ram_kb: 0,
            prg_bank_size_kb: 8,
            chr_bank_size_kb: 1,
        };
        let mut base = BaseMapper::new(&ctx, capabilities);
        base.configure_prg_banking(8 * 1024);
        base.configure_chr_banking(1024);
        let mut mapper = Mapper326 { base, prg_banks: [0u8; 3], chr_banks: [0u8; 8], nt_banks: [0u8; 4] };
        mapper.sync_banks();
        proof {
            assert(mapper.snapshot() =~= Seq::new(SNAPSHOT_LEN as nat, |i: int| 0u8));
        }
        mapper
    }

    /// The layout that the page bits select.
    pub fn derive_mirroring(&self) -> (l: NametableLayout)
        ensures
            l == layout_of(self.nt_banks@),
    {
        let n = self.nt_banks;
        proof {
            assert(seq![n[0], n[1], n[2], n[3]] =~= self.nt_banks@);
        }
        if n[0] == 0 && n[1] == 0 && n[2] == 0 && n[3] == 0 {
            NametableLayout::SingleScreenLower
        } else if n[0] == 1 && n[1] == 1 && n[2] == 1 && n[3] == 1 {
            NametableLayout::SingleScreenUpper
        } else if n[0] == 0 && n[1] == 0 && n[2] == 1 && n[3] == 1 {
            NametableLayout::Horizontal
        } else if n[0] == 0 && n[1] == 1 && n[2] == 0 && n[3] == 1 {
            NametableLayout::Vertical
        } else {
            NametableLayout::Horizontal
        }
    }

    /// Points every slot and the mirroring at what the registers select.
    fn sync_banks(&mut self)
        requires
            old(self).shape(),
        ensures
            final(self).wf(),
            final(self).regs() == old(self).regs(),
            final(self).base.same_memory(&old(self).base),
    {
        let mut i: usize = 0;
        while i < 3
            invariant
                0 <= i <= 3,
                self.shape(),
                self.regs() == old(self).regs(),
                self.base.same_memory(&old(self).base),
                forall|j: int| 0 <= j < i ==> #[trigger] self.base.prg_pages@[j]
                    == wrap_page(self.prg_banks@[j] as int, self.base.prg_count()),
            decreases 3 - i,
        {
            self.base.select_prg_page(i, self.prg_banks[i] as i16);
            i = i + 1;
        }
        self.base.select_prg_page(3, -1);
        proof {
            self.base.lemma_shows_prg4(self.prg_banks@[0] as int, self.prg_banks@[1] as int, self.prg_banks@[2] as int, -1);
        }
        let mut i: usize = 0;
        while i < 8
            invariant
                0 <= i <= 8,
                self.shape(),
                self.regs() == old(self).regs(),
                self.base.same_memory(&old(self).base),
                self.base.shows_prg(seq![self.prg_banks@[0] as int, self.prg_banks@[1] as int, self.prg_banks@[2] as int, -1]),
                forall|j: int| 0 <= j < i ==> #[trigger] self.base.chr_pages@[j]
                    == wrap_page(self.chr_banks@[j] as int, self.base.chr_count()),
            decreases 8 - i,
        {
            self.base.select_chr_page(i, self.chr_banks[i] as i16);
            i = i + 1;
        }
        let layout = self.derive_mirroring();
        self.base.set_mirroring(layout);
    }

    pub fn write_prg(&mut self, addr: u16, value: u8)
        requires
            old(self).wf(),
        ensures
            final(self).write_post(old(self), addr, value),
    {
        if addr < 0x8000 {
            return;
        }
        if addr & 0x0010 == 0 {
            let slot = ((addr >> 13) & 3) as usize;
            if slot < PRG_SWITCHABLE_SLOTS {
                self.prg_banks[slot] = value;
            }
        } else if addr & 0x0008 == 0 {
            let slot = (addr & 0x0007) as usize;
            proof { crate::bits::lemma_addr_fields(addr); }
            self.chr_banks[slot] = value;
        } else {
            let nt = (addr & 0x0003) as usize;
            proof { crate::bits::lemma_addr_fields(addr); }
            self.nt_banks[nt] = value & 1;
        }
        self.sync_banks();
    }

    pub fn registers_snapshot(&self) -> (s: Vec<u8>)
        ensures
            s@ == self.snapshot(),
    {
        let mut s: Vec<u8> = Vec::new();
        let mut i: usize = 0;
        while i < 3
            invariant
                0 <= i <= 3,
                s@ =~= self.prg_banks@.subrange(0, i as int),
            decreases 3 - i,
        {
            s.push(self.prg_banks[i]);
            i = i + 1;
        }
        let mut i: usize = 0;
        while i < 8
            invariant
                0 <= i <= 8,
                s@ =~= self.prg_banks@ + self.chr_banks@.subrange(0, i as int),
            decreases 8 - i,
        {
            s.push(self.chr_banks[i]);
            i = i + 1;
        }
        let mut i: usize = 0;
        while i < 4
            invariant
                0 <= i <= 4,
                s@ =~= self.prg_banks@ + self.chr_banks@ + self.nt_banks@.subrange(0, i as int),
            decreases 4 - i,
        {
            s.push(self.nt_banks[i]);
            i = i + 1;
        }
        proof {
            assert(self.prg_banks@.subrange(0, 3) =~= self.prg_banks@);
            assert(self.chr_banks@.subrange(0, 8) =~= self.chr_banks@);
            assert(self.nt_banks@.subrange(0, 4) =~= self.nt_banks@);
        }
        s
    }

    pub fn restore_registers(&mut self, data: &[u8])
        requires
            old(self).wf(),
        ensures
            final(self).restore_post(old(self), data@),
    {
        if data.len() != SNAPSHOT_LEN {
            return;
        }
        self.prg_banks = [data[0], data[1], data[2]];
        self.chr_banks = [data[3], data[4], data[5], data[6], data[7], data[8], data[9], data[10]];
        self.nt_banks = [data[11], data[12], data[13], data[14]];
        self.sync_banks();
        proof {
            assert(self.snapshot() =~= data@);
        }
    }

    pub fn reset(&mut self)
        requires
            old(self).wf(),
        ensures
            final(self).reset_post(old(self)),
    {
        self.prg_banks = [0u8; 3];
        self.chr_banks = [0u8; 8];
        self.nt_banks = [0u8; 4];
        self.sync_banks();
        proof {
            assert(self.snapshot() =~= Seq::new(SNAPSHOT_LEN as nat, |i: int| 0u8));
        }
    }

    pub open spec fn spec_mirroring(&self) -> NametableLayout {
        self.base.mirroring
    }

    pub open spec fn spec_read_chr(&self, addr: u16) -> u8 {
        self.base.spec_read_chr(addr)
    }

    /// State after a PPU write to pattern memory: CHR-RAM takes the byte.
    pub open spec fn write_chr_post(&self, old: &Self, addr: u16, value: u8) -> bool {
        &&& self.wf()
        &&& self.base.chr@ == (if old.base.chr_writable && old.base.chr_count() > 0 {
            old.base.chr@.update(old.base.chr_index(addr) as int, value)
        } else {
            old.base.chr@
        })
        &&& self.base.prg_pages@ == old.base.prg_pages@
        &&& self.base.chr_pages@ == old.base.chr_pages@
        &&& self.base.mirroring == old.base.mirroring
        &&& self.regs() == old.regs()
    }

    pub fn read_chr(&self, addr: u16) -> (v: u8)
        requires
            self.wf(),
        ensures
            v == self.spec_read_chr(addr),
    {
        self.base.read_chr(addr)
    }

    pub fn write_chr(&mut self, addr: u16, value: u8)
        requires
            old(self).wf(),
        ensures
            final(self).write_chr_post(old(self), addr, value),
    {
        self.base.write_chr(addr, value);
    }

    /// Every CPU read is defined.
    pub open spec fn read_ok(&self, addr: u16) -> bool {
        true
    }

    pub open spec fn spec_read_prg(&self, addr: u16) -> u8 {
        self.base.spec_read_prg(addr)
    }

    pub fn read_prg(&self, addr: u16) -> (v: u8)
        requires
            self.wf(),
        ensures
            v == self.spec_read_prg(addr),
    {
        self.base.read_prg(addr)
    }

    /// The board's memory and page tables.
    pub fn base(&self) -> (b: &BaseMapper)
        ensures
            *b == self.base,
    {
        &self.base
    }

    pub fn get_mirroring(&self) -> (m: NametableLayout)
        ensures
            m == self.spec_mirroring(),
    {
        self.base.mirroring
    }

    pub fn capabilities(&self) -> (c: MapperCapabilities)
        ensures
            c == self.base.capabilities,
    {
        self.base.capabilities
    }

    pub fn mapper_number(&self) -> (n: u16)
        ensures
            n == MAPPER_NUMBER,
    {
        MAPPER_NUMBER
    }

    pub open spec fn spec_irq_pending(&self) -> bool {
        false
    }

    /// The board raises no interrupt.
    pub fn irq_pending(&self) -> (p: bool)
        ensures
            p == self.spec_irq_pending(),
    {
        false
    }

    pub open spec fn cycle_ok(&self) -> bool {
        true
    }

    pub open spec fn cycle_post(&self, old: &Self) -> bool {
        *self == *old
    }

    /// The board does not count CPU cycles.
    pub fn cpu_cycle(&mut self)
        requires
            old(self).wf(),
        ensures
            final(self).cycle_post(old(self)),
    {
    }

}

/// Restoring a board from its own snapshot brings back every register.
/// The restored board then snapshots to the same bytes.
pub proof fn lemma_snapshot_roundtrip(m: Mapper326, before: Mapper326, restored: Mapper326)
    requires
        restored.restore_post(&before, m.snapshot()),
    ensures
        restored.regs() == m.regs(),
        restored.snapshot() == m.snapshot(),
{
    let s = m.snapshot();
    assert(s.subrange(0, 3) =~= m.prg_banks@);
    assert(s.subrange(3, 11) =~= m.chr_banks@);
    assert(s.subrange(11, 15) =~= m.nt_banks@);
    assert(restored.snapshot().subrange(0, 3) =~= restored.prg_banks@);
    assert(restored.snapshot().subrange(3, 11) =~= restored.chr_banks@);
    assert(restored.snapshot().subrange(11, 15) =~= restored.nt_banks@);
}

} // verus!
