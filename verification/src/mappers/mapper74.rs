//! Mapper 74 - MMC3 with 2 KiB of CHR-RAM answering to banks 8 and 9.
//!
//! The board is a full MMC3; a 1 KiB CHR bank number of 8 or 9 (as the
//! registers give it, before reduction to the CHR-ROM size) reaches one of
//! two 1 KiB pages of CHR-RAM instead of CHR-ROM. PRG-RAM is 8 KiB.
use vstd::prelude::*;
use crate::cartridge::{NametableLayout, MapperCapabilities, MapperContext, RamInitMode, ram_init_byte};
use crate::base_mapper::{BaseMapper, slice_prefix, fill_bytes};
use crate::mmc3::MMC3Mapper;

verus! {

pub const MAPPER_NUMBER: u16 = 74;
pub const CHR_1K_BANK_SIZE: usize = 0x0400;
pub const CHR_RAM_FIRST_BANK: usize = 8;
pub const CHR_RAM_LAST_BANK: usize = 9;
pub const CHR_RAM_SIZE: usize = 2 * 1024;

pub open spec fn is_chr_ram_bank(bank: nat) -> bool {
    bank == CHR_RAM_FIRST_BANK || bank == CHR_RAM_LAST_BANK
}

/// Index into the CHR-RAM of byte `off` of bank 8 or 9.
pub open spec fn chr_ram_index(bank: nat, off: nat) -> int {
    (bank - CHR_RAM_FIRST_BANK) * (CHR_1K_BANK_SIZE as int) + off
}

/// Mapper 74.
pub struct Mapper74 {
    pub inner: MMC3Mapper,
    /// Bank 8 is bytes 0-1023, bank 9 bytes 1024-2047.
    pub chr_ram: Vec<u8>,
}

impl Mapper74 {
    pub open spec fn wf(&self) -> bool {
        &&& self.inner.wf()
        &&& self.chr_ram@.len() == CHR_RAM_SIZE
    }

    pub open spec fn spec_read_chr(&self, addr: u16) -> u8 {
        let bank = self.inner.spec_mapped_chr_1k_bank(addr);
        let off = (addr & 0x3FF) as nat;
        if is_chr_ram_bank(bank) {
            self.chr_ram@[chr_ram_index(bank, off)]
        } else {
            self.inner.chr_byte(bank, off)
        }
    }

    pub open spec fn spec_read_prg(&self, addr: u16) -> u8 {
        self.inner.spec_read_prg(addr)
    }

    pub open spec fn spec_read_prg_open_bus(&self, addr: u16, open_bus: u8) -> u8 {
        self.inner.spec_read_prg_open_bus(addr, open_bus)
    }

    pub open spec fn read_ok(&self, addr: u16) -> bool {
        true
    }

    pub open spec fn spec_mirroring(&self) -> NametableLayout {
        self.inner.base.mirroring
    }

    pub open spec fn spec_irq_pending(&self) -> bool {
        self.inner.irq_pending
    }

    pub open spec fn write_post(&self, old: &Self, addr: u16, value: u8) -> bool {
        &&& self.wf()
        &&& self.inner.write_post(&old.inner, addr, value)
        &&& self.chr_ram == old.chr_ram
    }

    pub open spec fn write_chr_post(&self, old: &Self, addr: u16, value: u8) -> bool {
        let bank = old.inner.spec_mapped_chr_1k_bank(addr);
        let off = (addr & 0x3FF) as nat;
        &&& self.wf()
        &&& if is_chr_ram_bank(bank) {
            &&& self.chr_ram@ == old.chr_ram@.update(chr_ram_index(bank, off), value)
            &&& self.inner == old.inner
        } else {
            &&& self.inner.chr_write_post(&old.inner, bank, off, value)
            &&& self.chr_ram == old.chr_ram
        }
    }

    pub open spec fn snapshot(&self) -> Seq<u8> {
        self.inner.snapshot() + self.chr_ram@
    }

    pub open spec fn restore_post(&self, old: &Self, data: Seq<u8>) -> bool {
        if data.len() < CHR_RAM_SIZE {
            *self == *old
        } else {
            let n = data.len();
            &&& self.wf()
            &&& self.inner.restore_post(&old.inner, data.subrange(0, n - CHR_RAM_SIZE))
            &&& self.chr_ram@ == data.subrange(n - CHR_RAM_SIZE, n as int)
        }
    }

    pub open spec fn reset_post(&self, old: &Self) -> bool {
        &&& self.inner.reset_post(&old.inner)
        &&& self.chr_ram == old.chr_ram
    }

    pub open spec fn cycle_ok(&self) -> bool {
        true
    }

    pub open spec fn cycle_post(&self, old: &Self) -> bool {
        &&& self.inner.cycle_post(&old.inner)
        &&& self.chr_ram == old.chr_ram
    }

    pub open spec fn ppu_address_post(&self, old: &Self, addr: u16) -> bool {
        &&& self.inner.ppu_address_post(&old.inner, addr)
        &&& self.chr_ram == old.chr_ram
    }

    pub fn new(ctx: MapperContext) -> (m: Self)
        ensures
            m.wf(),
            m.inner.base.prg_rom@ == ctx.prg_rom@,
            m.inner.base.chr_from(ctx.chr_rom@),
            m.inner.bank_select == 0,
            m.inner.regs@ == seq![0u8, 2, 4, 5, 6, 7, 0, 1],
            m.chr_ram@ == Seq::new(CHR_RAM_SIZE as nat, |i: int| 0u8),
            m.inner.base.capabilities == (MapperCapabilities { has_irq: true, has_expansion_audio: false, has_chr_banking: true, has_dynamic_mirroring: true, max_prg_ram_kb: 8, prg_bank_size_kb: 8, chr_bank_size_kb: 1 }),
    {
        let capabilities = MapperCapabilities {
            has_irq: true,
            has_expansion_audio: false,
            has_chr_banking: true,
            has_dynamic_mirroring: true,
            max_prg_ram_kb: 8,
            prg_bank_size_kb: 8,
            chr_bank_size_kb: 1,
        };
        let inner = MMC3Mapper::new_with_irq_mode_and_prg_ram_banks(&ctx, capabilities, false, 1);
        let chr_ram = vec![0u8; CHR_RAM_SIZE];
        proof {
            assert(chr_ram@ =~= Seq::new(CHR_RAM_SIZE as nat, |i: int| 0u8));
        }
        Mapper74 { inner, chr_ram }
    }

    pub fn is_chr_ram_bank(bank: usize) -> (b: bool)
        ensures
            b == is_chr_ram_bank(bank as nat),
    {
        bank == CHR_RAM_FIRST_BANK || bank == CHR_RAM_LAST_BANK
    }

    pub fn read_prg(&self, addr: u16) -> (v: u8)
        requires
            self.wf(),
        ensures
            v == self.spec_read_prg(addr),
    {
        self.inner.read_prg(addr)
    }

    pub fn read_prg_open_bus(&self, addr: u16, open_bus: u8) -> (v: u8)
        requires
            self.wf(),
        ensures
            v == self.spec_read_prg_open_bus(addr, open_bus),
    {
        self.inner.read_prg_open_bus(addr, open_bus)
    }

    pub fn write_prg(&mut self, addr: u16, value: u8)
        requires
            old(self).wf(),
        ensures
            final(self).write_post(old(self), addr, value),
    {
        self.inner.write_prg(addr, value);
    }

    pub fn read_chr(&self, addr: u16) -> (v: u8)
        requires
            self.wf(),
        ensures
            v == self.spec_read_chr(addr),
    {
        let raw_bank = self.inner.raw_chr_1k_bank(addr);
        proof { crate::bits::lemma_addr_fields(addr); }
        let offset = (addr & 0x3FF) as usize;
        if Self::is_chr_ram_bank(raw_bank) {
            self.chr_ram[(raw_bank - CHR_RAM_FIRST_BANK) * CHR_1K_BANK_SIZE + offset]
        } else {
            let wrapped_bank = self.inner.mapped_chr_1k_bank(addr);
            self.inner.read_chr_1k_at(wrapped_bank, offset)
        }
    }

    pub fn write_chr(&mut self, addr: u16, value: u8)
        requires
            old(self).wf(),
        ensures
            final(self).write_chr_post(old(self), addr, value),
    {
        let raw_bank = self.inner.raw_chr_1k_bank(addr);
        proof { crate::bits::lemma_addr_fields(addr); }
        let offset = (addr & 0x3FF) as usize;
        if Self::is_chr_ram_bank(raw_bank) {
            self.chr_ram.set((raw_bank - CHR_RAM_FIRST_BANK) * CHR_1K_BANK_SIZE + offset, value);
        } else {
            let wrapped_bank = self.inner.mapped_chr_1k_bank(addr);
            self.inner.write_chr_1k_at(wrapped_bank, offset, value);
        }
    }

    pub fn registers_snapshot(&self) -> (s: Vec<u8>)
        requires
            self.wf(),
        ensures
            s@ == self.snapshot(),
    {
        let mut s = self.inner.registers_snapshot();
        let ghost head = s@;
        let mut i: usize = 0;
        while i < self.chr_ram.len()
            invariant
                0 <= i <= self.chr_ram@.len(),
                s@ =~= head + self.chr_ram@.subrange(0, i as int),
            decreases self.chr_ram@.len() - i,
        {
            s.push(self.chr_ram[i]);
            i = i + 1;
        }
        proof {
            assert(self.chr_ram@.subrange(0, self.chr_ram@.len() as int) =~= self.chr_ram@);
        }
        s
    }

    pub fn restore_registers(&mut self, data: &[u8])
        requires
            old(self).wf(),
        ensures
            final(self).restore_post(old(self), data@),
    {
        if data.len() < CHR_RAM_SIZE {
            return;
        }
        let t = data.len() - CHR_RAM_SIZE;
        let head = slice_prefix(data, t);
        self.inner.restore_registers(head.as_slice());
        let ghost restored_inner = self.inner;
        let mut i: usize = 0;
        while i < CHR_RAM_SIZE
            invariant
                0 <= i <= CHR_RAM_SIZE,
                t + CHR_RAM_SIZE == data@.len(),
                t + CHR_RAM_SIZE <= usize::MAX,
                self.inner == restored_inner,
                self.chr_ram@.len() == CHR_RAM_SIZE,
                forall|j: int| 0 <= j < i ==> #[trigger] self.chr_ram@[j] == data@[t + j],
            decreases CHR_RAM_SIZE - i,
        {
            self.chr_ram.set(i, data[t + i]);
            i = i + 1;
        }
        proof {
            assert(self.chr_ram@ =~= data@.subrange(t as int, data@.len() as int));
        }
    }

    pub fn reset(&mut self)
        requires
            old(self).wf(),
        ensures
            final(self).reset_post(old(self)),
    {
        self.inner.reset();
    }

    pub fn initialize_ram(&mut self, mode: RamInitMode)
        requires
            old(self).wf(),
        ensures
            final(self).wf(),
            final(self).inner.same_registers(&old(self).inner),
            final(self).inner.base.prg_ram@ == Seq::new(old(self).inner.base.prg_ram@.len(), |i: int| ram_init_byte(mode)),
            final(self).chr_ram@ == Seq::new(CHR_RAM_SIZE as nat, |i: int| ram_init_byte(mode)),
    {
        self.inner.initialize_ram(mode);
        let b: u8 = match mode {
            RamInitMode::Zero => 0x00,
            RamInitMode::Ones => 0xFF,
        };
        fill_bytes(&mut self.chr_ram, b);
    }

    pub fn cpu_cycle(&mut self)
        requires
            old(self).wf(),
        ensures
            final(self).cycle_post(old(self)),
    {
        self.inner.cpu_cycle();
    }

    pub fn ppu_address_changed(&mut self, addr: u16)
        requires
            old(self).wf(),
        ensures
            final(self).ppu_address_post(old(self), addr),
    {
        self.inner.ppu_address_changed(addr);
    }

    pub fn irq_pending(&self) -> (p: bool)
        ensures
            p == self.spec_irq_pending(),
    {
        self.inner.irq_pending
    }

    pub fn wram_size(&self) -> (n: usize)
        ensures
            n == self.inner.base.prg_ram@.len(),
    {
        self.inner.base.wram_size()
    }

    pub fn wram_snapshot(&self) -> (s: Vec<u8>)
        ensures
            s@ == self.inner.base.prg_ram@,
    {
        self.inner.base.wram_snapshot()
    }

    pub fn load_wram_snapshot(&mut self, data: &[u8])
        requires
            old(self).wf(),
        ensures
            final(self).wf(),
            final(self).inner.same_registers(&old(self).inner),
            final(self).inner.base.prg_ram@ == (if data@.len() < old(self).inner.base.prg_ram@.len() {
                data@ + old(self).inner.base.prg_ram@.subrange(data@.len() as int, old(self).inner.base.prg_ram@.len() as int)
            } else {
                data@.subrange(0, old(self).inner.base.prg_ram@.len() as int)
            }),
    {
        self.inner.base.load_wram_snapshot(data);
    }

    pub fn base(&self) -> (b: &BaseMapper)
        ensures
            *b == self.inner.base,
    {
        &self.inner.base
    }

    pub fn get_mirroring(&self) -> (m: NametableLayout)
        ensures
            m == self.spec_mirroring(),
    {
        self.inner.base.mirroring
    }

    pub fn capabilities(&self) -> (c: MapperCapabilities)
        ensures
            c == self.inner.base.capabilities,
    {
        self.inner.base.capabilities
    }

    pub fn mapper_number(&self) -> (n: u16)
        ensures
            n == MAPPER_NUMBER,
    {
        MAPPER_NUMBER
    }
}

/// A byte written to CHR-RAM bank 8 or 9 reads back unchanged while the
/// bank stays selected.
pub proof fn lemma_chr_ram_write_read(m: Mapper74, after: Mapper74, addr: u16, value: u8)
    requires
        m.wf(),
        after.write_chr_post(&m, addr, value),
        is_chr_ram_bank(m.inner.spec_mapped_chr_1k_bank(addr)),
    ensures
        after.spec_read_chr(addr) == value,
{
    crate::bits::lemma_addr_fields(addr);
}

/// Restoring a board from its own snapshot brings back the MMC3 registers
/// and the CHR-RAM.
/// The restored board then snapshots to the same bytes.
pub proof fn lemma_snapshot_roundtrip(m: Mapper74, before: Mapper74, restored: Mapper74)
    requires
        m.wf(),
        restored.restore_post(&before, m.snapshot()),
    ensures
        restored.chr_ram@ == m.chr_ram@,
        restored.inner.bank_select == m.inner.bank_select,
        restored.inner.regs@ == m.inner.regs@,
        restored.inner.base.mirroring == m.inner.base.mirroring,
        restored.inner.irq_latch == m.inner.irq_latch,
        restored.inner.irq_counter == m.inner.irq_counter,
        restored.inner.irq_enabled == m.inner.irq_enabled,
        restored.inner.irq_pending == m.inner.irq_pending,
        restored.snapshot() == m.snapshot(),
{
    let s = m.snapshot();
    let n = s.len();
    assert(s.subrange(0, n - CHR_RAM_SIZE) =~= m.inner.snapshot());
    assert(s.subrange(n - CHR_RAM_SIZE, n as int) =~= m.chr_ram@);
    crate::mmc3::lemma_snapshot_roundtrip(m.inner, before.inner, restored.inner);
}

} // verus!
