//! Mapper 304 - SMB2J (pirate port of Super Mario Bros. 2).
//!
//! Eight 4 KiB slots cover `$8000-$FFFF`, showing pages `start..start+8`
//! where `start` is 0, or 4 after a write of an odd value to `$4022` (only on
//! boards with at least 64 KiB of PRG-ROM). `$5000-$7FFF` always shows the
//! last three 4 KiB pages. A write to `$4122` with bits 1:0 non-zero starts a
//! CPU-cycle counter that raises an IRQ (and stops) after 4096 cycles; bits
//! 1:0 zero stop it. Every `$4122` write clears the counter and the IRQ.
use vstd::prelude::*;
use crate::cartridge::{NametableLayout, MapperCapabilities, MapperContext};
use crate::base_mapper::{BaseMapper, lemma_page_index};

verus! {

pub const MAPPER_NUMBER: u16 = 304;
pub const PRG_PAGE_SIZE: usize = 4 * 1024;
pub const PRG_SLOTS: usize = 8;
pub const LARGE_PRG_THRESHOLD: usize = 64 * 1024;
pub const IRQ_PERIOD: u16 = 0x1000;
pub const BANKING_BYTES: usize = PRG_SLOTS;

/// Page numbers of the eight `$8000` slots for a `$4022` selection.
pub open spec fn pages_of(select: u8) -> Seq<int> {
    Seq::new(8, |j: int| (select as int) * 4 + j)
}

/// Mapper 304 - SMB2J.
pub struct Mapper304 {
    pub base: BaseMapper,
    pub irq_counter: u16,
    pub irq_enabled: bool,
    pub irq_pending: bool,
    /// Bit 0 of the last `$4022` write (used only with at least 64 KiB of PRG-ROM).
    pub prg_bank_select: u8,
    /// Whether `$4022` is active.
    pub large_prg: bool,
}

impl Mapper304 {
    pub open spec fn regs(&self) -> (u16, bool, bool, u8) {
        (self.irq_counter, self.irq_enabled, self.irq_pending, self.prg_bank_select)
    }

    pub open spec fn wf(&self) -> bool {
        &&& self.base.wf()
        &&& self.base.prg_page_size == PRG_PAGE_SIZE
        &&& self.base.prg_pages@.len() == 8
        &&& !self.base.chr_banked
        &&& self.base.prg_ram@.len() == 0
        &&& self.large_prg == (self.base.prg_rom@.len() >= LARGE_PRG_THRESHOLD)
    }

    pub open spec fn applied(&self) -> bool {
        self.base.shows_prg(pages_of(self.prg_bank_select))
    }

    pub open spec fn write_post(&self, old: &Self, addr: u16, value: u8) -> bool {
        &&& self.wf()
        &&& self.base.same_memory(&old.base)
        &&& self.base.chr_pages@ == old.base.chr_pages@
        &&& self.base.mirroring == old.base.mirroring
        &&& self.large_prg == old.large_prg
        &&& if addr == 0x4022 && old.large_prg {
            &&& self.regs() == (old.irq_counter, old.irq_enabled, old.irq_pending, value & 0x01)
            &&& self.applied()
        } else if addr == 0x4122 {
            &&& self.regs() == (0u16, value & 0x03 != 0, false, old.prg_bank_select)
            &&& self.base.unchanged(&old.base)
        } else {
            &&& self.regs() == old.regs()
            &&& self.base.unchanged(&old.base)
        }
    }

    pub open spec fn cycle_ok(&self) -> bool {
        true
    }

    /// The board one CPU cycle later: an enabled counter advances modulo
    /// 4096 and, on wrapping to 0, raises the IRQ and stops.
    pub open spec fn ticked(self) -> Mapper304 {
        if self.irq_enabled {
            let c = ((self.irq_counter as int + 1) % (IRQ_PERIOD as int)) as u16;
            Mapper304 { irq_counter: c, irq_enabled: c != 0, irq_pending: self.irq_pending || c == 0, ..self }
        } else {
            self
        }
    }

    /// The board `n` CPU cycles later.
    pub open spec fn ticked_n(self, n: nat) -> Mapper304
        decreases n,
    {
        if n == 0 { self } else { self.ticked_n((n - 1) as nat).ticked() }
    }

    pub open spec fn cycle_post(&self, old: &Self) -> bool {
        *self == old.ticked()
    }

    pub open spec fn spec_irq_pending(&self) -> bool {
        self.irq_pending
    }

    pub open spec fn restore_post(&self, old: &Self, data: Seq<u8>) -> bool {
        &&& self.wf()
        &&& self.base.same_memory(&old.base)
        &&& self.base.chr_pages@ == old.base.chr_pages@
        &&& self.base.mirroring == old.base.mirroring
        &&& self.large_prg == old.large_prg
        &&& forall|i: int| 0 <= i < 8 ==> #[trigger] self.base.prg_pages@[i]
            == if i < data.len() { crate::base_mapper::wrap_page(data[i] as int, old.base.prg_count()) } else { old.base.prg_pages@[i] as nat }
        &&& if data.len() >= BANKING_BYTES + 5 {
            self.regs() == (
                ((data[8] as u16) | ((data[9] as u16) << 8)),
                data[10] != 0,
                data[11] != 0,
                data[12] & 0x01,
            )
        } else {
            self.regs() == old.regs()
        }
    }

    pub open spec fn reset_post(&self, old: &Self) -> bool {
        &&& self.wf()
        &&& self.base.same_memory(&old.base)
        &&& self.base.chr_pages@ == old.base.chr_pages@
        &&& self.base.mirroring == old.base.mirroring
        &&& self.large_prg == old.large_prg
        &&& self.regs() == (0u16, false, false, 0u8)
        &&& self.applied()
    }

    pub open spec fn snapshot(&self) -> Seq<u8> {
        self.base.banking_bytes() + seq![
            (self.irq_counter & 0xFF) as u8,
            (self.irq_counter >> 8) as u8,
            if self.irq_enabled { 1u8 } else { 0u8 },
            if self.irq_pending { 1u8 } else { 0u8 },
            self.prg_bank_select,
        ]
    }

    /// `$5000-$7FFF` shows the last three 4 KiB pages (0 with fewer than
    /// three), `$8000-$FFFF` the banked pages, other addresses read 0.
    pub open spec fn spec_read_prg(&self, addr: u16) -> u8 {
        let n = self.base.prg_rom@.len() / (PRG_PAGE_SIZE as nat);
        if 0x5000 <= addr < 0x8000 {
            if n < 3 { 0 } else { self.base.prg_rom@[((n - 3) * PRG_PAGE_SIZE as nat + (addr - 0x5000)) as int] }
        } else {
            self.base.spec_read_prg_rom(addr)
        }
    }

    pub fn new(ctx: MapperContext) -> (m: Self)
        ensures
            m.wf(),
            m.regs() == (0u16, false, false, 0u8),
            m.applied(),
            m.base.prg_rom@ == ctx.prg_rom@,
            m.base.capabilities == (MapperCapabilities { has_irq: true, has_expansion_audio: false, has_dynamic_mirroring: false, has_chr_banking: false, prg_bank_size_kb: 4, chr_bank_size_kb: 8, max_prg_ram_kb: 0 }),
            m.base.chr_from(ctx.chr_rom@),
    {
        let large_prg = ctx.prg_rom.len() >= LARGE_PRG_THRESHOLD;
        let capabilities = MapperCapabilities {
            has_irq: true,
            has_expansion_audio: false,
            has_dynamic_mirroring: false,
            has_chr_banking: false,
            prg_bank_size_kb: 4,
            chr_bank_size_kb: 8,
            max_prg_ram_kb: 0,
        };
        let mut base = BaseMapper::new(&ctx, capabilities);
        base.configure_prg_banking(PRG_PAGE_SIZE);
        let mut mapper = Mapper304 {
            base,
            irq_counter: 0,
            irq_enabled: false,
            irq_pending: false,
            prg_bank_select: 0,
            large_prg,
        };
        mapper.set_power_on_state();
        mapper
    }

    fn set_power_on_state(&mut self)
        requires
            old(self).wf(),
        ensures
            final(self).reset_post(old(self)),
    {
        self.prg_bank_select = 0;
        self.irq_counter = 0;
        self.irq_enabled = false;
        self.irq_pending = false;
        self.apply_prg_banking();
    }

    /// Shows pages `start..start+8` in the eight slots, `start = select * 4`.
    fn apply_prg_banking(&mut self)
        requires
            old(self).wf(),
            old(self).prg_bank_select <= 1,
        ensures
            final(self).wf(),
            final(self).regs() == old(self).regs(),
            final(self).large_prg == old(self).large_prg,
            final(self).base.same_memory(&old(self).base),
            final(self).base.chr_pages@ == old(self).base.chr_pages@,
            final(self).base.mirroring == old(self).base.mirroring,
            final(self).applied(),
    {
        let start = (self.prg_bank_select as i16) << 2;
        proof {
            let s = self.prg_bank_select;
            assert((s as i16) << 2 == (s as i16) * 4) by (bit_vector)
                requires s <= 1;
        }
        let mut i: i16 = 0;
        while i < 4
            invariant
                0 <= i <= 4,
                start == self.prg_bank_select as int * 4,
                self.wf(),
                self.regs() == old(self).regs(),
                self.large_prg == old(self).large_prg,
                self.base.same_memory(&old(self).base),
                self.base.chr_pages@ == old(self).base.chr_pages@,
                self.base.mirroring == old(self).base.mirroring,
                forall|j: int| (0 <= j < i || 4 <= j < 4 + i) ==> #[trigger] self.base.prg_pages@[j]
                    == crate::base_mapper::wrap_page(start + j, self.base.prg_count()),
            decreases 4 - i,
        {
            self.base.select_prg_page(i as usize, start + i);
            self.base.select_prg_page(i as usize + 4, start + 4 + i);
            i = i + 1;
        }
    }

    pub fn read_prg(&self, addr: u16) -> (v: u8)
        requires
            self.wf(),
        ensures
            v == self.spec_read_prg(addr),
    {
        if 0x5000 <= addr && addr < 0x8000 {
            let n = self.base.prg_rom.len() / PRG_PAGE_SIZE;
            if n < 3 {
                return 0;
            }
            let offset = (addr - 0x5000) as usize;
            proof {
                lemma_page_index((n - 3) as nat, n as nat, PRG_PAGE_SIZE as nat, self.base.prg_rom@.len(), (offset % PRG_PAGE_SIZE) as nat);
                lemma_page_index((n - 1) as nat, n as nat, PRG_PAGE_SIZE as nat, self.base.prg_rom@.len(), (PRG_PAGE_SIZE - 1) as nat);
            }
            self.base.prg_rom[(n - 3) * PRG_PAGE_SIZE + offset]
        } else {
            self.base.read_prg_banked(addr)
        }
    }

    /// `$5000-$FFFF` reads as `read_prg`; lower addresses leave the bus value.
    pub fn read_prg_open_bus(&self, addr: u16, open_bus: u8) -> (v: u8)
        requires
            self.wf(),
        ensures
            v == (if addr >= 0x5000 { self.spec_read_prg(addr) } else { open_bus }),
    {
        if addr >= 0x5000 { self.read_prg(addr) } else { open_bus }
    }

    pub fn write_prg(&mut self, addr: u16, value: u8)
        requires
            old(self).wf(),
        ensures
            final(self).write_post(old(self), addr, value),
    {
        if self.base.try_write_prg_ram(addr, value) {
            return;
        }
        if addr == 0x4022 && self.large_prg {
            self.prg_bank_select = value & 0x01;
            proof {
                crate::bits::lemma_byte_fields(value);
            }
            self.apply_prg_banking();
        } else if addr == 0x4122 {
            self.irq_enabled = (value & 0x03) != 0;
            self.irq_counter = 0;
            self.irq_pending = false;
        }
    }

    /// Advances the IRQ counter by one CPU cycle.
    pub fn cpu_cycle(&mut self)
        requires
            old(self).wf(),
        ensures
            final(self).cycle_post(old(self)),
    {
        if self.irq_enabled {
            let c = self.irq_counter;
            self.irq_counter = c.wrapping_add(1) & (IRQ_PERIOD - 1);
            proof {
                assert(c.wrapping_add(1) & 0x0FFF == ((c as int + 1) % 4096) as u16) by (bit_vector);
            }
            if self.irq_counter == 0 {
                self.irq_enabled = false;
                self.irq_pending = true;
            }
        }
    }

    pub fn irq_pending(&self) -> (p: bool)
        ensures
            p == self.spec_irq_pending(),
    {
        self.irq_pending
    }

    pub fn registers_snapshot(&self) -> (s: Vec<u8>)
        ensures
            s@ == self.snapshot(),
    {
        let mut data = self.base.banking_snapshot();
        data.push((self.irq_counter & 0xFF) as u8);
        data.push((self.irq_counter >> 8) as u8);
        data.push(if self.irq_enabled { 1u8 } else { 0u8 });
        data.push(if self.irq_pending { 1u8 } else { 0u8 });
        data.push(self.prg_bank_select);
        proof {
            assert(data@ =~= self.snapshot());
        }
        data
    }

    pub fn restore_registers(&mut self, data: &[u8])
        requires
            old(self).wf(),
        ensures
            final(self).restore_post(old(self), data@),
    {
        self.base.restore_banking(data);
        if data.len() >= BANKING_BYTES + 5 {
            self.irq_counter = (data[BANKING_BYTES] as u16) | ((data[BANKING_BYTES + 1] as u16) << 8);
            self.irq_enabled = data[BANKING_BYTES + 2] != 0;
            self.irq_pending = data[BANKING_BYTES + 3] != 0;
            self.prg_bank_select = data[BANKING_BYTES + 4] & 0x01;
        }
    }

    pub fn reset(&mut self)
        requires
            old(self).wf(),
        ensures
            final(self).reset_post(old(self)),
    {
        self.set_power_on_state();
    }

    /// Every CPU read is defined.
    pub open spec fn read_ok(&self, addr: u16) -> bool {
        true
    }

    pub open spec fn spec_mirroring(&self) -> NametableLayout {
        self.base.mirroring
    }

    pub open spec fn spec_read_chr(&self, addr: u16) -> u8 {
        self.base.spec_read_chr(addr)
    }

    /// State after a PPU write to pattern memory: CHR-RAM takes the byte.
    pub open spec fn write_chr_post(&self, old: &Self, addr: u16, value: u8) -> bool {
        &&& self.wf()
        &&& self.base.chr@ == (if old.base.chr_writable && old.base.chr_count() > 0 {
            old.base.chr@.update(old.base.chr_index(addr) as int, value)
        } else {
            old.base.chr@
        })
        &&& self.base.prg_pages@ == old.base.prg_pages@
        &&& self.base.chr_pages@ == old.base.chr_pages@
        &&& self.base.mirroring == old.base.mirroring
        &&& self.regs() == old.regs()
    }

    pub fn read_chr(&self, addr: u16) -> (v: u8)
        requires
            self.wf(),
        ensures
            v == self.spec_read_chr(addr),
    {
        self.base.read_chr(addr)
    }

    pub fn write_chr(&mut self, addr: u16, value: u8)
        requires
            old(self).wf(),
        ensures
            final(self).write_chr_post(old(self), addr, value),
    {
        self.base.write_chr(addr, value);
    }

    /// The board's memory and page tables.
    pub fn base(&self) -> (b: &BaseMapper)
        ensures
            *b == self.base,
    {
        &self.base
    }

    pub fn get_mirroring(&self) -> (m: NametableLayout)
        ensures
            m == self.spec_mirroring(),
    {
        self.base.mirroring
    }

    pub fn capabilities(&self) -> (c: MapperCapabilities)
        ensures
            c == self.base.capabilities,
    {
        self.base.capabilities
    }

    pub fn mapper_number(&self) -> (n: u16)
        ensures
            n == MAPPER_NUMBER,
    {
        MAPPER_NUMBER
    }

}

/// Restoring the snapshot of a mapper brings back its PRG pages (when they fit
/// in a byte) and its IRQ state.
/// The restored board then snapshots to the same bytes.
pub proof fn lemma_snapshot_roundtrip(m: Mapper304, before: Mapper304, restored: Mapper304)
    requires
        m.wf(),
        m.prg_bank_select <= 1,
        m.base.prg_count() == before.base.prg_count(),
        m.base.prg_count() <= 256,
        restored.restore_post(&before, m.snapshot()),
    ensures
        restored.regs() == m.regs(),
        restored.base.prg_pages@ == m.base.prg_pages@,
        restored.snapshot() == m.snapshot(),
{
    let s = m.snapshot();
    let c = m.irq_counter;
    let b = m.prg_bank_select;
    crate::bits::lemma_u16_bytes(c);
    assert(b & 0x01 == b) by (bit_vector)
        requires b <= 1;
    assert forall|i: int| 0 <= i < 8 implies #[trigger] restored.base.prg_pages@[i] == m.base.prg_pages@[i] by {
        assert(s[i] == m.base.prg_pages@[i] as u8);
        let p = m.base.prg_pages@[i];
        assert(p < 256);
        assert(p as u8 as int == p as int);
        if m.base.prg_count() > 0 {
            vstd::arithmetic::div_mod::lemma_small_mod(p as nat, m.base.prg_count());
        }
    }
    assert(restored.base.prg_pages@ =~= m.base.prg_pages@);
}

/// Once a write to `$4122` enables counting (counter cleared, no IRQ), the
/// IRQ comes up exactly at CPU cycle 4096 and not before; the counter then
/// stops.
pub proof fn lemma_irq_after_4096_cycles(m: Mapper304, k: nat)
    requires
        m.irq_enabled,
        m.irq_counter == 0,
        !m.irq_pending,
        k <= IRQ_PERIOD,
    ensures
        m.ticked_n(k).irq_pending == (k == IRQ_PERIOD),
        m.ticked_n(k).irq_enabled == (k < IRQ_PERIOD),
        m.ticked_n(k).irq_counter == (if k == IRQ_PERIOD { 0 } else { k }),
        m.ticked_n(k).base == m.base,
    decreases k,
{
    if k > 0 {
        lemma_irq_after_4096_cycles(m, (k - 1) as nat);
    }
}

} // verus!
