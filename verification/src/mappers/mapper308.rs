//! Mapper 308 - UNL-TH2131-1 (Batman bootleg): a VRC2b with its own IRQ.
//!
//! `$8000-$EFFF` and `$6000-$7FFF` behave as on the VRC2b. The IRQ registers
//! at `$F000-$FFFF` are decoded by `addr & $F003`:
//! - `$F000`: clears the IRQ, stops counting and resets the low counter.
//! - `$F001`: starts counting.
//! - `$F003`: loads the 4-bit high counter from bits 7:4.
//!
//! While counting, each CPU cycle increments a 12-bit low counter; when its
//! bit 11 turns on, the high counter is decremented (within 4 bits). The IRQ
//! is raised when the high counter is 0 and bit 11 of the low counter is off.
use vstd::prelude::*;
use crate::cartridge::{NametableLayout, MapperCapabilities, MapperContext, RamInitMode};
use crate::base_mapper::BaseMapper;
use crate::vrc2::Vrc2Mapper;
use crate::bits::flag_byte;

verus! {

pub const MAPPER_NUMBER: u16 = 308;
pub const IRQ_SNAPSHOT_BYTES: usize = 4;
pub const IRQ_COUNT_HIGH_MASK: u8 = 0x0F;

/// Mapper 308 - UNL-TH2131-1.
pub struct Mapper308 {
    pub inner: Vrc2Mapper,
    /// 4-bit high counter.
    pub irq_count_high: u8,
    /// Low counter (its low 12 bits count).
    pub irq_count_low: u16,
    pub irq_enabled: bool,
    pub irq_asserted: bool,
}

impl Mapper308 {
    pub open spec fn wf(&self) -> bool {
        self.inner.wf()
    }

    /// The board after one CPU cycle.
    pub open spec fn ticked(self) -> Mapper308 {
        if !self.irq_enabled {
            self
        } else {
            let prev = self.irq_count_low & 0x0FFF;
            let low = if self.irq_count_low == 0xFFFF { 0u16 } else { (self.irq_count_low + 1) as u16 };
            let curr = low & 0x0FFF;
            let high = if prev & 0x0800 == 0 && curr & 0x0800 != 0 {
                ((if self.irq_count_high == 0 { 0xFFu8 } else { (self.irq_count_high - 1) as u8 }) & IRQ_COUNT_HIGH_MASK) as u8
            } else {
                self.irq_count_high
            };
            Mapper308 {
                irq_count_low: low,
                irq_count_high: high,
                irq_asserted: self.irq_asserted || (high == 0 && curr & 0x0800 == 0),
                ..self
            }
        }
    }

    /// The board after `n` CPU cycles.
    pub open spec fn ticked_n(self, n: nat) -> Mapper308
        decreases n,
    {
        if n == 0 { self } else { self.ticked_n((n - 1) as nat).ticked() }
    }

    pub open spec fn write_post(&self, old: &Self, addr: u16, value: u8) -> bool {
        if addr >= 0xF000 {
            let reg = addr & 0xF003;
            if reg == 0xF000 {
                *self == (Mapper308 { irq_asserted: false, irq_enabled: false, irq_count_low: 0, ..*old })
            } else if reg == 0xF001 {
                *self == (Mapper308 { irq_enabled: true, ..*old })
            } else if reg == 0xF003 {
                *self == (Mapper308 { irq_count_high: (value >> 4) & IRQ_COUNT_HIGH_MASK, ..*old })
            } else {
                *self == *old
            }
        } else {
            &&& self.inner.write_post(&old.inner, addr, value)
            &&& self.irq_count_high == old.irq_count_high
            &&& self.irq_count_low == old.irq_count_low
            &&& self.irq_enabled == old.irq_enabled
            &&& self.irq_asserted == old.irq_asserted
        }
    }

    pub open spec fn snapshot(&self) -> Seq<u8> {
        seq![
            self.irq_count_high,
            (self.irq_count_low & 0xFF) as u8,
            (self.irq_count_low >> 8) as u8,
            flag_byte(self.irq_enabled, self.irq_asserted),
        ] + self.inner.snapshot()
    }

    pub open spec fn restore_post(&self, old: &Self, data: Seq<u8>) -> bool {
        if data.len() < IRQ_SNAPSHOT_BYTES {
            *self == *old
        } else {
            &&& self.irq_count_high == data[0]
            &&& self.irq_count_low == ((data[1] as u16) | ((data[2] as u16) << 8)) as u16
            &&& self.irq_enabled == (data[3] & 0x01 != 0)
            &&& self.irq_asserted == (data[3] & 0x02 != 0)
            &&& self.inner.restore_post(&old.inner, data.subrange(IRQ_SNAPSHOT_BYTES as int, data.len() as int))
        }
    }

    pub open spec fn reset_post(&self, old: &Self) -> bool {
        &&& self.wf()
        &&& self.inner.prg_regs@ == seq![0u8, 1]
        &&& self.inner.chr_regs@ == seq![0u8, 0, 0, 0, 0, 0, 0, 0]
        &&& self.inner.base.same_memory(&old.inner.base)
        &&& self.inner.base.mirroring == old.inner.base.mirroring
        &&& self.irq_count_high == 0
        &&& self.irq_count_low == 0
        &&& !self.irq_enabled
        &&& !self.irq_asserted
    }

    pub open spec fn spec_read_prg(&self, addr: u16) -> u8 {
        self.inner.base.spec_read_prg(addr)
    }

    pub open spec fn spec_read_chr(&self, addr: u16) -> u8 {
        self.inner.base.spec_read_chr(addr)
    }

    pub open spec fn read_ok(&self, addr: u16) -> bool {
        true
    }

    pub open spec fn spec_mirroring(&self) -> NametableLayout {
        self.inner.base.mirroring
    }

    pub open spec fn spec_irq_pending(&self) -> bool {
        self.irq_asserted
    }

    pub open spec fn cycle_ok(&self) -> bool {
        true
    }

    pub open spec fn cycle_post(&self, old: &Self) -> bool {
        *self == old.ticked()
    }

    pub open spec fn write_chr_post(&self, old: &Self, addr: u16, value: u8) -> bool {
        &&& self.wf()
        &&& self.inner.base.chr@ == (if old.inner.base.chr_writable && old.inner.base.chr_count() > 0 {
            old.inner.base.chr@.update(old.inner.base.chr_index(addr) as int, value)
        } else {
            old.inner.base.chr@
        })
        &&& self.inner.regs() == old.inner.regs()
        &&& self.inner.base.prg_pages@ == old.inner.base.prg_pages@
        &&& self.inner.base.chr_pages@ == old.inner.base.chr_pages@
        &&& self.inner.base.mirroring == old.inner.base.mirroring
        &&& self.irq_count_high == old.irq_count_high
        &&& self.irq_count_low == old.irq_count_low
        &&& self.irq_enabled == old.irq_enabled
        &&& self.irq_asserted == old.irq_asserted
    }

    pub fn new(ctx: MapperContext) -> (m: Self)
        ensures
            m.wf(),
            m.inner.prg_regs@ == seq![0u8, 1],
            m.inner.chr_regs@ == seq![0u8, 0, 0, 0, 0, 0, 0, 0],
            m.inner.base.mirroring == ctx.mirroring,
            m.irq_count_high == 0,
            m.irq_count_low == 0,
            !m.irq_enabled,
            !m.irq_asserted,
            m.inner.base.capabilities == (MapperCapabilities { has_irq: true, has_expansion_audio: false, has_chr_banking: true, has_dynamic_mirroring: true, max_prg_ram_kb: 8, prg_bank_size_kb: 8, chr_bank_size_kb: 1 }),
            m.inner.base.chr_from(ctx.chr_rom@),
            m.inner.base.prg_rom@ == ctx.prg_rom@,
    {
        let capabilities = MapperCapabilities {
            has_irq: true,
            has_expansion_audio: false,
            has_chr_banking: true,
            has_dynamic_mirroring: true,
            max_prg_ram_kb: 8,
            prg_bank_size_kb: 8,
            chr_bank_size_kb: 1,
        };
        Mapper308 {
            inner: Vrc2Mapper::new(&ctx, capabilities),
            irq_count_high: 0,
            irq_count_low: 0,
            irq_enabled: false,
            irq_asserted: false,
        }
    }

    fn handle_irq_write(&mut self, addr: u16, value: u8)
        requires
            addr >= 0xF000,
        ensures
            final(self).write_post(old(self), addr, value),
    {
        let reg = addr & 0xF003;
        if reg == 0xF000 {
            self.irq_asserted = false;
            self.irq_enabled = false;
            self.irq_count_low = 0;
        } else if reg == 0xF001 {
            self.irq_enabled = true;
        } else if reg == 0xF003 {
            self.irq_count_high = (value >> 4) & IRQ_COUNT_HIGH_MASK;
        }
    }

    fn tick_irq(&mut self)
        ensures
            *final(self) == old(self).ticked(),
    {
        if !self.irq_enabled {
            return;
        }
        let prev = self.irq_count_low & 0x0FFF;
        self.irq_count_low = if self.irq_count_low == 0xFFFF { 0 } else { self.irq_count_low + 1 };
        let curr = self.irq_count_low & 0x0FFF;
        if (prev & 0x0800) == 0 && (curr & 0x0800) != 0 {
            let h = if self.irq_count_high == 0 { 0xFFu8 } else { self.irq_count_high - 1 };
            self.irq_count_high = h & IRQ_COUNT_HIGH_MASK;
        }
        if self.irq_count_high == 0 && (curr & 0x0800) == 0 {
            self.irq_asserted = true;
        }
    }

    pub fn read_prg(&self, addr: u16) -> (v: u8)
        requires
            self.wf(),
        ensures
            v == self.spec_read_prg(addr),
    {
        self.inner.read_prg(addr)
    }

    pub fn write_prg(&mut self, addr: u16, value: u8)
        requires
            old(self).wf(),
        ensures
            final(self).write_post(old(self), addr, value),
    {
        if addr >= 0xF000 {
            self.handle_irq_write(addr, value);
        } else {
            self.inner.write_prg(addr, value);
        }
    }

    pub fn read_chr(&self, addr: u16) -> (v: u8)
        requires
            self.wf(),
        ensures
            v == self.spec_read_chr(addr),
    {
        self.inner.read_chr(addr)
    }

    pub fn write_chr(&mut self, addr: u16, value: u8)
        requires
            old(self).wf(),
        ensures
            final(self).write_chr_post(old(self), addr, value),
    {
        self.inner.base.write_chr(addr, value);
    }

    pub fn cpu_cycle(&mut self)
        requires
            old(self).wf(),
        ensures
            final(self).cycle_post(old(self)),
    {
        self.tick_irq();
    }

    pub fn irq_pending(&self) -> (p: bool)
        ensures
            p == self.spec_irq_pending(),
    {
        self.irq_asserted
    }

    pub fn wram_size(&self) -> (n: usize)
        ensures
            n == self.inner.base.prg_ram@.len(),
    {
        self.inner.base.wram_size()
    }

    pub fn wram_snapshot(&self) -> (s: Vec<u8>)
        ensures
            s@ == self.inner.base.prg_ram@,
    {
        self.inner.base.wram_snapshot()
    }

    pub fn load_wram_snapshot(&mut self, data: &[u8])
        requires
            old(self).wf(),
        ensures
            final(self).wf(),
            final(self).inner.regs() == old(self).inner.regs(),
            final(self).inner.base.prg_ram@ == (if data@.len() < old(self).inner.base.prg_ram@.len() {
                data@ + old(self).inner.base.prg_ram@.subrange(data@.len() as int, old(self).inner.base.prg_ram@.len() as int)
            } else {
                data@.subrange(0, old(self).inner.base.prg_ram@.len() as int)
            }),
    {
        self.inner.base.load_wram_snapshot(data);
    }

    pub fn initialize_ram(&mut self, mode: RamInitMode)
        requires
            old(self).wf(),
        ensures
            final(self).wf(),
            final(self).inner.regs() == old(self).inner.regs(),
            final(self).inner.base.prg_ram@ == Seq::new(old(self).inner.base.prg_ram@.len(), |i: int| crate::cartridge::ram_init_byte(mode)),
    {
        self.inner.initialize_ram(mode);
    }

    pub fn registers_snapshot(&self) -> (s: Vec<u8>)
        ensures
            s@ == self.snapshot(),
    {
        let flags = (if self.irq_enabled { 1u8 } else { 0u8 }) | ((if self.irq_asserted { 1u8 } else { 0u8 }) << 1);
        let mut s = vec![
            self.irq_count_high,
            (self.irq_count_low & 0xFF) as u8,
            (self.irq_count_low >> 8) as u8,
            flags,
        ];
        let inner = self.inner.registers_snapshot();
        let mut i: usize = 0;
        while i < inner.len()
            invariant
                0 <= i <= inner@.len(),
                s@ =~= seq![
                    self.irq_count_high,
                    (self.irq_count_low & 0xFF) as u8,
                    (self.irq_count_low >> 8) as u8,
                    flag_byte(self.irq_enabled, self.irq_asserted),
                ] + inner@.subrange(0, i as int),
            decreases inner@.len() - i,
        {
            s.push(inner[i]);
            i = i + 1;
        }
        proof {
            assert(inner@.subrange(0, inner@.len() as int) =~= inner@);
        }
        s
    }

    pub fn restore_registers(&mut self, data: &[u8])
        requires
            old(self).wf(),
        ensures
            final(self).restore_post(old(self), data@),
    {
        if data.len() < IRQ_SNAPSHOT_BYTES {
            return;
        }
        self.irq_count_high = data[0];
        self.irq_count_low = (data[1] as u16) | ((data[2] as u16) << 8);
        let flags = data[3];
        self.irq_enabled = (flags & 0x01) != 0;
        self.irq_asserted = (flags & 0x02) != 0;
        let mut rest: Vec<u8> = Vec::new();
        let mut i: usize = IRQ_SNAPSHOT_BYTES;
        while i < data.len()
            invariant
                IRQ_SNAPSHOT_BYTES <= i <= data@.len(),
                rest@ =~= data@.subrange(IRQ_SNAPSHOT_BYTES as int, i as int),
            decreases data@.len() - i,
        {
            rest.push(data[i]);
            i = i + 1;
        }
        self.inner.restore_registers(rest.as_slice());
    }

    pub fn reset(&mut self)
        requires
            old(self).wf(),
        ensures
            final(self).reset_post(old(self)),
    {
        self.inner.reset();
        self.irq_count_high = 0;
        self.irq_count_low = 0;
        self.irq_enabled = false;
        self.irq_asserted = false;
    }

    pub fn base(&self) -> (b: &BaseMapper)
        ensures
            *b == self.inner.base,
    {
        &self.inner.base
    }

    pub fn get_mirroring(&self) -> (m: NametableLayout)
        ensures
            m == self.spec_mirroring(),
    {
        self.inner.base.mirroring
    }

    pub fn capabilities(&self) -> (c: MapperCapabilities)
        ensures
            c == self.inner.base.capabilities,
    {
        self.inner.base.capabilities
    }

    pub fn mapper_number(&self) -> (n: u16)
        ensures
            n == MAPPER_NUMBER,
    {
        MAPPER_NUMBER
    }
}

/// Restoring a board from its own snapshot brings back the IRQ counters
/// and flags and every VRC2b register.
/// The restored board then snapshots to the same bytes.
pub proof fn lemma_snapshot_roundtrip(m: Mapper308, before: Mapper308, restored: Mapper308)
    requires
        m.wf(),
        restored.restore_post(&before, m.snapshot()),
    ensures
        restored.irq_count_high == m.irq_count_high,
        restored.irq_count_low == m.irq_count_low,
        restored.irq_enabled == m.irq_enabled,
        restored.irq_asserted == m.irq_asserted,
        restored.inner.regs() == m.inner.regs(),
        restored.inner.base.mirroring == m.inner.base.mirroring,
        restored.snapshot() == m.snapshot(),
{
    let s = m.snapshot();
    crate::bits::lemma_flag_byte(m.irq_enabled, m.irq_asserted);
    crate::bits::lemma_u16_bytes(m.irq_count_low);
    let rest = s.subrange(IRQ_SNAPSHOT_BYTES as int, s.len() as int);
    assert(rest =~= m.inner.snapshot());
    crate::cartridge::lemma_layout_byte_roundtrip(m.inner.base.mirroring);
    assert(restored.inner.prg_regs@ =~= m.inner.prg_regs@);
    assert(restored.inner.chr_regs@ =~= m.inner.chr_regs@);
    assert(restored.inner.snapshot() =~= m.inner.snapshot());
}

/// Bit 11 of the low counter as it counts from `x` to `x + 1`.
proof fn lemma_low_counter_bit11(x: u16)
    by (bit_vector)
    requires
        x < 0xFFFF,
    ensures
        ((x & 0x0FFF) & 0x0800 == 0 && ((((x + 1) as u16) & 0x0FFF) & 0x0800) != 0) == (((x + 1) as u16) % 4096 == 2048),
        ((((x + 1) as u16) & 0x0FFF) & 0x0800 == 0) == (((x + 1) as u16) % 4096 < 2048),
{
}

/// After `$F003` loads a high count `h` (1 to 15) and `$F001` starts
/// counting from a cleared low counter with no IRQ raised, the IRQ comes up
/// at CPU cycle `4096 * h` and not before.
pub proof fn lemma_irq_after_high_count(m: Mapper308, k: nat)
    requires
        m.irq_enabled,
        !m.irq_asserted,
        m.irq_count_low == 0,
        1 <= m.irq_count_high <= 15,
        k <= 4096 * m.irq_count_high,
    ensures
        m.ticked_n(k).irq_count_low == k,
        m.ticked_n(k).irq_count_high == m.irq_count_high - (k + 2048) / 4096,
        m.ticked_n(k).irq_asserted == (k == 4096 * m.irq_count_high),
        m.ticked_n(k).irq_enabled,
    decreases k,
{
    if k > 0 {
        lemma_irq_after_high_count(m, (k - 1) as nat);
        let prev = m.ticked_n((k - 1) as nat);
        assert(m.ticked_n(k) == prev.ticked());
        let x = prev.irq_count_low;
        lemma_low_counter_bit11(x);
        crate::bits::lemma_byte_fields((prev.irq_count_high - 1) as u8);
        assert(((x + 1) as u16) == k);
    }
}

} // verus!
