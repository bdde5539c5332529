//! Mapper 298 - TF-1201 (NTDEC).
//!
//! Four 8 KiB PRG slots: `$8000` shows `prg_regs[0]` (or the second-to-last
//! bank when the swap bit is set), `$A000` shows `prg_regs[1]`, `$C000` the
//! second-to-last bank (or `prg_regs[0]` when swapped), `$E000` the last
//! bank. Eight 1 KiB CHR slots are set a nibble at a time through
//! `$B000-$E003`. Writes are decoded as `(addr & 0xF003) | ((addr & 0x0C) >> 2)`.
//! A VRC-style IRQ counter counts up through a 341-step scaler decremented by
//! 3 each CPU cycle, raising an IRQ when it wraps to 0.
use vstd::prelude::*;
use crate::cartridge::{NametableLayout, MapperCapabilities, MapperContext, layout_byte, layout_from_byte};
use crate::base_mapper::BaseMapper;

verus! {

pub const MAPPER_NUMBER: u16 = 298;

pub open spec fn decode(addr: u16) -> u16 {
    (addr & 0xF003) | ((addr & 0x0C) >> 2)
}

/// CHR slot reached by a decoded register address in `$B000-$E003`.
pub open spec fn chr_slot_of(addr: u16) -> u16 {
    ((((addr >> 11) - 6) as u16) | (addr & 0x01)) & 0x07
}

/// CHR register after a nibble write at decoded address `addr`.
pub open spec fn chr_nibble(reg: u8, addr: u16, value: u8) -> u8 {
    let shift = (addr & 0x02) << 1;
    (reg & (0xF0u8 >> shift)) | ((value & 0x0F) << shift)
}

pub open spec fn prg_pages_of(prg_regs: Seq<u8>, swap: bool) -> Seq<int> {
    seq![
        if swap { -2 } else { prg_regs[0] as int },
        prg_regs[1] as int,
        if swap { prg_regs[0] as int } else { -2 },
        -1,
    ]
}

/// Mapper 298 - TF-1201.
pub struct Mapper298 {
    pub base: BaseMapper,
    /// `[0]` = `$8000` register, `[1]` = `$A000` register.
    pub prg_regs: [u8; 2],
    /// When set, `$8000` is fixed to the second-to-last bank and `$C000` shows `prg_regs[0]`.
    pub swap_prg: bool,
    /// Eight 1 KiB CHR bank registers.
    pub chr_regs: [u8; 8],
    pub irq_reload: u8,
    pub irq_counter: u8,
    pub irq_scaler: i16,
    pub irq_enabled: bool,
    pub irq_pending: bool,
}

/// The IRQ part of the state: `(reload, counter, scaler, enabled, pending)`.
pub type IrqState = (u8, u8, i16, bool, bool);

impl Mapper298 {
    pub open spec fn irq(&self) -> IrqState {
        (self.irq_reload, self.irq_counter, self.irq_scaler, self.irq_enabled, self.irq_pending)
    }

    pub open spec fn regs(&self) -> (Seq<u8>, bool, Seq<u8>, IrqState) {
        (self.prg_regs@, self.swap_prg, self.chr_regs@, self.irq())
    }

    pub open spec fn wf(&self) -> bool {
        &&& self.base.wf()
        &&& self.base.prg_page_size == 0x2000
        &&& self.base.chr_page_size == 0x0400
        &&& self.base.prg_pages@.len() == 4
        &&& self.base.chr_pages@.len() == 8
        &&& self.base.prg_ram@.len() == 0
        &&& !self.base.prg_6000_banked
        &&& self.prg_applied()
        &&& self.chr_applied()
    }

    /// The core well-formedness without the bank layout, for states in the
    /// middle of an update.
    pub open spec fn wf_shape(&self) -> bool {
        &&& self.base.wf()
        &&& self.base.prg_page_size == 0x2000
        &&& self.base.chr_page_size == 0x0400
        &&& self.base.prg_pages@.len() == 4
        &&& self.base.chr_pages@.len() == 8
        &&& self.base.prg_ram@.len() == 0
        &&& !self.base.prg_6000_banked
    }

    pub open spec fn prg_applied(&self) -> bool {
        self.base.shows_prg(prg_pages_of(self.prg_regs@, self.swap_prg))
    }

    pub open spec fn chr_applied(&self) -> bool {
        self.base.shows_chr(Seq::new(8, |i: int| self.chr_regs@[i] as int))
    }

    pub open spec fn irq_after_write(irq: IrqState, sel: u16, value: u8) -> IrqState {
        if sel == 0xF000 {
            ((irq.0 & 0xF0) | (value & 0x0F), irq.1, irq.2, irq.3, irq.4)
        } else if sel == 0xF001 {
            let enabled = value & 0x02 == 0x02;
            if enabled { (irq.0, irq.0, 341, true, false) } else { (irq.0, irq.1, irq.2, false, false) }
        } else if sel == 0xF002 {
            ((irq.0 & 0x0F) | (value << 4), irq.1, irq.2, irq.3, irq.4)
        } else if sel == 0xF003 {
            (irq.0, irq.1, irq.2, irq.3, false)
        } else {
            irq
        }
    }

    pub open spec fn write_post(&self, old: &Self, addr: u16, value: u8) -> bool {
        let d = decode(addr);
        &&& self.wf()
        &&& self.base.same_memory(&old.base)
        &&& if 0xB000 <= d <= 0xE003 {
            let slot = chr_slot_of(d) as int;
            &&& self.prg_regs@ == old.prg_regs@
            &&& self.swap_prg == old.swap_prg
            &&& self.chr_regs@ == old.chr_regs@.update(slot, chr_nibble(old.chr_regs@[slot], d, value))
            &&& self.irq() == old.irq()
            &&& self.base.prg_pages@ == old.base.prg_pages@
            &&& self.base.mirroring == old.base.mirroring
            &&& self.chr_applied()
        } else {
            &&& self.chr_regs@ == old.chr_regs@
            &&& self.base.chr_pages@ == old.base.chr_pages@
            &&& self.irq() == Self::irq_after_write(old.irq(), d, value)
            &&& self.prg_regs@ == (if d == 0x8000 {
                old.prg_regs@.update(0, value)
            } else if d == 0xA000 {
                old.prg_regs@.update(1, value)
            } else {
                old.prg_regs@
            })
            &&& self.swap_prg == (if d == 0x9001 { value & 0x03 != 0 } else { old.swap_prg })
            &&& self.base.mirroring == (if d == 0x9000 {
                if value & 0x01 != 0 { NametableLayout::Horizontal } else { NametableLayout::Vertical }
            } else {
                old.base.mirroring
            })
            &&& if d == 0x8000 || d == 0x9001 || d == 0xA000 {
                self.prg_applied()
            } else {
                self.base.prg_pages@ == old.base.prg_pages@
            }
        }
    }

    /// Whether a CPU cycle can be counted without the scaler leaving its range.
    pub open spec fn cycle_ok(&self) -> bool {
        self.irq_enabled ==> self.irq_scaler >= -32765
    }

    /// The board one CPU cycle later: an enabled scaler drops by 3; when it
    /// reaches 0 or below it is reloaded by 341 and the counter steps, raising
    /// the IRQ when it wraps to 0.
    pub open spec fn ticked(self) -> Mapper298 {
        if !self.irq_enabled {
            self
        } else if self.irq_scaler - 3 <= 0 {
            let c = ((self.irq_counter as int + 1) % 256) as u8;
            Mapper298 {
                irq_scaler: (self.irq_scaler - 3 + 341) as i16,
                irq_counter: c,
                irq_pending: self.irq_pending || c == 0,
                ..self
            }
        } else {
            Mapper298 { irq_scaler: (self.irq_scaler - 3) as i16, ..self }
        }
    }

    /// The board `n` CPU cycles later.
    pub open spec fn ticked_n(self, n: nat) -> Mapper298
        decreases n,
    {
        if n == 0 { self } else { self.ticked_n((n - 1) as nat).ticked() }
    }

    pub open spec fn cycle_post(&self, old: &Self) -> bool {
        *self == old.ticked()
    }

    pub open spec fn spec_irq_pending(&self) -> bool {
        self.irq_pending
    }

    pub open spec fn snapshot(&self) -> Seq<u8> {
        self.prg_regs@ + seq![if self.swap_prg { 1u8 } else { 0u8 }] + self.chr_regs@ + seq![
            self.irq_reload,
            self.irq_counter,
            ((self.irq_scaler as u16) & 0xFF) as u8,
            ((self.irq_scaler as u16) >> 8) as u8,
            (if self.irq_enabled { 1u8 } else { 0u8 }) | ((if self.irq_pending { 1u8 } else { 0u8 }) << 1),
            layout_byte(self.base.mirroring),
        ]
    }

    pub open spec fn restore_post(&self, old: &Self, data: Seq<u8>) -> bool {
        &&& self.wf()
        &&& self.base.same_memory(&old.base)
        &&& data.len() < 16 ==> self.regs() == old.regs() && self.base.unchanged(&old.base)
        &&& data.len() >= 16 ==> {
            &&& self.prg_regs@ == data.subrange(0, 2)
            &&& self.swap_prg == (data[2] != 0)
            &&& self.chr_regs@ == data.subrange(3, 11)
            &&& self.irq() == (
                data[11],
                data[12],
                ((data[13] as u16) | ((data[14] as u16) << 8)) as i16,
                data[15] & 0x01 != 0,
                data[15] & 0x02 != 0,
            )
            &&& self.base.mirroring == (if data.len() >= 17 { layout_from_byte(data[16]) } else { old.base.mirroring })
            &&& self.prg_applied()
            &&& self.chr_applied()
        }
    }

    pub open spec fn reset_post(&self, old: &Self) -> bool {
        &&& self.wf()
        &&& self.base.same_memory(&old.base)
        &&& self.base.mirroring == old.base.mirroring
        &&& self.prg_regs@ == seq![0u8, 0u8]
        &&& !self.swap_prg
        &&& self.chr_regs@ == Seq::new(8, |i: int| 0u8)
        &&& self.irq() == (0u8, 0u8, 0i16, false, false)
        &&& self.prg_applied()
        &&& self.chr_applied()
    }

    pub fn new(ctx: MapperContext) -> (m: Self)
        ensures
            m.wf(),
            m.prg_regs@ == seq![0u8, 0u8],
            !m.swap_prg,
            m.chr_regs@ == Seq::new(8, |i: int| 0u8),
            m.irq() == (0u8, 0u8, 0i16, false, false),
            m.prg_applied(),
            m.chr_applied(),
            m.base.mirroring == ctx.mirroring,
            m.base.prg_rom@ == ctx.prg_rom@,
            m.base.capabilities == (MapperCapabilities { has_irq: true, has_expansion_audio: false, has_chr_banking: true, has_dynamic_mirroring: true, prg_bank_size_kb: 8, chr_bank_size_kb: 1, max_prg_ram_kb: 0 }),
            m.base.chr_from(ctx.chr_rom@),
    {
        let capabilities = MapperCapabilities {
            has_irq: true,
            has_expansion_audio: false,
            has_chr_banking: true,
            has_dynamic_mirroring: true,
            prg_bank_size_kb: 8,
            chr_bank_size_kb: 1,
            max_prg_ram_kb: 0,
        };
        let mut base = BaseMapper::new(&ctx, capabilities);
        base.configure_prg_banking(0x2000);
        base.configure_chr_banking(0x0400);
        let mut mapper = Mapper298 {
            base,
            prg_regs: [0, 0],
            swap_prg: false,
            chr_regs: [0, 0, 0, 0, 0, 0, 0, 0],
            irq_reload: 0,
            irq_counter: 0,
            irq_scaler: 0,
            irq_enabled: false,
            irq_pending: false,
        };
        proof {
            assert(mapper.prg_regs@ =~= seq![0u8, 0u8]);
            assert(mapper.chr_regs@ =~= Seq::new(8, |i: int| 0u8));
        }
        mapper.update_prg();
        mapper.update_chr();
        mapper
    }

    fn update_prg(&mut self)
        requires
            old(self).wf_shape(),
        ensures
            final(self).wf_shape(),
            final(self).regs() == old(self).regs(),
            final(self).base.same_memory(&old(self).base),
            final(self).base.chr_pages@ == old(self).base.chr_pages@,
            final(self).base.mirroring == old(self).base.mirroring,
            final(self).prg_applied(),
            old(self).chr_applied() ==> final(self).chr_applied(),
    {
        if self.swap_prg {
            self.base.select_prg_page(0, -2);
            self.base.select_prg_page(2, self.prg_regs[0] as i16);
        } else {
            self.base.select_prg_page(0, self.prg_regs[0] as i16);
            self.base.select_prg_page(2, -2);
        }
        self.base.select_prg_page(1, self.prg_regs[1] as i16);
        self.base.select_prg_page(3, -1);
        proof {
            let ps = prg_pages_of(self.prg_regs@, self.swap_prg);
            self.base.lemma_shows_prg4(ps[0], ps[1], ps[2], ps[3]);
            assert(ps =~= seq![ps[0], ps[1], ps[2], ps[3]]);
        }
    }

    fn update_chr(&mut self)
        requires
            old(self).wf_shape(),
            old(self).prg_applied(),
        ensures
            final(self).wf(),
            final(self).regs() == old(self).regs(),
            final(self).base.same_memory(&old(self).base),
            final(self).base.prg_pages@ == old(self).base.prg_pages@,
            final(self).base.mirroring == old(self).base.mirroring,
            final(self).chr_applied(),
    {
        let mut i: usize = 0;
        while i < 8
            invariant
                0 <= i <= 8,
                self.wf_shape(),
                self.prg_applied(),
                self.regs() == old(self).regs(),
                self.base.same_memory(&old(self).base),
                self.base.prg_pages@ == old(self).base.prg_pages@,
                self.base.mirroring == old(self).base.mirroring,
                forall|j: int| 0 <= j < i ==> #[trigger] self.base.chr_pages@[j]
                    == crate::base_mapper::wrap_page(self.chr_regs@[j] as int, self.base.chr_count()),
            decreases 8 - i,
        {
            self.base.select_chr_page(i, self.chr_regs[i] as i16);
            i = i + 1;
        }
        proof {
            assert(self.chr_applied());
        }
    }

    fn write_chr_register(&mut self, raw_addr: u16, value: u8)
        requires
            old(self).wf(),
            0xB000 <= decode(raw_addr) <= 0xE003,
        ensures
            ({
                let d = decode(raw_addr);
                let slot = chr_slot_of(d) as int;
                &&& final(self).wf()
                &&& final(self).base.same_memory(&old(self).base)
                &&& final(self).prg_regs@ == old(self).prg_regs@
                &&& final(self).swap_prg == old(self).swap_prg
                &&& final(self).chr_regs@ == old(self).chr_regs@.update(slot, chr_nibble(old(self).chr_regs@[slot], d, value))
                &&& final(self).irq() == old(self).irq()
                &&& final(self).base.prg_pages@ == old(self).base.prg_pages@
                &&& final(self).base.mirroring == old(self).base.mirroring
                &&& final(self).chr_applied()
            }),
    {
        let addr = (raw_addr & 0xF003) | ((raw_addr & 0x0C) >> 2);
        proof {
            assert(addr >> 11 >= 6 && addr >> 11 <= 28) by (bit_vector)
                requires 0xB000 <= addr <= 0xE003;
        }
        let slot = (((addr >> 11) - 6) | (addr & 0x01)) & 0x07;
        let shift = (addr & 0x02) << 1;
        proof {
            assert(slot < 8 && shift <= 4) by (bit_vector)
                requires slot == ((((addr >> 11) - 6) as u16) | (addr & 0x01)) & 0x07, shift == (addr & 0x02) << 1;
        }
        let mask = 0xF0u8 >> shift;
        let s = slot as usize;
        self.chr_regs[s] = (self.chr_regs[s] & mask) | ((value & 0x0F) << shift);
        self.update_chr();
    }

    #[verifier::spinoff_prover]
    #[verifier::rlimit(40)]
    pub fn write_prg(&mut self, addr: u16, value: u8)
        requires
            old(self).wf(),
        ensures
            final(self).write_post(old(self), addr, value),
    {
        let _ = self.base.try_write_prg_ram(addr, value);
        let decoded = (addr & 0xF003) | ((addr & 0x0C) >> 2);
        if 0xB000 <= decoded && decoded <= 0xE003 {
            self.write_chr_register(addr, value);
            return;
        }
        let sel = decoded & 0xF003;
        proof {
            assert(decoded & 0xF003 == decoded) by (bit_vector)
                requires decoded == (addr & 0xF003) | ((addr & 0x0C) >> 2);
        }
        if sel == 0x8000 {
            self.prg_regs[0] = value;
            self.update_prg();
        } else if sel == 0x9000 {
            if value & 0x01 != 0 {
                self.base.set_mirroring(NametableLayout::Horizontal);
            } else {
                self.base.set_mirroring(NametableLayout::Vertical);
            }
        } else if sel == 0x9001 {
            self.swap_prg = (value & 0x03) != 0;
            self.update_prg();
        } else if sel == 0xA000 {
            self.prg_regs[1] = value;
            self.update_prg();
        } else if sel == 0xF000 {
            self.irq_reload = (self.irq_reload & 0xF0) | (value & 0x0F);
        } else if sel == 0xF001 {
            self.irq_enabled = (value & 0x02) == 0x02;
            if self.irq_enabled {
                self.irq_scaler = 341;
                self.irq_counter = self.irq_reload;
            }
            self.irq_pending = false;
        } else if sel == 0xF002 {
            self.irq_reload = (self.irq_reload & 0x0F) | (value << 4);
        } else if sel == 0xF003 {
            self.irq_pending = false;
        }
    }

    /// Counts one CPU cycle on the IRQ scaler.
    pub fn cpu_cycle(&mut self)
        requires
            old(self).wf(),
            old(self).cycle_ok(),
        ensures
            final(self).cycle_post(old(self)),
    {
        if !self.irq_enabled {
            return;
        }
        self.irq_scaler = self.irq_scaler - 3;
        if self.irq_scaler <= 0 {
            self.irq_scaler = self.irq_scaler + 341;
            self.irq_counter = self.irq_counter.wrapping_add(1);
            if self.irq_counter == 0 {
                self.irq_pending = true;
            }
        }
    }

    pub fn irq_pending(&self) -> (p: bool)
        ensures
            p == self.spec_irq_pending(),
    {
        self.irq_pending
    }

    pub fn registers_snapshot(&self) -> (s: Vec<u8>)
        ensures
            s@ == self.snapshot(),
    {
        let mut v: Vec<u8> = Vec::new();
        v.push(self.prg_regs[0]);
        v.push(self.prg_regs[1]);
        v.push(if self.swap_prg { 1u8 } else { 0u8 });
        let mut i: usize = 0;
        while i < 8
            invariant
                0 <= i <= 8,
                v@ =~= self.prg_regs@ + seq![if self.swap_prg { 1u8 } else { 0u8 }] + self.chr_regs@.subrange(0, i as int),
            decreases 8 - i,
        {
            v.push(self.chr_regs[i]);
            i = i + 1;
        }
        v.push(self.irq_reload);
        v.push(self.irq_counter);
        let scaler = self.irq_scaler as u16;
        v.push((scaler & 0xFF) as u8);
        v.push((scaler >> 8) as u8);
        v.push((if self.irq_enabled { 1u8 } else { 0u8 }) | ((if self.irq_pending { 1u8 } else { 0u8 }) << 1));
        v.push(self.base.mirroring.to_snapshot_byte());
        proof {
            assert(self.chr_regs@.subrange(0, 8) =~= self.chr_regs@);
            assert(v@ =~= self.snapshot());
        }
        v
    }

    pub fn restore_registers(&mut self, data: &[u8])
        requires
            old(self).wf(),
        ensures
            final(self).restore_post(old(self), data@),
    {
        if data.len() < 16 {
            return;
        }
        self.prg_regs = [data[0], data[1]];
        self.swap_prg = data[2] != 0;
        self.chr_regs = [data[3], data[4], data[5], data[6], data[7], data[8], data[9], data[10]];
        self.irq_reload = data[11];
        self.irq_counter = data[12];
        self.irq_scaler = ((data[13] as u16) | ((data[14] as u16) << 8)) as i16;
        self.irq_enabled = (data[15] & 0x01) != 0;
        self.irq_pending = (data[15] & 0x02) != 0;
        proof {
            assert(self.prg_regs@ =~= data@.subrange(0, 2));
            assert(self.chr_regs@ =~= data@.subrange(3, 11));
        }
        if data.len() >= 17 {
            let layout = NametableLayout::from_snapshot_byte(data[16]);
            self.base.set_mirroring(layout);
        }
        self.update_prg();
        self.update_chr();
    }

    pub fn reset(&mut self)
        requires
            old(self).wf(),
        ensures
            final(self).reset_post(old(self)),
    {
        self.prg_regs = [0, 0];
        self.swap_prg = false;
        self.chr_regs = [0, 0, 0, 0, 0, 0, 0, 0];
        self.irq_reload = 0;
        self.irq_counter = 0;
        self.irq_scaler = 0;
        self.irq_enabled = false;
        self.irq_pending = false;
        proof {
            assert(self.prg_regs@ =~= seq![0u8, 0u8]);
            assert(self.chr_regs@ =~= Seq::new(8, |i: int| 0u8));
        }
        self.update_prg();
        self.update_chr();
    }

    /// Every CPU read is defined.
    pub open spec fn read_ok(&self, addr: u16) -> bool {
        true
    }

    pub open spec fn spec_mirroring(&self) -> NametableLayout {
        self.base.mirroring
    }

    pub open spec fn spec_read_chr(&self, addr: u16) -> u8 {
        self.base.spec_read_chr(addr)
    }

    /// State after a PPU write to pattern memory: CHR-RAM takes the byte.
    pub open spec fn write_chr_post(&self, old: &Self, addr: u16, value: u8) -> bool {
        &&& self.wf()
        &&& self.base.chr@ == (if old.base.chr_writable && old.base.chr_count() > 0 {
            old.base.chr@.update(old.base.chr_index(addr) as int, value)
        } else {
            old.base.chr@
        })
        &&& self.base.prg_pages@ == old.base.prg_pages@
        &&& self.base.chr_pages@ == old.base.chr_pages@
        &&& self.base.mirroring == old.base.mirroring
        &&& self.regs() == old.regs()
    }

    pub fn read_chr(&self, addr: u16) -> (v: u8)
        requires
            self.wf(),
        ensures
            v == self.spec_read_chr(addr),
    {
        self.base.read_chr(addr)
    }

    pub fn write_chr(&mut self, addr: u16, value: u8)
        requires
            old(self).wf(),
        ensures
            final(self).write_chr_post(old(self), addr, value),
    {
        self.base.write_chr(addr, value);
    }

    pub open spec fn spec_read_prg(&self, addr: u16) -> u8 {
        self.base.spec_read_prg(addr)
    }

    pub fn read_prg(&self, addr: u16) -> (v: u8)
        requires
            self.wf(),
        ensures
            v == self.spec_read_prg(addr),
    {
        self.base.read_prg(addr)
    }

    /// The board's memory and page tables.
    pub fn base(&self) -> (b: &BaseMapper)
        ensures
            *b == self.base,
    {
        &self.base
    }

    pub fn get_mirroring(&self) -> (m: NametableLayout)
        ensures
            m == self.spec_mirroring(),
    {
        self.base.mirroring
    }

    pub fn capabilities(&self) -> (c: MapperCapabilities)
        ensures
            c == self.base.capabilities,
    {
        self.base.capabilities
    }

    pub fn mapper_number(&self) -> (n: u16)
        ensures
            n == MAPPER_NUMBER,
    {
        MAPPER_NUMBER
    }

}

/// Restoring the snapshot of a mapper brings back all of its registers,
/// its IRQ state and its mirroring.
/// The restored board then snapshots to the same bytes.
pub proof fn lemma_snapshot_roundtrip(m: Mapper298, before: Mapper298, restored: Mapper298)
    requires
        restored.restore_post(&before, m.snapshot()),
    ensures
        restored.regs() == m.regs(),
        restored.base.mirroring == m.base.mirroring,
        restored.snapshot() == m.snapshot(),
{
    let s = m.snapshot();
    assert(s.subrange(0, 2) =~= m.prg_regs@);
    assert(s.subrange(3, 11) =~= m.chr_regs@);
    let sc = m.irq_scaler;
    assert(((((sc as u16) & 0xFF) as u8 as u16) | ((((sc as u16) >> 8) as u8 as u16) << 8)) as i16 == sc) by (bit_vector);
    crate::bits::lemma_flag_byte(m.irq_enabled, m.irq_pending);
    crate::cartridge::lemma_layout_byte_roundtrip(m.base.mirroring);
}

/// Bounds of `x / 341` for a natural `x`.
proof fn lemma_div_341(x: int)
    requires
        x >= 0,
    ensures
        341 * (x / 341) <= x < 341 * (x / 341) + 341,
        x / 341 >= 0,
{
    vstd::arithmetic::div_mod::lemma_fundamental_div_mod(x, 341);
    vstd::arithmetic::div_mod::lemma_mod_bound(x, 341);
    vstd::arithmetic::div_mod::lemma_div_pos_is_pos(x, 341);
}

/// The IRQ counter after enabling (`$F001` with bit 1 set reloads the scaler
/// to 341): after `k` CPU cycles the counter has stepped `3k / 341` times,
/// and the IRQ is raised exactly from the cycle on which those steps carry
/// the counter past 255.
pub proof fn lemma_irq_after_cycles(m: Mapper298, k: nat)
    requires
        m.irq_enabled,
        m.irq_scaler == 341,
        !m.irq_pending,
    ensures
        m.ticked_n(k).irq_enabled,
        m.ticked_n(k).irq_scaler == 341 * (1 + (3 * k) / 341) - 3 * k,
        m.ticked_n(k).irq_counter == (m.irq_counter + (3 * k) / 341) % 256,
        m.ticked_n(k).irq_pending == (m.irq_counter + (3 * k) / 341 >= 256),
    decreases k,
{
    lemma_div_341((3 * k) as int);
    if k > 0 {
        let j = (k - 1) as nat;
        lemma_irq_after_cycles(m, j);
        lemma_div_341((3 * j) as int);
        let q = (3 * j) / 341;
        let q1 = (3 * k) / 341;
        let prev = m.ticked_n(j);
        assert(m.ticked_n(k) == prev.ticked());
        if prev.irq_scaler - 3 <= 0 {
            assert(q1 == q + 1);
            vstd::arithmetic::div_mod::lemma_add_mod_noop(m.irq_counter + q, 1, 256);
            vstd::arithmetic::div_mod::lemma_small_mod(1, 256);
            vstd::arithmetic::div_mod::lemma_mod_bound(m.irq_counter + q, 256);
            if m.irq_counter + q < 256 {
                vstd::arithmetic::div_mod::lemma_small_mod((m.irq_counter + q) as nat, 256);
            }
            if m.irq_counter + q + 1 < 256 {
                vstd::arithmetic::div_mod::lemma_small_mod((m.irq_counter + q + 1) as nat, 256);
            }
        } else {
            assert(q1 == q);
        }
    }
}

/// Restoring a board from the snapshot of another built from the same
/// cartridge makes the two read alike: the same PRG and CHR bytes at every
/// address, the same mirroring and IRQ line, and CPU cycles keep their IRQ
/// state equal.
pub proof fn lemma_restore_reads_alike(m: Mapper298, before: Mapper298, restored: Mapper298, addr: u16, k: nat)
    requires
        m.wf(),
        before.wf(),
        before.base.same_memory(&m.base),
        restored.restore_post(&before, m.snapshot()),
    ensures
        restored.spec_read_prg(addr) == m.spec_read_prg(addr),
        restored.spec_read_chr(addr) == m.spec_read_chr(addr),
        restored.spec_mirroring() == m.spec_mirroring(),
        restored.spec_irq_pending() == m.spec_irq_pending(),
        restored.ticked_n(k).irq() == m.ticked_n(k).irq(),
{
    lemma_snapshot_roundtrip(m, before, restored);
    assert(restored.base.prg_pages@ =~= m.base.prg_pages@);
    assert(restored.base.chr_pages@ =~= m.base.chr_pages@);
    lemma_ticked_irq_alike(m, restored, k);
}

/// CPU cycles act on the IRQ state alone.
proof fn lemma_ticked_irq_alike(a: Mapper298, b: Mapper298, k: nat)
    requires
        a.irq() == b.irq(),
    ensures
        a.ticked_n(k).irq() == b.ticked_n(k).irq(),
    decreases k,
{
    if k > 0 {
        lemma_ticked_irq_alike(a, b, (k - 1) as nat);
    }
}

} // verus!
