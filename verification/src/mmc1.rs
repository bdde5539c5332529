//! The MMC1 core: a five-bit serial port feeding four registers.
//!
//! A write to `$8000-$FFFF` with bit 7 set clears the shift register and
//! sets PRG mode 3. Otherwise bit 0 is shifted in (least significant bit
//! first); the fifth bit stores the shifted value into the register chosen
//! by address bits 14:13: control (`$8000`), CHR bank 0 (`$A000`), CHR bank 1
//! (`$C000`) or PRG bank (`$E000`). A serial write made on the CPU cycle
//! right after the previous one is ignored, as the hardware does for the
//! double writes of read-modify-write instructions.
//!
//! Banking follows the registers: PRG in 16 KiB slots (control bits 3:2:
//! 0/1 = 32 KiB, 2 = first bank fixed at `$8000`, 3 = last bank fixed at
//! `$C000`), CHR in 4 KiB slots (control bit 4: 0 = 8 KiB, 1 = two 4 KiB
//! banks), mirroring from control bits 1:0.
use vstd::prelude::*;
use crate::cartridge::{NametableLayout, MapperCapabilities, MapperContext, RamInitMode, ram_init_byte};
use crate::base_mapper::{BaseMapper, ram_bytes};

verus! {

pub const PRG_PAGE_SIZE: usize = 16 * 1024;
pub const CHR_PAGE_SIZE: usize = 4 * 1024;
pub const CONTROL_POWER_ON: u8 = 0x0C;
pub const SNAPSHOT_LEN: usize = 7;

/// The serial port and the four registers.
#[derive(Clone, Copy, Debug, PartialEq, Eq, Structural)]
pub struct Mmc1Regs {
    pub shift: u8,
    pub count: u8,
    pub control: u8,
    pub chr0: u8,
    pub chr1: u8,
    pub prg: u8,
}

pub open spec fn power_on_regs() -> Mmc1Regs {
    Mmc1Regs { shift: 0, count: 0, control: CONTROL_POWER_ON, chr0: 0, chr1: 0, prg: 0 }
}

/// The registers after an accepted serial write of `value` to `addr`.
pub open spec fn next_regs(r: Mmc1Regs, addr: u16, value: u8) -> Mmc1Regs {
    if value & 0x80 != 0 {
        Mmc1Regs { shift: 0, count: 0, control: r.control | 0x0C, ..r }
    } else {
        let shift = r.shift | ((value & 1) << r.count);
        let count = (r.count + 1) as u8;
        if count == 5 {
            let v = shift & 0x1F;
            let target = (addr >> 13) & 0x03;
            if target == 0 {
                Mmc1Regs { shift: 0, count: 0, control: v, ..r }
            } else if target == 1 {
                Mmc1Regs { shift: 0, count: 0, chr0: v, ..r }
            } else if target == 2 {
                Mmc1Regs { shift: 0, count: 0, chr1: v, ..r }
            } else {
                Mmc1Regs { shift: 0, count: 0, prg: v, ..r }
            }
        } else {
            Mmc1Regs { shift, count, ..r }
        }
    }
}

/// Mirroring selected by control bits 1:0.
pub open spec fn control_layout(control: u8) -> NametableLayout {
    let m = control & 0x03;
    if m == 0 {
        NametableLayout::SingleScreenLower
    } else if m == 1 {
        NametableLayout::SingleScreenUpper
    } else if m == 2 {
        NametableLayout::Vertical
    } else {
        NametableLayout::Horizontal
    }
}

/// Page numbers of the two 16 KiB PRG slots.
pub open spec fn prg_pages_of(r: Mmc1Regs) -> Seq<int> {
    let mode = (r.control >> 2) & 0x03;
    let bank = (r.prg & 0x0F) as int;
    if mode <= 1 {
        seq![(r.prg & 0x0E) as int, (r.prg & 0x0E) as int + 1]
    } else if mode == 2 {
        seq![0, bank]
    } else {
        seq![bank, -1]
    }
}

/// Page numbers of the two 4 KiB CHR slots.
pub open spec fn chr_pages_of(r: Mmc1Regs) -> Seq<int> {
    if r.control & 0x10 == 0 {
        seq![(r.chr0 & 0x1E) as int, (r.chr0 & 0x1E) as int + 1]
    } else {
        seq![(r.chr0 & 0x1F) as int, (r.chr1 & 0x1F) as int]
    }
}

pub struct MMC1Mapper {
    pub base: BaseMapper,
    pub regs: Mmc1Regs,
    /// CPU cycles since the last serial write (saturating).
    pub cycles_since_write: u8,
}

impl MMC1Mapper {
    pub open spec fn wf(&self) -> bool {
        &&& self.base.wf()
        &&& self.base.prg_page_size == PRG_PAGE_SIZE
        &&& self.base.chr_page_size == CHR_PAGE_SIZE
        &&& self.base.prg_pages@.len() == 2
        &&& self.base.chr_pages@.len() == 2
        &&& self.regs.count <= 4
    }

    /// The banks and mirroring agree with the registers.
    pub open spec fn applied(&self) -> bool {
        &&& self.base.shows_prg(prg_pages_of(self.regs))
        &&& self.base.shows_chr(chr_pages_of(self.regs))
        &&& self.base.mirroring == control_layout(self.regs.control)
    }

    /// Whether a serial write now would be accepted.
    pub open spec fn accepts_write(&self) -> bool {
        self.cycles_since_write != 1
    }

    pub open spec fn write_post(&self, old: &Self, addr: u16, value: u8) -> bool {
        &&& self.wf()
        &&& if addr >= 0x8000 {
            &&& self.cycles_since_write == 0
            &&& self.base.same_memory(&old.base)
            &&& if old.accepts_write() {
                &&& self.regs == next_regs(old.regs, addr, value)
                &&& self.applied()
            } else {
                &&& self.regs == old.regs
                &&& self.base.unchanged(&old.base)
            }
        } else {
            &&& self.regs == old.regs
            &&& self.cycles_since_write == old.cycles_since_write
            &&& self.base.same_layout(&old.base)
            &&& self.base.prg_pages@ == old.base.prg_pages@
            &&& self.base.chr_pages@ == old.base.chr_pages@
            &&& self.base.mirroring == old.base.mirroring
            &&& self.base.prg_ram@ == (if 0x6000 <= addr < 0x8000 && old.base.prg_ram@.len() > 0 {
                old.base.prg_ram@.update(((addr - 0x6000) as nat % old.base.prg_ram@.len()) as int, value)
            } else {
                old.base.prg_ram@
            })
        }
    }

    pub open spec fn snapshot(&self) -> Seq<u8> {
        seq![
            self.regs.shift,
            self.regs.count,
            self.regs.control,
            self.regs.chr0,
            self.regs.chr1,
            self.regs.prg,
            self.cycles_since_write,
        ]
    }

    /// Restores from the first bytes of `data`; too short data, or a shift
    /// count past 4, changes nothing.
    pub open spec fn restore_post(&self, old: &Self, data: Seq<u8>) -> bool {
        if data.len() < SNAPSHOT_LEN || data[1] > 4 {
            *self == *old
        } else {
            &&& self.wf()
            &&& self.snapshot() == data.subrange(0, SNAPSHOT_LEN as int)
            &&& self.base.same_memory(&old.base)
            &&& self.applied()
        }
    }

    pub fn new(ctx: &MapperContext, capabilities: MapperCapabilities) -> (m: Self)
        requires
            capabilities.max_prg_ram_kb <= 1024,
        ensures
            m.wf(),
            m.regs == power_on_regs(),
            m.cycles_since_write == 0xFF,
            m.applied(),
            m.base.prg_rom@ == ctx.prg_rom@,
            m.base.capabilities == capabilities,
            m.base.prg_ram@.len() == ram_bytes(ctx.prg_ram_banks as nat, capabilities.max_prg_ram_kb as nat),
            m.base.chr_from(ctx.chr_rom@),
    {
        let mut base = BaseMapper::new(ctx, capabilities);
        base.configure_prg_banking(PRG_PAGE_SIZE);
        base.configure_chr_banking(CHR_PAGE_SIZE);
        let regs = Mmc1Regs { shift: 0, count: 0, control: CONTROL_POWER_ON, chr0: 0, chr1: 0, prg: 0 };
        let mut m = MMC1Mapper { base, regs, cycles_since_write: 0xFF };
        m.apply_banks();
        m
    }

    pub fn control(&self) -> (c: u8)
        ensures
            c == self.regs.control,
    {
        self.regs.control
    }

    pub fn chr_bank_0(&self) -> (c: u8)
        ensures
            c == self.regs.chr0,
    {
        self.regs.chr0
    }

    pub fn chr_bank_1(&self) -> (c: u8)
        ensures
            c == self.regs.chr1,
    {
        self.regs.chr1
    }

    pub fn prg_bank(&self) -> (p: u8)
        ensures
            p == self.regs.prg,
    {
        self.regs.prg
    }

    /// Points the slots and the mirroring at what the registers select.
    pub fn apply_banks(&mut self)
        requires
            old(self).wf(),
        ensures
            final(self).wf(),
            final(self).regs == old(self).regs,
            final(self).cycles_since_write == old(self).cycles_since_write,
            final(self).base.same_memory(&old(self).base),
            final(self).applied(),
    {
        let r = self.regs;
        let ghost prg = prg_pages_of(r);
        let ghost chr = chr_pages_of(r);
        let mode = (r.control >> 2) & 0x03;
        let bank = (r.prg & 0x0F) as i16;
        if mode <= 1 {
            self.base.select_prg_page(0, (r.prg & 0x0E) as i16);
            self.base.select_prg_page(1, (r.prg & 0x0E) as i16 + 1);
        } else if mode == 2 {
            self.base.select_prg_page(0, 0);
            self.base.select_prg_page(1, bank);
        } else {
            self.base.select_prg_page(0, bank);
            self.base.select_prg_page(1, -1);
        }
        proof {
            self.base.lemma_shows_prg2(prg[0], prg[1]);
            assert(prg == seq![prg[0], prg[1]]);
        }
        if r.control & 0x10 == 0 {
            self.base.select_chr_page(0, (r.chr0 & 0x1E) as i16);
            self.base.select_chr_page(1, (r.chr0 & 0x1E) as i16 + 1);
        } else {
            self.base.select_chr_page(0, (r.chr0 & 0x1F) as i16);
            self.base.select_chr_page(1, (r.chr1 & 0x1F) as i16);
        }
        proof {
            self.base.lemma_shows_chr2(chr[0], chr[1]);
            assert(chr == seq![chr[0], chr[1]]);
        }
        let m = r.control & 0x03;
        let layout = if m == 0 {
            NametableLayout::SingleScreenLower
        } else if m == 1 {
            NametableLayout::SingleScreenUpper
        } else if m == 2 {
            NametableLayout::Vertical
        } else {
            NametableLayout::Horizontal
        };
        self.base.set_mirroring(layout);
    }

    fn serial_write(&mut self, addr: u16, value: u8)
        requires
            old(self).wf(),
        ensures
            final(self).wf(),
            final(self).regs == next_regs(old(self).regs, addr, value),
            final(self).base == old(self).base,
            final(self).cycles_since_write == old(self).cycles_since_write,
    {
        if value & 0x80 != 0 {
            self.regs.shift = 0;
            self.regs.count = 0;
            self.regs.control = self.regs.control | 0x0C;
            return;
        }
        let shift = self.regs.shift | ((value & 1) << self.regs.count);
        let count = self.regs.count + 1;
        if count == 5 {
            let v = shift & 0x1F;
            let target = (addr >> 13) & 0x03;
            self.regs.shift = 0;
            self.regs.count = 0;
            if target == 0 {
                self.regs.control = v;
            } else if target == 1 {
                self.regs.chr0 = v;
            } else if target == 2 {
                self.regs.chr1 = v;
            } else {
                self.regs.prg = v;
            }
        } else {
            self.regs.shift = shift;
            self.regs.count = count;
        }
    }

    pub fn write_prg(&mut self, addr: u16, value: u8)
        requires
            old(self).wf(),
        ensures
            final(self).write_post(old(self), addr, value),
    {
        if addr < 0x8000 {
            self.base.try_write_prg_ram(addr, value);
            return;
        }
        if self.cycles_since_write != 1 {
            self.serial_write(addr, value);
            self.apply_banks();
        }
        self.cycles_since_write = 0;
    }

    pub fn read_prg(&self, addr: u16) -> (v: u8)
        requires
            self.wf(),
        ensures
            v == self.base.spec_read_prg(addr),
    {
        self.base.read_prg(addr)
    }

    pub fn read_chr(&self, addr: u16) -> (v: u8)
        requires
            self.wf(),
        ensures
            v == self.base.spec_read_chr(addr),
    {
        self.base.read_chr(addr)
    }

    /// Counts CPU cycles since the last serial write.
    pub fn cpu_cycle(&mut self)
        requires
            old(self).wf(),
        ensures
            *final(self) == (MMC1Mapper {
                cycles_since_write: if old(self).cycles_since_write < 0xFF { (old(self).cycles_since_write + 1) as u8 } else { 0xFF },
                ..*old(self)
            }),
    {
        if self.cycles_since_write < 0xFF {
            self.cycles_since_write = self.cycles_since_write + 1;
        }
    }

    pub fn registers_snapshot(&self) -> (s: Vec<u8>)
        ensures
            s@ == self.snapshot(),
    {
        let s = vec![
            self.regs.shift,
            self.regs.count,
            self.regs.control,
            self.regs.chr0,
            self.regs.chr1,
            self.regs.prg,
            self.cycles_since_write,
        ];
        proof {
            assert(s@ =~= self.snapshot());
        }
        s
    }

    pub fn restore_registers(&mut self, data: &[u8])
        requires
            old(self).wf(),
        ensures
            final(self).restore_post(old(self), data@),
    {
        if data.len() < SNAPSHOT_LEN || data[1] > 4 {
            return;
        }
        self.regs = Mmc1Regs {
            shift: data[0],
            count: data[1],
            control: data[2],
            chr0: data[3],
            chr1: data[4],
            prg: data[5],
        };
        self.cycles_since_write = data[6];
        self.apply_banks();
        proof {
            assert(self.snapshot() =~= data@.subrange(0, SNAPSHOT_LEN as int));
        }
    }

    /// Registers back to power-on; banks and mirroring follow them.
    pub fn reset(&mut self)
        requires
            old(self).wf(),
        ensures
            final(self).wf(),
            final(self).regs == power_on_regs(),
            final(self).cycles_since_write == 0xFF,
            final(self).base.same_memory(&old(self).base),
            final(self).applied(),
    {
        self.regs = Mmc1Regs { shift: 0, count: 0, control: CONTROL_POWER_ON, chr0: 0, chr1: 0, prg: 0 };
        self.cycles_since_write = 0xFF;
        self.apply_banks();
    }

    pub fn initialize_ram(&mut self, mode: RamInitMode)
        requires
            old(self).wf(),
        ensures
            final(self).wf(),
            final(self).regs == old(self).regs,
            final(self).cycles_since_write == old(self).cycles_since_write,
            final(self).base.prg_ram@ == Seq::new(old(self).base.prg_ram@.len(), |i: int| ram_init_byte(mode)),
            final(self).base.same_layout(&old(self).base),
            final(self).base.prg_pages@ == old(self).base.prg_pages@,
            final(self).base.chr_pages@ == old(self).base.chr_pages@,
            final(self).base.mirroring == old(self).base.mirroring,
    {
        self.base.initialize_ram(mode);
    }
}

/// Five serial writes of the bits of a value, least significant first and
/// none of them a reset, load the value's low five bits into the register
/// chosen by the address of the fifth write.
pub proof fn lemma_five_writes_load_register(r: Mmc1Regs, addr: u16, v: u8, b0: u8, b1: u8, b2: u8, b3: u8, b4: u8)
    requires
        r.count == 0,
        r.shift == 0,
        b0 == (v & 1),
        b1 == ((v >> 1) & 1),
        b2 == ((v >> 2) & 1),
        b3 == ((v >> 3) & 1),
        b4 == ((v >> 4) & 1),
    ensures
        ({
            let r5 = next_regs(next_regs(next_regs(next_regs(next_regs(r, addr, b0), addr, b1), addr, b2), addr, b3), addr, b4);
            let target = (addr >> 13) & 0x03;
            &&& r5.count == 0
            &&& r5.shift == 0
            &&& target == 0 ==> r5.control == v & 0x1F
            &&& target == 1 ==> r5.chr0 == v & 0x1F
            &&& target == 2 ==> r5.chr1 == v & 0x1F
            &&& target == 3 ==> r5.prg == v & 0x1F
        }),
{
    assert((b0 & 0x80) == 0 && (b1 & 0x80) == 0 && (b2 & 0x80) == 0 && (b3 & 0x80) == 0 && (b4 & 0x80) == 0
        && (((((0u8 | ((b0 & 1) << 0u8)) | ((b1 & 1) << 1u8)) | ((b2 & 1) << 2u8)) | ((b3 & 1) << 3u8)) | ((b4 & 1) << 4u8)) & 0x1F == v & 0x1F)
        by (bit_vector)
        requires
            b0 == (v & 1),
            b1 == ((v >> 1) & 1),
            b2 == ((v >> 2) & 1),
            b3 == ((v >> 3) & 1),
            b4 == ((v >> 4) & 1);
}

/// On the MMC1 itself: five serial writes of the bits of `v` to one address
/// of `$8000-$FFFF`, each accepted by the write filter and with nothing else
/// touching the registers between them, load `v`'s low five bits into the
/// register that the address chooses, and the banks follow.
pub proof fn lemma_five_serial_writes(
    p0: MMC1Mapper, n0: MMC1Mapper, p1: MMC1Mapper, n1: MMC1Mapper, p2: MMC1Mapper, n2: MMC1Mapper,
    p3: MMC1Mapper, n3: MMC1Mapper, p4: MMC1Mapper, n4: MMC1Mapper, addr: u16, v: u8,
)
    requires
        addr >= 0x8000,
        p0.regs.count == 0,
        p0.regs.shift == 0,
        p0.accepts_write() && n0.write_post(&p0, addr, v & 1),
        p1.regs == n0.regs && p1.accepts_write() && n1.write_post(&p1, addr, (v >> 1) & 1),
        p2.regs == n1.regs && p2.accepts_write() && n2.write_post(&p2, addr, (v >> 2) & 1),
        p3.regs == n2.regs && p3.accepts_write() && n3.write_post(&p3, addr, (v >> 3) & 1),
        p4.regs == n3.regs && p4.accepts_write() && n4.write_post(&p4, addr, (v >> 4) & 1),
    ensures
        n4.regs.count == 0,
        n4.regs.shift == 0,
        (addr >> 13) & 0x03 == 0 ==> n4.regs.control == v & 0x1F,
        (addr >> 13) & 0x03 == 1 ==> n4.regs.chr0 == v & 0x1F,
        (addr >> 13) & 0x03 == 2 ==> n4.regs.chr1 == v & 0x1F,
        (addr >> 13) & 0x03 == 3 ==> n4.regs.prg == v & 0x1F,
        n4.applied(),
{
    lemma_five_writes_load_register(p0.regs, addr, v, v & 1, (v >> 1) & 1, (v >> 2) & 1, (v >> 3) & 1, (v >> 4) & 1);
}

} // verus!
