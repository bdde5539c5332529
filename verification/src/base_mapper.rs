//! Memory shared by every board: PRG-ROM/RAM and CHR behind switchable pages.
//!
//! The CPU window `$8000-$FFFF` is split into equal PRG slots and the PPU
//! window `$0000-$1FFF` into equal CHR slots. Each slot holds the index of the
//! page it shows. Page numbers handed to the `select_*` operations are reduced
//! modulo the number of pages in the memory (negative numbers count from the
//! end), so a slot always shows a page that exists.
use vstd::prelude::*;
use crate::cartridge::{NametableLayout, MapperCapabilities, MapperContext, RamInitMode, layout_hv, ram_init_byte};

verus! {

pub const PRG_WINDOW: usize = 0x8000;
pub const CHR_WINDOW: usize = 0x2000;
pub const PRG_6000_PAGE_SIZE: usize = 0x2000;
pub const CHR_RAM_DEFAULT: usize = 0x2000;

/// Number of whole pages of `size` bytes in `len` bytes.
pub open spec fn page_count(len: nat, size: nat) -> nat {
    if size == 0 { 0 } else { len / size }
}

/// The page a requested page number stands for: Euclidean remainder by the
/// page count, or 0 when there are no pages.
pub open spec fn wrap_page(page: int, count: nat) -> nat {
    if count == 0 { 0 } else { (page % (count as int)) as nat }
}

/// A stored page index is valid when it names an existing page (or is 0 when
/// there is none).
pub open spec fn valid_page(page: nat, count: nat) -> bool {
    if count == 0 { page == 0 } else { page < count }
}

/// Byte `off` of page `page` in `mem`, or 0 when the memory has no page.
pub open spec fn page_byte(mem: Seq<u8>, size: nat, page: nat, off: nat) -> u8 {
    if page_count(mem.len(), size) == 0 { 0 } else { mem[(page * size + off) as int] }
}

/// Alternative backing memory for the PPU pattern space.
pub struct ChrMemory {
    pub data: Vec<u8>,
    pub writable: bool,
}

impl ChrMemory {
    /// Zero-filled writable memory of `size` bytes.
    pub fn new_ram(size: usize) -> (m: ChrMemory)
        ensures
            m.data@ == Seq::new(size as nat, |i: int| 0u8),
            m.writable,
    {
        let data = vec![0u8; size];
        proof {
            assert(data@ =~= Seq::new(size as nat, |i: int| 0u8));
        }
        ChrMemory { data, writable: true }
    }
}

impl ChrMemory {
    /// Copies the leading bytes of `data` (at most the memory size) into the memory.
    pub fn load_snapshot(&mut self, data: &[u8])
        ensures
            final(self).writable == old(self).writable,
            final(self).data@ == (if data@.len() < old(self).data@.len() {
                data@ + old(self).data@.subrange(data@.len() as int, old(self).data@.len() as int)
            } else {
                data@.subrange(0, old(self).data@.len() as int)
            }),
    {
        let n = self.data.len();
        let len = if data.len() < n { data.len() } else { n };
        let mut i: usize = 0;
        while i < len
            invariant
                0 <= i <= len,
                n == old(self).data@.len(),
                len == (if data@.len() < n { data@.len() } else { n as nat }),
                self.writable == old(self).writable,
                self.data@ =~= data@.subrange(0, i as int) + old(self).data@.subrange(i as int, n as int),
            decreases len - i,
        {
            self.data.set(i, data[i]);
            i = i + 1;
        }
        proof {
            if data@.len() < n {
                assert(data@.subrange(0, len as int) =~= data@);
            }
        }
    }
}

pub proof fn lemma_page_index(page: nat, count: nat, size: nat, len: nat, off: nat)
    requires
        size > 0,
        count == len / size,
        page < count,
        off < size,
    ensures
        page * size + off < len,
        page * size + off < count * size,
{
    vstd::arithmetic::div_mod::lemma_fundamental_div_mod(len as int, size as int);
    assert(page * size + off < count * size) by (nonlinear_arith)
        requires page < count, off < size;
    assert(count * size <= len) by (nonlinear_arith)
        requires len == size * (len / size) + len % size, count == len / size, len % size >= 0;
}

/// 8 KiB of CHR-RAM seeded from CHR-ROM data: its first 8 KiB, padded with
/// zeros when it is shorter.
pub open spec fn seeded_chr_ram(chr_rom: Seq<u8>) -> Seq<u8> {
    if chr_rom.len() < 0x2000 {
        chr_rom + Seq::new((0x2000 - chr_rom.len()) as nat, |i: int| 0u8)
    } else {
        chr_rom.subrange(0, 0x2000)
    }
}

/// A byte stored into writable CHR memory reads back unchanged while the
/// CHR page tables stay as they were.
pub proof fn lemma_chr_write_read(before: BaseMapper, after: BaseMapper, addr: u16, value: u8)
    requires
        before.wf(),
        before.chr_writable,
        before.chr_count() > 0,
        after.chr@ == before.chr@.update(before.chr_index(addr) as int, value),
        after.chr_page_size == before.chr_page_size,
        after.chr_pages@ == before.chr_pages@,
    ensures
        after.spec_read_chr(addr) == value,
{
    let size = before.chr_page_size as nat;
    let off = (addr % 0x2000) as nat;
    lemma_slot_in_window(off, size, CHR_WINDOW as nat);
    let slot = (off / size) as int;
    assert(valid_page(before.chr_pages@[slot] as nat, before.chr_count()));
    lemma_page_index(before.chr_page(slot), before.chr_count(), size, before.chr@.len(), off % size);
    assert(after.chr_count() == before.chr_count());
    assert(after.chr_index(addr) == before.chr_index(addr));
}

pub proof fn lemma_slot_in_window(off: nat, size: nat, window: nat)
    requires
        size > 0,
        window % size == 0,
        off < window,
    ensures
        off / size < window / size,
        off % size < size,
{
    vstd::arithmetic::div_mod::lemma_fundamental_div_mod(window as int, size as int);
    vstd::arithmetic::div_mod::lemma_fundamental_div_mod(off as int, size as int);
    vstd::arithmetic::div_mod::lemma_mod_bound(off as int, size as int);
    assert(off / size < window / size) by (nonlinear_arith)
        requires
            window == size * (window / size),
            off == size * (off / size) + off % size,
            off % size >= 0,
            off < window,
            size > 0;
}

/// Reduces a signed page number to a stored page index.
pub fn wrap_page_exec(page: i16, count: usize) -> (r: usize)
    ensures
        r == wrap_page(page as int, count as nat),
        valid_page(r as nat, count as nat),
{
    if count == 0 {
        return 0;
    }
    if page >= 0 {
        (page as usize) % count
    } else {
        let k: usize = (-(page as i32)) as usize;
        let m: usize = k % count;
        proof {
            let q = (k / count) as int;
            vstd::arithmetic::div_mod::lemma_fundamental_div_mod(k as int, count as int);
            if m == 0 {
                assert(page as int == (-q) * count + 0) by (nonlinear_arith)
                    requires page as int == -(k as int), k as int == count * q + m, m == 0;
                vstd::arithmetic::div_mod::lemma_fundamental_div_mod_converse(page as int, count as int, -q, 0);
            } else {
                assert(page as int == (-q - 1) * count + (count - m)) by (nonlinear_arith)
                    requires page as int == -(k as int), k as int == count * q + m;
                vstd::arithmetic::div_mod::lemma_fundamental_div_mod_converse(page as int, count as int, -q - 1, (count - m) as int);
            }
        }
        if m == 0 { 0 } else { count - m }
    }
}

/// PRG-ROM, PRG-RAM and CHR memory with their page tables.
pub struct BaseMapper {
    pub prg_rom: Vec<u8>,
    pub prg_ram: Vec<u8>,
    pub chr: Vec<u8>,
    pub chr_writable: bool,
    /// Size of one PRG slot in `$8000-$FFFF`.
    pub prg_page_size: usize,
    /// Page shown in each PRG slot, in units of `prg_page_size`.
    pub prg_pages: Vec<usize>,
    /// Size of one CHR slot in `$0000-$1FFF`.
    pub chr_page_size: usize,
    pub chr_pages: Vec<usize>,
    /// Whether CHR banking was configured (its pages then join the banking snapshot).
    pub chr_banked: bool,
    /// Whether `$6000-$7FFF` shows an 8 KiB PRG-ROM page.
    pub prg_6000_banked: bool,
    pub prg_6000_page: usize,
    pub mirroring: NametableLayout,
    pub capabilities: MapperCapabilities,
    pub bus_conflicts: bool,
}

impl BaseMapper {
    /// CHR memory as a board built from an image with CHR-ROM `chr_rom` has
    /// it: that ROM, read-only, or 8 KiB of zeroed CHR-RAM when there is none.
    pub open spec fn chr_from(&self, chr_rom: Seq<u8>) -> bool {
        &&& chr_rom.len() > 0 ==> self.chr@ == chr_rom && !self.chr_writable
        &&& chr_rom.len() == 0 ==> self.chr@ == Seq::new(CHR_RAM_DEFAULT as nat, |i: int| 0u8) && self.chr_writable
    }

    pub open spec fn prg_count(&self) -> nat {
        page_count(self.prg_rom@.len(), self.prg_page_size as nat)
    }

    pub open spec fn chr_count(&self) -> nat {
        page_count(self.chr@.len(), self.chr_page_size as nat)
    }

    pub open spec fn prg_6000_count(&self) -> nat {
        page_count(self.prg_rom@.len(), PRG_6000_PAGE_SIZE as nat)
    }

    pub open spec fn prg_slots(&self) -> nat {
        (PRG_WINDOW / self.prg_page_size) as nat
    }

    pub open spec fn chr_slots(&self) -> nat {
        (CHR_WINDOW / self.chr_page_size) as nat
    }

    /// Well-formedness: slot sizes divide their windows and every slot names
    /// an existing page.
    pub open spec fn wf(&self) -> bool {
        &&& 0 < self.prg_page_size <= PRG_WINDOW
        &&& PRG_WINDOW % self.prg_page_size == 0
        &&& self.prg_pages@.len() == self.prg_slots()
        &&& forall|i: int| 0 <= i < self.prg_pages@.len() ==> valid_page(#[trigger] self.prg_pages@[i] as nat, self.prg_count())
        &&& 0 < self.chr_page_size <= CHR_WINDOW
        &&& CHR_WINDOW % self.chr_page_size == 0
        &&& self.chr_pages@.len() == self.chr_slots()
        &&& forall|i: int| 0 <= i < self.chr_pages@.len() ==> valid_page(#[trigger] self.chr_pages@[i] as nat, self.chr_count())
        &&& valid_page(self.prg_6000_page as nat, self.prg_6000_count())
    }

    /// The PRG slots show, in order, the pages that the numbers `pages` stand for.
    pub open spec fn shows_prg(&self, pages: Seq<int>) -> bool {
        &&& self.prg_pages@.len() == pages.len()
        &&& forall|i: int| 0 <= i < pages.len() ==> #[trigger] self.prg_pages@[i] == wrap_page(pages[i], self.prg_count())
    }

    /// The CHR slots show, in order, the pages that the numbers `pages` stand for.
    pub open spec fn shows_chr(&self, pages: Seq<int>) -> bool {
        &&& self.chr_pages@.len() == pages.len()
        &&& forall|i: int| 0 <= i < pages.len() ==> #[trigger] self.chr_pages@[i] == wrap_page(pages[i], self.chr_count())
    }

    /// `shows_prg` for two slots, from the two slot equations.
    pub proof fn lemma_shows_prg2(&self, p0: int, p1: int)
        requires
            self.prg_pages@.len() == 2,
            self.prg_pages@[0] == wrap_page(p0, self.prg_count()),
            self.prg_pages@[1] == wrap_page(p1, self.prg_count()),
        ensures
            self.shows_prg(seq![p0, p1]),
    {
        assert forall|i: int| 0 <= i < 2 implies #[trigger] self.prg_pages@[i] == wrap_page(seq![p0, p1][i], self.prg_count()) by {
            if i == 0 {} else {}
        }
    }

    /// `shows_prg` for four slots, from the four slot equations.
    pub proof fn lemma_shows_prg4(&self, p0: int, p1: int, p2: int, p3: int)
        requires
            self.prg_pages@.len() == 4,
            self.prg_pages@[0] == wrap_page(p0, self.prg_count()),
            self.prg_pages@[1] == wrap_page(p1, self.prg_count()),
            self.prg_pages@[2] == wrap_page(p2, self.prg_count()),
            self.prg_pages@[3] == wrap_page(p3, self.prg_count()),
        ensures
            self.shows_prg(seq![p0, p1, p2, p3]),
    {
        let ps = seq![p0, p1, p2, p3];
        assert forall|i: int| 0 <= i < 4 implies #[trigger] self.prg_pages@[i] == wrap_page(ps[i], self.prg_count()) by {
            if i == 0 {} else if i == 1 {} else if i == 2 {} else {}
        }
    }

    /// `shows_chr` for four slots.
    pub proof fn lemma_shows_chr4(&self, p0: int, p1: int, p2: int, p3: int)
        requires
            self.chr_pages@.len() == 4,
            self.chr_pages@[0] == wrap_page(p0, self.chr_count()),
            self.chr_pages@[1] == wrap_page(p1, self.chr_count()),
            self.chr_pages@[2] == wrap_page(p2, self.chr_count()),
            self.chr_pages@[3] == wrap_page(p3, self.chr_count()),
        ensures
            self.shows_chr(seq![p0, p1, p2, p3]),
    {
        let ps = seq![p0, p1, p2, p3];
        assert forall|i: int| 0 <= i < 4 implies #[trigger] self.chr_pages@[i] == wrap_page(ps[i], self.chr_count()) by {
            if i == 0 {} else if i == 1 {} else if i == 2 {} else {}
        }
    }

    /// `shows_chr` for two slots.
    pub proof fn lemma_shows_chr2(&self, p0: int, p1: int)
        requires
            self.chr_pages@.len() == 2,
            self.chr_pages@[0] == wrap_page(p0, self.chr_count()),
            self.chr_pages@[1] == wrap_page(p1, self.chr_count()),
        ensures
            self.shows_chr(seq![p0, p1]),
    {
        let ps = seq![p0, p1];
        assert forall|i: int| 0 <= i < 2 implies #[trigger] self.chr_pages@[i] == wrap_page(ps[i], self.chr_count()) by {
            if i == 0 {} else {}
        }
    }

    /// `shows_prg` for a single slot.
    pub proof fn lemma_shows_prg1(&self, p0: int)
        requires
            self.prg_pages@.len() == 1,
            self.prg_pages@[0] == wrap_page(p0, self.prg_count()),
        ensures
            self.shows_prg(seq![p0]),
    {
    }

    /// `shows_chr` for a single slot.
    pub proof fn lemma_shows_chr1(&self, p0: int)
        requires
            self.chr_pages@.len() == 1,
            self.chr_pages@[0] == wrap_page(p0, self.chr_count()),
        ensures
            self.shows_chr(seq![p0]),
    {
    }

    /// Page currently shown in PRG slot `slot`.
    pub open spec fn prg_page(&self, slot: int) -> nat {
        self.prg_pages@[slot] as nat
    }

    pub open spec fn chr_page(&self, slot: int) -> nat {
        self.chr_pages@[slot] as nat
    }

    /// What the CPU reads from banked PRG-ROM at `addr` (0 below `$8000`).
    pub open spec fn spec_read_prg_rom(&self, addr: u16) -> u8 {
        if addr < 0x8000 {
            0
        } else {
            let off = (addr - 0x8000) as nat;
            let size = self.prg_page_size as nat;
            page_byte(self.prg_rom@, size, self.prg_page((off / size) as int), off % size)
        }
    }

    /// What PRG-RAM holds at `addr`, if `addr` is in `$6000-$7FFF` and there is RAM.
    pub open spec fn spec_prg_ram(&self, addr: u16) -> Option<u8> {
        if 0x6000 <= addr < 0x8000 && self.prg_ram@.len() > 0 {
            Some(self.prg_ram@[((addr - 0x6000) as nat % self.prg_ram@.len()) as int])
        } else {
            None
        }
    }

    /// What the ROM page mapped at `$6000-$7FFF` shows at `addr`, if that window is banked.
    pub open spec fn spec_prg_6000(&self, addr: u16) -> Option<u8> {
        if self.prg_6000_banked && 0x6000 <= addr < 0x8000 {
            Some(page_byte(self.prg_rom@, PRG_6000_PAGE_SIZE as nat, self.prg_6000_page as nat, (addr - 0x6000) as nat))
        } else {
            None
        }
    }

    /// The default CPU read: banked ROM at `$6000-$7FFF` if configured, else
    /// PRG-RAM, else 0; banked ROM at `$8000-$FFFF`; 0 elsewhere.
    pub open spec fn spec_read_prg(&self, addr: u16) -> u8 {
        if 0x6000 <= addr < 0x8000 {
            match self.spec_prg_6000(addr) {
                Some(v) => v,
                None => match self.spec_prg_ram(addr) {
                    Some(v) => v,
                    None => 0,
                },
            }
        } else {
            self.spec_read_prg_rom(addr)
        }
    }

    /// Index into CHR memory of PPU address `addr`.
    pub open spec fn chr_index(&self, addr: u16) -> nat {
        let off = (addr % 0x2000) as nat;
        let size = self.chr_page_size as nat;
        self.chr_page((off / size) as int) * size + off % size
    }

    pub open spec fn spec_read_chr(&self, addr: u16) -> u8 {
        if self.chr_count() == 0 { 0 } else { self.chr@[self.chr_index(addr) as int] }
    }

    /// Everything except the page tables, the `$6000` page and mirroring is unchanged.
    pub open spec fn same_memory(&self, other: &BaseMapper) -> bool {
        &&& self.prg_rom@ == other.prg_rom@
        &&& self.prg_ram@ == other.prg_ram@
        &&& self.chr@ == other.chr@
        &&& self.chr_writable == other.chr_writable
        &&& self.prg_page_size == other.prg_page_size
        &&& self.chr_page_size == other.chr_page_size
        &&& self.chr_banked == other.chr_banked
        &&& self.prg_6000_banked == other.prg_6000_banked
        &&& self.capabilities == other.capabilities
        &&& self.bus_conflicts == other.bus_conflicts
    }

    /// Nothing observable changed: memory, page tables, `$6000` page and mirroring.
    pub open spec fn unchanged(&self, old: &BaseMapper) -> bool {
        &&& self.same_memory(old)
        &&& self.prg_pages@ == old.prg_pages@
        &&& self.chr_pages@ == old.chr_pages@
        &&& self.prg_6000_page == old.prg_6000_page
        &&& self.mirroring == old.mirroring
    }

    /// `same_memory`, and the PRG-RAM too may have changed.
    pub open spec fn same_layout(&self, other: &BaseMapper) -> bool {
        &&& self.prg_rom@ == other.prg_rom@
        &&& self.prg_ram@.len() == other.prg_ram@.len()
        &&& self.chr@ == other.chr@
        &&& self.chr_writable == other.chr_writable
        &&& self.prg_page_size == other.prg_page_size
        &&& self.chr_page_size == other.chr_page_size
        &&& self.chr_banked == other.chr_banked
        &&& self.prg_6000_banked == other.prg_6000_banked
        &&& self.capabilities == other.capabilities
        &&& self.bus_conflicts == other.bus_conflicts
    }

    /// Builds the memory of a board from its context. CHR is RAM of 8 KiB when
    /// the context has no CHR-ROM. PRG-RAM is `prg_ram_banks` 8 KiB banks,
    /// capped at the board's maximum.
    pub fn new(ctx: &MapperContext, capabilities: MapperCapabilities) -> (b: BaseMapper)
        requires
            capabilities.max_prg_ram_kb <= 1024,
        ensures
            b.wf(),
            b.prg_rom@ == ctx.prg_rom@,
            ctx.chr_rom@.len() > 0 ==> b.chr@ == ctx.chr_rom@ && !b.chr_writable,
            ctx.chr_rom@.len() == 0 ==> b.chr@ == Seq::new(CHR_RAM_DEFAULT as nat, |i: int| 0u8) && b.chr_writable,
            b.prg_ram@.len() == ram_bytes(ctx.prg_ram_banks as nat, capabilities.max_prg_ram_kb as nat),
            b.prg_page_size == PRG_WINDOW,
            b.chr_page_size == CHR_WINDOW,
            b.prg_pages@ == seq![0usize],
            b.chr_pages@ == seq![0usize],
            !b.chr_banked,
            !b.prg_6000_banked,
            b.prg_6000_page == 0,
            b.mirroring == ctx.mirroring,
            b.capabilities == capabilities,
            !b.bus_conflicts,
    {
        let prg_rom = ctx.prg_rom.clone();
        let (chr, chr_writable) = if ctx.chr_rom.len() == 0 {
            let ram = ChrMemory::new_ram(CHR_RAM_DEFAULT);
            (ram.data, true)
        } else {
            (ctx.chr_rom.clone(), false)
        };
        let max_kb = capabilities.max_prg_ram_kb;
        let kb: usize = if ctx.prg_ram_banks >= max_kb / 8 + 1 {
            max_kb
        } else if ctx.prg_ram_banks * 8 < max_kb {
            ctx.prg_ram_banks * 8
        } else {
            max_kb
        };
        let prg_ram = vec![0u8; kb * 1024];
        let b = BaseMapper {
            prg_rom,
            prg_ram,
            chr,
            chr_writable,
            prg_page_size: PRG_WINDOW,
            prg_pages: vec![0usize],
            chr_page_size: CHR_WINDOW,
            chr_pages: vec![0usize],
            chr_banked: false,
            prg_6000_banked: false,
            prg_6000_page: 0,
            mirroring: ctx.mirroring,
            capabilities,
            bus_conflicts: false,
        };
        proof {
            assert(b.prg_rom@ =~= ctx.prg_rom@);
            if ctx.chr_rom@.len() > 0 {
                assert(b.chr@ =~= ctx.chr_rom@);
            }
        }
        b
    }

    /// Splits `$8000-$FFFF` into slots of `size` bytes, all showing page 0.
    pub fn configure_prg_banking(&mut self, size: usize)
        requires
            old(self).wf(),
            0 < size <= PRG_WINDOW,
            PRG_WINDOW % size == 0,
        ensures
            final(self).wf(),
            final(self).prg_page_size == size,
            final(self).prg_pages@ == Seq::new((PRG_WINDOW / size) as nat, |i: int| 0usize),
            final(self).same_memory_except_prg_size(old(self)),
            final(self).chr_pages@ == old(self).chr_pages@,
            final(self).prg_6000_page == old(self).prg_6000_page,
            final(self).mirroring == old(self).mirroring,
    {
        let slots = PRG_WINDOW / size;
        self.prg_page_size = size;
        self.prg_pages = vec![0usize; slots];
        proof {
            assert(self.prg_pages@ =~= Seq::new((PRG_WINDOW / size) as nat, |i: int| 0usize));
        }
    }

    pub open spec fn same_memory_except_prg_size(&self, other: &BaseMapper) -> bool {
        &&& self.prg_rom@ == other.prg_rom@
        &&& self.prg_ram@ == other.prg_ram@
        &&& self.chr@ == other.chr@
        &&& self.chr_writable == other.chr_writable
        &&& self.chr_page_size == other.chr_page_size
        &&& self.chr_banked == other.chr_banked
        &&& self.prg_6000_banked == other.prg_6000_banked
        &&& self.capabilities == other.capabilities
        &&& self.bus_conflicts == other.bus_conflicts
    }

    /// Splits `$0000-$1FFF` into slots of `size` bytes, all showing page 0.
    pub fn configure_chr_banking(&mut self, size: usize)
        requires
            old(self).wf(),
            0 < size <= CHR_WINDOW,
            CHR_WINDOW % size == 0,
        ensures
            final(self).wf(),
            final(self).chr_page_size == size,
            final(self).chr_banked,
            final(self).chr_pages@ == Seq::new((CHR_WINDOW / size) as nat, |i: int| 0usize),
            final(self).prg_rom@ == old(self).prg_rom@,
            final(self).prg_ram@ == old(self).prg_ram@,
            final(self).chr@ == old(self).chr@,
            final(self).chr_writable == old(self).chr_writable,
            final(self).prg_page_size == old(self).prg_page_size,
            final(self).prg_pages@ == old(self).prg_pages@,
            final(self).prg_6000_banked == old(self).prg_6000_banked,
            final(self).prg_6000_page == old(self).prg_6000_page,
            final(self).mirroring == old(self).mirroring,
            final(self).capabilities == old(self).capabilities,
            final(self).bus_conflicts == old(self).bus_conflicts,
    {
        let slots = CHR_WINDOW / size;
        self.chr_page_size = size;
        self.chr_pages = vec![0usize; slots];
        self.chr_banked = true;
        proof {
            assert(self.chr_pages@ =~= Seq::new((CHR_WINDOW / size) as nat, |i: int| 0usize));
        }
    }

    /// Makes `$6000-$7FFF` show 8 KiB PRG-ROM page 0.
    pub fn configure_prg_6000_banking(&mut self)
        requires
            old(self).wf(),
        ensures
            final(self).wf(),
            final(self).prg_6000_banked,
            final(self).prg_6000_page == 0,
            final(self).prg_rom@ == old(self).prg_rom@,
            final(self).prg_ram@ == old(self).prg_ram@,
            final(self).chr@ == old(self).chr@,
            final(self).chr_writable == old(self).chr_writable,
            final(self).prg_page_size == old(self).prg_page_size,
            final(self).prg_pages@ == old(self).prg_pages@,
            final(self).chr_page_size == old(self).chr_page_size,
            final(self).chr_pages@ == old(self).chr_pages@,
            final(self).chr_banked == old(self).chr_banked,
            final(self).mirroring == old(self).mirroring,
            final(self).capabilities == old(self).capabilities,
            final(self).bus_conflicts == old(self).bus_conflicts,
    {
        self.prg_6000_banked = true;
        self.prg_6000_page = 0;
    }

    /// Replaces CHR memory; every CHR slot is set back to page 0.
    pub fn set_chr_memory(&mut self, mem: ChrMemory)
        requires
            old(self).wf(),
        ensures
            final(self).wf(),
            final(self).chr@ == mem.data@,
            final(self).chr_writable == mem.writable,
            final(self).chr_pages@ == Seq::new(old(self).chr_pages@.len(), |i: int| 0usize),
            final(self).prg_rom@ == old(self).prg_rom@,
            final(self).prg_ram@ == old(self).prg_ram@,
            final(self).prg_page_size == old(self).prg_page_size,
            final(self).prg_pages@ == old(self).prg_pages@,
            final(self).chr_page_size == old(self).chr_page_size,
            final(self).chr_banked == old(self).chr_banked,
            final(self).prg_6000_banked == old(self).prg_6000_banked,
            final(self).prg_6000_page == old(self).prg_6000_page,
            final(self).mirroring == old(self).mirroring,
            final(self).capabilities == old(self).capabilities,
            final(self).bus_conflicts == old(self).bus_conflicts,
    {
        let slots = self.chr_pages.len();
        self.chr = mem.data;
        self.chr_writable = mem.writable;
        self.chr_pages = vec![0usize; slots];
        proof {
            assert(self.chr_pages@ =~= Seq::new(old(self).chr_pages@.len(), |i: int| 0usize));
        }
    }

    pub fn set_bus_conflicts(&mut self, enabled: bool)
        requires
            old(self).wf(),
        ensures
            final(self).wf(),
            final(self).bus_conflicts == enabled,
            final(self).prg_rom@ == old(self).prg_rom@,
            final(self).prg_ram@ == old(self).prg_ram@,
            final(self).chr@ == old(self).chr@,
            final(self).chr_writable == old(self).chr_writable,
            final(self).prg_page_size == old(self).prg_page_size,
            final(self).prg_pages@ == old(self).prg_pages@,
            final(self).chr_page_size == old(self).chr_page_size,
            final(self).chr_pages@ == old(self).chr_pages@,
            final(self).chr_banked == old(self).chr_banked,
            final(self).prg_6000_banked == old(self).prg_6000_banked,
            final(self).prg_6000_page == old(self).prg_6000_page,
            final(self).mirroring == old(self).mirroring,
            final(self).capabilities == old(self).capabilities,
    {
        self.bus_conflicts = enabled;
    }

    /// Shows page `page` (reduced modulo the page count) in PRG slot `slot`;
    /// a slot past the last one is ignored.
    pub fn select_prg_page(&mut self, slot: usize, page: i16)
        requires
            old(self).wf(),
        ensures
            final(self).wf(),
            final(self).prg_pages@.len() == old(self).prg_pages@.len(),
            forall|i: int| 0 <= i < old(self).prg_pages@.len() && i != slot ==> final(self).prg_pages@[i] == old(self).prg_pages@[i],
            slot < old(self).prg_pages@.len() ==> final(self).prg_pages@[slot as int] == wrap_page(page as int, old(self).prg_count()),
            final(self).same_memory(old(self)),
            final(self).chr_pages@ == old(self).chr_pages@,
            final(self).prg_6000_page == old(self).prg_6000_page,
            final(self).mirroring == old(self).mirroring,
    {
        if slot < self.prg_pages.len() {
            let count = self.prg_rom.len() / self.prg_page_size;
            let p = wrap_page_exec(page, count);
            self.prg_pages.set(slot, p);
        }
    }

    /// Shows page `page` (reduced modulo the page count) in CHR slot `slot`;
    /// a slot past the last one is ignored.
    pub fn select_chr_page(&mut self, slot: usize, page: i16)
        requires
            old(self).wf(),
        ensures
            final(self).wf(),
            final(self).chr_pages@.len() == old(self).chr_pages@.len(),
            forall|i: int| 0 <= i < old(self).chr_pages@.len() && i != slot ==> final(self).chr_pages@[i] == old(self).chr_pages@[i],
            slot < old(self).chr_pages@.len() ==> final(self).chr_pages@[slot as int] == wrap_page(page as int, old(self).chr_count()),
            final(self).same_memory(old(self)),
            final(self).prg_pages@ == old(self).prg_pages@,
            final(self).prg_6000_page == old(self).prg_6000_page,
            final(self).mirroring == old(self).mirroring,
    {
        if slot < self.chr_pages.len() {
            let count = self.chr.len() / self.chr_page_size;
            let p = wrap_page_exec(page, count);
            self.chr_pages.set(slot, p);
        }
    }

    /// Shows 8 KiB PRG-ROM page `page` (reduced modulo the page count) at `$6000-$7FFF`.
    pub fn select_prg_6000_page(&mut self, page: i16)
        requires
            old(self).wf(),
        ensures
            final(self).wf(),
            final(self).prg_6000_page == wrap_page(page as int, old(self).prg_6000_count()),
            final(self).same_memory(old(self)),
            final(self).prg_pages@ == old(self).prg_pages@,
            final(self).chr_pages@ == old(self).chr_pages@,
            final(self).mirroring == old(self).mirroring,
    {
        let count = self.prg_rom.len() / PRG_6000_PAGE_SIZE;
        self.prg_6000_page = wrap_page_exec(page, count);
    }

    pub fn set_mirroring(&mut self, layout: NametableLayout)
        requires
            old(self).wf(),
        ensures
            final(self).wf(),
            final(self).mirroring == layout,
            final(self).same_memory(old(self)),
            final(self).prg_pages@ == old(self).prg_pages@,
            final(self).chr_pages@ == old(self).chr_pages@,
            final(self).prg_6000_page == old(self).prg_6000_page,
    {
        self.mirroring = layout;
    }

    /// Horizontal mirroring when `horizontal`, vertical otherwise.
    pub fn set_mirroring_hv(&mut self, horizontal: bool)
        requires
            old(self).wf(),
        ensures
            final(self).wf(),
            final(self).mirroring == layout_hv(horizontal),
            final(self).same_memory(old(self)),
            final(self).prg_pages@ == old(self).prg_pages@,
            final(self).chr_pages@ == old(self).chr_pages@,
            final(self).prg_6000_page == old(self).prg_6000_page,
    {
        if horizontal {
            self.mirroring = NametableLayout::Horizontal;
        } else {
            self.mirroring = NametableLayout::Vertical;
        }
    }

    pub fn mirroring(&self) -> (m: NametableLayout)
        ensures
            m == self.mirroring,
    {
        self.mirroring
    }

    pub fn capabilities(&self) -> (c: MapperCapabilities)
        ensures
            c == self.capabilities,
    {
        self.capabilities
    }

    pub fn prg_rom(&self) -> (r: &Vec<u8>)
        ensures
            r@ == self.prg_rom@,
    {
        &self.prg_rom
    }

    /// Number of whole PRG pages of the configured slot size.
    pub fn prg_bank_count(&self) -> (n: usize)
        requires
            self.wf(),
        ensures
            n == self.prg_count(),
    {
        self.prg_rom.len() / self.prg_page_size
    }

    /// Reads banked PRG-ROM at `$8000-$FFFF`; 0 below `$8000`.
    pub fn read_prg_rom(&self, addr: u16) -> (v: u8)
        requires
            self.wf(),
        ensures
            v == self.spec_read_prg_rom(addr),
    {
        if addr < 0x8000 {
            return 0;
        }
        let size = self.prg_page_size;
        let off = (addr - 0x8000) as usize;
        let count = self.prg_rom.len() / size;
        if count == 0 {
            return 0;
        }
        proof {
            lemma_slot_in_window(off as nat, size as nat, PRG_WINDOW as nat);
        }
        let slot = off / size;
        let page = self.prg_pages[slot];
        proof {
            lemma_page_index(page as nat, count as nat, size as nat, self.prg_rom@.len(), (off % size) as nat);
        }
        self.prg_rom[page * size + off % size]
    }

    /// Same as `read_prg_rom`.
    pub fn read_prg_banked(&self, addr: u16) -> (v: u8)
        requires
            self.wf(),
        ensures
            v == self.spec_read_prg_rom(addr),
    {
        self.read_prg_rom(addr)
    }

    pub fn try_read_prg_ram(&self, addr: u16) -> (v: Option<u8>)
        requires
            self.wf(),
        ensures
            v == self.spec_prg_ram(addr),
    {
        if 0x6000 <= addr && addr < 0x8000 && self.prg_ram.len() > 0 {
            let i = ((addr - 0x6000) as usize) % self.prg_ram.len();
            Some(self.prg_ram[i])
        } else {
            None
        }
    }

    /// Stores into PRG-RAM when `addr` is in `$6000-$7FFF` and there is RAM;
    /// says whether it did.
    pub fn try_write_prg_ram(&mut self, addr: u16, value: u8) -> (written: bool)
        requires
            old(self).wf(),
        ensures
            final(self).wf(),
            written == (0x6000 <= addr < 0x8000 && old(self).prg_ram@.len() > 0),
            final(self).prg_ram@ == (if written {
                old(self).prg_ram@.update(((addr - 0x6000) as nat % old(self).prg_ram@.len()) as int, value)
            } else {
                old(self).prg_ram@
            }),
            final(self).same_layout(old(self)),
            final(self).prg_pages@ == old(self).prg_pages@,
            final(self).chr_pages@ == old(self).chr_pages@,
            final(self).prg_6000_page == old(self).prg_6000_page,
            final(self).mirroring == old(self).mirroring,
    {
        if 0x6000 <= addr && addr < 0x8000 && self.prg_ram.len() > 0 {
            let i = ((addr - 0x6000) as usize) % self.prg_ram.len();
            self.prg_ram.set(i, value);
            true
        } else {
            false
        }
    }

    pub fn try_read_prg_6000(&self, addr: u16) -> (v: Option<u8>)
        requires
            self.wf(),
        ensures
            v == self.spec_prg_6000(addr),
    {
        if self.prg_6000_banked && 0x6000 <= addr && addr < 0x8000 {
            let count = self.prg_rom.len() / PRG_6000_PAGE_SIZE;
            if count == 0 {
                return Some(0);
            }
            let off = (addr - 0x6000) as usize;
            proof {
                lemma_page_index(self.prg_6000_page as nat, count as nat, PRG_6000_PAGE_SIZE as nat, self.prg_rom@.len(), off as nat);
            }
            Some(self.prg_rom[self.prg_6000_page * PRG_6000_PAGE_SIZE + off])
        } else {
            None
        }
    }

    /// The default CPU read (see `spec_read_prg`).
    pub fn read_prg(&self, addr: u16) -> (v: u8)
        requires
            self.wf(),
        ensures
            v == self.spec_read_prg(addr),
    {
        if 0x6000 <= addr && addr < 0x8000 {
            match self.try_read_prg_6000(addr) {
                Some(v) => v,
                None => match self.try_read_prg_ram(addr) {
                    Some(v) => v,
                    None => 0,
                },
            }
        } else {
            self.read_prg_rom(addr)
        }
    }

    /// The value a write puts on the bus: ANDed with the ROM byte at `addr`
    /// when the board has bus conflicts.
    pub fn apply_bus_conflict(&self, addr: u16, value: u8) -> (v: u8)
        requires
            self.wf(),
        ensures
            v == (if self.bus_conflicts { value & self.spec_read_prg(addr) } else { value }),
    {
        if self.bus_conflicts {
            value & self.read_prg(addr)
        } else {
            value
        }
    }

    pub fn read_chr(&self, addr: u16) -> (v: u8)
        requires
            self.wf(),
        ensures
            v == self.spec_read_chr(addr),
    {
        let size = self.chr_page_size;
        let count = self.chr.len() / size;
        if count == 0 {
            return 0;
        }
        let off = (addr % 0x2000) as usize;
        proof {
            lemma_slot_in_window(off as nat, size as nat, CHR_WINDOW as nat);
        }
        let page = self.chr_pages[off / size];
        proof {
            lemma_page_index(page as nat, count as nat, size as nat, self.chr@.len(), (off % size) as nat);
        }
        self.chr[page * size + off % size]
    }

    /// Stores into CHR memory when it is writable.
    pub fn write_chr(&mut self, addr: u16, value: u8)
        requires
            old(self).wf(),
        ensures
            final(self).wf(),
            final(self).chr@ == (if old(self).chr_writable && old(self).chr_count() > 0 {
                old(self).chr@.update(old(self).chr_index(addr) as int, value)
            } else {
                old(self).chr@
            }),
            final(self).prg_rom@ == old(self).prg_rom@,
            final(self).prg_ram@ == old(self).prg_ram@,
            final(self).chr_writable == old(self).chr_writable,
            final(self).prg_page_size == old(self).prg_page_size,
            final(self).chr_page_size == old(self).chr_page_size,
            final(self).chr_banked == old(self).chr_banked,
            final(self).prg_6000_banked == old(self).prg_6000_banked,
            final(self).capabilities == old(self).capabilities,
            final(self).bus_conflicts == old(self).bus_conflicts,
            final(self).prg_pages@ == old(self).prg_pages@,
            final(self).chr_pages@ == old(self).chr_pages@,
            final(self).prg_6000_page == old(self).prg_6000_page,
            final(self).mirroring == old(self).mirroring,
    {
        if !self.chr_writable {
            return;
        }
        let size = self.chr_page_size;
        let count = self.chr.len() / size;
        if count == 0 {
            return;
        }
        let off = (addr % 0x2000) as usize;
        proof {
            lemma_slot_in_window(off as nat, size as nat, CHR_WINDOW as nat);
        }
        let page = self.chr_pages[off / size];
        proof {
            lemma_page_index(page as nat, count as nat, size as nat, self.chr@.len(), (off % size) as nat);
        }
        self.chr.set(page * size + off % size, value);
    }

    /// Bytes of the banking snapshot: each PRG slot's page, then (when CHR
    /// banking was configured) each CHR slot's page, truncated to a byte.
    pub open spec fn banking_bytes(&self) -> Seq<u8> {
        let prg = Seq::new(self.prg_pages@.len(), |i: int| self.prg_pages@[i] as u8);
        let chr = Seq::new(self.chr_pages@.len(), |i: int| self.chr_pages@[i] as u8);
        if self.chr_banked { prg + chr } else { prg }
    }

    pub fn banking_snapshot(&self) -> (s: Vec<u8>)
        ensures
            s@ == self.banking_bytes(),
    {
        let mut s: Vec<u8> = Vec::new();
        let mut i: usize = 0;
        while i < self.prg_pages.len()
            invariant
                0 <= i <= self.prg_pages@.len(),
                s@ =~= Seq::new(i as nat, |k: int| self.prg_pages@[k] as u8),
            decreases self.prg_pages@.len() - i,
        {
            s.push(self.prg_pages[i] as u8);
            i = i + 1;
        }
        if self.chr_banked {
            let mut j: usize = 0;
            while j < self.chr_pages.len()
                invariant
                    0 <= j <= self.chr_pages@.len(),
                    s@ =~= Seq::new(self.prg_pages@.len(), |k: int| self.prg_pages@[k] as u8)
                        + Seq::new(j as nat, |k: int| self.chr_pages@[k] as u8),
                decreases self.chr_pages@.len() - j,
            {
                s.push(self.chr_pages[j] as u8);
                j = j + 1;
            }
        }
        s
    }

    /// Selects each PRG slot's page from the matching byte of `data`, then
    /// (when CHR banking was configured) each CHR slot's page from the bytes
    /// after them; slots without a byte keep their page.
    pub fn restore_banking(&mut self, data: &[u8])
        requires
            old(self).wf(),
        ensures
            final(self).wf(),
            final(self).same_memory(old(self)),
            final(self).prg_6000_page == old(self).prg_6000_page,
            final(self).mirroring == old(self).mirroring,
            final(self).prg_pages@.len() == old(self).prg_pages@.len(),
            forall|i: int| 0 <= i < old(self).prg_pages@.len() ==> #[trigger] final(self).prg_pages@[i]
                == if i < data@.len() { wrap_page(data@[i] as int, old(self).prg_count()) } else { old(self).prg_pages@[i] as nat },
            final(self).chr_pages@.len() == old(self).chr_pages@.len(),
            !old(self).chr_banked ==> final(self).chr_pages@ == old(self).chr_pages@,
            forall|j: int| 0 <= j < old(self).chr_pages@.len() ==> #[trigger] final(self).chr_pages@[j]
                == if old(self).chr_banked && old(self).prg_pages@.len() + j < data@.len() {
                    wrap_page(data@[old(self).prg_pages@.len() + j] as int, old(self).chr_count())
                } else {
                    old(self).chr_pages@[j] as nat
                },
    {
        let n = self.prg_pages.len();
        let mut i: usize = 0;
        while i < n
            invariant
                0 <= i <= n,
                n == old(self).prg_pages@.len(),
                self.wf(),
                self.same_memory(old(self)),
                self.prg_6000_page == old(self).prg_6000_page,
                self.mirroring == old(self).mirroring,
                self.chr_pages@ == old(self).chr_pages@,
                self.prg_pages@.len() == n,
                forall|k: int| 0 <= k < n ==> #[trigger] self.prg_pages@[k]
                    == if k < i && k < data@.len() { wrap_page(data@[k] as int, old(self).prg_count()) } else { old(self).prg_pages@[k] as nat },
            decreases n - i,
        {
            if i < data.len() {
                self.select_prg_page(i, data[i] as i16);
            }
            i = i + 1;
        }
        if self.chr_banked {
            let m = self.chr_pages.len();
            let mut j: usize = 0;
            while j < m
                invariant
                    0 <= j <= m,
                    n == old(self).prg_pages@.len(),
                    m == old(self).chr_pages@.len(),
                    old(self).chr_banked,
                    self.wf(),
                    self.same_memory(old(self)),
                    self.prg_6000_page == old(self).prg_6000_page,
                    self.mirroring == old(self).mirroring,
                    self.prg_pages@.len() == n,
                    forall|k: int| 0 <= k < n ==> #[trigger] self.prg_pages@[k]
                        == if k < data@.len() { wrap_page(data@[k] as int, old(self).prg_count()) } else { old(self).prg_pages@[k] as nat },
                    self.chr_pages@.len() == m,
                    forall|k: int| 0 <= k < m ==> #[trigger] self.chr_pages@[k]
                        == if k < j && n + k < data@.len() { wrap_page(data@[n + k] as int, old(self).chr_count()) } else { old(self).chr_pages@[k] as nat },
                decreases m - j,
            {
                if n < data.len() && j < data.len() - n {
                    self.select_chr_page(j, data[n + j] as i16);
                }
                j = j + 1;
            }
        }
    }

    /// Fills PRG-RAM with the byte of `mode`.
    pub fn initialize_ram(&mut self, mode: RamInitMode)
        requires
            old(self).wf(),
        ensures
            final(self).wf(),
            final(self).prg_ram@ == Seq::new(old(self).prg_ram@.len(), |i: int| ram_init_byte(mode)),
            final(self).same_layout(old(self)),
            final(self).prg_pages@ == old(self).prg_pages@,
            final(self).chr_pages@ == old(self).chr_pages@,
            final(self).prg_6000_page == old(self).prg_6000_page,
            final(self).mirroring == old(self).mirroring,
    {
        let b: u8 = match mode {
            RamInitMode::Zero => 0x00,
            RamInitMode::Ones => 0xFF,
        };
        let n = self.prg_ram.len();
        let mut i: usize = 0;
        while i < n
            invariant
                0 <= i <= n,
                n == old(self).prg_ram@.len(),
                b == ram_init_byte(mode),
                self.wf(),
                self.same_layout(old(self)),
                self.prg_pages@ == old(self).prg_pages@,
                self.chr_pages@ == old(self).chr_pages@,
                self.prg_6000_page == old(self).prg_6000_page,
                self.mirroring == old(self).mirroring,
                self.prg_ram@.len() == n,
                forall|k: int| 0 <= k < i ==> #[trigger] self.prg_ram@[k] == b,
            decreases n - i,
        {
            self.prg_ram.set(i, b);
            i = i + 1;
        }
        proof {
            assert(self.prg_ram@ =~= Seq::new(old(self).prg_ram@.len(), |i: int| ram_init_byte(mode)));
        }
    }

    pub fn wram_size(&self) -> (n: usize)
        ensures
            n == self.prg_ram@.len(),
    {
        self.prg_ram.len()
    }

    pub fn wram_snapshot(&self) -> (s: Vec<u8>)
        ensures
            s@ == self.prg_ram@,
    {
        let mut s: Vec<u8> = Vec::new();
        let mut i: usize = 0;
        while i < self.prg_ram.len()
            invariant
                0 <= i <= self.prg_ram@.len(),
                s@ =~= self.prg_ram@.subrange(0, i as int),
            decreases self.prg_ram@.len() - i,
        {
            s.push(self.prg_ram[i]);
            i = i + 1;
        }
        proof {
            assert(self.prg_ram@.subrange(0, self.prg_ram@.len() as int) =~= self.prg_ram@);
        }
        s
    }

    /// Copies the leading bytes of `data` (at most the RAM size) into PRG-RAM.
    pub fn load_wram_snapshot(&mut self, data: &[u8])
        requires
            old(self).wf(),
        ensures
            final(self).wf(),
            final(self).same_layout(old(self)),
            final(self).prg_pages@ == old(self).prg_pages@,
            final(self).chr_pages@ == old(self).chr_pages@,
            final(self).prg_6000_page == old(self).prg_6000_page,
            final(self).mirroring == old(self).mirroring,
            final(self).prg_ram@ == (if data@.len() < old(self).prg_ram@.len() {
                data@ + old(self).prg_ram@.subrange(data@.len() as int, old(self).prg_ram@.len() as int)
            } else {
                data@.subrange(0, old(self).prg_ram@.len() as int)
            }),
    {
        let n = self.prg_ram.len();
        let len = if data.len() < n { data.len() } else { n };
        let mut i: usize = 0;
        while i < len
            invariant
                0 <= i <= len,
                n == old(self).prg_ram@.len(),
                len == (if data@.len() < n { data@.len() } else { n as nat }),
                self.wf(),
                self.same_layout(old(self)),
                self.prg_pages@ == old(self).prg_pages@,
                self.chr_pages@ == old(self).chr_pages@,
                self.prg_6000_page == old(self).prg_6000_page,
                self.mirroring == old(self).mirroring,
                self.prg_ram@ =~= data@.subrange(0, i as int) + old(self).prg_ram@.subrange(i as int, n as int),
            decreases len - i,
        {
            self.prg_ram.set(i, data[i]);
            i = i + 1;
        }
        proof {
            if data@.len() < n {
                assert(data@.subrange(0, len as int) =~= data@);
            }
        }
    }
}

/// The first `n` bytes of `data`.
pub fn slice_prefix(data: &[u8], n: usize) -> (v: Vec<u8>)
    requires
        n <= data@.len(),
    ensures
        v@ == data@.subrange(0, n as int),
{
    let mut v: Vec<u8> = Vec::new();
    let mut i: usize = 0;
    while i < n
        invariant
            0 <= i <= n,
            n <= data@.len(),
            v@ =~= data@.subrange(0, i as int),
        decreases n - i,
    {
        v.push(data[i]);
        i = i + 1;
    }
    v
}

/// Overwrites the leading bytes of `dst` with `src` (at most `dst`'s length).
pub fn copy_prefix(dst: &mut Vec<u8>, src: &[u8])
    ensures
        final(dst)@ == (if src@.len() < old(dst)@.len() {
            src@ + old(dst)@.subrange(src@.len() as int, old(dst)@.len() as int)
        } else {
            src@.subrange(0, old(dst)@.len() as int)
        }),
{
    let n = dst.len();
    let len = if src.len() < n { src.len() } else { n };
    let mut i: usize = 0;
    while i < len
        invariant
            0 <= i <= len,
            n == old(dst)@.len(),
            len == (if src@.len() < n { src@.len() } else { n as nat }),
            dst@ =~= src@.subrange(0, i as int) + old(dst)@.subrange(i as int, n as int),
        decreases len - i,
    {
        dst.set(i, src[i]);
        i = i + 1;
    }
    proof {
        if src@.len() < n {
            assert(src@.subrange(0, len as int) =~= src@);
        }
    }
}

/// Sets every byte of `v` to `b`.
pub fn fill_bytes(v: &mut Vec<u8>, b: u8)
    ensures
        final(v)@ == Seq::new(old(v)@.len(), |i: int| b),
{
    let n = v.len();
    let mut i: usize = 0;
    while i < n
        invariant
            0 <= i <= n,
            n == old(v)@.len(),
            v@.len() == n,
            forall|k: int| 0 <= k < i ==> #[trigger] v@[k] == b,
        decreases n - i,
    {
        v.set(i, b);
        i = i + 1;
    }
    proof {
        assert(v@ =~= Seq::new(old(v)@.len(), |i: int| b));
    }
}

/// A copy of `v`.
pub fn copy_bytes(v: &Vec<u8>) -> (c: Vec<u8>)
    ensures
        c@ == v@,
{
    let mut c: Vec<u8> = Vec::new();
    let mut i: usize = 0;
    while i < v.len()
        invariant
            0 <= i <= v@.len(),
            c@ =~= v@.subrange(0, i as int),
        decreases v@.len() - i,
    {
        c.push(v[i]);
        i = i + 1;
    }
    proof {
        assert(v@.subrange(0, v@.len() as int) =~= v@);
    }
    c
}

/// Bytes of PRG-RAM for `banks` 8 KiB banks on a board holding at most `max_kb` KiB.
pub open spec fn ram_bytes(banks: nat, max_kb: nat) -> nat {
    (if banks * 8 < max_kb { banks * 8 } else { max_kb }) * 1024
}

} // verus!
