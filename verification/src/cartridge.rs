//! Shared cartridge types: nametable layouts, mapper capabilities and the
//! context a mapper is built from.
use vstd::prelude::*;

verus! {

/// How the four logical nametables are mapped onto console VRAM.
#[derive(Clone, Copy, Debug, PartialEq, Eq, Structural)]
pub enum NametableLayout {
    Horizontal,
    Vertical,
    SingleScreenLower,
    SingleScreenUpper,
}

/// Byte used for a layout in register snapshots.
pub open spec fn layout_byte(layout: NametableLayout) -> u8 {
    match layout {
        NametableLayout::Horizontal => 0,
        NametableLayout::Vertical => 1,
        NametableLayout::SingleScreenLower => 2,
        NametableLayout::SingleScreenUpper => 3,
    }
}

/// Layout restored from a snapshot byte; unknown bytes fall back to horizontal.
pub open spec fn layout_from_byte(b: u8) -> NametableLayout {
    if b == 1 {
        NametableLayout::Vertical
    } else if b == 2 {
        NametableLayout::SingleScreenLower
    } else if b == 3 {
        NametableLayout::SingleScreenUpper
    } else {
        NametableLayout::Horizontal
    }
}

/// Horizontal when the flag is set, vertical otherwise.
pub open spec fn layout_hv(horizontal: bool) -> NametableLayout {
    if horizontal {
        NametableLayout::Horizontal
    } else {
        NametableLayout::Vertical
    }
}

impl NametableLayout {
    pub fn to_snapshot_byte(self) -> (b: u8)
        ensures
            b == layout_byte(self),
    {
        match self {
            NametableLayout::Horizontal => 0,
            NametableLayout::Vertical => 1,
            NametableLayout::SingleScreenLower => 2,
            NametableLayout::SingleScreenUpper => 3,
        }
    }

    pub fn from_snapshot_byte(b: u8) -> (layout: NametableLayout)
        ensures
            layout == layout_from_byte(b),
    {
        if b == 1 {
            NametableLayout::Vertical
        } else if b == 2 {
            NametableLayout::SingleScreenLower
        } else if b == 3 {
            NametableLayout::SingleScreenUpper
        } else {
            NametableLayout::Horizontal
        }
    }
}

/// Encoding a layout and decoding the byte gives the layout back.
pub proof fn lemma_layout_byte_roundtrip(layout: NametableLayout)
    ensures
        layout_from_byte(layout_byte(layout)) == layout,
{
}

/// How RAM is filled at power-on.
#[derive(Clone, Copy, Debug, PartialEq, Eq, Structural)]
pub enum RamInitMode {
    /// Every byte 0x00.
    Zero,
    /// Every byte 0xFF.
    Ones,
}

pub open spec fn ram_init_byte(mode: RamInitMode) -> u8 {
    match mode {
        RamInitMode::Zero => 0x00,
        RamInitMode::Ones => 0xFF,
    }
}

/// Static description of what a mapper's hardware provides.
#[derive(Clone, Copy, Debug, PartialEq, Eq, Structural)]
pub struct MapperCapabilities {
    pub has_irq: bool,
    pub has_expansion_audio: bool,
    pub has_chr_banking: bool,
    pub has_dynamic_mirroring: bool,
    pub max_prg_ram_kb: usize,
    pub prg_bank_size_kb: usize,
    pub chr_bank_size_kb: usize,
}

impl MapperCapabilities {
    /// Capabilities with every flag cleared and every size zero.
    pub fn none() -> (c: MapperCapabilities)
        ensures
            !c.has_irq,
            !c.has_expansion_audio,
            !c.has_chr_banking,
            !c.has_dynamic_mirroring,
            c.max_prg_ram_kb == 0,
            c.prg_bank_size_kb == 0,
            c.chr_bank_size_kb == 0,
    {
        MapperCapabilities {
            has_irq: false,
            has_expansion_audio: false,
            has_chr_banking: false,
            has_dynamic_mirroring: false,
            max_prg_ram_kb: 0,
            prg_bank_size_kb: 0,
            chr_bank_size_kb: 0,
        }
    }
}

/// Everything a mapper is constructed from: ROM images, header mirroring and
/// the amount of PRG-RAM the board carries.
pub struct MapperContext {
    pub mapper_number: u16,
    pub submapper: u8,
    pub prg_rom: Vec<u8>,
    pub chr_rom: Vec<u8>,
    pub mirroring: NametableLayout,
    /// Number of 8 KiB PRG-RAM banks.
    pub prg_ram_banks: usize,
    /// CRC-32 of the ROM image, for boards that recognise particular dumps.
    pub crc32: u32,
}

impl MapperContext {
    /// A context with one 8 KiB PRG-RAM bank and submapper 0.
    pub fn new_for_test(
        mapper_number: u16,
        prg_rom: Vec<u8>,
        chr_rom: Vec<u8>,
        mirroring: NametableLayout,
    ) -> (ctx: MapperContext)
        ensures
            ctx.mapper_number == mapper_number,
            ctx.submapper == 0,
            ctx.prg_rom@ == prg_rom@,
            ctx.chr_rom@ == chr_rom@,
            ctx.mirroring == mirroring,
            ctx.prg_ram_banks == 1,
            ctx.crc32 == 0,
    {
        MapperContext { mapper_number, submapper: 0, prg_rom, chr_rom, mirroring, prg_ram_banks: 1, crc32: 0 }
    }

    pub fn with_prg_ram_banks(self, banks: usize) -> (ctx: MapperContext)
        ensures
            ctx.prg_ram_banks == banks,
            ctx.crc32 == self.crc32,
            ctx.mapper_number == self.mapper_number,
            ctx.submapper == self.submapper,
            ctx.prg_rom@ == self.prg_rom@,
            ctx.chr_rom@ == self.chr_rom@,
            ctx.mirroring == self.mirroring,
    {
        MapperContext { prg_ram_banks: banks, ..self }
    }

    pub fn with_submapper(self, submapper: u8) -> (ctx: MapperContext)
        ensures
            ctx.submapper == submapper,
            ctx.crc32 == self.crc32,
            ctx.prg_ram_banks == self.prg_ram_banks,
            ctx.mapper_number == self.mapper_number,
            ctx.prg_rom@ == self.prg_rom@,
            ctx.chr_rom@ == self.chr_rom@,
            ctx.mirroring == self.mirroring,
    {
        MapperContext { submapper, ..self }
    }
}

/// `bank_count` banks of `bank_size` bytes, every byte of bank `n` holding `n`
/// truncated to a byte.
pub open spec fn is_banked_data(data: Seq<u8>, bank_size: nat, bank_count: nat) -> bool {
    &&& data.len() == bank_size * bank_count
    &&& forall|i: int| 0 <= i < data.len() ==> #[trigger] data[i] == ((i / bank_size as int) % 256) as u8
}

/// Builds ROM contents in which every byte of bank `n` holds `n` (mod 256).
pub fn banked_data(bank_size: usize, bank_count: usize) -> (data: Vec<u8>)
    requires
        bank_size > 0,
        bank_size * bank_count <= usize::MAX,
    ensures
        is_banked_data(data@, bank_size as nat, bank_count as nat),
{
    let mut data: Vec<u8> = Vec::new();
    let mut bank: usize = 0;
    while bank < bank_count
        invariant
            bank <= bank_count,
            bank_size > 0,
            bank_size * bank_count <= usize::MAX,
            data@.len() == bank * bank_size,
            forall|i: int| 0 <= i < data@.len() ==> #[trigger] data@[i] == ((i / bank_size as int) % 256) as u8,
        decreases bank_count - bank,
    {
        let value: u8 = (bank % 256) as u8;
        let mut j: usize = 0;
        proof {
            assert(bank * bank_size + bank_size <= bank_count * bank_size) by (nonlinear_arith)
                requires bank < bank_count, bank_size > 0;
        }
        while j < bank_size
            invariant
                j <= bank_size,
                bank < bank_count,
                bank_size > 0,
                bank * bank_size + bank_size <= usize::MAX,
                value == (bank % 256) as u8,
                data@.len() == bank * bank_size + j,
                forall|i: int| 0 <= i < data@.len() ==> #[trigger] data@[i] == ((i / bank_size as int) % 256) as u8,
            decreases bank_size - j,
        {
            proof {
                let i = (bank * bank_size + j) as int;
                vstd::arithmetic::div_mod::lemma_fundamental_div_mod_converse(i, bank_size as int, bank as int, j as int);
            }
            data.push(value);
            j = j + 1;
        }
        proof {
            assert(data@.len() == (bank + 1) * bank_size) by (nonlinear_arith)
                requires data@.len() == bank * bank_size + bank_size;
        }
        bank = bank + 1;
    }
    proof {
        assert(bank * bank_size == bank_size * bank_count) by (nonlinear_arith)
            requires bank == bank_count;
    }
    data
}

} // verus!
