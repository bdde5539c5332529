//! Construction of a board by its iNES mapper number, and dispatch of the
//! common operations to the board.
use vstd::prelude::*;
use crate::cartridge::{NametableLayout, MapperCapabilities, MapperContext};
use crate::base_mapper::BaseMapper;

use crate::mappers::mapper39::Mapper39;
use crate::mappers::mapper41::Mapper41;
use crate::mappers::mapper43::Mapper43;
use crate::mappers::mapper44::Mapper44;
use crate::mappers::mapper51::Mapper51;
use crate::mappers::mapper55::Mapper55;
use crate::mappers::mapper57::Mapper57;
use crate::mappers::mapper58::Mapper58;
use crate::mappers::mapper60::Mapper60;
use crate::mappers::mapper74::Mapper74;
use crate::mappers::mapper289::Mapper289;
use crate::mappers::mapper290::Mapper290;
use crate::mappers::mapper291::Mapper291;
use crate::mappers::mapper293::Mapper293;
use crate::mappers::mapper294::Mapper294;
use crate::mappers::mapper296::Mapper296;
use crate::mappers::mapper297::Mapper297;
use crate::mappers::mapper298::Mapper298;
use crate::mappers::mapper300::Mapper300;
use crate::mappers::mapper301::Mapper301;
use crate::mappers::mapper302::Mapper302;
use crate::mappers::mapper303::Mapper303;
use crate::mappers::mapper304::Mapper304;
use crate::mappers::mapper305::Mapper305;
use crate::mappers::mapper306::Mapper306;
use crate::mappers::mapper308::Mapper308;
use crate::mappers::mapper309::Mapper309;
use crate::mappers::mapper312::Mapper312;
use crate::mappers::mapper319::Mapper319;
use crate::mappers::mapper320::Mapper320;
use crate::mappers::mapper321::Mapper321;
use crate::mappers::mapper326::Mapper326;
use crate::mappers::mapper327::Mapper327;
use crate::mappers::mapper328::Mapper328;
use crate::mappers::mapper329::Mapper329;
use crate::mappers::mapper330::Mapper330;
use crate::mappers::mapper334::Mapper334;
use crate::mappers::mapper336::Mapper336;
use crate::mappers::mapper340::Mapper340;
use crate::mappers::mapper342::Mapper342;
use crate::mappers::mapper344::Mapper344;
use crate::mappers::mapper348::Mapper348;

verus! {

/// Why no board could be built.
#[derive(Clone, Copy, Debug, PartialEq, Eq, Structural)]
pub enum MapperError {
    UnsupportedMapper(u16),
}

/// Any of the boards of this library.
pub enum AnyMapper {
    M39(Mapper39),
    M41(Mapper41),
    M43(Mapper43),
    M44(Mapper44),
    M51(Mapper51),
    M55(Mapper55),
    M57(Mapper57),
    M58(Mapper58),
    M60(Mapper60),
    M74(Mapper74),
    M289(Mapper289),
    M290(Mapper290),
    M291(Mapper291),
    M293(Mapper293),
    M294(Mapper294),
    M296(Mapper296),
    M297(Mapper297),
    M298(Mapper298),
    M300(Mapper300),
    M301(Mapper301),
    M302(Mapper302),
    M303(Mapper303),
    M304(Mapper304),
    M305(Mapper305),
    M306(Mapper306),
    M308(Mapper308),
    M309(Mapper309),
    M312(Mapper312),
    M319(Mapper319),
    M320(Mapper320),
    M321(Mapper321),
    M326(Mapper326),
    M327(Mapper327),
    M328(Mapper328),
    M329(Mapper329),
    M330(Mapper330),
    M334(Mapper334),
    M336(Mapper336),
    M340(Mapper340),
    M342(Mapper342),
    M344(Mapper344),
    M348(Mapper348),
}

/// Whether `number` names a board of this library.
pub open spec fn is_supported(number: u16) -> bool {
    number == 39 || number == 41 || number == 43 || number == 44 || number == 51 || number == 55 || number == 57 || number == 58 || number == 60 || number == 74 || number == 289 || number == 290 || number == 291 || number == 293 || number == 294 || number == 296 || number == 297 || number == 298 || number == 300 || number == 301 || number == 302 || number == 303 || number == 304 || number == 305 || number == 306 || number == 308 || number == 309 || number == 312 || number == 319 || number == 320 || number == 321 || number == 326 || number == 327 || number == 328 || number == 329 || number == 330 || number == 334 || number == 336 || number == 340 || number == 342 || number == 344 || number == 348 || number == 343
}

/// Builds the board named by `ctx.mapper_number`.
#[verifier::spinoff_prover]
#[verifier::rlimit(60)]
pub fn create_mapper(ctx: MapperContext) -> (r: Result<AnyMapper, MapperError>)
    ensures
        r is Ok <==> is_supported(ctx.mapper_number),
        r is Err ==> r == Err::<AnyMapper, MapperError>(MapperError::UnsupportedMapper(ctx.mapper_number)),
        r is Ok ==> r->Ok_0.wf(),
        r is Ok ==> r->Ok_0.spec_mapper_number() == (if ctx.mapper_number == 343 { 60u16 } else { ctx.mapper_number }),
        r is Ok ==> r->Ok_0.spec_base().prg_rom@ == ctx.prg_rom@,
{
    match ctx.mapper_number {
        39 => Ok(AnyMapper::M39(Mapper39::new(ctx))),
        41 => Ok(AnyMapper::M41(Mapper41::new(ctx))),
        43 => Ok(AnyMapper::M43(Mapper43::new(ctx))),
        44 => Ok(AnyMapper::M44(Mapper44::new(ctx))),
        51 => Ok(AnyMapper::M51(Mapper51::new(ctx))),
        55 => Ok(AnyMapper::M55(Mapper55::new(ctx))),
        57 => Ok(AnyMapper::M57(Mapper57::new(ctx))),
        58 => Ok(AnyMapper::M58(Mapper58::new(ctx))),
        60 => Ok(AnyMapper::M60(Mapper60::new(ctx))),
        74 => Ok(AnyMapper::M74(Mapper74::new(ctx))),
        289 => Ok(AnyMapper::M289(Mapper289::new(ctx))),
        290 => Ok(AnyMapper::M290(Mapper290::new(ctx))),
        291 => Ok(AnyMapper::M291(Mapper291::new(ctx))),
        293 => Ok(AnyMapper::M293(Mapper293::new(ctx))),
        294 => Ok(AnyMapper::M294(Mapper294::new(ctx))),
        296 => Ok(AnyMapper::M296(Mapper296::new(ctx))),
        297 => Ok(AnyMapper::M297(Mapper297::new(ctx))),
        298 => Ok(AnyMapper::M298(Mapper298::new(ctx))),
        300 => Ok(AnyMapper::M300(Mapper300::new(ctx))),
        301 => Ok(AnyMapper::M301(Mapper301::new(ctx))),
        302 => Ok(AnyMapper::M302(Mapper302::new(ctx))),
        303 => Ok(AnyMapper::M303(Mapper303::new(ctx))),
        304 => Ok(AnyMapper::M304(Mapper304::new(ctx))),
        305 => Ok(AnyMapper::M305(Mapper305::new(ctx))),
        306 => Ok(AnyMapper::M306(Mapper306::new(ctx))),
        308 => Ok(AnyMapper::M308(Mapper308::new(ctx))),
        309 => Ok(AnyMapper::M309(Mapper309::new(ctx))),
        312 => Ok(AnyMapper::M312(Mapper312::new(ctx))),
        319 => Ok(AnyMapper::M319(Mapper319::new(ctx))),
        320 => Ok(AnyMapper::M320(Mapper320::new(ctx))),
        321 => Ok(AnyMapper::M321(Mapper321::new(ctx))),
        326 => Ok(AnyMapper::M326(Mapper326::new(ctx))),
        327 => Ok(AnyMapper::M327(Mapper327::new(ctx))),
        328 => Ok(AnyMapper::M328(Mapper328::new(ctx))),
        329 => Ok(AnyMapper::M329(Mapper329::new(ctx))),
        330 => Ok(AnyMapper::M330(Mapper330::new(ctx))),
        334 => Ok(AnyMapper::M334(Mapper334::new(ctx))),
        336 => Ok(AnyMapper::M336(Mapper336::new(ctx))),
        340 => Ok(AnyMapper::M340(Mapper340::new(ctx))),
        342 => Ok(AnyMapper::M342(Mapper342::new(ctx))),
        344 => Ok(AnyMapper::M344(Mapper344::new(ctx))),
        348 => Ok(AnyMapper::M348(Mapper348::new(ctx))),
        343 => Ok(AnyMapper::M60(Mapper60::new(ctx))),
        n => Err(MapperError::UnsupportedMapper(n)),
    }
}

impl AnyMapper {
    pub open spec fn wf(&self) -> bool {
        match self {
            AnyMapper::M39(m) => m.wf(),
            AnyMapper::M41(m) => m.wf(),
            AnyMapper::M43(m) => m.wf(),
            AnyMapper::M44(m) => m.wf(),
            AnyMapper::M51(m) => m.wf(),
            AnyMapper::M55(m) => m.wf(),
            AnyMapper::M57(m) => m.wf(),
            AnyMapper::M58(m) => m.wf(),
            AnyMapper::M60(m) => m.wf(),
            AnyMapper::M74(m) => m.wf(),
            AnyMapper::M289(m) => m.wf(),
            AnyMapper::M290(m) => m.wf(),
            AnyMapper::M291(m) => m.wf(),
            AnyMapper::M293(m) => m.wf(),
            AnyMapper::M294(m) => m.wf(),
            AnyMapper::M296(m) => m.wf(),
            AnyMapper::M297(m) => m.wf(),
            AnyMapper::M298(m) => m.wf(),
            AnyMapper::M300(m) => m.wf(),
            AnyMapper::M301(m) => m.wf(),
            AnyMapper::M302(m) => m.wf(),
            AnyMapper::M303(m) => m.wf(),
            AnyMapper::M304(m) => m.wf(),
            AnyMapper::M305(m) => m.wf(),
            AnyMapper::M306(m) => m.wf(),
            AnyMapper::M308(m) => m.wf(),
            AnyMapper::M309(m) => m.wf(),
            AnyMapper::M312(m) => m.wf(),
            AnyMapper::M319(m) => m.wf(),
            AnyMapper::M320(m) => m.wf(),
            AnyMapper::M321(m) => m.wf(),
            AnyMapper::M326(m) => m.wf(),
            AnyMapper::M327(m) => m.wf(),
            AnyMapper::M328(m) => m.wf(),
            AnyMapper::M329(m) => m.wf(),
            AnyMapper::M330(m) => m.wf(),
            AnyMapper::M334(m) => m.wf(),
            AnyMapper::M336(m) => m.wf(),
            AnyMapper::M340(m) => m.wf(),
            AnyMapper::M342(m) => m.wf(),
            AnyMapper::M344(m) => m.wf(),
            AnyMapper::M348(m) => m.wf(),
        }
    }

    pub open spec fn spec_mapper_number(&self) -> u16 {
        match self {
            AnyMapper::M39(m) => 39u16,
            AnyMapper::M41(m) => 41u16,
            AnyMapper::M43(m) => 43u16,
            AnyMapper::M44(m) => 44u16,
            AnyMapper::M51(m) => 51u16,
            AnyMapper::M55(m) => 55u16,
            AnyMapper::M57(m) => 57u16,
            AnyMapper::M58(m) => 58u16,
            AnyMapper::M60(m) => 60u16,
            AnyMapper::M74(m) => 74u16,
            AnyMapper::M289(m) => 289u16,
            AnyMapper::M290(m) => 290u16,
            AnyMapper::M291(m) => 291u16,
            AnyMapper::M293(m) => 293u16,
            AnyMapper::M294(m) => 294u16,
            AnyMapper::M296(m) => 296u16,
            AnyMapper::M297(m) => 297u16,
            AnyMapper::M298(m) => 298u16,
            AnyMapper::M300(m) => 300u16,
            AnyMapper::M301(m) => 301u16,
            AnyMapper::M302(m) => 302u16,
            AnyMapper::M303(m) => 303u16,
            AnyMapper::M304(m) => 304u16,
            AnyMapper::M305(m) => 305u16,
            AnyMapper::M306(m) => 306u16,
            AnyMapper::M308(m) => 308u16,
            AnyMapper::M309(m) => 309u16,
            AnyMapper::M312(m) => 312u16,
            AnyMapper::M319(m) => 319u16,
            AnyMapper::M320(m) => 320u16,
            AnyMapper::M321(m) => 321u16,
            AnyMapper::M326(m) => 326u16,
            AnyMapper::M327(m) => 327u16,
            AnyMapper::M328(m) => 328u16,
            AnyMapper::M329(m) => 329u16,
            AnyMapper::M330(m) => 330u16,
            AnyMapper::M334(m) => 334u16,
            AnyMapper::M336(m) => 336u16,
            AnyMapper::M340(m) => 340u16,
            AnyMapper::M342(m) => 342u16,
            AnyMapper::M344(m) => 344u16,
            AnyMapper::M348(m) => 348u16,
        }
    }

    pub open spec fn spec_base(&self) -> BaseMapper {
        match self {
            AnyMapper::M39(m) => m.base,
            AnyMapper::M41(m) => m.base,
            AnyMapper::M43(m) => m.base,
            AnyMapper::M44(m) => m.mmc3.base,
            AnyMapper::M51(m) => m.base,
            AnyMapper::M55(m) => m.base,
            AnyMapper::M57(m) => m.base,
            AnyMapper::M58(m) => m.base,
            AnyMapper::M60(m) => m.base,
            AnyMapper::M74(m) => m.inner.base,
            AnyMapper::M289(m) => m.base,
            AnyMapper::M290(m) => m.base,
            AnyMapper::M291(m) => m.mmc3.base,
            AnyMapper::M293(m) => m.base,
            AnyMapper::M294(m) => m.base,
            AnyMapper::M296(m) => m.mmc3.base,
            AnyMapper::M297(m) => m.mmc1.base,
            AnyMapper::M298(m) => m.base,
            AnyMapper::M300(m) => m.base,
            AnyMapper::M301(m) => m.base,
            AnyMapper::M302(m) => m.base,
            AnyMapper::M303(m) => m.base,
            AnyMapper::M304(m) => m.base,
            AnyMapper::M305(m) => m.base,
            AnyMapper::M306(m) => m.base,
            AnyMapper::M308(m) => m.inner.base,
            AnyMapper::M309(m) => m.base,
            AnyMapper::M312(m) => m.base,
            AnyMapper::M319(m) => m.base,
            AnyMapper::M320(m) => m.base,
            AnyMapper::M321(m) => m.mmc3.base,
            AnyMapper::M326(m) => m.base,
            AnyMapper::M327(m) => m.base,
            AnyMapper::M328(m) => m.base,
            AnyMapper::M329(m) => m.base,
            AnyMapper::M330(m) => m.base,
            AnyMapper::M334(m) => m.mmc3.base,
            AnyMapper::M336(m) => m.base,
            AnyMapper::M340(m) => m.base,
            AnyMapper::M342(m) => m.base,
            AnyMapper::M344(m) => m.mmc3.base,
            AnyMapper::M348(m) => m.mmc3.base,
        }
    }

    pub open spec fn spec_read_prg(&self, addr: u16) -> u8 {
        match self {
            AnyMapper::M39(m) => m.spec_read_prg(addr),
            AnyMapper::M41(m) => m.spec_read_prg(addr),
            AnyMapper::M43(m) => m.spec_read_prg(addr),
            AnyMapper::M44(m) => m.spec_read_prg(addr),
            AnyMapper::M51(m) => m.spec_read_prg(addr),
            AnyMapper::M55(m) => m.spec_read_prg(addr),
            AnyMapper::M57(m) => m.spec_read_prg(addr),
            AnyMapper::M58(m) => m.spec_read_prg(addr),
            AnyMapper::M60(m) => m.spec_read_prg(addr),
            AnyMapper::M74(m) => m.spec_read_prg(addr),
            AnyMapper::M289(m) => m.spec_read_prg(addr),
            AnyMapper::M290(m) => m.spec_read_prg(addr),
            AnyMapper::M291(m) => m.spec_read_prg(addr),
            AnyMapper::M293(m) => m.spec_read_prg(addr),
            AnyMapper::M294(m) => m.spec_read_prg(addr),
            AnyMapper::M296(m) => m.spec_read_prg(addr),
            AnyMapper::M297(m) => m.spec_read_prg(addr),
            AnyMapper::M298(m) => m.spec_read_prg(addr),
            AnyMapper::M300(m) => m.spec_read_prg(addr),
            AnyMapper::M301(m) => m.spec_read_prg(addr),
            AnyMapper::M302(m) => m.spec_read_prg(addr),
            AnyMapper::M303(m) => m.spec_read_prg(addr),
            AnyMapper::M304(m) => m.spec_read_prg(addr),
            AnyMapper::M305(m) => m.spec_read_prg(addr),
            AnyMapper::M306(m) => m.spec_read_prg(addr),
            AnyMapper::M308(m) => m.spec_read_prg(addr),
            AnyMapper::M309(m) => m.spec_read_prg(addr),
            AnyMapper::M312(m) => m.spec_read_prg(addr),
            AnyMapper::M319(m) => m.spec_read_prg(addr),
            AnyMapper::M320(m) => m.spec_read_prg(addr),
            AnyMapper::M321(m) => m.spec_read_prg(addr),
            AnyMapper::M326(m) => m.spec_read_prg(addr),
            AnyMapper::M327(m) => m.spec_read_prg(addr),
            AnyMapper::M328(m) => m.spec_read_prg(addr),
            AnyMapper::M329(m) => m.spec_read_prg(addr),
            AnyMapper::M330(m) => m.spec_read_prg(addr),
            AnyMapper::M334(m) => m.spec_read_prg(addr),
            AnyMapper::M336(m) => m.spec_read_prg(addr),
            AnyMapper::M340(m) => m.spec_read_prg(addr),
            AnyMapper::M342(m) => m.spec_read_prg(addr),
            AnyMapper::M344(m) => m.spec_read_prg(addr),
            AnyMapper::M348(m) => m.spec_read_prg(addr),
        }
    }

    /// What a CPU read returns when `open_bus` is the value left on the bus.
    pub open spec fn spec_read_prg_open_bus(&self, addr: u16, open_bus: u8) -> u8 {
        match self {
            AnyMapper::M39(m) => if addr >= 0x8000 || (addr >= 0x6000 && (m.base.prg_6000_banked || m.base.prg_ram@.len() > 0)) { m.spec_read_prg(addr) } else { open_bus },
            AnyMapper::M41(m) => if addr >= 0x8000 || (addr >= 0x6000 && (m.base.prg_6000_banked || m.base.prg_ram@.len() > 0)) { m.spec_read_prg(addr) } else { open_bus },
            AnyMapper::M43(m) => if addr >= 0x8000 || (addr >= 0x6000 && (m.base.prg_6000_banked || m.base.prg_ram@.len() > 0)) { m.spec_read_prg(addr) } else { open_bus },
            AnyMapper::M44(m) => m.spec_read_prg_open_bus(addr, open_bus),
            AnyMapper::M51(m) => m.spec_read_prg_open_bus(addr, open_bus),
            AnyMapper::M55(m) => if addr >= 0x8000 || (addr >= 0x6000 && (m.base.prg_6000_banked || m.base.prg_ram@.len() > 0)) { m.spec_read_prg(addr) } else { open_bus },
            AnyMapper::M57(m) => if addr >= 0x8000 || (addr >= 0x6000 && (m.base.prg_6000_banked || m.base.prg_ram@.len() > 0)) { m.spec_read_prg(addr) } else { open_bus },
            AnyMapper::M58(m) => if addr >= 0x8000 || (addr >= 0x6000 && (m.base.prg_6000_banked || m.base.prg_ram@.len() > 0)) { m.spec_read_prg(addr) } else { open_bus },
            AnyMapper::M60(m) => if addr >= 0x8000 || (addr >= 0x6000 && (m.base.prg_6000_banked || m.base.prg_ram@.len() > 0)) { m.spec_read_prg(addr) } else { open_bus },
            AnyMapper::M74(m) => m.spec_read_prg_open_bus(addr, open_bus),
            AnyMapper::M289(m) => if addr >= 0x8000 || (addr >= 0x6000 && (m.base.prg_6000_banked || m.base.prg_ram@.len() > 0)) { m.spec_read_prg(addr) } else { open_bus },
            AnyMapper::M290(m) => if addr >= 0x8000 || (addr >= 0x6000 && (m.base.prg_6000_banked || m.base.prg_ram@.len() > 0)) { m.spec_read_prg(addr) } else { open_bus },
            AnyMapper::M291(m) => m.spec_read_prg_open_bus(addr, open_bus),
            AnyMapper::M293(m) => if addr >= 0x8000 || (addr >= 0x6000 && (m.base.prg_6000_banked || m.base.prg_ram@.len() > 0)) { m.spec_read_prg(addr) } else { open_bus },
            AnyMapper::M294(m) => if addr >= 0x8000 || (addr >= 0x6000 && (m.base.prg_6000_banked || m.base.prg_ram@.len() > 0)) { m.spec_read_prg(addr) } else { open_bus },
            AnyMapper::M296(m) => m.spec_read_prg_open_bus(addr, open_bus),
            AnyMapper::M297(m) => m.spec_read_prg_open_bus(addr, open_bus),
            AnyMapper::M298(m) => if addr >= 0x8000 || (addr >= 0x6000 && (m.base.prg_6000_banked || m.base.prg_ram@.len() > 0)) { m.spec_read_prg(addr) } else { open_bus },
            AnyMapper::M300(m) => if addr >= 0x8000 || (addr >= 0x6000 && (m.base.prg_6000_banked || m.base.prg_ram@.len() > 0)) { m.spec_read_prg(addr) } else { open_bus },
            AnyMapper::M301(m) => if addr >= 0x8000 || (addr >= 0x6000 && (m.base.prg_6000_banked || m.base.prg_ram@.len() > 0)) { m.spec_read_prg(addr) } else { open_bus },
            AnyMapper::M302(m) => if addr >= 0x8000 || (addr >= 0x6000 && (m.base.prg_6000_banked || m.base.prg_ram@.len() > 0)) { m.spec_read_prg(addr) } else { open_bus },
            AnyMapper::M303(m) => m.spec_read_prg_open_bus(addr, open_bus),
            AnyMapper::M304(m) => if addr >= 0x8000 || (addr >= 0x6000 && (m.base.prg_6000_banked || m.base.prg_ram@.len() > 0)) { m.spec_read_prg(addr) } else { open_bus },
            AnyMapper::M305(m) => if addr >= 0x8000 || (addr >= 0x6000 && (m.base.prg_6000_banked || m.base.prg_ram@.len() > 0)) { m.spec_read_prg(addr) } else { open_bus },
            AnyMapper::M306(m) => if addr >= 0x8000 || (addr >= 0x6000 && (m.base.prg_6000_banked || m.base.prg_ram@.len() > 0)) { m.spec_read_prg(addr) } else { open_bus },
            AnyMapper::M308(m) => if addr >= 0x8000 || (addr >= 0x6000 && (m.inner.base.prg_6000_banked || m.inner.base.prg_ram@.len() > 0)) { m.spec_read_prg(addr) } else { open_bus },
            AnyMapper::M309(m) => if addr >= 0x8000 || (addr >= 0x6000 && (m.base.prg_6000_banked || m.base.prg_ram@.len() > 0)) { m.spec_read_prg(addr) } else { open_bus },
            AnyMapper::M312(m) => if addr >= 0x8000 || (addr >= 0x6000 && (m.base.prg_6000_banked || m.base.prg_ram@.len() > 0)) { m.spec_read_prg(addr) } else { open_bus },
            AnyMapper::M319(m) => if addr >= 0x8000 || (addr >= 0x6000 && (m.base.prg_6000_banked || m.base.prg_ram@.len() > 0)) { m.spec_read_prg(addr) } else { open_bus },
            AnyMapper::M320(m) => if addr >= 0x8000 || (addr >= 0x6000 && (m.base.prg_6000_banked || m.base.prg_ram@.len() > 0)) { m.spec_read_prg(addr) } else { open_bus },
            AnyMapper::M321(m) => m.spec_read_prg_open_bus(addr, open_bus),
            AnyMapper::M326(m) => if addr >= 0x8000 || (addr >= 0x6000 && (m.base.prg_6000_banked || m.base.prg_ram@.len() > 0)) { m.spec_read_prg(addr) } else { open_bus },
            AnyMapper::M327(m) => if addr >= 0x8000 || (addr >= 0x6000 && (m.base.prg_6000_banked || m.base.prg_ram@.len() > 0)) { m.spec_read_prg(addr) } else { open_bus },
            AnyMapper::M328(m) => if addr >= 0x8000 || (addr >= 0x6000 && (m.base.prg_6000_banked || m.base.prg_ram@.len() > 0)) { m.spec_read_prg(addr) } else { open_bus },
            AnyMapper::M329(m) => if addr >= 0x8000 || (addr >= 0x6000 && (m.base.prg_6000_banked || m.base.prg_ram@.len() > 0)) { m.spec_read_prg(addr) } else { open_bus },
            AnyMapper::M330(m) => if addr >= 0x8000 || (addr >= 0x6000 && (m.base.prg_6000_banked || m.base.prg_ram@.len() > 0)) { m.spec_read_prg(addr) } else { open_bus },
            AnyMapper::M334(m) => m.spec_read_prg_open_bus(addr, open_bus),
            AnyMapper::M336(m) => if addr >= 0x8000 || (addr >= 0x6000 && (m.base.prg_6000_banked || m.base.prg_ram@.len() > 0)) { m.spec_read_prg(addr) } else { open_bus },
            AnyMapper::M340(m) => if addr >= 0x8000 || (addr >= 0x6000 && (m.base.prg_6000_banked || m.base.prg_ram@.len() > 0)) { m.spec_read_prg(addr) } else { open_bus },
            AnyMapper::M342(m) => if addr >= 0x8000 || (addr >= 0x6000 && (m.base.prg_6000_banked || m.base.prg_ram@.len() > 0)) { m.spec_read_prg(addr) } else { open_bus },
            AnyMapper::M344(m) => m.spec_read_prg_open_bus(addr, open_bus),
            AnyMapper::M348(m) => m.spec_read_prg_open_bus(addr, open_bus),
        }
    }

    pub open spec fn spec_read_chr(&self, addr: u16) -> u8 {
        match self {
            AnyMapper::M39(m) => m.spec_read_chr(addr),
            AnyMapper::M41(m) => m.spec_read_chr(addr),
            AnyMapper::M43(m) => m.spec_read_chr(addr),
            AnyMapper::M44(m) => m.spec_read_chr(addr),
            AnyMapper::M51(m) => m.spec_read_chr(addr),
            AnyMapper::M55(m) => m.spec_read_chr(addr),
            AnyMapper::M57(m) => m.spec_read_chr(addr),
            AnyMapper::M58(m) => m.spec_read_chr(addr),
            AnyMapper::M60(m) => m.spec_read_chr(addr),
            AnyMapper::M74(m) => m.spec_read_chr(addr),
            AnyMapper::M289(m) => m.spec_read_chr(addr),
            AnyMapper::M290(m) => m.spec_read_chr(addr),
            AnyMapper::M291(m) => m.spec_read_chr(addr),
            AnyMapper::M293(m) => m.spec_read_chr(addr),
            AnyMapper::M294(m) => m.spec_read_chr(addr),
            AnyMapper::M296(m) => m.spec_read_chr(addr),
            AnyMapper::M297(m) => m.spec_read_chr(addr),
            AnyMapper::M298(m) => m.spec_read_chr(addr),
            AnyMapper::M300(m) => m.spec_read_chr(addr),
            AnyMapper::M301(m) => m.spec_read_chr(addr),
            AnyMapper::M302(m) => m.spec_read_chr(addr),
            AnyMapper::M303(m) => m.spec_read_chr(addr),
            AnyMapper::M304(m) => m.spec_read_chr(addr),
            AnyMapper::M305(m) => m.spec_read_chr(addr),
            AnyMapper::M306(m) => m.spec_read_chr(addr),
            AnyMapper::M308(m) => m.spec_read_chr(addr),
            AnyMapper::M309(m) => m.spec_read_chr(addr),
            AnyMapper::M312(m) => m.spec_read_chr(addr),
            AnyMapper::M319(m) => m.spec_read_chr(addr),
            AnyMapper::M320(m) => m.spec_read_chr(addr),
            AnyMapper::M321(m) => m.spec_read_chr(addr),
            AnyMapper::M326(m) => m.spec_read_chr(addr),
            AnyMapper::M327(m) => m.spec_read_chr(addr),
            AnyMapper::M328(m) => m.spec_read_chr(addr),
            AnyMapper::M329(m) => m.spec_read_chr(addr),
            AnyMapper::M330(m) => m.spec_read_chr(addr),
            AnyMapper::M334(m) => m.spec_read_chr(addr),
            AnyMapper::M336(m) => m.spec_read_chr(addr),
            AnyMapper::M340(m) => m.spec_read_chr(addr),
            AnyMapper::M342(m) => m.spec_read_chr(addr),
            AnyMapper::M344(m) => m.spec_read_chr(addr),
            AnyMapper::M348(m) => m.spec_read_chr(addr),
        }
    }

    pub open spec fn spec_mirroring(&self) -> NametableLayout {
        match self {
            AnyMapper::M39(m) => m.spec_mirroring(),
            AnyMapper::M41(m) => m.spec_mirroring(),
            AnyMapper::M43(m) => m.spec_mirroring(),
            AnyMapper::M44(m) => m.spec_mirroring(),
            AnyMapper::M51(m) => m.spec_mirroring(),
            AnyMapper::M55(m) => m.spec_mirroring(),
            AnyMapper::M57(m) => m.spec_mirroring(),
            AnyMapper::M58(m) => m.spec_mirroring(),
            AnyMapper::M60(m) => m.spec_mirroring(),
            AnyMapper::M74(m) => m.spec_mirroring(),
            AnyMapper::M289(m) => m.spec_mirroring(),
            AnyMapper::M290(m) => m.spec_mirroring(),
            AnyMapper::M291(m) => m.spec_mirroring(),
            AnyMapper::M293(m) => m.spec_mirroring(),
            AnyMapper::M294(m) => m.spec_mirroring(),
            AnyMapper::M296(m) => m.spec_mirroring(),
            AnyMapper::M297(m) => m.spec_mirroring(),
            AnyMapper::M298(m) => m.spec_mirroring(),
            AnyMapper::M300(m) => m.spec_mirroring(),
            AnyMapper::M301(m) => m.spec_mirroring(),
            AnyMapper::M302(m) => m.spec_mirroring(),
            AnyMapper::M303(m) => m.spec_mirroring(),
            AnyMapper::M304(m) => m.spec_mirroring(),
            AnyMapper::M305(m) => m.spec_mirroring(),
            AnyMapper::M306(m) => m.spec_mirroring(),
            AnyMapper::M308(m) => m.spec_mirroring(),
            AnyMapper::M309(m) => m.spec_mirroring(),
            AnyMapper::M312(m) => m.spec_mirroring(),
            AnyMapper::M319(m) => m.spec_mirroring(),
            AnyMapper::M320(m) => m.spec_mirroring(),
            AnyMapper::M321(m) => m.spec_mirroring(),
            AnyMapper::M326(m) => m.spec_mirroring(),
            AnyMapper::M327(m) => m.spec_mirroring(),
            AnyMapper::M328(m) => m.spec_mirroring(),
            AnyMapper::M329(m) => m.spec_mirroring(),
            AnyMapper::M330(m) => m.spec_mirroring(),
            AnyMapper::M334(m) => m.spec_mirroring(),
            AnyMapper::M336(m) => m.spec_mirroring(),
            AnyMapper::M340(m) => m.spec_mirroring(),
            AnyMapper::M342(m) => m.spec_mirroring(),
            AnyMapper::M344(m) => m.spec_mirroring(),
            AnyMapper::M348(m) => m.spec_mirroring(),
        }
    }

    pub open spec fn spec_capabilities(&self) -> MapperCapabilities {
        match self {
            AnyMapper::M39(m) => m.base.capabilities,
            AnyMapper::M41(m) => m.base.capabilities,
            AnyMapper::M43(m) => m.base.capabilities,
            AnyMapper::M44(m) => m.mmc3.base.capabilities,
            AnyMapper::M51(m) => m.base.capabilities,
            AnyMapper::M55(m) => m.base.capabilities,
            AnyMapper::M57(m) => m.base.capabilities,
            AnyMapper::M58(m) => m.base.capabilities,
            AnyMapper::M60(m) => m.base.capabilities,
            AnyMapper::M74(m) => m.inner.base.capabilities,
            AnyMapper::M289(m) => m.base.capabilities,
            AnyMapper::M290(m) => m.base.capabilities,
            AnyMapper::M291(m) => m.mmc3.base.capabilities,
            AnyMapper::M293(m) => m.base.capabilities,
            AnyMapper::M294(m) => m.base.capabilities,
            AnyMapper::M296(m) => m.spec_capabilities(),
            AnyMapper::M297(m) => m.mmc1.base.capabilities,
            AnyMapper::M298(m) => m.base.capabilities,
            AnyMapper::M300(m) => m.base.capabilities,
            AnyMapper::M301(m) => m.base.capabilities,
            AnyMapper::M302(m) => m.base.capabilities,
            AnyMapper::M303(m) => m.base.capabilities,
            AnyMapper::M304(m) => m.base.capabilities,
            AnyMapper::M305(m) => m.base.capabilities,
            AnyMapper::M306(m) => m.base.capabilities,
            AnyMapper::M308(m) => m.inner.base.capabilities,
            AnyMapper::M309(m) => m.base.capabilities,
            AnyMapper::M312(m) => m.base.capabilities,
            AnyMapper::M319(m) => m.base.capabilities,
            AnyMapper::M320(m) => m.base.capabilities,
            AnyMapper::M321(m) => m.mmc3.base.capabilities,
            AnyMapper::M326(m) => m.base.capabilities,
            AnyMapper::M327(m) => m.base.capabilities,
            AnyMapper::M328(m) => m.base.capabilities,
            AnyMapper::M329(m) => m.base.capabilities,
            AnyMapper::M330(m) => m.base.capabilities,
            AnyMapper::M334(m) => m.mmc3.base.capabilities,
            AnyMapper::M336(m) => m.base.capabilities,
            AnyMapper::M340(m) => m.base.capabilities,
            AnyMapper::M342(m) => m.base.capabilities,
            AnyMapper::M344(m) => m.mmc3.base.capabilities,
            AnyMapper::M348(m) => m.mmc3.base.capabilities,
        }
    }

    pub open spec fn spec_irq_pending(&self) -> bool {
        match self {
            AnyMapper::M39(m) => m.spec_irq_pending(),
            AnyMapper::M41(m) => m.spec_irq_pending(),
            AnyMapper::M43(m) => m.spec_irq_pending(),
            AnyMapper::M44(m) => m.spec_irq_pending(),
            AnyMapper::M51(m) => m.spec_irq_pending(),
            AnyMapper::M55(m) => m.spec_irq_pending(),
            AnyMapper::M57(m) => m.spec_irq_pending(),
            AnyMapper::M58(m) => m.spec_irq_pending(),
            AnyMapper::M60(m) => m.spec_irq_pending(),
            AnyMapper::M74(m) => m.spec_irq_pending(),
            AnyMapper::M289(m) => m.spec_irq_pending(),
            AnyMapper::M290(m) => m.spec_irq_pending(),
            AnyMapper::M291(m) => m.spec_irq_pending(),
            AnyMapper::M293(m) => m.spec_irq_pending(),
            AnyMapper::M294(m) => m.spec_irq_pending(),
            AnyMapper::M296(m) => m.spec_irq_pending(),
            AnyMapper::M297(m) => m.spec_irq_pending(),
            AnyMapper::M298(m) => m.spec_irq_pending(),
            AnyMapper::M300(m) => m.spec_irq_pending(),
            AnyMapper::M301(m) => m.spec_irq_pending(),
            AnyMapper::M302(m) => m.spec_irq_pending(),
            AnyMapper::M303(m) => m.spec_irq_pending(),
            AnyMapper::M304(m) => m.spec_irq_pending(),
            AnyMapper::M305(m) => m.spec_irq_pending(),
            AnyMapper::M306(m) => m.spec_irq_pending(),
            AnyMapper::M308(m) => m.spec_irq_pending(),
            AnyMapper::M309(m) => m.spec_irq_pending(),
            AnyMapper::M312(m) => m.spec_irq_pending(),
            AnyMapper::M319(m) => m.spec_irq_pending(),
            AnyMapper::M320(m) => m.spec_irq_pending(),
            AnyMapper::M321(m) => m.spec_irq_pending(),
            AnyMapper::M326(m) => m.spec_irq_pending(),
            AnyMapper::M327(m) => m.spec_irq_pending(),
            AnyMapper::M328(m) => m.spec_irq_pending(),
            AnyMapper::M329(m) => m.spec_irq_pending(),
            AnyMapper::M330(m) => m.spec_irq_pending(),
            AnyMapper::M334(m) => m.spec_irq_pending(),
            AnyMapper::M336(m) => m.spec_irq_pending(),
            AnyMapper::M340(m) => m.spec_irq_pending(),
            AnyMapper::M342(m) => m.spec_irq_pending(),
            AnyMapper::M344(m) => m.spec_irq_pending(),
            AnyMapper::M348(m) => m.spec_irq_pending(),
        }
    }

    pub open spec fn read_ok(&self, addr: u16) -> bool {
        match self {
            AnyMapper::M39(m) => m.read_ok(addr),
            AnyMapper::M41(m) => m.read_ok(addr),
            AnyMapper::M43(m) => m.read_ok(addr),
            AnyMapper::M44(m) => m.read_ok(addr),
            AnyMapper::M51(m) => m.read_ok(addr),
            AnyMapper::M55(m) => m.read_ok(addr),
            AnyMapper::M57(m) => m.read_ok(addr),
            AnyMapper::M58(m) => m.read_ok(addr),
            AnyMapper::M60(m) => m.read_ok(addr),
            AnyMapper::M74(m) => m.read_ok(addr),
            AnyMapper::M289(m) => m.read_ok(addr),
            AnyMapper::M290(m) => m.read_ok(addr),
            AnyMapper::M291(m) => m.read_ok(addr),
            AnyMapper::M293(m) => m.read_ok(addr),
            AnyMapper::M294(m) => m.read_ok(addr),
            AnyMapper::M296(m) => m.read_ok(addr),
            AnyMapper::M297(m) => m.read_ok(addr),
            AnyMapper::M298(m) => m.read_ok(addr),
            AnyMapper::M300(m) => m.read_ok(addr),
            AnyMapper::M301(m) => m.read_ok(addr),
            AnyMapper::M302(m) => m.read_ok(addr),
            AnyMapper::M303(m) => m.read_ok(addr),
            AnyMapper::M304(m) => m.read_ok(addr),
            AnyMapper::M305(m) => m.read_ok(addr),
            AnyMapper::M306(m) => m.read_ok(addr),
            AnyMapper::M308(m) => m.read_ok(addr),
            AnyMapper::M309(m) => m.read_ok(addr),
            AnyMapper::M312(m) => m.read_ok(addr),
            AnyMapper::M319(m) => m.read_ok(addr),
            AnyMapper::M320(m) => m.read_ok(addr),
            AnyMapper::M321(m) => m.read_ok(addr),
            AnyMapper::M326(m) => m.read_ok(addr),
            AnyMapper::M327(m) => m.read_ok(addr),
            AnyMapper::M328(m) => m.read_ok(addr),
            AnyMapper::M329(m) => m.read_ok(addr),
            AnyMapper::M330(m) => m.read_ok(addr),
            AnyMapper::M334(m) => m.read_ok(addr),
            AnyMapper::M336(m) => m.read_ok(addr),
            AnyMapper::M340(m) => m.read_ok(addr),
            AnyMapper::M342(m) => m.read_ok(addr),
            AnyMapper::M344(m) => m.read_ok(addr),
            AnyMapper::M348(m) => m.read_ok(addr),
        }
    }

    pub open spec fn cycle_ok(&self) -> bool {
        match self {
            AnyMapper::M39(m) => m.cycle_ok(),
            AnyMapper::M41(m) => m.cycle_ok(),
            AnyMapper::M43(m) => m.cycle_ok(),
            AnyMapper::M44(m) => m.cycle_ok(),
            AnyMapper::M51(m) => m.cycle_ok(),
            AnyMapper::M55(m) => m.cycle_ok(),
            AnyMapper::M57(m) => m.cycle_ok(),
            AnyMapper::M58(m) => m.cycle_ok(),
            AnyMapper::M60(m) => m.cycle_ok(),
            AnyMapper::M74(m) => m.cycle_ok(),
            AnyMapper::M289(m) => m.cycle_ok(),
            AnyMapper::M290(m) => m.cycle_ok(),
            AnyMapper::M291(m) => m.cycle_ok(),
            AnyMapper::M293(m) => m.cycle_ok(),
            AnyMapper::M294(m) => m.cycle_ok(),
            AnyMapper::M296(m) => m.cycle_ok(),
            AnyMapper::M297(m) => m.cycle_ok(),
            AnyMapper::M298(m) => m.cycle_ok(),
            AnyMapper::M300(m) => m.cycle_ok(),
            AnyMapper::M301(m) => m.cycle_ok(),
            AnyMapper::M302(m) => m.cycle_ok(),
            AnyMapper::M303(m) => m.cycle_ok(),
            AnyMapper::M304(m) => m.cycle_ok(),
            AnyMapper::M305(m) => m.cycle_ok(),
            AnyMapper::M306(m) => m.cycle_ok(),
            AnyMapper::M308(m) => m.cycle_ok(),
            AnyMapper::M309(m) => m.cycle_ok(),
            AnyMapper::M312(m) => m.cycle_ok(),
            AnyMapper::M319(m) => m.cycle_ok(),
            AnyMapper::M320(m) => m.cycle_ok(),
            AnyMapper::M321(m) => m.cycle_ok(),
            AnyMapper::M326(m) => m.cycle_ok(),
            AnyMapper::M327(m) => m.cycle_ok(),
            AnyMapper::M328(m) => m.cycle_ok(),
            AnyMapper::M329(m) => m.cycle_ok(),
            AnyMapper::M330(m) => m.cycle_ok(),
            AnyMapper::M334(m) => m.cycle_ok(),
            AnyMapper::M336(m) => m.cycle_ok(),
            AnyMapper::M340(m) => m.cycle_ok(),
            AnyMapper::M342(m) => m.cycle_ok(),
            AnyMapper::M344(m) => m.cycle_ok(),
            AnyMapper::M348(m) => m.cycle_ok(),
        }
    }

    pub open spec fn snapshot(&self) -> Seq<u8> {
        match self {
            AnyMapper::M39(m) => m.snapshot(),
            AnyMapper::M41(m) => m.snapshot(),
            AnyMapper::M43(m) => m.snapshot(),
            AnyMapper::M44(m) => m.snapshot(),
            AnyMapper::M51(m) => m.snapshot(),
            AnyMapper::M55(m) => m.snapshot(),
            AnyMapper::M57(m) => m.snapshot(),
            AnyMapper::M58(m) => m.snapshot(),
            AnyMapper::M60(m) => m.snapshot(),
            AnyMapper::M74(m) => m.snapshot(),
            AnyMapper::M289(m) => m.snapshot(),
            AnyMapper::M290(m) => m.snapshot(),
            AnyMapper::M291(m) => m.snapshot(),
            AnyMapper::M293(m) => m.snapshot(),
            AnyMapper::M294(m) => m.snapshot(),
            AnyMapper::M296(m) => m.snapshot(),
            AnyMapper::M297(m) => m.snapshot(),
            AnyMapper::M298(m) => m.snapshot(),
            AnyMapper::M300(m) => m.snapshot(),
            AnyMapper::M301(m) => m.snapshot(),
            AnyMapper::M302(m) => m.snapshot(),
            AnyMapper::M303(m) => m.snapshot(),
            AnyMapper::M304(m) => m.snapshot(),
            AnyMapper::M305(m) => m.snapshot(),
            AnyMapper::M306(m) => m.snapshot(),
            AnyMapper::M308(m) => m.snapshot(),
            AnyMapper::M309(m) => m.snapshot(),
            AnyMapper::M312(m) => m.snapshot(),
            AnyMapper::M319(m) => m.snapshot(),
            AnyMapper::M320(m) => m.snapshot(),
            AnyMapper::M321(m) => m.snapshot(),
            AnyMapper::M326(m) => m.snapshot(),
            AnyMapper::M327(m) => m.snapshot(),
            AnyMapper::M328(m) => m.snapshot(),
            AnyMapper::M329(m) => m.snapshot(),
            AnyMapper::M330(m) => m.snapshot(),
            AnyMapper::M334(m) => m.snapshot(),
            AnyMapper::M336(m) => m.snapshot(),
            AnyMapper::M340(m) => m.snapshot(),
            AnyMapper::M342(m) => m.snapshot(),
            AnyMapper::M344(m) => m.snapshot(),
            AnyMapper::M348(m) => m.snapshot(),
        }
    }

    pub open spec fn write_post(&self, old: &AnyMapper, addr: u16, value: u8) -> bool {
        match (self, old) {
            (AnyMapper::M39(m), AnyMapper::M39(o)) => m.write_post(o, addr, value),
            (AnyMapper::M41(m), AnyMapper::M41(o)) => m.write_post(o, addr, value),
            (AnyMapper::M43(m), AnyMapper::M43(o)) => m.write_post(o, addr, value),
            (AnyMapper::M44(m), AnyMapper::M44(o)) => m.write_post(o, addr, value),
            (AnyMapper::M51(m), AnyMapper::M51(o)) => m.write_post(o, addr, value),
            (AnyMapper::M55(m), AnyMapper::M55(o)) => m.write_post(o, addr, value),
            (AnyMapper::M57(m), AnyMapper::M57(o)) => m.write_post(o, addr, value),
            (AnyMapper::M58(m), AnyMapper::M58(o)) => m.write_post(o, addr, value),
            (AnyMapper::M60(m), AnyMapper::M60(o)) => m.write_post(o, addr, value),
            (AnyMapper::M74(m), AnyMapper::M74(o)) => m.write_post(o, addr, value),
            (AnyMapper::M289(m), AnyMapper::M289(o)) => m.write_post(o, addr, value),
            (AnyMapper::M290(m), AnyMapper::M290(o)) => m.write_post(o, addr, value),
            (AnyMapper::M291(m), AnyMapper::M291(o)) => m.write_post(o, addr, value),
            (AnyMapper::M293(m), AnyMapper::M293(o)) => m.write_post(o, addr, value),
            (AnyMapper::M294(m), AnyMapper::M294(o)) => m.write_post(o, addr, value),
            (AnyMapper::M296(m), AnyMapper::M296(o)) => m.write_post(o, addr, value),
            (AnyMapper::M297(m), AnyMapper::M297(o)) => m.write_post(o, addr, value),
            (AnyMapper::M298(m), AnyMapper::M298(o)) => m.write_post(o, addr, value),
            (AnyMapper::M300(m), AnyMapper::M300(o)) => m.write_post(o, addr, value),
            (AnyMapper::M301(m), AnyMapper::M301(o)) => m.write_post(o, addr, value),
            (AnyMapper::M302(m), AnyMapper::M302(o)) => m.write_post(o, addr, value),
            (AnyMapper::M303(m), AnyMapper::M303(o)) => m.write_post(o, addr, value),
            (AnyMapper::M304(m), AnyMapper::M304(o)) => m.write_post(o, addr, value),
            (AnyMapper::M305(m), AnyMapper::M305(o)) => m.write_post(o, addr, value),
            (AnyMapper::M306(m), AnyMapper::M306(o)) => m.write_post(o, addr, value),
            (AnyMapper::M308(m), AnyMapper::M308(o)) => m.write_post(o, addr, value),
            (AnyMapper::M309(m), AnyMapper::M309(o)) => m.write_post(o, addr, value),
            (AnyMapper::M312(m), AnyMapper::M312(o)) => m.write_post(o, addr, value),
            (AnyMapper::M319(m), AnyMapper::M319(o)) => m.write_post(o, addr, value),
            (AnyMapper::M320(m), AnyMapper::M320(o)) => m.write_post(o, addr, value),
            (AnyMapper::M321(m), AnyMapper::M321(o)) => m.write_post(o, addr, value),
            (AnyMapper::M326(m), AnyMapper::M326(o)) => m.write_post(o, addr, value),
            (AnyMapper::M327(m), AnyMapper::M327(o)) => m.write_post(o, addr, value),
            (AnyMapper::M328(m), AnyMapper::M328(o)) => m.write_post(o, addr, value),
            (AnyMapper::M329(m), AnyMapper::M329(o)) => m.write_post(o, addr, value),
            (AnyMapper::M330(m), AnyMapper::M330(o)) => m.write_post(o, addr, value),
            (AnyMapper::M334(m), AnyMapper::M334(o)) => m.write_post(o, addr, value),
            (AnyMapper::M336(m), AnyMapper::M336(o)) => m.write_post(o, addr, value),
            (AnyMapper::M340(m), AnyMapper::M340(o)) => m.write_post(o, addr, value),
            (AnyMapper::M342(m), AnyMapper::M342(o)) => m.write_post(o, addr, value),
            (AnyMapper::M344(m), AnyMapper::M344(o)) => m.write_post(o, addr, value),
            (AnyMapper::M348(m), AnyMapper::M348(o)) => m.write_post(o, addr, value),
            _ => false,
        }
    }

    pub open spec fn write_chr_post(&self, old: &AnyMapper, addr: u16, value: u8) -> bool {
        match (self, old) {
            (AnyMapper::M39(m), AnyMapper::M39(o)) => m.write_chr_post(o, addr, value),
            (AnyMapper::M41(m), AnyMapper::M41(o)) => m.write_chr_post(o, addr, value),
            (AnyMapper::M43(m), AnyMapper::M43(o)) => m.write_chr_post(o, addr, value),
            (AnyMapper::M44(m), AnyMapper::M44(o)) => m.write_chr_post(o, addr, value),
            (AnyMapper::M51(m), AnyMapper::M51(o)) => m.write_chr_post(o, addr, value),
            (AnyMapper::M55(m), AnyMapper::M55(o)) => m.write_chr_post(o, addr, value),
            (AnyMapper::M57(m), AnyMapper::M57(o)) => m.write_chr_post(o, addr, value),
            (AnyMapper::M58(m), AnyMapper::M58(o)) => m.write_chr_post(o, addr, value),
            (AnyMapper::M60(m), AnyMapper::M60(o)) => m.write_chr_post(o, addr, value),
            (AnyMapper::M74(m), AnyMapper::M74(o)) => m.write_chr_post(o, addr, value),
            (AnyMapper::M289(m), AnyMapper::M289(o)) => m.write_chr_post(o, addr, value),
            (AnyMapper::M290(m), AnyMapper::M290(o)) => m.write_chr_post(o, addr, value),
            (AnyMapper::M291(m), AnyMapper::M291(o)) => m.write_chr_post(o, addr, value),
            (AnyMapper::M293(m), AnyMapper::M293(o)) => m.write_chr_post(o, addr, value),
            (AnyMapper::M294(m), AnyMapper::M294(o)) => m.write_chr_post(o, addr, value),
            (AnyMapper::M296(m), AnyMapper::M296(o)) => m.write_chr_post(o, addr, value),
            (AnyMapper::M297(m), AnyMapper::M297(o)) => m.write_chr_post(o, addr, value),
            (AnyMapper::M298(m), AnyMapper::M298(o)) => m.write_chr_post(o, addr, value),
            (AnyMapper::M300(m), AnyMapper::M300(o)) => m.write_chr_post(o, addr, value),
            (AnyMapper::M301(m), AnyMapper::M301(o)) => m.write_chr_post(o, addr, value),
            (AnyMapper::M302(m), AnyMapper::M302(o)) => m.write_chr_post(o, addr, value),
            (AnyMapper::M303(m), AnyMapper::M303(o)) => m.write_chr_post(o, addr, value),
            (AnyMapper::M304(m), AnyMapper::M304(o)) => m.write_chr_post(o, addr, value),
            (AnyMapper::M305(m), AnyMapper::M305(o)) => m.write_chr_post(o, addr, value),
            (AnyMapper::M306(m), AnyMapper::M306(o)) => m.write_chr_post(o, addr, value),
            (AnyMapper::M308(m), AnyMapper::M308(o)) => m.write_chr_post(o, addr, value),
            (AnyMapper::M309(m), AnyMapper::M309(o)) => m.write_chr_post(o, addr, value),
            (AnyMapper::M312(m), AnyMapper::M312(o)) => m.write_chr_post(o, addr, value),
            (AnyMapper::M319(m), AnyMapper::M319(o)) => m.write_chr_post(o, addr, value),
            (AnyMapper::M320(m), AnyMapper::M320(o)) => m.write_chr_post(o, addr, value),
            (AnyMapper::M321(m), AnyMapper::M321(o)) => m.write_chr_post(o, addr, value),
            (AnyMapper::M326(m), AnyMapper::M326(o)) => m.write_chr_post(o, addr, value),
            (AnyMapper::M327(m), AnyMapper::M327(o)) => m.write_chr_post(o, addr, value),
            (AnyMapper::M328(m), AnyMapper::M328(o)) => m.write_chr_post(o, addr, value),
            (AnyMapper::M329(m), AnyMapper::M329(o)) => m.write_chr_post(o, addr, value),
            (AnyMapper::M330(m), AnyMapper::M330(o)) => m.write_chr_post(o, addr, value),
            (AnyMapper::M334(m), AnyMapper::M334(o)) => m.write_chr_post(o, addr, value),
            (AnyMapper::M336(m), AnyMapper::M336(o)) => m.write_chr_post(o, addr, value),
            (AnyMapper::M340(m), AnyMapper::M340(o)) => m.write_chr_post(o, addr, value),
            (AnyMapper::M342(m), AnyMapper::M342(o)) => m.write_chr_post(o, addr, value),
            (AnyMapper::M344(m), AnyMapper::M344(o)) => m.write_chr_post(o, addr, value),
            (AnyMapper::M348(m), AnyMapper::M348(o)) => m.write_chr_post(o, addr, value),
            _ => false,
        }
    }

    pub open spec fn restore_post(&self, old: &AnyMapper, data: Seq<u8>) -> bool {
        match (self, old) {
            (AnyMapper::M39(m), AnyMapper::M39(o)) => m.restore_post(o, data),
            (AnyMapper::M41(m), AnyMapper::M41(o)) => m.restore_post(o, data),
            (AnyMapper::M43(m), AnyMapper::M43(o)) => m.restore_post(o, data),
            (AnyMapper::M44(m), AnyMapper::M44(o)) => m.restore_post(o, data),
            (AnyMapper::M51(m), AnyMapper::M51(o)) => m.restore_post(o, data),
            (AnyMapper::M55(m), AnyMapper::M55(o)) => m.restore_post(o, data),
            (AnyMapper::M57(m), AnyMapper::M57(o)) => m.restore_post(o, data),
            (AnyMapper::M58(m), AnyMapper::M58(o)) => m.restore_post(o, data),
            (AnyMapper::M60(m), AnyMapper::M60(o)) => m.restore_post(o, data),
            (AnyMapper::M74(m), AnyMapper::M74(o)) => m.restore_post(o, data),
            (AnyMapper::M289(m), AnyMapper::M289(o)) => m.restore_post(o, data),
            (AnyMapper::M290(m), AnyMapper::M290(o)) => m.restore_post(o, data),
            (AnyMapper::M291(m), AnyMapper::M291(o)) => m.restore_post(o, data),
            (AnyMapper::M293(m), AnyMapper::M293(o)) => m.restore_post(o, data),
            (AnyMapper::M294(m), AnyMapper::M294(o)) => m.restore_post(o, data),
            (AnyMapper::M296(m), AnyMapper::M296(o)) => m.restore_post(o, data),
            (AnyMapper::M297(m), AnyMapper::M297(o)) => m.restore_post(o, data),
            (AnyMapper::M298(m), AnyMapper::M298(o)) => m.restore_post(o, data),
            (AnyMapper::M300(m), AnyMapper::M300(o)) => m.restore_post(o, data),
            (AnyMapper::M301(m), AnyMapper::M301(o)) => m.restore_post(o, data),
            (AnyMapper::M302(m), AnyMapper::M302(o)) => m.restore_post(o, data),
            (AnyMapper::M303(m), AnyMapper::M303(o)) => m.restore_post(o, data),
            (AnyMapper::M304(m), AnyMapper::M304(o)) => m.restore_post(o, data),
            (AnyMapper::M305(m), AnyMapper::M305(o)) => m.restore_post(o, data),
            (AnyMapper::M306(m), AnyMapper::M306(o)) => m.restore_post(o, data),
            (AnyMapper::M308(m), AnyMapper::M308(o)) => m.restore_post(o, data),
            (AnyMapper::M309(m), AnyMapper::M309(o)) => m.restore_post(o, data),
            (AnyMapper::M312(m), AnyMapper::M312(o)) => m.restore_post(o, data),
            (AnyMapper::M319(m), AnyMapper::M319(o)) => m.restore_post(o, data),
            (AnyMapper::M320(m), AnyMapper::M320(o)) => m.restore_post(o, data),
            (AnyMapper::M321(m), AnyMapper::M321(o)) => m.restore_post(o, data),
            (AnyMapper::M326(m), AnyMapper::M326(o)) => m.restore_post(o, data),
            (AnyMapper::M327(m), AnyMapper::M327(o)) => m.restore_post(o, data),
            (AnyMapper::M328(m), AnyMapper::M328(o)) => m.restore_post(o, data),
            (AnyMapper::M329(m), AnyMapper::M329(o)) => m.restore_post(o, data),
            (AnyMapper::M330(m), AnyMapper::M330(o)) => m.restore_post(o, data),
            (AnyMapper::M334(m), AnyMapper::M334(o)) => m.restore_post(o, data),
            (AnyMapper::M336(m), AnyMapper::M336(o)) => m.restore_post(o, data),
            (AnyMapper::M340(m), AnyMapper::M340(o)) => m.restore_post(o, data),
            (AnyMapper::M342(m), AnyMapper::M342(o)) => m.restore_post(o, data),
            (AnyMapper::M344(m), AnyMapper::M344(o)) => m.restore_post(o, data),
            (AnyMapper::M348(m), AnyMapper::M348(o)) => m.restore_post(o, data),
            _ => false,
        }
    }

    pub open spec fn reset_post(&self, old: &AnyMapper) -> bool {
        match (self, old) {
            (AnyMapper::M39(m), AnyMapper::M39(o)) => m.reset_post(o),
            (AnyMapper::M41(m), AnyMapper::M41(o)) => m.reset_post(o),
            (AnyMapper::M43(m), AnyMapper::M43(o)) => m.reset_post(o),
            (AnyMapper::M44(m), AnyMapper::M44(o)) => m.reset_post(o),
            (AnyMapper::M51(m), AnyMapper::M51(o)) => m.reset_post(o),
            (AnyMapper::M55(m), AnyMapper::M55(o)) => m.reset_post(o),
            (AnyMapper::M57(m), AnyMapper::M57(o)) => m.reset_post(o),
            (AnyMapper::M58(m), AnyMapper::M58(o)) => m.reset_post(o),
            (AnyMapper::M60(m), AnyMapper::M60(o)) => m.reset_post(o),
            (AnyMapper::M74(m), AnyMapper::M74(o)) => m.reset_post(o),
            (AnyMapper::M289(m), AnyMapper::M289(o)) => m.reset_post(o),
            (AnyMapper::M290(m), AnyMapper::M290(o)) => m.reset_post(o),
            (AnyMapper::M291(m), AnyMapper::M291(o)) => m.reset_post(o),
            (AnyMapper::M293(m), AnyMapper::M293(o)) => m.reset_post(o),
            (AnyMapper::M294(m), AnyMapper::M294(o)) => m.reset_post(o),
            (AnyMapper::M296(m), AnyMapper::M296(o)) => m.reset_post(o),
            (AnyMapper::M297(m), AnyMapper::M297(o)) => m.reset_post(o),
            (AnyMapper::M298(m), AnyMapper::M298(o)) => m.reset_post(o),
            (AnyMapper::M300(m), AnyMapper::M300(o)) => m.reset_post(o),
            (AnyMapper::M301(m), AnyMapper::M301(o)) => m.reset_post(o),
            (AnyMapper::M302(m), AnyMapper::M302(o)) => m.reset_post(o),
            (AnyMapper::M303(m), AnyMapper::M303(o)) => m.reset_post(o),
            (AnyMapper::M304(m), AnyMapper::M304(o)) => m.reset_post(o),
            (AnyMapper::M305(m), AnyMapper::M305(o)) => m.reset_post(o),
            (AnyMapper::M306(m), AnyMapper::M306(o)) => m.reset_post(o),
            (AnyMapper::M308(m), AnyMapper::M308(o)) => m.reset_post(o),
            (AnyMapper::M309(m), AnyMapper::M309(o)) => m.reset_post(o),
            (AnyMapper::M312(m), AnyMapper::M312(o)) => m.reset_post(o),
            (AnyMapper::M319(m), AnyMapper::M319(o)) => m.reset_post(o),
            (AnyMapper::M320(m), AnyMapper::M320(o)) => m.reset_post(o),
            (AnyMapper::M321(m), AnyMapper::M321(o)) => m.reset_post(o),
            (AnyMapper::M326(m), AnyMapper::M326(o)) => m.reset_post(o),
            (AnyMapper::M327(m), AnyMapper::M327(o)) => m.reset_post(o),
            (AnyMapper::M328(m), AnyMapper::M328(o)) => m.reset_post(o),
            (AnyMapper::M329(m), AnyMapper::M329(o)) => m.reset_post(o),
            (AnyMapper::M330(m), AnyMapper::M330(o)) => m.reset_post(o),
            (AnyMapper::M334(m), AnyMapper::M334(o)) => m.reset_post(o),
            (AnyMapper::M336(m), AnyMapper::M336(o)) => m.reset_post(o),
            (AnyMapper::M340(m), AnyMapper::M340(o)) => m.reset_post(o),
            (AnyMapper::M342(m), AnyMapper::M342(o)) => m.reset_post(o),
            (AnyMapper::M344(m), AnyMapper::M344(o)) => m.reset_post(o),
            (AnyMapper::M348(m), AnyMapper::M348(o)) => m.reset_post(o),
            _ => false,
        }
    }

    pub open spec fn cycle_post(&self, old: &AnyMapper) -> bool {
        match (self, old) {
            (AnyMapper::M39(m), AnyMapper::M39(o)) => m.cycle_post(o),
            (AnyMapper::M41(m), AnyMapper::M41(o)) => m.cycle_post(o),
            (AnyMapper::M43(m), AnyMapper::M43(o)) => m.cycle_post(o),
            (AnyMapper::M44(m), AnyMapper::M44(o)) => m.cycle_post(o),
            (AnyMapper::M51(m), AnyMapper::M51(o)) => m.cycle_post(o),
            (AnyMapper::M55(m), AnyMapper::M55(o)) => m.cycle_post(o),
            (AnyMapper::M57(m), AnyMapper::M57(o)) => m.cycle_post(o),
            (AnyMapper::M58(m), AnyMapper::M58(o)) => m.cycle_post(o),
            (AnyMapper::M60(m), AnyMapper::M60(o)) => m.cycle_post(o),
            (AnyMapper::M74(m), AnyMapper::M74(o)) => m.cycle_post(o),
            (AnyMapper::M289(m), AnyMapper::M289(o)) => m.cycle_post(o),
            (AnyMapper::M290(m), AnyMapper::M290(o)) => m.cycle_post(o),
            (AnyMapper::M291(m), AnyMapper::M291(o)) => m.cycle_post(o),
            (AnyMapper::M293(m), AnyMapper::M293(o)) => m.cycle_post(o),
            (AnyMapper::M294(m), AnyMapper::M294(o)) => m.cycle_post(o),
            (AnyMapper::M296(m), AnyMapper::M296(o)) => m.cycle_post(o),
            (AnyMapper::M297(m), AnyMapper::M297(o)) => m.cycle_post(o),
            (AnyMapper::M298(m), AnyMapper::M298(o)) => m.cycle_post(o),
            (AnyMapper::M300(m), AnyMapper::M300(o)) => m.cycle_post(o),
            (AnyMapper::M301(m), AnyMapper::M301(o)) => m.cycle_post(o),
            (AnyMapper::M302(m), AnyMapper::M302(o)) => m.cycle_post(o),
            (AnyMapper::M303(m), AnyMapper::M303(o)) => m.cycle_post(o),
            (AnyMapper::M304(m), AnyMapper::M304(o)) => m.cycle_post(o),
            (AnyMapper::M305(m), AnyMapper::M305(o)) => m.cycle_post(o),
            (AnyMapper::M306(m), AnyMapper::M306(o)) => m.cycle_post(o),
            (AnyMapper::M308(m), AnyMapper::M308(o)) => m.cycle_post(o),
            (AnyMapper::M309(m), AnyMapper::M309(o)) => m.cycle_post(o),
            (AnyMapper::M312(m), AnyMapper::M312(o)) => m.cycle_post(o),
            (AnyMapper::M319(m), AnyMapper::M319(o)) => m.cycle_post(o),
            (AnyMapper::M320(m), AnyMapper::M320(o)) => m.cycle_post(o),
            (AnyMapper::M321(m), AnyMapper::M321(o)) => m.cycle_post(o),
            (AnyMapper::M326(m), AnyMapper::M326(o)) => m.cycle_post(o),
            (AnyMapper::M327(m), AnyMapper::M327(o)) => m.cycle_post(o),
            (AnyMapper::M328(m), AnyMapper::M328(o)) => m.cycle_post(o),
            (AnyMapper::M329(m), AnyMapper::M329(o)) => m.cycle_post(o),
            (AnyMapper::M330(m), AnyMapper::M330(o)) => m.cycle_post(o),
            (AnyMapper::M334(m), AnyMapper::M334(o)) => m.cycle_post(o),
            (AnyMapper::M336(m), AnyMapper::M336(o)) => m.cycle_post(o),
            (AnyMapper::M340(m), AnyMapper::M340(o)) => m.cycle_post(o),
            (AnyMapper::M342(m), AnyMapper::M342(o)) => m.cycle_post(o),
            (AnyMapper::M344(m), AnyMapper::M344(o)) => m.cycle_post(o),
            (AnyMapper::M348(m), AnyMapper::M348(o)) => m.cycle_post(o),
            _ => false,
        }
    }

    pub open spec fn ppu_address_post(&self, old: &AnyMapper, addr: u16) -> bool {
        match (self, old) {
            (AnyMapper::M39(m), AnyMapper::M39(o)) => m == o,
            (AnyMapper::M41(m), AnyMapper::M41(o)) => m == o,
            (AnyMapper::M43(m), AnyMapper::M43(o)) => m == o,
            (AnyMapper::M44(m), AnyMapper::M44(o)) => m.ppu_address_post(o, addr),
            (AnyMapper::M51(m), AnyMapper::M51(o)) => m == o,
            (AnyMapper::M55(m), AnyMapper::M55(o)) => m == o,
            (AnyMapper::M57(m), AnyMapper::M57(o)) => m == o,
            (AnyMapper::M58(m), AnyMapper::M58(o)) => m == o,
            (AnyMapper::M60(m), AnyMapper::M60(o)) => m == o,
            (AnyMapper::M74(m), AnyMapper::M74(o)) => m.ppu_address_post(o, addr),
            (AnyMapper::M289(m), AnyMapper::M289(o)) => m == o,
            (AnyMapper::M290(m), AnyMapper::M290(o)) => m == o,
            (AnyMapper::M291(m), AnyMapper::M291(o)) => m.ppu_address_post(o, addr),
            (AnyMapper::M293(m), AnyMapper::M293(o)) => m == o,
            (AnyMapper::M294(m), AnyMapper::M294(o)) => m == o,
            (AnyMapper::M296(m), AnyMapper::M296(o)) => m.ppu_address_post(o, addr),
            (AnyMapper::M297(m), AnyMapper::M297(o)) => m == o,
            (AnyMapper::M298(m), AnyMapper::M298(o)) => m == o,
            (AnyMapper::M300(m), AnyMapper::M300(o)) => m == o,
            (AnyMapper::M301(m), AnyMapper::M301(o)) => m == o,
            (AnyMapper::M302(m), AnyMapper::M302(o)) => m == o,
            (AnyMapper::M303(m), AnyMapper::M303(o)) => m == o,
            (AnyMapper::M304(m), AnyMapper::M304(o)) => m == o,
            (AnyMapper::M305(m), AnyMapper::M305(o)) => m == o,
            (AnyMapper::M306(m), AnyMapper::M306(o)) => m == o,
            (AnyMapper::M308(m), AnyMapper::M308(o)) => m == o,
            (AnyMapper::M309(m), AnyMapper::M309(o)) => m == o,
            (AnyMapper::M312(m), AnyMapper::M312(o)) => m == o,
            (AnyMapper::M319(m), AnyMapper::M319(o)) => m == o,
            (AnyMapper::M320(m), AnyMapper::M320(o)) => m == o,
            (AnyMapper::M321(m), AnyMapper::M321(o)) => m.ppu_address_post(o, addr),
            (AnyMapper::M326(m), AnyMapper::M326(o)) => m == o,
            (AnyMapper::M327(m), AnyMapper::M327(o)) => m == o,
            (AnyMapper::M328(m), AnyMapper::M328(o)) => m == o,
            (AnyMapper::M329(m), AnyMapper::M329(o)) => m == o,
            (AnyMapper::M330(m), AnyMapper::M330(o)) => m == o,
            (AnyMapper::M334(m), AnyMapper::M334(o)) => m.ppu_address_post(o, addr),
            (AnyMapper::M336(m), AnyMapper::M336(o)) => m == o,
            (AnyMapper::M340(m), AnyMapper::M340(o)) => m == o,
            (AnyMapper::M342(m), AnyMapper::M342(o)) => m == o,
            (AnyMapper::M344(m), AnyMapper::M344(o)) => m.ppu_address_post(o, addr),
            (AnyMapper::M348(m), AnyMapper::M348(o)) => m.ppu_address_post(o, addr),
            _ => false,
        }
    }

    pub fn mapper_number(&self) -> (n: u16)
        requires
            self.wf(),
        ensures
            n == self.spec_mapper_number(),
    {
        match self {
            AnyMapper::M39(m) => m.mapper_number(),
            AnyMapper::M41(m) => m.mapper_number(),
            AnyMapper::M43(m) => m.mapper_number(),
            AnyMapper::M44(m) => m.mapper_number(),
            AnyMapper::M51(m) => m.mapper_number(),
            AnyMapper::M55(m) => m.mapper_number(),
            AnyMapper::M57(m) => m.mapper_number(),
            AnyMapper::M58(m) => m.mapper_number(),
            AnyMapper::M60(m) => m.mapper_number(),
            AnyMapper::M74(m) => m.mapper_number(),
            AnyMapper::M289(m) => m.mapper_number(),
            AnyMapper::M290(m) => m.mapper_number(),
            AnyMapper::M291(m) => m.mapper_number(),
            AnyMapper::M293(m) => m.mapper_number(),
            AnyMapper::M294(m) => m.mapper_number(),
            AnyMapper::M296(m) => m.mapper_number(),
            AnyMapper::M297(m) => m.mapper_number(),
            AnyMapper::M298(m) => m.mapper_number(),
            AnyMapper::M300(m) => m.mapper_number(),
            AnyMapper::M301(m) => m.mapper_number(),
            AnyMapper::M302(m) => m.mapper_number(),
            AnyMapper::M303(m) => m.mapper_number(),
            AnyMapper::M304(m) => m.mapper_number(),
            AnyMapper::M305(m) => m.mapper_number(),
            AnyMapper::M306(m) => m.mapper_number(),
            AnyMapper::M308(m) => m.mapper_number(),
            AnyMapper::M309(m) => m.mapper_number(),
            AnyMapper::M312(m) => m.mapper_number(),
            AnyMapper::M319(m) => m.mapper_number(),
            AnyMapper::M320(m) => m.mapper_number(),
            AnyMapper::M321(m) => m.mapper_number(),
            AnyMapper::M326(m) => m.mapper_number(),
            AnyMapper::M327(m) => m.mapper_number(),
            AnyMapper::M328(m) => m.mapper_number(),
            AnyMapper::M329(m) => m.mapper_number(),
            AnyMapper::M330(m) => m.mapper_number(),
            AnyMapper::M334(m) => m.mapper_number(),
            AnyMapper::M336(m) => m.mapper_number(),
            AnyMapper::M340(m) => m.mapper_number(),
            AnyMapper::M342(m) => m.mapper_number(),
            AnyMapper::M344(m) => m.mapper_number(),
            AnyMapper::M348(m) => m.mapper_number(),
        }
    }

    pub fn base(&self) -> (b: &BaseMapper)
        requires
            self.wf(),
        ensures
            *b == self.spec_base(),
    {
        match self {
            AnyMapper::M39(m) => m.base(),
            AnyMapper::M41(m) => m.base(),
            AnyMapper::M43(m) => m.base(),
            AnyMapper::M44(m) => m.base(),
            AnyMapper::M51(m) => m.base(),
            AnyMapper::M55(m) => m.base(),
            AnyMapper::M57(m) => m.base(),
            AnyMapper::M58(m) => m.base(),
            AnyMapper::M60(m) => m.base(),
            AnyMapper::M74(m) => m.base(),
            AnyMapper::M289(m) => m.base(),
            AnyMapper::M290(m) => m.base(),
            AnyMapper::M291(m) => m.base(),
            AnyMapper::M293(m) => m.base(),
            AnyMapper::M294(m) => m.base(),
            AnyMapper::M296(m) => m.base(),
            AnyMapper::M297(m) => m.base(),
            AnyMapper::M298(m) => m.base(),
            AnyMapper::M300(m) => m.base(),
            AnyMapper::M301(m) => m.base(),
            AnyMapper::M302(m) => m.base(),
            AnyMapper::M303(m) => m.base(),
            AnyMapper::M304(m) => m.base(),
            AnyMapper::M305(m) => m.base(),
            AnyMapper::M306(m) => m.base(),
            AnyMapper::M308(m) => m.base(),
            AnyMapper::M309(m) => m.base(),
            AnyMapper::M312(m) => m.base(),
            AnyMapper::M319(m) => m.base(),
            AnyMapper::M320(m) => m.base(),
            AnyMapper::M321(m) => m.base(),
            AnyMapper::M326(m) => m.base(),
            AnyMapper::M327(m) => m.base(),
            AnyMapper::M328(m) => m.base(),
            AnyMapper::M329(m) => m.base(),
            AnyMapper::M330(m) => m.base(),
            AnyMapper::M334(m) => m.base(),
            AnyMapper::M336(m) => m.base(),
            AnyMapper::M340(m) => m.base(),
            AnyMapper::M342(m) => m.base(),
            AnyMapper::M344(m) => m.base(),
            AnyMapper::M348(m) => m.base(),
        }
    }

    pub fn read_prg(&self, addr: u16) -> (v: u8)
        requires
            self.wf(),
            self.read_ok(addr),
        ensures
            v == self.spec_read_prg(addr),
    {
        match self {
            AnyMapper::M39(m) => m.read_prg(addr),
            AnyMapper::M41(m) => m.read_prg(addr),
            AnyMapper::M43(m) => m.read_prg(addr),
            AnyMapper::M44(m) => m.read_prg(addr),
            AnyMapper::M51(m) => m.read_prg(addr),
            AnyMapper::M55(m) => m.read_prg(addr),
            AnyMapper::M57(m) => m.read_prg(addr),
            AnyMapper::M58(m) => m.read_prg(addr),
            AnyMapper::M60(m) => m.read_prg(addr),
            AnyMapper::M74(m) => m.read_prg(addr),
            AnyMapper::M289(m) => m.read_prg(addr),
            AnyMapper::M290(m) => m.read_prg(addr),
            AnyMapper::M291(m) => m.read_prg(addr),
            AnyMapper::M293(m) => m.read_prg(addr),
            AnyMapper::M294(m) => m.read_prg(addr),
            AnyMapper::M296(m) => m.read_prg(addr),
            AnyMapper::M297(m) => m.read_prg(addr),
            AnyMapper::M298(m) => m.read_prg(addr),
            AnyMapper::M300(m) => m.read_prg(addr),
            AnyMapper::M301(m) => m.read_prg(addr),
            AnyMapper::M302(m) => m.read_prg(addr),
            AnyMapper::M303(m) => m.read_prg(addr),
            AnyMapper::M304(m) => m.read_prg(addr),
            AnyMapper::M305(m) => m.read_prg(addr),
            AnyMapper::M306(m) => m.read_prg(addr),
            AnyMapper::M308(m) => m.read_prg(addr),
            AnyMapper::M309(m) => m.read_prg(addr),
            AnyMapper::M312(m) => m.read_prg(addr),
            AnyMapper::M319(m) => m.read_prg(addr),
            AnyMapper::M320(m) => m.read_prg(addr),
            AnyMapper::M321(m) => m.read_prg(addr),
            AnyMapper::M326(m) => m.read_prg(addr),
            AnyMapper::M327(m) => m.read_prg(addr),
            AnyMapper::M328(m) => m.read_prg(addr),
            AnyMapper::M329(m) => m.read_prg(addr),
            AnyMapper::M330(m) => m.read_prg(addr),
            AnyMapper::M334(m) => m.read_prg(addr),
            AnyMapper::M336(m) => m.read_prg(addr),
            AnyMapper::M340(m) => m.read_prg(addr),
            AnyMapper::M342(m) => m.read_prg(addr),
            AnyMapper::M344(m) => m.read_prg(addr),
            AnyMapper::M348(m) => m.read_prg(addr),
        }
    }

    /// What a CPU read of `addr` returns, without its side effects.
    #[verifier::rlimit(30)]
    fn peek_prg_open_bus(&self, addr: u16, open_bus: u8) -> (v: u8)
        requires
            self.wf(),
            self.read_ok(addr),
        ensures
            v == self.spec_read_prg_open_bus(addr, open_bus),
    {
        match self {
            AnyMapper::M39(m) => if addr >= 0x8000 || (addr >= 0x6000 && (m.base.prg_6000_banked || m.base.prg_ram.len() > 0)) { m.read_prg(addr) } else { open_bus },
            AnyMapper::M41(m) => if addr >= 0x8000 || (addr >= 0x6000 && (m.base.prg_6000_banked || m.base.prg_ram.len() > 0)) { m.read_prg(addr) } else { open_bus },
            AnyMapper::M43(m) => if addr >= 0x8000 || (addr >= 0x6000 && (m.base.prg_6000_banked || m.base.prg_ram.len() > 0)) { m.read_prg(addr) } else { open_bus },
            AnyMapper::M44(m) => m.read_prg_open_bus(addr, open_bus),
            AnyMapper::M51(m) => m.read_prg_open_bus(addr, open_bus),
            AnyMapper::M55(m) => if addr >= 0x8000 || (addr >= 0x6000 && (m.base.prg_6000_banked || m.base.prg_ram.len() > 0)) { m.read_prg(addr) } else { open_bus },
            AnyMapper::M57(m) => if addr >= 0x8000 || (addr >= 0x6000 && (m.base.prg_6000_banked || m.base.prg_ram.len() > 0)) { m.read_prg(addr) } else { open_bus },
            AnyMapper::M58(m) => if addr >= 0x8000 || (addr >= 0x6000 && (m.base.prg_6000_banked || m.base.prg_ram.len() > 0)) { m.read_prg(addr) } else { open_bus },
            AnyMapper::M60(m) => if addr >= 0x8000 || (addr >= 0x6000 && (m.base.prg_6000_banked || m.base.prg_ram.len() > 0)) { m.read_prg(addr) } else { open_bus },
            AnyMapper::M74(m) => m.read_prg_open_bus(addr, open_bus),
            AnyMapper::M289(m) => if addr >= 0x8000 || (addr >= 0x6000 && (m.base.prg_6000_banked || m.base.prg_ram.len() > 0)) { m.read_prg(addr) } else { open_bus },
            AnyMapper::M290(m) => if addr >= 0x8000 || (addr >= 0x6000 && (m.base.prg_6000_banked || m.base.prg_ram.len() > 0)) { m.read_prg(addr) } else { open_bus },
            AnyMapper::M291(m) => m.read_prg_open_bus(addr, open_bus),
            AnyMapper::M293(m) => if addr >= 0x8000 || (addr >= 0x6000 && (m.base.prg_6000_banked || m.base.prg_ram.len() > 0)) { m.read_prg(addr) } else { open_bus },
            AnyMapper::M294(m) => if addr >= 0x8000 || (addr >= 0x6000 && (m.base.prg_6000_banked || m.base.prg_ram.len() > 0)) { m.read_prg(addr) } else { open_bus },
            AnyMapper::M296(m) => m.read_prg_open_bus(addr, open_bus),
            AnyMapper::M297(m) => m.read_prg_open_bus(addr, open_bus),
            AnyMapper::M298(m) => if addr >= 0x8000 || (addr >= 0x6000 && (m.base.prg_6000_banked || m.base.prg_ram.len() > 0)) { m.read_prg(addr) } else { open_bus },
            AnyMapper::M300(m) => if addr >= 0x8000 || (addr >= 0x6000 && (m.base.prg_6000_banked || m.base.prg_ram.len() > 0)) { m.read_prg(addr) } else { open_bus },
            AnyMapper::M301(m) => if addr >= 0x8000 || (addr >= 0x6000 && (m.base.prg_6000_banked || m.base.prg_ram.len() > 0)) { m.read_prg(addr) } else { open_bus },
            AnyMapper::M302(m) => if addr >= 0x8000 || (addr >= 0x6000 && (m.base.prg_6000_banked || m.base.prg_ram.len() > 0)) { m.read_prg(addr) } else { open_bus },
            AnyMapper::M303(m) => if addr == 0x4030 { if m.irq.is_pending() { 1 } else { 0 } } else if addr >= 0x8000 { m.read_prg(addr) } else { open_bus },
            AnyMapper::M304(m) => if addr >= 0x8000 || (addr >= 0x6000 && (m.base.prg_6000_banked || m.base.prg_ram.len() > 0)) { m.read_prg(addr) } else { open_bus },
            AnyMapper::M305(m) => if addr >= 0x8000 || (addr >= 0x6000 && (m.base.prg_6000_banked || m.base.prg_ram.len() > 0)) { m.read_prg(addr) } else { open_bus },
            AnyMapper::M306(m) => if addr >= 0x8000 || (addr >= 0x6000 && (m.base.prg_6000_banked || m.base.prg_ram.len() > 0)) { m.read_prg(addr) } else { open_bus },
            AnyMapper::M308(m) => if addr >= 0x8000 || (addr >= 0x6000 && (m.inner.base.prg_6000_banked || m.inner.base.prg_ram.len() > 0)) { m.read_prg(addr) } else { open_bus },
            AnyMapper::M309(m) => if addr >= 0x8000 || (addr >= 0x6000 && (m.base.prg_6000_banked || m.base.prg_ram.len() > 0)) { m.read_prg(addr) } else { open_bus },
            AnyMapper::M312(m) => if addr >= 0x8000 || (addr >= 0x6000 && (m.base.prg_6000_banked || m.base.prg_ram.len() > 0)) { m.read_prg(addr) } else { open_bus },
            AnyMapper::M319(m) => if addr >= 0x8000 || (addr >= 0x6000 && (m.base.prg_6000_banked || m.base.prg_ram.len() > 0)) { m.read_prg(addr) } else { open_bus },
            AnyMapper::M320(m) => if addr >= 0x8000 || (addr >= 0x6000 && (m.base.prg_6000_banked || m.base.prg_ram.len() > 0)) { m.read_prg(addr) } else { open_bus },
            AnyMapper::M321(m) => m.read_prg_open_bus(addr, open_bus),
            AnyMapper::M326(m) => if addr >= 0x8000 || (addr >= 0x6000 && (m.base.prg_6000_banked || m.base.prg_ram.len() > 0)) { m.read_prg(addr) } else { open_bus },
            AnyMapper::M327(m) => if addr >= 0x8000 || (addr >= 0x6000 && (m.base.prg_6000_banked || m.base.prg_ram.len() > 0)) { m.read_prg(addr) } else { open_bus },
            AnyMapper::M328(m) => if addr >= 0x8000 || (addr >= 0x6000 && (m.base.prg_6000_banked || m.base.prg_ram.len() > 0)) { m.read_prg(addr) } else { open_bus },
            AnyMapper::M329(m) => if addr >= 0x8000 || (addr >= 0x6000 && (m.base.prg_6000_banked || m.base.prg_ram.len() > 0)) { m.read_prg(addr) } else { open_bus },
            AnyMapper::M330(m) => if addr >= 0x8000 || (addr >= 0x6000 && (m.base.prg_6000_banked || m.base.prg_ram.len() > 0)) { m.read_prg(addr) } else { open_bus },
            AnyMapper::M334(m) => m.read_prg_open_bus(addr, open_bus),
            AnyMapper::M336(m) => if addr >= 0x8000 || (addr >= 0x6000 && (m.base.prg_6000_banked || m.base.prg_ram.len() > 0)) { m.read_prg(addr) } else { open_bus },
            AnyMapper::M340(m) => if addr >= 0x8000 || (addr >= 0x6000 && (m.base.prg_6000_banked || m.base.prg_ram.len() > 0)) { m.read_prg(addr) } else { open_bus },
            AnyMapper::M342(m) => if addr >= 0x8000 || (addr >= 0x6000 && (m.base.prg_6000_banked || m.base.prg_ram.len() > 0)) { m.read_prg(addr) } else { open_bus },
            AnyMapper::M344(m) => m.read_prg_open_bus(addr, open_bus),
            AnyMapper::M348(m) => m.read_prg_open_bus(addr, open_bus),
        }
    }

    /// A CPU read of `addr` with `open_bus` left on the bus. Only board 303
    /// changes on a read: reading `$4030` acknowledges its IRQ.
    pub fn read_prg_open_bus(&mut self, addr: u16, open_bus: u8) -> (v: u8)
        requires
            old(self).wf(),
            old(self).read_ok(addr),
        ensures
            v == old(self).spec_read_prg_open_bus(addr, open_bus),
            final(self).wf(),
            final(self).read_post(old(self), addr),
    {
        match self {
            AnyMapper::M303(m) => m.read_prg_open_bus(addr, open_bus),
            _ => self.peek_prg_open_bus(addr, open_bus),
        }
    }

    /// Writes that the board takes without fault; only board 296 refuses
    /// any (an MMC1 serial write with 8 or more bits already shifted in).
    pub open spec fn write_ok(&self, addr: u16, value: u8) -> bool {
        match self {
            AnyMapper::M296(m) => m.write_ok(addr, value),
            _ => true,
        }
    }

    /// State after a CPU read of `addr`: only board 303 changes, when `$4030`
    /// is read.
    pub open spec fn read_post(&self, old: &Self, addr: u16) -> bool {
        match (self, old) {
            (AnyMapper::M303(n), AnyMapper::M303(o)) => n.read_post(o, addr),
            _ => *self == *old,
        }
    }

    pub fn read_chr(&self, addr: u16) -> (v: u8)
        requires
            self.wf(),
        ensures
            v == self.spec_read_chr(addr),
    {
        match self {
            AnyMapper::M39(m) => m.read_chr(addr),
            AnyMapper::M41(m) => m.read_chr(addr),
            AnyMapper::M43(m) => m.read_chr(addr),
            AnyMapper::M44(m) => m.read_chr(addr),
            AnyMapper::M51(m) => m.read_chr(addr),
            AnyMapper::M55(m) => m.read_chr(addr),
            AnyMapper::M57(m) => m.read_chr(addr),
            AnyMapper::M58(m) => m.read_chr(addr),
            AnyMapper::M60(m) => m.read_chr(addr),
            AnyMapper::M74(m) => m.read_chr(addr),
            AnyMapper::M289(m) => m.read_chr(addr),
            AnyMapper::M290(m) => m.read_chr(addr),
            AnyMapper::M291(m) => m.read_chr(addr),
            AnyMapper::M293(m) => m.read_chr(addr),
            AnyMapper::M294(m) => m.read_chr(addr),
            AnyMapper::M296(m) => m.read_chr(addr),
            AnyMapper::M297(m) => m.read_chr(addr),
            AnyMapper::M298(m) => m.read_chr(addr),
            AnyMapper::M300(m) => m.read_chr(addr),
            AnyMapper::M301(m) => m.read_chr(addr),
            AnyMapper::M302(m) => m.read_chr(addr),
            AnyMapper::M303(m) => m.read_chr(addr),
            AnyMapper::M304(m) => m.read_chr(addr),
            AnyMapper::M305(m) => m.read_chr(addr),
            AnyMapper::M306(m) => m.read_chr(addr),
            AnyMapper::M308(m) => m.read_chr(addr),
            AnyMapper::M309(m) => m.read_chr(addr),
            AnyMapper::M312(m) => m.read_chr(addr),
            AnyMapper::M319(m) => m.read_chr(addr),
            AnyMapper::M320(m) => m.read_chr(addr),
            AnyMapper::M321(m) => m.read_chr(addr),
            AnyMapper::M326(m) => m.read_chr(addr),
            AnyMapper::M327(m) => m.read_chr(addr),
            AnyMapper::M328(m) => m.read_chr(addr),
            AnyMapper::M329(m) => m.read_chr(addr),
            AnyMapper::M330(m) => m.read_chr(addr),
            AnyMapper::M334(m) => m.read_chr(addr),
            AnyMapper::M336(m) => m.read_chr(addr),
            AnyMapper::M340(m) => m.read_chr(addr),
            AnyMapper::M342(m) => m.read_chr(addr),
            AnyMapper::M344(m) => m.read_chr(addr),
            AnyMapper::M348(m) => m.read_chr(addr),
        }
    }

    pub fn get_mirroring(&self) -> (l: NametableLayout)
        requires
            self.wf(),
        ensures
            l == self.spec_mirroring(),
    {
        match self {
            AnyMapper::M39(m) => m.get_mirroring(),
            AnyMapper::M41(m) => m.get_mirroring(),
            AnyMapper::M43(m) => m.get_mirroring(),
            AnyMapper::M44(m) => m.get_mirroring(),
            AnyMapper::M51(m) => m.get_mirroring(),
            AnyMapper::M55(m) => m.get_mirroring(),
            AnyMapper::M57(m) => m.get_mirroring(),
            AnyMapper::M58(m) => m.get_mirroring(),
            AnyMapper::M60(m) => m.get_mirroring(),
            AnyMapper::M74(m) => m.get_mirroring(),
            AnyMapper::M289(m) => m.get_mirroring(),
            AnyMapper::M290(m) => m.get_mirroring(),
            AnyMapper::M291(m) => m.get_mirroring(),
            AnyMapper::M293(m) => m.get_mirroring(),
            AnyMapper::M294(m) => m.get_mirroring(),
            AnyMapper::M296(m) => m.get_mirroring(),
            AnyMapper::M297(m) => m.get_mirroring(),
            AnyMapper::M298(m) => m.get_mirroring(),
            AnyMapper::M300(m) => m.get_mirroring(),
            AnyMapper::M301(m) => m.get_mirroring(),
            AnyMapper::M302(m) => m.get_mirroring(),
            AnyMapper::M303(m) => m.get_mirroring(),
            AnyMapper::M304(m) => m.get_mirroring(),
            AnyMapper::M305(m) => m.get_mirroring(),
            AnyMapper::M306(m) => m.get_mirroring(),
            AnyMapper::M308(m) => m.get_mirroring(),
            AnyMapper::M309(m) => m.get_mirroring(),
            AnyMapper::M312(m) => m.get_mirroring(),
            AnyMapper::M319(m) => m.get_mirroring(),
            AnyMapper::M320(m) => m.get_mirroring(),
            AnyMapper::M321(m) => m.get_mirroring(),
            AnyMapper::M326(m) => m.get_mirroring(),
            AnyMapper::M327(m) => m.get_mirroring(),
            AnyMapper::M328(m) => m.get_mirroring(),
            AnyMapper::M329(m) => m.get_mirroring(),
            AnyMapper::M330(m) => m.get_mirroring(),
            AnyMapper::M334(m) => m.get_mirroring(),
            AnyMapper::M336(m) => m.get_mirroring(),
            AnyMapper::M340(m) => m.get_mirroring(),
            AnyMapper::M342(m) => m.get_mirroring(),
            AnyMapper::M344(m) => m.get_mirroring(),
            AnyMapper::M348(m) => m.get_mirroring(),
        }
    }

    pub fn capabilities(&self) -> (c: MapperCapabilities)
        requires
            self.wf(),
        ensures
            c == self.spec_capabilities(),
    {
        match self {
            AnyMapper::M39(m) => m.capabilities(),
            AnyMapper::M41(m) => m.capabilities(),
            AnyMapper::M43(m) => m.capabilities(),
            AnyMapper::M44(m) => m.capabilities(),
            AnyMapper::M51(m) => m.capabilities(),
            AnyMapper::M55(m) => m.capabilities(),
            AnyMapper::M57(m) => m.capabilities(),
            AnyMapper::M58(m) => m.capabilities(),
            AnyMapper::M60(m) => m.capabilities(),
            AnyMapper::M74(m) => m.capabilities(),
            AnyMapper::M289(m) => m.capabilities(),
            AnyMapper::M290(m) => m.capabilities(),
            AnyMapper::M291(m) => m.capabilities(),
            AnyMapper::M293(m) => m.capabilities(),
            AnyMapper::M294(m) => m.capabilities(),
            AnyMapper::M296(m) => m.capabilities(),
            AnyMapper::M297(m) => m.capabilities(),
            AnyMapper::M298(m) => m.capabilities(),
            AnyMapper::M300(m) => m.capabilities(),
            AnyMapper::M301(m) => m.capabilities(),
            AnyMapper::M302(m) => m.capabilities(),
            AnyMapper::M303(m) => m.capabilities(),
            AnyMapper::M304(m) => m.capabilities(),
            AnyMapper::M305(m) => m.capabilities(),
            AnyMapper::M306(m) => m.capabilities(),
            AnyMapper::M308(m) => m.capabilities(),
            AnyMapper::M309(m) => m.capabilities(),
            AnyMapper::M312(m) => m.capabilities(),
            AnyMapper::M319(m) => m.capabilities(),
            AnyMapper::M320(m) => m.capabilities(),
            AnyMapper::M321(m) => m.capabilities(),
            AnyMapper::M326(m) => m.capabilities(),
            AnyMapper::M327(m) => m.capabilities(),
            AnyMapper::M328(m) => m.capabilities(),
            AnyMapper::M329(m) => m.capabilities(),
            AnyMapper::M330(m) => m.capabilities(),
            AnyMapper::M334(m) => m.capabilities(),
            AnyMapper::M336(m) => m.capabilities(),
            AnyMapper::M340(m) => m.capabilities(),
            AnyMapper::M342(m) => m.capabilities(),
            AnyMapper::M344(m) => m.capabilities(),
            AnyMapper::M348(m) => m.capabilities(),
        }
    }

    pub fn irq_pending(&self) -> (p: bool)
        requires
            self.wf(),
        ensures
            p == self.spec_irq_pending(),
    {
        match self {
            AnyMapper::M39(m) => m.irq_pending(),
            AnyMapper::M41(m) => m.irq_pending(),
            AnyMapper::M43(m) => m.irq_pending(),
            AnyMapper::M44(m) => m.irq_pending(),
            AnyMapper::M51(m) => m.irq_pending(),
            AnyMapper::M55(m) => m.irq_pending(),
            AnyMapper::M57(m) => m.irq_pending(),
            AnyMapper::M58(m) => m.irq_pending(),
            AnyMapper::M60(m) => m.irq_pending(),
            AnyMapper::M74(m) => m.irq_pending(),
            AnyMapper::M289(m) => m.irq_pending(),
            AnyMapper::M290(m) => m.irq_pending(),
            AnyMapper::M291(m) => m.irq_pending(),
            AnyMapper::M293(m) => m.irq_pending(),
            AnyMapper::M294(m) => m.irq_pending(),
            AnyMapper::M296(m) => m.irq_pending(),
            AnyMapper::M297(m) => m.irq_pending(),
            AnyMapper::M298(m) => m.irq_pending(),
            AnyMapper::M300(m) => m.irq_pending(),
            AnyMapper::M301(m) => m.irq_pending(),
            AnyMapper::M302(m) => m.irq_pending(),
            AnyMapper::M303(m) => m.irq_pending(),
            AnyMapper::M304(m) => m.irq_pending(),
            AnyMapper::M305(m) => m.irq_pending(),
            AnyMapper::M306(m) => m.irq_pending(),
            AnyMapper::M308(m) => m.irq_pending(),
            AnyMapper::M309(m) => m.irq_pending(),
            AnyMapper::M312(m) => m.irq_pending(),
            AnyMapper::M319(m) => m.irq_pending(),
            AnyMapper::M320(m) => m.irq_pending(),
            AnyMapper::M321(m) => m.irq_pending(),
            AnyMapper::M326(m) => m.irq_pending(),
            AnyMapper::M327(m) => m.irq_pending(),
            AnyMapper::M328(m) => m.irq_pending(),
            AnyMapper::M329(m) => m.irq_pending(),
            AnyMapper::M330(m) => m.irq_pending(),
            AnyMapper::M334(m) => m.irq_pending(),
            AnyMapper::M336(m) => m.irq_pending(),
            AnyMapper::M340(m) => m.irq_pending(),
            AnyMapper::M342(m) => m.irq_pending(),
            AnyMapper::M344(m) => m.irq_pending(),
            AnyMapper::M348(m) => m.irq_pending(),
        }
    }

    pub fn registers_snapshot(&self) -> (s: Vec<u8>)
        requires
            self.wf(),
        ensures
            s@ == self.snapshot(),
    {
        match self {
            AnyMapper::M39(m) => m.registers_snapshot(),
            AnyMapper::M41(m) => m.registers_snapshot(),
            AnyMapper::M43(m) => m.registers_snapshot(),
            AnyMapper::M44(m) => m.registers_snapshot(),
            AnyMapper::M51(m) => m.registers_snapshot(),
            AnyMapper::M55(m) => m.registers_snapshot(),
            AnyMapper::M57(m) => m.registers_snapshot(),
            AnyMapper::M58(m) => m.registers_snapshot(),
            AnyMapper::M60(m) => m.registers_snapshot(),
            AnyMapper::M74(m) => m.registers_snapshot(),
            AnyMapper::M289(m) => m.registers_snapshot(),
            AnyMapper::M290(m) => m.registers_snapshot(),
            AnyMapper::M291(m) => m.registers_snapshot(),
            AnyMapper::M293(m) => m.registers_snapshot(),
            AnyMapper::M294(m) => m.registers_snapshot(),
            AnyMapper::M296(m) => m.registers_snapshot(),
            AnyMapper::M297(m) => m.registers_snapshot(),
            AnyMapper::M298(m) => m.registers_snapshot(),
            AnyMapper::M300(m) => m.registers_snapshot(),
            AnyMapper::M301(m) => m.registers_snapshot(),
            AnyMapper::M302(m) => m.registers_snapshot(),
            AnyMapper::M303(m) => m.registers_snapshot(),
            AnyMapper::M304(m) => m.registers_snapshot(),
            AnyMapper::M305(m) => m.registers_snapshot(),
            AnyMapper::M306(m) => m.registers_snapshot(),
            AnyMapper::M308(m) => m.registers_snapshot(),
            AnyMapper::M309(m) => m.registers_snapshot(),
            AnyMapper::M312(m) => m.registers_snapshot(),
            AnyMapper::M319(m) => m.registers_snapshot(),
            AnyMapper::M320(m) => m.registers_snapshot(),
            AnyMapper::M321(m) => m.registers_snapshot(),
            AnyMapper::M326(m) => m.registers_snapshot(),
            AnyMapper::M327(m) => m.registers_snapshot(),
            AnyMapper::M328(m) => m.registers_snapshot(),
            AnyMapper::M329(m) => m.registers_snapshot(),
            AnyMapper::M330(m) => m.registers_snapshot(),
            AnyMapper::M334(m) => m.registers_snapshot(),
            AnyMapper::M336(m) => m.registers_snapshot(),
            AnyMapper::M340(m) => m.registers_snapshot(),
            AnyMapper::M342(m) => m.registers_snapshot(),
            AnyMapper::M344(m) => m.registers_snapshot(),
            AnyMapper::M348(m) => m.registers_snapshot(),
        }
    }

    pub fn write_prg(&mut self, addr: u16, value: u8)
        requires
            old(self).wf(),
            old(self).write_ok(addr, value),
        ensures
            final(self).write_post(old(self), addr, value),
    {
        match self {
            AnyMapper::M39(m) => m.write_prg(addr, value),
            AnyMapper::M41(m) => m.write_prg(addr, value),
            AnyMapper::M43(m) => m.write_prg(addr, value),
            AnyMapper::M44(m) => m.write_prg(addr, value),
            AnyMapper::M51(m) => m.write_prg(addr, value),
            AnyMapper::M55(m) => m.write_prg(addr, value),
            AnyMapper::M57(m) => m.write_prg(addr, value),
            AnyMapper::M58(m) => m.write_prg(addr, value),
            AnyMapper::M60(m) => m.write_prg(addr, value),
            AnyMapper::M74(m) => m.write_prg(addr, value),
            AnyMapper::M289(m) => m.write_prg(addr, value),
            AnyMapper::M290(m) => m.write_prg(addr, value),
            AnyMapper::M291(m) => m.write_prg(addr, value),
            AnyMapper::M293(m) => m.write_prg(addr, value),
            AnyMapper::M294(m) => m.write_prg(addr, value),
            AnyMapper::M296(m) => m.write_prg(addr, value),
            AnyMapper::M297(m) => m.write_prg(addr, value),
            AnyMapper::M298(m) => m.write_prg(addr, value),
            AnyMapper::M300(m) => m.write_prg(addr, value),
            AnyMapper::M301(m) => m.write_prg(addr, value),
            AnyMapper::M302(m) => m.write_prg(addr, value),
            AnyMapper::M303(m) => m.write_prg(addr, value),
            AnyMapper::M304(m) => m.write_prg(addr, value),
            AnyMapper::M305(m) => m.write_prg(addr, value),
            AnyMapper::M306(m) => m.write_prg(addr, value),
            AnyMapper::M308(m) => m.write_prg(addr, value),
            AnyMapper::M309(m) => m.write_prg(addr, value),
            AnyMapper::M312(m) => m.write_prg(addr, value),
            AnyMapper::M319(m) => m.write_prg(addr, value),
            AnyMapper::M320(m) => m.write_prg(addr, value),
            AnyMapper::M321(m) => m.write_prg(addr, value),
            AnyMapper::M326(m) => m.write_prg(addr, value),
            AnyMapper::M327(m) => m.write_prg(addr, value),
            AnyMapper::M328(m) => m.write_prg(addr, value),
            AnyMapper::M329(m) => m.write_prg(addr, value),
            AnyMapper::M330(m) => m.write_prg(addr, value),
            AnyMapper::M334(m) => m.write_prg(addr, value),
            AnyMapper::M336(m) => m.write_prg(addr, value),
            AnyMapper::M340(m) => m.write_prg(addr, value),
            AnyMapper::M342(m) => m.write_prg(addr, value),
            AnyMapper::M344(m) => m.write_prg(addr, value),
            AnyMapper::M348(m) => m.write_prg(addr, value),
        }
    }

    pub fn write_chr(&mut self, addr: u16, value: u8)
        requires
            old(self).wf(),
        ensures
            final(self).write_chr_post(old(self), addr, value),
    {
        match self {
            AnyMapper::M39(m) => m.write_chr(addr, value),
            AnyMapper::M41(m) => m.write_chr(addr, value),
            AnyMapper::M43(m) => m.write_chr(addr, value),
            AnyMapper::M44(m) => m.write_chr(addr, value),
            AnyMapper::M51(m) => m.write_chr(addr, value),
            AnyMapper::M55(m) => m.write_chr(addr, value),
            AnyMapper::M57(m) => m.write_chr(addr, value),
            AnyMapper::M58(m) => m.write_chr(addr, value),
            AnyMapper::M60(m) => m.write_chr(addr, value),
            AnyMapper::M74(m) => m.write_chr(addr, value),
            AnyMapper::M289(m) => m.write_chr(addr, value),
            AnyMapper::M290(m) => m.write_chr(addr, value),
            AnyMapper::M291(m) => m.write_chr(addr, value),
            AnyMapper::M293(m) => m.write_chr(addr, value),
            AnyMapper::M294(m) => m.write_chr(addr, value),
            AnyMapper::M296(m) => m.write_chr(addr, value),
            AnyMapper::M297(m) => m.write_chr(addr, value),
            AnyMapper::M298(m) => m.write_chr(addr, value),
            AnyMapper::M300(m) => m.write_chr(addr, value),
            AnyMapper::M301(m) => m.write_chr(addr, value),
            AnyMapper::M302(m) => m.write_chr(addr, value),
            AnyMapper::M303(m) => m.write_chr(addr, value),
            AnyMapper::M304(m) => m.write_chr(addr, value),
            AnyMapper::M305(m) => m.write_chr(addr, value),
            AnyMapper::M306(m) => m.write_chr(addr, value),
            AnyMapper::M308(m) => m.write_chr(addr, value),
            AnyMapper::M309(m) => m.write_chr(addr, value),
            AnyMapper::M312(m) => m.write_chr(addr, value),
            AnyMapper::M319(m) => m.write_chr(addr, value),
            AnyMapper::M320(m) => m.write_chr(addr, value),
            AnyMapper::M321(m) => m.write_chr(addr, value),
            AnyMapper::M326(m) => m.write_chr(addr, value),
            AnyMapper::M327(m) => m.write_chr(addr, value),
            AnyMapper::M328(m) => m.write_chr(addr, value),
            AnyMapper::M329(m) => m.write_chr(addr, value),
            AnyMapper::M330(m) => m.write_chr(addr, value),
            AnyMapper::M334(m) => m.write_chr(addr, value),
            AnyMapper::M336(m) => m.write_chr(addr, value),
            AnyMapper::M340(m) => m.write_chr(addr, value),
            AnyMapper::M342(m) => m.write_chr(addr, value),
            AnyMapper::M344(m) => m.write_chr(addr, value),
            AnyMapper::M348(m) => m.write_chr(addr, value),
        }
    }

    pub fn restore_registers(&mut self, data: &[u8])
        requires
            old(self).wf(),
        ensures
            final(self).restore_post(old(self), data@),
    {
        match self {
            AnyMapper::M39(m) => m.restore_registers(data),
            AnyMapper::M41(m) => m.restore_registers(data),
            AnyMapper::M43(m) => m.restore_registers(data),
            AnyMapper::M44(m) => m.restore_registers(data),
            AnyMapper::M51(m) => m.restore_registers(data),
            AnyMapper::M55(m) => m.restore_registers(data),
            AnyMapper::M57(m) => m.restore_registers(data),
            AnyMapper::M58(m) => m.restore_registers(data),
            AnyMapper::M60(m) => m.restore_registers(data),
            AnyMapper::M74(m) => m.restore_registers(data),
            AnyMapper::M289(m) => m.restore_registers(data),
            AnyMapper::M290(m) => m.restore_registers(data),
            AnyMapper::M291(m) => m.restore_registers(data),
            AnyMapper::M293(m) => m.restore_registers(data),
            AnyMapper::M294(m) => m.restore_registers(data),
            AnyMapper::M296(m) => m.restore_registers(data),
            AnyMapper::M297(m) => m.restore_registers(data),
            AnyMapper::M298(m) => m.restore_registers(data),
            AnyMapper::M300(m) => m.restore_registers(data),
            AnyMapper::M301(m) => m.restore_registers(data),
            AnyMapper::M302(m) => m.restore_registers(data),
            AnyMapper::M303(m) => m.restore_registers(data),
            AnyMapper::M304(m) => m.restore_registers(data),
            AnyMapper::M305(m) => m.restore_registers(data),
            AnyMapper::M306(m) => m.restore_registers(data),
            AnyMapper::M308(m) => m.restore_registers(data),
            AnyMapper::M309(m) => m.restore_registers(data),
            AnyMapper::M312(m) => m.restore_registers(data),
            AnyMapper::M319(m) => m.restore_registers(data),
            AnyMapper::M320(m) => m.restore_registers(data),
            AnyMapper::M321(m) => m.restore_registers(data),
            AnyMapper::M326(m) => m.restore_registers(data),
            AnyMapper::M327(m) => m.restore_registers(data),
            AnyMapper::M328(m) => m.restore_registers(data),
            AnyMapper::M329(m) => m.restore_registers(data),
            AnyMapper::M330(m) => m.restore_registers(data),
            AnyMapper::M334(m) => m.restore_registers(data),
            AnyMapper::M336(m) => m.restore_registers(data),
            AnyMapper::M340(m) => m.restore_registers(data),
            AnyMapper::M342(m) => m.restore_registers(data),
            AnyMapper::M344(m) => m.restore_registers(data),
            AnyMapper::M348(m) => m.restore_registers(data),
        }
    }

    pub fn reset(&mut self)
        requires
            old(self).wf(),
        ensures
            final(self).reset_post(old(self)),
    {
        match self {
            AnyMapper::M39(m) => m.reset(),
            AnyMapper::M41(m) => m.reset(),
            AnyMapper::M43(m) => m.reset(),
            AnyMapper::M44(m) => m.reset(),
            AnyMapper::M51(m) => m.reset(),
            AnyMapper::M55(m) => m.reset(),
            AnyMapper::M57(m) => m.reset(),
            AnyMapper::M58(m) => m.reset(),
            AnyMapper::M60(m) => m.reset(),
            AnyMapper::M74(m) => m.reset(),
            AnyMapper::M289(m) => m.reset(),
            AnyMapper::M290(m) => m.reset(),
            AnyMapper::M291(m) => m.reset(),
            AnyMapper::M293(m) => m.reset(),
            AnyMapper::M294(m) => m.reset(),
            AnyMapper::M296(m) => m.reset(),
            AnyMapper::M297(m) => m.reset(),
            AnyMapper::M298(m) => m.reset(),
            AnyMapper::M300(m) => m.reset(),
            AnyMapper::M301(m) => m.reset(),
            AnyMapper::M302(m) => m.reset(),
            AnyMapper::M303(m) => m.reset(),
            AnyMapper::M304(m) => m.reset(),
            AnyMapper::M305(m) => m.reset(),
            AnyMapper::M306(m) => m.reset(),
            AnyMapper::M308(m) => m.reset(),
            AnyMapper::M309(m) => m.reset(),
            AnyMapper::M312(m) => m.reset(),
            AnyMapper::M319(m) => m.reset(),
            AnyMapper::M320(m) => m.reset(),
            AnyMapper::M321(m) => m.reset(),
            AnyMapper::M326(m) => m.reset(),
            AnyMapper::M327(m) => m.reset(),
            AnyMapper::M328(m) => m.reset(),
            AnyMapper::M329(m) => m.reset(),
            AnyMapper::M330(m) => m.reset(),
            AnyMapper::M334(m) => m.reset(),
            AnyMapper::M336(m) => m.reset(),
            AnyMapper::M340(m) => m.reset(),
            AnyMapper::M342(m) => m.reset(),
            AnyMapper::M344(m) => m.reset(),
            AnyMapper::M348(m) => m.reset(),
        }
    }

    /// Tells the board which address the PPU put on its bus (boards that
    /// watch PPU A12 clock their scanline counter from it).
    pub fn ppu_address_changed(&mut self, addr: u16)
        requires
            old(self).wf(),
        ensures
            final(self).ppu_address_post(old(self), addr),
    {
        match self {
            AnyMapper::M39(m) => {}
            AnyMapper::M41(m) => {}
            AnyMapper::M43(m) => {}
            AnyMapper::M44(m) => m.ppu_address_changed(addr),
            AnyMapper::M51(m) => {}
            AnyMapper::M55(m) => {}
            AnyMapper::M57(m) => {}
            AnyMapper::M58(m) => {}
            AnyMapper::M60(m) => {}
            AnyMapper::M74(m) => m.ppu_address_changed(addr),
            AnyMapper::M289(m) => {}
            AnyMapper::M290(m) => {}
            AnyMapper::M291(m) => m.ppu_address_changed(addr),
            AnyMapper::M293(m) => {}
            AnyMapper::M294(m) => {}
            AnyMapper::M296(m) => m.ppu_address_changed(addr),
            AnyMapper::M297(m) => {}
            AnyMapper::M298(m) => {}
            AnyMapper::M300(m) => {}
            AnyMapper::M301(m) => {}
            AnyMapper::M302(m) => {}
            AnyMapper::M303(m) => {}
            AnyMapper::M304(m) => {}
            AnyMapper::M305(m) => {}
            AnyMapper::M306(m) => {}
            AnyMapper::M308(m) => {}
            AnyMapper::M309(m) => {}
            AnyMapper::M312(m) => {}
            AnyMapper::M319(m) => {}
            AnyMapper::M320(m) => {}
            AnyMapper::M321(m) => m.ppu_address_changed(addr),
            AnyMapper::M326(m) => {}
            AnyMapper::M327(m) => {}
            AnyMapper::M328(m) => {}
            AnyMapper::M329(m) => {}
            AnyMapper::M330(m) => {}
            AnyMapper::M334(m) => m.ppu_address_changed(addr),
            AnyMapper::M336(m) => {}
            AnyMapper::M340(m) => {}
            AnyMapper::M342(m) => {}
            AnyMapper::M344(m) => m.ppu_address_changed(addr),
            AnyMapper::M348(m) => m.ppu_address_changed(addr),
        }
    }

    pub fn cpu_cycle(&mut self)
        requires
            old(self).wf(),
            old(self).cycle_ok(),
        ensures
            final(self).cycle_post(old(self)),
    {
        match self {
            AnyMapper::M39(m) => m.cpu_cycle(),
            AnyMapper::M41(m) => m.cpu_cycle(),
            AnyMapper::M43(m) => m.cpu_cycle(),
            AnyMapper::M44(m) => m.cpu_cycle(),
            AnyMapper::M51(m) => m.cpu_cycle(),
            AnyMapper::M55(m) => m.cpu_cycle(),
            AnyMapper::M57(m) => m.cpu_cycle(),
            AnyMapper::M58(m) => m.cpu_cycle(),
            AnyMapper::M60(m) => m.cpu_cycle(),
            AnyMapper::M74(m) => m.cpu_cycle(),
            AnyMapper::M289(m) => m.cpu_cycle(),
            AnyMapper::M290(m) => m.cpu_cycle(),
            AnyMapper::M291(m) => m.cpu_cycle(),
            AnyMapper::M293(m) => m.cpu_cycle(),
            AnyMapper::M294(m) => m.cpu_cycle(),
            AnyMapper::M296(m) => m.cpu_cycle(),
            AnyMapper::M297(m) => m.cpu_cycle(),
            AnyMapper::M298(m) => m.cpu_cycle(),
            AnyMapper::M300(m) => m.cpu_cycle(),
            AnyMapper::M301(m) => m.cpu_cycle(),
            AnyMapper::M302(m) => m.cpu_cycle(),
            AnyMapper::M303(m) => m.cpu_cycle(),
            AnyMapper::M304(m) => m.cpu_cycle(),
            AnyMapper::M305(m) => m.cpu_cycle(),
            AnyMapper::M306(m) => m.cpu_cycle(),
            AnyMapper::M308(m) => m.cpu_cycle(),
            AnyMapper::M309(m) => m.cpu_cycle(),
            AnyMapper::M312(m) => m.cpu_cycle(),
            AnyMapper::M319(m) => m.cpu_cycle(),
            AnyMapper::M320(m) => m.cpu_cycle(),
            AnyMapper::M321(m) => m.cpu_cycle(),
            AnyMapper::M326(m) => m.cpu_cycle(),
            AnyMapper::M327(m) => m.cpu_cycle(),
            AnyMapper::M328(m) => m.cpu_cycle(),
            AnyMapper::M329(m) => m.cpu_cycle(),
            AnyMapper::M330(m) => m.cpu_cycle(),
            AnyMapper::M334(m) => m.cpu_cycle(),
            AnyMapper::M336(m) => m.cpu_cycle(),
            AnyMapper::M340(m) => m.cpu_cycle(),
            AnyMapper::M342(m) => m.cpu_cycle(),
            AnyMapper::M344(m) => m.cpu_cycle(),
            AnyMapper::M348(m) => m.cpu_cycle(),
        }
    }

}

} // verus!
