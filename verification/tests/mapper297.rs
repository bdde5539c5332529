#![allow(unused_imports, dead_code, unused_mut, unused_variables)]
use nes_mappers::cartridge::{NametableLayout, MapperContext, MapperCapabilities, banked_data};
use nes_mappers::factory::{create_mapper, AnyMapper, MapperError};
use nes_mappers::mappers::mapper297::{Mapper297, MAPPER_NUMBER};
// PRG: 16 × 16 KiB = 256 KiB (banks 0-7 = lower/mapper70, 8-15 = upper/MMC1)
// CHR: 32 × 4 KiB = 128 KiB (banks 0-15 = lower, 16-31 = upper/MMC1)
const PRG_16K_BANKS: usize = 16; // exactly 256 KiB
const CHR_4K_BANKS: usize = 32; // exactly 128 KiB

fn make_mapper() -> Mapper297 {
    let prg = banked_data(16 * 1024, PRG_16K_BANKS);
    let chr = banked_data(4 * 1024, CHR_4K_BANKS);
    Mapper297::new(MapperContext::new_for_test(
        MAPPER_NUMBER,
        prg,
        chr,
        NametableLayout::Vertical,
    ))
}

// ── Registration ────────────────────────────────────────────────

#[test]
fn mapper_297_is_registered() {
    let result = create_mapper(MapperContext::new_for_test(
        MAPPER_NUMBER,
        banked_data(16 * 1024, PRG_16K_BANKS),
        banked_data(4 * 1024, CHR_4K_BANKS),
        NametableLayout::Vertical,
    ));
    assert!(
        result.is_ok(),
        "Mapper 297 must be registered in the factory"
    );
}

// ── Mirroring always vertical ────────────────────────────────────

#[test]
fn mirroring_is_always_vertical() {
    let mapper = make_mapper();
    assert_eq!(
        mapper.get_mirroring(),
        NametableLayout::Vertical,
        "Mirroring must always be vertical"
    );
}

// ── Mapper-70 mode (power-on) ────────────────────────────────────

#[test]
fn power_on_mapper70_mode_prg_c000_is_bank_3() {
    let mapper = make_mapper();
    // A16=0, latch=0 → PRG $C000 fixed = (0<<2)|3 = bank 3.
    assert_eq!(
        mapper.read_prg(0xC000),
        3,
        "Power-on: $C000 must be PRG bank 3 (fixed in A16=0 half)"
    );
}

#[test]
fn mapper70_mode_latch_selects_prg_bank() {
    let mut mapper = make_mapper();
    // bits 5:4 of latch select PRG inner bank, A16=0 → bank = (0<<2)|inner
    // Write latch = 0x20 → bits 5:4 = 0b10 = 2 → PRG $8000 = bank 2.
    mapper.write_prg(0x8000, 0x20);
    assert_eq!(
        mapper.read_prg(0x8000),
        2,
        "Mapper-70 latch bits 5:4 must select PRG bank at $8000"
    );
}

#[test]
fn mapper70_mode_with_a16_set_uses_upper_half() {
    let mut mapper = make_mapper();
    // Write outer register: A16=1, M=0 (mapper70 mode).
    // Address where (addr & 0xE100) == 0xE100, value = 0x02 (bit 1 = A16=1).
    mapper.write_prg(0xE100, 0x02);
    // With A16=1 and latch=0: PRG $C000 fixed = (1<<2)|3 = bank 7.
    assert_eq!(
        mapper.read_prg(0xC000),
        7,
        "A16=1 must fix $C000 to bank 7 in mapper-70 mode"
    );
}

#[test]
fn mapper70_mode_latch_selects_chr_bank() {
    let mut mapper = make_mapper();
    // Write latch = 0x03 → CHR = bits 3:0 = 3 → 8KiB bank 3 = 4KiB banks 6+7.
    mapper.write_prg(0x8000, 0x03);
    assert_eq!(
        mapper.read_chr(0x0000),
        6,
        "Mapper-70 latch bits 3:0 must select CHR 8KiB bank (4KiB page 0)"
    );
}

// ── MMC1 mode ───────────────────────────────────────────────────

#[test]
fn mmc1_mode_enabled_by_outer_register_bit0() {
    let mut mapper = make_mapper();
    // Write outer register with M=1 at an address that triggers it.
    mapper.write_prg(0xE100, 0x01);
    // In MMC1 mode, $8000 PRG starts at bank 8 (PRG_OFFSET=8).
    // After reset, MMC1 prg_mode=3 → $8000 switchable, $C000 fixed to last of outer.
    // With no MMC1 writes, prg_bank=0 → $8000 = bank 8+0 = bank 8.
    assert_eq!(
        mapper.read_prg(0x8000),
        8,
        "MMC1 mode: PRG $8000 must start at bank 8 (offset +8)"
    );
}

#[test]
fn mmc1_mode_mirroring_stays_vertical() {
    let mut mapper = make_mapper();
    mapper.write_prg(0xE100, 0x01); // enable MMC1 mode
    // MMC1 normally sets mirroring from control register; mapper 297 must override.
    assert_eq!(
        mapper.get_mirroring(),
        NametableLayout::Vertical,
        "Mirroring must stay vertical even in MMC1 mode"
    );
}

// ── Outer register detection ─────────────────────────────────────

#[test]
fn outer_register_triggered_by_e100_mask() {
    let mut mapper = make_mapper();
    // Regular write at $8000 (not outer): latch_70 should update.
    mapper.write_prg(0x8000, 0x30); // bits 5:4 = 3 → PRG bank 3
    assert_eq!(
        mapper.read_prg(0x8000),
        3,
        "Regular write must update latch"
    );
    // Now write to an address that DOES trigger outer register.
    mapper.write_prg(0xE100, 0x02); // A16=1
    // Outer register updated; now check mapper70 mode with A16=1, latch=0x30
    // inner_prg = (0x30 >> 4) & 0x03 = 3, PRG $8000 = (1<<2)|3 = 7.
    assert_eq!(
        mapper.read_prg(0x8000),
        7,
        "Outer register write must update outer_reg without changing latch"
    );
}

// ── Reset ───────────────────────────────────────────────────────

#[test]
fn mapper297_reset_restores_power_on_state() {
    let mut mapper = make_mapper();
    mapper.write_prg(0xE100, 0x02);
    mapper.write_prg(0x8000, 0x30);
    mapper.reset();
    assert_eq!(
        mapper.read_prg(0xC000),
        3,
        "After reset, $C000 must be bank 3 (power-on state)"
    );
    assert_eq!(mapper.get_mirroring(), NametableLayout::Vertical);
}
