#![allow(unused_imports, dead_code, unused_mut, unused_variables)]
use nes_mappers::cartridge::{NametableLayout, MapperContext, MapperCapabilities, banked_data};
use nes_mappers::factory::{create_mapper, AnyMapper, MapperError};
use nes_mappers::mappers::mapper328::{Mapper328};
// Non-power-of-two bank counts to prevent false-pass modulo wrapping.
const PRG_BANKS: usize = 3; // 3 × 16KB = 48KB
const CHR_BANKS: usize = 5; // 5 × 2KB = 10KB

fn make_mapper() -> Mapper328 {
    let prg = banked_data(16 * 1024, PRG_BANKS);
    let chr = banked_data(2 * 1024, CHR_BANKS);
    Mapper328::new(MapperContext::new_for_test(
        328,
        prg,
        chr,
        NametableLayout::Horizontal,
    ))
}

// --- Registration ---

#[test]
fn mapper_328_is_registered() {
    let prg = banked_data(16 * 1024, PRG_BANKS);
    let chr = banked_data(2 * 1024, CHR_BANKS);
    let result = create_mapper(MapperContext::new_for_test(
        328,
        prg,
        chr,
        NametableLayout::Horizontal,
    ));
    assert!(
        result.is_ok(),
        "Mapper 328 must be registered in the factory"
    );
}

// --- Power-on state: PRG ---

#[test]
fn mapper328_power_on_prg_8000_reads_bank_0() {
    let mapper = make_mapper();
    assert_eq!(
        mapper.read_prg(0x8000),
        0,
        "$8000 must map to PRG bank 0 at power-on"
    );
}

#[test]
fn power_on_prg_c000_reads_bank_1() {
    let mapper = make_mapper();
    // Second 16KB window is fixed to bank 1.
    assert_eq!(
        mapper.read_prg(0xC000),
        1,
        "$C000 must map to PRG bank 1 at power-on"
    );
}

#[test]
fn power_on_prg_lower_window_bank_0_upper_window_bank_1() {
    let prg = banked_data(16 * 1024, PRG_BANKS);
    let chr = banked_data(2 * 1024, CHR_BANKS);
    // Bank 0 byte at offset 0 = 0; bank 1 byte at offset 0 = 1.
    // Lower window ($8000-$BFFF) must return bank 0 data, upper ($C000-$FFFF) bank 1.
    let mapper = Mapper328::new(MapperContext::new_for_test(
        328,
        prg,
        chr,
        NametableLayout::Horizontal,
    ));
    assert_eq!(mapper.read_prg(0x8000), 0, "Lower window must be bank 0");
    assert_eq!(mapper.read_prg(0xC001), 1, "Upper window must be bank 1");
}

// --- Power-on state: CHR ---

#[test]
fn power_on_chr_pages_at_respective_banks() {
    let mut mapper = make_mapper();
    // Each 2KB page maps to its own bank: page 0→bank 0, page 1→bank 1, etc.
    assert_eq!(mapper.read_chr(0x0000), 0, "CHR page 0 must be bank 0");
    assert_eq!(mapper.read_chr(0x0800), 1, "CHR page 1 must be bank 1");
    assert_eq!(mapper.read_chr(0x1000), 2, "CHR page 2 must be bank 2");
    assert_eq!(mapper.read_chr(0x1800), 3, "CHR page 3 must be bank 3");
}

// --- Copy-protection reads ---

#[test]
fn reads_from_ce80_cfff_return_protection_value() {
    let mapper = make_mapper();
    let value = mapper.read_prg(0xCE80);
    assert_eq!(
        value & 0xF2,
        0xF2,
        "Protection read at $CE80 must have bits 0xF2 set"
    );
}

#[test]
fn reads_from_ceff_return_protection_value() {
    let mapper = make_mapper();
    let value = mapper.read_prg(0xCEFF);
    assert_eq!(
        value & 0xF2,
        0xF2,
        "Protection read at $CEFF must have bits 0xF2 set"
    );
}

#[test]
fn reads_from_fe80_feff_return_protection_value() {
    let mapper = make_mapper();
    let value = mapper.read_prg(0xFE80);
    assert_eq!(
        value & 0xF2,
        0xF2,
        "Protection read at $FE80 must have bits 0xF2 set"
    );
}

#[test]
fn reads_from_feff_return_protection_value() {
    let mapper = make_mapper();
    let value = mapper.read_prg(0xFEFF);
    assert_eq!(
        value & 0xF2,
        0xF2,
        "Protection read at $FEFF must have bits 0xF2 set"
    );
}

#[test]
fn reads_just_outside_ce80_range_return_rom_data() {
    // $CE7F is just below the protection range; falls in the upper (bank 1) window.
    let mapper = make_mapper();
    let value = mapper.read_prg(0xCE7F);
    assert_eq!(
        value, 1,
        "$CE7F must return normal ROM data (bank 1), not the protection value"
    );
}

#[test]
fn reads_just_outside_cf00_range_return_rom_data() {
    // $CF00 is just above the protection range; falls in the upper (bank 1) window.
    let mapper = make_mapper();
    let value = mapper.read_prg(0xCF00);
    assert_eq!(
        value, 1,
        "$CF00 must return normal ROM data (bank 1), not the protection value"
    );
}

#[test]
fn reads_just_outside_fe80_range_return_rom_data() {
    let mapper = make_mapper();
    let value = mapper.read_prg(0xFE7F);
    assert_eq!(
        value, 1,
        "$FE7F must return normal ROM data (bank 1), not the protection value"
    );
}

#[test]
fn reads_just_outside_ff00_range_return_rom_data() {
    let mapper = make_mapper();
    let value = mapper.read_prg(0xFF00);
    assert_eq!(
        value, 1,
        "$FF00 must return normal ROM data (bank 1), not the protection value"
    );
}

// --- No PRG banking (writes have no effect) ---

#[test]
fn writes_to_8000_ffff_do_not_change_prg() {
    let mut mapper = make_mapper();
    mapper.write_prg(0x8000, 0xFF);
    mapper.write_prg(0xFFFF, 0xFF);
    assert_eq!(
        mapper.read_prg(0x8000),
        0,
        "PRG must remain bank 0 after writes"
    );
    assert_eq!(
        mapper.read_prg(0xC000),
        1,
        "PRG upper window must remain bank 1 after writes"
    );
}

// --- Mirroring: fixed from header ---

#[test]
fn mirroring_fixed_from_header() {
    let mapper = make_mapper();
    assert_eq!(
        mapper.get_mirroring(),
        NametableLayout::Horizontal,
        "Mirroring must be fixed from header"
    );
}

#[test]
fn mapper328_mirroring_not_changed_by_writes() {
    let mut mapper = make_mapper();
    mapper.write_prg(0x8000, 0xFF);
    assert_eq!(
        mapper.get_mirroring(),
        NametableLayout::Horizontal,
        "Mirroring must not change after writes"
    );
}

// --- No IRQ ---

#[test]
fn mapper328_irq_never_pending() {
    let mut mapper = make_mapper();
    mapper.write_prg(0x8000, 0xFF);
    assert!(!mapper.irq_pending(), "Mapper 328 must never assert IRQ");
}

// --- Snapshot / restore (no state) ---

#[test]
fn mapper328_registers_snapshot_is_empty() {
    let mapper = make_mapper();
    assert!(
        mapper.registers_snapshot().is_empty(),
        "Mapper 328 has no registers; snapshot must be empty"
    );
}

#[test]
fn mapper328_restore_registers_with_empty_data_is_noop() {
    let mut mapper = make_mapper();
    mapper.restore_registers(&[]);
    assert_eq!(mapper.read_prg(0x8000), 0);
}

// --- Reset (no effect on fixed mapper) ---

#[test]
fn mapper328_reset_leaves_prg_at_bank_0() {
    let mut mapper = make_mapper();
    mapper.reset();
    assert_eq!(
        mapper.read_prg(0x8000),
        0,
        "PRG must remain bank 0 after reset"
    );
}
