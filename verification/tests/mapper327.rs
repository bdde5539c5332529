#![allow(unused_imports, dead_code, unused_mut, unused_variables)]
use nes_mappers::cartridge::{NametableLayout, MapperContext, MapperCapabilities, banked_data};
use nes_mappers::factory::{create_mapper, AnyMapper, MapperError};
use nes_mappers::mappers::mapper327::{Mapper327};
// Non-power-of-two bank counts to prevent false-pass modulo wrapping.
const PRG_BANKS: usize = 3; // 3 × 32KB = 96KB
const CHR_BANKS: usize = 5; // 5 × 8KB = 40KB

fn make_mapper() -> Mapper327 {
    let prg = banked_data(32 * 1024, PRG_BANKS);
    let chr = banked_data(8 * 1024, CHR_BANKS);
    Mapper327::new(MapperContext::new_for_test(
        327,
        prg,
        chr,
        NametableLayout::Horizontal,
    ))
}

// --- Registration ---

#[test]
fn mapper_327_is_registered() {
    let prg = banked_data(32 * 1024, PRG_BANKS);
    let chr = banked_data(8 * 1024, CHR_BANKS);
    let result = create_mapper(MapperContext::new_for_test(
        327,
        prg,
        chr,
        NametableLayout::Horizontal,
    ));
    assert!(
        result.is_ok(),
        "Mapper 327 must be registered in the factory"
    );
}

// --- Power-on PRG state ---

#[test]
fn mapper327_power_on_prg_8000_reads_bank_0() {
    let mapper = make_mapper();
    assert_eq!(
        mapper.read_prg(0x8000),
        0,
        "$8000 must map to PRG bank 0 at power-on"
    );
}

#[test]
fn power_on_prg_ffff_reads_bank_0_last_byte() {
    let prg = banked_data(32 * 1024, PRG_BANKS);
    let chr = banked_data(8 * 1024, CHR_BANKS);
    // Last byte of bank 0 is at offset 32767 = 0x7FFF
    let expected = prg[0x7FFF];
    let mapper = Mapper327::new(MapperContext::new_for_test(
        327,
        prg,
        chr,
        NametableLayout::Horizontal,
    ));
    assert_eq!(
        mapper.read_prg(0xFFFF),
        expected,
        "$FFFF must read last byte of PRG bank 0"
    );
}

// --- Power-on CHR state ---

#[test]
fn mapper327_power_on_chr_0000_reads_bank_0() {
    let mut mapper = make_mapper();
    assert_eq!(
        mapper.read_chr(0x0000),
        0,
        "$0000 must map to CHR bank 0 at power-on"
    );
}

#[test]
fn mapper327_power_on_chr_1fff_reads_bank_0_last_byte() {
    let prg = banked_data(32 * 1024, PRG_BANKS);
    let chr = banked_data(8 * 1024, CHR_BANKS);
    // Last byte of CHR bank 0 is at offset 8191 = 0x1FFF
    let expected = chr[0x1FFF];
    let mut mapper = Mapper327::new(MapperContext::new_for_test(
        327,
        prg,
        chr,
        NametableLayout::Horizontal,
    ));
    assert_eq!(
        mapper.read_chr(0x1FFF),
        expected,
        "$1FFF must read last byte of CHR bank 0"
    );
}

// --- No PRG banking (writes have no effect) ---

#[test]
fn writes_to_prg_space_do_not_change_prg() {
    let mut mapper = make_mapper();
    mapper.write_prg(0x8000, 0xFF);
    mapper.write_prg(0xFFFF, 0xFF);
    assert_eq!(
        mapper.read_prg(0x8000),
        0,
        "PRG must remain bank 0 after writes"
    );
}

// --- Mirroring: fixed from header ---

#[test]
fn mirroring_fixed_from_header_horizontal() {
    let mapper = make_mapper();
    assert_eq!(
        mapper.get_mirroring(),
        NametableLayout::Horizontal,
        "Mirroring must be fixed from header"
    );
}

#[test]
fn mapper327_mirroring_not_changed_by_writes() {
    let mut mapper = make_mapper();
    mapper.write_prg(0x8000, 0xFF);
    assert_eq!(
        mapper.get_mirroring(),
        NametableLayout::Horizontal,
        "Mirroring must not change after writes"
    );
}

// --- No IRQ ---

#[test]
fn mapper327_irq_never_pending() {
    let mut mapper = make_mapper();
    mapper.write_prg(0x8000, 0xFF);
    assert!(!mapper.irq_pending(), "Mapper 327 must never assert IRQ");
}

// --- Snapshot / restore (no state) ---

#[test]
fn mapper327_registers_snapshot_is_empty() {
    let mapper = make_mapper();
    assert!(
        mapper.registers_snapshot().is_empty(),
        "Mapper 327 has no registers; snapshot must be empty"
    );
}

#[test]
fn mapper327_restore_registers_with_empty_data_is_noop() {
    let mut mapper = make_mapper();
    mapper.restore_registers(&[]);
    assert_eq!(mapper.read_prg(0x8000), 0);
}

// --- Reset (no effect on fixed mapper) ---

#[test]
fn mapper327_reset_leaves_prg_at_bank_0() {
    let mut mapper = make_mapper();
    mapper.reset();
    assert_eq!(
        mapper.read_prg(0x8000),
        0,
        "PRG must remain bank 0 after reset"
    );
}
