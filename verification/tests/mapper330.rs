#![allow(unused_imports, dead_code, unused_mut, unused_variables)]
use nes_mappers::cartridge::{NametableLayout, MapperContext, MapperCapabilities, banked_data};
use nes_mappers::factory::{create_mapper, AnyMapper, MapperError};
use nes_mappers::mappers::mapper330::{Mapper330};
// Non-power-of-two bank counts to prevent false-pass modulo wrapping.
const PRG_BANKS: usize = 5; // 5 × 32 KB = 160 KB
const CHR_BANKS: usize = 7; // 7 × 8 KB = 56 KB

fn make_mapper() -> Mapper330 {
    let prg = banked_data(32 * 1024, PRG_BANKS);
    let chr = banked_data(8 * 1024, CHR_BANKS);
    Mapper330::new(
        MapperContext::new_for_test(330, prg, chr, NametableLayout::Horizontal)
            .with_prg_ram_banks(1),
    )
}

// --- Registration ---

#[test]
fn mapper_330_is_registered() {
    let prg = banked_data(32 * 1024, PRG_BANKS);
    let chr = banked_data(8 * 1024, CHR_BANKS);
    let result = create_mapper(
        MapperContext::new_for_test(330, prg, chr, NametableLayout::Horizontal)
            .with_prg_ram_banks(1),
    );
    assert!(
        result.is_ok(),
        "Mapper 330 must be registered in the factory"
    );
}

// --- Power-on PRG state: last bank fixed at $8000-$FFFF ---

#[test]
fn power_on_prg_8000_reads_last_bank_first_byte() {
    let prg = banked_data(32 * 1024, PRG_BANKS);
    let chr = banked_data(8 * 1024, CHR_BANKS);
    // Last bank marker is PRG_BANKS - 1
    let expected = prg[(PRG_BANKS - 1) * 32 * 1024];
    let mapper = Mapper330::new(
        MapperContext::new_for_test(330, prg, chr, NametableLayout::Horizontal)
            .with_prg_ram_banks(1),
    );
    assert_eq!(
        mapper.read_prg(0x8000),
        expected,
        "$8000 must map to last PRG bank at power-on"
    );
}

#[test]
fn mapper330_power_on_prg_ffff_reads_last_bank_last_byte() {
    let prg = banked_data(32 * 1024, PRG_BANKS);
    let chr = banked_data(8 * 1024, CHR_BANKS);
    // Last byte of last bank
    let expected = prg[PRG_BANKS * 32 * 1024 - 1];
    let mapper = Mapper330::new(
        MapperContext::new_for_test(330, prg, chr, NametableLayout::Horizontal)
            .with_prg_ram_banks(1),
    );
    assert_eq!(
        mapper.read_prg(0xFFFF),
        expected,
        "$FFFF must read last byte of last PRG bank"
    );
}

// --- Power-on CHR state: bank 0 at $0000-$1FFF ---

#[test]
fn mapper330_power_on_chr_0000_reads_bank_0() {
    let mut mapper = make_mapper();
    assert_eq!(
        mapper.read_chr(0x0000),
        0,
        "$0000 must map to CHR bank 0 at power-on"
    );
}

#[test]
fn mapper330_power_on_chr_1fff_reads_bank_0_last_byte() {
    let prg = banked_data(32 * 1024, PRG_BANKS);
    let chr = banked_data(8 * 1024, CHR_BANKS);
    let expected = chr[0x1FFF];
    let mut mapper = Mapper330::new(
        MapperContext::new_for_test(330, prg, chr, NametableLayout::Horizontal)
            .with_prg_ram_banks(1),
    );
    assert_eq!(
        mapper.read_chr(0x1FFF),
        expected,
        "$1FFF must read last byte of CHR bank 0"
    );
}

// --- PRG-NVRAM at $6000-$7FFF ---

#[test]
fn prg_nvram_read_write_at_6000() {
    let mut mapper = make_mapper();
    mapper.write_prg(0x6000, 0xAB);
    assert_eq!(
        mapper.read_prg(0x6000),
        0xAB,
        "$6000 PRG-NVRAM must be readable after write"
    );
}

#[test]
fn prg_nvram_read_write_at_7fff() {
    let mut mapper = make_mapper();
    mapper.write_prg(0x7FFF, 0xCD);
    assert_eq!(
        mapper.read_prg(0x7FFF),
        0xCD,
        "$7FFF PRG-NVRAM must be readable after write"
    );
}

// --- ROM banking is fixed (writes to $8000-$FFFF have no effect) ---

#[test]
fn writes_to_prg_rom_space_do_not_change_prg() {
    let mut mapper = make_mapper();
    let initial = mapper.read_prg(0x8000);
    mapper.write_prg(0x8000, 0xFF);
    mapper.write_prg(0xFFFF, 0xFF);
    assert_eq!(
        mapper.read_prg(0x8000),
        initial,
        "PRG must remain at last bank after writes to ROM space"
    );
}

// --- Mirroring: fixed horizontal ---

#[test]
fn mirroring_is_horizontal() {
    let mapper = make_mapper();
    assert_eq!(
        mapper.get_mirroring(),
        NametableLayout::Horizontal,
        "Mirroring must be fixed horizontal"
    );
}

#[test]
fn mapper330_mirroring_not_changed_by_writes() {
    let mut mapper = make_mapper();
    mapper.write_prg(0x8000, 0xFF);
    assert_eq!(
        mapper.get_mirroring(),
        NametableLayout::Horizontal,
        "Mirroring must not change after writes"
    );
}

// --- No IRQ ---

#[test]
fn mapper330_irq_never_pending() {
    let mut mapper = make_mapper();
    mapper.write_prg(0x8000, 0xFF);
    assert!(!mapper.irq_pending(), "Mapper 330 must never assert IRQ");
}

// --- Snapshot / restore (no register state) ---

#[test]
fn mapper330_registers_snapshot_is_empty() {
    let mapper = make_mapper();
    assert!(
        mapper.registers_snapshot().is_empty(),
        "Mapper 330 has no registers; snapshot must be empty"
    );
}

#[test]
fn mapper330_restore_registers_with_empty_data_is_noop() {
    let mut mapper = make_mapper();
    let expected = mapper.read_prg(0x8000);
    mapper.restore_registers(&[]);
    assert_eq!(mapper.read_prg(0x8000), expected);
}

// --- Reset (no effect on fixed mapper) ---

#[test]
fn reset_leaves_prg_at_last_bank() {
    let prg = banked_data(32 * 1024, PRG_BANKS);
    let chr = banked_data(8 * 1024, CHR_BANKS);
    let expected = prg[(PRG_BANKS - 1) * 32 * 1024];
    let mut mapper = Mapper330::new(
        MapperContext::new_for_test(330, prg, chr, NametableLayout::Horizontal)
            .with_prg_ram_banks(1),
    );
    mapper.reset();
    assert_eq!(
        mapper.read_prg(0x8000),
        expected,
        "PRG must remain at last bank after reset"
    );
}
