#![allow(unused_imports, dead_code, unused_mut, unused_variables)]
use nes_mappers::cartridge::{NametableLayout, MapperContext, MapperCapabilities, banked_data};
use nes_mappers::factory::{create_mapper, AnyMapper, MapperError};
use nes_mappers::mappers::mapper344::{Mapper344};
const PRG_BANKS_8K: usize = 64;
const CHR_BANKS_1K: usize = 512;

fn make_mapper() -> AnyMapper {
    create_mapper(MapperContext::new_for_test(
        344,
        banked_data(8 * 1024, PRG_BANKS_8K),
        vec![0u8; 8 * 1024],
        NametableLayout::Vertical,
    ))
    .expect("Mapper 344 should be implemented")
}

fn make_mapper_with_banked_chr() -> AnyMapper {
    create_mapper(MapperContext::new_for_test(
        344,
        banked_data(8 * 1024, PRG_BANKS_8K),
        banked_data(1024, CHR_BANKS_1K),
        NametableLayout::Vertical,
    ))
    .expect("Mapper 344 should be implemented")
}

#[test]
fn mapper_344_is_registered() {
    let result = create_mapper(MapperContext::new_for_test(
        344,
        banked_data(8 * 1024, PRG_BANKS_8K),
        vec![0u8; 8 * 1024],
        NametableLayout::Vertical,
    ));

    assert!(result.is_ok(), "Mapper 344 should be registered in factory");
}

#[test]
fn outer_bank_register_extends_prg_bank_when_wram_is_enabled() {
    let mut mapper = make_mapper();

    mapper.write_prg(0xA001, 0x80);
    mapper.write_prg(0x8000, 0x06);
    mapper.write_prg(0x8001, 0x01);
    let before_outer = mapper.read_prg(0x8000);

    mapper.write_prg(0x6002, 0x00);
    let after_outer = mapper.read_prg(0x8000);

    assert_ne!(
        before_outer, after_outer,
        "Outer register BA bits should change PRG A18..A17 selection in MMC3 mode"
    );
}

#[test]
fn nrom_mode_uses_register_6_bits_1_3_for_full_32k_window() {
    let mut mapper = make_mapper();

    mapper.write_prg(0xA001, 0x80);
    mapper.write_prg(0x8000, 0x46);
    mapper.write_prg(0x8001, 0x06);

    mapper.write_prg(0x6008, 0x00);

    assert_eq!(mapper.read_prg(0x8000), 0x06);
    assert_eq!(mapper.read_prg(0xA000), 0x07);
    assert_eq!(mapper.read_prg(0xC000), 0x06);
    assert_eq!(mapper.read_prg(0xE000), 0x07);
}

#[test]
fn outer_register_write_address_also_writes_prg_ram() {
    let mut mapper = make_mapper();

    mapper.write_prg(0xA001, 0x80);
    mapper.write_prg(0x6002, 0x5A);

    assert_eq!(mapper.read_prg(0x6002), 0x5A);
}

#[test]
fn read_prg_open_bus_delegates_wram_window_to_mmc3_behavior() {
    let mut mapper = make_mapper();

    mapper.write_prg(0xA001, 0x00);

    assert_eq!(mapper.read_prg_open_bus(0x6000, 0xAA), 0xAA);
}

#[test]
fn chr_a17_mode_bit_switches_source_between_mmc3_and_outer_a_bit() {
    let mut mapper = make_mapper_with_banked_chr();

    mapper.write_prg(0xA001, 0x80);

    mapper.write_prg(0x8000, 0x02);
    mapper.write_prg(0x8001, 0x80);

    mapper.write_prg(0x6002, 0x00);
    let chr_m0 = mapper.read_chr(0x1000);

    mapper.write_prg(0x6006, 0x00);
    let chr_m1 = mapper.read_chr(0x1000);

    assert_ne!(
        chr_m0, chr_m1,
        "M bit should switch CHR A17 source from MMC3 A17 to outer register A bit"
    );
}
