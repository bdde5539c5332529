#![allow(unused_imports, dead_code, unused_mut, unused_variables)]
use nes_mappers::cartridge::{NametableLayout, MapperContext, MapperCapabilities, banked_data};
use nes_mappers::factory::{create_mapper, AnyMapper, MapperError};
use nes_mappers::mappers::mapper41::{Mapper41};
const PRG_BANKS_32K: usize = 11;
const CHR_BANKS_8K: usize = 13;

fn make_mapper() -> AnyMapper {
    create_mapper(MapperContext::new_for_test(
        41,
        banked_data(32 * 1024, PRG_BANKS_32K),
        banked_data(8 * 1024, CHR_BANKS_8K),
        NametableLayout::Vertical,
    ))
    .expect("Mapper 41 should be implemented")
}

fn make_mapper_direct() -> Mapper41 {
    Mapper41::new(MapperContext::new_for_test(
        41,
        banked_data(32 * 1024, PRG_BANKS_32K),
        banked_data(8 * 1024, CHR_BANKS_8K),
        NametableLayout::Vertical,
    ))
}

#[test]
fn mapper_41_is_registered_in_factory() {
    let result = create_mapper(MapperContext::new_for_test(
        41,
        banked_data(32 * 1024, PRG_BANKS_32K),
        banked_data(8 * 1024, CHR_BANKS_8K),
        NametableLayout::Vertical,
    ));
    assert!(
        result.is_ok(),
        "Mapper 41 must be registered in the factory"
    );
}

#[test]
fn outer_register_selects_prg_bank_from_address_bits_0_to_2() {
    let mut mapper = make_mapper_direct();

    mapper.write_prg(0x6005, 0x00);

    assert_eq!(mapper.read_prg(0x8000), 5);
}

#[test]
fn outer_register_selects_chr_outer_bits_from_address() {
    let mut mapper = make_mapper_direct();

    // addr=0x6008 -> ((addr >> 1) & 0x0C) == 4, inner=0 => CHR bank 4
    mapper.write_prg(0x6008, 0x00);

    assert_eq!(mapper.read_chr(0x0000), 4);
}

#[test]
fn inner_chr_register_only_updates_when_prg_bank_is_4_to_7() {
    let mut mapper = make_mapper_direct();

    mapper.write_prg(0x6001, 0x00);
    mapper.write_prg(0x8000, 0x03);
    assert_eq!(mapper.read_chr(0x0000), 0, "inner write must be ignored");

    mapper.write_prg(0x6004, 0x00);
    mapper.write_prg(0x8000, 0x03);
    assert_eq!(mapper.read_chr(0x0000), 3, "inner write must apply");
}

#[test]
fn outer_register_controls_mirroring_with_address_bit_5() {
    let mut mapper = make_mapper_direct();

    mapper.write_prg(0x6000, 0x00);
    assert_eq!(mapper.get_mirroring(), NametableLayout::Vertical);

    mapper.write_prg(0x6020, 0x00);
    assert_eq!(mapper.get_mirroring(), NametableLayout::Horizontal);
}

#[test]
fn reset_clears_outer_and_inner_register_effects() {
    let mut mapper = make_mapper_direct();

    mapper.write_prg(0x6027, 0x00);
    mapper.write_prg(0x8000, 0x03);
    assert_ne!(mapper.read_prg(0x8000), 0);
    assert_ne!(mapper.read_chr(0x0000), 0);

    mapper.reset();

    assert_eq!(mapper.read_prg(0x8000), 0);
    assert_eq!(mapper.read_chr(0x0000), 0);
    assert_eq!(mapper.get_mirroring(), NametableLayout::Vertical);
}

#[test]
fn snapshot_and_restore_roundtrip_register_state() {
    let mut mapper = make_mapper_direct();
    mapper.write_prg(0x6024, 0x00);
    mapper.write_prg(0x8000, 0x02);
    let snapshot = mapper.registers_snapshot();

    let mut restored = make_mapper_direct();
    restored.restore_registers(&snapshot);

    assert_eq!(restored.read_prg(0x8000), mapper.read_prg(0x8000));
    assert_eq!(restored.read_chr(0x0000), mapper.read_chr(0x0000));
}

#[test]
fn factory_mapper_exposes_same_behavior_surface() {
    let mut mapper = make_mapper();
    mapper.write_prg(0x6024, 0x00);
    mapper.write_prg(0x8000, 0x01);
    assert_eq!(mapper.read_prg(0x8000), 4);
    assert_eq!(mapper.read_chr(0x0000), 1);
}
