#![allow(unused_imports, dead_code, unused_mut, unused_variables)]
use nes_mappers::cartridge::{NametableLayout, MapperContext, MapperCapabilities, banked_data};
use nes_mappers::factory::{create_mapper, AnyMapper, MapperError};
use nes_mappers::mappers::mapper348::{Mapper348};
const PRG_BANKS_8K: usize = 64;
const CHR_BANKS_1K: usize = 256;

fn make_mapper() -> AnyMapper {
    create_mapper(MapperContext::new_for_test(
        348,
        banked_data(8 * 1024, PRG_BANKS_8K),
        banked_data(1024, CHR_BANKS_1K),
        NametableLayout::Vertical,
    ))
    .expect("Mapper 348 should be implemented")
}

#[test]
fn mapper_348_is_registered_in_factory() {
    let result = create_mapper(MapperContext::new_for_test(
        348,
        banked_data(8 * 1024, PRG_BANKS_8K),
        banked_data(1024, CHR_BANKS_1K),
        NametableLayout::Vertical,
    ));
    assert!(
        result.is_ok(),
        "Mapper 348 must be registered in the mapper factory"
    );
}

#[test]
fn outer_register_bits_2_3_extend_chr_bank_selection() {
    let mut mapper = make_mapper();

    mapper.write_prg(0x8000, 0x00);
    mapper.write_prg(0x8001, 0x01);
    let chr_before = mapper.read_chr(0x0000);

    mapper.write_prg(0x6800, 0x04);
    let chr_after = mapper.read_chr(0x0000);

    assert_ne!(
        chr_before, chr_after,
        "Writing $6800 with bit2 set should change CHR bank high bits"
    );
}

#[test]
fn special_mode_reg_0x0c_forces_upper_prg_windows_from_0x32_or_low_nibble() {
    let mut mapper = make_mapper();

    mapper.write_prg(0x6800, 0x0C);

    mapper.write_prg(0x8000, 0x06);
    mapper.write_prg(0x8001, 0x09);
    mapper.write_prg(0x8000, 0x07);
    mapper.write_prg(0x8001, 0x03);

    let bank_low_0 = mapper.read_prg(0x8000);
    let bank_low_1 = mapper.read_prg(0xA000);
    let bank_high_0 = mapper.read_prg(0xC000);
    let bank_high_1 = mapper.read_prg(0xE000);

    assert_eq!(bank_high_0, 0x32 | (bank_low_0 & 0x0F));
    assert_eq!(bank_high_1, 0x32 | (bank_low_1 & 0x0F));
}

#[test]
fn mirroring_and_capabilities_follow_mmc3_expectations() {
    let mut mapper = make_mapper();

    mapper.write_prg(0xA000, 0x00);
    assert_eq!(mapper.get_mirroring(), NametableLayout::Vertical);

    mapper.write_prg(0xA000, 0x01);
    assert_eq!(mapper.get_mirroring(), NametableLayout::Horizontal);

    let caps = mapper.capabilities();
    assert!(caps.has_irq);
    assert!(caps.has_chr_banking);
    assert!(caps.has_dynamic_mirroring);
    assert!(!caps.has_expansion_audio);
}

#[test]
fn writes_to_6000_region_except_6800_68ff_do_not_change_outer_register() {
    let mut mapper = make_mapper();

    mapper.write_prg(0x6800, 0x00);
    mapper.write_prg(0x8000, 0x00);
    mapper.write_prg(0x8001, 0x01);
    let baseline = mapper.read_chr(0x0000);

    mapper.write_prg(0x6000, 0x04);
    mapper.write_prg(0x67FF, 0x04);
    mapper.write_prg(0x6900, 0x04);
    mapper.write_prg(0x7FFF, 0x04);

    assert_eq!(mapper.read_chr(0x0000), baseline);

    mapper.write_prg(0x6800, 0x04);
    assert_ne!(mapper.read_chr(0x0000), baseline);
}
