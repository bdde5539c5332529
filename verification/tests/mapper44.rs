#![allow(unused_imports, dead_code, unused_mut, unused_variables)]
use nes_mappers::cartridge::{NametableLayout, MapperContext, MapperCapabilities, banked_data};
use nes_mappers::factory::{create_mapper, AnyMapper, MapperError};
use nes_mappers::mappers::mapper44::{Mapper44};
// 32 PRG banks = 256 KiB (covers blocks 0-1 for testing)
const PRG_BANKS: usize = 32;
// 256 CHR 1K banks = 256 KiB (covers blocks 0-1)
const CHR_1K_BANKS: usize = 256;

fn make_mapper() -> AnyMapper {
    let prg = banked_data(8 * 1024, PRG_BANKS);
    let chr = banked_data(1024, CHR_1K_BANKS);
    create_mapper(MapperContext::new_for_test(
        44,
        prg,
        chr,
        NametableLayout::Vertical,
    ))
    .expect("Mapper 44 should be implemented")
}

// --- Factory ---

#[test]
fn mapper_44_is_registered_in_factory() {
    let result = create_mapper(MapperContext::new_for_test(
        44,
        banked_data(8 * 1024, PRG_BANKS),
        banked_data(1024, CHR_1K_BANKS),
        NametableLayout::Vertical,
    ));
    assert!(
        result.is_ok(),
        "Mapper 44 must be registered in the factory"
    );
}

// --- PRG block selection via $A001 ---

#[test]
fn prg_defaults_to_block_0_fixed_last() {
    let mapper = make_mapper();
    // Fixed last bank in 32-bank ROM: bank 31. Block0 AND=0x0F: 31&0x0F=15
    assert_eq!(
        mapper.read_prg(0xE000),
        15,
        "Block 0 fixed-last PRG must be bank 15"
    );
}

#[test]
fn prg_block1_shifts_fixed_last_by_0x10() {
    let mut mapper = make_mapper();
    // Write $A001 with block=1 in bits[2:0]
    mapper.write_prg(0xA001, 0x81); // PRG-RAM enable + block 1
    // Fixed-last = 31. AND=0x0F, OR=0x10 → (31&0x0F)|0x10 = 31
    assert_eq!(
        mapper.read_prg(0xE000),
        31,
        "Block 1 fixed-last PRG must be bank 31"
    );
}

#[test]
fn prg_block1_r6_bank_3() {
    let mut mapper = make_mapper();
    mapper.write_prg(0xA001, 0x81); // enable RAM + block 1
    mapper.write_prg(0x8000, 0b0000_0110); // R6
    mapper.write_prg(0x8001, 3); // R6=3 → (3 & 0x0F) | 0x10 = 19
    assert_eq!(
        mapper.read_prg(0x8000),
        19,
        "Block 1 R6=3 must map to bank 19"
    );
}

#[test]
fn prg_block7_treated_as_block6() {
    let mut mapper = make_mapper();
    mapper.write_prg(0xA001, 0x87); // block = 7 (should act as 6)
    // Block 6: AND=0x1F, OR=0x60. fixed-last=31 → (31&0x1F)|0x60 = 31|0x60 = 0x7F = 127?
    // Wait: 31 = 0x1F. (0x1F & 0x1F) | 0x60 = 0x1F | 0x60 = 0x7F = 127
    // But PRG_BANKS = 32, so 127 is out of range. Use modulo: 127 % 32 = 31.
    // Actually the read_prg_at_bank does modulo internally.
    // Let's just verify block 6 and 7 produce the same result.
    let val_with_7 = mapper.read_prg(0xE000);
    let mut mapper2 = make_mapper();
    mapper2.write_prg(0xA001, 0x86); // block = 6
    let val_with_6 = mapper2.read_prg(0xE000);
    assert_eq!(
        val_with_7, val_with_6,
        "Block 7 and block 6 must produce the same PRG mapping"
    );
}

// --- CHR block selection ---

#[test]
fn chr_block0_r2_bank_5() {
    let mut mapper = make_mapper();
    mapper.write_prg(0x8000, 0b0000_0010); // R2
    mapper.write_prg(0x8001, 5); // R2=5 → block0 CHR_AND=0x7F, OR=0 → bank 5
    assert_eq!(mapper.read_chr(0x1000), 5, "CHR block0 R2=5 = bank 5");
}

#[test]
fn chr_block1_shifts_bank_by_0x80() {
    let mut mapper = make_mapper();
    mapper.write_prg(0xA001, 0x81); // block 1
    mapper.write_prg(0x8000, 0b0000_0010); // R2
    mapper.write_prg(0x8001, 5); // R2=5 → (5&0x7F)|0x80 = 133
    assert_eq!(
        mapper.read_chr(0x1000),
        133,
        "CHR block1 R2=5 = bank 133 (upper marker = 0)"
    );
}
