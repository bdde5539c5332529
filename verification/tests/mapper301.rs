#![allow(unused_imports, dead_code, unused_mut, unused_variables)]
use nes_mappers::cartridge::{NametableLayout, MapperContext, MapperCapabilities, banked_data};
use nes_mappers::factory::{create_mapper, AnyMapper, MapperError};
use nes_mappers::mappers::mapper301::{Mapper301, MAPPER_NUMBER, PRG_BANK_SIZE, CHR_BANK_SIZE};
// Use 8 × 16KB banks = 128KB
const PRG_BANKS: usize = 8;
const CHR_BANKS: usize = 1;

fn make_mapper() -> Mapper301 {
    Mapper301::new(MapperContext::new_for_test(
        MAPPER_NUMBER,
        banked_data(PRG_BANK_SIZE, PRG_BANKS),
        banked_data(CHR_BANK_SIZE, CHR_BANKS),
        NametableLayout::Vertical,
    ))
}

#[test]
fn mapper_301_is_registered_in_factory() {
    let result = create_mapper(MapperContext::new_for_test(
        MAPPER_NUMBER,
        banked_data(PRG_BANK_SIZE, PRG_BANKS),
        banked_data(CHR_BANK_SIZE, CHR_BANKS),
        NametableLayout::Vertical,
    ));
    assert!(result.is_ok(), "Mapper 301 must be creatable via factory");
}

#[test]
fn power_on_both_slots_at_bank_0() {
    let mapper = make_mapper();
    // lastAddr=0: innerPrg0=0, innerPrg1=0→baseBank=0, outer128=0, outer512=0
    // slot0=0, slot1=0
    assert_eq!(mapper.read_prg(0x8000), 0, "slot0 must be bank 0");
    assert_eq!(mapper.read_prg(0xC000), 0, "slot1 must be bank 0");
}

#[test]
fn write_addr_0x8014_selects_expected_banks() {
    let mut mapper = make_mapper();
    // addr=0x8014: innerPrg0=(0x8014>>2)&7=(0x2005)&7=5;
    // innerPrg1=((0x8014>>7)&1)|((0x8014>>8)&2)=(0x100&1)|(0x80&2)=0|0=0 → baseBank=0
    // outer128=(0x8014>>5)&3=(0x400)&3=0; outer512=(0x8014>>8)&1=0x80&1=0
    // slot0=5, slot1=0
    mapper.write_prg(0x8014, 0x00);
    assert_eq!(mapper.read_prg(0x8000), 5, "slot0 should be bank 5");
    assert_eq!(
        mapper.read_prg(0xC000),
        0,
        "slot1 should be bank 0 (baseBank=0)"
    );
}

#[test]
fn mirroring_from_addr_bit_1() {
    let mut mapper = make_mapper();
    // addr=0x8000: bit1=0 → Vertical
    mapper.write_prg(0x8000, 0);
    assert_eq!(
        mapper.base().mirroring(),
        NametableLayout::Vertical,
        "bit1=0 must be Vertical"
    );
    // addr=0x8002: bit1=1 → Horizontal
    mapper.write_prg(0x8002, 0);
    assert_eq!(
        mapper.base().mirroring(),
        NametableLayout::Horizontal,
        "bit1=1 must be Horizontal"
    );
}

#[test]
fn mapper301_reset_restores_power_on_state() {
    let mut mapper = make_mapper();
    mapper.write_prg(0x8014, 0x00);
    mapper.reset();
    assert_eq!(mapper.read_prg(0x8000), 0);
    assert_eq!(mapper.read_prg(0xC000), 0);
}

#[test]
fn snapshot_restore_round_trips() {
    let mut mapper = make_mapper();
    mapper.write_prg(0x8014, 0x00);
    let snap = mapper.registers_snapshot();

    let mut restored = make_mapper();
    restored.restore_registers(&snap);
    assert_eq!(restored.last_addr, 0x8014);
    assert_eq!(restored.read_prg(0x8000), 5);
}
