#![allow(unused_imports, dead_code, unused_mut, unused_variables)]
use nes_mappers::cartridge::{NametableLayout, MapperContext, MapperCapabilities, banked_data};
use nes_mappers::factory::{create_mapper, AnyMapper, MapperError};
use nes_mappers::mappers::mapper326::{Mapper326, PRG_SWITCHABLE_SLOTS, CHR_SLOTS};
// Non-power-of-two bank counts prevent false-pass modulo wrapping.
const PRG_BANKS: usize = 6; // 6 × 8 KiB = 48 KiB PRG
const CHR_BANKS: usize = 9; // 9 × 1 KiB  = 9 KiB CHR

fn make_mapper() -> Mapper326 {
    let prg = banked_data(8 * 1024, PRG_BANKS);
    let chr = banked_data(1024, CHR_BANKS);
    Mapper326::new(MapperContext::new_for_test(
        326,
        prg,
        chr,
        NametableLayout::Horizontal,
    ))
}

// ─── Registration ───────────────────────────────────────────────────────

#[test]
fn mapper_326_is_registered() {
    let prg = banked_data(8 * 1024, PRG_BANKS);
    let chr = banked_data(1024, CHR_BANKS);
    let result = create_mapper(MapperContext::new_for_test(
        326,
        prg,
        chr,
        NametableLayout::Horizontal,
    ));
    assert!(
        result.is_ok(),
        "Mapper 326 must be registered in the factory"
    );
}

// ─── Power-on PRG state ─────────────────────────────────────────────────

#[test]
fn mapper326_power_on_prg_8000_reads_bank_0() {
    let mapper = make_mapper();
    assert_eq!(
        mapper.read_prg(0x8000),
        0,
        "$8000 must map to PRG bank 0 at power-on"
    );
}

#[test]
fn power_on_prg_a000_reads_bank_0() {
    let mapper = make_mapper();
    assert_eq!(
        mapper.read_prg(0xA000),
        0,
        "$A000 must map to PRG bank 0 at power-on"
    );
}

#[test]
fn power_on_prg_c000_reads_bank_0() {
    let mapper = make_mapper();
    assert_eq!(
        mapper.read_prg(0xC000),
        0,
        "$C000 must map to PRG bank 0 at power-on"
    );
}

#[test]
fn power_on_prg_e000_reads_last_bank() {
    let prg = banked_data(8 * 1024, PRG_BANKS);
    let chr = banked_data(1024, CHR_BANKS);
    // Last bank = bank (PRG_BANKS-1), filled with byte (PRG_BANKS-1).
    let expected = (PRG_BANKS - 1) as u8;
    let mapper = Mapper326::new(MapperContext::new_for_test(
        326,
        prg,
        chr,
        NametableLayout::Horizontal,
    ));
    assert_eq!(
        mapper.read_prg(0xE000),
        expected,
        "$E000 must map to the last PRG bank at power-on"
    );
}

#[test]
fn mapper326_power_on_prg_ffff_reads_last_bank_last_byte() {
    let prg = banked_data(8 * 1024, PRG_BANKS);
    let chr = banked_data(1024, CHR_BANKS);
    let last_bank_offset = (PRG_BANKS - 1) * 8 * 1024 + (8 * 1024 - 1);
    let expected = prg[last_bank_offset];
    let mapper = Mapper326::new(MapperContext::new_for_test(
        326,
        prg,
        chr,
        NametableLayout::Horizontal,
    ));
    assert_eq!(
        mapper.read_prg(0xFFFF),
        expected,
        "$FFFF must read last byte of last PRG bank"
    );
}

// ─── PRG bank switching ─────────────────────────────────────────────────

#[test]
fn write_prg_8000_selects_bank_for_8000_window() {
    let mut mapper = make_mapper();
    mapper.write_prg(0x8000, 2); // select bank 2 for $8000-$9FFF
    assert_eq!(
        mapper.read_prg(0x8000),
        2,
        "$8000 must map to bank 2 after write to $8000"
    );
}

#[test]
fn write_prg_a000_selects_bank_for_a000_window() {
    let mut mapper = make_mapper();
    mapper.write_prg(0xA000, 3); // select bank 3 for $A000-$BFFF
    assert_eq!(
        mapper.read_prg(0xA000),
        3,
        "$A000 must map to bank 3 after write to $A000"
    );
}

#[test]
fn write_prg_c000_selects_bank_for_c000_window() {
    let mut mapper = make_mapper();
    mapper.write_prg(0xC000, 4); // select bank 4 for $C000-$DFFF
    assert_eq!(
        mapper.read_prg(0xC000),
        4,
        "$C000 must map to bank 4 after write to $C000"
    );
}

#[test]
fn write_prg_e000_does_not_change_e000_window() {
    // $E000 slot is fixed to the last bank; writes must be ignored.
    let mut mapper = make_mapper();
    let before = mapper.read_prg(0xE000);
    mapper.write_prg(0xE000, 0); // attempt to switch fixed slot
    assert_eq!(
        mapper.read_prg(0xE000),
        before,
        "$E000 window must remain at last bank after write"
    );
}

#[test]
fn prg_slot_0_independent_from_slot_1() {
    let mut mapper = make_mapper();
    mapper.write_prg(0x8000, 2);
    mapper.write_prg(0xA000, 3);
    assert_eq!(mapper.read_prg(0x8000), 2, "slot 0 must be bank 2");
    assert_eq!(mapper.read_prg(0xA000), 3, "slot 1 must be bank 3");
}

#[test]
fn prg_mask_e010_canonical_address_c003_hits_slot_2() {
    // $C003 & $E010 == $C000 → PRG slot 2 register (addr bit A4=0, bits 14:13 = 0b10).
    let mut mapper = make_mapper();
    mapper.write_prg(0xC003, 5);
    assert_eq!(
        mapper.read_prg(0xC000),
        5,
        "non-canonical address $C003 must still write PRG slot 2"
    );
}

// ─── Power-on CHR state ─────────────────────────────────────────────────

#[test]
fn mapper326_power_on_chr_0000_reads_bank_0() {
    let mut mapper = make_mapper();
    assert_eq!(mapper.read_chr(0x0000), 0, "$0000 must map to CHR bank 0");
}

#[test]
fn power_on_chr_1c00_reads_bank_0() {
    let mut mapper = make_mapper();
    assert_eq!(mapper.read_chr(0x1C00), 0, "$1C00 must map to CHR bank 0");
}

// ─── CHR bank switching ─────────────────────────────────────────────────

#[test]
fn write_8010_selects_chr_slot_0() {
    let mut mapper = make_mapper();
    mapper.write_prg(0x8010, 3); // CHR slot 0 → bank 3
    assert_eq!(
        mapper.read_chr(0x0000),
        3,
        "CHR slot 0 must map to bank 3 after write to $8010"
    );
}

#[test]
fn write_8017_selects_chr_slot_7() {
    let mut mapper = make_mapper();
    mapper.write_prg(0x8017, 5); // CHR slot 7 → bank 5
    assert_eq!(
        mapper.read_chr(0x1C00),
        5,
        "CHR slot 7 must map to bank 5 after write to $8017"
    );
}

#[test]
fn chr_slots_are_independent() {
    let mut mapper = make_mapper();
    mapper.write_prg(0x8010, 1);
    mapper.write_prg(0x8011, 2);
    mapper.write_prg(0x8012, 3);
    assert_eq!(mapper.read_chr(0x0000), 1, "slot 0 must be bank 1");
    assert_eq!(mapper.read_chr(0x0400), 2, "slot 1 must be bank 2");
    assert_eq!(mapper.read_chr(0x0800), 3, "slot 2 must be bank 3");
}

#[test]
fn chr_mask_801f_non_canonical_a010_hits_chr_slot_0() {
    // $A010 & $801F = $8010 → CHR slot 0 (A4=1, A3=0, addr[2:0]=0).
    let mut mapper = make_mapper();
    mapper.write_prg(0xA010, 4);
    assert_eq!(
        mapper.read_chr(0x0000),
        4,
        "non-canonical address $A010 must write CHR slot 0"
    );
}

#[test]
fn chr_mask_801f_non_canonical_f018_hits_mirroring_nt0() {
    // $F018 & $801F = $8018 → NT0 mirror register.
    let mut mapper = make_mapper();
    mapper.write_prg(0xF018, 1); // NT0 → page 1
    // After NT0=1, NT1=0, NT2=0, NT3=0 → no standard match → Horizontal fallback.
    // But we can verify the nt_banks[0] was set via the registers snapshot.
    let snap = mapper.registers_snapshot();
    // snap = [prg0,prg1,prg2, chr0..chr7, nt0,nt1,nt2,nt3]
    assert_eq!(
        snap[PRG_SWITCHABLE_SLOTS + CHR_SLOTS],
        1,
        "NT0 bank must be 1 after $F018 write"
    );
}

// ─── Mirroring control ──────────────────────────────────────────────────

#[test]
fn all_nt_banks_zero_gives_single_screen_lower() {
    let mut mapper = make_mapper();
    mapper.write_prg(0x8018, 0);
    mapper.write_prg(0x8019, 0);
    mapper.write_prg(0x801A, 0);
    mapper.write_prg(0x801B, 0);
    assert_eq!(mapper.get_mirroring(), NametableLayout::SingleScreenLower);
}

#[test]
fn all_nt_banks_one_gives_single_screen_upper() {
    let mut mapper = make_mapper();
    mapper.write_prg(0x8018, 1);
    mapper.write_prg(0x8019, 1);
    mapper.write_prg(0x801A, 1);
    mapper.write_prg(0x801B, 1);
    assert_eq!(mapper.get_mirroring(), NametableLayout::SingleScreenUpper);
}

#[test]
fn nt_banks_0011_gives_horizontal_mirroring() {
    // NT0=0, NT1=0, NT2=1, NT3=1 → Horizontal
    let mut mapper = make_mapper();
    mapper.write_prg(0x8018, 0);
    mapper.write_prg(0x8019, 0);
    mapper.write_prg(0x801A, 1);
    mapper.write_prg(0x801B, 1);
    assert_eq!(mapper.get_mirroring(), NametableLayout::Horizontal);
}

#[test]
fn nt_banks_0101_gives_vertical_mirroring() {
    // NT0=0, NT1=1, NT2=0, NT3=1 → Vertical
    let mut mapper = make_mapper();
    mapper.write_prg(0x8018, 0);
    mapper.write_prg(0x8019, 1);
    mapper.write_prg(0x801A, 0);
    mapper.write_prg(0x801B, 1);
    assert_eq!(mapper.get_mirroring(), NametableLayout::Vertical);
}

#[test]
fn mirroring_bit_mask_only_bit_0_matters() {
    // Writing data=0xFF → bit 0 = 1; data=0xFE → bit 0 = 0.
    let mut mapper = make_mapper();
    mapper.write_prg(0x8018, 0xFF); // NT0 page = 0xFF & 1 = 1
    mapper.write_prg(0x8019, 0xFE); // NT1 page = 0xFE & 1 = 0
    mapper.write_prg(0x801A, 0xFF); // NT2 page = 0xFF & 1 = 1
    mapper.write_prg(0x801B, 0xFE); // NT3 page = 0xFE & 1 = 0
    // [1,0,1,0] = no standard match → Horizontal fallback
    // Mainly verifies masking; check nt_banks via snapshot.
    let snap = mapper.registers_snapshot();
    let nt = &snap[PRG_SWITCHABLE_SLOTS + CHR_SLOTS..];
    assert_eq!(
        nt,
        &[1, 0, 1, 0],
        "NT bank bits must be masked to bit 0 only"
    );
}

// ─── Snapshot / restore ─────────────────────────────────────────────────

#[test]
fn registers_snapshot_has_correct_length() {
    let mapper = make_mapper();
    let snap = mapper.registers_snapshot();
    assert_eq!(
        snap.len(),
        PRG_SWITCHABLE_SLOTS + CHR_SLOTS + 4,
        "snapshot must contain all bank registers"
    );
}

#[test]
fn restore_registers_restores_prg_and_chr_and_mirroring() {
    let prg = banked_data(8 * 1024, PRG_BANKS);
    let chr = banked_data(1024, CHR_BANKS);
    let mut mapper = Mapper326::new(MapperContext::new_for_test(
        326,
        prg.clone(),
        chr.clone(),
        NametableLayout::Horizontal,
    ));
    mapper.write_prg(0x8000, 2);
    mapper.write_prg(0xA000, 3);
    mapper.write_prg(0xC000, 4);
    mapper.write_prg(0x8010, 1);
    mapper.write_prg(0x8018, 0);
    mapper.write_prg(0x8019, 0);
    mapper.write_prg(0x801A, 1);
    mapper.write_prg(0x801B, 1);
    let snap = mapper.registers_snapshot();

    let mut mapper2 = Mapper326::new(MapperContext::new_for_test(
        326,
        prg,
        chr,
        NametableLayout::Horizontal,
    ));
    mapper2.restore_registers(&snap);

    assert_eq!(mapper2.read_prg(0x8000), 2, "PRG slot 0 must be restored");
    assert_eq!(mapper2.read_prg(0xA000), 3, "PRG slot 1 must be restored");
    assert_eq!(mapper2.read_prg(0xC000), 4, "PRG slot 2 must be restored");
    assert_eq!(mapper2.read_chr(0x0000), 1, "CHR slot 0 must be restored");
    assert_eq!(
        mapper2.get_mirroring(),
        NametableLayout::Horizontal,
        "mirroring must be restored"
    );
}

// ─── Reset ──────────────────────────────────────────────────────────────

#[test]
fn reset_clears_all_prg_banks_to_zero() {
    let mut mapper = make_mapper();
    mapper.write_prg(0x8000, 2);
    mapper.write_prg(0xA000, 3);
    mapper.write_prg(0xC000, 4);
    mapper.reset();
    assert_eq!(
        mapper.read_prg(0x8000),
        0,
        "PRG slot 0 must be 0 after reset"
    );
    assert_eq!(
        mapper.read_prg(0xA000),
        0,
        "PRG slot 1 must be 0 after reset"
    );
    assert_eq!(
        mapper.read_prg(0xC000),
        0,
        "PRG slot 2 must be 0 after reset"
    );
}

#[test]
fn reset_preserves_fixed_e000_bank() {
    let mut mapper = make_mapper();
    let expected = mapper.read_prg(0xE000);
    mapper.reset();
    assert_eq!(
        mapper.read_prg(0xE000),
        expected,
        "$E000 window must remain at last bank after reset"
    );
}

#[test]
fn reset_clears_chr_banks() {
    let mut mapper = make_mapper();
    mapper.write_prg(0x8010, 5);
    mapper.reset();
    assert_eq!(
        mapper.read_chr(0x0000),
        0,
        "CHR slot 0 must be 0 after reset"
    );
}

// ─── No IRQ ─────────────────────────────────────────────────────────────

#[test]
fn mapper326_irq_never_pending() {
    let mut mapper = make_mapper();
    mapper.write_prg(0x8000, 0xFF);
    assert!(!mapper.irq_pending(), "Mapper 326 must never assert IRQ");
}
