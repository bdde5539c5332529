#![allow(unused_imports, dead_code, unused_mut, unused_variables)]
use nes_mappers::cartridge::{NametableLayout, MapperContext, MapperCapabilities, banked_data};
use nes_mappers::factory::{create_mapper, AnyMapper, MapperError};
use nes_mappers::mappers::mapper298::{Mapper298};
const PRG_BANKS: usize = 8;
const CHR_BANKS: usize = 64; // 64 × 1KB to accommodate bank indices up to 0xFF

fn make_mapper() -> Mapper298 {
    let prg = banked_data(8 * 1024, PRG_BANKS);
    let chr = banked_data(1 * 1024, CHR_BANKS);
    Mapper298::new(
        MapperContext::new_for_test(298, prg, chr, NametableLayout::Vertical)
            .with_prg_ram_banks(0),
    )
}

// ── Factory ───────────────────────────────────────────────────────────────

#[test]
fn mapper_298_is_registered_in_factory() {
    let result = create_mapper(
        MapperContext::new_for_test(
            298,
            banked_data(8 * 1024, PRG_BANKS),
            banked_data(1 * 1024, CHR_BANKS),
            NametableLayout::Vertical,
        )
        .with_prg_ram_banks(0),
    );
    assert!(
        result.is_ok(),
        "Mapper 298 must be registered in the factory"
    );
}

#[test]
fn mapper_298_reports_irq_capability() {
    let mapper = make_mapper();
    assert!(
        mapper.capabilities().has_irq,
        "Mapper 298 must report has_irq=true"
    );
}

// ── PRG banking (default: no swap) ────────────────────────────────────────

#[test]
fn prg_slot3_is_always_last_bank() {
    let mapper = make_mapper();
    // Last bank = PRG_BANKS - 1 = 7; bank content = 7 (banked_data pattern)
    assert_eq!(
        mapper.read_prg(0xE000),
        (PRG_BANKS - 1) as u8,
        "$E000 slot 3 must always be last bank"
    );
}

#[test]
fn prg_slot2_defaults_to_second_to_last_bank() {
    let mapper = make_mapper();
    assert_eq!(
        mapper.read_prg(0xC000),
        (PRG_BANKS - 2) as u8,
        "$C000 slot 2 must default to second-to-last bank"
    );
}

#[test]
fn prg_slot0_defaults_to_bank0() {
    let mapper = make_mapper();
    assert_eq!(
        mapper.read_prg(0x8000),
        0,
        "$8000 slot 0 must default to bank 0"
    );
}

#[test]
fn prg_slot1_defaults_to_bank0() {
    let mapper = make_mapper();
    assert_eq!(
        mapper.read_prg(0xA000),
        0,
        "$A000 slot 1 must default to bank 0"
    );
}

#[test]
fn write_8000_selects_prg_slot0() {
    let mut mapper = make_mapper();
    mapper.write_prg(0x8000, 3);
    assert_eq!(
        mapper.read_prg(0x8000),
        3,
        "$8000 write must select PRG slot 0"
    );
    // slot 2 stays fixed at second-to-last
    assert_eq!(mapper.read_prg(0xC000), (PRG_BANKS - 2) as u8);
}

#[test]
fn write_a000_selects_prg_slot1() {
    let mut mapper = make_mapper();
    mapper.write_prg(0xA000, 5);
    assert_eq!(
        mapper.read_prg(0xA000),
        5,
        "$A000 write must select PRG slot 1"
    );
}

// ── PRG swap mode ─────────────────────────────────────────────────────────

#[test]
fn write_9001_nonzero_enables_prg_swap() {
    let mut mapper = make_mapper();
    mapper.write_prg(0x8000, 3); // prg_regs[0] = 3
    mapper.write_prg(0x9001, 0x01); // enable swap
    // Slot 0 should now be fixed to second-to-last bank
    assert_eq!(
        mapper.read_prg(0x8000),
        (PRG_BANKS - 2) as u8,
        "Slot 0 must be second-to-last when swap active"
    );
    // Slot 2 should now be prg_regs[0] = 3
    assert_eq!(
        mapper.read_prg(0xC000),
        3,
        "Slot 2 must use prg_regs[0] when swap active"
    );
}

#[test]
fn write_9001_zero_disables_prg_swap() {
    let mut mapper = make_mapper();
    mapper.write_prg(0x8000, 3);
    mapper.write_prg(0x9001, 0x01);
    mapper.write_prg(0x9001, 0x00); // disable swap
    assert_eq!(
        mapper.read_prg(0x8000),
        3,
        "Slot 0 must use prg_regs[0] after swap disabled"
    );
    assert_eq!(
        mapper.read_prg(0xC000),
        (PRG_BANKS - 2) as u8,
        "Slot 2 must be second-to-last after swap disabled"
    );
}

#[test]
fn slot1_unchanged_by_swap() {
    let mut mapper = make_mapper();
    mapper.write_prg(0xA000, 2);
    mapper.write_prg(0x9001, 0x03);
    assert_eq!(
        mapper.read_prg(0xA000),
        2,
        "Slot 1 must not be affected by swap"
    );
}

#[test]
fn slot3_unchanged_by_swap() {
    let mut mapper = make_mapper();
    mapper.write_prg(0x9001, 0x03);
    assert_eq!(
        mapper.read_prg(0xE000),
        (PRG_BANKS - 1) as u8,
        "Slot 3 must always be last bank regardless of swap"
    );
}

// ── CHR banking ───────────────────────────────────────────────────────────

#[test]
fn chr_all_slots_default_to_bank0() {
    let mut mapper = make_mapper();
    for slot in 0..8usize {
        let addr = 0x0000u16 + (slot as u16 * 0x0400);
        assert_eq!(
            mapper.read_chr(addr),
            0,
            "CHR slot {} must default to bank 0",
            slot
        );
    }
}

#[test]
fn chr_slot0_low_nibble_write_via_b000() {
    let mut mapper = make_mapper();
    // $B000 sets low nibble of chr_regs[0]
    mapper.write_prg(0xB000, 0x05);
    assert_eq!(
        mapper.read_chr(0x0000),
        5,
        "$B000 write must set CHR slot 0 to bank 5"
    );
}

#[test]
fn chr_slot0_high_nibble_write_via_b002() {
    let mut mapper = make_mapper();
    // Write low nibble first (bank 2), then high nibble (bank 0x10)
    mapper.write_prg(0xB000, 0x02); // low nibble = 2
    mapper.write_prg(0xB002, 0x01); // high nibble = 1 → bank = 0x12
    assert_eq!(
        mapper.read_chr(0x0000),
        0x12,
        "$B000/$B002 pair must assemble CHR slot 0 from nibbles"
    );
}

#[test]
fn chr_slot1_via_b001_b003() {
    let mut mapper = make_mapper();
    mapper.write_prg(0xB001, 0x07); // low nibble of slot 1
    mapper.write_prg(0xB003, 0x02); // high nibble of slot 1
    assert_eq!(mapper.read_chr(0x0400), 0x27, "CHR slot 1 via $B001/$B003");
}

#[test]
fn chr_slot2_via_c000() {
    let mut mapper = make_mapper();
    mapper.write_prg(0xC000, 0x0A); // low nibble of slot 2
    assert_eq!(mapper.read_chr(0x0800), 0x0A, "CHR slot 2 via $C000");
}

#[test]
fn chr_slot6_via_e000() {
    let mut mapper = make_mapper();
    mapper.write_prg(0xE000, 0x03); // low nibble of slot 6
    mapper.write_prg(0xE002, 0x01); // high nibble of slot 6 → bank 0x13
    assert_eq!(mapper.read_chr(0x1800), 0x13, "CHR slot 6 via $E000/$E002");
}

#[test]
fn chr_slot7_via_e001() {
    let mut mapper = make_mapper();
    mapper.write_prg(0xE001, 0x09); // low nibble of slot 7
    assert_eq!(mapper.read_chr(0x1C00), 0x09, "CHR slot 7 via $E001");
}

// ── Mirroring ─────────────────────────────────────────────────────────────

#[test]
fn mirroring_defaults_to_power_on_value() {
    let mapper = make_mapper();
    // Power-on mirroring comes from iNES header (Vertical in test)
    assert_eq!(mapper.base.mirroring(), NametableLayout::Vertical);
}

#[test]
fn write_9000_bit0_sets_horizontal_mirroring() {
    let mut mapper = make_mapper();
    mapper.write_prg(0x9000, 0x01);
    assert_eq!(mapper.base.mirroring(), NametableLayout::Horizontal);
}

#[test]
fn write_9000_bit0_clear_sets_vertical_mirroring() {
    let mut mapper = make_mapper();
    mapper.write_prg(0x9000, 0x01);
    mapper.write_prg(0x9000, 0x00);
    assert_eq!(mapper.base.mirroring(), NametableLayout::Vertical);
}

// ── IRQ ───────────────────────────────────────────────────────────────────

#[test]
fn mapper298_irq_not_pending_at_power_on() {
    let mapper = make_mapper();
    assert!(!mapper.irq_pending(), "IRQ must not be pending at power-on");
}

#[test]
fn irq_not_pending_when_disabled() {
    let mut mapper = make_mapper();
    // Write $F001 without bit 1 set → disabled
    mapper.write_prg(0xF001, 0x00);
    for _ in 0..10000 {
        mapper.cpu_cycle();
    }
    assert!(!mapper.irq_pending(), "IRQ must not fire when disabled");
}

#[test]
fn irq_fires_on_counter_overflow() {
    let mut mapper = make_mapper();
    // Set reload = 0xFF so counter starts at 0xFF; first overflow is 1 increment away.
    mapper.write_prg(0xF000, 0x0F); // low nibble = 0xF
    mapper.write_prg(0xF002, 0x0F); // high nibble = 0xF → reload = 0xFF
    mapper.write_prg(0xF001, 0x02); // enable IRQ; counter = 0xFF, scaler = 341

    // Scaler ticks: each CPU cycle decrements scaler by 3.
    // scaler=341; after 114 cycles: 341 - 3*113 = 341 - 339 = 2 > 0; 341 - 342 = -1 ≤ 0 at cycle 114.
    // Actually 341/3 = 113.67, so after 114 cycles scaler ≤ 0 → counter increments to 0x00 → IRQ fires.
    let mut fired = false;
    for _ in 0..500 {
        mapper.cpu_cycle();
        if mapper.irq_pending() {
            fired = true;
            break;
        }
    }
    assert!(fired, "IRQ must fire after counter overflow");
}

#[test]
fn irq_fires_after_expected_cycles() {
    let mut mapper = make_mapper();
    // reload = 0xFF → counter starts at 0xFF; needs 1 counter increment to overflow
    mapper.write_prg(0xF000, 0x0F);
    mapper.write_prg(0xF002, 0x0F); // reload = 0xFF
    mapper.write_prg(0xF001, 0x02); // enable; counter = 0xFF, scaler = 341

    // scaler starts at 341; decrements by 3 per cycle.
    // Overflow at scaler ≤ 0: cycle 114 (341 - 3*114 = 341 - 342 = -1)
    for _ in 0..113 {
        mapper.cpu_cycle();
    }
    assert!(
        !mapper.irq_pending(),
        "IRQ must not fire before scaler overflow"
    );

    mapper.cpu_cycle(); // cycle 114 triggers scaler overflow → counter wraps to 0 → IRQ
    assert!(mapper.irq_pending(), "IRQ must fire on cycle 114");
}

#[test]
fn irq_reload_low_nibble_via_f000() {
    let mut mapper = make_mapper();
    mapper.write_prg(0xF000, 0x07); // low nibble = 7
    mapper.write_prg(0xF002, 0x00); // high nibble = 0 → reload = 0x07
    mapper.write_prg(0xF001, 0x02); // enable; counter = 0x07

    // counter = 7; needs 249 more increments to overflow (0xFF - 0x07 + 1 = 249? No:
    // counter starts at 7, wraps at 256. So needs 256 - 7 = 249 increments.
    // Each increment needs 341/3 ≈ 113.67 cycles → ~28,282 cycles total)
    let mut fired = false;
    for _ in 0..40_000 {
        mapper.cpu_cycle();
        if mapper.irq_pending() {
            fired = true;
            break;
        }
    }
    assert!(fired, "IRQ must fire eventually with reload=7");
}

#[test]
fn f001_write_clears_irq_pending_when_disabling() {
    let mut mapper = make_mapper();
    // Manually trigger IRQ by firing via overflow
    mapper.write_prg(0xF000, 0x0F);
    mapper.write_prg(0xF002, 0x0F); // reload = 0xFF
    mapper.write_prg(0xF001, 0x02); // enable
    for _ in 0..200 {
        mapper.cpu_cycle();
    }
    assert!(mapper.irq_pending());
    // Disable IRQ via $F001 (bit 1 = 0) → must clear pending
    mapper.write_prg(0xF001, 0x00);
    assert!(
        !mapper.irq_pending(),
        "$F001 write must always clear pending IRQ"
    );
}

#[test]
fn f003_write_acknowledges_irq() {
    let mut mapper = make_mapper();
    mapper.write_prg(0xF000, 0x0F);
    mapper.write_prg(0xF002, 0x0F);
    mapper.write_prg(0xF001, 0x02);
    for _ in 0..200 {
        mapper.cpu_cycle();
    }
    assert!(mapper.irq_pending());
    mapper.write_prg(0xF003, 0x00);
    assert!(
        !mapper.irq_pending(),
        "$F003 must acknowledge (clear) pending IRQ"
    );
}

// ── Save state ────────────────────────────────────────────────────────────

#[test]
fn mapper298_registers_snapshot_round_trips() {
    let mut mapper = make_mapper();
    mapper.write_prg(0x8000, 3);
    mapper.write_prg(0xA000, 5);
    mapper.write_prg(0x9001, 0x01);
    mapper.write_prg(0xB000, 0x07);
    mapper.write_prg(0xB002, 0x02); // chr_regs[0] = 0x27
    mapper.write_prg(0x9000, 0x01); // horizontal
    mapper.write_prg(0xF000, 0x05);
    mapper.write_prg(0xF002, 0x03); // reload = 0x35

    let snap = mapper.registers_snapshot();
    assert!(!snap.is_empty(), "snapshot must not be empty");

    let mut mapper2 = make_mapper();
    mapper2.restore_registers(&snap);

    // PRG banking
    assert_eq!(mapper2.read_prg(0x8000), (PRG_BANKS - 2) as u8); // swap active: slot0=second-to-last
    assert_eq!(mapper2.read_prg(0xC000), 3); // slot2=prg_regs[0]
    assert_eq!(mapper2.read_prg(0xA000), 5); // slot1
    assert_eq!(mapper2.read_prg(0xE000), (PRG_BANKS - 1) as u8); // slot3=last

    // CHR banking
    assert_eq!(mapper2.read_chr(0x0000), 0x27);

    // Mirroring
    assert_eq!(mapper2.base.mirroring(), NametableLayout::Horizontal);
}

// ── Reset ─────────────────────────────────────────────────────────────────

#[test]
fn mapper298_reset_restores_power_on_state() {
    let mut mapper = make_mapper();
    mapper.write_prg(0x8000, 5);
    mapper.write_prg(0xA000, 3);
    mapper.write_prg(0x9001, 0x01); // swap
    mapper.write_prg(0xF001, 0x02); // enable IRQ

    mapper.reset();

    assert_eq!(mapper.read_prg(0x8000), 0, "slot 0 must reset to bank 0");
    assert_eq!(
        mapper.read_prg(0xC000),
        (PRG_BANKS - 2) as u8,
        "slot 2 must reset to second-to-last"
    );
    assert!(!mapper.swap_prg, "swap_prg must reset to false");
    assert!(!mapper.irq_enabled, "IRQ must be disabled after reset");
    assert!(!mapper.irq_pending, "IRQ must not be pending after reset");
}
