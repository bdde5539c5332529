#![allow(unused_imports, dead_code, unused_mut, unused_variables)]
use nes_mappers::cartridge::{NametableLayout, MapperContext, MapperCapabilities, banked_data};
use nes_mappers::factory::{create_mapper, AnyMapper, MapperError};
use nes_mappers::mappers::mapper303::{Mapper303, PRG_BANK_SIZE};
fn create_mapper303(prg_rom: Vec<u8>) -> AnyMapper {
    create_mapper(MapperContext::new_for_test(
        303,
        prg_rom,
        vec![],
        NametableLayout::Vertical,
    ))
    .expect("mapper 303 should be implemented")
}

// ── Registration ──────────────────────────────────────────────────────────

#[test]
fn mapper_303_is_registered() {
    let prg_rom = banked_data(PRG_BANK_SIZE, 4);
    let mapper = create_mapper303(prg_rom);
    assert_eq!(mapper.mapper_number(), 303);
}

// ── Power-on: PRG banking ──────────────────────────────────────────────────

/// Bank 0 ($8000–$BFFF) defaults to PRG page 0.
/// Bank 1 ($C000–$FFFF) is fixed at PRG page 2.
#[test]
fn power_on_prg_banks_correct() {
    let prg_rom = banked_data(PRG_BANK_SIZE, 4);
    let mapper = create_mapper303(prg_rom);

    assert_eq!(
        mapper.read_prg(0x8000),
        0,
        "bank 0 ($8000) should be PRG page 0"
    );
    assert_eq!(
        mapper.read_prg(0xC000),
        2,
        "bank 1 ($C000) should be fixed PRG page 2"
    );
}

// ── PRG bank switching via $4Axx / $51xx ──────────────────────────────────

/// Writing to $4A04 ($4Axx, addr bit A2 set → bank bit 0 set) latches bank 1,
/// and writing to $5100 applies it.
#[test]
fn prg_bank_latch_and_apply_via_4axx_51xx() {
    // Addr $4A04: bit A2 set → ((0x04 >> 2) & 0x03) | ((0x04 >> 4) & 0x04) = 1 | 0 = 1
    let prg_rom = banked_data(PRG_BANK_SIZE, 4);
    let mut mapper = create_mapper303(prg_rom);

    // Latch bank = 1 via addr $4A04 (A2 set)
    mapper.write_prg(0x4A04, 0x00);
    // Before applying, $8000 should still be page 0
    assert_eq!(
        mapper.read_prg(0x8000),
        0,
        "latch should not take effect until $51xx write"
    );

    // Apply latch
    mapper.write_prg(0x5100, 0x00);
    assert_eq!(mapper.read_prg(0x8000), 1, "$8000 should now read page 1");
}

/// Writing to $4A08 ($4Axx, addr bit A3 set → bank bit 1 set) latches bank 2.
#[test]
fn prg_bank_latch_addr_bit_a3() {
    // Addr $4A08: ((0x08 >> 2) & 0x03) | ((0x08 >> 4) & 0x04) = 2 | 0 = 2
    let prg_rom = banked_data(PRG_BANK_SIZE, 4);
    let mut mapper = create_mapper303(prg_rom);

    mapper.write_prg(0x4A08, 0x00);
    mapper.write_prg(0x5100, 0x00);
    // Page 2 = fixed bank, but bank 0 is now also page 2
    assert_eq!(mapper.read_prg(0x8000), 2, "$8000 should read page 2");
}

/// Writing to $4A40 (addr bit A6 set → bank bit 2 set) latches bank 4.
#[test]
fn prg_bank_latch_addr_bit_a6() {
    // Addr $4A40: ((0x40 >> 2) & 0x03) | ((0x40 >> 4) & 0x04) = 0 | 4 = 4
    let prg_rom = banked_data(PRG_BANK_SIZE, 8);
    let mut mapper = create_mapper303(prg_rom);

    mapper.write_prg(0x4A40, 0x00);
    mapper.write_prg(0x5100, 0x00);
    assert_eq!(mapper.read_prg(0x8000), 4, "$8000 should read page 4");
}

/// $C000–$FFFF always stays at fixed page 2 regardless of bank switch.
#[test]
fn fixed_bank_at_c000_ffff_never_changes() {
    let prg_rom = banked_data(PRG_BANK_SIZE, 8);
    let mut mapper = create_mapper303(prg_rom);

    // Switch bank 0 to page 5
    mapper.write_prg(0x4A14, 0x00); // ((0x14 >> 2) & 0x03) | ((0x14 >> 4) & 0x04) = 5
    mapper.write_prg(0x5100, 0x00);

    assert_eq!(
        mapper.read_prg(0xC000),
        2,
        "$C000 should remain fixed at page 2"
    );
    assert_eq!(
        mapper.read_prg(0xFFFF),
        2,
        "$FFFF should remain fixed at page 2"
    );
}

// ── Mirroring ─────────────────────────────────────────────────────────────

#[test]
fn mapper303_power_on_mirroring_is_vertical() {
    let prg_rom = banked_data(PRG_BANK_SIZE, 4);
    let mapper = create_mapper303(prg_rom);
    assert_eq!(mapper.base().mirroring(), NametableLayout::Vertical);
}

#[test]
fn write_4025_bit3_set_selects_horizontal_mirroring() {
    let prg_rom = banked_data(PRG_BANK_SIZE, 4);
    let mut mapper = create_mapper303(prg_rom);

    mapper.write_prg(0x4025, 0x08); // bit 3 = 1 → Horizontal
    assert_eq!(mapper.base().mirroring(), NametableLayout::Horizontal);
}

#[test]
fn write_4025_bit3_clear_selects_vertical_mirroring() {
    let prg_rom = banked_data(PRG_BANK_SIZE, 4);
    let mut mapper = create_mapper303(prg_rom);

    // First switch to Horizontal
    mapper.write_prg(0x4025, 0x08);
    assert_eq!(mapper.base().mirroring(), NametableLayout::Horizontal);

    // Now switch back to Vertical
    mapper.write_prg(0x4025, 0x00);
    assert_eq!(mapper.base().mirroring(), NametableLayout::Vertical);
}

// ── IRQ ───────────────────────────────────────────────────────────────────

#[test]
fn mapper303_irq_not_pending_at_power_on() {
    let prg_rom = banked_data(PRG_BANK_SIZE, 4);
    let mapper = create_mapper303(prg_rom);
    assert!(!mapper.irq_pending());
}

/// Writing $4021 enables IRQ with the 16-bit counter.
/// Counter counts down each CPU cycle; IRQ fires when it reaches 0.
#[test]
fn irq_fires_when_counter_reaches_zero() {
    let prg_rom = banked_data(PRG_BANK_SIZE, 4);
    let mut mapper = create_mapper303(prg_rom);

    // Set counter = 3 (low=3, high=0), enable
    mapper.write_prg(0x4020, 3);
    mapper.write_prg(0x4021, 0);

    assert!(
        !mapper.irq_pending(),
        "IRQ should not fire before counter hits 0"
    );
    mapper.cpu_cycle();
    assert!(!mapper.irq_pending());
    mapper.cpu_cycle();
    assert!(!mapper.irq_pending());
    mapper.cpu_cycle();
    assert!(mapper.irq_pending(), "IRQ should fire after 3 cycles");
}

/// Writing $4021 sets high byte, composing the full 16-bit counter.
#[test]
fn irq_counter_high_byte_via_4021() {
    let prg_rom = banked_data(PRG_BANK_SIZE, 4);
    let mut mapper = create_mapper303(prg_rom);

    // low = 0x00, high = 0x01 → counter = 256
    mapper.write_prg(0x4020, 0x00);
    mapper.write_prg(0x4021, 0x01);

    for _ in 0..255 {
        mapper.cpu_cycle();
        assert!(
            !mapper.irq_pending(),
            "IRQ should not fire before 256 cycles"
        );
    }
    mapper.cpu_cycle(); // 256th cycle
    assert!(mapper.irq_pending(), "IRQ should fire after 256 cycles");
}

/// Writing $4020 clears IRQ pending.
#[test]
fn write_4020_clears_irq_pending() {
    let prg_rom = banked_data(PRG_BANK_SIZE, 4);
    let mut mapper = create_mapper303(prg_rom);

    mapper.write_prg(0x4020, 1);
    mapper.write_prg(0x4021, 0);
    mapper.cpu_cycle();
    assert!(mapper.irq_pending());

    mapper.write_prg(0x4020, 5); // writing low byte should clear IRQ
    assert!(
        !mapper.irq_pending(),
        "$4020 write should clear pending IRQ"
    );
}

/// Writing $4021 clears IRQ pending.
#[test]
fn write_4021_clears_irq_pending() {
    let prg_rom = banked_data(PRG_BANK_SIZE, 4);
    let mut mapper = create_mapper303(prg_rom);

    mapper.write_prg(0x4020, 1);
    mapper.write_prg(0x4021, 0);
    mapper.cpu_cycle();
    assert!(mapper.irq_pending());

    mapper.write_prg(0x4021, 0); // reloading high byte clears IRQ
    assert!(
        !mapper.irq_pending(),
        "$4021 write should clear pending IRQ"
    );
}

/// Reading $4030 returns IRQ pending status and clears it.
#[test]
fn read_4030_returns_irq_status_and_clears() {
    let prg_rom = banked_data(PRG_BANK_SIZE, 4);
    let mut mapper = create_mapper303(prg_rom);

    mapper.write_prg(0x4020, 1);
    mapper.write_prg(0x4021, 0);
    mapper.cpu_cycle();
    assert!(mapper.irq_pending());

    // read_prg_open_bus clears IRQ pending and returns status
    let status = mapper.read_prg_open_bus(0x4030, 0xFF);
    assert_eq!(
        status & 0x01,
        0x01,
        "$4030 bit 0 should be 1 when IRQ pending"
    );

    // The read acknowledged the IRQ.
    assert!(!mapper.irq_pending());
}

/// $4030 returns 0 when IRQ is not pending.
#[test]
fn read_4030_returns_zero_when_no_irq() {
    let prg_rom = banked_data(PRG_BANK_SIZE, 4);
    let mut mapper = create_mapper303(prg_rom);
    let status = mapper.read_prg_open_bus(0x4030, 0xFF);
    assert_eq!(status & 0x01, 0x00, "$4030 bit 0 should be 0 when no IRQ");
}

/// IRQ is disabled after it fires (writing $4021 re-enables it).
#[test]
fn irq_disables_after_firing() {
    let prg_rom = banked_data(PRG_BANK_SIZE, 4);
    let mut mapper = create_mapper303(prg_rom);

    mapper.write_prg(0x4020, 1);
    mapper.write_prg(0x4021, 0);
    mapper.cpu_cycle();
    assert!(mapper.irq_pending());

    // Acknowledge via $4020
    mapper.write_prg(0x4020, 0);

    // Additional CPU cycles should not fire IRQ again (counter is 0, enabled cleared)
    for _ in 0..10 {
        mapper.cpu_cycle();
    }
    // No new IRQ since it was disabled
    assert!(
        !mapper.irq_pending(),
        "IRQ should stay clear after acknowledge with no reload"
    );
}

// ── Reset ─────────────────────────────────────────────────────────────────

#[test]
fn mapper303_reset_restores_power_on_state() {
    let prg_rom = banked_data(PRG_BANK_SIZE, 8);
    let mut mapper = create_mapper303(prg_rom);

    // Change state
    mapper.write_prg(0x4A40, 0); // latch bank 4
    mapper.write_prg(0x5100, 0); // apply
    mapper.write_prg(0x4025, 0x08); // horizontal mirroring

    assert_eq!(mapper.read_prg(0x8000), 4);
    assert_eq!(mapper.base().mirroring(), NametableLayout::Horizontal);

    mapper.reset();

    assert_eq!(
        mapper.read_prg(0x8000),
        0,
        "after reset, bank 0 should be page 0"
    );
    assert_eq!(
        mapper.read_prg(0xC000),
        2,
        "after reset, fixed bank should be page 2"
    );
    assert_eq!(mapper.base().mirroring(), NametableLayout::Vertical);
    assert!(!mapper.irq_pending());
}

// ── Save-state snapshot / restore ─────────────────────────────────────────

#[test]
fn snapshot_and_restore_preserves_prg_bank() {
    let prg_rom = banked_data(PRG_BANK_SIZE, 8);
    let mut mapper = create_mapper303(prg_rom);

    mapper.write_prg(0x4A04, 0); // latch bank 1
    mapper.write_prg(0x5100, 0); // apply

    let snap = mapper.registers_snapshot();

    mapper.reset();
    assert_eq!(mapper.read_prg(0x8000), 0, "after reset, should be page 0");

    mapper.restore_registers(&snap);
    assert_eq!(
        mapper.read_prg(0x8000),
        1,
        "after restore, should be page 1"
    );
}

#[test]
fn snapshot_and_restore_preserves_irq_state() {
    let prg_rom = banked_data(PRG_BANK_SIZE, 4);
    let mut mapper = create_mapper303(prg_rom);

    mapper.write_prg(0x4020, 5);
    mapper.write_prg(0x4021, 0); // counter = 5, enabled

    let snap = mapper.registers_snapshot();

    mapper.reset();

    mapper.restore_registers(&snap);
    // Counter should be 5 again
    mapper.cpu_cycle();
    assert!(!mapper.irq_pending());
    mapper.cpu_cycle();
    assert!(!mapper.irq_pending());
    mapper.cpu_cycle();
    assert!(!mapper.irq_pending());
    mapper.cpu_cycle();
    assert!(!mapper.irq_pending());
    mapper.cpu_cycle();
    assert!(
        mapper.irq_pending(),
        "IRQ should fire after restoring counter=5 and 5 cycles"
    );
}
