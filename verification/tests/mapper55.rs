#![allow(unused_imports, dead_code, unused_mut, unused_variables)]
use nes_mappers::cartridge::{NametableLayout, MapperContext, MapperCapabilities, banked_data};
use nes_mappers::factory::{create_mapper, AnyMapper, MapperError};
use nes_mappers::mappers::mapper55::{Mapper55};
// Non-power-of-two bank counts to avoid false-pass via modulo wrapping.
// 24 banks × 8KB = 192 KB PRG (24 is non-power-of-two).
const PRG_BANKS: usize = 24;
const CHR_BANKS: usize = 1; // Fixed, no banking

fn make_mapper() -> Mapper55 {
    let prg = banked_data(8 * 1024, PRG_BANKS);
    let chr = banked_data(8 * 1024, CHR_BANKS);
    Mapper55::new(MapperContext::new_for_test(
        55,
        prg,
        chr,
        NametableLayout::Vertical,
    ))
}

// ── Registration ──────────────────────────────────────────────────────────

#[test]
fn mapper_55_is_registered() {
    let prg = banked_data(8 * 1024, PRG_BANKS);
    let chr = banked_data(8 * 1024, CHR_BANKS);
    let result = create_mapper(MapperContext::new_for_test(
        55,
        prg,
        chr,
        NametableLayout::Vertical,
    ));
    assert!(
        result.is_ok(),
        "Mapper 55 must be registered in the factory"
    );
}

// ── Power-on state ────────────────────────────────────────────────────────

#[test]
fn power_on_prg_6000_is_bank_0() {
    let mapper = make_mapper();
    assert_eq!(
        mapper.read_prg(0x6000),
        0,
        "$6000 window must default to PRG bank 0 at power-on"
    );
}

#[test]
fn power_on_prg_8000_fixed_to_last_32kb() {
    let mapper = make_mapper();
    // $8000–$9FFF = bank PRG_BANKS-4
    let expected = (PRG_BANKS - 4) as u8;
    assert_eq!(
        mapper.read_prg(0x8000),
        expected,
        "$8000 must be fixed to 4th-from-last 8KB bank"
    );
    // $E000–$FFFF = last bank
    let expected_last = (PRG_BANKS - 1) as u8;
    assert_eq!(
        mapper.read_prg(0xE000),
        expected_last,
        "$E000 must be fixed to last 8KB bank"
    );
}

#[test]
fn mapper55_power_on_chr_bank_is_0() {
    let mut mapper = make_mapper();
    assert_eq!(
        mapper.read_chr(0x0000),
        0,
        "CHR must be fixed to bank 0 at power-on"
    );
}

#[test]
fn mapper55_power_on_irq_not_pending() {
    let mapper = make_mapper();
    assert!(!mapper.irq_pending(), "IRQ must not be pending at power-on");
}

// ── PRG bank switching at $6000–$7FFF ────────────────────────────────────

#[test]
fn prg_6000_window_switches_on_f000_write() {
    let mut mapper = make_mapper();
    // Write bank 5 to register $F000
    mapper.write_prg(0xF000, 5);
    assert_eq!(
        mapper.read_prg(0x6000),
        5,
        "$6000 window must switch to bank 5 after writing $F000"
    );
}

#[test]
fn prg_6000_window_switches_on_f004_write() {
    let mut mapper = make_mapper();
    // $F004 has addr & 0x03 == 0, same register
    mapper.write_prg(0xF004, 7);
    assert_eq!(
        mapper.read_prg(0x6000),
        7,
        "$6000 window must switch to bank 7 after writing $F004"
    );
}

#[test]
fn prg_6000_window_covers_full_8kb() {
    let mut mapper = make_mapper();
    mapper.write_prg(0xF000, 3);
    assert_eq!(mapper.read_prg(0x6000), 3, "start of $6000 window");
    assert_eq!(mapper.read_prg(0x7FFF), 3, "end of $7FFF window");
}

#[test]
fn prg_8000_fixed_unaffected_by_latch_write() {
    let mut mapper = make_mapper();
    let before = mapper.read_prg(0x8000);
    mapper.write_prg(0xF000, 15);
    assert_eq!(
        mapper.read_prg(0x8000),
        before,
        "$8000 fixed window must not change after latch write"
    );
}

#[test]
fn registers_below_f000_are_ignored() {
    let mut mapper = make_mapper();
    mapper.write_prg(0xE000, 5);
    assert_eq!(
        mapper.read_prg(0x6000),
        0,
        "Writes below $F000 must be ignored (PRG bank stays 0)"
    );
}

// ── CHR: no banking ───────────────────────────────────────────────────────

#[test]
fn mapper55_chr_is_always_bank_0() {
    let mut mapper = make_mapper();
    // Writing the latch register must not affect CHR
    mapper.write_prg(0xF000, 0xFF);
    assert_eq!(
        mapper.read_chr(0x0000),
        0,
        "CHR must remain bank 0 regardless of latch value"
    );
}

// ── Mirroring ─────────────────────────────────────────────────────────────

#[test]
fn mirroring_defaults_from_header() {
    let mapper = make_mapper(); // created with Vertical
    assert_eq!(
        mapper.get_mirroring(),
        NametableLayout::Vertical,
        "Mirroring must reflect header at power-on"
    );
}

#[test]
fn write_f001_bit3_set_selects_horizontal() {
    let mut mapper = make_mapper(); // starts Vertical
    mapper.write_prg(0xF001, 0x08);
    assert_eq!(
        mapper.get_mirroring(),
        NametableLayout::Horizontal,
        "Writing $F001 with bit 3 set must switch to Horizontal"
    );
}

#[test]
fn write_f001_bit3_clear_selects_vertical() {
    let mut mapper = make_mapper();
    mapper.write_prg(0xF001, 0x08); // set horizontal
    mapper.write_prg(0xF001, 0x00); // clear back to vertical
    assert_eq!(
        mapper.get_mirroring(),
        NametableLayout::Vertical,
        "Writing $F001 with bit 3 clear must switch to Vertical"
    );
}

// ── IRQ ───────────────────────────────────────────────────────────────────

#[test]
fn irq_does_not_fire_while_disabled() {
    let mut mapper = make_mapper();
    for _ in 0..0x8000 {
        mapper.cpu_cycle();
    }
    assert!(
        !mapper.irq_pending(),
        "IRQ must not fire while IRQ is disabled"
    );
}

#[test]
fn irq_fires_after_0x6000_cycles_when_enabled() {
    let mut mapper = make_mapper();
    mapper.write_prg(0xF002, 0x02); // enable IRQ
    for _ in 0..0x5FFF {
        mapper.cpu_cycle();
    }
    assert!(
        !mapper.irq_pending(),
        "IRQ must not fire before reaching threshold"
    );
    mapper.cpu_cycle(); // 0x6000th cycle
    assert!(mapper.irq_pending(), "IRQ must fire at cycle 0x6000");
}

#[test]
fn irq_disable_clears_pending_and_resets_counter() {
    let mut mapper = make_mapper();
    mapper.write_prg(0xF002, 0x02); // enable
    for _ in 0..0x6000 {
        mapper.cpu_cycle();
    }
    assert!(mapper.irq_pending(), "IRQ should be pending before disable");

    mapper.write_prg(0xF002, 0x00); // disable → should ack and reset
    assert!(!mapper.irq_pending(), "IRQ must be cleared after disabling");

    // Re-enable and verify counter was reset (needs 0x6000 new cycles)
    mapper.write_prg(0xF002, 0x02); // re-enable
    for _ in 0..0x5FFF {
        mapper.cpu_cycle();
    }
    assert!(
        !mapper.irq_pending(),
        "IRQ must not fire before threshold after counter reset"
    );
}

#[test]
fn irq_register_decoded_at_f002_and_multiples() {
    let mut mapper = make_mapper();
    mapper.write_prg(0xF006, 0x02); // addr & 0x03 == 2 → IRQ register
    for _ in 0..0x6000 {
        mapper.cpu_cycle();
    }
    assert!(
        mapper.irq_pending(),
        "IRQ enable at $F006 (addr & 3 == 2) must work"
    );
}

// ── Reset ─────────────────────────────────────────────────────────────────

#[test]
fn mapper55_reset_returns_to_power_on_state() {
    let mut mapper = make_mapper();
    mapper.write_prg(0xF000, 10); // change PRG bank
    mapper.write_prg(0xF001, 0x08); // change mirroring
    mapper.write_prg(0xF002, 0x02); // enable IRQ
    for _ in 0..0x6000 {
        mapper.cpu_cycle();
    }
    mapper.reset();
    assert_eq!(mapper.read_prg(0x6000), 0, "PRG latch must reset to 0");
    assert!(!mapper.irq_pending(), "IRQ must not be pending after reset");
    assert_eq!(
        mapper.read_prg(0x8000),
        (PRG_BANKS - 4) as u8,
        "$8000 must still be fixed to last-4 bank after reset"
    );
    assert_eq!(
        mapper.get_mirroring(),
        NametableLayout::Vertical,
        "Mirroring must reset to header value (Vertical) after reset"
    );
}

// ── Snapshot / restore ────────────────────────────────────────────────────

#[test]
fn mapper55_registers_snapshot_round_trips() {
    let mut mapper = make_mapper();
    mapper.write_prg(0xF000, 7); // PRG bank 7
    mapper.write_prg(0xF001, 0x08); // horizontal
    mapper.write_prg(0xF002, 0x02); // enable IRQ
    for _ in 0..0x3000 {
        mapper.cpu_cycle(); // advance counter
    }

    let snap = mapper.registers_snapshot();
    let mut restored = make_mapper();
    restored.restore_registers(&snap);

    assert_eq!(
        restored.read_prg(0x6000),
        mapper.read_prg(0x6000),
        "Restored PRG bank must match"
    );
    assert_eq!(
        restored.get_mirroring(),
        mapper.get_mirroring(),
        "Restored mirroring must match"
    );
    assert_eq!(
        restored.irq_pending(),
        mapper.irq_pending(),
        "Restored IRQ pending state must match"
    );
}

// ── CHR-RAM fallback ──────────────────────────────────────────────────────

#[test]
fn chr_ram_works_when_no_chr_rom() {
    let prg = banked_data(8 * 1024, PRG_BANKS);
    let mut mapper = Mapper55::new(MapperContext::new_for_test(
        55,
        prg,
        vec![],
        NametableLayout::Vertical,
    ));
    mapper.write_chr(0x0100, 0xAB);
    assert_eq!(
        mapper.read_chr(0x0100),
        0xAB,
        "CHR-RAM must be writable when no CHR-ROM is present"
    );
}
