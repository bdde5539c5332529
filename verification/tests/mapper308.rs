#![allow(unused_imports, dead_code, unused_mut, unused_variables)]
use nes_mappers::cartridge::{NametableLayout, MapperContext, MapperCapabilities, banked_data};
use nes_mappers::factory::{create_mapper, AnyMapper, MapperError};
use nes_mappers::mappers::mapper308::{Mapper308, IRQ_SNAPSHOT_BYTES};
/// Non-power-of-two bank counts to prevent false-pass modulo wrapping.
const PRG_BANKS: usize = 11; // 11 × 8 KiB = 88 KiB
const CHR_BANKS: usize = 13; // 13 × 1 KiB = 13 KiB

fn make_mapper() -> Mapper308 {
    let prg = banked_data(8 * 1024, PRG_BANKS);
    let chr = banked_data(1024, CHR_BANKS);
    Mapper308::new(MapperContext::new_for_test(
        308,
        prg,
        chr,
        NametableLayout::Vertical,
    ))
}

// ── Registration ────────────────────────────────────────────────────────

#[test]
fn mapper_308_is_registered_in_factory() {
    let prg = banked_data(8 * 1024, PRG_BANKS);
    let chr = banked_data(1024, CHR_BANKS);
    let result = create_mapper(MapperContext::new_for_test(
        308,
        prg,
        chr,
        NametableLayout::Vertical,
    ));
    assert!(
        result.is_ok(),
        "Mapper 308 must be registered in the factory"
    );
}

// ── PRG banking ─────────────────────────────────────────────────────────

#[test]
fn power_on_prg_8000_maps_to_bank_0() {
    let mapper = make_mapper();
    assert_eq!(
        mapper.read_prg(0x8000),
        0,
        "$8000 must map to PRG bank 0 at power-on"
    );
}

#[test]
fn power_on_prg_e000_maps_to_last_bank() {
    let mapper = make_mapper();
    assert_eq!(
        mapper.read_prg(0xE000),
        (PRG_BANKS - 1) as u8,
        "$E000 must map to the last PRG bank at power-on"
    );
}

#[test]
fn power_on_prg_c000_maps_to_second_to_last_bank() {
    let mapper = make_mapper();
    assert_eq!(
        mapper.read_prg(0xC000),
        (PRG_BANKS - 2) as u8,
        "$C000 must map to the second-to-last PRG bank at power-on"
    );
}

#[test]
fn write_8000_switches_prg_bank_at_8000() {
    let mut mapper = make_mapper();
    mapper.write_prg(0x8000, 3);
    assert_eq!(
        mapper.read_prg(0x8000),
        3,
        "Writing 3 to $8000 must switch the $8000–$9FFF PRG window to bank 3"
    );
}

#[test]
fn write_a000_switches_prg_bank_at_a000() {
    let mut mapper = make_mapper();
    mapper.write_prg(0xA000, 5);
    assert_eq!(
        mapper.read_prg(0xA000),
        5,
        "Writing 5 to $A000 must switch the $A000–$BFFF PRG window to bank 5"
    );
}

#[test]
fn write_8000_does_not_affect_a000_window() {
    let mut mapper = make_mapper();
    mapper.write_prg(0xA000, 2); // set $A000 window to bank 2 first
    mapper.write_prg(0x8000, 3); // change $8000 window to bank 3
    assert_eq!(
        mapper.read_prg(0xA000),
        2,
        "Changing PRG bank 0 must not affect the $A000 window"
    );
}

// ── PRG-RAM ─────────────────────────────────────────────────────────────

#[test]
fn prg_ram_at_6000_is_read_write_accessible() {
    let mut mapper = make_mapper();
    mapper.write_prg(0x6000, 0xAB);
    assert_eq!(
        mapper.read_prg(0x6000),
        0xAB,
        "PRG-RAM at $6000 must be readable after write (VRC2 always-enabled)"
    );
}

// ── CHR banking ─────────────────────────────────────────────────────────

#[test]
fn power_on_chr_0000_maps_to_bank_0() {
    let mut mapper = make_mapper();
    assert_eq!(
        mapper.read_chr(0x0000),
        0,
        "CHR $0000 must map to bank 0 at power-on"
    );
}

#[test]
fn write_b000_b001_sets_chr_bank_0() {
    let mut mapper = make_mapper();
    // Low nibble of bank 5 = 0x05; high nibble = 0x00
    mapper.write_prg(0xB000, 5); // low nibble → bank = 5
    mapper.write_prg(0xB001, 0); // high nibble → unchanged
    assert_eq!(
        mapper.read_chr(0x0000),
        5,
        "CHR bank 0 at $0000 must be bank 5 after $B000/$B001 write"
    );
}

#[test]
fn write_b002_b003_sets_chr_bank_1() {
    let mut mapper = make_mapper();
    mapper.write_prg(0xB002, 7);
    mapper.write_prg(0xB003, 0);
    assert_eq!(
        mapper.read_chr(0x0400),
        7,
        "CHR bank 1 at $0400 must be bank 7 after $B002/$B003 write"
    );
}

#[test]
fn write_e002_e003_sets_chr_bank_7() {
    let mut mapper = make_mapper();
    mapper.write_prg(0xE002, 9); // low nibble, CHR bank 7 slot
    mapper.write_prg(0xE003, 0); // high nibble
    assert_eq!(
        mapper.read_chr(0x1C00),
        9,
        "CHR bank 7 at $1C00 must be bank 9 after $E002/$E003 write"
    );
}

// ── Mirroring ────────────────────────────────────────────────────────────

#[test]
fn mapper308_power_on_mirroring_from_header() {
    let mapper = make_mapper();
    assert_eq!(
        mapper.get_mirroring(),
        NametableLayout::Vertical,
        "Mirroring must be initialised from the cartridge header"
    );
}

#[test]
fn write_9000_bit0_one_sets_horizontal_mirroring() {
    let mut mapper = make_mapper();
    mapper.write_prg(0x9000, 0x01);
    assert_eq!(
        mapper.get_mirroring(),
        NametableLayout::Horizontal,
        "$9000 bit 0 = 1 must select Horizontal mirroring"
    );
}

#[test]
fn write_9000_bit0_zero_sets_vertical_mirroring() {
    let mut mapper = make_mapper();
    mapper.write_prg(0x9000, 0x01); // set to H first
    mapper.write_prg(0x9000, 0x00); // then back to V
    assert_eq!(
        mapper.get_mirroring(),
        NametableLayout::Vertical,
        "$9000 bit 0 = 0 must select Vertical mirroring"
    );
}

// ── Custom IRQ ───────────────────────────────────────────────────────────

#[test]
fn mapper308_irq_not_pending_at_power_on() {
    let mapper = make_mapper();
    assert!(!mapper.irq_pending(), "IRQ must not be pending at power-on");
}

#[test]
fn irq_does_not_fire_when_disabled() {
    let mut mapper = make_mapper();
    // Set high counter = 0 (IRQ would fire immediately if enabled)
    mapper.write_prg(0xF003, 0x00);
    // Do NOT enable via $F001
    for _ in 0..100 {
        mapper.cpu_cycle();
    }
    assert!(
        !mapper.irq_pending(),
        "IRQ must not fire when counting is disabled"
    );
}

#[test]
fn f003_write_loads_high_counter_from_bits_7_to_4() {
    // Verify that writing 0xA0 to $F003 loads high counter = 0xA (= 10).
    // We verify indirectly: with high=10, IRQ should NOT fire in 4096 cycles
    // (it would take 10 × 4096 = 40960 cycles for high=10 to reach 0).
    let mut mapper = make_mapper();
    mapper.write_prg(0xF003, 0xA0); // high counter = (0xA0 >> 4) = 10
    mapper.write_prg(0xF001, 0x01); // enable
    // Run 4095 cycles (less than one full low-counter period) → no IRQ
    for _ in 0..4095 {
        mapper.cpu_cycle();
    }
    assert!(
        !mapper.irq_pending(),
        "IRQ must not fire within one low-counter period when high=10"
    );
}

#[test]
fn irq_fires_after_4096_cycles_with_high_counter_one() {
    // With high_counter=1:
    //   - After 2048 cycles, bit 11 transitions 0→1 → decrement high to 0.
    //   - After another 2048 cycles (total 4096), counter wraps back to 0 (bit11=0),
    //     high=0 → IRQ asserted.
    let mut mapper = make_mapper();
    mapper.write_prg(0xF003, 0x10); // high counter = (0x10 >> 4) = 1
    mapper.write_prg(0xF001, 0x01); // enable counting

    for _ in 0..4095 {
        mapper.cpu_cycle();
    }
    assert!(
        !mapper.irq_pending(),
        "IRQ must not fire before 4096 cycles with high=1"
    );

    mapper.cpu_cycle(); // cycle 4096
    assert!(
        mapper.irq_pending(),
        "IRQ must fire at exactly 4096 cycles with high=1"
    );
}

#[test]
fn f000_write_acknowledges_and_disables_irq() {
    let mut mapper = make_mapper();
    mapper.write_prg(0xF003, 0x10); // high = 1
    mapper.write_prg(0xF001, 0x01); // enable
    for _ in 0..4096 {
        mapper.cpu_cycle();
    }
    assert!(mapper.irq_pending(), "IRQ must be asserted before ack");

    // Acknowledge: clear IRQ, disable counting, reset low counter.
    mapper.write_prg(0xF000, 0x00);
    assert!(
        !mapper.irq_pending(),
        "$F000 write must clear IRQ assertion"
    );

    // Counting must also be disabled after ack (no new IRQ without re-enable).
    for _ in 0..4096 {
        mapper.cpu_cycle();
    }
    assert!(
        !mapper.irq_pending(),
        "IRQ must remain clear after ack (counting disabled)"
    );
}

#[test]
fn f000_write_resets_low_counter() {
    // After ack, low counter resets to 0 so the next cycle with high=1 takes 4096 more cycles.
    let mut mapper = make_mapper();
    mapper.write_prg(0xF003, 0x10); // high = 1
    mapper.write_prg(0xF001, 0x01); // enable
    // Run 2000 cycles to advance low counter partially.
    for _ in 0..2000 {
        mapper.cpu_cycle();
    }
    mapper.write_prg(0xF000, 0x00); // ack (resets low counter)
    mapper.write_prg(0xF003, 0x10); // reload high = 1
    mapper.write_prg(0xF001, 0x01); // re-enable
    // Must require a full 4096 cycles again (not 4096 - 2000).
    for _ in 0..4095 {
        mapper.cpu_cycle();
    }
    assert!(
        !mapper.irq_pending(),
        "After ack, low counter must reset so timing starts fresh"
    );
    mapper.cpu_cycle(); // cycle 4096
    assert!(
        mapper.irq_pending(),
        "IRQ must fire after full 4096 cycles following ack/re-enable"
    );
}

// ── Snapshot / restore ───────────────────────────────────────────────────

#[test]
fn registers_snapshot_captures_prg_bank_state() {
    let mut mapper = make_mapper();
    mapper.write_prg(0x8000, 4);
    let snap = mapper.registers_snapshot();

    let mut restored = make_mapper();
    restored.restore_registers(&snap);
    assert_eq!(
        restored.read_prg(0x8000),
        4,
        "Snapshot must preserve PRG bank 0 register"
    );
}

#[test]
fn registers_snapshot_captures_irq_state() {
    let mut mapper = make_mapper();
    // Advance to a partially-counted state.
    mapper.write_prg(0xF003, 0x20); // high = 2
    mapper.write_prg(0xF001, 0x01); // enable
    for _ in 0..3000 {
        mapper.cpu_cycle();
    }
    let snap = mapper.registers_snapshot();

    let mut restored = make_mapper();
    restored.restore_registers(&snap);

    // After restore, IRQ state should match original at cycle 3000.
    // Exactly 1096 more cycles needed to reach the first bit-11 transition.
    // Running 1096 more: total = 4096 → but high was 2, not 1.
    // At cycle 2048: high goes 2→1. At 4096: high goes 1→0, then at 4096 counters wraps,
    // actually IRQ would fire at cycle 4096 only when high=0 at that moment.
    // Simpler: just verify the restored mapper behaves identically.
    assert_eq!(
        mapper.irq_pending(),
        restored.irq_pending(),
        "Restored mapper must have same IRQ pending state"
    );
    // Run a few more ticks and compare.
    for _ in 0..100 {
        mapper.cpu_cycle();
        restored.cpu_cycle();
    }
    assert_eq!(
        mapper.irq_pending(),
        restored.irq_pending(),
        "Restored mapper IRQ behavior must match original after additional ticks"
    );
}

#[test]
fn reset_clears_irq_state() {
    let mut mapper = make_mapper();
    mapper.write_prg(0xF003, 0x10); // high = 1
    mapper.write_prg(0xF001, 0x01); // enable
    for _ in 0..4096 {
        mapper.cpu_cycle();
    }
    assert!(mapper.irq_pending(), "IRQ must be asserted before reset");
    mapper.reset();
    assert!(!mapper.irq_pending(), "IRQ must clear after reset");
}

#[test]
fn reset_disables_irq_counting() {
    let mut mapper = make_mapper();
    mapper.write_prg(0xF003, 0x10); // high = 1
    mapper.write_prg(0xF001, 0x01); // enable
    mapper.reset();
    // After reset, counting must be disabled: run 4096 cycles and expect no IRQ.
    for _ in 0..4096 {
        mapper.cpu_cycle();
    }
    assert!(
        !mapper.irq_pending(),
        "IRQ must not fire after reset (counting disabled)"
    );
}

// ── VRC2b pin mapping for $F000 writes ──────────────────────────────────

#[test]
fn f002_write_is_decoded_as_irq_enable() {
    // For VRC2b pin wiring (A0→chipA0, A1→chipA1), address $F002 has A1=1, A0=0.
    // $F002 & 0xF003 = 0xF002, which is not a handled register, so it is a no-op.
    // Verify that $F001 (bit 0 set) enables IRQ and $F002 does not.
    let mut mapper = make_mapper();
    mapper.write_prg(0xF003, 0x10); // high = 1
    mapper.write_prg(0xF002, 0x01); // NOT an enable (addr & 0xF003 = 0xF002)
    for _ in 0..4096 {
        mapper.cpu_cycle();
    }
    assert!(
        !mapper.irq_pending(),
        "$F002 must not enable IRQ counting (not a defined register)"
    );
}

#[test]
fn f001_aliased_addresses_also_enable_irq() {
    // For VRC2b: A0→chipA0, A1→chipA1. Address $F001 has A0=1, A1=0 → chip pos 1.
    // Any address with (addr & 0xF003) == 0xF001 should also enable IRQ.
    // e.g. $F005, $F009, $F00D … (all have A0=1, A1=0 in the $F000 block).
    let mut mapper = make_mapper();
    mapper.write_prg(0xF003, 0x10); // high = 1
    mapper.write_prg(0xF101, 0x01); // $F101 → $F101 & 0xF003 = $F001 → enable
    for _ in 0..4096 {
        mapper.cpu_cycle();
    }
    assert!(
        mapper.irq_pending(),
        "$F101 (alias of $F001 via pin masking) must enable IRQ"
    );
}

#[test]
fn snapshot_length_is_correct() {
    let mapper = make_mapper();
    // Layout: IRQ_SNAPSHOT_BYTES (4) first, then the full VRC2b inner snapshot (27 bytes).
    assert_eq!(
        mapper.registers_snapshot().len(),
        IRQ_SNAPSHOT_BYTES + 27,
        "Snapshot must be exactly {} bytes",
        IRQ_SNAPSHOT_BYTES + 27
    );
}
