#![allow(unused_imports, dead_code, unused_mut, unused_variables)]
use nes_mappers::cartridge::{NametableLayout, MapperContext, MapperCapabilities, banked_data};
use nes_mappers::factory::{AnyMapper, MapperError};
use nes_mappers::mappers::mapper296::{Mapper296};
const PRG_8KB_BANKS: usize = 32; // 256 KiB PRG-ROM
const CHR_1KB_BANKS: usize = 64; // 64 KiB CHR-ROM (for CNROM needs 8KB multiples)

/// Build a PRG-ROM where each 8 KiB bank is filled with its bank index (mod 256).
fn make_prg_rom(banks: usize) -> Vec<u8> {
    let mut prg = vec![0u8; banks * 0x2000];
    for bank in 0..banks {
        let start = bank * 0x2000;
        for b in prg[start..start + 0x2000].iter_mut() {
            *b = (bank & 0xFF) as u8;
        }
    }
    prg
}

/// Build a CHR-ROM where each 1 KiB bank is filled with its bank index (mod 256).
fn make_chr_rom(banks_1kb: usize) -> Vec<u8> {
    let mut chr = vec![0u8; banks_1kb * 0x0400];
    for bank in 0..banks_1kb {
        let start = bank * 0x0400;
        for b in chr[start..start + 0x0400].iter_mut() {
            *b = (bank & 0xFF) as u8;
        }
    }
    chr
}

fn create_mapper() -> Mapper296 {
    Mapper296::new(
        MapperContext::new_for_test(
            296,
            make_prg_rom(PRG_8KB_BANKS),
            make_chr_rom(CHR_1KB_BANKS),
            NametableLayout::Horizontal,
        )
        .with_prg_ram_banks(0),
    )
}

// ── Mapper number ────────────────────────────────────────────────────────

#[test]
fn test_mapper_number_is_296() {
    assert_eq!(create_mapper().mapper_number(), 296);
}

// ── Config register $411D ────────────────────────────────────────────────

#[test]
fn test_config_reg_sets_mode_bits() {
    let mut m = create_mapper();
    m.write_prg(0x411D, 0x03); // mode = CNROM
    assert_eq!(m.mapper_mode(), 3);
    m.write_prg(0x411D, 0x00); // mode = MMC3
    assert_eq!(m.mapper_mode(), 0);
}

#[test]
fn test_config_reg_sets_chr_ram_bit() {
    let mut m = create_mapper();
    assert!(!m.chr_ram_enabled());
    m.write_prg(0x411D, 0x04);
    assert!(m.chr_ram_enabled());
    m.write_prg(0x411D, 0x00);
    assert!(!m.chr_ram_enabled());
}

#[test]
fn test_config_reg_masks_upper_bits() {
    let mut m = create_mapper();
    m.write_prg(0x411D, 0xFF);
    assert_eq!(m.config_reg, 0x07, "only bits 2:0 are stored");
}

// ── Outer bank registers ─────────────────────────────────────────────────

#[test]
fn test_outer_reg_412c_written_and_stored() {
    let mut m = create_mapper();
    m.write_prg(0x412C, 0x0A);
    assert_eq!(m.outer_reg, 0x0A);
}

#[test]
fn test_outer_reg2_412e_written_and_stored() {
    let mut m = create_mapper();
    m.write_prg(0x412E, 0x01);
    assert_eq!(m.outer_reg2, 0x01);
}

#[test]
fn test_outer_regs_masked_to_valid_bits() {
    let mut m = create_mapper();
    m.write_prg(0x412C, 0xFF);
    assert_eq!(m.outer_reg, 0x0F, "$412C: only bits 3:0 stored");
    m.write_prg(0x412E, 0xFF);
    assert_eq!(m.outer_reg2, 0x01, "$412E: only bit 0 stored");
}

#[test]
fn test_prg_8kb_outer_offset_a25() {
    let mut m = create_mapper();
    m.write_prg(0x412C, 0x01); // PRG A25
    assert_eq!(m.prg_8kb_outer_offset(), 1 << 12);
}

#[test]
fn test_prg_8kb_outer_offset_a26() {
    let mut m = create_mapper();
    m.write_prg(0x412C, 0x04); // PRG A26
    assert_eq!(m.prg_8kb_outer_offset(), 1 << 13);
}

#[test]
fn test_prg_8kb_outer_offset_a27() {
    let mut m = create_mapper();
    m.write_prg(0x412E, 0x01); // A27
    assert_eq!(m.prg_8kb_outer_offset(), 1 << 14);
}

#[test]
fn test_chr_1kb_outer_offset_a25() {
    let mut m = create_mapper();
    m.write_prg(0x412C, 0x02); // CHR A25
    assert_eq!(m.chr_1kb_outer_offset(), 1 << 15);
}

// ── Mode 0: MMC3 ────────────────────────────────────────────────────────

#[test]
fn test_mmc3_mode_prg_bank_selection_r6() {
    let mut m = create_mapper();
    // MMC3 bank select: R6 = bank register for $8000 (mode 0)
    m.write_prg(0x8000, 0x06); // select R6
    m.write_prg(0x8001, 5); // R6 = bank 5
    assert_eq!(m.read_prg(0x8000), 5, "MMC3 mode: $8000 reads bank 5");
}

#[test]
fn test_mmc3_mode_prg_outer_bank_extends_bank_number() {
    // Use a larger PRG-ROM to verify outer bank shifting
    // But we don't need many banks; just test offset calculation
    let mut m = create_mapper();
    // Default outer = 0: $8000 bank should be MMC3 bank
    m.write_prg(0x8000, 0x06); // select R6
    m.write_prg(0x8001, 0); // R6 = 0
    let without_outer = m.read_prg(0x8000);
    assert_eq!(without_outer, 0, "bank 0 reads 0");
    // outer A25 = 1: PRG offset = 4096; modulo 32 = 0, so same result for small ROM
    m.write_prg(0x412C, 0x01);
    assert_eq!(
        m.prg_8kb_outer_offset(),
        4096,
        "outer A25 gives 4096 bank offset"
    );
}

#[test]
fn test_mmc3_mode_chr_bank_selection() {
    let mut m = create_mapper();
    // In MMC3 CHR mode 0: R2 is a 1 KiB bank mapped to PPU $1000–$13FF
    m.write_prg(0x8000, 0x02); // select R2
    m.write_prg(0x8001, 7); // R2 = 7 (CHR 1 KiB bank 7)
    let val = m.read_chr(0x1000);
    assert_eq!(val, 7, "MMC3 mode: PPU $1000 → 1KB bank 7 → filled with 7");
}

// ── Mode 2: UNROM ────────────────────────────────────────────────────────

#[test]
fn test_unrom_mode_prg_bank_switch_at_8000() {
    let mut m = create_mapper();
    m.write_prg(0x411D, 0x02); // mode = UNROM
    // Write bank select
    m.write_prg(0x8000, 3); // bank 3 → $8000 = two 8KB banks (6, 7)
    assert_eq!(m.read_prg(0x8000), 6, "$8000 first 8KB → bank 6");
    assert_eq!(m.read_prg(0xA000), 7, "$A000 second 8KB → bank 7");
}

#[test]
fn test_unrom_mode_fixed_last_bank() {
    let mut m = create_mapper();
    m.write_prg(0x411D, 0x02); // mode = UNROM
    m.write_prg(0x8000, 0); // select bank 0
    // Last two 8KB banks = 30, 31 (PRG_8KB_BANKS = 32)
    assert_eq!(m.read_prg(0xC000), 30, "$C000 → second-to-last bank = 30");
    assert_eq!(m.read_prg(0xE000), 31, "$E000 → last bank = 31");
}

#[test]
fn test_unrom_bank_register_masked() {
    let mut m = create_mapper();
    m.write_prg(0x411D, 0x02);
    m.write_prg(0x9000, 0xFF); // write anywhere in $8000-$FFFF
    assert_eq!(m.unrom_bank, 0x0F, "UNROM bank uses bits 3:0 only");
}

// ── Mode 3: CNROM ────────────────────────────────────────────────────────

#[test]
fn test_cnrom_mode_chr_bank_selection() {
    let mut m = create_mapper();
    m.write_prg(0x411D, 0x03); // mode = CNROM
    m.write_prg(0x8000, 2); // CHR bank 2 → PPU $0000 maps to 1KB bank 16
    let val = m.read_chr(0x0000);
    assert_eq!(
        val, 16,
        "CNROM mode: CHR bank 2 → 1KB bank 16 (2*8) → filled with 16"
    );
}

#[test]
fn test_cnrom_mode_prg_fixed_32kb() {
    let mut m = create_mapper();
    m.write_prg(0x411D, 0x03); // mode = CNROM
    // PRG is fixed: all 4 × 8KB slots map to outer_base + slot
    // With outer = 0: slot 0,1,2,3 → banks 0,1,2,3
    assert_eq!(m.read_prg(0x8000), 0, "CNROM $8000 → bank 0");
    assert_eq!(m.read_prg(0xA000), 1, "CNROM $A000 → bank 1");
    assert_eq!(m.read_prg(0xC000), 2, "CNROM $C000 → bank 2");
    assert_eq!(m.read_prg(0xE000), 3, "CNROM $E000 → bank 3");
}

#[test]
fn test_cnrom_bank_register_masked_to_2_bits() {
    let mut m = create_mapper();
    m.write_prg(0x411D, 0x03);
    m.write_prg(0x8000, 0xFF);
    assert_eq!(m.cnrom_bank, 0x03, "CNROM bank uses bits 1:0 only");
}

// ── CHR-RAM mode ─────────────────────────────────────────────────────────

#[test]
fn test_chr_ram_mode_read_write() {
    let mut m = create_mapper();
    m.write_prg(0x411D, 0x04); // CHR-RAM mode
    m.write_chr(0x0050, 0xAB);
    assert_eq!(m.read_chr(0x0050), 0xAB, "CHR-RAM: written byte reads back");
}

#[test]
fn test_chr_ram_mode_does_not_read_chr_rom() {
    let mut m = create_mapper();
    // Without CHR-RAM mode, CHR-ROM bank 0 should be 0 (filled with 0)
    let rom_val = m.read_chr(0x0000);
    assert_eq!(rom_val, 0, "CHR-ROM bank 0 = 0");
    // With CHR-RAM mode, should return CHR-RAM (initially 0, but write something)
    m.write_prg(0x411D, 0x04);
    m.write_chr(0x0000, 0x42);
    assert_eq!(
        m.read_chr(0x0000),
        0x42,
        "CHR-RAM reads back the written byte"
    );
}

#[test]
fn test_chr_ram_wraps_at_8kb() {
    let mut m = create_mapper();
    m.write_prg(0x411D, 0x04);
    m.write_chr(0x1FFF, 0x55);
    assert_eq!(m.read_chr(0x1FFF), 0x55);
}

// ── Mode 1: MMC1 ────────────────────────────────────────────────────────

#[test]
fn test_mmc1_shift_register_loads_after_5_writes() {
    let mut m = create_mapper();
    m.write_prg(0x411D, 0x01); // MMC1 mode
    // Write 5 bits to $E000 (PRG bank register): value = 0b00111 = 7
    for bit in [1u8, 1, 1, 0, 0] {
        m.write_prg(0xE000, bit);
    }
    assert_eq!(m.mmc1_prg, 0x07, "MMC1: shift register loaded correctly");
}

#[test]
fn test_mmc1_reset_via_bit7() {
    let mut m = create_mapper();
    m.write_prg(0x411D, 0x01);
    m.write_prg(0xE000, 0x01); // start shifting
    m.write_prg(0xE000, 0x01);
    assert_eq!(m.mmc1_count, 2);
    m.write_prg(0xE000, 0x80); // bit 7 = reset
    assert_eq!(m.mmc1_count, 0, "MMC1 reset clears shift register");
    assert_eq!(m.mmc1_shift, 0);
}

#[test]
fn test_mmc1_control_register_set() {
    let mut m = create_mapper();
    m.write_prg(0x411D, 0x01);
    // Write 0b00011 = 3 to $8000 (control)
    for bit in [1u8, 1, 0, 0, 0] {
        m.write_prg(0x8000, bit);
    }
    assert_eq!(m.mmc1_control, 0x03);
}

#[test]
fn test_mmc1_prg_mode3_fixed_last_bank() {
    let mut m = create_mapper();
    m.write_prg(0x411D, 0x01);
    // MMC1 control: default = 0x0C (mode 3: fix $C000, switch $8000)
    // Set PRG bank = 0 → $8000 should read banks 0 and 1
    // $C000 should read last 16KB = banks 30 and 31
    assert_eq!(m.read_prg(0xC000), 30, "MMC1 mode3: $C000 → bank 30");
    assert_eq!(m.read_prg(0xE000), 31, "MMC1 mode3: $E000 → bank 31");
}

// ── Snapshot / restore ───────────────────────────────────────────────────

#[test]
fn mapper296_test_registers_snapshot_roundtrip() {
    let mut m = create_mapper();
    m.write_prg(0x411D, 0x06); // mode 2 + CHR-RAM
    m.write_prg(0x412C, 0x05);
    m.write_prg(0x412E, 0x01);
    m.write_prg(0x411D, 0x02); // UNROM mode
    m.write_prg(0x8000, 0x0B); // unrom_bank = 11
    let snap = m.registers_snapshot();
    // Corrupt state
    m.config_reg = 0;
    m.outer_reg = 0;
    m.outer_reg2 = 0;
    m.unrom_bank = 0;
    // Restore
    m.restore_registers(&snap);
    assert_eq!(m.config_reg, 0x02);
    assert_eq!(m.outer_reg, 0x05);
    assert_eq!(m.outer_reg2, 0x01);
    assert_eq!(m.unrom_bank, 0x0B);
}

#[test]
fn test_chr_ram_snapshot_roundtrip() {
    let mut m = create_mapper();
    m.write_prg(0x411D, 0x04); // CHR-RAM mode
    m.write_chr(0x0100, 0xDE);
    m.write_chr(0x0200, 0xAD);
    let snap = m.chr_ram_snapshot();
    m.chr_ram.fill(0);
    m.restore_chr_ram(&snap);
    assert_eq!(m.read_chr(0x0100), 0xDE);
    assert_eq!(m.read_chr(0x0200), 0xAD);
}

// ── Reset ────────────────────────────────────────────────────────────────

#[test]
fn test_reset_clears_all_registers() {
    let mut m = create_mapper();
    m.write_prg(0x411D, 0x07);
    m.write_prg(0x412C, 0x0F);
    m.write_prg(0x412E, 0x01);
    m.write_prg(0x411D, 0x02);
    m.write_prg(0x8000, 0x0A); // unrom_bank = 10
    m.reset();
    assert_eq!(m.config_reg, 0);
    assert_eq!(m.outer_reg, 0);
    assert_eq!(m.outer_reg2, 0);
    assert_eq!(m.unrom_bank, 0);
    assert_eq!(m.cnrom_bank, 0);
    assert_eq!(m.mmc1_control, 0x0C, "MMC1 control resets to 0x0C");
}

// ── CHR outer offset – A26, A27 ──────────────────────────────────────────

#[test]
fn test_chr_1kb_outer_offset_a26() {
    let mut m = create_mapper();
    m.write_prg(0x412C, 0x08); // CHR A26
    assert_eq!(m.chr_1kb_outer_offset(), 1 << 16);
}

#[test]
fn test_chr_1kb_outer_offset_a27() {
    let mut m = create_mapper();
    m.write_prg(0x412E, 0x01); // A27
    assert_eq!(m.chr_1kb_outer_offset(), 1 << 17);
}

// ── Mode 1: MMC1 CHR banking ─────────────────────────────────────────────

#[test]
fn test_mmc1_chr_8kb_mode_bank0_selects_8kb_block() {
    // MMC1 default control bit4=0 → 8 KiB CHR mode.
    // In 8 KiB mode chr0 is a 4 KiB bank index; bit 0 is ignored (aligned to even bank).
    // chr0=2 → 4 KiB bank 2 (bit0 already 0) → 1 KiB banks 8..15.
    // PPU $0000 → 1 KiB bank 8, filled with 8.
    let mut m = create_mapper();
    m.write_prg(0x411D, 0x01); // MMC1 mode
    // Write chr0=2 to $A000 (5 bits: 0b00010)
    for bit in [0u8, 1, 0, 0, 0] {
        m.write_prg(0xA000, bit);
    }
    let val = m.read_chr(0x0000);
    assert_eq!(val, 8, "MMC1 8KB CHR: chr0=2 → 1KB bank 8 → value 8");

    // chr0=3 (bit 0 set) must map to the same 8 KiB block as chr0=2.
    let mut m2 = create_mapper();
    m2.write_prg(0x411D, 0x01);
    for bit in [1u8, 1, 0, 0, 0] {
        m2.write_prg(0xA000, bit);
    }
    assert_eq!(
        m2.read_chr(0x0000),
        8,
        "MMC1 8KB CHR: chr0=3 (bit0 ignored) → same 1KB bank 8"
    );
}

#[test]
fn test_mmc1_chr_4kb_mode_banks_at_0000_and_1000() {
    // Set CHR mode to 4 KiB (bit 4 of control = 1).
    // Write control = 0b10000 (bit4=1) to $8000.
    let mut m = create_mapper();
    m.write_prg(0x411D, 0x01); // MMC1 mode
    // Set mmc1_control bit 4 via 5-bit write to $8000 → value 0b10000 = 16
    for bit in [0u8, 0, 0, 0, 1] {
        m.write_prg(0x8000, bit);
    }
    // chr0 = 2 (4KB bank at $0000)
    for bit in [0u8, 1, 0, 0, 0] {
        m.write_prg(0xA000, bit);
    }
    // chr1 = 3 (4KB bank at $1000)
    for bit in [1u8, 1, 0, 0, 0] {
        m.write_prg(0xC000, bit);
    }
    // $0000: 4KB bank 2 → 1KB banks 8..11; PPU $0000 → 1KB bank 8, filled with 8
    assert_eq!(
        m.read_chr(0x0000),
        8,
        "4KB CHR: bank 2 at $0000 → 1KB bank 8"
    );
    // $1000: 4KB bank 3 → 1KB banks 12..15; PPU $1000 → 1KB bank 12, filled with 12
    assert_eq!(
        m.read_chr(0x1000),
        12,
        "4KB CHR: bank 3 at $1000 → 1KB bank 12"
    );
}

// ── Mode 1: MMC1 mirroring ───────────────────────────────────────────────

#[test]
fn test_mmc1_mirroring_single_screen_lower() {
    let mut m = create_mapper();
    m.write_prg(0x411D, 0x01);
    // Control bits 1:0 = 0 → SingleScreenLower
    for bit in [0u8, 0, 0, 0, 0] {
        m.write_prg(0x8000, bit);
    }
    assert_eq!(m.mmc1_mirroring(), NametableLayout::SingleScreenLower);
}

#[test]
fn test_mmc1_mirroring_single_screen_upper() {
    let mut m = create_mapper();
    m.write_prg(0x411D, 0x01);
    // Control bits 1:0 = 1 → SingleScreenUpper
    for bit in [1u8, 0, 0, 0, 0] {
        m.write_prg(0x8000, bit);
    }
    assert_eq!(m.mmc1_mirroring(), NametableLayout::SingleScreenUpper);
}

#[test]
fn test_mmc1_mirroring_vertical() {
    let mut m = create_mapper();
    m.write_prg(0x411D, 0x01);
    // Control bits 1:0 = 2 → Vertical
    for bit in [0u8, 1, 0, 0, 0] {
        m.write_prg(0x8000, bit);
    }
    assert_eq!(m.mmc1_mirroring(), NametableLayout::Vertical);
}

#[test]
fn test_mmc1_mirroring_horizontal() {
    let mut m = create_mapper();
    m.write_prg(0x411D, 0x01);
    // Control bits 1:0 = 3 → Horizontal
    for bit in [1u8, 1, 0, 0, 0] {
        m.write_prg(0x8000, bit);
    }
    assert_eq!(m.mmc1_mirroring(), NametableLayout::Horizontal);
}

// ── Mode 2: UNROM CHR passthrough ────────────────────────────────────────

#[test]
fn test_unrom_chr_reads_from_chr_rom_bank0() {
    let mut m = create_mapper();
    m.write_prg(0x411D, 0x02); // UNROM mode
    // PPU $0000 → 1KB bank 0, filled with 0
    let val = m.read_chr(0x0000);
    assert_eq!(val, 0, "UNROM CHR: PPU $0000 → bank 0 → 0");
    // PPU $1C00 → 1KB bank 7 (offset 0x1C00 >> 10 = 7), filled with 7
    let val = m.read_chr(0x1C00);
    assert_eq!(val, 7, "UNROM CHR: PPU $1C00 → 1KB bank 7 → 7");
}

// ── WRAM helpers ─────────────────────────────────────────────────────────

#[test]
fn test_wram_size_is_zero() {
    assert_eq!(create_mapper().wram_size(), 0);
}

#[test]
fn test_wram_snapshot_is_empty() {
    assert!(create_mapper().wram_snapshot().is_empty());
}

#[test]
fn test_load_wram_snapshot_is_noop() {
    let mut m = create_mapper();
    m.load_wram_snapshot(&[0xAB; 1024]); // should not panic or change state
    assert_eq!(m.wram_size(), 0);
}

// ── Capabilities ─────────────────────────────────────────────────────────

#[test]
fn test_capabilities_mmc3_mode_has_irq() {
    let mut m = create_mapper();
    m.write_prg(0x411D, 0x00); // MMC3 mode
    assert!(m.capabilities().has_irq);
}

#[test]
fn test_capabilities_non_mmc3_mode_no_irq() {
    let mut m = create_mapper();
    m.write_prg(0x411D, 0x02); // UNROM mode
    assert!(!m.capabilities().has_irq);
}

#[test]
fn test_capabilities_has_chr_banking_and_dynamic_mirroring() {
    let m = create_mapper();
    let caps = m.capabilities();
    assert!(caps.has_chr_banking);
    assert!(caps.has_dynamic_mirroring);
    assert_eq!(caps.prg_bank_size_kb, 8);
    assert_eq!(caps.chr_bank_size_kb, 1);
}
