use nes_mappers::cartridge::{banked_data, MapperContext, NametableLayout};
use nes_mappers::factory::{create_mapper, AnyMapper, MapperError};
use nes_mappers::mappers::mapper290::Mapper290;
use nes_mappers::mappers::mapper291::Mapper291;
use nes_mappers::mappers::mapper294::Mapper294;
use nes_mappers::mappers::mapper297::Mapper297;
use nes_mappers::mappers::mapper302::Mapper302;
use nes_mappers::mappers::mapper303::Mapper303;
use nes_mappers::mappers::mapper308::Mapper308;

fn ctx(number: u16, prg: Vec<u8>, chr: Vec<u8>) -> MapperContext {
    MapperContext::new_for_test(number, prg, chr, NametableLayout::Vertical)
}

#[test]
fn unsupported_mapper_number_is_an_error() {
    let r = create_mapper(ctx(4, banked_data(8 * 1024, 4), banked_data(1024, 8)));
    assert!(matches!(r, Err(MapperError::UnsupportedMapper(4))));
}

#[test]
fn alias_343_builds_the_mapper_60_board() {
    let m = create_mapper(ctx(343, banked_data(16 * 1024, 8), banked_data(8 * 1024, 4))).unwrap();
    assert_eq!(m.mapper_number(), 60);
}

/// Clocks the MMC3 counter once: A12 low for three CPU cycles, then high.
fn a12_rising_edge(m: &mut Mapper291) {
    m.ppu_address_changed(0x0FFF);
    for _ in 0..3 {
        m.cpu_cycle();
    }
    m.ppu_address_changed(0x1000);
}

#[test]
fn mmc3_irq_fires_on_latch_plus_one_clocks() {
    let mut m = Mapper291::new(ctx(291, banked_data(8 * 1024, 32), banked_data(1024, 256)));
    m.write_prg(0xC000, 2); // latch = 2
    m.write_prg(0xC001, 0); // reload
    m.write_prg(0xE001, 0); // enable
    a12_rising_edge(&mut m); // reload to 2
    assert!(!m.irq_pending());
    a12_rising_edge(&mut m); // 1
    assert!(!m.irq_pending());
    a12_rising_edge(&mut m); // 0 -> IRQ
    assert!(m.irq_pending());
    m.write_prg(0xE000, 0); // disable and acknowledge
    assert!(!m.irq_pending());
}

#[test]
fn mmc3_a12_edge_without_low_time_is_filtered() {
    let mut m = Mapper291::new(ctx(291, banked_data(8 * 1024, 32), banked_data(1024, 256)));
    m.write_prg(0xC000, 0);
    m.write_prg(0xC001, 0);
    m.write_prg(0xE001, 0);
    m.ppu_address_changed(0x0FFF);
    m.ppu_address_changed(0x1000); // no CPU cycle while low: not counted
    assert!(!m.irq_pending());
    a12_rising_edge(&mut m); // counted: reload to 0 raises the IRQ
    assert!(m.irq_pending());
}

#[test]
fn mmc3_snapshot_restores_registers() {
    let mut m = Mapper291::new(ctx(291, banked_data(8 * 1024, 32), banked_data(1024, 256)));
    m.write_prg(0x8000, 0x46);
    m.write_prg(0x8001, 9);
    m.write_prg(0xA000, 1);
    m.write_prg(0xC000, 7);
    m.write_prg(0x6000, 0x40);
    let snap = m.registers_snapshot();
    let mut r = Mapper291::new(ctx(291, banked_data(8 * 1024, 32), banked_data(1024, 256)));
    r.restore_registers(&snap);
    assert_eq!(r.registers_snapshot(), snap);
    assert_eq!(r.read_prg(0xC000), m.read_prg(0xC000));
    assert_eq!(r.get_mirroring(), NametableLayout::Horizontal);
}

#[test]
fn mmc1_five_serial_writes_load_prg_register() {
    let mut m = Mapper297::new(ctx(297, banked_data(16 * 1024, 16), banked_data(4 * 1024, 32)));
    m.write_prg(0xE100, 0x01); // MMC1 mode
    for bit in [1u8, 1, 0, 0, 0] {
        m.write_prg(0xE000, bit); // PRG register = 3
    }
    assert_eq!(m.mmc1.regs.prg, 3);
    assert_eq!(m.read_prg(0x8000), 8 + 3);
    assert_eq!(m.read_prg(0xC000), 8 + 15);
}

#[test]
fn mmc1_write_on_the_next_cycle_is_ignored() {
    let mut m = Mapper297::new(ctx(297, banked_data(16 * 1024, 16), banked_data(4 * 1024, 32)));
    m.write_prg(0xE100, 0x01);
    m.write_prg(0xE000, 1);
    m.cpu_cycle();
    m.write_prg(0xE000, 1); // one cycle after the previous write: dropped
    assert_eq!(m.mmc1.regs.count, 1);
    m.cpu_cycle();
    m.cpu_cycle();
    m.write_prg(0xE000, 1);
    assert_eq!(m.mmc1.regs.count, 2);
}

#[test]
fn ks7017_irq_after_loaded_cycles() {
    let mut m = Mapper303::new(ctx(303, banked_data(16 * 1024, 4), vec![]));
    m.write_prg(0x4020, 0x05);
    m.write_prg(0x4021, 0x00);
    for _ in 0..4 {
        m.cpu_cycle();
        assert!(!m.irq_pending());
    }
    m.cpu_cycle();
    assert!(m.irq_pending());
}

#[test]
fn th2131_irq_after_4096_times_high_count() {
    let mut m = Mapper308::new(ctx(308, banked_data(8 * 1024, 11), banked_data(1024, 13)));
    m.write_prg(0xF003, 0x20); // high = 2
    m.write_prg(0xF001, 0);
    for _ in 0..8191 {
        m.cpu_cycle();
    }
    assert!(!m.irq_pending());
    m.cpu_cycle();
    assert!(m.irq_pending());
}

/// Every board brought back from its own snapshot gives the same snapshot
/// and reads the same PRG bytes.
#[test]
fn snapshot_roundtrip_through_the_factory() {
    for number in [39u16, 41, 43, 44, 51, 55, 57, 58, 60, 74, 289, 290, 291, 293, 294, 296, 297, 298, 300, 301,
        302, 303, 304, 305, 306, 308, 309, 312, 319, 320, 321, 326, 327, 328, 329, 330, 334, 336, 340, 342, 344, 348] {
        let make = || create_mapper(ctx(number, banked_data(8 * 1024, 64), banked_data(1024, 256))).unwrap();
        let mut m: AnyMapper = make();
        for (addr, value) in [(0x8000u16, 0x46u8), (0x8001, 3), (0xA000, 1), (0xC000, 5), (0xE003, 2), (0x6000, 0x12)] {
            m.write_prg(addr, value);
        }
        let snap = m.registers_snapshot();
        let mut r = make();
        r.restore_registers(&snap);
        assert_eq!(r.registers_snapshot(), snap, "mapper {number}");
        for addr in [0x8000u16, 0xA000, 0xC000, 0xE000] {
            assert_eq!(r.read_prg(addr), m.read_prg(addr), "mapper {number} at {addr:#06x}");
        }
    }
}

#[test]
fn mapper297_pattern_writes_reach_chr_ram_only() {
    // Without CHR-ROM the board gets CHR-RAM, which keeps what is written.
    let mut ram = Mapper297::new(ctx(297, banked_data(16 * 1024, 16), Vec::new()));
    ram.write_chr(0x0123, 0x5A);
    assert_eq!(ram.read_chr(0x0123), 0x5A);
    // CHR-ROM ignores pattern writes.
    let mut rom = Mapper297::new(ctx(297, banked_data(16 * 1024, 16), banked_data(4 * 1024, 32)));
    let before = rom.read_chr(0x0123);
    rom.write_chr(0x0123, before ^ 0xFF);
    assert_eq!(rom.read_chr(0x0123), before);
}

#[test]
fn mapper290_any_rom_address_is_latched() {
    let mut m = Mapper290::new(ctx(290, banked_data(16 * 1024, 32), banked_data(8 * 1024, 32)));
    m.write_prg(0x8800, 0);
    assert_eq!(m.read_prg(0x8000), 2);
    assert_eq!(m.read_prg(0xC000), 3);
    m.write_prg(0x7FFF, 0); // below ROM: ignored
    assert_eq!(m.read_prg(0x8000), 2);
}

#[test]
fn mapper303_reading_4030_clears_the_irq() {
    let mut m = Mapper303::new(ctx(303, banked_data(16 * 1024, 4), banked_data(8 * 1024, 1)));
    m.write_prg(0x4020, 1);
    m.write_prg(0x4021, 0);
    m.cpu_cycle();
    assert!(m.irq_pending());
    assert_eq!(m.read_prg_open_bus(0x4030, 0xFF) & 0x01, 1);
    assert!(!m.irq_pending());
    assert_eq!(m.read_prg_open_bus(0x4030, 0xFF) & 0x01, 0);
}

#[test]
fn any_mapper_read_acknowledges_board_303() {
    let mut m = create_mapper(ctx(303, banked_data(16 * 1024, 4), banked_data(8 * 1024, 1))).unwrap();
    m.write_prg(0x4020, 1);
    m.write_prg(0x4021, 0);
    m.cpu_cycle();
    assert!(m.irq_pending());
    assert_eq!(m.read_prg_open_bus(0x4030, 0xFF), 1);
    assert!(!m.irq_pending());
}

#[test]
fn mapper294_power_on_mirroring_follows_the_header() {
    let h = Mapper294::new(MapperContext::new_for_test(294, banked_data(16 * 1024, 48), vec![], NametableLayout::Horizontal));
    assert_eq!(h.get_mirroring(), NametableLayout::Horizontal);
    let v = Mapper294::new(ctx(294, banked_data(16 * 1024, 48), vec![]));
    assert_eq!(v.get_mirroring(), NametableLayout::Vertical);
}

#[test]
fn mapper302_powers_on_with_horizontal_mirroring() {
    let m = Mapper302::new(ctx(302, banked_data(2 * 1024, 64), vec![0u8; 8192]));
    assert_eq!(m.get_mirroring(), NametableLayout::Horizontal);
}

#[test]
fn mapper297_mmc1_mode_stays_in_the_upper_half() {
    let mut m = Mapper297::new(ctx(297, banked_data(16 * 1024, 16), banked_data(4 * 1024, 32)));
    m.write_prg(0xE100, 0x01);
    assert_eq!(m.read_prg(0x8000), 8);
    assert_eq!(m.read_prg(0xC000), 15);
    assert_eq!(m.read_chr(0x0000), 16);
}

#[test]
fn mapper304_irq_comes_at_cycle_4096() {
    let mut m = nes_mappers::mappers::mapper304::Mapper304::new(ctx(304, banked_data(4 * 1024, 16), banked_data(8 * 1024, 1)));
    m.write_prg(0x4122, 0x01);
    for _ in 0..4095 {
        m.cpu_cycle();
    }
    assert!(!m.irq_pending());
    m.cpu_cycle();
    assert!(m.irq_pending());
}

#[test]
fn mapper298_irq_after_the_counter_carries_past_255() {
    let mut m = nes_mappers::mappers::mapper298::Mapper298::new(ctx(298, banked_data(8 * 1024, 8), banked_data(1024, 64)));
    m.write_prg(0xF000, 0x0E); // reload low nibble
    m.write_prg(0xF002, 0x0F); // reload high nibble: 0xFE
    m.write_prg(0xF001, 0x02); // enable: counter = 0xFE, scaler = 341
    // Two steps are needed: 3k / 341 >= 2 first holds at k = 228.
    for _ in 0..227 {
        m.cpu_cycle();
    }
    assert!(!m.irq_pending());
    m.cpu_cycle();
    assert!(m.irq_pending());
}

#[test]
fn mapper312_chr_ram_reads_back() {
    let mut m = nes_mappers::mappers::mapper312::Mapper312::new(ctx(312, banked_data(16 * 1024, 8), vec![]));
    m.write_chr(0x1ABC, 0x3C);
    assert_eq!(m.read_chr(0x1ABC), 0x3C);
}

#[test]
fn mapper293_chr_ram_reads_back() {
    let mut m = nes_mappers::mappers::mapper293::Mapper293::new(ctx(293, banked_data(16 * 1024, 64), vec![]));
    m.write_chr(0x1FFF, 0x55);
    assert_eq!(m.read_chr(0x1FFF), 0x55);
}

#[test]
fn create_mapper_builds_the_requested_board() {
    for number in [39u16, 41, 74, 290, 298, 303, 308, 348] {
        let m = create_mapper(ctx(number, banked_data(16 * 1024, 16), banked_data(8 * 1024, 16))).unwrap();
        assert_eq!(m.mapper_number(), number);
    }
}

#[test]
fn mapper51_bad_dump_gets_seeded_chr_ram() {
    use_mapper51_chr(0xA912_B064, 0x5C);
    use_mapper51_chr(0x1234_5678, 0xAA);
}

fn use_mapper51_chr(crc32: u32, expected_after_write: u8) {
    let mut c = ctx(51, banked_data(8 * 1024, 48), vec![0xAA; 8192]);
    c.crc32 = crc32;
    let mut m = nes_mappers::mappers::mapper51::Mapper51::new(c);
    assert_eq!(m.read_chr(0x0010), 0xAA);
    m.write_chr(0x0010, 0x5C);
    assert_eq!(m.read_chr(0x0010), expected_after_write);
    assert_eq!(m.read_prg(0x6000), 35);
    assert_eq!(m.read_prg(0x8000), 0);
    assert_eq!(m.read_prg(0xE000), 3);
}

#[test]
fn mapper290_chr_bank_takes_bits_9_8_as_high_bits() {
    let mut m = Mapper290::new(ctx(290, banked_data(16 * 1024, 32), banked_data(8 * 1024, 32)));
    m.restore_registers(&0x8305u16.to_le_bytes());
    assert_eq!(m.read_chr(0x0000), (3 << 3) | 5);
}

#[test]
fn mapper296_restores_a_long_shift_count() {
    let m = nes_mappers::mappers::mapper296::Mapper296::new(ctx(296, banked_data(8 * 1024, 32), banked_data(1024, 64)));
    let mut snap = m.registers_snapshot();
    let n = snap.len();
    snap[n - 5] = 6; // shift count
    let mut r = nes_mappers::mappers::mapper296::Mapper296::new(ctx(296, banked_data(8 * 1024, 32), banked_data(1024, 64)));
    r.restore_registers(&snap);
    assert_eq!(r.registers_snapshot()[n - 5], 6);
}
