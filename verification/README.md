# nes_mappers

Verified bank-switching logic for unlicensed and multicart NES cartridge
boards (iNES mappers 39, 41, 43, 44, 51, 55, 57, 58, 60, 74 and 289-348),
written in Verus.

## Layout

- `src/cartridge.rs`: mirroring layouts, capabilities, and the context a
  board is built from.
- `src/base_mapper.rs`: the shared bank tables over PRG-ROM, PRG-RAM and CHR
  memory, with their well-formedness and read/write contracts.
- `src/mmc3.rs`, `src/mmc1.rs`, `src/vrc2.rs`, `src/cpu_cycle_irq.rs`: the
  cores that several boards build on.
- `src/mappers/`: one module per board. Each states, as spec functions, what
  every read returns and what every write, CPU cycle, PPU address change,
  reset and snapshot restore does, and proves its code against them.
- `src/factory.rs`: `create_mapper`, which builds a board by mapper number,
  and `AnyMapper`, which dispatches the common operations.
- `tests/`: executable tests, one file per board plus `laws.rs`.

Proof functions named `lemma_*` in the board and core modules state laws
across operations: snapshot round trips, IRQ timing over many cycles, the
MMC1 serial load, CHR-RAM read-back.
