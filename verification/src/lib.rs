//! Bank-switching logic of unlicensed and multicart NES cartridge boards.
pub mod cartridge;
pub mod bits;
pub mod base_mapper;
pub mod mmc3;
pub mod mmc1;
pub mod cpu_cycle_irq;
pub mod vrc2;
pub mod mappers;
pub mod factory;
