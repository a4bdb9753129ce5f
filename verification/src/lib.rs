//! An NES emulator core: a cycle-synchronized 6502 CPU, pixel-pipeline PPU,
//! and APU co-simulated under a single master clock, together with the
//! cartridge mappers, buses, and controller logic that connect them.

pub mod apu;
pub mod bits;
pub mod cart;
pub mod cpu;
pub mod chnl;
pub mod common;
pub mod header;
pub mod joy;
pub mod mapper;
pub mod mem;
pub mod nes;
pub mod ppu;
pub mod ppu_bus;
pub mod sprite;

pub use cart::Cartridge;
pub use joy::{Button, Controller};
pub use nes::Nes;
pub use ppu::{DISPLAY_HEIGHT, DISPLAY_WIDTH};
