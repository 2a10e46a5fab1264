//! Core of a Game Boy (DMG/CGB-class) emulator: the LR35902-compatible CPU,
//! the memory-management unit that multiplexes all addressable devices, and
//! the co-stepped peripherals it drives (pixel processing unit, DMA engine,
//! programmable timer) together with the cartridge bank controllers.
//!
//! The host (windowing, file loading) lives outside this crate; the library
//! works on plain byte images and exposes the synchronous execution engine.

pub mod cartridge;
pub mod console;
pub mod cpu;
pub mod mem;
pub mod dma;
pub mod mmu;
pub mod ops;
pub mod ppu;
pub mod timer;
