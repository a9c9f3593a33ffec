//! Core of a cycle-counting emulator for a classic 8-bit console built
//! around a 6502-family CPU and a scanline-oriented picture processing
//! unit. The crate models the address bus, the CPU with its full
//! addressing-mode and cycle-cost matrix, the PPU scanline state machine,
//! the cartridge header parser and the bank-switching mapper, and proves
//! the bit-exact semantics of each component.

pub mod bits;
pub mod bus;
pub mod cpu;
pub mod emulator;
pub mod i18n;
pub mod instruction;
pub mod memory;
pub mod mirroring;
pub mod palette;
pub mod ppu;
pub mod ppu_registers;
pub mod registers;
pub mod renderer;
pub mod rom;

pub use bus::Bus;
pub use cpu::CPU;
pub use cpu::Flags;
pub use emulator::run_frame;
pub use emulator::wait_ppu;
pub use memory::Memory;
pub use palette::Palette;
pub use registers::Registers;
pub use rom::Rom;
pub use rom::Timing;
