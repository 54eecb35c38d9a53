//! A cycle-faithful emulator core for the NES's 6502 processor subsystem:
//! the CPU interpreter with its documented illegal opcodes, the CPU-visible
//! bus and address decoder, the NROM cartridge mapper, and the register-side
//! picture-unit model, all specified down to the exact sequence of bus cycles
//! each instruction performs.

pub mod bus;
pub mod cart;
pub mod cpu;
pub mod nes;
pub mod ppu;

pub use bus::Addr;
pub use bus::Bus;
pub use bus::NesBus;
pub use bus::RamBus;
pub use cpu::Cpu;
pub use nes::EventSource;
pub use nes::Nes;
pub use ppu::Color;
pub use ppu::PixelSource;
pub use ppu::Ppu;
pub use ppu::Screen;
