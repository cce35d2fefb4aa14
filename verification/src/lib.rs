//! Cycle-level core of a monochrome handheld console emulator.
//!
//! The crate models the SM83 CPU, the memory bus with its bank-switched
//! cartridge mappers, the pixel-processing unit, the programmable timer,
//! the joypad, the serial stub and the audio register file, all advancing
//! in lockstep on a shared T-cycle clock. Every state transition carries a
//! contract that pins the new state down exactly.

pub mod apu;
pub mod bus;
pub mod cart;
pub mod cpu;
pub mod cpu_exec;
pub mod cpu_ops;
pub mod gameboy;
pub mod joypad;
pub mod mbc;
pub mod mbc1;
pub mod mbc2;
pub mod mbc3;
pub mod no_mbc;
pub mod ppu;
pub mod regs;
pub mod render;
pub mod serial;
pub mod timer;
pub mod util;

pub use apu::Apu;
pub use bus::Bus;
pub use cart::Cart;
pub use cpu::Cpu;
pub use gameboy::Gameboy;
pub use gameboy::GbBtn;
pub use joypad::Joypad;
pub use mbc::Cartridge;
pub use mbc::Mbc;
pub use mbc1::Mbc1;
pub use mbc2::Mbc2;
pub use mbc3::Mbc3;
pub use no_mbc::NoMbc;
pub use ppu::Color;
pub use ppu::Ppu;
pub use ppu::PpuState;
pub use regs::RegisterFile;
pub use serial::Serial;
pub use timer::Timer;
