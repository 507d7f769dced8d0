//! A CHIP-8 virtual machine: memory, registers, framebuffer, timers and the
//! fetch-decode-execute engine, with every operation specified and verified.

pub mod cpu;
pub mod display;
pub mod laws;
pub mod memory;
pub mod model;
pub mod opcode;
pub mod pacing;
pub mod registers;
pub mod shell;
pub mod signal;

pub use cpu::Cpu;
pub use display::Framebuffer;
pub use memory::Memory;
pub use model::Fault;
pub use registers::Registers;
pub use shell::GameShell;
pub use signal::KillSignal;
