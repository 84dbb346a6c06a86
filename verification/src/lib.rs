//! A verified CHIP-8-class virtual machine: a byte-addressable memory with a
//! built-in font table, sixteen 8-bit registers, a call stack, two countdown
//! timers, a monochrome 64x32 framebuffer and a 16-key input device, together
//! with the decoder, dispatcher and per-opcode execution semantics that
//! operate on that state.

pub mod cpu;
pub mod decode;
pub mod laws;
pub mod state;

pub use decode::Instr;
pub use cpu::CPU;
pub use state::Fault;
pub use state::MachineView;
