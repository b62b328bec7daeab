//! A cycle-accurate core of the 8-bit NTSC NES/Famicom console.
//!
//! The library models the machine as one owning state value: a 6502-style
//! CPU, a memory-management unit that decodes every bus access, a
//! scanline-driven picture unit, a four-channel audio unit, the controller
//! ports, and a master-clock scheduler that apportions cycles between them.
//! Everything here is plain state and arithmetic; reading the cartridge
//! file, the window, and the audio device are the caller's business and sit
//! outside this crate.

pub mod apu;
pub mod apu_envelope;
pub mod apu_frame;
pub mod apu_noise;
pub mod apu_square;
pub mod apu_triangle;
pub mod bits;
pub mod cartridge;
pub mod cpu;
pub mod events;
pub mod io;
pub mod mmu;
pub mod nes;
pub mod pad;
pub mod ppu;
pub mod ringbuffer;
