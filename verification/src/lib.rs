//! The core of an 8-bit console: a 6502-family CPU, its memory bus with
//! cartridge-mapped ROM, the timing side of the picture unit, and the
//! coordinator that keeps the two clocks in step.
//!
//! Every component is an ordinary owned value. The console aggregate holds the
//! CPU, the bus memory and the picture unit side by side, and hands them to each
//! other by reference; there is no shared or interior-mutable state.

pub mod alu;
pub mod cart;
pub mod clock;
pub mod cpu;
pub mod cpu_laws;
pub mod flags;
pub mod halt;
pub mod inst;
pub mod machine;
pub mod machine_laws;
pub mod mapper;
pub mod mem;
pub mod nes;
pub mod pattern;
pub mod ppu;
pub mod ppu_laws;
pub mod ppuregs;
