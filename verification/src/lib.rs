//! Retro CPU emulator framework: cycle-stepped CPU cores, a paged memory map,
//! a fractional clock divider and an audio resampler, each with its behavior
//! stated as a contract and proved.

pub mod audio;
pub mod bus;
pub mod clock;
pub mod component;
pub mod cpu;
pub mod debug;
pub mod machine;
pub mod memory_map;
