//! CPU cores and the helpers they share.

pub mod disasm;
pub mod flags;
pub mod i8035;
pub mod i8088;
pub mod m6502;
