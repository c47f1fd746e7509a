pub mod bytes;
pub mod memory;
pub mod rom;
pub mod address;
pub mod control;
pub mod mask;
pub mod scroll;
pub mod status;
pub mod ppu;
pub mod bus;
pub mod flags;
pub mod opcodes;
pub mod isa;
pub mod cpu;
