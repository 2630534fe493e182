//! The emulator: memory bus, register file, debug sink and CPU core.

pub mod addressing_mode;
pub mod cpu;
pub mod debugger;
pub mod laws;
pub mod machine;
pub mod memory;
pub mod registers;
