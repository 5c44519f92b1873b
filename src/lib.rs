//! Addressing and memory-access core of an 8086-class CPU: the register
//! file, the flags bank, the bus interface unit with its segment:offset
//! address generation, the address bus and the physical memory it drives.

pub mod registers;
pub mod flags;
pub mod memory;
pub mod bus;
pub mod biu;
pub mod eu;
pub mod cpu;
