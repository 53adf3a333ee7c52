//! The processor and memory subsystem of a Game Boy Color: register file, memory map,
//! instruction engine, and the host's handle on a background cartridge load.
pub mod registers;
pub mod memory;
pub mod gb;
pub mod file;
