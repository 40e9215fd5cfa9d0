//! A CHIP-8 virtual machine: memory, a monochrome display and the CPU that
//! executes CHIP-8 bytecode, with the behaviour of each instruction stated in
//! its contract.
pub mod error;
pub mod memory;
pub mod screen;
pub mod cpu;
pub mod instruction;
pub mod emulator;
