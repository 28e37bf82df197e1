//! Cycle-counting core of a 6502-class processor emulator.

pub mod cpu;
pub mod instruction;
pub mod machine;
pub mod memory;
pub mod processor_status;
pub mod registers;
pub mod theorems;
