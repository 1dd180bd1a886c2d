pub mod ram;
pub mod interrupts;
pub mod cpu;
pub mod text;
pub mod dasm;
