pub mod registers;
pub mod opcode;
pub mod bus;
pub mod semantics;
pub mod cpu;
pub mod memory;
pub mod keypad;
pub mod ppu;
pub mod dma;
pub mod machine;
