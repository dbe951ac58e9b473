pub mod cartridge;
pub mod cpu;
pub mod cpu_laws;
pub mod mmu;
pub mod registers;
pub mod session;
