pub mod cartridge;
pub mod op_codes_parser;
pub mod mmu;
pub mod mbc;
pub mod interrupt;
