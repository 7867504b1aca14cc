pub mod cpu;
pub mod input;
pub mod mbc;
pub mod mem;
pub mod ops;
pub mod ops_impl;
pub mod ppu;
pub mod reg;
pub mod sprite;
pub mod timer;
