//! Cycle-accurate timing cores for classic game consoles: the bus and its
//! memory map, cartridge bank-switching mappers, a background pixel
//! pipeline, audio synthesis state machines, and interrupt-line tracking.

pub mod apu;
pub mod bus;
pub mod cartridge;
pub mod config;
pub mod driver;
pub mod fifo;
pub mod frame;
pub mod input;
pub mod mappers;
pub mod num;
pub mod psg;
