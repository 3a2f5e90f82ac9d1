//! A fixed-point geometry coprocessor (transform, lighting and depth cueing)
//! with its register interface, and the small pieces of the surrounding console
//! core: system control coprocessor, interrupt state, instruction fields and BIOS image.
pub mod saturate;
pub mod command;
pub mod divider;
pub mod gte_model;
pub mod gte;
pub mod interrupt;
pub mod cop0;
pub mod cdrom;
pub mod memory;
pub mod bios;
pub mod cpu;
pub mod registers;
