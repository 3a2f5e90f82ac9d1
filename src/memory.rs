//! The memory interconnect and the widths of memory accesses.
use vstd::prelude::*;
use crate::bios::Bios;

verus! {

/// The system bus: BIOS image, RAM configuration and memory control registers.
pub struct Interconnect {
    bios: Bios,
    ram_size: u32,
    mem_control: [u32; 9],
}

/// The width of a memory access.
pub trait Addressable {
    /// The access width in bytes.
    spec fn spec_size() -> nat;

    fn size() -> (r: u8)
        ensures
            r == Self::spec_size(),
            1 <= r <= 4,
    ;
}

pub struct Byte;

impl Addressable for Byte {
    open spec fn spec_size() -> nat {
        1
    }

    fn size() -> (r: u8) {
        1
    }
}

pub struct HalfWord;

impl Addressable for HalfWord {
    open spec fn spec_size() -> nat {
        2
    }

    fn size() -> (r: u8) {
        2
    }
}

pub struct Word;

impl Addressable for Word {
    open spec fn spec_size() -> nat {
        4
    }

    fn size() -> (r: u8) {
        4
    }
}

} // verus!
