//! Disc properties.
use vstd::prelude::*;

verus! {

/// The region a disc or BIOS is meant for.
#[derive(Clone, Copy, Debug, PartialEq, Eq, Structural)]
pub enum Region {
    Japan,
    NorthAmerica,
    Europ,
}

} // verus!
