//! The state of the three programmable buttons.

use crate::FromBytes;
use vstd::prelude::*;

verus! {

/// Which of the buttons are held down.
#[derive(Clone, Copy, Debug, PartialEq, Eq, Structural)]
pub struct Buttons {
    pub g1: bool,
    pub g2: bool,
    pub g3: bool,
}

impl FromBytes for Buttons {
    open spec fn needed() -> nat {
        1
    }

    /// One bit per button in the first byte, lowest bit first.
    open spec fn decoded(bytes: Seq<u8>) -> Buttons {
        Buttons {
            g1: bytes[0] & 1u8 != 0u8,
            g2: bytes[0] & 2u8 != 0u8,
            g3: bytes[0] & 4u8 != 0u8,
        }
    }

    fn from_bytes(bytes: &[u8]) -> (out: Buttons) {
        let mask: u8 = bytes[0];
        Buttons { g1: mask & 1u8 != 0u8, g2: mask & 2u8 != 0u8, g3: mask & 4u8 != 0u8 }
    }
}

} // verus!
