//! An 8-bit register cell.

use vstd::prelude::*;

verus! {

/// One 8-bit register of the processor.
#[derive(Debug, Default, Clone, Copy, PartialEq, Eq, PartialOrd, Ord, Structural)]
pub struct Register(pub u8);

impl Register {
    /// The register's value, widened without change.
    pub fn to_u16(self) -> (wide: u16)
        ensures
            wide == self.0,
    {
        self.0 as u16
    }
}

impl From<u16> for Register {
    /// Keeps the low byte.
    fn from(from: u16) -> (register: Register)
    {
        proof {
            crate::bits::lemma_u16_bytes(from);
        }
        Register((from & 0xff) as u8)
    }
}

impl vstd::std_specs::convert::FromSpecImpl<u16> for Register {
    open spec fn obeys_from_spec() -> bool {
        true
    }

    open spec fn from_spec(from: u16) -> Register {
        Register((from % 256) as u8)
    }
}

impl From<u8> for Register {
    fn from(from: u8) -> (register: Register)
    {
        Register(from)
    }
}

impl vstd::std_specs::convert::FromSpecImpl<u8> for Register {
    open spec fn obeys_from_spec() -> bool {
        true
    }

    open spec fn from_spec(from: u8) -> Register {
        Register(from)
    }
}

impl From<Register> for u8 {
    fn from(from: Register) -> (byte: u8)
    {
        from.0
    }
}

impl vstd::std_specs::convert::FromSpecImpl<Register> for u8 {
    open spec fn obeys_from_spec() -> bool {
        true
    }

    open spec fn from_spec(from: Register) -> u8 {
        from.0
    }
}

} // verus!
