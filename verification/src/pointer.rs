//! A 16-bit address cell.

use vstd::prelude::*;

verus! {

/// A 16-bit address: the program counter or the stack pointer.
#[derive(Debug, Clone, Copy, PartialEq, Eq, Structural)]
pub struct Pointer(pub u16);

impl Pointer {
    /// The address `by` places further on, wrapping past the end of the address space.
    pub fn wrapping_add(self, by: u16) -> (moved: Pointer)
        ensures
            moved.0 == (self.0 + by) % 0x10000,
    {
        Pointer(self.0.wrapping_add(by))
    }

    /// The address `by` places back, wrapping past the start of the address space.
    pub fn wrapping_sub(self, by: u16) -> (moved: Pointer)
        ensures
            moved.0 == (self.0 - by) % 0x10000,
    {
        Pointer(self.0.wrapping_sub(by))
    }
}

impl Default for Pointer {
    fn default() -> (pointer: Pointer)
        ensures
            pointer.0 == 0,
    {
        Pointer(0)
    }
}

impl From<u16> for Pointer {
    fn from(from: u16) -> (pointer: Pointer)
    {
        Pointer(from)
    }
}

impl vstd::std_specs::convert::FromSpecImpl<u16> for Pointer {
    open spec fn obeys_from_spec() -> bool {
        true
    }

    open spec fn from_spec(from: u16) -> Pointer {
        Pointer(from)
    }
}

impl From<u8> for Pointer {
    fn from(from: u8) -> (pointer: Pointer)
    {
        Pointer(from as u16)
    }
}

impl vstd::std_specs::convert::FromSpecImpl<u8> for Pointer {
    open spec fn obeys_from_spec() -> bool {
        true
    }

    open spec fn from_spec(from: u8) -> Pointer {
        Pointer(from as u16)
    }
}

impl From<Pointer> for u16 {
    fn from(from: Pointer) -> (address: u16)
    {
        from.0
    }
}

impl vstd::std_specs::convert::FromSpecImpl<Pointer> for u16 {
    open spec fn obeys_from_spec() -> bool {
        true
    }

    open spec fn from_spec(from: Pointer) -> u16 {
        from.0
    }
}

impl From<Pointer> for u8 {
    /// Keeps the low byte.
    fn from(from: Pointer) -> (byte: u8)
    {
        proof {
            crate::bits::lemma_u16_bytes(from.0);
        }
        (from.0 & 0xff) as u8
    }
}

impl vstd::std_specs::convert::FromSpecImpl<Pointer> for u8 {
    open spec fn obeys_from_spec() -> bool {
        true
    }

    open spec fn from_spec(from: Pointer) -> u8 {
        (from.0 % 256) as u8
    }
}

} // verus!
