//! The operators of the two cell types. Sums and differences wrap around, and a
//! shift distance counts modulo the width of the cell.

use vstd::prelude::*;
use core::cmp::Ordering;
use crate::pointer::Pointer;
use crate::register::Register;

verus! {

impl core::ops::Not for Register {
    type Output = Register;

    /// Every bit turned over.
    fn not(self) -> (result: Register)
    {
        Register(!self.0)
    }
}

impl vstd::std_specs::ops::NotSpecImpl for Register {
    open spec fn obeys_not_spec() -> bool {
        true
    }

    open spec fn not_req(self) -> bool {
        true
    }

    open spec fn not_spec(self) -> Register {
        Register(!self.0)
    }
}

impl core::ops::Add for Register {
    type Output = Register;

    /// The sum, wrapped around.
    fn add(self, rhs: Register) -> (result: Register)
    {
        Register(self.0.wrapping_add(rhs.0))
    }
}

impl vstd::std_specs::ops::AddSpecImpl for Register {
    open spec fn obeys_add_spec() -> bool {
        true
    }

    open spec fn add_req(self, rhs: Register) -> bool {
        true
    }

    open spec fn add_spec(self, rhs: Register) -> Register {
        Register(((self.0 + rhs.0) % 256) as u8)
    }
}

impl core::ops::Sub for Register {
    type Output = Register;

    /// The difference, wrapped around.
    fn sub(self, rhs: Register) -> (result: Register)
    {
        Register(self.0.wrapping_sub(rhs.0))
    }
}

impl vstd::std_specs::ops::SubSpecImpl for Register {
    open spec fn obeys_sub_spec() -> bool {
        true
    }

    open spec fn sub_req(self, rhs: Register) -> bool {
        true
    }

    open spec fn sub_spec(self, rhs: Register) -> Register {
        Register(((self.0 - rhs.0) % 256) as u8)
    }
}

impl core::ops::BitAnd for Register {
    type Output = Register;

    /// The bits that both have.
    fn bitand(self, rhs: Register) -> (result: Register)
    {
        Register(self.0 & rhs.0)
    }
}

impl vstd::std_specs::ops::BitAndSpecImpl for Register {
    open spec fn obeys_bitand_spec() -> bool {
        true
    }

    open spec fn bitand_req(self, rhs: Register) -> bool {
        true
    }

    open spec fn bitand_spec(self, rhs: Register) -> Register {
        Register(self.0 & rhs.0)
    }
}

impl core::ops::BitOr for Register {
    type Output = Register;

    /// The bits that either has.
    fn bitor(self, rhs: Register) -> (result: Register)
    {
        Register(self.0 | rhs.0)
    }
}

impl vstd::std_specs::ops::BitOrSpecImpl for Register {
    open spec fn obeys_bitor_spec() -> bool {
        true
    }

    open spec fn bitor_req(self, rhs: Register) -> bool {
        true
    }

    open spec fn bitor_spec(self, rhs: Register) -> Register {
        Register(self.0 | rhs.0)
    }
}

impl core::ops::Shl for Register {
    type Output = Register;

    /// Shifted to the left, the distance taken modulo 8.
    fn shl(self, rhs: Register) -> (result: Register)
    {
        Register(self.0.wrapping_shl(rhs.0 as u32))
    }
}

impl vstd::std_specs::ops::ShlSpecImpl for Register {
    open spec fn obeys_shl_spec() -> bool {
        true
    }

    open spec fn shl_req(self, rhs: Register) -> bool {
        true
    }

    open spec fn shl_spec(self, rhs: Register) -> Register {
        Register(self.0 << ((rhs.0 as u32) % 8))
    }
}

impl core::ops::Shr for Register {
    type Output = Register;

    /// Shifted to the right, the distance taken modulo 8.
    fn shr(self, rhs: Register) -> (result: Register)
    {
        Register(self.0.wrapping_shr(rhs.0 as u32))
    }
}

impl vstd::std_specs::ops::ShrSpecImpl for Register {
    open spec fn obeys_shr_spec() -> bool {
        true
    }

    open spec fn shr_req(self, rhs: Register) -> bool {
        true
    }

    open spec fn shr_spec(self, rhs: Register) -> Register {
        Register(self.0 >> ((rhs.0 as u32) % 8))
    }
}

impl core::ops::Add<u8> for Register {
    type Output = Register;

    /// The sum, wrapped around.
    fn add(self, rhs: u8) -> (result: Register)
    {
        Register(self.0.wrapping_add(rhs))
    }
}

impl vstd::std_specs::ops::AddSpecImpl<u8> for Register {
    open spec fn obeys_add_spec() -> bool {
        true
    }

    open spec fn add_req(self, rhs: u8) -> bool {
        true
    }

    open spec fn add_spec(self, rhs: u8) -> Register {
        Register(((self.0 + rhs) % 256) as u8)
    }
}

impl core::ops::Sub<u8> for Register {
    type Output = Register;

    /// The difference, wrapped around.
    fn sub(self, rhs: u8) -> (result: Register)
    {
        Register(self.0.wrapping_sub(rhs))
    }
}

impl vstd::std_specs::ops::SubSpecImpl<u8> for Register {
    open spec fn obeys_sub_spec() -> bool {
        true
    }

    open spec fn sub_req(self, rhs: u8) -> bool {
        true
    }

    open spec fn sub_spec(self, rhs: u8) -> Register {
        Register(((self.0 - rhs) % 256) as u8)
    }
}

impl core::ops::BitAnd<u8> for Register {
    type Output = Register;

    /// The bits that both have.
    fn bitand(self, rhs: u8) -> (result: Register)
    {
        Register(self.0 & rhs)
    }
}

impl vstd::std_specs::ops::BitAndSpecImpl<u8> for Register {
    open spec fn obeys_bitand_spec() -> bool {
        true
    }

    open spec fn bitand_req(self, rhs: u8) -> bool {
        true
    }

    open spec fn bitand_spec(self, rhs: u8) -> Register {
        Register(self.0 & rhs)
    }
}

impl core::ops::BitOr<u8> for Register {
    type Output = Register;

    /// The bits that either has.
    fn bitor(self, rhs: u8) -> (result: Register)
    {
        Register(self.0 | rhs)
    }
}

impl vstd::std_specs::ops::BitOrSpecImpl<u8> for Register {
    open spec fn obeys_bitor_spec() -> bool {
        true
    }

    open spec fn bitor_req(self, rhs: u8) -> bool {
        true
    }

    open spec fn bitor_spec(self, rhs: u8) -> Register {
        Register(self.0 | rhs)
    }
}

impl core::ops::Shl<u8> for Register {
    type Output = Register;

    /// Shifted to the left, the distance taken modulo 8.
    fn shl(self, rhs: u8) -> (result: Register)
    {
        Register(self.0.wrapping_shl(rhs as u32))
    }
}

impl vstd::std_specs::ops::ShlSpecImpl<u8> for Register {
    open spec fn obeys_shl_spec() -> bool {
        true
    }

    open spec fn shl_req(self, rhs: u8) -> bool {
        true
    }

    open spec fn shl_spec(self, rhs: u8) -> Register {
        Register(self.0 << ((rhs as u32) % 8))
    }
}

impl core::ops::Shr<u8> for Register {
    type Output = Register;

    /// Shifted to the right, the distance taken modulo 8.
    fn shr(self, rhs: u8) -> (result: Register)
    {
        Register(self.0.wrapping_shr(rhs as u32))
    }
}

impl vstd::std_specs::ops::ShrSpecImpl<u8> for Register {
    open spec fn obeys_shr_spec() -> bool {
        true
    }

    open spec fn shr_req(self, rhs: u8) -> bool {
        true
    }

    open spec fn shr_spec(self, rhs: u8) -> Register {
        Register(self.0 >> ((rhs as u32) % 8))
    }
}

impl core::ops::AddAssign<u8> for Register {
    /// Adds, wrapping around.
    fn add_assign(&mut self, rhs: u8)
        ensures
            final(self).0 == (old(self).0 + rhs) % 256,
    {
        self.0 = self.0.wrapping_add(rhs);
    }
}

impl core::ops::SubAssign<u8> for Register {
    /// Subtracts, wrapping around.
    fn sub_assign(&mut self, rhs: u8)
        ensures
            final(self).0 == (old(self).0 - rhs) % 256,
    {
        self.0 = self.0.wrapping_sub(rhs);
    }
}

impl core::ops::ShlAssign<u8> for Register {
    /// Shifts to the left, the distance taken modulo 8.
    fn shl_assign(&mut self, rhs: u8)
        ensures
            final(self).0 == old(self).0 << ((rhs as u32) % 8),
    {
        self.0 = self.0.wrapping_shl(rhs as u32);
    }
}

impl core::ops::ShrAssign<u8> for Register {
    /// Shifts to the right, the distance taken modulo 8.
    fn shr_assign(&mut self, rhs: u8)
        ensures
            final(self).0 == old(self).0 >> ((rhs as u32) % 8),
    {
        self.0 = self.0.wrapping_shr(rhs as u32);
    }
}

impl core::ops::BitAndAssign<u8> for Register {
    /// Keeps the bits that both have.
    fn bitand_assign(&mut self, rhs: u8)
        ensures
            final(self).0 == old(self).0 & rhs,
    {
        self.0 = self.0 & rhs;
    }
}

impl core::ops::BitOrAssign<u8> for Register {
    /// Takes the bits that either has.
    fn bitor_assign(&mut self, rhs: u8)
        ensures
            final(self).0 == old(self).0 | rhs,
    {
        self.0 = self.0 | rhs;
    }
}

impl core::ops::BitXorAssign<u8> for Register {
    /// Turns over the bits that the other has.
    fn bitxor_assign(&mut self, rhs: u8)
        ensures
            final(self).0 == old(self).0 ^ rhs,
    {
        self.0 = self.0 ^ rhs;
    }
}

impl core::ops::AddAssign for Register {
    /// Adds, wrapping around.
    fn add_assign(&mut self, rhs: Register)
        ensures
            final(self).0 == (old(self).0 + rhs.0) % 256,
    {
        self.0 = self.0.wrapping_add(rhs.0);
    }
}

impl core::ops::SubAssign for Register {
    /// Subtracts, wrapping around.
    fn sub_assign(&mut self, rhs: Register)
        ensures
            final(self).0 == (old(self).0 - rhs.0) % 256,
    {
        self.0 = self.0.wrapping_sub(rhs.0);
    }
}

impl core::ops::ShlAssign for Register {
    /// Shifts to the left, the distance taken modulo 8.
    fn shl_assign(&mut self, rhs: Register)
        ensures
            final(self).0 == old(self).0 << ((rhs.0 as u32) % 8),
    {
        self.0 = self.0.wrapping_shl(rhs.0 as u32);
    }
}

impl core::ops::ShrAssign for Register {
    /// Shifts to the right, the distance taken modulo 8.
    fn shr_assign(&mut self, rhs: Register)
        ensures
            final(self).0 == old(self).0 >> ((rhs.0 as u32) % 8),
    {
        self.0 = self.0.wrapping_shr(rhs.0 as u32);
    }
}

impl core::ops::BitAndAssign for Register {
    /// Keeps the bits that both have.
    fn bitand_assign(&mut self, rhs: Register)
        ensures
            final(self).0 == old(self).0 & rhs.0,
    {
        self.0 = self.0 & rhs.0;
    }
}

impl core::ops::BitOrAssign for Register {
    /// Takes the bits that either has.
    fn bitor_assign(&mut self, rhs: Register)
        ensures
            final(self).0 == old(self).0 | rhs.0,
    {
        self.0 = self.0 | rhs.0;
    }
}

impl core::ops::BitXorAssign for Register {
    /// Turns over the bits that the other has.
    fn bitxor_assign(&mut self, rhs: Register)
        ensures
            final(self).0 == old(self).0 ^ rhs.0,
    {
        self.0 = self.0 ^ rhs.0;
    }
}

impl PartialEq<u8> for Register {
    fn eq(&self, rhs: &u8) -> (equal: bool)
    {
        self.0 == *rhs
    }
}

impl vstd::std_specs::cmp::PartialEqSpecImpl<u8> for Register {
    open spec fn obeys_eq_spec() -> bool {
        true
    }

    open spec fn eq_spec(&self, rhs: &u8) -> bool {
        self.0 == *rhs
    }
}

impl PartialOrd<u8> for Register {
    fn partial_cmp(&self, rhs: &u8) -> (order: Option<Ordering>)
    {
        if self.0 < *rhs {
            Some(Ordering::Less)
        } else if self.0 > *rhs {
            Some(Ordering::Greater)
        } else {
            Some(Ordering::Equal)
        }
    }
}

impl vstd::std_specs::cmp::PartialOrdSpecImpl<u8> for Register {
    open spec fn obeys_partial_cmp_spec() -> bool {
        true
    }

    open spec fn partial_cmp_spec(&self, rhs: &u8) -> Option<Ordering> {
        if self.0 < *rhs {
            Some(Ordering::Less)
        } else if self.0 > *rhs {
            Some(Ordering::Greater)
        } else {
            Some(Ordering::Equal)
        }
    }
}

impl core::ops::Deref for Register {
    type Target = u8;

    fn deref(&self) -> (value: &u8)
        ensures
            *value == self.0,
    {
        &self.0
    }
}

impl core::ops::DerefMut for Register {
    fn deref_mut(&mut self) -> (value: &mut u8)
        ensures
            *value == old(self).0,
            final(self).0 == *final(value),
    {
        &mut self.0
    }
}

impl core::ops::Not for Pointer {
    type Output = Pointer;

    /// Every bit turned over.
    fn not(self) -> (result: Pointer)
    {
        Pointer(!self.0)
    }
}

impl vstd::std_specs::ops::NotSpecImpl for Pointer {
    open spec fn obeys_not_spec() -> bool {
        true
    }

    open spec fn not_req(self) -> bool {
        true
    }

    open spec fn not_spec(self) -> Pointer {
        Pointer(!self.0)
    }
}

impl core::ops::Add for Pointer {
    type Output = Pointer;

    /// The sum, wrapped around.
    fn add(self, rhs: Pointer) -> (result: Pointer)
    {
        Pointer(self.0.wrapping_add(rhs.0))
    }
}

impl vstd::std_specs::ops::AddSpecImpl for Pointer {
    open spec fn obeys_add_spec() -> bool {
        true
    }

    open spec fn add_req(self, rhs: Pointer) -> bool {
        true
    }

    open spec fn add_spec(self, rhs: Pointer) -> Pointer {
        Pointer(((self.0 + rhs.0) % 0x10000) as u16)
    }
}

impl core::ops::Sub for Pointer {
    type Output = Pointer;

    /// The difference, wrapped around.
    fn sub(self, rhs: Pointer) -> (result: Pointer)
    {
        Pointer(self.0.wrapping_sub(rhs.0))
    }
}

impl vstd::std_specs::ops::SubSpecImpl for Pointer {
    open spec fn obeys_sub_spec() -> bool {
        true
    }

    open spec fn sub_req(self, rhs: Pointer) -> bool {
        true
    }

    open spec fn sub_spec(self, rhs: Pointer) -> Pointer {
        Pointer(((self.0 - rhs.0) % 0x10000) as u16)
    }
}

impl core::ops::BitAnd for Pointer {
    type Output = Pointer;

    /// The bits that both have.
    fn bitand(self, rhs: Pointer) -> (result: Pointer)
    {
        Pointer(self.0 & rhs.0)
    }
}

impl vstd::std_specs::ops::BitAndSpecImpl for Pointer {
    open spec fn obeys_bitand_spec() -> bool {
        true
    }

    open spec fn bitand_req(self, rhs: Pointer) -> bool {
        true
    }

    open spec fn bitand_spec(self, rhs: Pointer) -> Pointer {
        Pointer(self.0 & rhs.0)
    }
}

impl core::ops::BitOr for Pointer {
    type Output = Pointer;

    /// The bits that either has.
    fn bitor(self, rhs: Pointer) -> (result: Pointer)
    {
        Pointer(self.0 | rhs.0)
    }
}

impl vstd::std_specs::ops::BitOrSpecImpl for Pointer {
    open spec fn obeys_bitor_spec() -> bool {
        true
    }

    open spec fn bitor_req(self, rhs: Pointer) -> bool {
        true
    }

    open spec fn bitor_spec(self, rhs: Pointer) -> Pointer {
        Pointer(self.0 | rhs.0)
    }
}

impl core::ops::Shl for Pointer {
    type Output = Pointer;

    /// Shifted to the left, the distance taken modulo 16.
    fn shl(self, rhs: Pointer) -> (result: Pointer)
    {
        Pointer(self.0.wrapping_shl(rhs.0 as u32))
    }
}

impl vstd::std_specs::ops::ShlSpecImpl for Pointer {
    open spec fn obeys_shl_spec() -> bool {
        true
    }

    open spec fn shl_req(self, rhs: Pointer) -> bool {
        true
    }

    open spec fn shl_spec(self, rhs: Pointer) -> Pointer {
        Pointer(self.0 << ((rhs.0 as u32) % 16))
    }
}

impl core::ops::Shr for Pointer {
    type Output = Pointer;

    /// Shifted to the right, the distance taken modulo 16.
    fn shr(self, rhs: Pointer) -> (result: Pointer)
    {
        Pointer(self.0.wrapping_shr(rhs.0 as u32))
    }
}

impl vstd::std_specs::ops::ShrSpecImpl for Pointer {
    open spec fn obeys_shr_spec() -> bool {
        true
    }

    open spec fn shr_req(self, rhs: Pointer) -> bool {
        true
    }

    open spec fn shr_spec(self, rhs: Pointer) -> Pointer {
        Pointer(self.0 >> ((rhs.0 as u32) % 16))
    }
}

impl core::ops::Add<u16> for Pointer {
    type Output = Pointer;

    /// The sum, wrapped around.
    fn add(self, rhs: u16) -> (result: Pointer)
    {
        Pointer(self.0.wrapping_add(rhs))
    }
}

impl vstd::std_specs::ops::AddSpecImpl<u16> for Pointer {
    open spec fn obeys_add_spec() -> bool {
        true
    }

    open spec fn add_req(self, rhs: u16) -> bool {
        true
    }

    open spec fn add_spec(self, rhs: u16) -> Pointer {
        Pointer(((self.0 + rhs) % 0x10000) as u16)
    }
}

impl core::ops::Sub<u16> for Pointer {
    type Output = Pointer;

    /// The difference, wrapped around.
    fn sub(self, rhs: u16) -> (result: Pointer)
    {
        Pointer(self.0.wrapping_sub(rhs))
    }
}

impl vstd::std_specs::ops::SubSpecImpl<u16> for Pointer {
    open spec fn obeys_sub_spec() -> bool {
        true
    }

    open spec fn sub_req(self, rhs: u16) -> bool {
        true
    }

    open spec fn sub_spec(self, rhs: u16) -> Pointer {
        Pointer(((self.0 - rhs) % 0x10000) as u16)
    }
}

impl core::ops::BitAnd<u16> for Pointer {
    type Output = Pointer;

    /// The bits that both have.
    fn bitand(self, rhs: u16) -> (result: Pointer)
    {
        Pointer(self.0 & rhs)
    }
}

impl vstd::std_specs::ops::BitAndSpecImpl<u16> for Pointer {
    open spec fn obeys_bitand_spec() -> bool {
        true
    }

    open spec fn bitand_req(self, rhs: u16) -> bool {
        true
    }

    open spec fn bitand_spec(self, rhs: u16) -> Pointer {
        Pointer(self.0 & rhs)
    }
}

impl core::ops::BitOr<u16> for Pointer {
    type Output = Pointer;

    /// The bits that either has.
    fn bitor(self, rhs: u16) -> (result: Pointer)
    {
        Pointer(self.0 | rhs)
    }
}

impl vstd::std_specs::ops::BitOrSpecImpl<u16> for Pointer {
    open spec fn obeys_bitor_spec() -> bool {
        true
    }

    open spec fn bitor_req(self, rhs: u16) -> bool {
        true
    }

    open spec fn bitor_spec(self, rhs: u16) -> Pointer {
        Pointer(self.0 | rhs)
    }
}

impl core::ops::Shl<u16> for Pointer {
    type Output = Pointer;

    /// Shifted to the left, the distance taken modulo 16.
    fn shl(self, rhs: u16) -> (result: Pointer)
    {
        Pointer(self.0.wrapping_shl(rhs as u32))
    }
}

impl vstd::std_specs::ops::ShlSpecImpl<u16> for Pointer {
    open spec fn obeys_shl_spec() -> bool {
        true
    }

    open spec fn shl_req(self, rhs: u16) -> bool {
        true
    }

    open spec fn shl_spec(self, rhs: u16) -> Pointer {
        Pointer(self.0 << ((rhs as u32) % 16))
    }
}

impl core::ops::Shr<u16> for Pointer {
    type Output = Pointer;

    /// Shifted to the right, the distance taken modulo 16.
    fn shr(self, rhs: u16) -> (result: Pointer)
    {
        Pointer(self.0.wrapping_shr(rhs as u32))
    }
}

impl vstd::std_specs::ops::ShrSpecImpl<u16> for Pointer {
    open spec fn obeys_shr_spec() -> bool {
        true
    }

    open spec fn shr_req(self, rhs: u16) -> bool {
        true
    }

    open spec fn shr_spec(self, rhs: u16) -> Pointer {
        Pointer(self.0 >> ((rhs as u32) % 16))
    }
}

impl core::ops::AddAssign<u16> for Pointer {
    /// Adds, wrapping around.
    fn add_assign(&mut self, rhs: u16)
        ensures
            final(self).0 == (old(self).0 + rhs) % 0x10000,
    {
        self.0 = self.0.wrapping_add(rhs);
    }
}

impl core::ops::SubAssign<u16> for Pointer {
    /// Subtracts, wrapping around.
    fn sub_assign(&mut self, rhs: u16)
        ensures
            final(self).0 == (old(self).0 - rhs) % 0x10000,
    {
        self.0 = self.0.wrapping_sub(rhs);
    }
}

impl core::ops::ShlAssign<u16> for Pointer {
    /// Shifts to the left, the distance taken modulo 16.
    fn shl_assign(&mut self, rhs: u16)
        ensures
            final(self).0 == old(self).0 << ((rhs as u32) % 16),
    {
        self.0 = self.0.wrapping_shl(rhs as u32);
    }
}

impl core::ops::ShrAssign<u16> for Pointer {
    /// Shifts to the right, the distance taken modulo 16.
    fn shr_assign(&mut self, rhs: u16)
        ensures
            final(self).0 == old(self).0 >> ((rhs as u32) % 16),
    {
        self.0 = self.0.wrapping_shr(rhs as u32);
    }
}

impl core::ops::BitAndAssign<u16> for Pointer {
    /// Keeps the bits that both have.
    fn bitand_assign(&mut self, rhs: u16)
        ensures
            final(self).0 == old(self).0 & rhs,
    {
        self.0 = self.0 & rhs;
    }
}

impl core::ops::BitOrAssign<u16> for Pointer {
    /// Takes the bits that either has.
    fn bitor_assign(&mut self, rhs: u16)
        ensures
            final(self).0 == old(self).0 | rhs,
    {
        self.0 = self.0 | rhs;
    }
}

impl core::ops::BitXorAssign<u16> for Pointer {
    /// Turns over the bits that the other has.
    fn bitxor_assign(&mut self, rhs: u16)
        ensures
            final(self).0 == old(self).0 ^ rhs,
    {
        self.0 = self.0 ^ rhs;
    }
}

impl core::ops::AddAssign for Pointer {
    /// Adds, wrapping around.
    fn add_assign(&mut self, rhs: Pointer)
        ensures
            final(self).0 == (old(self).0 + rhs.0) % 0x10000,
    {
        self.0 = self.0.wrapping_add(rhs.0);
    }
}

impl core::ops::SubAssign for Pointer {
    /// Subtracts, wrapping around.
    fn sub_assign(&mut self, rhs: Pointer)
        ensures
            final(self).0 == (old(self).0 - rhs.0) % 0x10000,
    {
        self.0 = self.0.wrapping_sub(rhs.0);
    }
}

impl core::ops::ShlAssign for Pointer {
    /// Shifts to the left, the distance taken modulo 16.
    fn shl_assign(&mut self, rhs: Pointer)
        ensures
            final(self).0 == old(self).0 << ((rhs.0 as u32) % 16),
    {
        self.0 = self.0.wrapping_shl(rhs.0 as u32);
    }
}

impl core::ops::ShrAssign for Pointer {
    /// Shifts to the right, the distance taken modulo 16.
    fn shr_assign(&mut self, rhs: Pointer)
        ensures
            final(self).0 == old(self).0 >> ((rhs.0 as u32) % 16),
    {
        self.0 = self.0.wrapping_shr(rhs.0 as u32);
    }
}

impl core::ops::BitAndAssign for Pointer {
    /// Keeps the bits that both have.
    fn bitand_assign(&mut self, rhs: Pointer)
        ensures
            final(self).0 == old(self).0 & rhs.0,
    {
        self.0 = self.0 & rhs.0;
    }
}

impl core::ops::BitOrAssign for Pointer {
    /// Takes the bits that either has.
    fn bitor_assign(&mut self, rhs: Pointer)
        ensures
            final(self).0 == old(self).0 | rhs.0,
    {
        self.0 = self.0 | rhs.0;
    }
}

impl core::ops::BitXorAssign for Pointer {
    /// Turns over the bits that the other has.
    fn bitxor_assign(&mut self, rhs: Pointer)
        ensures
            final(self).0 == old(self).0 ^ rhs.0,
    {
        self.0 = self.0 ^ rhs.0;
    }
}

impl PartialEq<u16> for Pointer {
    fn eq(&self, rhs: &u16) -> (equal: bool)
    {
        self.0 == *rhs
    }
}

impl vstd::std_specs::cmp::PartialEqSpecImpl<u16> for Pointer {
    open spec fn obeys_eq_spec() -> bool {
        true
    }

    open spec fn eq_spec(&self, rhs: &u16) -> bool {
        self.0 == *rhs
    }
}

impl PartialOrd<u16> for Pointer {
    fn partial_cmp(&self, rhs: &u16) -> (order: Option<Ordering>)
    {
        if self.0 < *rhs {
            Some(Ordering::Less)
        } else if self.0 > *rhs {
            Some(Ordering::Greater)
        } else {
            Some(Ordering::Equal)
        }
    }
}

impl vstd::std_specs::cmp::PartialOrdSpecImpl<u16> for Pointer {
    open spec fn obeys_partial_cmp_spec() -> bool {
        true
    }

    open spec fn partial_cmp_spec(&self, rhs: &u16) -> Option<Ordering> {
        if self.0 < *rhs {
            Some(Ordering::Less)
        } else if self.0 > *rhs {
            Some(Ordering::Greater)
        } else {
            Some(Ordering::Equal)
        }
    }
}

impl core::ops::Deref for Pointer {
    type Target = u16;

    fn deref(&self) -> (value: &u16)
        ensures
            *value == self.0,
    {
        &self.0
    }
}

impl core::ops::DerefMut for Pointer {
    fn deref_mut(&mut self) -> (value: &mut u16)
        ensures
            *value == old(self).0,
            final(self).0 == *final(value),
    {
        &mut self.0
    }
}

} // verus!
