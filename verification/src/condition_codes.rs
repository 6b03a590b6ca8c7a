//! The five processor flags and their packed form, the flag byte.

use vstd::prelude::*;
use crate::instruction::Condition;

verus! {

/// The processor's flags: zero, sign, parity, carry and auxiliary carry.
#[derive(Debug, Clone, Copy, PartialEq, Eq, Structural)]
pub struct ConditionCodes {
    pub z: bool,
    pub s: bool,
    pub p: bool,
    pub cy: bool,
    pub ac: bool,
}

/// How many of the eight bits of `byte` are set.
pub open spec fn ones(byte: u8) -> nat {
    (byte % 2 + (byte / 2) % 2 + (byte / 4) % 2 + (byte / 8) % 2 + (byte / 16) % 2 + (byte / 32)
        % 2 + (byte / 64) % 2 + (byte / 128) % 2) as nat
}

impl ConditionCodes {
    /// Zero: the low eight bits of the result are all clear.
    pub open spec fn zero_of(answer: u16) -> bool {
        answer % 256 == 0
    }

    /// Sign: bit 7 of the result is set.
    pub open spec fn sign_of(answer: u16) -> bool {
        answer % 256 >= 128
    }

    /// Carry: the result did not fit in eight bits.
    pub open spec fn carry_of(answer: u16) -> bool {
        answer > 255
    }

    /// Parity: the low eight bits of the result hold an even number of set bits.
    pub open spec fn parity_of(answer: u16) -> bool {
        ones((answer % 256) as u8) % 2 == 0
    }

    /// Auxiliary carry: the sum of the low nibbles did not fit in four bits.
    pub open spec fn aux_of(nibbles: u8) -> bool {
        nibbles > 15
    }

    /// Zero, sign and parity taken from `answer`; carry and auxiliary carry kept.
    pub open spec fn with_zsp(self, answer: u16) -> ConditionCodes {
        ConditionCodes {
            z: Self::zero_of(answer),
            s: Self::sign_of(answer),
            p: Self::parity_of(answer),
            ..self
        }
    }

    /// All five flags: carry, zero, sign and parity from `answer`, auxiliary carry from
    /// `nibbles`.
    pub open spec fn all_of(answer: u16, nibbles: u8) -> ConditionCodes {
        ConditionCodes {
            z: Self::zero_of(answer),
            s: Self::sign_of(answer),
            p: Self::parity_of(answer),
            cy: Self::carry_of(answer),
            ac: Self::aux_of(nibbles),
        }
    }

    /// Whether the flags meet a branch condition.
    pub open spec fn holds(self, condition: Condition) -> bool {
        match condition {
            Condition::NotZero => !self.z,
            Condition::Zero => self.z,
            Condition::NoCarry => !self.cy,
            Condition::Carry => self.cy,
            Condition::ParityOdd => !self.p,
            Condition::ParityEven => self.p,
            Condition::Plus => !self.s,
            Condition::Minus => self.s,
        }
    }

    /// The flag byte `S Z 0 AC 0 P 1 CY`, most significant bit first.
    pub open spec fn to_byte(self) -> u8 {
        ((if self.s { 128int } else { 0 }) + (if self.z { 64int } else { 0 }) + (if self.ac {
            16int
        } else {
            0
        }) + (if self.p { 4int } else { 0 }) + 2 + (if self.cy { 1int } else { 0 })) as u8
    }

    /// The flags that a flag byte holds; its three other bits are not looked at.
    pub open spec fn of_byte(byte: u8) -> ConditionCodes {
        ConditionCodes {
            s: byte / 128 == 1,
            z: (byte / 64) % 2 == 1,
            ac: (byte / 16) % 2 == 1,
            p: (byte / 4) % 2 == 1,
            cy: byte % 2 == 1,
        }
    }

    /// Unpacking a packed set of flags gives the same flags back.
    pub proof fn lemma_pack_unpack(self)
        ensures
            Self::of_byte(self.to_byte()) == self,
    {
    }

    /// A flag byte always has bit 1 set and bits 3 and 5 clear.
    pub proof fn lemma_fixed_bits(self)
        ensures
            self.to_byte() & 0x2a == 0x02,
    {
        crate::bits::lemma_flag_pack(
            if self.s { 1 } else { 0 },
            if self.z { 1 } else { 0 },
            if self.ac { 1 } else { 0 },
            if self.p { 1 } else { 0 },
            if self.cy { 1 } else { 0 },
        );
    }

    /// Packing what was unpacked keeps the five flag bits of the byte, sets bit 1 and
    /// clears bits 3 and 5.
    pub proof fn lemma_unpack_pack(byte: u8)
        ensures
            Self::of_byte(byte).to_byte() == (byte & 0xd5) | 0x02,
    {
        crate::bits::lemma_flag_bits(byte);
    }

    /// Sets zero from the low eight bits of `answer`.
    pub fn set_z(&mut self, answer: u16)
        ensures
            *final(self) == (ConditionCodes { z: Self::zero_of(answer), ..*old(self) }),
    {
        proof {
            crate::bits::lemma_u16_bytes(answer);
        }
        self.z = answer & 0xff == 0;
    }

    /// Sets sign from bit 7 of `answer`.
    pub fn set_s(&mut self, answer: u16)
        ensures
            *final(self) == (ConditionCodes { s: Self::sign_of(answer), ..*old(self) }),
    {
        proof {
            crate::bits::lemma_u16_bytes(answer);
        }
        self.s = answer & 0x80 != 0;
    }

    /// Sets carry if `answer` does not fit in eight bits.
    pub fn set_cy(&mut self, answer: u16)
        ensures
            *final(self) == (ConditionCodes { cy: Self::carry_of(answer), ..*old(self) }),
    {
        self.cy = answer > 0xff;
    }

    /// Sets parity if the low eight bits of `answer` hold an even number of set bits.
    pub fn set_p(&mut self, answer: u16)
        ensures
            *final(self) == (ConditionCodes { p: Self::parity_of(answer), ..*old(self) }),
    {
        proof {
            crate::bits::lemma_u16_bytes(answer);
        }
        let byte: u8 = (answer & 0xff) as u8;
        let x: u8 = byte ^ (byte >> 4);
        let y: u8 = x ^ (x >> 2);
        let z: u8 = y ^ (y >> 1);
        proof {
            crate::bits::lemma_fold_parity(byte);
        }
        self.p = z & 1 == 0;
    }

    /// Sets auxiliary carry if `answer`, a sum of two nibbles, does not fit in four
    /// bits.
    pub fn set_ac(&mut self, answer: u8)
        ensures
            *final(self) == (ConditionCodes { ac: Self::aux_of(answer), ..*old(self) }),
    {
        self.ac = answer > 0xf;
    }

    /// Sets all five flags: carry, zero, sign and parity from `answer`, auxiliary carry
    /// from `ac_check`.
    pub fn set_all(&mut self, answer: u16, ac_check: u8)
        ensures
            *final(self) == Self::all_of(answer, ac_check),
    {
        self.set_all_except_carry(answer, ac_check);
        self.set_cy(answer);
    }

    /// Sets zero, sign, parity and auxiliary carry, and keeps carry.
    pub fn set_all_except_carry(&mut self, answer: u16, ac_check: u8)
        ensures
            *final(self) == (ConditionCodes {
                ac: Self::aux_of(ac_check),
                ..old(self).with_zsp(answer)
            }),
    {
        self.set_z(answer);
        self.set_s(answer);
        self.set_p(answer);
        self.set_ac(ac_check);
    }

    /// Sets zero, sign, parity and carry, and keeps auxiliary carry.
    pub fn set_all_except_ac(&mut self, answer: u16)
        ensures
            *final(self) == (ConditionCodes {
                cy: Self::carry_of(answer),
                ..old(self).with_zsp(answer)
            }),
    {
        self.set_z(answer);
        self.set_s(answer);
        self.set_p(answer);
        self.set_cy(answer);
    }
}

impl ConditionCodes {
    /// Tests the one flag that a branch condition names.
    pub fn test(&self, condition: Condition) -> (met: bool)
        ensures
            met == self.holds(condition),
    {
        match condition {
            Condition::NotZero => !self.z,
            Condition::Zero => self.z,
            Condition::NoCarry => !self.cy,
            Condition::Carry => self.cy,
            Condition::ParityOdd => !self.p,
            Condition::ParityEven => self.p,
            Condition::Plus => !self.s,
            Condition::Minus => self.s,
        }
    }
}

impl Default for ConditionCodes {
    /// All five flags clear.
    fn default() -> (codes: ConditionCodes)
        ensures
            codes == (ConditionCodes { z: false, s: false, p: false, cy: false, ac: false }),
    {
        ConditionCodes { z: false, s: false, p: false, cy: false, ac: false }
    }
}

impl From<ConditionCodes> for u8 {
    fn from(from: ConditionCodes) -> (word: u8)
    {
        let s: u8 = if from.s { 1 } else { 0 };
        let z: u8 = if from.z { 1 } else { 0 };
        let ac: u8 = if from.ac { 1 } else { 0 };
        let p: u8 = if from.p { 1 } else { 0 };
        let cy: u8 = if from.cy { 1 } else { 0 };
        proof {
            crate::bits::lemma_flag_pack(s, z, ac, p, cy);
        }
        let mut word: u8 = 0;
        word = word | s;
        word = word << 1;
        word = word | z;
        word = word << 2;
        word = word | ac;
        word = word << 2;
        word = word | p;
        word = word << 1;
        word = word | 1;
        word = word << 1;
        word = word | cy;
        word
    }
}

impl vstd::std_specs::convert::FromSpecImpl<ConditionCodes> for u8 {
    open spec fn obeys_from_spec() -> bool {
        true
    }

    open spec fn from_spec(from: ConditionCodes) -> u8 {
        from.to_byte()
    }
}

impl From<u8> for ConditionCodes {
    fn from(from: u8) -> (conditions: ConditionCodes)
    {
        proof {
            crate::bits::lemma_flag_bits(from);
        }
        ConditionCodes {
            cy: from & 0x1 != 0,
            p: from & 0x4 != 0,
            ac: from & 0x10 != 0,
            z: from & 0x40 != 0,
            s: from & 0x80 != 0,
        }
    }
}

impl vstd::std_specs::convert::FromSpecImpl<u8> for ConditionCodes {
    open spec fn obeys_from_spec() -> bool {
        true
    }

    open spec fn from_spec(from: u8) -> ConditionCodes {
        ConditionCodes::of_byte(from)
    }
}

} // verus!
