//! The stack and interrupt-switch group: `PUSH`, `POP`, `EI` and `DI`.

use vstd::prelude::*;
use crate::bits::{high8, join16, low8};
use crate::condition_codes::ConditionCodes;
use crate::cpu::Cpu;
use crate::instruction::{Instruction, StackPair};
use crate::register::Register;
use crate::state::State;

verus! {

impl Cpu {
    /// `PUSH pair`: the first register of the pair goes to `sp - 1`, the second to
    /// `sp - 2`; for `PSW` these are the accumulator and the flag byte.
    pub fn push(&mut self, pair: StackPair)
        ensures
            final(self)@ == old(self)@.push(pair),
    {
        let word: u16 = match pair {
            StackPair::BC => join16(self.b.0, self.c.0),
            StackPair::DE => join16(self.d.0, self.e.0),
            StackPair::HL => join16(self.h.0, self.l.0),
            StackPair::PSW => join16(self.a.0, u8::from(self.conditions)),
        };
        self.push_word(word);
    }

    /// `POP pair`: the second register of the pair is read from `sp`, the first from
    /// `sp + 1`; for `PSW` these are the flag byte and the accumulator.
    pub fn pop(&mut self, pair: StackPair)
        ensures
            final(self)@ == old(self)@.pop(pair),
    {
        let word: u16 = self.pop_word();
        match pair {
            StackPair::BC => {
                self.b = Register(high8(word));
                self.c = Register(low8(word));
            },
            StackPair::DE => {
                self.d = Register(high8(word));
                self.e = Register(low8(word));
            },
            StackPair::HL => {
                self.h = Register(high8(word));
                self.l = Register(low8(word));
            },
            StackPair::PSW => {
                self.a = Register(high8(word));
                self.conditions = ConditionCodes::from(low8(word));
            },
        }
    }

    /// `EI`.
    pub fn ei(&mut self)
        ensures
            final(self)@ == old(self)@.ei(),
    {
        self.int_enable = true;
    }

    /// `DI`.
    pub fn di(&mut self)
        ensures
            final(self)@ == old(self)@.di(),
    {
        self.int_enable = false;
    }

    /// Executes an instruction of the stack and machine control group.
    pub(crate) fn execute_control(&mut self, instruction: Instruction) -> (jumped: bool)
        requires
            instruction.is_control(),
        ensures
            final(self)@ == old(self)@.effect(instruction, 0),
            jumped == old(self)@.takes(instruction),
    {
        proof {
            reveal(State::effect);
        }
        match instruction {
            Instruction::Push(pair) => self.push(pair),
            Instruction::Pop(pair) => self.pop(pair),
            Instruction::Ei => self.ei(),
            Instruction::Di => self.di(),
            _ => {},
        }
        false
    }
}

} // verus!
