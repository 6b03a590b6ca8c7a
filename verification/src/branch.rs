//! The branch group: jumps, calls, returns and restarts. Each handler says whether
//! it set the program counter itself.

use vstd::prelude::*;
use crate::cpu::Cpu;
use crate::instruction::{Condition, Instruction};
use crate::pointer::Pointer;
use crate::state::State;

verus! {

impl Cpu {
    /// The program counter takes the address that follows the opcode.
    pub fn jump(&mut self)
        ensures
            final(self)@ == old(self)@.jump(),
    {
        self.pc = Pointer(self.get_d16());
    }

    /// `JMP`. Always a jump.
    pub fn jmp(&mut self) -> (jumped: bool)
        ensures
            final(self)@ == old(self)@.jump(),
            jumped,
    {
        self.jump();
        true
    }

    /// A conditional jump: `JNZ`, `JZ`, `JNC`, `JC`, `JPO`, `JPE`, `JP`, `JM`.
    pub fn jump_if(&mut self, condition: Condition) -> (jumped: bool)
        ensures
            jumped == old(self)@.conditions.holds(condition),
            final(self)@ == if jumped {
                old(self)@.jump()
            } else {
                old(self)@
            },
    {
        let met: bool = self.conditions.test(condition);
        if met {
            self.jump();
        }
        met
    }

    /// `CALL`: pushes the address of the next instruction and jumps. Always a jump.
    pub fn call(&mut self) -> (jumped: bool)
        ensures
            final(self)@ == old(self)@.call(),
            jumped,
    {
        let ret: u16 = self.pc.0.wrapping_add(3);
        self.push_word(ret);
        self.jump();
        true
    }

    /// A conditional call: `CNZ`, `CZ`, `CNC`, `CC`, `CPO`, `CPE`, `CP`, `CM`.
    pub fn call_if(&mut self, condition: Condition) -> (jumped: bool)
        ensures
            jumped == old(self)@.conditions.holds(condition),
            final(self)@ == if jumped {
                old(self)@.call()
            } else {
                old(self)@
            },
    {
        let met: bool = self.conditions.test(condition);
        if met {
            self.call();
        }
        met
    }

    /// `RET`: the program counter takes the word on top of the stack. Always a jump.
    pub fn ret(&mut self) -> (jumped: bool)
        ensures
            final(self)@ == old(self)@.ret(),
            jumped,
    {
        let target: u16 = self.pop_word();
        self.pc = Pointer(target);
        true
    }

    /// A conditional return: `RNZ`, `RZ`, `RNC`, `RC`, `RPO`, `RPE`, `RP`, `RM`.
    pub fn return_if(&mut self, condition: Condition) -> (jumped: bool)
        ensures
            jumped == old(self)@.conditions.holds(condition),
            final(self)@ == if jumped {
                old(self)@.ret()
            } else {
                old(self)@
            },
    {
        let met: bool = self.conditions.test(condition);
        if met {
            self.ret();
        }
        met
    }

    /// Pushes the program counter and goes on at `vector`. Always a jump.
    pub fn restart(&mut self, vector: u16) -> (jumped: bool)
        ensures
            final(self)@ == old(self)@.restart(vector),
            jumped,
    {
        let ret: u16 = self.pc.0;
        self.push_word(ret);
        self.pc = Pointer(vector);
        true
    }

    /// `RST`: a restart at the vector that bits 3 to 5 of `code` select. Always a jump.
    pub fn rst(&mut self, code: u8) -> (jumped: bool)
        ensures
            final(self)@ == old(self)@.restart(crate::state::State::vector_of(code)),
            jumped,
    {
        proof {
            crate::bits::lemma_u8_parts(code);
        }
        self.restart((code & 0x38) as u16)
    }

    /// An interrupt from outside: a restart at the vector that `code` selects, after
    /// which interrupts are off until the program switches them on again.
    pub fn interrupt(&mut self, code: u8)
        ensures
            final(self)@ == old(self)@.interrupt(code),
    {
        self.rst(code);
        self.int_enable = false;
    }

    /// Executes an instruction of the branch group and tells whether the branch was
    /// taken.
    pub(crate) fn execute_branch(&mut self, instruction: Instruction) -> (jumped: bool)
        requires
            instruction.is_branch(),
        ensures
            final(self)@ == old(self)@.effect(instruction, 0),
            jumped == old(self)@.takes(instruction),
    {
        proof {
            reveal(State::effect);
        }
        match instruction {
            Instruction::JumpIf(condition) => self.jump_if(condition),
            Instruction::Jmp => self.jmp(),
            Instruction::CallIf(condition) => self.call_if(condition),
            Instruction::Call => self.call(),
            Instruction::ReturnIf(condition) => self.return_if(condition),
            Instruction::Ret => self.ret(),
            Instruction::Rst(n) => self.restart(n as u16 * 8),
            _ => true,
        }
    }
}

} // verus!
