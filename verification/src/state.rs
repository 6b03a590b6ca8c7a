//! The processor as a mathematical value, and what each instruction does to it.
//!
//! But for two small types that the processor hands out, everything here is
//! specification: the executable processor in `cpu` is proved to follow it step by
//! step.

use vstd::prelude::*;
use crate::condition_codes::ConditionCodes;
use crate::instruction::{AluOp, Instruction, Pair, Reg, StackPair};
use crate::memory::Ram;
use crate::opcode::Opcode;

verus! {

/// The registers, the flags, the interrupt switch and the memory of a processor.
pub struct State {
    pub a: u8,
    pub b: u8,
    pub c: u8,
    pub d: u8,
    pub e: u8,
    pub h: u8,
    pub l: u8,
    pub sp: u16,
    pub pc: u16,
    pub memory: Ram,
    pub conditions: ConditionCodes,
    pub int_enable: bool,
}

/// What stops a processor before its next instruction.
#[derive(Debug, Clone, Copy, PartialEq, Eq, Structural)]
pub enum Fault {
    /// The instruction at `address` is `HLT`.
    Halt { address: u16 },
}

/// What the instruction at the program counter asks of the device.
#[derive(Debug, Clone, Copy, PartialEq, Eq, Structural)]
pub enum PortRequest {
    /// Nothing: the instruction is neither `IN` nor `OUT`.
    Idle,
    /// `IN`: a byte from `port`.
    Input { port: u8 },
    /// `OUT`: `byte` goes to `port`.
    Output { port: u8, byte: u8 },
}

/// The 16-bit value with the given high and low byte.
pub open spec fn join(high: u8, low: u8) -> u16 {
    (high * 256 + low) as u16
}

/// The high byte of a 16-bit value.
pub open spec fn high_byte(value: u16) -> u8 {
    (value / 256) as u8
}

/// The low byte of a 16-bit value.
pub open spec fn low_byte(value: u16) -> u8 {
    (value % 256) as u8
}

/// An integer brought into the 16-bit range by wrapping around.
pub open spec fn wrap16(value: int) -> u16 {
    (value % 0x10000) as u16
}

/// An integer brought into the 8-bit range by wrapping around.
pub open spec fn wrap8(value: int) -> u8 {
    (value % 256) as u8
}

/// Wrapping to 16 bits adds or takes away one turn where the value is one turn off.
pub proof fn lemma_wrap16(value: int)
    requires
        -0x10000 <= value < 0x20000,
    ensures
        wrap16(value) == if value < 0 {
            value + 0x10000
        } else if value >= 0x10000 {
            value - 0x10000
        } else {
            value
        },
{
}

/// Wrapping to 8 bits adds or takes away one turn where the value is one turn off.
pub proof fn lemma_wrap8(value: int)
    requires
        -256 <= value < 512,
    ensures
        wrap8(value) == if value < 0 {
            value + 256
        } else if value >= 256 {
            value - 256
        } else {
            value
        },
{
}

/// One for a set flag, zero for a clear one.
pub open spec fn bit(flag: bool) -> int {
    if flag {
        1
    } else {
        0
    }
}

/// The widened sum of two bytes and a carry.
pub open spec fn sum(lhs: u8, rhs: u8, carry: bool) -> u16 {
    (lhs + rhs + bit(carry)) as u16
}

/// The sum of the low nibbles of two bytes and a carry.
pub open spec fn nibble_sum(lhs: u8, rhs: u8, carry: bool) -> u8 {
    (lhs % 16 + rhs % 16 + bit(carry)) as u8
}

/// The difference of two bytes and a borrow, wrapped to 16 bits: above 255 exactly when
/// the subtraction borrows.
pub open spec fn difference(lhs: u8, rhs: u8, borrow: bool) -> u16 {
    wrap16(lhs - rhs - bit(borrow))
}

/// The difference of the low nibbles of two bytes and a borrow, wrapped to 8 bits:
/// above 15 exactly when the low nibble borrows.
pub open spec fn nibble_difference(lhs: u8, rhs: u8, borrow: bool) -> u8 {
    wrap8(lhs % 16 - rhs % 16 - bit(borrow))
}

/// What the wrapped differences mean in plain arithmetic.
pub proof fn lemma_difference(lhs: u8, rhs: u8, borrow: bool)
    ensures
        low_byte(difference(lhs, rhs, borrow)) == wrap8(lhs - rhs - bit(borrow)),
        ConditionCodes::carry_of(difference(lhs, rhs, borrow)) == (lhs < rhs + bit(borrow)),
        ConditionCodes::aux_of(nibble_difference(lhs, rhs, borrow)) == (lhs % 16 < rhs % 16 + bit(
            borrow,
        )),
{
    lemma_wrap16(lhs - rhs - bit(borrow));
    lemma_wrap8(lhs - rhs - bit(borrow));
    lemma_wrap8(lhs % 16 - rhs % 16 - bit(borrow));
}

impl State {
    /// The state is over a full address space.
    pub open spec fn wf(self) -> bool {
        self.memory.wf()
    }

    /// The state of a processor that was just made: every register, every flag and
    /// every memory cell is zero, interrupts are off and no mirror boundary is set.
    pub open spec fn is_reset(self) -> bool {
        &&& self.a == 0 && self.b == 0 && self.c == 0 && self.d == 0
        &&& self.e == 0 && self.h == 0 && self.l == 0
        &&& self.sp == 0 && self.pc == 0
        &&& self.conditions == (ConditionCodes {
            z: false,
            s: false,
            p: false,
            cy: false,
            ac: false,
        })
        &&& !self.int_enable
        &&& self.memory.wf()
        &&& self.memory.mirror is None
        &&& forall|i: int| 0 <= i < 0x10000 ==> self.memory.cells[i] == 0
    }

    /// What the instruction at the program counter asks of the device: `IN` reads the
    /// port that the byte after the opcode names, `OUT` sends the accumulator to it.
    pub open spec fn port_request(self) -> PortRequest {
        match self.instruction() {
            Instruction::In => PortRequest::Input { port: self.d8() },
            Instruction::Out => PortRequest::Output { port: self.d8(), byte: self.a },
            _ => PortRequest::Idle,
        }
    }

    /// The pair `BC` as one value.
    pub open spec fn bc(self) -> u16 {
        join(self.b, self.c)
    }

    /// The pair `DE` as one value.
    pub open spec fn de(self) -> u16 {
        join(self.d, self.e)
    }

    /// The pair `HL` as one value.
    pub open spec fn hl(self) -> u16 {
        join(self.h, self.l)
    }

    /// The value of an 8-bit operand.
    pub open spec fn reg(self, reg: Reg) -> u8 {
        match reg {
            Reg::B => self.b,
            Reg::C => self.c,
            Reg::D => self.d,
            Reg::E => self.e,
            Reg::H => self.h,
            Reg::L => self.l,
            Reg::M => self.memory.read(self.hl()),
            Reg::A => self.a,
        }
    }

    /// The state with `value` stored in an 8-bit operand.
    pub open spec fn with_reg(self, reg: Reg, value: u8) -> State {
        match reg {
            Reg::B => State { b: value, ..self },
            Reg::C => State { c: value, ..self },
            Reg::D => State { d: value, ..self },
            Reg::E => State { e: value, ..self },
            Reg::H => State { h: value, ..self },
            Reg::L => State { l: value, ..self },
            Reg::M => State { memory: self.memory.write(self.hl(), value), ..self },
            Reg::A => State { a: value, ..self },
        }
    }

    /// The value of a register pair.
    pub open spec fn pair(self, pair: Pair) -> u16 {
        match pair {
            Pair::BC => self.bc(),
            Pair::DE => self.de(),
            Pair::HL => self.hl(),
            Pair::SP => self.sp,
        }
    }

    /// The state with `value` stored in a register pair, high byte in the first register.
    pub open spec fn with_pair(self, pair: Pair, value: u16) -> State {
        match pair {
            Pair::BC => State { b: high_byte(value), c: low_byte(value), ..self },
            Pair::DE => State { d: high_byte(value), e: low_byte(value), ..self },
            Pair::HL => State { h: high_byte(value), l: low_byte(value), ..self },
            Pair::SP => State { sp: value, ..self },
        }
    }

    /// The value that `PUSH` stores for a pair.
    pub open spec fn stack_pair(self, pair: StackPair) -> u16 {
        match pair {
            StackPair::BC => self.bc(),
            StackPair::DE => self.de(),
            StackPair::HL => self.hl(),
            StackPair::PSW => join(self.a, self.conditions.to_byte()),
        }
    }

    /// The state with `value` stored in a pair as `POP` does it.
    pub open spec fn with_stack_pair(self, pair: StackPair, value: u16) -> State {
        match pair {
            StackPair::BC => State { b: high_byte(value), c: low_byte(value), ..self },
            StackPair::DE => State { d: high_byte(value), e: low_byte(value), ..self },
            StackPair::HL => State { h: high_byte(value), l: low_byte(value), ..self },
            StackPair::PSW => State {
                a: high_byte(value),
                conditions: ConditionCodes::of_byte(low_byte(value)),
                ..self
            },
        }
    }

    /// The byte that follows the opcode.
    pub open spec fn d8(self) -> u8 {
        self.memory.read(wrap16(self.pc + 1))
    }

    /// The two bytes that follow the opcode, low byte first.
    pub open spec fn d16(self) -> u16 {
        join(self.memory.read(wrap16(self.pc + 2)), self.memory.read(wrap16(self.pc + 1)))
    }

    /// The 16-bit value in memory at `address`, low byte first.
    pub open spec fn word_at(self, address: u16) -> u16 {
        join(self.memory.read(wrap16(address + 1)), self.memory.read(address))
    }

    /// The state after `value` was pushed: its high byte goes to `sp - 1`, its low byte
    /// to `sp - 2`, and the stack pointer moves down by two.
    pub open spec fn pushed(self, value: u16) -> State {
        State {
            memory: self.memory.write(wrap16(self.sp - 1), high_byte(value)).write(
                wrap16(self.sp - 2),
                low_byte(value),
            ),
            sp: wrap16(self.sp - 2),
            ..self
        }
    }

    /// The state after a 16-bit value was taken off the stack: the stack pointer moves
    /// up by two. The value taken is `self.word_at(self.sp)`.
    pub open spec fn popped(self) -> State {
        State { sp: wrap16(self.sp + 2), ..self }
    }

    // Data transfer

    /// `MOV`: `dst` takes the value of `src`.
    pub open spec fn mov(self, dst: Reg, src: Reg) -> State {
        self.with_reg(dst, self.reg(src))
    }

    /// `MVI`: `dst` takes the byte that follows the opcode.
    pub open spec fn mvi(self, dst: Reg) -> State {
        self.with_reg(dst, self.d8())
    }

    /// `LXI`: `pair` takes the two bytes that follow the opcode.
    pub open spec fn lxi(self, pair: Pair) -> State {
        self.with_pair(pair, self.d16())
    }

    /// `LDAX`: the accumulator takes the byte that `pair` addresses.
    pub open spec fn ldax(self, pair: Pair) -> State {
        State { a: self.memory.read(self.pair(pair)), ..self }
    }

    /// `STAX`: the accumulator goes to the cell that `pair` addresses.
    pub open spec fn stax(self, pair: Pair) -> State {
        State { memory: self.memory.write(self.pair(pair), self.a), ..self }
    }

    /// `SHLD`: `L` goes to the address that follows the opcode, `H` to the one above
    /// it.
    pub open spec fn shld(self) -> State {
        State {
            memory: self.memory.write(self.d16(), self.l).write(wrap16(self.d16() + 1), self.h),
            ..self
        }
    }

    /// `LHLD`: `L` is read from the address that follows the opcode, `H` from the one
    /// above it.
    pub open spec fn lhld(self) -> State {
        State {
            l: self.memory.read(self.d16()),
            h: self.memory.read(wrap16(self.d16() + 1)),
            ..self
        }
    }

    /// `LDA`: the accumulator takes the byte at the address that follows the opcode.
    pub open spec fn lda(self) -> State {
        State { a: self.memory.read(self.d16()), ..self }
    }

    /// `STA`: the accumulator goes to the address that follows the opcode.
    pub open spec fn sta(self) -> State {
        State { memory: self.memory.write(self.d16(), self.a), ..self }
    }

    /// `SPHL`: the stack pointer takes `HL`.
    pub open spec fn sphl(self) -> State {
        State { sp: self.hl(), ..self }
    }

    /// `PCHL`: the program counter takes `HL`.
    pub open spec fn pchl(self) -> State {
        State { pc: self.hl(), ..self }
    }

    /// `XCHG`: `HL` and `DE` change places.
    pub open spec fn xchg(self) -> State {
        State { h: self.d, l: self.e, d: self.h, e: self.l, ..self }
    }

    /// `XTHL`: `HL` and the word on top of the stack change places; the high byte is
    /// written first.
    pub open spec fn xthl(self) -> State {
        State {
            h: self.memory.read(wrap16(self.sp + 1)),
            l: self.memory.read(self.sp),
            memory: self.memory.write(wrap16(self.sp + 1), self.h).write(self.sp, self.l),
            ..self
        }
    }

    // Arithmetic

    /// `ADD`, `ADC`, `ADI`, `ACI`: the accumulator plus `operand` plus `carry`.
    pub open spec fn add_with(self, operand: u8, carry: bool) -> State {
        let answer: u16 = sum(self.a, operand, carry);
        State {
            a: low_byte(answer),
            conditions: ConditionCodes::all_of(answer, nibble_sum(self.a, operand, carry)),
            ..self
        }
    }

    /// `SUB`, `SBB`, `SUI`, `SBI`: the accumulator minus `operand` minus `borrow`.
    pub open spec fn sub_with(self, operand: u8, borrow: bool) -> State {
        let answer: u16 = difference(self.a, operand, borrow);
        State {
            a: low_byte(answer),
            conditions: ConditionCodes::all_of(
                answer,
                nibble_difference(self.a, operand, borrow),
            ),
            ..self
        }
    }

    /// `CMP`, `CPI`: the flags of a subtraction whose result is not kept.
    pub open spec fn compare(self, operand: u8) -> State {
        State { conditions: self.sub_with(operand, false).conditions, ..self }
    }

    /// `INR`: the operand plus one. Carry is kept.
    pub open spec fn inr(self, reg: Reg) -> State {
        let value: u8 = self.reg(reg);
        let answer: u8 = wrap8(value + 1);
        State {
            conditions: ConditionCodes {
                ac: ConditionCodes::aux_of(nibble_sum(value, 1, false)),
                ..self.conditions.with_zsp(answer as u16)
            },
            ..self
        }.with_reg(reg, answer)
    }

    /// `DCR`: the operand minus one. Carry is kept.
    pub open spec fn dcr(self, reg: Reg) -> State {
        let value: u8 = self.reg(reg);
        let answer: u8 = wrap8(value - 1);
        State {
            conditions: ConditionCodes {
                ac: ConditionCodes::aux_of(nibble_difference(value, 1, false)),
                ..self.conditions.with_zsp(answer as u16)
            },
            ..self
        }.with_reg(reg, answer)
    }

    /// `INX`: the pair plus one, wrapped to 16 bits. No flag changes.
    pub open spec fn inx(self, pair: Pair) -> State {
        self.with_pair(pair, wrap16(self.pair(pair) + 1))
    }

    /// `DCX`: the pair minus one, wrapped to 16 bits. No flag changes.
    pub open spec fn dcx(self, pair: Pair) -> State {
        self.with_pair(pair, wrap16(self.pair(pair) - 1))
    }

    /// `DAD`: `HL` plus a pair, wrapped to 16 bits. Carry is set when the sum did not
    /// fit; no other flag changes.
    pub open spec fn dad(self, pair: Pair) -> State {
        let total: int = self.hl() + self.pair(pair);
        State {
            h: high_byte(wrap16(total)),
            l: low_byte(wrap16(total)),
            conditions: ConditionCodes { cy: total > 0xffff, ..self.conditions },
            ..self
        }
    }

    /// `DAA`: the accumulator read as two decimal digits and put right. Six is added
    /// to the low digit if it is above 9 or auxiliary carry is set, then six to the
    /// high digit if it is above 9 or carry is set. Auxiliary carry is set where the
    /// low digit overflowed, and is never cleared.
    pub open spec fn daa(self) -> State {
        let low: int = self.a as int % 16;
        let lifted: int = if self.conditions.ac || low > 9 {
            self.a + 6
        } else {
            self.a as int
        };
        let least: int = lifted % 16;
        let most: int = (lifted / 16) % 16;
        let raised: int = if self.conditions.cy || most > 9 {
            most + 6
        } else {
            most
        };
        let answer: u16 = (raised * 16 + least) as u16;
        State {
            a: low_byte(answer),
            conditions: ConditionCodes {
                cy: ConditionCodes::carry_of(answer),
                ac: self.conditions.ac || low > 9,
                ..self.conditions.with_zsp(answer)
            },
            ..self
        }
    }

    // Logic

    /// `ANA`: carry is cleared, auxiliary carry is set when the result is above 15.
    pub open spec fn ana(self, operand: u8) -> State {
        let answer: u8 = self.a & operand;
        State {
            a: answer,
            conditions: ConditionCodes::all_of(answer as u16, answer),
            ..self
        }
    }

    /// `ANI`: carry is cleared, auxiliary carry is kept.
    pub open spec fn ani(self) -> State {
        let answer: u8 = self.a & self.d8();
        State {
            a: answer,
            conditions: ConditionCodes { cy: false, ..self.conditions.with_zsp(answer as u16) },
            ..self
        }
    }

    /// `XRA`: carry and auxiliary carry are cleared.
    pub open spec fn xra(self, operand: u8) -> State {
        let answer: u8 = self.a ^ operand;
        State { a: answer, conditions: ConditionCodes::all_of(answer as u16, 0), ..self }
    }

    /// `XRI`: carry is cleared, auxiliary carry is set when the result is above 15.
    pub open spec fn xri(self) -> State {
        let answer: u8 = self.a ^ self.d8();
        State {
            a: answer,
            conditions: ConditionCodes::all_of(answer as u16, answer),
            ..self
        }
    }

    /// `ORA`: carry and auxiliary carry are cleared.
    pub open spec fn ora(self, operand: u8) -> State {
        let answer: u8 = self.a | operand;
        State { a: answer, conditions: ConditionCodes::all_of(answer as u16, 0), ..self }
    }

    /// `ORI`: carry is cleared, auxiliary carry is kept.
    pub open spec fn ori(self) -> State {
        let answer: u8 = self.a | self.d8();
        State {
            a: answer,
            conditions: ConditionCodes { cy: false, ..self.conditions.with_zsp(answer as u16) },
            ..self
        }
    }

    /// `RLC`: the accumulator turns one place to the left; carry takes the bit that
    /// went round.
    pub open spec fn rlc(self) -> State {
        State {
            a: ((self.a * 2) % 256 + self.a / 128) as u8,
            conditions: ConditionCodes { cy: self.a >= 128, ..self.conditions },
            ..self
        }
    }

    /// `RRC`: the accumulator turns one place to the right; carry takes the bit that
    /// went round.
    pub open spec fn rrc(self) -> State {
        State {
            a: (self.a / 2 + (self.a % 2) * 128) as u8,
            conditions: ConditionCodes { cy: self.a % 2 == 1, ..self.conditions },
            ..self
        }
    }

    /// `RAL`: the accumulator and carry turn one place to the left as nine bits.
    pub open spec fn ral(self) -> State {
        State {
            a: ((self.a * 2) % 256 + bit(self.conditions.cy)) as u8,
            conditions: ConditionCodes { cy: self.a >= 128, ..self.conditions },
            ..self
        }
    }

    /// `RAR`: the accumulator and carry turn one place to the right as nine bits.
    pub open spec fn rar(self) -> State {
        State {
            a: (self.a / 2 + bit(self.conditions.cy) * 128) as u8,
            conditions: ConditionCodes { cy: self.a % 2 == 1, ..self.conditions },
            ..self
        }
    }

    /// `STC`: carry is set.
    pub open spec fn stc(self) -> State {
        State { conditions: ConditionCodes { cy: true, ..self.conditions }, ..self }
    }

    /// `CMA`: every bit of the accumulator is turned over.
    pub open spec fn cma(self) -> State {
        State { a: (255 - self.a) as u8, ..self }
    }

    /// `CMC`: carry is turned over.
    pub open spec fn cmc(self) -> State {
        State { conditions: ConditionCodes { cy: !self.conditions.cy, ..self.conditions }, ..self }
    }

    /// One of the eight operations between the accumulator and a register or `M`.
    pub open spec fn alu(self, op: AluOp, operand: u8) -> State {
        match op {
            AluOp::Add => self.add_with(operand, false),
            AluOp::Adc => self.add_with(operand, self.conditions.cy),
            AluOp::Sub => self.sub_with(operand, false),
            AluOp::Sbb => self.sub_with(operand, self.conditions.cy),
            AluOp::Ana => self.ana(operand),
            AluOp::Xra => self.xra(operand),
            AluOp::Ora => self.ora(operand),
            AluOp::Compare => self.compare(operand),
        }
    }

    /// One of the eight operations between the accumulator and the byte that follows
    /// the opcode.
    pub open spec fn alu_immediate(self, op: AluOp) -> State {
        match op {
            AluOp::Add => self.add_with(self.d8(), false),
            AluOp::Adc => self.add_with(self.d8(), self.conditions.cy),
            AluOp::Sub => self.sub_with(self.d8(), false),
            AluOp::Sbb => self.sub_with(self.d8(), self.conditions.cy),
            AluOp::Ana => self.ani(),
            AluOp::Xra => self.xri(),
            AluOp::Ora => self.ori(),
            AluOp::Compare => self.compare(self.d8()),
        }
    }

    // Branches

    /// `JMP`: the program counter takes the address that follows the opcode.
    pub open spec fn jump(self) -> State {
        State { pc: self.d16(), ..self }
    }

    /// `CALL`: the address of the next instruction is pushed, then the program counter
    /// takes the address that follows the opcode, read after the push.
    pub open spec fn call(self) -> State {
        self.pushed(wrap16(self.pc + 3)).jump()
    }

    /// `RET`: the program counter takes the word on top of the stack.
    pub open spec fn ret(self) -> State {
        State { pc: self.word_at(self.sp), ..self.popped() }
    }

    /// `RST`, and the call that an interrupt makes: the program counter itself is
    /// pushed, and execution goes on at `vector`.
    pub open spec fn restart(self, vector: u16) -> State {
        State { pc: vector, ..self.pushed(self.pc) }
    }

    /// The vector that the byte `code` selects: bits 3 to 5 of it, the rest cleared.
    pub open spec fn vector_of(code: u8) -> u16 {
        (((code / 8) % 8) * 8) as u16
    }

    /// An interrupt from outside: a restart at the vector of `code`, after which
    /// interrupts are switched off.
    pub open spec fn interrupt(self, code: u8) -> State {
        State { int_enable: false, ..self.restart(Self::vector_of(code)) }
    }

    // Stack

    /// `PUSH`: the value of the pair is pushed.
    pub open spec fn push(self, pair: StackPair) -> State {
        self.pushed(self.stack_pair(pair))
    }

    /// `POP`: the pair takes the word on top of the stack.
    pub open spec fn pop(self, pair: StackPair) -> State {
        self.popped().with_stack_pair(pair, self.word_at(self.sp))
    }

    /// `EI`: interrupts are switched on.
    pub open spec fn ei(self) -> State {
        State { int_enable: true, ..self }
    }

    /// `DI`: interrupts are switched off.
    pub open spec fn di(self) -> State {
        State { int_enable: false, ..self }
    }

    /// `IN`: the accumulator takes the byte that the port gave.
    pub open spec fn port_in(self, input: u8) -> State {
        State { a: input, ..self }
    }

    // One step

    /// The opcode byte at the program counter.
    pub open spec fn opcode(self) -> u8 {
        self.memory.read(self.pc)
    }

    /// The instruction at the program counter.
    pub open spec fn instruction(self) -> Instruction {
        Instruction::of(self.opcode())
    }

    /// What stops the processor before its next instruction, if anything does.
    pub open spec fn fault(self) -> Option<Fault> {
        match self.instruction() {
            Instruction::Hlt => Some(Fault::Halt { address: self.pc }),
            _ => None,
        }
    }

    /// Whether `instruction` sets the program counter itself, so that it is not moved
    /// on past the instruction afterwards.
    pub open spec fn takes(self, instruction: Instruction) -> bool {
        match instruction {
            Instruction::Jmp
            | Instruction::Call
            | Instruction::Ret
            | Instruction::Rst(_)
            | Instruction::Pchl => true,
            Instruction::JumpIf(c) | Instruction::CallIf(c) | Instruction::ReturnIf(c) =>
                self.conditions.holds(c),
            Instruction::Hlt => true,
            _ => false,
        }
    }

    /// What `instruction` does to the state, the program counter left alone unless the
    /// instruction is a branch that is taken. `input` is the byte that the port gives
    /// to an `IN`.
    #[verifier::opaque]
    pub open spec fn effect(self, instruction: Instruction, input: u8) -> State {
        match instruction {
            Instruction::Nop => self,
            Instruction::Lxi(p) => self.lxi(p),
            Instruction::Stax(p) => self.stax(p),
            Instruction::Ldax(p) => self.ldax(p),
            Instruction::Shld => self.shld(),
            Instruction::Lhld => self.lhld(),
            Instruction::Sta => self.sta(),
            Instruction::Lda => self.lda(),
            Instruction::Inx(p) => self.inx(p),
            Instruction::Dcx(p) => self.dcx(p),
            Instruction::Inr(r) => self.inr(r),
            Instruction::Dcr(r) => self.dcr(r),
            Instruction::Mvi(r) => self.mvi(r),
            Instruction::Dad(p) => self.dad(p),
            Instruction::Rlc => self.rlc(),
            Instruction::Rrc => self.rrc(),
            Instruction::Ral => self.ral(),
            Instruction::Rar => self.rar(),
            Instruction::Daa => self.daa(),
            Instruction::Cma => self.cma(),
            Instruction::Stc => self.stc(),
            Instruction::Cmc => self.cmc(),
            Instruction::Mov(d, s) => self.mov(d, s),
            Instruction::Hlt => self,
            Instruction::Alu(op, r) => self.alu(op, self.reg(r)),
            Instruction::AluImmediate(op) => self.alu_immediate(op),
            Instruction::ReturnIf(c) => if self.conditions.holds(c) {
                self.ret()
            } else {
                self
            },
            Instruction::Ret => self.ret(),
            Instruction::Pop(p) => self.pop(p),
            Instruction::JumpIf(c) => if self.conditions.holds(c) {
                self.jump()
            } else {
                self
            },
            Instruction::Jmp => self.jump(),
            Instruction::CallIf(c) => if self.conditions.holds(c) {
                self.call()
            } else {
                self
            },
            Instruction::Call => self.call(),
            Instruction::Push(p) => self.push(p),
            Instruction::Rst(n) => self.restart((n * 8) as u16),
            Instruction::Out => self,
            Instruction::In => self.port_in(input),
            Instruction::Xthl => self.xthl(),
            Instruction::Pchl => self.pchl(),
            Instruction::Xchg => self.xchg(),
            Instruction::Di => self.di(),
            Instruction::Ei => self.ei(),
            Instruction::Sphl => self.sphl(),
        }
    }

    /// The state after the instruction at the program counter: its effect, and the
    /// program counter moved on by the instruction's length unless a branch was taken.
    pub open spec fn step(self, input: u8) -> State {
        let instruction: Instruction = self.instruction();
        let after: State = self.effect(instruction, input);
        if self.takes(instruction) {
            after
        } else {
            State { pc: wrap16(after.pc + Opcode::size_of(self.opcode())), ..after }
        }
    }

    /// Only `IN` looks at the byte that the port gives, and it puts that byte in the
    /// accumulator.
    pub proof fn lemma_step_input(self, input: u8, other: u8)
        ensures
            !(self.instruction() is In) ==> self.step(input) == self.step(other),
            self.instruction() is In ==> self.step(input).a == input,
    {
        reveal(State::effect);
    }

    /// The state with both registers of a pair cleared; for `PSW`, the accumulator and
    /// all five flags.
    pub open spec fn cleared(self, pair: StackPair) -> State {
        self.with_stack_pair(pair, 0)
    }

    /// Whether both cells that a push would fill take writes.
    pub open spec fn stack_writable(self) -> bool {
        &&& !self.memory.protected(wrap16(self.sp - 1))
        &&& !self.memory.protected(wrap16(self.sp - 2))
    }

    /// A pushed word is the word on top of the stack, and the rest of the state is as
    /// it was, as long as the two stack cells take writes.
    pub proof fn lemma_pushed_word(self, value: u16)
        requires
            self.wf(),
            self.stack_writable(),
        ensures
            self.pushed(value).word_at(self.pushed(value).sp) == value,
            self.pushed(value).popped().sp == self.sp,
    {
        let upper: u16 = wrap16(self.sp - 1);
        let lower: u16 = wrap16(self.sp - 2);
        let first: Ram = self.memory.write(upper, high_byte(value));
        let second: Ram = first.write(lower, low_byte(value));
        lemma_wrap16(self.sp - 1);
        lemma_wrap16(self.sp - 2);
        lemma_wrap16(lower + 1);
        lemma_wrap16(lower + 2);
        assert(wrap16(lower + 1) == upper);
        first.lemma_cell_in_range(upper);
        first.lemma_cell_in_range(lower);
        first.lemma_write_then_read(lower, low_byte(value));
        self.memory.lemma_write_then_read(upper, high_byte(value));
        first.lemma_write_leaves_others(lower, low_byte(value), upper);
    }

    /// `PUSH` then `POP` of the same pair gives both registers of the pair back,
    /// whatever was done to them in between, and leaves the stack pointer where it
    /// was: only the two stack cells differ from the state before. This holds for all
    /// four pairs as long as the two stack cells take writes.
    pub proof fn lemma_push_pop(self, pair: StackPair)
        requires
            self.wf(),
            self.stack_writable(),
        ensures
            self.push(pair).cleared(pair).pop(pair) == (State {
                memory: self.push(pair).memory,
                ..self
            }),
    {
        let value: u16 = self.stack_pair(pair);
        self.lemma_pushed_word(value);
        let pushed: State = self.push(pair);
        let cleared: State = pushed.cleared(pair);
        assert(cleared.memory == pushed.memory);
        assert(cleared.sp == pushed.sp);
        assert(cleared.word_at(cleared.sp) == value);
        self.conditions.lemma_pack_unpack();
    }

    /// No instruction of the data transfer group touches a flag.
    pub proof fn lemma_transfer_keeps_flags(self, instruction: Instruction, input: u8)
        requires
            instruction.is_transfer(),
        ensures
            self.effect(instruction, input).conditions == self.conditions,
    {
        reveal(State::effect);
    }

    /// No jump, call, return or restart touches a flag, taken or not.
    pub proof fn lemma_branch_keeps_flags(self, instruction: Instruction, input: u8)
        requires
            instruction.is_branch(),
        ensures
            self.effect(instruction, input).conditions == self.conditions,
    {
        reveal(State::effect);
    }

    /// Of the stack and machine control group only `POP PSW` touches the flags, and
    /// the two port instructions touch none.
    pub proof fn lemma_control_keeps_flags(self, instruction: Instruction, input: u8)
        requires
            instruction.is_control() || instruction is In || instruction is Out,
            instruction != Instruction::Pop(StackPair::PSW),
        ensures
            self.effect(instruction, input).conditions == self.conditions,
    {
        reveal(State::effect);
    }

    /// `INR`, `DCR`, `INX` and `DCX` keep carry; the rotates, the carry switches and
    /// `DAD` touch no flag but carry; the complement touches none.
    pub proof fn lemma_flags_kept(self, reg: Reg, pair: Pair)
        ensures
            self.inr(reg).conditions.cy == self.conditions.cy,
            self.dcr(reg).conditions.cy == self.conditions.cy,
            self.inx(pair).conditions == self.conditions,
            self.dcx(pair).conditions == self.conditions,
            self.cma().conditions == self.conditions,
            self.dad(pair).conditions == (ConditionCodes {
                cy: self.dad(pair).conditions.cy,
                ..self.conditions
            }),
            self.rlc().conditions == (ConditionCodes { cy: self.rlc().conditions.cy, ..self.conditions }),
            self.rrc().conditions == (ConditionCodes { cy: self.rrc().conditions.cy, ..self.conditions }),
            self.ral().conditions == (ConditionCodes { cy: self.ral().conditions.cy, ..self.conditions }),
            self.rar().conditions == (ConditionCodes { cy: self.rar().conditions.cy, ..self.conditions }),
            self.stc().conditions == (ConditionCodes { cy: true, ..self.conditions }),
            self.cmc().conditions == (ConditionCodes { cy: !self.conditions.cy, ..self.conditions }),
    {
    }

    /// A comparison leaves everything but the flags, and its flags tell how the
    /// accumulator stands to the operand: zero for equal, carry for less.
    pub proof fn lemma_compare(self, operand: u8)
        ensures
            self.compare(operand) == (State {
                conditions: self.compare(operand).conditions,
                ..self
            }),
            self.compare(operand).conditions.z == (self.a == operand),
            self.compare(operand).conditions.cy == (self.a < operand),
    {
        lemma_wrap16(self.a - operand);
    }
}

} // verus!
