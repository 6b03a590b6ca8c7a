//! The processor: its registers, its memory, and the step that fetches, decodes and
//! executes one instruction.

use vstd::prelude::*;
use crate::bits::{high8, join16, low8};
use crate::condition_codes::ConditionCodes;
use crate::instruction::{Instruction, Pair, Reg};
use crate::memory::{LoadError, Memory};
use crate::opcode::Opcode;
use crate::pointer::Pointer;
use crate::register::Register;
use crate::state::{Fault, PortRequest, State};

verus! {

/// An Intel 8080 processor with its 64 KB of memory.
pub struct Cpu {
    pub a: Register,
    pub b: Register,
    pub c: Register,
    pub d: Register,
    pub e: Register,
    pub h: Register,
    pub l: Register,
    pub sp: Pointer,
    pub pc: Pointer,
    pub memory: Memory,
    pub conditions: ConditionCodes,
    pub int_enable: bool,
}

/// The device behind the processor's ports, which serves `IN` and `OUT`. Whoever
/// embeds the processor supplies it.
pub trait Machine {
    /// Whether the device has an input port of this number. A device has every port
    /// unless it says otherwise.
    open spec fn reads(&self, port: u8) -> bool {
        true
    }

    /// Whether the device has an output port of this number. A device has every port
    /// unless it says otherwise.
    open spec fn writes(&self, port: u8) -> bool {
        true
    }

    /// The byte that the device gives to an `IN` from `port`, which is one of its
    /// input ports.
    fn input(&mut self, port: u8) -> u8
        requires
            old(self).reads(port),
    ;

    /// Takes the byte that an `OUT` sends to `port`, which is one of its output
    /// ports.
    fn output(&mut self, port: u8, byte: u8)
        requires
            old(self).writes(port),
    ;
}

/// Whether `machine` has the port that `request` names; a request for nothing is
/// always served.
pub open spec fn serves<M: Machine>(machine: &M, request: PortRequest) -> bool {
    match request {
        PortRequest::Idle => true,
        PortRequest::Input { port } => machine.reads(port),
        PortRequest::Output { port, .. } => machine.writes(port),
    }
}

impl View for Cpu {
    type V = State;

    open spec fn view(&self) -> State {
        State {
            a: self.a.0,
            b: self.b.0,
            c: self.c.0,
            d: self.d.0,
            e: self.e.0,
            h: self.h.0,
            l: self.l.0,
            sp: self.sp.0,
            pc: self.pc.0,
            memory: self.memory@,
            conditions: self.conditions,
            int_enable: self.int_enable,
        }
    }
}

impl Cpu {
    /// A processor in its reset state.
    pub fn new() -> (cpu: Cpu)
        ensures
            cpu@.is_reset(),
    {
        Cpu {
            a: Register(0),
            b: Register(0),
            c: Register(0),
            d: Register(0),
            e: Register(0),
            h: Register(0),
            l: Register(0),
            sp: Pointer(0),
            pc: Pointer(0),
            memory: Memory::new(),
            conditions: ConditionCodes { z: false, s: false, p: false, cy: false, ac: false },
            int_enable: false,
        }
    }

    /// The view of any processor is over a full address space.
    pub proof fn lemma_view_wf(&self)
        ensures
            self@.wf(),
    {
    }

    /// Copies a program into memory from `position` on. A block that would run past
    /// the last address is refused, and the processor is left as it was.
    pub fn load_into_rom(&mut self, memory: &[u8], position: u16) -> (loaded: Result<
        (),
        LoadError,
    >)
        ensures
            match loaded {
                Ok(()) => position + memory@.len() <= 0x10000 && final(self)@ == (State {
                    memory: old(self)@.memory.load(memory@, position),
                    ..old(self)@
                }),
                Err(error) => position + memory@.len() > 0x10000 && error == (LoadError {
                    position,
                    length: memory.len(),
                }) && final(self)@ == old(self)@,
            },
    {
        self.memory.load(memory, position)
    }

    /// The byte in memory that `HL` addresses.
    pub fn get_offset(&self) -> (value: u8)
        ensures
            value == self@.reg(Reg::M),
    {
        let offset: u16 = join16(self.h.0, self.l.0);
        self.memory.read(offset)
    }

    /// Stores `value` in the memory cell that `HL` addresses.
    pub fn set_offset(&mut self, value: u8)
        ensures
            final(self)@ == old(self)@.with_reg(Reg::M, value),
    {
        let offset: u16 = join16(self.h.0, self.l.0);
        self.memory.write(offset, value);
    }

    /// The byte that follows the opcode.
    pub fn get_d8(&self) -> (value: u8)
        ensures
            value == self@.d8(),
    {
        self.memory.read(self.pc.0.wrapping_add(1))
    }

    /// The two bytes that follow the opcode, as one value with the low byte first.
    pub fn get_d16(&self) -> (value: u16)
        ensures
            value == self@.d16(),
    {
        let high: u8 = self.memory.read(self.pc.0.wrapping_add(2));
        let low: u8 = self.memory.read(self.pc.0.wrapping_add(1));
        join16(high, low)
    }

    /// The value of an 8-bit operand.
    pub fn reg(&self, reg: Reg) -> (value: u8)
        ensures
            value == self@.reg(reg),
    {
        match reg {
            Reg::B => self.b.0,
            Reg::C => self.c.0,
            Reg::D => self.d.0,
            Reg::E => self.e.0,
            Reg::H => self.h.0,
            Reg::L => self.l.0,
            Reg::M => self.get_offset(),
            Reg::A => self.a.0,
        }
    }

    /// Stores `value` in an 8-bit operand.
    pub fn set_reg(&mut self, reg: Reg, value: u8)
        ensures
            final(self)@ == old(self)@.with_reg(reg, value),
    {
        match reg {
            Reg::B => self.b = Register(value),
            Reg::C => self.c = Register(value),
            Reg::D => self.d = Register(value),
            Reg::E => self.e = Register(value),
            Reg::H => self.h = Register(value),
            Reg::L => self.l = Register(value),
            Reg::M => self.set_offset(value),
            Reg::A => self.a = Register(value),
        }
    }

    /// The value of a register pair, the first register as the high byte.
    pub fn pair(&self, pair: Pair) -> (value: u16)
        ensures
            value == self@.pair(pair),
    {
        match pair {
            Pair::BC => join16(self.b.0, self.c.0),
            Pair::DE => join16(self.d.0, self.e.0),
            Pair::HL => join16(self.h.0, self.l.0),
            Pair::SP => self.sp.0,
        }
    }

    /// Stores `value` in a register pair, the high byte in the first register.
    pub fn set_pair(&mut self, pair: Pair, value: u16)
        ensures
            final(self)@ == old(self)@.with_pair(pair, value),
    {
        match pair {
            Pair::BC => {
                self.b = Register(high8(value));
                self.c = Register(low8(value));
            },
            Pair::DE => {
                self.d = Register(high8(value));
                self.e = Register(low8(value));
            },
            Pair::HL => {
                self.h = Register(high8(value));
                self.l = Register(low8(value));
            },
            Pair::SP => self.sp = Pointer(value),
        }
    }

    /// Pushes `value`: high byte to `sp - 1`, low byte to `sp - 2`.
    pub fn push_word(&mut self, value: u16)
        ensures
            final(self)@ == old(self)@.pushed(value),
    {
        self.memory.write(self.sp.0.wrapping_sub(1), high8(value));
        self.memory.write(self.sp.0.wrapping_sub(2), low8(value));
        self.sp = Pointer(self.sp.0.wrapping_sub(2));
    }

    /// Takes the word on top of the stack.
    pub fn pop_word(&mut self) -> (value: u16)
        ensures
            value == old(self)@.word_at(old(self)@.sp),
            final(self)@ == old(self)@.popped(),
    {
        let low: u8 = self.memory.read(self.sp.0);
        let high: u8 = self.memory.read(self.sp.0.wrapping_add(1));
        self.sp = Pointer(self.sp.0.wrapping_add(2));
        join16(high, low)
    }

    /// Executes `instruction`, which is none that stops the processor, and tells whether
    /// it set the program counter itself. `input` is the byte that the port gave, which
    /// only `IN` looks at.
    pub fn execute(&mut self, instruction: Instruction, input: u8) -> (jumped: bool)
        requires
            !instruction.stops(),
        ensures
            final(self)@ == old(self)@.effect(instruction, input),
            jumped == old(self)@.takes(instruction),
    {
        proof {
            reveal(State::effect);
        }
        match instruction {
            Instruction::Mov(_, _)
            | Instruction::Mvi(_)
            | Instruction::Lxi(_)
            | Instruction::Ldax(_)
            | Instruction::Stax(_)
            | Instruction::Shld
            | Instruction::Lhld
            | Instruction::Lda
            | Instruction::Sta
            | Instruction::Sphl
            | Instruction::Pchl
            | Instruction::Xchg
            | Instruction::Xthl => self.execute_transfer(instruction),
            Instruction::Alu(_, _)
            | Instruction::AluImmediate(_)
            | Instruction::Inr(_)
            | Instruction::Dcr(_)
            | Instruction::Inx(_)
            | Instruction::Dcx(_)
            | Instruction::Dad(_)
            | Instruction::Daa => self.execute_arithmetic(instruction),
            Instruction::Rlc
            | Instruction::Rrc
            | Instruction::Ral
            | Instruction::Rar
            | Instruction::Cma
            | Instruction::Stc
            | Instruction::Cmc => self.execute_rotate(instruction),
            Instruction::JumpIf(_)
            | Instruction::Jmp
            | Instruction::CallIf(_)
            | Instruction::Call
            | Instruction::ReturnIf(_)
            | Instruction::Ret
            | Instruction::Rst(_) => self.execute_branch(instruction),
            Instruction::Push(_)
            | Instruction::Pop(_)
            | Instruction::Ei
            | Instruction::Di
            | Instruction::Nop => self.execute_control(instruction),
            Instruction::Out => false,
            Instruction::In => {
                self.a = Register(input);
                false
            },
            Instruction::Hlt => true,
        }
    }

    /// What the instruction at the program counter asks of the device.
    pub fn port_request(&self) -> (request: PortRequest)
        ensures
            request == self@.port_request(),
    {
        match Opcode(self.memory.read(self.pc.0)).decode() {
            Instruction::In => PortRequest::Input { port: self.get_d8() },
            Instruction::Out => PortRequest::Output { port: self.get_d8(), byte: self.a.0 },
            _ => PortRequest::Idle,
        }
    }

    /// Executes the instruction at the program counter, with `input` as the byte that
    /// the port gives if the instruction is an `IN`, and returns the number of cycles
    /// that it cost. The processor must not stand at a `HLT`: `fault` tells.
    pub fn step(&mut self, input: u8) -> (cycles: u8)
        requires
            old(self)@.fault() is None,
        ensures
            final(self)@ == old(self)@.step(input),
            cycles == Opcode::cycles_of(old(self)@.opcode()),
            3 <= cycles <= 18,
    {
        let opcode: Opcode = Opcode(self.memory.read(self.pc.0));
        let jumped: bool = self.execute(opcode.decode(), input);
        if !jumped {
            self.pc = Pointer(self.pc.0.wrapping_add(opcode.size() as u16));
        }
        opcode.cycle_size()
    }

    /// Executes the instruction at the program counter and returns the number of
    /// cycles that it cost. An `IN` asks `machine` for its byte and an `OUT` hands its
    /// byte to `machine`, once, before the instruction takes effect; no other
    /// instruction calls the machine, which is then left as it was. The processor must not stand at a `HLT`, which
    /// `fault` tells, and the machine must have the port that the instruction asks
    /// for, which `port_request` names.
    ///
    /// Whatever the machine gave, the processor has made the step in which the port
    /// delivered the byte that is now in the accumulator.
    pub fn emulate<M: Machine>(&mut self, machine: &mut M) -> (cycles: u8)
        requires
            old(self)@.fault() is None,
            serves(old(machine), old(self)@.port_request()),
        ensures
            final(self)@ == old(self)@.step(final(self)@.a),
            !(old(self)@.instruction() is In) ==> (forall|input: u8|
                final(self)@ == old(self)@.step(input)),
            old(self)@.port_request() is Idle ==> *final(machine) == *old(machine),
            cycles == Opcode::cycles_of(old(self)@.opcode()),
            3 <= cycles <= 18,
    {
        let input: u8 = match self.port_request() {
            PortRequest::Idle => 0,
            PortRequest::Input { port } => machine.input(port),
            PortRequest::Output { port, byte } => {
                machine.output(port, byte);
                0
            },
        };
        let cycles: u8 = self.step(input);
        proof {
            old(self)@.lemma_step_input(input, self@.a);
            assert forall|other: u8| !(old(self)@.instruction() is In) implies self@ == old(
                self,
            )@.step(other) by {
                old(self)@.lemma_step_input(input, other);
            }
        }
        cycles
    }

    /// Executes the instruction at the program counter as `emulate` does, unless the
    /// processor stands at a `HLT`: then nothing is executed, the machine is not
    /// called, and the fault is returned. The machine must have the port that the
    /// instruction asks for.
    pub fn try_emulate<M: Machine>(&mut self, machine: &mut M) -> (result: Result<u8, Fault>)
        requires
            serves(old(machine), old(self)@.port_request()),
        ensures
            match result {
                Ok(cycles) => {
                    &&& old(self)@.fault() is None
                    &&& final(self)@ == old(self)@.step(final(self)@.a)
                    &&& !(old(self)@.instruction() is In) ==> (forall|input: u8|
                        final(self)@ == old(self)@.step(input))
                    &&& old(self)@.port_request() is Idle ==> *final(machine) == *old(machine)
                    &&& cycles == Opcode::cycles_of(old(self)@.opcode())
                },
                Err(fault) => {
                    &&& old(self)@.fault() == Some(fault)
                    &&& final(self)@ == old(self)@
                    &&& *final(machine) == *old(machine)
                },
            },
    {
        match self.fault() {
            Some(fault) => Err(fault),
            None => Ok(self.emulate(machine)),
        }
    }

    /// What stops the processor before its next instruction, if anything does: a
    /// `HLT`.
    pub fn fault(&self) -> (fault: Option<Fault>)
        ensures
            fault == self@.fault(),
    {
        match Opcode(self.memory.read(self.pc.0)).decode() {
            Instruction::Hlt => Some(Fault::Halt { address: self.pc.0 }),
            _ => None,
        }
    }
}

impl Default for Cpu {
    fn default() -> (cpu: Cpu)
        ensures
            cpu@.is_reset(),
    {
        Cpu::new()
    }
}

} // verus!
