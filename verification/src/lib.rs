//! An instruction-level emulator of the Intel 8080 processor, and of the Space
//! Invaders board that was built around it.
//!
//! The processor is described twice. `state` holds it as a mathematical value, with
//! what every instruction does to that value; `cpu` and the modules of the
//! instruction groups hold the processor that runs, which is proved to follow the
//! description step by step. `invaders` paces a processor against the clock on the
//! wall and interrupts it at a fixed period.

pub mod arithmetic;
pub mod bits;
pub mod branch;
pub mod condition_codes;
pub mod cpu;
pub mod instruction;
pub mod invaders;
pub mod listing;
pub mod logic;
pub mod memory;
pub mod mnemonic;
pub mod num_impls;
pub mod opcode;
pub mod pointer;
pub mod ports;
pub mod register;
pub mod stack;
pub mod state;
pub mod transfer;
pub mod video;

pub use cpu::{Cpu, Machine};
pub use opcode::Opcode;
