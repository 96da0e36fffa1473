//! A minimal register-based bytecode virtual machine.
//!
//! A program is a flat sequence of bytes. Each instruction is one opcode byte
//! followed by the operand bytes that the opcode calls for. The machine
//! decodes and executes one instruction per step against a bank of 32 signed
//! 32-bit registers.
//!
//! - `interpreter`: the opcode table.
//! - `error`: the faults of an instruction.
//! - `semantics`: the machine as a mathematical object, and what a step and
//!   a run make of it.
//! - `vm`: the machine itself, whose operations are proved to do what
//!   `semantics` says.
//! - `theorems`: what holds of every step and every run.

pub mod error;
pub mod interpreter;
pub mod semantics;
pub mod theorems;
pub mod vm;
