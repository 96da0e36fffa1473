//! The opcode table: which operation each byte stands for.

use vstd::prelude::*;

verus! {

/// The operations of the instruction set. `IGL` stands for every byte that
/// names no operation.
#[derive(Debug, Clone, Copy, PartialEq, Eq, Structural)]
pub enum Opcode {
    HLT,
    IGL,
    LOAD,
    ADD,
    MUL,
    DIV,
    SUB,
    EQ,
    JMP,
    JMPF,
    JMPB,
}

impl Opcode {
    /// The operation that `byte` stands for. Every byte stands for exactly
    /// one operation; the bytes above 9 all stand for `IGL`.
    pub open spec fn decode(byte: u8) -> Opcode {
        if byte == 0 {
            Opcode::HLT
        } else if byte == 1 {
            Opcode::LOAD
        } else if byte == 2 {
            Opcode::ADD
        } else if byte == 3 {
            Opcode::SUB
        } else if byte == 4 {
            Opcode::MUL
        } else if byte == 5 {
            Opcode::DIV
        } else if byte == 6 {
            Opcode::EQ
        } else if byte == 7 {
            Opcode::JMP
        } else if byte == 8 {
            Opcode::JMPF
        } else if byte == 9 {
            Opcode::JMPB
        } else {
            Opcode::IGL
        }
    }

    /// How many operand bytes follow the opcode byte in the program.
    pub open spec fn operand_len(self) -> nat {
        match self {
            Opcode::HLT | Opcode::IGL => 0,
            Opcode::JMP | Opcode::JMPF | Opcode::JMPB => 1,
            Opcode::LOAD | Opcode::ADD | Opcode::SUB | Opcode::MUL | Opcode::DIV | Opcode::EQ => 3,
        }
    }
}

impl From<u8> for Opcode {
    fn from(v: u8) -> (op: Opcode) {
        match v {
            0 => Opcode::HLT,
            1 => Opcode::LOAD,
            2 => Opcode::ADD,
            3 => Opcode::SUB,
            4 => Opcode::MUL,
            5 => Opcode::DIV,
            6 => Opcode::EQ,
            7 => Opcode::JMP,
            8 => Opcode::JMPF,
            9 => Opcode::JMPB,
            _ => Opcode::IGL,
        }
    }
}

impl vstd::std_specs::convert::FromSpecImpl<u8> for Opcode {
    open spec fn obeys_from_spec() -> bool {
        true
    }

    open spec fn from_spec(v: u8) -> Opcode {
        Opcode::decode(v)
    }
}

/// A decoded instruction: the operation alone. The operands stay in the
/// program and are read as the operation executes.
pub struct Instruction {
    pub opcode: Opcode,
}

impl Instruction {
    pub fn new(opcode: Opcode) -> (instruction: Instruction)
        ensures
            instruction.opcode == opcode,
    {
        Instruction { opcode }
    }
}

} // verus!
