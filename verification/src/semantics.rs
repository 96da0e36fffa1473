//! The machine as a mathematical object: its state, and what one
//! instruction makes of it.

use crate::error::VmError;
use crate::interpreter::Opcode;
use vstd::prelude::*;

verus! {

/// Number of registers of the machine.
pub const REGISTER_COUNT: usize = 32;

/// Everything a machine holds, as plain mathematical values.
pub struct MachineState {
    /// The register file, `REGISTER_COUNT` values long.
    pub registers: Seq<i32>,
    /// Index into `program` of the next byte to decode.
    pub pc: int,
    /// The loaded bytecode.
    pub program: Seq<u8>,
    /// The quotient of the last division.
    pub remainder: i32,
    /// The outcome of the last comparison.
    pub eq: bool,
}

/// What a step, or a run of steps, leaves behind.
pub struct Transition {
    /// `Ok(true)`: more steps may follow. `Ok(false)`: execution has
    /// stopped. `Err(e)`: the instruction at the program counter faulted.
    pub status: Result<bool, VmError>,
    /// The state afterwards.
    pub next: MachineState,
}

/// A register value read as an unsigned index: itself when it is not
/// negative, else its two's complement in the width of `usize`.
pub open spec fn as_index(value: i32) -> int {
    if value >= 0 {
        value as int
    } else {
        value + usize::MAX + 1
    }
}

/// The quotient of `a` by `b`, rounded toward zero.
pub open spec fn truncated_quotient(a: int, b: int) -> int
    recommends
        b != 0,
{
    if a >= 0 && b > 0 {
        a / b
    } else if a >= 0 {
        -(a / (-b))
    } else if b > 0 {
        -((-a) / b)
    } else {
        (-a) / (-b)
    }
}

/// What an arithmetic operation makes of two register values: the exact
/// result where a register can hold it.
pub open spec fn arithmetic(op: Opcode, a: i32, b: i32) -> Result<i32, VmError>
    recommends
        op == Opcode::ADD || op == Opcode::SUB || op == Opcode::MUL || op == Opcode::DIV,
{
    if op == Opcode::DIV && b == 0 {
        Err(VmError::DivisionByZero)
    } else {
        let exact = match op {
            Opcode::ADD => a + b,
            Opcode::SUB => a - b,
            Opcode::MUL => a * b,
            _ => truncated_quotient(a as int, b as int),
        };
        if i32::MIN <= exact <= i32::MAX {
            Ok(exact as i32)
        } else {
            Err(VmError::ArithmeticOverflow)
        }
    }
}

impl MachineState {
    /// The state of a machine that has just been made: all registers zero,
    /// no program, counter at the start.
    pub open spec fn initial() -> MachineState {
        MachineState {
            registers: Seq::new(REGISTER_COUNT as nat, |i: int| 0i32),
            pc: 0,
            program: Seq::empty(),
            remainder: 0,
            eq: false,
        }
    }

    /// What holds of the state of every machine: the register file has its
    /// fixed size, and counter and program length are ones a machine can hold.
    pub open spec fn well_formed(self) -> bool {
        &&& self.registers.len() == REGISTER_COUNT
        &&& 0 <= self.pc <= usize::MAX
        &&& self.program.len() <= usize::MAX
    }

    /// No instruction starts at the program counter: it is at or past the
    /// end of the program.
    pub open spec fn stopped(self) -> bool {
        self.pc >= self.program.len()
    }

    /// The same state with the program counter at `pc`.
    pub open spec fn at(self, pc: int) -> MachineState {
        MachineState { pc, ..self }
    }

    /// The same state with `value` in register `index`.
    pub open spec fn with_register(self, index: int, value: i32) -> MachineState {
        MachineState { registers: self.registers.update(index, value), ..self }
    }

    /// The 16-bit number whose high byte is at `position` in the program and
    /// whose low byte follows it.
    pub open spec fn immediate_at(self, position: int) -> int {
        self.program[position] * 256 + self.program[position + 1]
    }

    /// The state that the instruction at the program counter leaves, where
    /// that instruction is `op`, or the fault that keeps it from taking
    /// effect.
    ///
    /// A truncated instruction is `OutOfBounds` whatever its operands hold; a
    /// register operand out of range is `InvalidRegister` whatever the
    /// registers hold; the faults of the operation itself come last.
    pub open spec fn effect(self, op: Opcode) -> Result<MachineState, VmError>
        recommends
            0 <= self.pc < self.program.len(),
    {
        let first = self.pc + 1;
        let after = first + op.operand_len();
        if after > self.program.len() {
            Err(VmError::OutOfBounds)
        } else {
            match op {
                Opcode::HLT | Opcode::IGL => Ok(self.at(after)),
                Opcode::LOAD => {
                    let dest = self.program[first];
                    if dest >= REGISTER_COUNT {
                        Err(VmError::InvalidRegister)
                    } else {
                        Ok(
                            self.with_register(
                                dest as int,
                                self.immediate_at(first + 1) as i32,
                            ).at(after),
                        )
                    }
                },
                Opcode::ADD | Opcode::SUB | Opcode::MUL | Opcode::DIV => {
                    let dest = self.program[first];
                    let left = self.program[first + 1];
                    let right = self.program[first + 2];
                    if dest >= REGISTER_COUNT || left >= REGISTER_COUNT
                        || right >= REGISTER_COUNT {
                        Err(VmError::InvalidRegister)
                    } else {
                        match arithmetic(
                            op,
                            self.registers[left as int],
                            self.registers[right as int],
                        ) {
                            Ok(value) => Ok(
                                MachineState {
                                    remainder: if op == Opcode::DIV {
                                        value
                                    } else {
                                        self.remainder
                                    },
                                    ..self.with_register(dest as int, value).at(after)
                                },
                            ),
                            Err(fault) => Err(fault),
                        }
                    }
                },
                Opcode::EQ => {
                    let left = self.program[first];
                    let right = self.program[first + 1];
                    if left >= REGISTER_COUNT || right >= REGISTER_COUNT {
                        Err(VmError::InvalidRegister)
                    } else {
                        Ok(
                            MachineState {
                                eq: self.registers[left as int] == self.registers[right as int],
                                ..self.at(after)
                            },
                        )
                    }
                },
                Opcode::JMP => {
                    let source = self.program[first];
                    if source >= REGISTER_COUNT {
                        Err(VmError::InvalidRegister)
                    } else {
                        Ok(self.at(as_index(self.registers[source as int])))
                    }
                },
                Opcode::JMPF => {
                    let source = self.program[first];
                    if source >= REGISTER_COUNT {
                        Err(VmError::InvalidRegister)
                    } else {
                        let target = after + as_index(self.registers[source as int]);
                        if target > usize::MAX {
                            Err(VmError::CounterOverflow)
                        } else {
                            Ok(self.at(target))
                        }
                    }
                },
                Opcode::JMPB => {
                    let source = self.program[first];
                    if source >= REGISTER_COUNT {
                        Err(VmError::InvalidRegister)
                    } else {
                        let target = after - as_index(self.registers[source as int]);
                        if target < 0 {
                            Err(VmError::CounterUnderflow)
                        } else {
                            Ok(self.at(target))
                        }
                    }
                },
            }
        }
    }

    /// One step of the machine.
    ///
    /// A stopped machine stays as it is and reports a stop. Otherwise the
    /// byte at the program counter is decoded and the instruction executed:
    /// `HLT` and `IGL` move the counter past the opcode and report a stop,
    /// every other instruction takes effect and reports that more may follow.
    /// An instruction that faults leaves the state as it was.
    pub open spec fn step(self) -> Transition {
        if self.stopped() {
            Transition { status: Ok(false), next: self }
        } else {
            let op = Opcode::decode(self.program[self.pc]);
            match self.effect(op) {
                Ok(next) => Transition {
                    status: Ok(op != Opcode::HLT && op != Opcode::IGL),
                    next,
                },
                Err(fault) => Transition { status: Err(fault), next: self },
            }
        }
    }

    /// At most `budget` steps, one after the other, up to and including the
    /// first that does not report that more may follow. With the budget spent
    /// the state reached so far is reported as one that more may follow.
    pub open spec fn run(self, budget: nat) -> Transition
        decreases budget,
    {
        if budget == 0 {
            Transition { status: Ok(true), next: self }
        } else {
            let first = self.step();
            if first.status == Ok::<bool, VmError>(true) {
                first.next.run((budget - 1) as nat)
            } else {
                first
            }
        }
    }
}

} // verus!
