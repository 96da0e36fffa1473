//! The virtual machine: the register file, the program counter and the
//! decode-and-execute loop.

use crate::error::VmError;
use crate::interpreter::Opcode;
use crate::semantics::{as_index, arithmetic, MachineState, REGISTER_COUNT};
use vstd::prelude::*;

verus! {

/// The steps that `VM::run` takes at most.
pub const STEP_LIMIT: u64 = u64::MAX;

/// A machine with its program. All of its state is open to the caller, who
/// loads a program by replacing `program`, may set registers beforehand, and
/// reads the registers, the flag, the remainder and the counter afterwards.
#[derive(Debug, PartialEq, Eq)]
pub struct VM {
    pub registers: [i32; REGISTER_COUNT],
    pub pc: usize,
    pub program: Vec<u8>,
    pub remainder: i32,
    pub eq: bool,
}

impl View for VM {
    type V = MachineState;

    open spec fn view(&self) -> MachineState {
        MachineState {
            registers: self.registers@,
            pc: self.pc as int,
            program: self.program@,
            remainder: self.remainder,
            eq: self.eq,
        }
    }
}

impl Clone for VM {
    fn clone(&self) -> (copy: VM)
        ensures
            copy@ == self@,
    {
        let copy = VM {
            registers: self.registers,
            pc: self.pc,
            program: self.program.clone(),
            remainder: self.remainder,
            eq: self.eq,
        };
        assert(copy@.program =~= self@.program);
        copy
    }
}

/// The register that an operand byte names.
fn register_index(operand: u8) -> (index: Result<usize, VmError>)
    ensures
        operand < REGISTER_COUNT ==> index == Ok::<usize, VmError>(operand as usize),
        operand >= REGISTER_COUNT ==> index == Err::<usize, VmError>(VmError::InvalidRegister),
{
    if (operand as usize) < REGISTER_COUNT {
        Ok(operand as usize)
    } else {
        Err(VmError::InvalidRegister)
    }
}

/// A register value as a jump distance or target.
fn jump_index(value: i32) -> (index: usize)
    ensures
        index == as_index(value),
{
    if value >= 0 {
        value as usize
    } else {
        usize::MAX - ((-(value + 1)) as usize)
    }
}

/// Carries out `ADD`, `SUB`, `MUL` or `DIV` on two register values.
fn compute(op: Opcode, a: i32, b: i32) -> (value: Result<i32, VmError>)
    requires
        op == Opcode::ADD || op == Opcode::SUB || op == Opcode::MUL || op == Opcode::DIV,
    ensures
        value == arithmetic(op, a, b),
{
    let exact = match op {
        Opcode::ADD => a.checked_add(b),
        Opcode::SUB => a.checked_sub(b),
        Opcode::MUL => a.checked_mul(b),
        _ => {
            if b == 0 {
                return Err(VmError::DivisionByZero);
            }
            a.checked_div(b)
        },
    };
    match exact {
        Some(value) => Ok(value),
        None => Err(VmError::ArithmeticOverflow),
    }
}

impl VM {
    /// A machine with all registers zero, no program, and the counter at
    /// the start.
    pub fn new() -> (vm: VM)
        ensures
            vm@ == MachineState::initial(),
    {
        let vm = VM {
            registers: [0; REGISTER_COUNT],
            program: Vec::new(),
            pc: 0,
            remainder: 0,
            eq: false,
        };
        assert(vm@.registers =~= MachineState::initial().registers);
        assert(vm@.program =~= MachineState::initial().program);
        vm
    }

    /// Reads the byte at the program counter and moves the counter past it.
    /// With no byte left, nothing changes and the fault is `OutOfBounds`.
    pub fn next_8_bits(&mut self) -> (byte: Result<u8, VmError>)
        ensures
            match byte {
                Ok(value) => {
                    &&& !old(self)@.stopped()
                    &&& value == old(self)@.program[old(self)@.pc]
                    &&& final(self)@ == old(self)@.at(old(self)@.pc + 1)
                },
                Err(fault) => {
                    &&& old(self)@.stopped()
                    &&& fault == VmError::OutOfBounds
                    &&& final(self)@ == old(self)@
                },
            },
    {
        if self.pc >= self.program.len() {
            return Err(VmError::OutOfBounds);
        }
        let result = self.program[self.pc];
        self.pc += 1;
        Ok(result)
    }

    /// Reads the two bytes at the program counter as one number, high byte
    /// first, and moves the counter past them. With fewer than two bytes
    /// left, nothing changes and the fault is `OutOfBounds`.
    pub fn next_16_bits(&mut self) -> (number: Result<u16, VmError>)
        ensures
            match number {
                Ok(value) => {
                    &&& old(self)@.pc + 2 <= old(self)@.program.len()
                    &&& value == old(self)@.immediate_at(old(self)@.pc)
                    &&& final(self)@ == old(self)@.at(old(self)@.pc + 2)
                },
                Err(fault) => {
                    &&& old(self)@.pc + 2 > old(self)@.program.len()
                    &&& fault == VmError::OutOfBounds
                    &&& final(self)@ == old(self)@
                },
            },
    {
        if self.pc >= self.program.len() || self.program.len() - self.pc < 2 {
            return Err(VmError::OutOfBounds);
        }
        let high = self.program[self.pc];
        let low = self.program[self.pc + 1];
        let result = (high as u16) << 8 | low as u16;
        assert(((high as u16) << 8 | low as u16) == high * 256 + low) by (bit_vector);
        self.pc += 2;
        Ok(result)
    }

    /// Runs the program from the program counter on: one step after the
    /// other until a step reports a stop or a fault, or `STEP_LIMIT` steps
    /// have been taken. `Ok(false)`: the program has stopped; `Ok(true)`: the
    /// limit was reached with the program still running.
    pub fn run(&mut self) -> (status: Result<bool, VmError>)
        ensures
            status == old(self)@.run(STEP_LIMIT as nat).status,
            final(self)@ == old(self)@.run(STEP_LIMIT as nat).next,
    {
        self.run_bounded(STEP_LIMIT)
    }

    /// Runs the program from the program counter on, for at most `max_steps`
    /// steps: one step after the other until a step reports a stop or a
    /// fault, or the steps are spent. `Ok(false)`: the program has stopped;
    /// `Ok(true)`: the steps are spent with the program still running.
    pub fn run_bounded(&mut self, max_steps: u64) -> (status: Result<bool, VmError>)
        ensures
            status == old(self)@.run(max_steps as nat).status,
            final(self)@ == old(self)@.run(max_steps as nat).next,
    {
        let mut remaining = max_steps;
        while remaining > 0
            invariant
                self@.run(remaining as nat) == old(self)@.run(max_steps as nat),
            decreases remaining,
        {
            let status = self.run_opcode();
            match status {
                Ok(true) => {
                    remaining -= 1;
                },
                _ => {
                    return status;
                },
            }
        }
        Ok(true)
    }

    /// Takes one step: decodes the instruction at the program counter and
    /// executes it. `Ok(true)`: more steps may follow. `Ok(false)`: the
    /// machine has stopped, on `HLT`, on an illegal opcode, or because the
    /// counter is at or past the end of the program. `Err(fault)`: the
    /// instruction faulted and the machine is as it was.
    pub fn execute_once(&mut self) -> (status: Result<bool, VmError>)
        ensures
            status == old(self)@.step().status,
            final(self)@ == old(self)@.step().next,
    {
        self.run_opcode()
    }

    /// The step itself. A stopped machine is left alone; otherwise the opcode
    /// is decoded and the instruction executed, and the program counter is
    /// put back where it was if the instruction faults.
    fn run_opcode(&mut self) -> (status: Result<bool, VmError>)
        ensures
            status == old(self)@.step().status,
            final(self)@ == old(self)@.step().next,
    {
        if self.pc >= self.program.len() {
            return Ok(false);
        }
        let start = self.pc;
        let opcode = self.decode_opcode();
        let status = self.execute(opcode);
        if status.is_err() {
            self.pc = start;
        }
        status
    }

    /// Executes the instruction whose opcode byte, just before the program
    /// counter, stands for `opcode`: reads its operands and carries it out.
    /// On a fault only the program counter may have moved.
    fn execute(&mut self, opcode: Opcode) -> (status: Result<bool, VmError>)
        requires
            1 <= old(self).pc <= old(self).program.len(),
        ensures
            match old(self)@.at(old(self)@.pc - 1).effect(opcode) {
                Ok(next) => {
                    &&& status == Ok::<bool, VmError>(
                        opcode != Opcode::HLT && opcode != Opcode::IGL,
                    )
                    &&& final(self)@ == next
                },
                Err(fault) => {
                    &&& status == Err::<bool, VmError>(fault)
                    &&& final(self)@ == old(self)@.at(final(self)@.pc)
                },
            },
    {
        match opcode {
            Opcode::LOAD => {
                let register = self.next_8_bits()?;
                let number = self.next_16_bits()?;
                let register = register_index(register)?;
                self.registers[register] = number as i32;
            },
            Opcode::ADD | Opcode::SUB | Opcode::MUL | Opcode::DIV => {
                let register = self.next_8_bits()?;
                let register1 = self.next_8_bits()?;
                let register2 = self.next_8_bits()?;
                let register = register_index(register)?;
                let register1 = register_index(register1)?;
                let register2 = register_index(register2)?;
                let number = compute(
                    opcode,
                    self.registers[register1],
                    self.registers[register2],
                )?;
                self.registers[register] = number;
                if opcode == Opcode::DIV {
                    self.remainder = number;
                }
            },
            Opcode::EQ => {
                let register1 = self.next_8_bits()?;
                let register2 = self.next_8_bits()?;
                let _ = self.next_8_bits()?;
                let register1 = register_index(register1)?;
                let register2 = register_index(register2)?;
                self.eq = self.registers[register1] == self.registers[register2];
            },
            Opcode::JMP => {
                let register = self.next_8_bits()?;
                let register = register_index(register)?;
                self.pc = jump_index(self.registers[register]);
            },
            Opcode::JMPF => {
                let register = self.next_8_bits()?;
                let register = register_index(register)?;
                match self.pc.checked_add(jump_index(self.registers[register])) {
                    Some(target) => {
                        self.pc = target;
                    },
                    None => {
                        return Err(VmError::CounterOverflow);
                    },
                }
            },
            Opcode::JMPB => {
                let register = self.next_8_bits()?;
                let register = register_index(register)?;
                match self.pc.checked_sub(jump_index(self.registers[register])) {
                    Some(target) => {
                        self.pc = target;
                    },
                    None => {
                        return Err(VmError::CounterUnderflow);
                    },
                }
            },
            Opcode::HLT => {
                return Ok(false);
            },
            Opcode::IGL => {
                return Ok(false);
            },
        }
        Ok(true)
    }

    /// Decodes the byte at the program counter and moves the counter past it.
    fn decode_opcode(&mut self) -> (opcode: Opcode)
        requires
            !old(self)@.stopped(),
        ensures
            opcode == Opcode::decode(old(self)@.program[old(self)@.pc]),
            final(self)@ == old(self)@.at(old(self)@.pc + 1),
    {
        let opcode = Opcode::from(self.program[self.pc]);
        assert(self.pc < self.program.len());
        self.pc += 1;
        opcode
    }
}

} // verus!
