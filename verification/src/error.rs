//! The faults that stop an instruction before it takes effect.

use vstd::prelude::*;

verus! {

/// Why an instruction could not be carried out.
#[derive(Debug, Clone, Copy, PartialEq, Eq, Structural)]
pub enum VmError {
    /// The program ends before the last operand byte of the instruction.
    OutOfBounds,
    /// An operand names a register at or beyond the register count.
    InvalidRegister,
    /// `DIV` with a divisor register holding zero.
    DivisionByZero,
    /// `JMPB` by more than the program counter holds.
    CounterUnderflow,
    /// `JMPF` to a position that no program counter can hold.
    CounterOverflow,
    /// The result of `ADD`, `SUB`, `MUL` or `DIV` does not fit a register.
    ArithmeticOverflow,
}

} // verus!
