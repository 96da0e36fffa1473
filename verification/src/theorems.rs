//! What holds of every step and of every run, whatever the program.

use crate::error::VmError;
use crate::interpreter::Opcode;
use crate::semantics::{truncated_quotient, MachineState, Transition, REGISTER_COUNT};
use crate::vm::VM;
use vstd::prelude::*;

verus! {

/// The state of every machine is well formed.
pub proof fn machine_state_is_well_formed(vm: VM)
    ensures
        vm@.well_formed(),
{
    assert(vm.registers@.len() == REGISTER_COUNT);
    assert(vm.program@.len() == vm.program.len());
}

/// Every byte above 9 stands for the illegal operation.
pub proof fn unassigned_byte_is_illegal(byte: u8)
    requires
        byte > 9,
    ensures
        Opcode::decode(byte) == Opcode::IGL,
{
}

/// A step on an illegal opcode reports a stop. It moves the program counter
/// past the opcode and changes nothing else: no register, neither flag nor
/// remainder.
pub proof fn illegal_opcode_stops(s: MachineState)
    requires
        !s.stopped(),
        Opcode::decode(s.program[s.pc]) == Opcode::IGL,
    ensures
        s.step().status == Ok::<bool, VmError>(false),
        s.step().next.registers == s.registers,
        s.step().next == s.at(s.pc + 1),
{
}

/// A step on a halt instruction reports a stop. It moves the program counter
/// past the opcode and changes nothing else.
pub proof fn halt_stops(s: MachineState)
    requires
        !s.stopped(),
        Opcode::decode(s.program[s.pc]) == Opcode::HLT,
    ensures
        s.step().status == Ok::<bool, VmError>(false),
        s.step().next == s.at(s.pc + 1),
{
}

/// A step on a stopped machine, one whose program counter is at or past the
/// end of its program, reports a stop and changes nothing. The machine is
/// then stopped as before, so this holds of every further step too.
pub proof fn stopped_machine_stays_stopped(s: MachineState)
    requires
        s.stopped(),
    ensures
        s.step().status == Ok::<bool, VmError>(false),
        s.step().next == s,
        s.step().next.stopped(),
{
}

/// A run of a stopped machine reports a stop and changes nothing, whatever
/// budget it is given.
pub proof fn run_of_stopped_machine(s: MachineState, budget: nat)
    requires
        s.stopped(),
        budget > 0,
    ensures
        s.run(budget) == (Transition { status: Ok(false), next: s }),
{
}

/// A step reports that more may follow exactly when the instruction at the
/// program counter is neither a halt nor illegal and takes effect.
pub proof fn step_continues_exactly_on_effect(s: MachineState)
    ensures
        s.step().status == Ok::<bool, VmError>(true) <==> {
            &&& !s.stopped()
            &&& Opcode::decode(s.program[s.pc]) != Opcode::HLT
            &&& Opcode::decode(s.program[s.pc]) != Opcode::IGL
            &&& s.effect(Opcode::decode(s.program[s.pc])) is Ok
        },
{
}

/// An instruction that faults leaves the machine as it was.
pub proof fn fault_changes_nothing(s: MachineState)
    requires
        s.step().status is Err,
    ensures
        s.step().next == s,
{
}

/// A step never changes the program, and it leaves a well-formed state well
/// formed: the register file keeps its size and the program counter stays
/// one that a machine can hold.
pub proof fn step_keeps_program_and_shape(s: MachineState)
    requires
        s.well_formed(),
    ensures
        s.step().next.program == s.program,
        s.step().next.well_formed(),
{
}

/// The program counter only moves forward, past the instruction just
/// executed, except on jumps: an instruction that is no jump and takes effect
/// leaves the counter behind its last operand.
pub proof fn counter_advances_except_on_jumps(s: MachineState)
    requires
        !s.stopped(),
        s.step().status is Ok,
        ({
            let op = Opcode::decode(s.program[s.pc]);
            op != Opcode::JMP && op != Opcode::JMPF && op != Opcode::JMPB
        }),
    ensures
        s.step().next.pc == s.pc + 1 + Opcode::decode(s.program[s.pc]).operand_len(),
        s.step().next.pc > s.pc,
{
}

/// Only a division writes the remainder, and what it writes is the quotient
/// that it puts into its destination register.
pub proof fn only_division_writes_remainder(s: MachineState)
    requires
        s.well_formed(),
        !s.stopped(),
    ensures
        Opcode::decode(s.program[s.pc]) != Opcode::DIV ==> s.step().next.remainder == s.remainder,
        Opcode::decode(s.program[s.pc]) == Opcode::DIV && s.step().status is Ok
            ==> s.step().next.remainder == s.step().next.registers[s.program[s.pc + 1] as int],
{
}

/// Only a comparison writes the equality flag.
pub proof fn only_comparison_writes_flag(s: MachineState)
    requires
        !s.stopped(),
        Opcode::decode(s.program[s.pc]) != Opcode::EQ,
    ensures
        s.step().next.eq == s.eq,
{
}

/// Comparisons, jumps, halts and illegal opcodes write no register.
pub proof fn only_load_and_arithmetic_write_registers(s: MachineState)
    requires
        !s.stopped(),
        ({
            let op = Opcode::decode(s.program[s.pc]);
            &&& op != Opcode::LOAD
            &&& op != Opcode::ADD
            &&& op != Opcode::SUB
            &&& op != Opcode::MUL
            &&& op != Opcode::DIV
        }),
    ensures
        s.step().next.registers == s.registers,
{
}

/// A step changes no register but the one that the byte after the opcode
/// names.
pub proof fn step_writes_one_register_at_most(s: MachineState, index: int)
    requires
        s.well_formed(),
        !s.stopped(),
        0 <= index < REGISTER_COUNT,
        s.pc + 1 >= s.program.len() || index != s.program[s.pc + 1],
    ensures
        s.step().next.registers[index] == s.registers[index],
{
}

/// The truncated quotient is the exact quotient rounded toward zero: what it
/// leaves of the dividend is smaller in magnitude than the divisor and never
/// of the sign opposite to the dividend's.
pub proof fn truncated_quotient_rounds_toward_zero(a: int, b: int)
    requires
        b != 0,
    ensures
        ({
            let rest = a - truncated_quotient(a, b) * b;
            &&& -b < rest < b || b < rest < -b
            &&& a >= 0 ==> rest >= 0
            &&& a <= 0 ==> rest <= 0
        }),
{
    let q = truncated_quotient(a, b);
    if a >= 0 && b > 0 {
        vstd::arithmetic::div_mod::lemma_fundamental_div_mod(a, b);
        assert(q * b == b * (a / b)) by (nonlinear_arith)
            requires
                q == a / b,
        ;
    } else if a >= 0 {
        vstd::arithmetic::div_mod::lemma_fundamental_div_mod(a, -b);
        assert(q * b == (-b) * (a / (-b))) by (nonlinear_arith)
            requires
                q == -(a / (-b)),
        ;
    } else if b > 0 {
        vstd::arithmetic::div_mod::lemma_fundamental_div_mod(-a, b);
        assert(q * b == -(b * ((-a) / b))) by (nonlinear_arith)
            requires
                q == -((-a) / b),
        ;
    } else {
        vstd::arithmetic::div_mod::lemma_fundamental_div_mod(-a, -b);
        assert(q * b == -((-b) * ((-a) / (-b)))) by (nonlinear_arith)
            requires
                q == (-a) / (-b),
        ;
    }
}

/// No instruction reads the equality flag or the remainder: with other
/// values in them a step reports the same, and leaves the same registers and
/// the same program counter.
pub proof fn flag_and_remainder_are_never_read(s: MachineState, eq: bool, remainder: i32)
    ensures
        ({
            let other = MachineState { eq, remainder, ..s };
            &&& other.step().status == s.step().status
            &&& other.step().next.registers == s.step().next.registers
            &&& other.step().next.pc == s.step().next.pc
        }),
{
}

/// A run that has stopped or faulted within its budget ends the same with
/// any larger budget.
pub proof fn finished_run_ignores_further_budget(s: MachineState, budget: nat, larger: nat)
    requires
        budget <= larger,
        s.run(budget).status != Ok::<bool, VmError>(true),
    ensures
        s.run(larger) == s.run(budget),
    decreases budget,
{
    if budget > 0 {
        let first = s.step();
        if first.status == Ok::<bool, VmError>(true) {
            finished_run_ignores_further_budget(
                first.next,
                (budget - 1) as nat,
                (larger - 1) as nat,
            );
        }
    }
}

/// A run does not change the program, and it leaves a well-formed state well
/// formed.
pub proof fn run_keeps_program_and_shape(s: MachineState, budget: nat)
    requires
        s.well_formed(),
    ensures
        s.run(budget).next.program == s.program,
        s.run(budget).next.well_formed(),
    decreases budget,
{
    if budget > 0 {
        step_keeps_program_and_shape(s);
        let first = s.step();
        if first.status == Ok::<bool, VmError>(true) {
            run_keeps_program_and_shape(first.next, (budget - 1) as nat);
        }
    }
}

} // verus!
