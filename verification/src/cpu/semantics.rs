//! What one instruction and one tick do to the machine, as functions from
//! the state before to the state after and the cycles consumed.
//!
//! `execute` gives the meaning of every opcode from the instruction table;
//! `step` gives the meaning of a tick: a pending reset, then a pending
//! non-maskable interrupt, then a pending and unmasked interrupt request
//! are served before anything is fetched.
use crate::cpu::addressing::{operand_value, target};
use crate::cpu::alu::{is_negative, is_odd, rotated_left, rotated_right, signed};
use crate::cpu::bus::{read_byte, read_word, write_byte};
use crate::cpu::decode::{decode, Decoded, Mode, Operation, BASE_CYCLES};
use crate::cpu::status::Status;
use crate::cpu::{CPU, IRQ_VECTOR, NMI_VECTOR, RESET_VECTOR};
use crate::system::SystemView;
use crate::word::{page, word, wrap16, wrap8};
use vstd::prelude::*;

verus! {

/// The machine after a step, and the cycles that the step consumed.
pub struct Outcome {
    pub cpu: CPU,
    pub sys: SystemView,
    pub cycles: u64,
}

/// The outcome made of its three parts.
pub open spec fn outcome(cpu: CPU, sys: SystemView, cycles: u64) -> Outcome {
    Outcome { cpu, sys, cycles }
}

/// A cycle count with one more cycle when a page boundary was crossed.
pub open spec fn with_penalty(cycles: u64, crossed: bool) -> u64 {
    if crossed {
        (cycles + 1) as u64
    } else {
        cycles
    }
}

impl CPU {
    /// This processor with the program counter at `pc`.
    pub open spec fn at(self, pc: u16) -> CPU {
        CPU { pc, ..self }
    }

    /// This processor with the program counter moved on by `length` bytes,
    /// wrapping at the top of the address space.
    pub open spec fn advanced(self, length: u16) -> CPU {
        self.at(wrap16(self.pc + length))
    }
}

/// What an operation that reads its operand does to the registers, given
/// the value `m` of the operand.
pub open spec fn read_effect(operation: Operation, cpu: CPU, m: u8) -> CPU {
    match operation {
        Operation::Adc => cpu.added(m),
        Operation::Sbc => cpu.subtracted(m),
        Operation::And => cpu.with_a(cpu.a & m),
        Operation::Ora => cpu.with_a(cpu.a | m),
        Operation::Eor => cpu.with_a(cpu.a ^ m),
        Operation::Cmp => cpu.compared(cpu.a, m),
        Operation::Cpx => cpu.compared(cpu.x, m),
        Operation::Cpy => cpu.compared(cpu.y, m),
        Operation::Bit => cpu.bit_tested(m),
        Operation::Lda => cpu.with_a(m),
        Operation::Ldx => cpu.with_x(m),
        Operation::Ldy => cpu.with_y(m),
        _ => cpu,
    }
}

/// The register that a store writes to memory.
pub open spec fn stored_value(operation: Operation, cpu: CPU) -> u8 {
    match operation {
        Operation::Sta => cpu.a,
        Operation::Stx => cpu.x,
        Operation::Sty => cpu.y,
        _ => 0,
    }
}

/// The result of an operation that changes a byte in place. A shift moves
/// a zero in, a rotate the carry.
pub open spec fn modify_result(operation: Operation, value: u8, carry: bool) -> u8 {
    match operation {
        Operation::Asl => rotated_left(value, false),
        Operation::Rol => rotated_left(value, carry),
        Operation::Lsr => rotated_right(value, false),
        Operation::Ror => rotated_right(value, carry),
        Operation::Inc => wrap8(value + 1),
        Operation::Dec => wrap8(value - 1),
        _ => value,
    }
}

/// The carry after an operation that changes a byte in place. Shifts and
/// rotates put the bit that left the byte into the carry; increment and
/// decrement leave the carry alone.
pub open spec fn modify_carry(operation: Operation, value: u8, carry: bool) -> bool {
    match operation {
        Operation::Asl | Operation::Rol => is_negative(value),
        Operation::Lsr | Operation::Ror => is_odd(value),
        _ => carry,
    }
}

/// What a one-byte operation on registers and flags does. Transfers and
/// counters set zero and negative from the value they produce, except the
/// transfer to the stack pointer, which sets no flag.
pub open spec fn implied_effect(operation: Operation, cpu: CPU) -> CPU {
    match operation {
        Operation::Clc => cpu.with_carry(false),
        Operation::Sec => cpu.with_carry(true),
        Operation::Cld => cpu.with_status(Status { decimal_mode: false, ..cpu.status }),
        Operation::Sed => cpu.with_status(Status { decimal_mode: true, ..cpu.status }),
        Operation::Cli => cpu.with_status(Status { interrupt_disable: false, ..cpu.status }),
        Operation::Sei => cpu.with_status(Status { interrupt_disable: true, ..cpu.status }),
        Operation::Clv => cpu.with_status(Status { overflow: false, ..cpu.status }),
        Operation::Dex => cpu.with_x(wrap8(cpu.x - 1)),
        Operation::Dey => cpu.with_y(wrap8(cpu.y - 1)),
        Operation::Inx => cpu.with_x(wrap8(cpu.x + 1)),
        Operation::Iny => cpu.with_y(wrap8(cpu.y + 1)),
        Operation::Tax => cpu.with_x(cpu.a),
        Operation::Tay => cpu.with_y(cpu.a),
        Operation::Txa => cpu.with_a(cpu.x),
        Operation::Tya => cpu.with_a(cpu.y),
        Operation::Tsx => cpu.with_x(cpu.sp),
        Operation::Txs => CPU { sp: cpu.x, ..cpu },
        _ => cpu,
    }
}

/// Whether a branch is taken under the given flags.
pub open spec fn branch_taken(operation: Operation, status: Status) -> bool {
    match operation {
        Operation::Bcc => !status.carry,
        Operation::Bcs => status.carry,
        Operation::Beq => status.zero,
        Operation::Bne => !status.zero,
        Operation::Bmi => status.negative,
        Operation::Bpl => !status.negative,
        Operation::Bvc => !status.overflow,
        Operation::Bvs => status.overflow,
        _ => false,
    }
}

/// Where a branch at `pc` with the given operand leads: the operand is a
/// signed distance from the instruction after the branch.
pub open spec fn branch_destination(pc: u16, operand: u8) -> u16 {
    wrap16(pc + 2 + signed(operand))
}

/// An instruction that reads its operand: the registers change by the
/// operation, the program counter moves past the instruction, and crossing
/// a page boundary on the way to the operand costs one cycle.
pub open spec fn execute_read(
    cpu: CPU,
    sys: SystemView,
    row: Decoded,
    operand: u8,
    operand2: u8,
) -> Outcome {
    let place = target(cpu, sys, row.mode, operand, operand2);
    let m = operand_value(cpu, sys, row.mode, operand, operand2);
    Outcome {
        cpu: read_effect(row.operation, cpu, m).advanced(row.length),
        sys,
        cycles: with_penalty(row.cycles, place.crossed),
    }
}

/// An instruction that stores a register at the effective address.
pub open spec fn execute_store(
    cpu: CPU,
    sys: SystemView,
    row: Decoded,
    operand: u8,
    operand2: u8,
) -> Outcome {
    let place = target(cpu, sys, row.mode, operand, operand2);
    Outcome {
        cpu: cpu.advanced(row.length),
        sys: write_byte(sys, place.address as int, stored_value(row.operation, cpu)),
        cycles: with_penalty(row.cycles, place.crossed),
    }
}

/// The processor after the result of an in-place operation was put where
/// the operand came from and zero and negative were set from it: only an
/// operation on the accumulator changes a register.
pub open spec fn written_cpu(cpu: CPU, mode: Mode, result: u8) -> CPU {
    if mode == Mode::Accumulator {
        CPU { a: result, ..cpu }.with_zn(result)
    } else {
        cpu.with_zn(result)
    }
}

/// The machine after the result of an in-place operation was put where the
/// operand came from: an operation on memory writes the byte at `address`.
pub open spec fn written_sys(sys: SystemView, mode: Mode, address: u16, result: u8) -> SystemView {
    if mode == Mode::Accumulator {
        sys
    } else {
        write_byte(sys, address as int, result)
    }
}

/// An instruction that changes its operand in place: the accumulator, or
/// the byte at the effective address, which is read, changed and written
/// back. Zero and negative are set from the result.
pub open spec fn execute_modify(
    cpu: CPU,
    sys: SystemView,
    row: Decoded,
    operand: u8,
    operand2: u8,
) -> Outcome {
    let place = target(cpu, sys, row.mode, operand, operand2);
    let value = operand_value(cpu, sys, row.mode, operand, operand2);
    let result = modify_result(row.operation, value, cpu.status.carry);
    let carry = modify_carry(row.operation, value, cpu.status.carry);
    Outcome {
        cpu: written_cpu(cpu.with_carry(carry), row.mode, result).advanced(row.length),
        sys: written_sys(sys, row.mode, place.address, result),
        cycles: with_penalty(row.cycles, place.crossed),
    }
}

/// A one-byte instruction on registers and flags, the no-operation among them.
pub open spec fn execute_implied(cpu: CPU, sys: SystemView, row: Decoded) -> Outcome {
    Outcome {
        cpu: implied_effect(row.operation, cpu).advanced(row.length),
        sys,
        cycles: row.cycles,
    }
}

/// A branch. Not taken, it moves on to the next instruction at the base
/// cost. Taken, it costs one cycle more, and one more again when the
/// destination lies on another page than the branch itself.
pub open spec fn execute_branch(cpu: CPU, sys: SystemView, row: Decoded, operand: u8) -> Outcome {
    if branch_taken(row.operation, cpu.status) {
        let destination = branch_destination(cpu.pc, operand);
        Outcome {
            cpu: cpu.at(destination),
            sys,
            cycles: with_penalty(
                (row.cycles + 1) as u64,
                page(destination as int) != page(cpu.pc as int),
            ),
        }
    } else {
        Outcome { cpu: cpu.advanced(row.length), sys, cycles: row.cycles }
    }
}

/// A push or a pull of the accumulator or of the status byte.
pub open spec fn execute_stack(cpu: CPU, sys: SystemView, row: Decoded) -> Outcome {
    match row.operation {
        Operation::Pha => {
            let (after, ram) = cpu.pushed(sys.ram, cpu.a);
            Outcome { cpu: after.advanced(row.length), sys: sys.with_ram(ram), cycles: row.cycles }
        },
        Operation::Php => {
            let (after, ram) = cpu.pushed(sys.ram, cpu.status.byte());
            Outcome { cpu: after.advanced(row.length), sys: sys.with_ram(ram), cycles: row.cycles }
        },
        Operation::Pla => {
            let (after, value) = cpu.popped(sys.ram);
            Outcome { cpu: after.with_a(value).advanced(row.length), sys, cycles: row.cycles }
        },
        _ => {
            let (after, value) = cpu.popped(sys.ram);
            Outcome {
                cpu: after.with_status(Status::from_byte(value)).advanced(row.length),
                sys,
                cycles: row.cycles,
            }
        },
    }
}

/// A jump: the program counter takes the effective address.
pub open spec fn execute_jmp(
    cpu: CPU,
    sys: SystemView,
    row: Decoded,
    operand: u8,
    operand2: u8,
) -> Outcome {
    Outcome {
        cpu: cpu.at(target(cpu, sys, row.mode, operand, operand2).address),
        sys,
        cycles: row.cycles,
    }
}

/// The address that a subroutine call at `pc` pushes: that of the last byte
/// of the three-byte call.
pub open spec fn return_address(pc: u16) -> u16 {
    wrap16(pc + 2)
}

/// A subroutine call: the address of its own last byte is pushed, and the
/// program counter takes the absolute address.
pub open spec fn execute_jsr(
    cpu: CPU,
    sys: SystemView,
    row: Decoded,
    operand: u8,
    operand2: u8,
) -> Outcome {
    let (after, ram) = cpu.pushed_word(sys.ram, return_address(cpu.pc));
    Outcome { cpu: after.at(word(operand, operand2)), sys: sys.with_ram(ram), cycles: row.cycles }
}

/// A return from a subroutine: a word is pulled, and execution resumes one
/// byte after it.
pub open spec fn execute_rts(cpu: CPU, sys: SystemView, row: Decoded) -> Outcome {
    let (after, address) = cpu.popped_word(sys.ram);
    Outcome { cpu: after.at(wrap16(address + 1)), sys, cycles: row.cycles }
}

/// A return from an interrupt: the status byte is pulled, then the program counter.
pub open spec fn execute_rti(cpu: CPU, sys: SystemView, row: Decoded) -> Outcome {
    let (after_status, packed) = cpu.popped(sys.ram);
    let (after, address) = after_status.popped_word(sys.ram);
    Outcome {
        cpu: after.with_status(Status::from_byte(packed)).at(address),
        sys,
        cycles: row.cycles,
    }
}

/// The entry into an interrupt handler: the return address is pushed, high
/// byte first, then the status byte with the break flag as given; then
/// interrupt-disable is set and the program counter is loaded from `vector`.
pub open spec fn enter_interrupt(
    cpu: CPU,
    sys: SystemView,
    return_to: u16,
    break_flag: bool,
    vector: u16,
) -> (CPU, SystemView) {
    let (after_pc, ram_pc) = cpu.pushed_word(sys.ram, return_to);
    let packed = Status { break_mode: break_flag, ..cpu.status }.byte();
    let (after, ram) = after_pc.pushed(ram_pc, packed);
    let sys_after = sys.with_ram(ram);
    (
        after.with_status(Status { interrupt_disable: true, ..cpu.status }).at(
            read_word(sys_after, vector as int),
        ),
        sys_after,
    )
}

/// A software break: an interrupt entry that returns past the padding byte
/// after the opcode and pushes the status byte with the break flag set.
pub open spec fn execute_brk(cpu: CPU, sys: SystemView, row: Decoded) -> Outcome {
    let synced = CPU { s: cpu.status.byte(), ..cpu };
    let (after, sys_after) = enter_interrupt(synced, sys, wrap16(cpu.pc + 2), true, IRQ_VECTOR);
    Outcome { cpu: after, sys: sys_after, cycles: row.cycles }
}

/// The families of operations: what they do with their operand.
pub enum Family {
    /// Reads the operand and changes registers or flags.
    Read,
    /// Stores a register at the effective address.
    Store,
    /// Changes the operand in place.
    Modify,
    /// Branches on a flag.
    Branch,
    /// Pushes or pulls a register.
    Stack,
    /// Jumps.
    Jump,
    /// Calls a subroutine.
    Call,
    /// Returns from a subroutine.
    Return,
    /// Returns from an interrupt.
    InterruptReturn,
    /// Breaks into the interrupt handler.
    Break,
    /// Works on registers and flags alone, or does nothing.
    Implied,
}

/// The family of an operation.
pub open spec fn family_of(operation: Operation) -> Family {
    match operation {
        Operation::Adc
        | Operation::Sbc
        | Operation::And
        | Operation::Ora
        | Operation::Eor
        | Operation::Cmp
        | Operation::Cpx
        | Operation::Cpy
        | Operation::Bit
        | Operation::Lda
        | Operation::Ldx
        | Operation::Ldy => Family::Read,
        Operation::Sta | Operation::Stx | Operation::Sty => Family::Store,
        Operation::Asl
        | Operation::Lsr
        | Operation::Rol
        | Operation::Ror
        | Operation::Inc
        | Operation::Dec => Family::Modify,
        Operation::Bcc
        | Operation::Bcs
        | Operation::Beq
        | Operation::Bne
        | Operation::Bmi
        | Operation::Bpl
        | Operation::Bvc
        | Operation::Bvs => Family::Branch,
        Operation::Pha | Operation::Php | Operation::Pla | Operation::Plp => Family::Stack,
        Operation::Jmp => Family::Jump,
        Operation::Jsr => Family::Call,
        Operation::Rts => Family::Return,
        Operation::Rti => Family::InterruptReturn,
        Operation::Brk => Family::Break,
        _ => Family::Implied,
    }
}

/// The machine after the instruction with the given opcode and operand
/// bytes was executed, and the cycles it took.
#[verifier::opaque]
pub open spec fn execute(
    cpu: CPU,
    sys: SystemView,
    opcode: u8,
    operand: u8,
    operand2: u8,
) -> Outcome {
    let row = decode(opcode);
    match family_of(row.operation) {
        Family::Read => execute_read(cpu, sys, row, operand, operand2),
        Family::Store => execute_store(cpu, sys, row, operand, operand2),
        Family::Modify => execute_modify(cpu, sys, row, operand, operand2),
        Family::Branch => execute_branch(cpu, sys, row, operand),
        Family::Stack => execute_stack(cpu, sys, row),
        Family::Jump => execute_jmp(cpu, sys, row, operand, operand2),
        Family::Call => execute_jsr(cpu, sys, row, operand, operand2),
        Family::Return => execute_rts(cpu, sys, row),
        Family::InterruptReturn => execute_rti(cpu, sys, row),
        Family::Break => execute_brk(cpu, sys, row),
        Family::Implied => execute_implied(cpu, sys, row),
    }
}

/// An instruction that reads its operand executes as `execute_read` says.
pub proof fn lemma_execute_read(cpu: CPU, sys: SystemView, opcode: u8, operand: u8, operand2: u8)
    requires
        family_of(decode(opcode).operation) == Family::Read,
    ensures
        execute(cpu, sys, opcode, operand, operand2) == execute_read(
            cpu,
            sys,
            decode(opcode),
            operand,
            operand2,
        ),
{
    reveal(execute);
}

/// A store executes as `execute_store` says.
pub proof fn lemma_execute_store(cpu: CPU, sys: SystemView, opcode: u8, operand: u8, operand2: u8)
    requires
        family_of(decode(opcode).operation) == Family::Store,
    ensures
        execute(cpu, sys, opcode, operand, operand2) == execute_store(
            cpu,
            sys,
            decode(opcode),
            operand,
            operand2,
        ),
{
    reveal(execute);
}

/// An in-place operation executes as `execute_modify` says.
pub proof fn lemma_execute_modify(cpu: CPU, sys: SystemView, opcode: u8, operand: u8, operand2: u8)
    requires
        family_of(decode(opcode).operation) == Family::Modify,
    ensures
        execute(cpu, sys, opcode, operand, operand2) == execute_modify(
            cpu,
            sys,
            decode(opcode),
            operand,
            operand2,
        ),
{
    reveal(execute);
}

/// A branch executes as `execute_branch` says, whatever the second operand byte.
pub proof fn lemma_execute_branch(cpu: CPU, sys: SystemView, opcode: u8, operand: u8, operand2: u8)
    requires
        family_of(decode(opcode).operation) == Family::Branch,
    ensures
        execute(cpu, sys, opcode, operand, operand2) == execute_branch(
            cpu,
            sys,
            decode(opcode),
            operand,
        ),
{
    reveal(execute);
}

/// A push or pull executes as `execute_stack` says, whatever the operand bytes.
pub proof fn lemma_execute_stack(cpu: CPU, sys: SystemView, opcode: u8, operand: u8, operand2: u8)
    requires
        family_of(decode(opcode).operation) == Family::Stack,
    ensures
        execute(cpu, sys, opcode, operand, operand2) == execute_stack(cpu, sys, decode(opcode)),
{
    reveal(execute);
}

/// A jump executes as `execute_jmp` says.
pub proof fn lemma_execute_jmp(cpu: CPU, sys: SystemView, opcode: u8, operand: u8, operand2: u8)
    requires
        family_of(decode(opcode).operation) == Family::Jump,
    ensures
        execute(cpu, sys, opcode, operand, operand2) == execute_jmp(
            cpu,
            sys,
            decode(opcode),
            operand,
            operand2,
        ),
{
    reveal(execute);
}

/// A subroutine call executes as `execute_jsr` says.
pub proof fn lemma_execute_jsr(cpu: CPU, sys: SystemView, opcode: u8, operand: u8, operand2: u8)
    requires
        family_of(decode(opcode).operation) == Family::Call,
    ensures
        execute(cpu, sys, opcode, operand, operand2) == execute_jsr(
            cpu,
            sys,
            decode(opcode),
            operand,
            operand2,
        ),
{
    reveal(execute);
}

/// A return from a subroutine executes as `execute_rts` says, whatever the operand bytes.
pub proof fn lemma_execute_rts(cpu: CPU, sys: SystemView, opcode: u8, operand: u8, operand2: u8)
    requires
        family_of(decode(opcode).operation) == Family::Return,
    ensures
        execute(cpu, sys, opcode, operand, operand2) == execute_rts(cpu, sys, decode(opcode)),
{
    reveal(execute);
}

/// A return from an interrupt executes as `execute_rti` says, whatever the operand bytes.
pub proof fn lemma_execute_rti(cpu: CPU, sys: SystemView, opcode: u8, operand: u8, operand2: u8)
    requires
        family_of(decode(opcode).operation) == Family::InterruptReturn,
    ensures
        execute(cpu, sys, opcode, operand, operand2) == execute_rti(cpu, sys, decode(opcode)),
{
    reveal(execute);
}

/// A break executes as `execute_brk` says, whatever the operand bytes.
pub proof fn lemma_execute_brk(cpu: CPU, sys: SystemView, opcode: u8, operand: u8, operand2: u8)
    requires
        family_of(decode(opcode).operation) == Family::Break,
    ensures
        execute(cpu, sys, opcode, operand, operand2) == execute_brk(cpu, sys, decode(opcode)),
{
    reveal(execute);
}

/// An instruction on registers and flags alone executes as
/// `execute_implied` says, whatever the operand bytes.
pub proof fn lemma_execute_implied(cpu: CPU, sys: SystemView, opcode: u8, operand: u8, operand2: u8)
    requires
        family_of(decode(opcode).operation) == Family::Implied,
    ensures
        execute(cpu, sys, opcode, operand, operand2) == execute_implied(cpu, sys, decode(opcode)),
{
    reveal(execute);
}

/// Operand bytes that an instruction does not read do not matter: a
/// branch ignores the second, and an instruction without an operand both.
pub proof fn lemma_unread_operands(
    cpu: CPU,
    sys: SystemView,
    opcode: u8,
    operand: u8,
    operand2: u8,
)
    ensures
        family_of(decode(opcode).operation) == Family::Branch ==> execute(
            cpu,
            sys,
            opcode,
            operand,
            operand2,
        ) == execute(cpu, sys, opcode, operand, 0),
        family_of(decode(opcode).operation) == Family::Implied || family_of(
            decode(opcode).operation,
        ) == Family::Stack || family_of(decode(opcode).operation) == Family::Return || family_of(
            decode(opcode).operation,
        ) == Family::InterruptReturn || family_of(decode(opcode).operation) == Family::Break
            ==> execute(cpu, sys, opcode, operand, operand2) == execute(cpu, sys, opcode, 0, 0),
{
    reveal(execute);
}

/// A no-operation, and with it every opcode outside the supported set,
/// moves the program counter on by one byte and costs what the table says.
pub proof fn lemma_execute_nop(cpu: CPU, sys: SystemView, opcode: u8, operand: u8, operand2: u8)
    requires
        decode(opcode).operation == Operation::Nop,
    ensures
        execute(cpu, sys, opcode, operand, operand2) == outcome(
            cpu.advanced(1),
            sys,
            idle_cycles(opcode),
        ),
{
    reveal(execute);
}

/// What a handler for `operation` owes when it is handed an instruction:
/// the outcome of executing it if the opcode is one of that operation, and
/// otherwise an unchanged machine at the base cost.
pub open spec fn handles(
    operation: Operation,
    cpu: CPU,
    sys: SystemView,
    instruction: u8,
    operand: u8,
    operand2: u8,
    after: Outcome,
) -> bool {
    if decode(instruction).operation == operation {
        after == execute(cpu, sys, instruction, operand, operand2)
    } else {
        after == outcome(cpu, sys, BASE_CYCLES)
    }
}

/// Cycles that the no-operation handler reports for an opcode: those of
/// the table row if the opcode is a no-operation, the base cost otherwise.
pub open spec fn idle_cycles(instruction: u8) -> u64 {
    if decode(instruction).operation == Operation::Nop {
        decode(instruction).cycles
    } else {
        BASE_CYCLES
    }
}

/// Service of a reset: the program counter is loaded from the reset vector,
/// the stack pointer and the flags take their power-on values, and the
/// latch is cleared. No cycle is reported.
pub open spec fn reset(cpu: CPU, sys: SystemView) -> Outcome {
    Outcome {
        cpu: CPU {
            pc: read_word(sys, RESET_VECTOR as int),
            sp: 0xFF,
            status: Status::power_on(),
            reset_requested: false,
            ..cpu
        },
        sys,
        cycles: 0,
    }
}

/// Service of a hardware interrupt through `vector`: an interrupt entry
/// that returns to the current program counter and pushes the status byte
/// with the break flag clear; the break flag is then clear in the
/// processor too. No cycle is reported.
pub open spec fn interrupt(cpu: CPU, sys: SystemView, vector: u16) -> Outcome {
    let (after, sys_after) = enter_interrupt(cpu, sys, cpu.pc, false, vector);
    Outcome {
        cpu: after.with_status(Status { break_mode: false, ..after.status }),
        sys: sys_after,
        cycles: 0,
    }
}

/// Fetch, decode and execute: the opcode is read at the program counter
/// and the two bytes after it as operands, the `s` register takes the
/// packed flags, and the instruction is executed.
pub open spec fn fetch_execute(cpu: CPU, sys: SystemView) -> Outcome {
    execute(
        CPU { s: cpu.status.byte(), ..cpu },
        sys,
        read_byte(sys, cpu.pc as int),
        read_byte(sys, cpu.pc + 1),
        read_byte(sys, cpu.pc + 2),
    )
}

/// Whether a tick serves the maskable interrupt: it is pending and the
/// interrupt-disable flag is clear.
pub open spec fn irq_due(cpu: CPU) -> bool {
    cpu.irq_requested && !cpu.status.interrupt_disable
}

/// One tick. In order of priority: a pending reset is served; else a
/// pending non-maskable interrupt; else a pending interrupt request, if
/// interrupts are not disabled; else one instruction is executed.
pub open spec fn step(cpu: CPU, sys: SystemView) -> Outcome {
    if cpu.reset_requested {
        reset(cpu, sys)
    } else if cpu.nmi_requested {
        interrupt(CPU { nmi_requested: false, ..cpu }, sys, NMI_VECTOR)
    } else if irq_due(cpu) {
        interrupt(CPU { irq_requested: false, ..cpu }, sys, IRQ_VECTOR)
    } else {
        fetch_execute(cpu, sys)
    }
}

} // verus!
