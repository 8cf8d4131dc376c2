//! Laws of the processor: what holds of every state, proved from the
//! semantics that the contracts of the executable functions speak of.
use crate::cpu::addressing::{indexed, operand_value, target};
use crate::cpu::alu::{carry_value, sign_overflow, signed};
use crate::cpu::bus::{read_byte, read_word, region_of, write_byte, Region};
use crate::cpu::decode::{decode, Decoded, Mode, Operation};
use crate::cpu::semantics::{
    execute, execute_branch, execute_brk, execute_implied, execute_jmp, execute_jsr,
    execute_modify, execute_read, execute_rti, execute_rts, execute_stack, execute_store,
    family_of, fetch_execute, interrupt, reset, step, Family, Outcome,
};
use crate::cpu::status::{bit_set, lemma_unpack, Status};
use crate::cpu::{sp_after_pop, stack_address, CPU, IRQ_VECTOR, NMI_VECTOR, RESET_VECTOR};
use crate::system::{SystemView, RAM_SIZE};
use crate::word::{high_byte, low_byte, word, wrap16};
use vstd::prelude::*;

verus! {

/// Packing the flags and unpacking the byte gives the flags back, as long as
/// the reserved flag is set.
pub proof fn lemma_flags_round_trip(status: Status)
    requires
        status.reserved,
    ensures
        Status::from_byte(status.byte()) == status,
{
}

/// Unpacking a byte and packing the flags gives the byte back with bit 5,
/// the reserved bit, set.
pub proof fn lemma_byte_round_trip(value: u8)
    ensures
        Status::from_byte(value).reserved,
        Status::from_byte(value).byte() == if bit_set(value, 32) {
            value
        } else {
            (value + 32) as u8
        },
{
    lemma_unpack(value);
    lemma_bits_add_up(value);
}

/// The bits of a byte, with bit 5 taken as set, add up to the byte with
/// bit 5 set.
proof fn lemma_bits_add_up(value: u8)
    by (bit_vector)
    ensures
        (if value & 0x01 != 0 { 1u8 } else { 0u8 }) + (if value & 0x02 != 0 { 2u8 } else { 0u8 })
            + (if value & 0x04 != 0 { 4u8 } else { 0u8 }) + (if value & 0x08 != 0 {
            8u8
        } else {
            0u8
        }) + (if value & 0x10 != 0 { 16u8 } else { 0u8 }) + 32u8 + (if value & 0x40 != 0 {
            64u8
        } else {
            0u8
        }) + (if value & 0x80 != 0 { 128u8 } else { 0u8 }) == value + (if value & 0x20 != 0 {
            0u8
        } else {
            32u8
        }),
{
}

/// Addition with carry agrees with two's-complement arithmetic. The result
/// is the sum modulo 256; carry says that the unsigned sum does not fit in
/// a byte; overflow says that the signed sum does not fit in a byte, which
/// happens exactly when both terms have the same sign and the result has
/// the other; zero and negative describe the result.
pub proof fn lemma_adc_flags(cpu: CPU, m: u8)
    ensures
        cpu.added(m).a == (cpu.a + m + carry_value(cpu.status.carry)) % 256,
        cpu.added(m).status.carry <==> cpu.a + m + carry_value(cpu.status.carry) > 255,
        cpu.added(m).status.overflow <==> sign_overflow(cpu.a, m, cpu.added(m).a),
        cpu.added(m).status.overflow <==> !(-128 <= signed(cpu.a) + signed(m) + carry_value(
            cpu.status.carry,
        ) <= 127),
        cpu.added(m).status.zero <==> cpu.added(m).a == 0,
        cpu.added(m).status.negative <==> signed(cpu.added(m).a) < 0,
{
}

/// Every ADC instruction, whatever its addressing mode, adds the value of
/// its operand and the carry to the accumulator and moves on past itself;
/// memory is untouched.
pub proof fn lemma_adc_executes_addition(
    cpu: CPU,
    sys: SystemView,
    opcode: u8,
    operand: u8,
    operand2: u8,
)
    requires
        decode(opcode).operation == Operation::Adc,
    ensures
        execute(cpu, sys, opcode, operand, operand2).cpu == cpu.added(
            operand_value(cpu, sys, decode(opcode).mode, operand, operand2),
        ).advanced(decode(opcode).length),
        execute(cpu, sys, opcode, operand, operand2).sys == sys,
        opcode == 0x69 ==> execute(cpu, sys, opcode, operand, operand2).cpu.a == (cpu.a + operand
            + carry_value(cpu.status.carry)) % 256,
{
    reveal(execute);
    reveal(operand_value);
}

/// Subtraction with borrow agrees with two's-complement arithmetic: the
/// result is `A - M - (1 - C)` modulo 256, and the carry is set exactly
/// when no borrow was needed.
pub proof fn lemma_sbc_flags(cpu: CPU, m: u8)
    ensures
        cpu.subtracted(m).a == (cpu.a - m - (1 - carry_value(cpu.status.carry))) % 256,
        cpu.subtracted(m).status.carry <==> cpu.a - m - (1 - carry_value(cpu.status.carry)) >= 0,
        cpu.subtracted(m).status.overflow <==> !(-128 <= signed(cpu.a) - signed(m) - (1
            - carry_value(cpu.status.carry)) <= 127),
{
}

/// A byte that is pushed and then popped comes back, and the stack pointer
/// returns to where it was, also across the wrap between 0x00 and 0xFF.
pub proof fn lemma_stack_round_trip(cpu: CPU, ram: Seq<u8>, value: u8)
    requires
        ram.len() == RAM_SIZE,
    ensures
        cpu.pushed(ram, value).0.popped(cpu.pushed(ram, value).1) == (cpu, value),
        cpu.pushed(ram, value).1.len() == RAM_SIZE,
{
}

/// A word that is pushed and then popped comes back, and the stack pointer
/// returns to where it was, also across the wrap between 0x00 and 0xFF.
pub proof fn lemma_stack_word_round_trip(cpu: CPU, ram: Seq<u8>, value: u16)
    requires
        ram.len() == RAM_SIZE,
    ensures
        cpu.pushed_word(ram, value).0.popped_word(cpu.pushed_word(ram, value).1) == (cpu, value),
        cpu.pushed_word(ram, value).1.len() == RAM_SIZE,
{
    let (first, ram_first) = cpu.pushed(ram, high_byte(value));
    let (second, ram_second) = first.pushed(ram_first, low_byte(value));
    assert(second.popped(ram_second) == (first, low_byte(value)));
    assert(first.popped(ram_second) == (cpu, high_byte(value)));
    assert(word(low_byte(value), high_byte(value)) == value);
}

/// Every address has exactly one owner, and a write keeps the buffers at
/// their sizes.
pub proof fn lemma_write_keeps_sizes(sys: SystemView, address: int, value: u8)
    requires
        sys.wf(),
    ensures
        write_byte(sys, address, value).wf(),
{
    reveal(write_byte);
}

/// What is written to an address in system RAM or in the picture registers
/// is what the next read of that address returns.
pub proof fn lemma_read_after_write(sys: SystemView, address: int, value: u8)
    requires
        sys.wf(),
        region_of(address) == Region::Ram || region_of(address) == Region::PpuRegisters,
    ensures
        read_byte(write_byte(sys, address, value), address) == value,
{
    reveal(read_byte);
    reveal(write_byte);
}

/// A write to system RAM shows at every mirror of the address and nowhere else.
pub proof fn lemma_ram_write_elsewhere(sys: SystemView, address: int, value: u8, other: int)
    requires
        sys.wf(),
        region_of(address) == Region::Ram,
    ensures
        read_byte(write_byte(sys, address, value), other) == if region_of(other) == Region::Ram
            && other % 0x800 == address % 0x800 {
            value
        } else {
            read_byte(sys, other)
        },
{
    reveal(read_byte);
    reveal(write_byte);
}

/// A write outside system RAM and the picture registers is discarded: the
/// machine is unchanged. This holds of all of cartridge program ROM.
pub proof fn lemma_write_discarded(sys: SystemView, address: int, value: u8)
    requires
        region_of(address) != Region::Ram,
        region_of(address) != Region::PpuRegisters,
    ensures
        write_byte(sys, address, value) == sys,
        forall|other: int| read_byte(write_byte(sys, address, value), other) == read_byte(sys, other),
{
    reveal(write_byte);
}

/// A push is a write through the bus at the address that the stack pointer
/// designates: the stack lives in system RAM and nowhere else.
pub proof fn lemma_push_is_bus_write(cpu: CPU, sys: SystemView, value: u8)
    requires
        sys.wf(),
    ensures
        sys.with_ram(cpu.pushed(sys.ram, value).1) == write_byte(
            sys,
            stack_address(cpu.sp),
            value,
        ),
        cpu.popped(sys.ram).1 == read_byte(sys, stack_address(sp_after_pop(cpu.sp))),
{
    reveal(write_byte);
    reveal(read_byte);
}

/// A subroutine call followed by a return resumes at the instruction after
/// the three-byte call, wrapping at the top of the address space, with the
/// stack pointer where it was. The call itself continues at its target.
pub proof fn lemma_jsr_rts_round_trip(
    cpu: CPU,
    sys: SystemView,
    low: u8,
    high: u8,
    operand: u8,
    operand2: u8,
)
    requires
        sys.wf(),
    ensures
        execute(cpu, sys, 0x20, low, high).cpu.pc == word(low, high),
        execute(cpu, sys, 0x20, low, high).sys.wf(),
        ({
            let called = execute(cpu, sys, 0x20, low, high);
            let returned = execute(called.cpu, called.sys, 0x60, operand, operand2);
            &&& returned.cpu.pc == wrap16(cpu.pc + 3)
            &&& returned.cpu.sp == cpu.sp
            &&& returned.cpu == CPU { pc: wrap16(cpu.pc + 3), ..cpu }
            &&& returned.sys == called.sys
        }),
{
    reveal(execute);
    let called = execute_jsr(cpu, sys, decode(0x20), low, high);
    let (first, ram_first) = cpu.pushed(sys.ram, high_byte(wrap16(cpu.pc + 2)));
    let (second, ram_second) = first.pushed(ram_first, low_byte(wrap16(cpu.pc + 2)));
    assert(called.sys.ram == ram_second);
    let arrived = second.at(word(low, high));
    assert(called.cpu == arrived);
    assert(arrived.popped(ram_second).1 == low_byte(wrap16(cpu.pc + 2)));
    assert(arrived.popped(ram_second).0.popped(ram_second).1 == high_byte(wrap16(cpu.pc + 2)));
    assert(word(low_byte(wrap16(cpu.pc + 2)), high_byte(wrap16(cpu.pc + 2))) == wrap16(cpu.pc + 2));
    assert(wrap16(wrap16(cpu.pc + 2) + 1) == wrap16(cpu.pc + 3));
}

/// Indexing an address crosses a page boundary exactly when the index
/// carries out of the low byte of the address.
pub proof fn lemma_crossing_is_carry(base: u16, index: u8)
    ensures
        indexed(base, index).crossed <==> base % 256 + index >= 256,
{
}

/// An instruction that reads, stores or changes an operand found by
/// Absolute,X addressing costs its base cycles, and exactly one cycle more
/// when adding X carries out of the low byte of the address.
pub proof fn lemma_absolute_x_penalty(cpu: CPU, sys: SystemView, opcode: u8, low: u8, high: u8)
    requires
        decode(opcode).mode == Mode::AbsoluteX,
        family_of(decode(opcode).operation) == Family::Read || family_of(decode(opcode).operation)
            == Family::Store || family_of(decode(opcode).operation) == Family::Modify,
    ensures
        execute(cpu, sys, opcode, low, high).cycles == decode(opcode).cycles + if low + cpu.x
            >= 256 {
            1int
        } else {
            0int
        },
{
    reveal(execute);
    reveal(target);
    lemma_crossing_is_carry(word(low, high), cpu.x);
}

/// The same holds of Absolute,Y addressing and the Y register.
pub proof fn lemma_absolute_y_penalty(cpu: CPU, sys: SystemView, opcode: u8, low: u8, high: u8)
    requires
        decode(opcode).mode == Mode::AbsoluteY,
        family_of(decode(opcode).operation) == Family::Read || family_of(decode(opcode).operation)
            == Family::Store || family_of(decode(opcode).operation) == Family::Modify,
    ensures
        execute(cpu, sys, opcode, low, high).cycles == decode(opcode).cycles + if low + cpu.y
            >= 256 {
            1int
        } else {
            0int
        },
{
    reveal(execute);
    reveal(target);
    lemma_crossing_is_carry(word(low, high), cpu.y);
}

/// The first tick of a fresh processor serves the reset: the program
/// counter is the word at the reset vector, the stack pointer is `0xFF`,
/// and neither memory nor cycles are spent.
pub proof fn lemma_reset_sequence(sys: SystemView)
    ensures
        step(CPU::power_on(), sys).cpu.pc == read_word(sys, RESET_VECTOR as int),
        step(CPU::power_on(), sys).cpu.sp == 0xFF,
        step(CPU::power_on(), sys).cpu.status == Status::power_on(),
        !step(CPU::power_on(), sys).cpu.reset_requested,
        step(CPU::power_on(), sys).sys == sys,
        step(CPU::power_on(), sys).cycles == 0,
{
}

/// A pending reset is served before everything else, and serving it
/// clears the reset latch and no other.
pub proof fn lemma_reset_first(cpu: CPU, sys: SystemView)
    requires
        cpu.reset_requested,
    ensures
        step(cpu, sys) == reset(cpu, sys),
        !step(cpu, sys).cpu.reset_requested,
        step(cpu, sys).cpu.nmi_requested == cpu.nmi_requested,
        step(cpu, sys).cpu.irq_requested == cpu.irq_requested,
        step(cpu, sys).cycles == 0,
{
}

/// With no reset pending, a pending non-maskable interrupt is served
/// before an interrupt request and before any instruction. Serving it
/// clears its latch and no other, and disables interrupt requests.
pub proof fn lemma_nmi_second(cpu: CPU, sys: SystemView)
    requires
        !cpu.reset_requested,
        cpu.nmi_requested,
    ensures
        step(cpu, sys) == interrupt(CPU { nmi_requested: false, ..cpu }, sys, NMI_VECTOR),
        !step(cpu, sys).cpu.nmi_requested,
        !step(cpu, sys).cpu.reset_requested,
        step(cpu, sys).cpu.irq_requested == cpu.irq_requested,
        step(cpu, sys).cpu.status.interrupt_disable,
        step(cpu, sys).cpu.pc == read_word(step(cpu, sys).sys, NMI_VECTOR as int),
        step(cpu, sys).cycles == 0,
{
}

/// With neither a reset nor a non-maskable interrupt pending, a pending
/// interrupt request is served if and only if interrupts are enabled.
/// Served, its latch is cleared; masked, the request stays pending while
/// an instruction is executed.
pub proof fn lemma_irq_third(cpu: CPU, sys: SystemView)
    requires
        !cpu.reset_requested,
        !cpu.nmi_requested,
        cpu.irq_requested,
    ensures
        !cpu.status.interrupt_disable ==> step(cpu, sys) == interrupt(
            CPU { irq_requested: false, ..cpu },
            sys,
            IRQ_VECTOR,
        ) && !step(cpu, sys).cpu.irq_requested && step(cpu, sys).cpu.pc == read_word(
            step(cpu, sys).sys,
            IRQ_VECTOR as int,
        ),
        cpu.status.interrupt_disable ==> step(cpu, sys) == fetch_execute(cpu, sys) && step(
            cpu,
            sys,
        ).cpu.irq_requested,
{
    if cpu.status.interrupt_disable {
        lemma_execute_keeps_latches(
            CPU { s: cpu.status.byte(), ..cpu },
            sys,
            read_byte(sys, cpu.pc as int),
            read_byte(sys, cpu.pc + 1),
            read_byte(sys, cpu.pc + 2),
        );
    }
}

/// With a reset, a non-maskable interrupt and an interrupt request all
/// pending, the first tick serves the reset and the second the
/// non-maskable interrupt, each clearing its own latch alone. The
/// interrupt request is still pending then, and it is masked, because
/// entering the non-maskable interrupt disabled interrupts: the third tick
/// executes an instruction, and the request is served by the first tick
/// that finds interrupts enabled.
pub proof fn lemma_interrupt_priority(cpu: CPU, sys: SystemView)
    requires
        cpu.reset_requested,
        cpu.nmi_requested,
        cpu.irq_requested,
    ensures
        ({
            let first = step(cpu, sys);
            let second = step(first.cpu, first.sys);
            let third = step(second.cpu, second.sys);
            &&& first == reset(cpu, sys)
            &&& !first.cpu.reset_requested && first.cpu.nmi_requested && first.cpu.irq_requested
            &&& second == interrupt(
                CPU { nmi_requested: false, ..first.cpu },
                first.sys,
                NMI_VECTOR,
            )
            &&& !second.cpu.reset_requested && !second.cpu.nmi_requested
                && second.cpu.irq_requested
            &&& second.cpu.status.interrupt_disable
            &&& third == fetch_execute(second.cpu, second.sys)
            &&& third.cpu.irq_requested
        }),
{
    let first = step(cpu, sys);
    lemma_reset_first(cpu, sys);
    lemma_nmi_second(first.cpu, first.sys);
    let second = step(first.cpu, first.sys);
    lemma_irq_third(second.cpu, second.sys);
}

/// What every instruction and every interrupt entry leaves alone: the
/// interrupt latches and the halt flag are untouched, the buffers keep
/// their sizes, and the reserved flag stays set.
pub open spec fn preserved(cpu: CPU, sys: SystemView, after: Outcome) -> bool {
    &&& after.cpu.reset_requested == cpu.reset_requested
    &&& after.cpu.nmi_requested == cpu.nmi_requested
    &&& after.cpu.irq_requested == cpu.irq_requested
    &&& after.cpu.jammed == cpu.jammed
    &&& sys.wf() ==> after.sys.wf()
    &&& cpu.status.reserved ==> after.cpu.status.reserved
}

proof fn lemma_read_preserves(cpu: CPU, sys: SystemView, row: Decoded, operand: u8, operand2: u8)
    ensures
        preserved(cpu, sys, execute_read(cpu, sys, row, operand, operand2)),
{
}

proof fn lemma_store_preserves(cpu: CPU, sys: SystemView, row: Decoded, operand: u8, operand2: u8)
    ensures
        preserved(cpu, sys, execute_store(cpu, sys, row, operand, operand2)),
{
    reveal(write_byte);
}

proof fn lemma_modify_preserves(cpu: CPU, sys: SystemView, row: Decoded, operand: u8, operand2: u8)
    ensures
        preserved(cpu, sys, execute_modify(cpu, sys, row, operand, operand2)),
{
    reveal(write_byte);
}

proof fn lemma_branch_preserves(cpu: CPU, sys: SystemView, row: Decoded, operand: u8)
    ensures
        preserved(cpu, sys, execute_branch(cpu, sys, row, operand)),
{
}

proof fn lemma_stack_preserves(cpu: CPU, sys: SystemView, row: Decoded)
    ensures
        preserved(cpu, sys, execute_stack(cpu, sys, row)),
{
}

proof fn lemma_control_preserves(cpu: CPU, sys: SystemView, row: Decoded, operand: u8, operand2: u8)
    ensures
        preserved(cpu, sys, execute_jmp(cpu, sys, row, operand, operand2)),
        preserved(cpu, sys, execute_jsr(cpu, sys, row, operand, operand2)),
        preserved(cpu, sys, execute_rts(cpu, sys, row)),
        preserved(cpu, sys, execute_rti(cpu, sys, row)),
{
}

proof fn lemma_brk_preserves(cpu: CPU, sys: SystemView, row: Decoded)
    ensures
        preserved(cpu, sys, execute_brk(cpu, sys, row)),
{
}

proof fn lemma_implied_preserves(cpu: CPU, sys: SystemView, row: Decoded)
    ensures
        preserved(cpu, sys, execute_implied(cpu, sys, row)),
{
}

/// No instruction touches the interrupt latches or the halt flag, changes
/// the size of a buffer or clears the reserved flag: only a request sets a
/// latch, and only its service clears it.
pub proof fn lemma_execute_preserves(
    cpu: CPU,
    sys: SystemView,
    opcode: u8,
    operand: u8,
    operand2: u8,
)
    ensures
        preserved(cpu, sys, execute(cpu, sys, opcode, operand, operand2)),
{
    reveal(execute);
    let row = decode(opcode);
    match family_of(row.operation) {
        Family::Read => lemma_read_preserves(cpu, sys, row, operand, operand2),
        Family::Store => lemma_store_preserves(cpu, sys, row, operand, operand2),
        Family::Modify => lemma_modify_preserves(cpu, sys, row, operand, operand2),
        Family::Branch => lemma_branch_preserves(cpu, sys, row, operand),
        Family::Stack => lemma_stack_preserves(cpu, sys, row),
        Family::Break => lemma_brk_preserves(cpu, sys, row),
        Family::Implied => lemma_implied_preserves(cpu, sys, row),
        _ => lemma_control_preserves(cpu, sys, row, operand, operand2),
    }
}

/// No instruction touches the interrupt latches or the halt flag.
pub proof fn lemma_execute_keeps_latches(
    cpu: CPU,
    sys: SystemView,
    opcode: u8,
    operand: u8,
    operand2: u8,
)
    ensures
        execute(cpu, sys, opcode, operand, operand2).cpu.reset_requested == cpu.reset_requested,
        execute(cpu, sys, opcode, operand, operand2).cpu.nmi_requested == cpu.nmi_requested,
        execute(cpu, sys, opcode, operand, operand2).cpu.irq_requested == cpu.irq_requested,
        execute(cpu, sys, opcode, operand, operand2).cpu.jammed == cpu.jammed,
{
    lemma_execute_preserves(cpu, sys, opcode, operand, operand2);
}

/// A tick keeps the buffers at their sizes and the reserved flag set.
pub proof fn lemma_step_keeps_invariant(cpu: CPU, sys: SystemView)
    requires
        sys.wf(),
        cpu.status.reserved,
    ensures
        step(cpu, sys).sys.wf(),
        step(cpu, sys).cpu.status.reserved,
{
    lemma_execute_preserves(
        CPU { s: cpu.status.byte(), ..cpu },
        sys,
        read_byte(sys, cpu.pc as int),
        read_byte(sys, cpu.pc + 1),
        read_byte(sys, cpu.pc + 2),
    );
}

} // verus!
