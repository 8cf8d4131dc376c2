//! Pacing: when each component of the machine is due for its next step.
//!
//! The machine has no clock of its own. Whoever drives it reads the time,
//! asks here which component is due, steps it, and asks here for the time
//! at which the processor is due again. Times are nanoseconds.
use vstd::prelude::*;

verus! {

/// Nanoseconds that one processor cycle lasts, at 1.79 MHz.
pub const CPU_PERIOD: u128 = 559;

/// Nanoseconds that one dot of the picture unit lasts, at 5.37 MHz.
pub const PPU_PERIOD: u128 = 186;

/// Nanoseconds that one cycle of the sound unit lasts, at 1.79 MHz.
pub const APU_PERIOD: u128 = 559;

/// The time from which a processor that ran `cycles` cycles at `now` is
/// due again, before it is cut to the range of times. A jammed processor
/// is due at no time.
pub open spec fn cpu_deadline(now: u128, cycles: u64, jammed: bool) -> int {
    if jammed {
        u128::MAX as int
    } else {
        now + CPU_PERIOD * cycles
    }
}

/// Whether a component that was last stepped at `last` and takes `period`
/// for a step is due at `now`. A component whose last step lies in the
/// future is not due.
pub fn is_due(now: u128, last: u128, period: u128) -> (due: bool)
    ensures
        due == (now - last >= period),
{
    now >= last && now - last >= period
}

/// The time to record for a processor that ran `cycles_ran` cycles at
/// `now`: the time at which those cycles have passed, or the end of time
/// if the processor is jammed or the sum lies beyond it.
pub fn next_cpu_time(now: u128, cycles_ran: u64, jammed: bool) -> (next: u128)
    ensures
        next == if cpu_deadline(now, cycles_ran, jammed) > u128::MAX {
            u128::MAX as int
        } else {
            cpu_deadline(now, cycles_ran, jammed)
        },
{
    if jammed {
        return u128::MAX;
    }
    assert(CPU_PERIOD * cycles_ran <= 559 * 0xFFFF_FFFF_FFFF_FFFF) by (nonlinear_arith)
        requires
            CPU_PERIOD == 559,
            cycles_ran <= 0xFFFF_FFFF_FFFF_FFFF,
    ;
    let span: u128 = CPU_PERIOD * (cycles_ran as u128);
    if now > u128::MAX - span {
        u128::MAX
    } else {
        now + span
    }
}

/// Never is a jammed processor due again.
pub proof fn lemma_jammed_never_due(now: u128, cycles: u64, later: u128)
    ensures
        !(later - cpu_deadline(now, cycles, true) >= CPU_PERIOD),
{
}

} // verus!
