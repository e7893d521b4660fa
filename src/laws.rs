//! What holds of the trap controller across calls.

use crate::csr::{breakpoint_spec, cause_of, entry_of, sie_of, TrapCause, SIE_BIT};
use crate::hart::{
    boot_spec, breakpoint_step, init_spec, raise_spec, Diagnostic, HartView, Registers,
};
use vstd::prelude::*;

verus! {

/// Setting the enable bit leaves it set.
proof fn lemma_set_sie(x: usize)
    ensures
        sie_of(x | SIE_BIT),
{
    assert((x | 2usize) & 2usize != 0usize) by (bit_vector);
}

/// A breakpoint's code is not an interrupt cause.
proof fn lemma_breakpoint_is_exception()
    ensures
        cause_of(breakpoint_spec()) == TrapCause::Exception(breakpoint_spec()),
{
}

/// After `init` a running hart delivers traps to its handler.
pub proof fn lemma_init_arms(h: HartView)
    requires
        h.wf(),
        !h.halted,
    ensures
        init_spec(h).armed(),
{
    lemma_set_sie(h.regs.sstatus);
}

/// `init` followed at once by a breakpoint writes exactly two lines, the
/// setup line and then the trap report, and halts the hart; this holds of
/// every running hart, whatever came before.
pub proof fn lemma_boot_writes_two_lines(h: HartView, pc: usize, len: usize)
    requires
        h.wf(),
        !h.halted,
        len == 2 || len == 4,
        pc + len <= usize::MAX,
    ensures
        boot_spec(h, pc, len).halted,
        boot_spec(h, pc, len).log == h.log.push(Diagnostic::SetupDone).push(
            Diagnostic::Trap {
                cause: TrapCause::Exception(breakpoint_spec()),
                epc: (pc + len) as usize,
            },
        ),
{
    lemma_init_arms(h);
    lemma_breakpoint_report(init_spec(h), pc, len);
}

/// A breakpoint on an armed hart appends one report, whose cause is the
/// breakpoint exception and whose program counter is the address just past
/// the instruction, and halts the hart.
pub proof fn lemma_breakpoint_report(h: HartView, pc: usize, len: usize)
    requires
        h.armed(),
        len == 2 || len == 4,
        pc + len <= usize::MAX,
    ensures
        breakpoint_step(h, pc, len).halted,
        breakpoint_step(h, pc, len).log == h.log.push(
            Diagnostic::Trap {
                cause: TrapCause::Exception(breakpoint_spec()),
                epc: (pc + len) as usize,
            },
        ),
{
    lemma_breakpoint_is_exception();
}

/// The cause that the handler reports for a breakpoint is an exception, not
/// an interrupt, and its code is the breakpoint's.
pub proof fn lemma_breakpoint_cause(h: HartView, pc: usize, len: usize)
    requires
        h.armed(),
        len == 2 || len == 4,
        pc + len <= usize::MAX,
    ensures
        breakpoint_step(h, pc, len).log.last() matches Diagnostic::Trap { cause, .. } && cause
            matches TrapCause::Exception(code) && code == breakpoint_spec(),
{
    lemma_breakpoint_report(h, pc, len);
}

/// A second `init` before any trap leaves the vector base, the mode and the
/// enable bit, indeed every register, as one call left them, and the hart
/// still running.
pub proof fn lemma_init_idempotent(h: HartView)
    requires
        h.wf(),
        !h.halted,
    ensures
        !init_spec(init_spec(h)).halted,
        init_spec(init_spec(h)).regs == init_spec(h).regs,
{
    let x = h.regs.sstatus;
    assert((x | 2usize) | 2usize == x | 2usize) by (bit_vector);
}

/// With traps disabled, a raised trap reaches no handler: the hart goes on
/// exactly as it was.
pub proof fn lemma_disabled_ignores_traps(h: HartView, cause: usize, epc: usize)
    requires
        !sie_of(h.regs.sstatus),
    ensures
        raise_spec(h, cause, epc) == h,
{
}

/// Until the handler's address is the trap's entry address, no trap is
/// reported.
pub proof fn lemma_no_report_without_vector(h: HartView, cause: usize, epc: usize)
    requires
        entry_of(h.regs.stvec, cause_of(cause)) != h.handler,
    ensures
        raise_spec(h, cause, epc).log == h.log,
{
}

/// The handler reports a trap only on a hart that delivers traps and whose
/// vector leads that trap to the handler; for an exception, such as a
/// breakpoint, that is a vector base equal to the handler's address.
pub proof fn lemma_handler_runs_only_when_armed(h: HartView, cause: usize, epc: usize)
    requires
        raise_spec(h, cause, epc).log != h.log,
    ensures
        h.accepts_traps(),
        entry_of(h.regs.stvec, cause_of(cause)) == h.handler,
        cause_of(cause) is Exception ==> h.vector_base() == h.handler,
{
}

/// A hart out of reset has traps disabled.
pub proof fn lemma_reset_disables_traps(r: Registers)
    requires
        r.sstatus == 0,
    ensures
        !sie_of(r.sstatus),
{
    assert(0usize & 2usize == 0usize) by (bit_vector);
}

} // verus!
