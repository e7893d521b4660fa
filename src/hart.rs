//! A hart's supervisor trap state, the trap controller that arms it, and
//! the handler that every trap reaches.
//!
//! The hart owns its control registers and the lines its diagnostic sink
//! received. Once halted it makes no further progress: every step leaves a
//! halted hart as it was.

use crate::csr::{
    base_of, breakpoint_code, breakpoint_spec, cause_of, entry_of, mode_bits, scause_decode, sie_of,
    sstatus_set_sie, sstatus_sie, stvec_encode, trap_entry, TrapCause, VectorMode, SIE_BIT,
};
use crate::laws::{lemma_boot_writes_two_lines, lemma_init_arms, lemma_reset_disables_traps};
use vstd::prelude::*;

verus! {

/// One line written to the diagnostic sink.
#[derive(Clone, Copy, Debug, PartialEq, Eq, Structural)]
pub enum Diagnostic {
    /// The trap vector is installed and traps are enabled.
    SetupDone,
    /// A trap reached the handler, with its cause and program counter.
    Trap { cause: TrapCause, epc: usize },
}

/// The supervisor control and status registers that traps use.
#[derive(Clone, Copy, Debug, PartialEq, Eq, Structural)]
pub struct Registers {
    pub sscratch: usize,
    pub stvec: usize,
    pub sstatus: usize,
    pub scause: usize,
    pub sepc: usize,
}

/// A hart: its registers, the address of the trap handler, what the
/// diagnostic sink has received, and whether it has halted.
pub struct Hart {
    pub regs: Registers,
    pub handler: usize,
    pub log: Vec<Diagnostic>,
    pub halted: bool,
}

/// The value of a hart.
pub ghost struct HartView {
    pub regs: Registers,
    pub handler: usize,
    pub log: Seq<Diagnostic>,
    pub halted: bool,
}

impl View for Hart {
    type V = HartView;

    open spec fn view(&self) -> HartView {
        HartView { regs: self.regs, handler: self.handler, log: self.log@, halted: self.halted }
    }
}

impl HartView {
    /// The handler's address can serve as a vector base.
    pub open spec fn wf(self) -> bool {
        self.handler % 4 == 0
    }

    /// The vector base that `stvec` holds.
    pub open spec fn vector_base(self) -> int {
        base_of(self.regs.stvec)
    }

    /// The hart would deliver a trap now.
    pub open spec fn accepts_traps(self) -> bool {
        !self.halted && sie_of(self.regs.sstatus)
    }

    /// Traps are delivered, and `stvec` holds the handler in direct mode,
    /// so every trap reaches it.
    pub open spec fn armed(self) -> bool {
        self.wf() && self.accepts_traps() && self.regs.stvec == self.handler
    }
}

/// The registers after `init`: scratch cleared, the handler installed in
/// direct mode, traps enabled.
pub open spec fn init_regs(r: Registers, handler: usize) -> Registers {
    Registers {
        sscratch: 0,
        stvec: (handler + mode_bits(VectorMode::Direct)) as usize,
        sstatus: r.sstatus | SIE_BIT,
        ..r
    }
}

/// The hart after `init`.
pub open spec fn init_spec(h: HartView) -> HartView {
    if h.halted {
        h
    } else {
        HartView {
            regs: init_regs(h.regs, h.handler),
            log: h.log.push(Diagnostic::SetupDone),
            ..h
        }
    }
}

/// The hart after its handler ran: it reported the trap and halted.
pub open spec fn handled_spec(h: HartView) -> HartView {
    HartView {
        log: h.log.push(Diagnostic::Trap { cause: cause_of(h.regs.scause), epc: h.regs.sepc }),
        halted: true,
        ..h
    }
}

/// The hart after a trap with the given cause and program counter was
/// raised. A hart that does not accept traps goes on unchanged. Otherwise
/// the cause and program counter are latched, and control goes to the
/// trap's entry address: the handler if it is installed there, else memory
/// that holds no handler, which ends the hart without a word.
pub open spec fn raise_spec(h: HartView, cause: usize, epc: usize) -> HartView {
    if !h.accepts_traps() {
        h
    } else {
        let latched = HartView { regs: Registers { scause: cause, sepc: epc, ..h.regs }, ..h };
        if entry_of(h.regs.stvec, cause_of(cause)) == h.handler {
            handled_spec(latched)
        } else {
            HartView { halted: true, ..latched }
        }
    }
}

/// The hart after a breakpoint instruction of `len` bytes at `pc`: the
/// trap reports the address just past the instruction.
pub open spec fn breakpoint_step(h: HartView, pc: usize, len: usize) -> HartView {
    raise_spec(h, breakpoint_spec(), (pc + len) as usize)
}

/// The hart after boot: `init`, then a breakpoint.
pub open spec fn boot_spec(h: HartView, pc: usize, len: usize) -> HartView {
    breakpoint_step(init_spec(h), pc, len)
}

impl Hart {
    /// A hart just out of reset: registers cleared, so traps are disabled,
    /// nothing written, running.
    pub fn new(handler: usize) -> (r: Hart)
        requires
            handler % 4 == 0,
        ensures
            r@.wf(),
            r@.handler == handler,
            r@.regs == (Registers { sscratch: 0, stvec: 0, sstatus: 0, scause: 0, sepc: 0 }),
            r@.log == Seq::<Diagnostic>::empty(),
            !r@.halted,
            !r@.accepts_traps(),
    {
        proof {
            lemma_reset_disables_traps(Registers { sscratch: 0, stvec: 0, sstatus: 0, scause: 0, sepc: 0 });
        }
        Hart {
            regs: Registers { sscratch: 0, stvec: 0, sstatus: 0, scause: 0, sepc: 0 },
            handler,
            log: Vec::new(),
            halted: false,
        }
    }

    /// Whether a trap raised now would be delivered.
    pub fn accepts_traps(&self) -> (r: bool)
        ensures
            r == self@.accepts_traps(),
    {
        !self.halted && sstatus_sie(self.regs.sstatus)
    }
}

/// Arms the trap controller: clears the scratch register, installs the
/// handler as the vector base in direct mode, then enables traps, and
/// reports that setup is done. The vector is in place before traps are
/// enabled. A halted hart is left as it is.
pub fn init(h: &mut Hart)
    requires
        old(h)@.wf(),
    ensures
        final(h)@ == init_spec(old(h)@),
        !old(h)@.halted ==> final(h)@.armed(),
        !old(h)@.halted ==> final(h)@.log == old(h)@.log.push(Diagnostic::SetupDone),
        !old(h)@.halted ==> final(h).regs == (Registers {
            sscratch: 0,
            stvec: old(h).handler,
            sstatus: old(h).regs.sstatus | SIE_BIT,
            ..old(h).regs
        }),
{
    proof {
        if !h@.halted {
            lemma_init_arms(h@);
        }
    }
    if h.halted {
        return;
    }
    h.regs.sscratch = 0;
    h.regs.stvec = stvec_encode(h.handler, VectorMode::Direct);
    h.regs.sstatus = sstatus_set_sie(h.regs.sstatus);
    h.log.push(Diagnostic::SetupDone);
}

/// The trap handler: reads the cause and the program counter, reports
/// both, and halts the hart for good.
pub fn trap_handler(h: &mut Hart)
    ensures
        final(h)@ == handled_spec(old(h)@),
{
    let cause = scause_decode(h.regs.scause);
    let epc = h.regs.sepc;
    h.log.push(Diagnostic::Trap { cause, epc });
    h.halted = true;
}

/// Raises a trap with the raw `scause` value `cause` and program counter
/// `epc`, and lets the hart take it.
pub fn raise(h: &mut Hart, cause: usize, epc: usize)
    ensures
        final(h)@ == raise_spec(old(h)@, cause, epc),
{
    if !h.accepts_traps() {
        return;
    }
    h.regs.scause = cause;
    h.regs.sepc = epc;
    match trap_entry(h.regs.stvec, scause_decode(cause)) {
        Some(entry) if entry == h.handler => trap_handler(h),
        _ => h.halted = true,
    }
}

/// Executes a breakpoint instruction of `len` bytes (2 when compressed,
/// else 4) at address `pc`.
pub fn breakpoint(h: &mut Hart, pc: usize, len: usize)
    requires
        len == 2 || len == 4,
        pc + len <= usize::MAX,
    ensures
        final(h)@ == breakpoint_step(old(h)@, pc, len),
{
    let code = breakpoint_code();
    raise(h, code, pc + len);
}

/// The boot path: arms the trap controller, then exercises the handler with
/// a breakpoint instruction of `len` bytes at `pc`. The hart ends halted with
/// two more lines written: the setup line, then the breakpoint's report.
pub fn rust_main(h: &mut Hart, pc: usize, len: usize)
    requires
        old(h)@.wf(),
        !old(h)@.halted,
        len == 2 || len == 4,
        pc + len <= usize::MAX,
    ensures
        final(h)@ == boot_spec(old(h)@, pc, len),
        final(h)@.halted,
        final(h)@.log == old(h)@.log.push(Diagnostic::SetupDone).push(
            Diagnostic::Trap {
                cause: TrapCause::Exception(breakpoint_spec()),
                epc: (pc + len) as usize,
            },
        ),
{
    proof {
        lemma_boot_writes_two_lines(h@, pc, len);
    }
    init(h);
    breakpoint(h, pc, len);
}

} // verus!
