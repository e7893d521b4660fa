use trapctl::csr::{trap_entry, TrapCause};
use trapctl::hart::{breakpoint, init, raise, rust_main, trap_handler, Diagnostic, Hart, Registers};

const HANDLER: usize = 0x8020_0040;
const BREAKPOINT: usize = 3;
const INTERRUPT: usize = 1usize << (usize::BITS - 1);

fn trap_line(code: usize, epc: usize) -> Diagnostic {
    Diagnostic::Trap { cause: TrapCause::Exception(code), epc }
}

#[test]
fn reset_hart_is_clear_and_running() {
    let h = Hart::new(HANDLER);
    assert_eq!(h.regs, Registers { sscratch: 0, stvec: 0, sstatus: 0, scause: 0, sepc: 0 });
    assert!(h.log.is_empty());
    assert!(!h.halted);
    assert!(!h.accepts_traps());
}

#[test]
fn boot_prints_setup_then_breakpoint_report_and_halts() {
    let mut h = Hart::new(HANDLER);
    rust_main(&mut h, 0x8020_1000, 4);
    assert_eq!(h.log, vec![Diagnostic::SetupDone, trap_line(BREAKPOINT, 0x8020_1004)]);
    assert!(h.halted);
}

#[test]
fn init_then_breakpoint_writes_exactly_two_lines_in_order() {
    let mut h = Hart::new(HANDLER);
    init(&mut h);
    assert_eq!(h.log, vec![Diagnostic::SetupDone]);
    breakpoint(&mut h, 0x100, 4);
    assert_eq!(h.log.len(), 2);
    assert_eq!(h.log[0], Diagnostic::SetupDone);
    assert!(matches!(h.log[1], Diagnostic::Trap { .. }));
    assert!(h.halted);
}

#[test]
fn breakpoint_reports_address_past_instruction() {
    let mut h = Hart::new(HANDLER);
    init(&mut h);
    breakpoint(&mut h, 0x8020_2000, 4);
    assert_eq!(h.log[1], trap_line(BREAKPOINT, 0x8020_2004));
    assert_eq!(h.regs.sepc, 0x8020_2004);

    let mut c = Hart::new(HANDLER);
    init(&mut c);
    breakpoint(&mut c, 0x8020_2002, 2);
    assert_eq!(c.log[1], trap_line(BREAKPOINT, 0x8020_2004));
}

#[test]
fn breakpoint_cause_is_breakpoint_exception() {
    let mut h = Hart::new(HANDLER);
    init(&mut h);
    breakpoint(&mut h, 0x40, 4);
    assert_eq!(h.regs.scause, 3);
    match h.log[1] {
        Diagnostic::Trap { cause: TrapCause::Exception(code), .. } => assert_eq!(code, 3),
        other => panic!("unexpected line {:?}", other),
    }
}

#[test]
fn second_init_leaves_registers_as_one_call() {
    let mut once = Hart::new(HANDLER);
    once.regs.sstatus = 0x20;
    init(&mut once);
    let mut twice = Hart::new(HANDLER);
    twice.regs.sstatus = 0x20;
    init(&mut twice);
    init(&mut twice);
    assert_eq!(once.regs, twice.regs);
    assert!(!twice.halted);
    assert_eq!(twice.log, vec![Diagnostic::SetupDone, Diagnostic::SetupDone]);
}

#[test]
fn disabled_traps_reach_no_handler() {
    let mut h = Hart::new(HANDLER);
    h.regs.stvec = HANDLER;
    breakpoint(&mut h, 0x200, 4);
    raise(&mut h, INTERRUPT | 5, 0x300);
    assert!(h.log.is_empty());
    assert!(!h.halted);
    assert_eq!(h.regs.scause, 0);
    assert_eq!(h.regs.sepc, 0);
}

#[test]
fn enabled_traps_without_vector_halt_silently() {
    let mut h = Hart::new(HANDLER);
    h.regs.sstatus = 0x2;
    breakpoint(&mut h, 0x200, 4);
    assert!(h.log.is_empty());
    assert!(h.halted);
}

#[test]
fn halted_hart_makes_no_progress() {
    let mut h = Hart::new(HANDLER);
    rust_main(&mut h, 0x1000, 4);
    let before = h.log.clone();
    init(&mut h);
    breakpoint(&mut h, 0x2000, 4);
    assert_eq!(h.log, before);
    assert!(h.halted);
}

#[test]
fn init_installs_direct_vector_and_enables_traps() {
    let mut h = Hart::new(HANDLER);
    h.regs.sscratch = 0x1234;
    init(&mut h);
    assert_eq!(h.regs.sscratch, 0);
    assert_eq!(h.regs.stvec, HANDLER);
    assert_eq!(h.regs.sstatus, 0x2);
    assert!(h.accepts_traps());
}

#[test]
fn init_sets_only_the_enable_bit() {
    let mut h = Hart::new(HANDLER);
    h.regs.sstatus = 4;
    init(&mut h);
    assert_eq!(h.regs.sstatus, 6);

    let mut g = Hart::new(HANDLER);
    g.regs.sstatus = 0x100 | 0x20 | 0x1;
    g.regs.scause = 9;
    g.regs.sepc = 0x44;
    init(&mut g);
    assert_eq!(g.regs.sstatus, 0x100 | 0x20 | 0x2 | 0x1);
    assert_eq!(g.regs.scause, 9);
    assert_eq!(g.regs.sepc, 0x44);
}

#[test]
fn interrupt_cause_is_reported_as_interrupt() {
    let mut h = Hart::new(HANDLER);
    init(&mut h);
    raise(&mut h, INTERRUPT | 5, 0x8020_3000);
    assert_eq!(
        h.log[1],
        Diagnostic::Trap { cause: TrapCause::Interrupt(5), epc: 0x8020_3000 }
    );
}

#[test]
fn vectored_mode_sends_exceptions_to_base() {
    let mut h = Hart::new(HANDLER);
    h.regs.sstatus = 0x2;
    h.regs.stvec = HANDLER + 1;
    raise(&mut h, 2, 0x500);
    assert_eq!(h.log, vec![trap_line(2, 0x500)]);
}

#[test]
fn vectored_mode_sends_interrupts_past_base() {
    let mut h = Hart::new(HANDLER);
    h.regs.sstatus = 0x2;
    h.regs.stvec = HANDLER + 1;
    raise(&mut h, INTERRUPT | 5, 0x500);
    assert!(h.log.is_empty());
    assert!(h.halted);

    let mut g = Hart::new(HANDLER);
    g.regs.sstatus = 0x2;
    g.regs.stvec = (HANDLER - 20) + 1;
    raise(&mut g, INTERRUPT | 5, 0x500);
    assert_eq!(
        g.log,
        vec![Diagnostic::Trap { cause: TrapCause::Interrupt(5), epc: 0x500 }]
    );
}

#[test]
fn trap_entry_by_mode_and_cause() {
    assert_eq!(trap_entry(0x1000, TrapCause::Interrupt(5)), Some(0x1000));
    assert_eq!(trap_entry(0x1001, TrapCause::Interrupt(5)), Some(0x1014));
    assert_eq!(trap_entry(0x1001, TrapCause::Exception(3)), Some(0x1000));
    assert_eq!(trap_entry(0x1003, TrapCause::Interrupt(5)), Some(0x1000));
    assert_eq!(trap_entry(usize::MAX - 2, TrapCause::Interrupt(1)), None);
}

#[test]
fn handler_reports_latched_registers() {
    let mut h = Hart::new(HANDLER);
    h.regs.scause = 13;
    h.regs.sepc = 0x777;
    trap_handler(&mut h);
    assert_eq!(h.log, vec![trap_line(13, 0x777)]);
    assert!(h.halted);
}
