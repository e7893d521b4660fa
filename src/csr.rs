//! Bit-level views of the supervisor control and status registers, read
//! and built through the `riscv` crate's register types.

use riscv::register::scause::Scause;
use riscv::register::stvec::{Stvec, TrapMode};
use riscv::ExceptionNumber;
use vstd::prelude::*;

verus! {

/// The top bit of `scause`: set for an interrupt, clear for an exception.
pub open spec fn interrupt_bit() -> int {
    usize::MAX as int / 2 + 1
}

/// The supervisor interrupt-enable bit of `sstatus`.
pub const SIE_BIT: usize = 0x2;

/// How a trap chooses its entry point from the vector base.
#[derive(Clone, Copy, Debug, PartialEq, Eq, Structural)]
pub enum VectorMode {
    /// Every trap enters at the base address.
    Direct,
    /// Interrupts enter at the base plus four times their cause;
    /// exceptions enter at the base.
    Vectored,
}

/// The encoding of a mode in the low two bits of `stvec`.
pub open spec fn mode_bits(m: VectorMode) -> usize {
    match m {
        VectorMode::Direct => 0,
        VectorMode::Vectored => 1,
    }
}

/// A trap cause: its kind and its code.
#[derive(Clone, Copy, Debug, PartialEq, Eq, Structural)]
pub enum TrapCause {
    Interrupt(usize),
    Exception(usize),
}

/// What an `scause` value says, bit by bit.
pub open spec fn cause_of(bits: usize) -> TrapCause {
    if bits >= interrupt_bit() {
        TrapCause::Interrupt((bits - interrupt_bit()) as usize)
    } else {
        TrapCause::Exception(bits)
    }
}

/// The exception code of a breakpoint.
pub open spec fn breakpoint_spec() -> usize {
    3
}

/// Whether the interrupt-enable bit is set in an `sstatus` value.
pub open spec fn sie_of(bits: usize) -> bool {
    bits & SIE_BIT != 0
}

/// Relies on `Stvec::new` and `Stvec::bits`: an aligned base address with
/// the mode in the two low bits. `Stvec::new` panics on an unaligned base.
#[verifier::external_body]
pub(crate) fn stvec_encode(address: usize, mode: VectorMode) -> (r: usize)
    requires
        address % 4 == 0,
    ensures
        r == address + mode_bits(mode),
{
    let m = match mode {
        VectorMode::Direct => TrapMode::Direct,
        VectorMode::Vectored => TrapMode::Vectored,
    };
    Stvec::new(address, m).bits()
}

/// The vector base that an `stvec` value holds: its two mode bits cleared.
pub open spec fn base_of(bits: usize) -> int {
    bits - bits % 4
}

/// Where a trap with the given cause enters, for an `stvec` value: in
/// vectored mode an interrupt enters four bytes per cause code past the
/// base; every other trap, and every trap in any other mode, enters at the
/// base.
pub open spec fn entry_of(stvec: usize, cause: TrapCause) -> int {
    match cause {
        TrapCause::Interrupt(code) if stvec % 4 == mode_bits(VectorMode::Vectored) => base_of(
            stvec,
        ) + 4 * code,
        _ => base_of(stvec),
    }
}

/// The entry address of a trap, or `None` where it lies past the address
/// space.
pub fn trap_entry(stvec: usize, cause: TrapCause) -> (r: Option<usize>)
    ensures
        r matches Some(a) ==> a == entry_of(stvec, cause),
        r is None <==> entry_of(stvec, cause) > usize::MAX,
{
    let base = stvec - stvec % 4;
    match cause {
        TrapCause::Interrupt(code) if stvec % 4 == 1 => {
            if code > (usize::MAX - base) / 4 {
                None
            } else {
                Some(base + 4 * code)
            }
        },
        _ => Some(base),
    }
}

/// `sstatus` with the interrupt-enable bit set and every other bit kept.
pub fn sstatus_set_sie(bits: usize) -> (r: usize)
    ensures
        r == bits | SIE_BIT,
        sie_of(r),
{
    let r = bits | SIE_BIT;
    assert(r & 2usize != 0usize) by (bit_vector)
        requires
            r == bits | 2usize,
    ;
    r
}

/// Whether the interrupt-enable bit is set in an `sstatus` value.
pub fn sstatus_sie(bits: usize) -> (r: bool)
    ensures
        r == sie_of(bits),
{
    bits & SIE_BIT != 0
}

/// Relies on `Scause::cause`: the top bit tells an interrupt from an exception,
/// the other bits are the code.
#[verifier::external_body]
pub(crate) fn scause_decode(bits: usize) -> (r: TrapCause)
    ensures
        r == cause_of(bits),
{
    match Scause::from_bits(bits).cause() {
        riscv::interrupt::Trap::Interrupt(c) => TrapCause::Interrupt(c),
        riscv::interrupt::Trap::Exception(c) => TrapCause::Exception(c),
    }
}

/// Relies on `ExceptionNumber::number` of the supervisor `Breakpoint`
/// exception: its code is 3.
#[verifier::external_body]
pub(crate) fn breakpoint_code() -> (r: usize)
    ensures
        r == breakpoint_spec(),
{
    riscv::interrupt::supervisor::Exception::Breakpoint.number()
}

} // verus!
