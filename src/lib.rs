//! A supervisor-mode trap controller for a RISC-V hart, stated over a
//! register file that the caller owns, so that every step of installing
//! the trap vector and handling a trap is checked.

pub mod csr;
pub mod hart;
pub mod laws;
