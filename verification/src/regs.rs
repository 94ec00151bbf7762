//! Register snapshots and the trap frame handed to the probe entry points.
//!
//! The general register file is captured as a flat array of 32 machine words,
//! the layout the two RISC architectures share.  Handlers receive the
//! snapshot read-only: they observe register state but cannot redirect
//! execution.

use vstd::prelude::*;

verus! {

/// A snapshot of the general-purpose register file at trap time.
#[derive(Debug)]
pub struct PtRegs {
    pub x: [usize; 32],
}

/// The mutable trap frame the trap dispatcher hands to this core: the
/// register snapshot, the saved processor status word, and the reported
/// program counter.  Only `status` (the single-step flag) and `sepc` are
/// ever written by the probe machinery; the registers are read-only.
#[derive(Debug)]
pub struct TrapFrame {
    pub pt_regs: PtRegs,
    pub status: usize,
    pub sepc: usize,
}

} // verus!
