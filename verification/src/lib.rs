//! Dynamic code-breakpoint instrumentation ("kprobes") for a bare-metal kernel.
//!
//! A probe is attached to an instruction address in running code.  Installing
//! it saves the original instruction word and writes the architecture's trap
//! instruction in its place.  When the patched address is executed, the
//! breakpoint trap handler looks the address up in a registry, runs the
//! probe's enter handler, and arranges for the original instruction to execute
//! exactly once (by hardware single-step, or by staging a copy of the
//! instruction followed by a second trap).  The completion trap handler then
//! runs the exit handler and resumes normal control flow.
//!
//! Code memory is modelled explicitly ([`memory::CodeMemory`]), so every byte
//! written by install, uninstall and the single-step staging path is specified
//! and proved exactly.

pub mod arch;
pub mod bpf;
pub mod dispatch;
pub mod jump_label;
pub mod memory;
pub mod probe;
pub mod regs;
