//! Per-architecture constants of the probe machinery: the trap-instruction
//! encoding written over a probed instruction, the program-counter
//! back-adjustment used to recover the faulting address from the reported
//! counter, the native trap-instruction width, and whether the processor
//! offers a hardware single-step flag.

use vstd::prelude::*;

verus! {

/// The instruction-set architectures the probe machinery supports.
#[derive(Clone, Copy, Debug, PartialEq, Eq)]
pub enum Arch {
    X86_64,
    Riscv64,
    Loongarch64,
}

/// The RISC-V `ebreak` instruction word, written over a probed instruction
/// and appended to a staging buffer to raise the second (completion) trap.
pub const EBREAK: u32 = 0x0010_0073;

/// The x86-64 `int3` opcode (a single byte).
pub const INT3: u32 = 0xCC;

/// The LoongArch `break 0` instruction word.
pub const LOONGARCH_BREAK: u32 = 0x002A_0000;

/// How far the architecture's fault reporting advances the program counter
/// past the trap instruction when a breakpoint trap is raised.
pub open spec fn spec_pc_adjust(arch: Arch) -> int {
    match arch {
        Arch::X86_64 => 1,
        Arch::Riscv64 => 2,
        Arch::Loongarch64 => 4,
    }
}

/// The program-counter back-adjustment for `arch`.
pub fn pc_adjust(arch: Arch) -> (r: usize)
    ensures
        r == spec_pc_adjust(arch),
{
    match arch {
        Arch::X86_64 => 1,
        Arch::Riscv64 => 2,
        Arch::Loongarch64 => 4,
    }
}

/// The width in bytes of the architecture's trap instruction, used to skip
/// over a trap that no registered probe explains.
pub open spec fn spec_trap_width(arch: Arch) -> int {
    match arch {
        Arch::X86_64 => 1,
        Arch::Riscv64 => 4,
        Arch::Loongarch64 => 4,
    }
}

/// The native trap-instruction width for `arch`.
pub fn trap_width(arch: Arch) -> (r: usize)
    ensures
        r == spec_trap_width(arch),
{
    match arch {
        Arch::X86_64 => 1,
        Arch::Riscv64 => 4,
        Arch::Loongarch64 => 4,
    }
}

/// The trap-instruction encoding for `arch`.
pub open spec fn spec_trap_instruction(arch: Arch) -> u32 {
    match arch {
        Arch::X86_64 => INT3,
        Arch::Riscv64 => EBREAK,
        Arch::Loongarch64 => LOONGARCH_BREAK,
    }
}

/// The fixed bit pattern written over the original instruction.
pub fn trap_instruction(arch: Arch) -> (r: u32)
    ensures
        r == spec_trap_instruction(arch),
{
    match arch {
        Arch::X86_64 => INT3,
        Arch::Riscv64 => EBREAK,
        Arch::Loongarch64 => LOONGARCH_BREAK,
    }
}

/// Whether the processor offers a hardware single-step flag.  Only x86-64
/// does; the other architectures emulate the step with a staging buffer.
pub open spec fn spec_has_hw_single_step(arch: Arch) -> bool {
    match arch {
        Arch::X86_64 => true,
        Arch::Riscv64 => false,
        Arch::Loongarch64 => false,
    }
}

/// Whether `arch` arms the single step through a hardware flag.
pub fn has_hw_single_step(arch: Arch) -> (r: bool)
    ensures
        r == spec_has_hw_single_step(arch),
{
    match arch {
        Arch::X86_64 => true,
        Arch::Riscv64 => false,
        Arch::Loongarch64 => false,
    }
}

/// Recover the breakpoint address from the program counter a trap frame
/// reports: the reported counter minus the per-architecture adjustment.
pub fn breakpoint_address(arch: Arch, reported_pc: usize) -> (r: usize)
    requires
        reported_pc >= spec_pc_adjust(arch),
    ensures
        r == reported_pc - spec_pc_adjust(arch),
{
    reported_pc - pc_adjust(arch)
}

/// Whether a RISC-V instruction word holds a 16-bit compressed instruction:
/// its low two bits are `00`, `01` or `10` (`11` marks a 32-bit instruction).
pub open spec fn spec_insn_is_compressed(insn: u32) -> bool {
    insn % 4 != 3
}

/// The width in bytes of the instruction saved in `insn`: 2 when the low two
/// bits mark a compressed instruction, 4 otherwise.
pub open spec fn spec_insn_width(insn: u32) -> int {
    if spec_insn_is_compressed(insn) {
        2
    } else {
        4
    }
}

/// Whether the saved instruction word encodes a 16-bit compressed instruction.
pub fn insn_is_compressed(insn: u32) -> (r: bool)
    ensures
        r == spec_insn_is_compressed(insn),
{
    insn % 4 != 3
}

/// The width in bytes of the saved instruction word.
pub fn insn_width(insn: u32) -> (r: usize)
    ensures
        r == spec_insn_width(insn),
{
    if insn % 4 == 3 {
        4
    } else {
        2
    }
}

/// The width in bytes of a saved original instruction on `arch`: fixed at 4
/// on x86-64 and LoongArch, decided by the compressed-encoding rule on
/// RISC-V.
pub open spec fn spec_saved_insn_width(arch: Arch, insn: u32) -> int {
    match arch {
        Arch::Riscv64 => spec_insn_width(insn),
        Arch::X86_64 => 4,
        Arch::Loongarch64 => 4,
    }
}

/// The width in bytes of the instruction word saved from `arch` code.
pub fn saved_insn_width(arch: Arch, insn: u32) -> (r: usize)
    ensures
        r == spec_saved_insn_width(arch, insn),
{
    match arch {
        Arch::Riscv64 => insn_width(insn),
        Arch::X86_64 => 4,
        Arch::Loongarch64 => 4,
    }
}

} // verus!
