//! The probe entity and its builder.
//!
//! A [`Kprobe`] owns its symbol metadata, the probed target address, the
//! saved original instruction word, the address of a small private staging
//! buffer (used by architectures without a hardware single-step flag), and a
//! handler capability.  `install` saves the word at the target address and
//! writes the trap instruction over it; `uninstall` writes the saved word
//! back and returns the resume address, whose distance from the target is
//! decided by the saved instruction's own width.

use vstd::prelude::*;

use crate::arch::{
    saved_insn_width, spec_saved_insn_width, spec_trap_instruction, trap_instruction, Arch,
};
use crate::memory::{
    lemma_patch_round_trip, lemma_store_word_roundtrip, store_half, store_word, word_at,
    CodeMemory,
};
use crate::regs::PtRegs;

verus! {

/// The handler capability a probe carries: three observer callbacks, each
/// taking a read-only register snapshot.  Handlers observe register state;
/// they cannot redirect execution, block, or allocate unboundedly.
pub trait ProbeHandler {
    /// Runs when the probed address is reached, before the original
    /// instruction executes.
    fn on_enter(&mut self, regs: &PtRegs);

    /// Runs after the original instruction has executed exactly once.
    fn on_exit(&mut self, regs: &PtRegs);

    /// Runs if the single-stepped instruction faults.
    fn on_fault(&mut self, regs: &PtRegs);
}

/// The default handler: observes nothing.
pub struct NopHandler;

impl ProbeHandler for NopHandler {
    fn on_enter(&mut self, _regs: &PtRegs) {
    }

    fn on_exit(&mut self, _regs: &PtRegs) {
    }

    fn on_fault(&mut self, _regs: &PtRegs) {
    }
}

/// The spec-level state of a probe.  The handler is deliberately absent:
/// contracts speak only of the probe's addresses, saved instruction and
/// lifecycle stage.
pub ghost struct ProbeView {
    /// The architecture whose trap encoding and width rules the probe
    /// patches with.
    pub arch: Arch,
    /// Human-readable symbol name, for diagnostics only.
    pub symbol: Seq<char>,
    /// Base address of the probed symbol.
    pub symbol_addr: usize,
    /// Offset of the probed instruction from `symbol_addr`.
    pub offset: usize,
    /// The instruction word saved by `install` (0 before installation).
    pub old_instruction: u32,
    /// Address of the probe's private 8-byte staging buffer.
    pub inst_tmp_addr: usize,
    /// Whether the trap instruction currently sits at the target address.
    pub installed: bool,
}

impl ProbeView {
    /// The addresses a probe computes with stay representable: the target
    /// address plus an instruction width, and the staging buffer's two
    /// instruction slots, fit in the address space.
    pub open spec fn wf(self) -> bool {
        &&& self.symbol_addr + self.offset + 4 <= usize::MAX
        &&& self.inst_tmp_addr + 8 <= usize::MAX
    }

    /// The probed target address: `symbol_addr + offset`.
    pub open spec fn address(self) -> usize {
        (self.symbol_addr + self.offset) as usize
    }

    /// The width in bytes of the saved original instruction.
    pub open spec fn insn_width(self) -> int {
        spec_saved_insn_width(self.arch, self.old_instruction)
    }

    /// Where execution resumes after the probe fires: the instruction
    /// boundary immediately after the probed instruction.
    pub open spec fn return_address(self) -> usize {
        (self.address() + self.insn_width()) as usize
    }

    /// The entry of the staging buffer, where the copied original
    /// instruction is placed.
    pub open spec fn single_step_address(self) -> usize {
        self.inst_tmp_addr
    }

    /// The address inside the staging buffer where the completion trap is
    /// raised: directly after the copied original instruction.
    pub open spec fn step_trap_address(self) -> usize {
        (self.inst_tmp_addr + self.insn_width()) as usize
    }
}

/// A probe: an instrumentation point at one instruction address.
pub struct Kprobe<H> {
    arch: Arch,
    symbol: String,
    symbol_addr: usize,
    offset: usize,
    old_instruction: u32,
    inst_tmp_addr: usize,
    installed: bool,
    handler: H,
}

impl<H> View for Kprobe<H> {
    type V = ProbeView;

    closed spec fn view(&self) -> ProbeView {
        ProbeView {
            arch: self.arch,
            symbol: self.symbol@,
            symbol_addr: self.symbol_addr,
            offset: self.offset,
            old_instruction: self.old_instruction,
            inst_tmp_addr: self.inst_tmp_addr,
            installed: self.installed,
        }
    }
}

impl<H: ProbeHandler> Kprobe<H> {
    /// An uninstalled probe for the instruction at `symbol_addr + offset`,
    /// with a private staging buffer at `inst_tmp_addr` and the given
    /// handler capability.
    ///
    /// The caller must guarantee that the target address references the
    /// start of a real instruction boundary; the probe machinery never
    /// disassembles surrounding code to verify this.
    pub fn new(
        symbol: String,
        symbol_addr: usize,
        offset: usize,
        inst_tmp_addr: usize,
        arch: Arch,
        handler: H,
    ) -> (p: Kprobe<H>)
        requires
            symbol_addr + offset + 4 <= usize::MAX,
            inst_tmp_addr + 8 <= usize::MAX,
        ensures
            p@ == (ProbeView {
                arch,
                symbol: symbol@,
                symbol_addr,
                offset,
                old_instruction: 0,
                inst_tmp_addr,
                installed: false,
            }),
    {
        Kprobe {
            arch,
            symbol,
            symbol_addr,
            offset,
            old_instruction: 0,
            inst_tmp_addr,
            installed: false,
            handler,
        }
    }

    /// The probed target address.
    pub fn address(&self) -> (r: usize)
        requires
            self@.wf(),
        ensures
            r == self@.address(),
    {
        self.symbol_addr + self.offset
    }

    /// The instruction word saved by `install`.
    pub fn old_inst(&self) -> (r: u32)
        ensures
            r == self@.old_instruction,
    {
        self.old_instruction
    }

    /// Whether the trap instruction currently sits at the target address.
    pub fn is_installed(&self) -> (r: bool)
        ensures
            r == self@.installed,
    {
        self.installed
    }

    /// Where execution resumes after this probe fires.
    pub fn return_address(&self) -> (r: usize)
        requires
            self@.wf(),
            self@.installed,
        ensures
            r == self@.return_address(),
    {
        self.symbol_addr + self.offset + saved_insn_width(self.arch, self.old_instruction)
    }

    /// The entry of the staging buffer.
    pub fn single_step_address(&self) -> (r: usize)
        ensures
            r == self@.single_step_address(),
    {
        self.inst_tmp_addr
    }

    /// The address at which the completion (debug) trap for this probe is
    /// reported: directly after the staged copy of the original instruction.
    pub fn debug_address(&self) -> (r: usize)
        requires
            self@.wf(),
            self@.installed,
        ensures
            r == self@.step_trap_address(),
    {
        self.inst_tmp_addr + saved_insn_width(self.arch, self.old_instruction)
    }

    /// Save the word at the target address and write the trap instruction
    /// over it.  Not idempotent: the caller must guarantee at most one
    /// install per address, or the saved original would be lost.
    pub fn install(&mut self, mem: &mut CodeMemory)
        requires
            old(self)@.wf(),
            !old(self)@.installed,
            old(mem)@.in_range(old(self)@.address(), 4),
        ensures
            final(self)@ == (ProbeView {
                old_instruction: old(mem)@.word(old(self)@.address()),
                installed: true,
                ..old(self)@
            }),
            final(mem)@.base == old(mem)@.base,
            final(mem)@.bytes == store_word(
                old(mem)@.bytes,
                old(mem)@.offset(old(self)@.address()),
                spec_trap_instruction(old(self)@.arch),
            ),
            final(mem)@.word(old(self)@.address()) == spec_trap_instruction(old(self)@.arch),
    {
        let address = self.symbol_addr + self.offset;
        self.old_instruction = mem.read_word(address);
        mem.write_word(address, trap_instruction(self.arch));
        self.installed = true;
        proof {
            lemma_store_word_roundtrip(
                old(mem)@.bytes,
                old(mem)@.offset(address),
                spec_trap_instruction(self.arch),
            );
        }
    }

    /// Write the saved original word back and return the resume address:
    /// the target address plus the saved instruction's width (2 for a
    /// 16-bit-encoded instruction, 4 for a 32-bit one).
    pub fn uninstall(&mut self, mem: &mut CodeMemory) -> (r: usize)
        requires
            old(self)@.wf(),
            old(self)@.installed,
            old(mem)@.in_range(old(self)@.address(), 4),
        ensures
            final(self)@ == (ProbeView { installed: false, ..old(self)@ }),
            final(mem)@.base == old(mem)@.base,
            final(mem)@.bytes == store_word(
                old(mem)@.bytes,
                old(mem)@.offset(old(self)@.address()),
                old(self)@.old_instruction,
            ),
            final(mem)@.word(old(self)@.address()) == old(self)@.old_instruction,
            r == old(self)@.return_address(),
    {
        let address = self.symbol_addr + self.offset;
        mem.write_word(address, self.old_instruction);
        self.installed = false;
        proof {
            lemma_store_word_roundtrip(
                old(mem)@.bytes,
                old(mem)@.offset(address),
                self.old_instruction,
            );
        }
        address + saved_insn_width(self.arch, self.old_instruction)
    }

    /// Synthesize, into the staging buffer, the saved original instruction
    /// followed immediately by a trap instruction at the natural offset.
    /// Returns the pair `(entry_address, trap_address)` inside the buffer:
    /// redirecting the program counter to `entry_address` executes the
    /// original instruction exactly once before trapping at `trap_address`.
    pub fn simulate_single_step(&self, mem: &mut CodeMemory) -> (r: (usize, usize))
        requires
            self@.wf(),
            self@.installed,
            old(mem)@.in_range(self@.inst_tmp_addr, 8),
        ensures
            r.0 == self@.single_step_address(),
            r.1 == self@.step_trap_address(),
            final(mem)@.base == old(mem)@.base,
            final(mem)@.bytes == staged_bytes(
                self@.arch,
                old(mem)@.bytes,
                old(mem)@.offset(self@.inst_tmp_addr),
                self@.old_instruction,
            ),
    {
        let entry = self.inst_tmp_addr;
        if saved_insn_width(self.arch, self.old_instruction) == 2 {
            mem.write_half(entry, (self.old_instruction % 0x10000) as u16);
            mem.write_word(entry + 2, trap_instruction(self.arch));
            (entry, entry + 2)
        } else {
            mem.write_word(entry, self.old_instruction);
            mem.write_word(entry + 4, trap_instruction(self.arch));
            (entry, entry + 4)
        }
    }

    /// Invoke the enter handler with the given register snapshot.
    pub fn pre_handler(&mut self, regs: &PtRegs)
        ensures
            final(self)@ == old(self)@,
    {
        self.handler.on_enter(regs);
    }

    /// Invoke the exit handler with the given register snapshot.
    pub fn post_handler(&mut self, regs: &PtRegs)
        ensures
            final(self)@ == old(self)@,
    {
        self.handler.on_exit(regs);
    }

    /// Invoke the fault handler with the given register snapshot.
    pub fn fault_handler(&mut self, regs: &PtRegs)
        ensures
            final(self)@ == old(self)@,
    {
        self.handler.on_fault(regs);
    }
}

/// The bytes of a staging buffer synthesized at offset `i`: the original
/// instruction (2 or 4 bytes, by the architecture's width rule) followed by
/// the architecture's trap instruction in the trailing word.
pub open spec fn staged_bytes(arch: Arch, bytes: Seq<u8>, i: int, insn: u32) -> Seq<u8> {
    if spec_saved_insn_width(arch, insn) == 2 {
        store_word(store_half(bytes, i, (insn % 0x10000) as u16), i + 2, spec_trap_instruction(arch))
    } else {
        store_word(store_word(bytes, i, insn), i + 4, spec_trap_instruction(arch))
    }
}

/// **Round trip**: `install` writes the architecture's trap instruction
/// over the probed word after saving it, and `uninstall` writes the saved
/// word back — composing the two byte-level effects leaves the code exactly
/// as it was before the install.
pub proof fn lemma_install_uninstall_round_trip(bytes: Seq<u8>, i: int, arch: Arch)
    requires
        0 <= i,
        i + 4 <= bytes.len(),
    ensures
        store_word(store_word(bytes, i, spec_trap_instruction(arch)), i, word_at(bytes, i))
            == bytes,
{
    lemma_patch_round_trip(bytes, i, spec_trap_instruction(arch));
}

/// Why a probe could not be built.
#[derive(Clone, Copy, Debug, PartialEq, Eq)]
pub enum KprobeBuilderError {
    /// No target address was supplied.
    MissingTargetAddress,
    /// The target or staging address leaves no room for an instruction
    /// below the top of the address space.
    AddressOutOfRange,
}

/// Accumulates a probe's fields and validates them.  The builder does not
/// touch any registry: registration stays the caller's responsibility.
pub struct KprobeBuilder<H> {
    arch: Arch,
    symbol: Option<String>,
    symbol_addr: Option<usize>,
    offset: usize,
    staging_addr: Option<usize>,
    handler: H,
}

/// The spec-level state of a builder.
pub ghost struct BuilderView {
    pub arch: Arch,
    pub symbol: Option<Seq<char>>,
    pub symbol_addr: Option<usize>,
    pub offset: usize,
    pub staging_addr: Option<usize>,
}

impl<H> View for KprobeBuilder<H> {
    type V = BuilderView;

    closed spec fn view(&self) -> BuilderView {
        BuilderView {
            arch: self.arch,
            symbol: match self.symbol {
                Some(s) => Some(s@),
                None => None,
            },
            symbol_addr: self.symbol_addr,
            offset: self.offset,
            staging_addr: self.staging_addr,
        }
    }
}

impl BuilderView {
    /// The symbol name the built probe will carry: the supplied one, or
    /// empty.
    pub open spec fn symbol_or_empty(self) -> Seq<char> {
        match self.symbol {
            Some(s) => s,
            None => Seq::empty(),
        }
    }

    /// The staging-buffer address the built probe will carry: the supplied
    /// one, or 0.
    pub open spec fn staging_or_zero(self) -> usize {
        match self.staging_addr {
            Some(t) => t,
            None => 0,
        }
    }

    /// Whether the supplied addresses leave room for the instruction slots.
    pub open spec fn addresses_in_range(self) -> bool {
        &&& self.symbol_addr matches Some(a) ==> a + self.offset + 4 <= usize::MAX
        &&& self.staging_or_zero() + 8 <= usize::MAX
    }
}

impl KprobeBuilder<NopHandler> {
    /// An empty builder for a RISC-V probe; missing handlers default to
    /// no-ops.
    pub fn new() -> (b: KprobeBuilder<NopHandler>)
        ensures
            b@ == (BuilderView {
                arch: Arch::Riscv64,
                symbol: None::<Seq<char>>,
                symbol_addr: None::<usize>,
                offset: 0usize,
                staging_addr: None::<usize>,
            }),
    {
        KprobeBuilder {
            arch: Arch::Riscv64,
            symbol: None,
            symbol_addr: None,
            offset: 0,
            staging_addr: None,
            handler: NopHandler,
        }
    }
}

impl<H: ProbeHandler> KprobeBuilder<H> {
    /// Record the architecture the probe patches for.
    pub fn arch(self, arch: Arch) -> (b: KprobeBuilder<H>)
        ensures
            b@ == (BuilderView { arch, ..self@ }),
    {
        KprobeBuilder { arch, ..self }
    }

    /// Record the probed symbol's name.
    pub fn symbol(self, symbol: String) -> (b: KprobeBuilder<H>)
        ensures
            b@ == (BuilderView { symbol: Some(symbol@), ..self@ }),
    {
        KprobeBuilder { symbol: Some(symbol), ..self }
    }

    /// Record the probed symbol's base address.
    pub fn symbol_addr(self, symbol_addr: usize) -> (b: KprobeBuilder<H>)
        ensures
            b@ == (BuilderView { symbol_addr: Some(symbol_addr), ..self@ }),
    {
        KprobeBuilder { symbol_addr: Some(symbol_addr), ..self }
    }

    /// Record the offset of the probed instruction from the symbol base.
    pub fn offset(self, offset: usize) -> (b: KprobeBuilder<H>)
        ensures
            b@ == (BuilderView { offset, ..self@ }),
    {
        KprobeBuilder { offset, ..self }
    }

    /// Record the address of the probe's private staging buffer.
    pub fn staging_addr(self, staging_addr: usize) -> (b: KprobeBuilder<H>)
        ensures
            b@ == (BuilderView { staging_addr: Some(staging_addr), ..self@ }),
    {
        KprobeBuilder { staging_addr: Some(staging_addr), ..self }
    }

    /// Replace the handler capability.
    pub fn handler<H2: ProbeHandler>(self, handler: H2) -> (b: KprobeBuilder<H2>)
        ensures
            b@ == self@,
    {
        let KprobeBuilder { arch, symbol, symbol_addr, offset, staging_addr, handler: _ } = self;
        KprobeBuilder { arch, symbol, symbol_addr, offset, staging_addr, handler }
    }

    /// Validate the accumulated fields and yield an uninstalled probe.
    /// Fails exactly when no target address was supplied, or when an
    /// address leaves no room for the instruction slots.
    pub fn build(self) -> (r: Result<Kprobe<H>, KprobeBuilderError>)
        ensures
            match r {
                Ok(p) => {
                    &&& self@.symbol_addr matches Some(a)
                    &&& self@.addresses_in_range()
                    &&& p@ == (ProbeView {
                        arch: self@.arch,
                        symbol: self@.symbol_or_empty(),
                        symbol_addr: self@.symbol_addr->Some_0,
                        offset: self@.offset,
                        old_instruction: 0,
                        inst_tmp_addr: self@.staging_or_zero(),
                        installed: false,
                    })
                },
                Err(KprobeBuilderError::MissingTargetAddress) => self@.symbol_addr is None,
                Err(KprobeBuilderError::AddressOutOfRange) => {
                    &&& self@.symbol_addr is Some
                    &&& !self@.addresses_in_range()
                },
            },
    {
        let KprobeBuilder { arch, symbol, symbol_addr, offset, staging_addr, handler } = self;
        let symbol_addr = match symbol_addr {
            Some(a) => a,
            None => {
                return Err(KprobeBuilderError::MissingTargetAddress);
            },
        };
        let staging = match staging_addr {
            Some(t) => t,
            None => 0,
        };
        if symbol_addr > usize::MAX - 4 || offset > usize::MAX - 4 - symbol_addr || staging
            > usize::MAX - 8 {
            return Err(KprobeBuilderError::AddressOutOfRange);
        }
        let symbol = match symbol {
            Some(s) => s,
            None => String::new(),
        };
        Ok(Kprobe::new(symbol, symbol_addr, offset, staging, arch, handler))
    }
}

} // verus!
