//! Static keys and jump-label entries: runtime branch-hint toggling.
//!
//! A static key is a boolean whose value is compiled into the code stream as
//! a `nop` or a jump; toggling it patches the branch sites recorded in the
//! jump table.  This mechanism shares the runtime-code-patching theme with
//! the probe machinery but none of its state: the types here only model the
//! key, the table entry, and the RISC-V `jal` encoding used when a branch
//! site is turned into a jump.

use vstd::prelude::*;

verus! {

/// Jump-table branch selector: the branch taken when the key is true.
pub const BRANCH_TRUE: usize = 1;

/// Jump-table branch selector: the branch taken when the key is false.
pub const BRANCH_FALSE: usize = 0;

/// The RISC-V `nop` instruction word a disabled branch site holds.
pub const RISCV_INSN_NOP: u32 = 0x0000_0013;

/// The RISC-V `jal` opcode an enabled branch site is rewritten to.
pub const RISCV_INSN_JAL: u32 = 0x0000_006F;

/// A static key: the toggled boolean, and the address of the first
/// jump-table entry that refers to it.
pub struct StaticKey {
    enabled: bool,
    entries: usize,
}

impl StaticKey {
    /// A key that starts enabled, with no jump-table entries yet.
    pub fn default_true() -> (k: StaticKey)
        ensures
            k.spec_enabled(),
            k.spec_entries() == 0,
    {
        StaticKey { enabled: true, entries: 0 }
    }

    /// A key that starts disabled, with no jump-table entries yet.
    pub fn default_false() -> (k: StaticKey)
        ensures
            !k.spec_enabled(),
            k.spec_entries() == 0,
    {
        StaticKey { enabled: false, entries: 0 }
    }

    /// The key's current value.
    pub closed spec fn spec_enabled(&self) -> bool {
        self.enabled
    }

    /// The address of the key's first jump-table entry.
    pub closed spec fn spec_entries(&self) -> usize {
        self.entries
    }

    /// Read the key.
    pub fn is_enabled(&self) -> (r: bool)
        ensures
            r == self.spec_enabled(),
    {
        self.enabled
    }

    /// Toggle the key.
    pub fn set_enabled(&mut self, enabled: bool)
        ensures
            final(self).spec_enabled() == enabled,
            final(self).spec_entries() == old(self).spec_entries(),
    {
        self.enabled = enabled;
    }
}

/// A static key whose compiled-in default is true.
pub struct StaticKeyTrue(pub StaticKey);

impl StaticKeyTrue {
    /// A key enabled by default.
    pub fn new() -> (k: StaticKeyTrue)
        ensures
            k.0.spec_enabled(),
    {
        StaticKeyTrue(StaticKey::default_true())
    }
}

/// A static key whose compiled-in default is false.
pub struct StaticKeyFalse(pub StaticKey);

impl StaticKeyFalse {
    /// A key disabled by default.
    pub fn new() -> (k: StaticKeyFalse)
        ensures
            !k.0.spec_enabled(),
    {
        StaticKeyFalse(StaticKey::default_false())
    }
}

/// Which default a static key was declared with.
#[derive(Clone, Copy, Debug, PartialEq, Eq)]
pub enum StaticKeyType {
    StaticKeyTrue,
    StaticKeyFalse,
    Other,
}

/// Classifies a value as a default-true key, a default-false key, or
/// something else.
pub trait StaticKeyTypeTrait {
    /// The declared default of this key type.
    fn static_key_type(&self) -> StaticKeyType;
}

impl StaticKeyTypeTrait for StaticKeyTrue {
    fn static_key_type(&self) -> (t: StaticKeyType) {
        StaticKeyType::StaticKeyTrue
    }
}

impl StaticKeyTypeTrait for StaticKeyFalse {
    fn static_key_type(&self) -> (t: StaticKeyType) {
        StaticKeyType::StaticKeyFalse
    }
}

impl StaticKeyTypeTrait for StaticKey {
    fn static_key_type(&self) -> (t: StaticKeyType) {
        StaticKeyType::Other
    }
}

/// One record of the jump table: the address of the patchable branch site,
/// the jump target, and the static key's address with the branch selector
/// packed into its lowest bit.
pub struct JumpEntry {
    code: usize,
    addr: usize,
    key_addr: usize,
}

impl JumpEntry {
    /// The spec-level address of the branch site.
    pub closed spec fn spec_code(&self) -> usize {
        self.code
    }

    /// The spec-level jump target address.
    pub closed spec fn spec_addr(&self) -> usize {
        self.addr
    }

    /// The spec-level packed key address.
    pub closed spec fn spec_key_addr(&self) -> usize {
        self.key_addr
    }

    /// A jump-table record.
    pub fn new(code: usize, addr: usize, key_addr: usize) -> (e: JumpEntry)
        ensures
            e.spec_code() == code,
            e.spec_addr() == addr,
            e.spec_key_addr() == key_addr,
    {
        JumpEntry { code, addr, key_addr }
    }

    /// The address of the patchable `nop` instruction.
    pub fn code_addr(&self) -> (r: usize)
        ensures
            r == self.spec_code(),
    {
        self.code
    }

    /// The address of the target the enabled branch jumps to.
    pub fn target_addr(&self) -> (r: usize)
        ensures
            r == self.spec_addr(),
    {
        self.addr
    }

    /// The address of the static key, with the branch-selector bit masked
    /// off.
    pub fn static_key_addr(&self) -> (r: usize)
        ensures
            r == self.spec_key_addr() - self.spec_key_addr() % 2,
    {
        self.key_addr - self.key_addr % 2
    }

    /// Whether the record's branch selector is set.
    pub fn is_branch(&self) -> (r: bool)
        ensures
            r == (self.spec_key_addr() % 2 == 1),
    {
        self.key_addr % 2 == 1
    }
}

/// What a branch site currently holds.
pub enum JumpLabelType {
    Nop,
    Jmp,
}

/// The `jal` instruction word (linking to `x0`) for a signed byte offset,
/// laid out exactly as the jump-label patcher scatters the offset bits into
/// the instruction.
pub open spec fn spec_jal_to_offset(off: i32) -> u32 {
    let off_bits = off as u32;
    RISCV_INSN_JAL | ((off_bits & 0x80000000) >> 11) | ((off_bits & 0x000007FE) << 1) | ((off_bits
        & 0x00000800) << 20) | ((off_bits & 0x7FE00000) >> 9) | ((off_bits & 0x80000000) >> 20)
}

/// Encode a `jal` instruction for the given branch offset.  Offsets beyond
/// the `jal` range cannot be encoded and are rejected by precondition.
pub fn jal_to_offset(off: i32) -> (insn: u32)
    requires
        -524288 <= off <= 524288,
    ensures
        insn == spec_jal_to_offset(off),
{
    let mut insn: u32 = RISCV_INSN_JAL;
    let off_bits = #[verifier::truncate] (off as u32);
    insn = insn | ((off_bits & 0x80000000) >> 11);
    insn = insn | ((off_bits & 0x000007FE) << 1);
    insn = insn | ((off_bits & 0x00000800) << 20);
    insn = insn | ((off_bits & 0x7FE00000) >> 9);
    insn = insn | ((off_bits & 0x80000000) >> 20);
    insn
}

} // verus!
