//! An explicit model of the patchable code memory.
//!
//! The probe machinery reads and writes machine words at instruction
//! addresses.  [`CodeMemory`] owns the bytes of one contiguous executable
//! region, addressed from `base`, so that every patch — installing a trap
//! instruction, restoring the original word, synthesizing a staging buffer —
//! is specified byte for byte.  Words are stored little-endian, as on all
//! three supported architectures.

use vstd::prelude::*;

verus! {

/// The little-endian bytes of a 32-bit word, lowest byte first.
pub open spec fn le_bytes(w: u32) -> Seq<u8> {
    seq![
        (w % 0x100) as u8,
        ((w / 0x100) % 0x100) as u8,
        ((w / 0x10000) % 0x100) as u8,
        ((w / 0x1000000) % 0x100) as u8,
    ]
}

/// The little-endian bytes of a 16-bit halfword, lowest byte first.
pub open spec fn le_half_bytes(h: u16) -> Seq<u8> {
    seq![(h % 0x100) as u8, ((h / 0x100) % 0x100) as u8]
}

/// The 32-bit word stored little-endian at offset `i` of `bytes`.
pub open spec fn word_at(bytes: Seq<u8>, i: int) -> u32
    recommends
        0 <= i,
        i + 4 <= bytes.len(),
{
    (bytes[i] + bytes[i + 1] * 0x100 + bytes[i + 2] * 0x10000 + bytes[i + 3] * 0x1000000) as u32
}

/// `bytes` with the little-endian encoding of `w` stored at offset `i`.
pub open spec fn store_word(bytes: Seq<u8>, i: int, w: u32) -> Seq<u8>
    recommends
        0 <= i,
        i + 4 <= bytes.len(),
{
    bytes.update(i, le_bytes(w)[0]).update(i + 1, le_bytes(w)[1]).update(i + 2, le_bytes(w)[2])
        .update(i + 3, le_bytes(w)[3])
}

/// `bytes` with the little-endian encoding of `h` stored at offset `i`.
pub open spec fn store_half(bytes: Seq<u8>, i: int, h: u16) -> Seq<u8>
    recommends
        0 <= i,
        i + 2 <= bytes.len(),
{
    bytes.update(i, le_half_bytes(h)[0]).update(i + 1, le_half_bytes(h)[1])
}

/// Decoding a word from its own little-endian bytes gives the word back.
pub proof fn lemma_le_bytes_decode(w: u32)
    ensures
        le_bytes(w)[0] + le_bytes(w)[1] * 0x100 + le_bytes(w)[2] * 0x10000 + le_bytes(w)[3]
            * 0x1000000 == w,
{
    let r1 = w / 0x100;
    let r2 = r1 / 0x100;
    let r3 = r2 / 0x100;
    assert(w == 0x100 * r1 + w % 0x100);
    assert(r1 == 0x100 * r2 + r1 % 0x100);
    assert(r2 == 0x100 * r3 + r2 % 0x100);
    assert(r3 < 0x100);
    assert(r3 % 0x100 == r3);
}

/// Storing a word and reading it back at the same offset gives the word.
pub proof fn lemma_store_word_roundtrip(bytes: Seq<u8>, i: int, w: u32)
    requires
        0 <= i,
        i + 4 <= bytes.len(),
    ensures
        word_at(store_word(bytes, i, w), i) == w,
        store_word(bytes, i, w).len() == bytes.len(),
        forall|j: int| 0 <= j < bytes.len() && !(i <= j < i + 4) ==> store_word(bytes, i, w)[j] == bytes[j],
{
    lemma_le_bytes_decode(w);
}

/// **Round trip**: writing any word over offset `i` and then writing back the
/// word originally stored there restores the byte content exactly.  This is
/// what guarantees that `install` followed by `uninstall` leaves the probed
/// code identical to its pre-install state.
pub proof fn lemma_patch_round_trip(bytes: Seq<u8>, i: int, w: u32)
    requires
        0 <= i,
        i + 4 <= bytes.len(),
    ensures
        store_word(store_word(bytes, i, w), i, word_at(bytes, i)) == bytes,
{
    let saved = word_at(bytes, i);
    let b0 = bytes[i];
    let b1 = bytes[i + 1];
    let b2 = bytes[i + 2];
    let b3 = bytes[i + 3];
    let v = b0 + b1 * 0x100 + b2 * 0x10000 + b3 * 0x1000000;
    assert(v < 0x1_0000_0000);
    assert(saved == v);
    assert(v % 0x100 == b0) by {
        assert(v == (b1 + b2 * 0x100 + b3 * 0x10000) * 0x100 + b0);
    }
    assert(v / 0x100 == b1 + b2 * 0x100 + b3 * 0x10000) by {
        assert(v == (b1 + b2 * 0x100 + b3 * 0x10000) * 0x100 + b0);
    }
    assert((v / 0x100) % 0x100 == b1) by {
        assert(v / 0x100 == (b2 + b3 * 0x100) * 0x100 + b1);
    }
    assert(v / 0x10000 == b2 + b3 * 0x100) by {
        assert(v == (b2 + b3 * 0x100) * 0x10000 + (b0 + b1 * 0x100));
        assert(b0 + b1 * 0x100 < 0x10000);
    }
    assert((v / 0x10000) % 0x100 == b2) by {
        assert(v / 0x10000 == b3 * 0x100 + b2);
    }
    assert(v / 0x1000000 == b3) by {
        assert(v == b3 * 0x1000000 + (b0 + b1 * 0x100 + b2 * 0x10000));
        assert(b0 + b1 * 0x100 + b2 * 0x10000 < 0x1000000);
    }
    assert(le_bytes(saved)[0] == b0);
    assert(le_bytes(saved)[1] == b1);
    assert(le_bytes(saved)[2] == b2);
    assert(le_bytes(saved)[3] == b3);
    assert(store_word(store_word(bytes, i, w), i, saved) =~= bytes);
}

/// The spec-level state of a [`CodeMemory`]: its base address and bytes.
pub ghost struct CodeMemoryView {
    pub base: usize,
    pub bytes: Seq<u8>,
}

impl CodeMemoryView {
    /// Whether addresses `addr .. addr + n` all fall inside this region
    /// (and the arithmetic on them cannot overflow).
    pub open spec fn in_range(self, addr: usize, n: int) -> bool {
        self.base <= addr && addr + n <= self.base + self.bytes.len() && self.base
            + self.bytes.len() <= usize::MAX
    }

    /// The offset of address `addr` from the region's base.
    pub open spec fn offset(self, addr: usize) -> int {
        addr - self.base
    }

    /// The word stored at address `addr`.
    pub open spec fn word(self, addr: usize) -> u32 {
        word_at(self.bytes, self.offset(addr))
    }
}

/// One contiguous region of patchable executable memory, starting at `base`.
pub struct CodeMemory {
    base: usize,
    bytes: Vec<u8>,
}

impl View for CodeMemory {
    type V = CodeMemoryView;

    closed spec fn view(&self) -> CodeMemoryView {
        CodeMemoryView { base: self.base, bytes: self.bytes@ }
    }
}

impl CodeMemory {
    /// A region holding `contents`, addressed from `base`.
    pub fn new(base: usize, contents: Vec<u8>) -> (m: CodeMemory)
        requires
            base + contents@.len() <= usize::MAX,
        ensures
            m@ == (CodeMemoryView { base, bytes: contents@ }),
    {
        CodeMemory { base, bytes: contents }
    }

    /// The region's base address.
    pub fn base(&self) -> (r: usize)
        ensures
            r == self@.base,
    {
        self.base
    }

    /// The region's size in bytes.
    pub fn len(&self) -> (r: usize)
        ensures
            r == self@.bytes.len(),
    {
        self.bytes.len()
    }

    /// Whether `addr .. addr + n` lies inside the region.
    pub fn contains_range(&self, addr: usize, n: usize) -> (r: bool)
        ensures
            r == self@.in_range(addr, n as int),
    {
        self.base <= addr && self.bytes.len() >= n && addr - self.base <= self.bytes.len() - n
            && self.base <= usize::MAX - self.bytes.len()
    }

    /// The byte stored at address `addr`.
    pub fn read_byte(&self, addr: usize) -> (r: u8)
        requires
            self@.in_range(addr, 1),
        ensures
            r == self@.bytes[self@.offset(addr)],
    {
        self.bytes[addr - self.base]
    }

    /// The 32-bit word stored little-endian at address `addr`.
    pub fn read_word(&self, addr: usize) -> (r: u32)
        requires
            self@.in_range(addr, 4),
        ensures
            r == self@.word(addr),
    {
        let i = addr - self.base;
        let b0 = self.bytes[i] as u32;
        let b1 = self.bytes[i + 1] as u32;
        let b2 = self.bytes[i + 2] as u32;
        let b3 = self.bytes[i + 3] as u32;
        b0 + b1 * 0x100 + b2 * 0x10000 + b3 * 0x1000000
    }

    /// Store `w` little-endian at address `addr`; no other byte changes.
    pub fn write_word(&mut self, addr: usize, w: u32)
        requires
            old(self)@.in_range(addr, 4),
        ensures
            final(self)@.base == old(self)@.base,
            final(self)@.bytes == store_word(old(self)@.bytes, old(self)@.offset(addr), w),
    {
        let i = addr - self.base;
        self.bytes.set(i, (w % 0x100) as u8);
        self.bytes.set(i + 1, ((w / 0x100) % 0x100) as u8);
        self.bytes.set(i + 2, ((w / 0x10000) % 0x100) as u8);
        self.bytes.set(i + 3, ((w / 0x1000000) % 0x100) as u8);
    }

    /// Store `h` little-endian at address `addr`; no other byte changes.
    pub fn write_half(&mut self, addr: usize, h: u16)
        requires
            old(self)@.in_range(addr, 2),
        ensures
            final(self)@.base == old(self)@.base,
            final(self)@.bytes == store_half(old(self)@.bytes, old(self)@.offset(addr), h),
    {
        let i = addr - self.base;
        self.bytes.set(i, (h % 0x100) as u8);
        self.bytes.set(i + 1, ((h / 0x100) % 0x100) as u8);
    }
}

} // verus!
