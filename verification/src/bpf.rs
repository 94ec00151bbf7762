//! In-memory BPF maps and the interfaces of the bytecode loader.
//!
//! A [`BpfMap`] is a byte-keyed, byte-valued store with fixed key and value
//! sizes, the backing store for the map file descriptors a loaded program
//! refers to.  The loader and executor themselves parse ELF images and
//! rewrite bytecode through outside collaborators; only their data types and
//! the service interfaces they consume are defined here.

use vstd::prelude::*;

use std::collections::BTreeMap;

verus! {

broadcast use {vstd::std_specs::btree::group_btree_axioms, vstd::laws_cmp::group_laws_cmp};

/// A map file descriptor: the small integer a loaded program names a map by.
pub type MapFd = usize;

/// Marks an instruction's source register as holding a map file descriptor.
pub const BPF_PSEUDO_MAP_FD: u32 = 1;

/// Marks an instruction's source register as holding a map index.
pub const BPF_PSEUDO_MAP_IDX: u32 = 5;

/// Marks an instruction's source register as holding a map value address.
pub const BPF_PSEUDO_MAP_VALUE: u32 = 2;

/// A map operation failed: the named map does not exist or rejected the
/// request.
#[derive(Clone, Copy, Debug, PartialEq, Eq)]
pub struct BpfError;

/// A map value: an owned byte string.
#[derive(Debug)]
pub struct MapEntry {
    data: Vec<u8>,
}

/// A map key: an owned byte string.
#[derive(Debug)]
pub struct MapKey {
    data: Vec<u8>,
}

impl View for MapEntry {
    type V = Seq<u8>;

    closed spec fn view(&self) -> Seq<u8> {
        self.data@
    }
}

impl View for MapKey {
    type V = Seq<u8>;

    closed spec fn view(&self) -> Seq<u8> {
        self.data@
    }
}

impl MapEntry {
    /// A value holding `data`.
    pub fn new(data: Vec<u8>) -> (e: MapEntry)
        ensures
            e@ == data@,
    {
        MapEntry { data }
    }

    /// The value's bytes.
    pub fn data(&self) -> (r: &[u8])
        ensures
            r@ == self@,
    {
        self.data.as_slice()
    }

    /// Mutable access to the value's bytes.
    pub fn data_mut(&mut self) -> (r: &mut Vec<u8>)
        ensures
            r@ == old(self)@,
            final(self)@ == final(r)@,
    {
        &mut self.data
    }
}

impl MapKey {
    /// A key holding `data`.
    pub fn new(data: Vec<u8>) -> (k: MapKey)
        ensures
            k@ == data@,
    {
        MapKey { data }
    }

    /// The key's bytes.
    pub fn data(&self) -> (r: &[u8])
        ensures
            r@ == self@,
    {
        self.data.as_slice()
    }

    /// Mutable access to the key's bytes.
    pub fn data_mut(&mut self) -> (r: &mut Vec<u8>)
        ensures
            r@ == old(self)@,
            final(self)@ == final(r)@,
    {
        &mut self.data
    }
}

/// An owned copy of a byte vector.
fn copy_bytes(v: &Vec<u8>) -> (r: Vec<u8>)
    ensures
        r@ == v@,
{
    let mut r: Vec<u8> = Vec::new();
    let mut i: usize = 0;
    while i < v.len()
        invariant
            i <= v@.len(),
            r@ == v@.subrange(0, i as int),
        decreases v@.len() - i,
    {
        r.push(v[i]);
        proof {
            assert(r@ =~= v@.subrange(0, i + 1));
        }
        i = i + 1;
    }
    proof {
        assert(r@ =~= v@);
    }
    r
}

/// Whether two byte vectors hold the same bytes.
fn bytes_eq(a: &Vec<u8>, b: &Vec<u8>) -> (r: bool)
    ensures
        r == (a@ == b@),
{
    if a.len() != b.len() {
        return false;
    }
    let mut i: usize = 0;
    while i < a.len()
        invariant
            i <= a@.len(),
            a@.len() == b@.len(),
            forall|j: int| 0 <= j < i ==> a@[j] == b@[j],
        decreases a@.len() - i,
    {
        if a[i] != b[i] {
            return false;
        }
        i = i + 1;
    }
    proof {
        assert(a@ =~= b@);
    }
    true
}

/// No two records of the backing store hold the same key.
spec fn uniq_keys(s: Seq<(MapKey, MapEntry)>) -> bool {
    forall|i: int, j: int|
        0 <= i < s.len() && 0 <= j < s.len() && i != j ==> (#[trigger] s[i].0@) != (
        #[trigger] s[j].0@)
}

/// The finite map a key-unique record sequence stands for.
spec fn assoc_view(s: Seq<(MapKey, MapEntry)>) -> Map<Seq<u8>, Seq<u8>> {
    Map::new(
        |k: Seq<u8>| exists|i: int| 0 <= i < s.len() && (#[trigger] s[i].0@) == k,
        |k: Seq<u8>|
            {
                let i = choose|i: int| 0 <= i < s.len() && (#[trigger] s[i].0@) == k;
                s[i].1@
            },
    )
}

proof fn lemma_assoc_view_index(s: Seq<(MapKey, MapEntry)>, i: int)
    requires
        uniq_keys(s),
        0 <= i < s.len(),
    ensures
        assoc_view(s).contains_key(s[i].0@),
        assoc_view(s)[s[i].0@] == s[i].1@,
{
    let k = s[i].0@;
    assert(0 <= i < s.len() && s[i].0@ == k);
    let j = choose|j: int| 0 <= j < s.len() && (#[trigger] s[j].0@) == k;
    assert(j == i);
}

proof fn lemma_assoc_view_absent(s: Seq<(MapKey, MapEntry)>, k: Seq<u8>)
    requires
        forall|i: int| 0 <= i < s.len() ==> (#[trigger] s[i].0@) != k,
    ensures
        !assoc_view(s).contains_key(k),
{
}


proof fn lemma_assoc_view_update(
    s0: Seq<(MapKey, MapEntry)>,
    s1: Seq<(MapKey, MapEntry)>,
    i: int,
    kk: Seq<u8>,
    vv: Seq<u8>,
)
    requires
        uniq_keys(s0),
        0 <= i < s0.len(),
        s0[i].0@ == kk,
        s1.len() == s0.len(),
        s1[i].0@ == kk,
        s1[i].1@ == vv,
        forall|x: int| 0 <= x < s1.len() && x != i ==> s1[x] == s0[x],
    ensures
        uniq_keys(s1),
        assoc_view(s1) == assoc_view(s0).insert(kk, vv),
{
    assert forall|x: int, y: int|
        0 <= x < s1.len() && 0 <= y < s1.len() && x != y implies (#[trigger] s1[x].0@) != (
    #[trigger] s1[y].0@) by {
        assert(s1[x].0@ == s0[x].0@);
        assert(s1[y].0@ == s0[y].0@);
    }
    let target = assoc_view(s0).insert(kk, vv);
    assert forall|k: Seq<u8>| #![auto]
        assoc_view(s1).contains_key(k) == target.contains_key(k) by {
        if assoc_view(s1).contains_key(k) {
            let w = choose|w: int| 0 <= w < s1.len() && (#[trigger] s1[w].0@) == k;
            if w != i {
                assert(s0[w] == s1[w]);
                lemma_assoc_view_index(s0, w);
            }
        }
        if target.contains_key(k) {
            if k == kk {
                assert(0 <= i < s1.len() && s1[i].0@ == k);
            } else {
                let w = choose|w: int| 0 <= w < s0.len() && (#[trigger] s0[w].0@) == k;
                assert(w != i);
                assert(s1[w] == s0[w]);
                assert(0 <= w < s1.len() && s1[w].0@ == k);
            }
        }
    }
    assert forall|k: Seq<u8>| #![auto]
        assoc_view(s1).contains_key(k) implies assoc_view(s1)[k] == target[k] by {
        let w = choose|w: int| 0 <= w < s1.len() && (#[trigger] s1[w].0@) == k;
        lemma_assoc_view_index(s1, w);
        if w == i {
            assert(k == kk);
            assert(assoc_view(s1)[k] == vv);
        } else {
            assert(s1[w] == s0[w]);
            lemma_assoc_view_index(s0, w);
            assert(k != kk);
        }
    }
    assert(assoc_view(s1) =~= target);
}

proof fn lemma_assoc_view_push(
    s0: Seq<(MapKey, MapEntry)>,
    s1: Seq<(MapKey, MapEntry)>,
    kk: Seq<u8>,
    vv: Seq<u8>,
)
    requires
        uniq_keys(s0),
        forall|x: int| 0 <= x < s0.len() ==> (#[trigger] s0[x].0@) != kk,
        s1.len() == s0.len() + 1,
        s1[s0.len() as int].0@ == kk,
        s1[s0.len() as int].1@ == vv,
        forall|x: int| 0 <= x < s0.len() ==> s1[x] == s0[x],
    ensures
        uniq_keys(s1),
        assoc_view(s1) == assoc_view(s0).insert(kk, vv),
{
    let n = s0.len() as int;
    assert forall|x: int, y: int|
        0 <= x < s1.len() && 0 <= y < s1.len() && x != y implies (#[trigger] s1[x].0@) != (
    #[trigger] s1[y].0@) by {
        if x < n && y < n {
            assert(s1[x] == s0[x] && s1[y] == s0[y]);
        } else if x == n {
            assert(s1[y] == s0[y]);
        } else {
            assert(s1[x] == s0[x]);
        }
    }
    let target = assoc_view(s0).insert(kk, vv);
    assert forall|k: Seq<u8>| #![auto]
        assoc_view(s1).contains_key(k) == target.contains_key(k) by {
        if assoc_view(s1).contains_key(k) {
            let w = choose|w: int| 0 <= w < s1.len() && (#[trigger] s1[w].0@) == k;
            if w != n {
                assert(s0[w] == s1[w]);
                lemma_assoc_view_index(s0, w);
            }
        }
        if target.contains_key(k) {
            if k == kk {
                assert(0 <= n < s1.len() && s1[n].0@ == k);
            } else {
                let w = choose|w: int| 0 <= w < s0.len() && (#[trigger] s0[w].0@) == k;
                assert(s1[w] == s0[w]);
                assert(0 <= w < s1.len() && s1[w].0@ == k);
            }
        }
    }
    assert forall|k: Seq<u8>| #![auto]
        assoc_view(s1).contains_key(k) implies assoc_view(s1)[k] == target[k] by {
        let w = choose|w: int| 0 <= w < s1.len() && (#[trigger] s1[w].0@) == k;
        lemma_assoc_view_index(s1, w);
        if w == n {
            assert(k == kk);
            assert(assoc_view(s1)[k] == vv);
        } else {
            assert(s1[w] == s0[w]);
            lemma_assoc_view_index(s0, w);
            assert(k != kk);
        }
    }
    assert(assoc_view(s1) =~= target);
}

proof fn lemma_assoc_view_remove(
    s0: Seq<(MapKey, MapEntry)>,
    s1: Seq<(MapKey, MapEntry)>,
    i: int,
    kk: Seq<u8>,
)
    requires
        uniq_keys(s0),
        0 <= i < s0.len(),
        s0[i].0@ == kk,
        s1 == s0.remove(i),
    ensures
        uniq_keys(s1),
        assoc_view(s1) == assoc_view(s0).remove(kk),
{
    assert forall|x: int, y: int|
        0 <= x < s1.len() && 0 <= y < s1.len() && x != y implies (#[trigger] s1[x].0@) != (
    #[trigger] s1[y].0@) by {
        let x0 = if x < i { x } else { x + 1 };
        let y0 = if y < i { y } else { y + 1 };
        assert(s1[x] == s0[x0] && s1[y] == s0[y0]);
    }
    let target = assoc_view(s0).remove(kk);
    assert forall|k: Seq<u8>| #![auto]
        assoc_view(s1).contains_key(k) == target.contains_key(k) by {
        if assoc_view(s1).contains_key(k) {
            let w = choose|w: int| 0 <= w < s1.len() && (#[trigger] s1[w].0@) == k;
            let w0 = if w < i { w } else { w + 1 };
            assert(s1[w] == s0[w0]);
            lemma_assoc_view_index(s0, w0);
            assert(k != kk);
        }
        if target.contains_key(k) {
            let w0 = choose|w0: int| 0 <= w0 < s0.len() && (#[trigger] s0[w0].0@) == k;
            assert(w0 != i);
            let w = if w0 < i { w0 } else { w0 - 1 };
            assert(s1[w] == s0[w0]);
            assert(0 <= w < s1.len() && s1[w].0@ == k);
        }
    }
    assert forall|k: Seq<u8>| #![auto]
        assoc_view(s1).contains_key(k) implies assoc_view(s1)[k] == target[k] by {
        let w = choose|w: int| 0 <= w < s1.len() && (#[trigger] s1[w].0@) == k;
        lemma_assoc_view_index(s1, w);
        let w0 = if w < i { w } else { w + 1 };
        assert(s1[w] == s0[w0]);
        lemma_assoc_view_index(s0, w0);
        assert(k != kk);
    }
    assert(assoc_view(s1) =~= target);
}

/// A BPF map: a byte-keyed store with a fixed key size, value size and
/// capacity.  Its abstract value is the finite map from key bytes to value
/// bytes.
#[derive(Debug)]
pub struct BpfMap {
    map: Vec<(MapKey, MapEntry)>,
    max_entries: u32,
    key_size: u32,
    value_size: u32,
}

impl View for BpfMap {
    type V = Map<Seq<u8>, Seq<u8>>;

    closed spec fn view(&self) -> Map<Seq<u8>, Seq<u8>> {
        assoc_view(self.map@)
    }
}

impl BpfMap {
    /// The backing store never holds two records with the same key.
    /// Constructors establish this and every method preserves it.
    pub closed spec fn wf(&self) -> bool {
        uniq_keys(self.map@)
    }

    /// The configured key size in bytes.
    pub closed spec fn spec_key_size(&self) -> u32 {
        self.key_size
    }

    /// The configured value size in bytes.
    pub closed spec fn spec_value_size(&self) -> u32 {
        self.value_size
    }

    /// The configured capacity in entries.
    pub closed spec fn spec_max_entries(&self) -> u32 {
        self.max_entries
    }

    /// An empty map with the given key size, value size and capacity.
    pub fn new(key_size: u32, value_size: u32, max_entries: u32) -> (m: BpfMap)
        ensures
            m.wf(),
            m@ == Map::<Seq<u8>, Seq<u8>>::empty(),
            m.spec_key_size() == key_size,
            m.spec_value_size() == value_size,
            m.spec_max_entries() == max_entries,
    {
        let m = BpfMap { map: Vec::new(), max_entries, key_size, value_size };
        proof {
            assert(m@ =~= Map::<Seq<u8>, Seq<u8>>::empty());
        }
        m
    }

    /// The index of the record holding `key`, if any.
    fn find_index(&self, key: &MapKey) -> (r: Option<usize>)
        ensures
            match r {
                Some(i) => i < self.map@.len() && self.map@[i as int].0@ == key@,
                None => forall|i: int|
                    0 <= i < self.map@.len() ==> (#[trigger] self.map@[i].0@) != key@,
            },
    {
        let mut i: usize = 0;
        while i < self.map.len()
            invariant
                i <= self.map@.len(),
                forall|j: int| 0 <= j < i ==> (#[trigger] self.map@[j].0@) != key@,
            decreases self.map@.len() - i,
        {
            if bytes_eq(&self.map[i].0.data, &key.data) {
                return Some(i);
            }
            i = i + 1;
        }
        None
    }

    /// Store `value` under `key`, replacing any value the key already held.
    /// Key and value must have the configured sizes.
    pub fn insert(&mut self, key: MapKey, value: MapEntry)
        requires
            old(self).wf(),
            key@.len() == old(self).spec_key_size(),
            value@.len() == old(self).spec_value_size(),
        ensures
            final(self).wf(),
            final(self)@ == old(self)@.insert(key@, value@),
            final(self).spec_key_size() == old(self).spec_key_size(),
            final(self).spec_value_size() == old(self).spec_value_size(),
            final(self).spec_max_entries() == old(self).spec_max_entries(),
    {
        let ghost s0 = self.map@;
        let idx = self.find_index(&key);
        match idx {
            Some(i) => {
                self.map.set(i, (key, value));
                proof {
                    lemma_assoc_view_update(s0, self.map@, i as int, key@, value@);
                }
            },
            None => {
                self.map.push((key, value));
                proof {
                    lemma_assoc_view_push(s0, self.map@, key@, value@);
                }
            },
        }
    }

    /// The value stored under `key`, if any.
    pub fn get(&self, key: &MapKey) -> (r: Option<&MapEntry>)
        requires
            self.wf(),
        ensures
            match r {
                Some(e) => self@.contains_key(key@) && e@ == self@[key@],
                None => !self@.contains_key(key@),
            },
    {
        let idx = self.find_index(key);
        match idx {
            Some(i) => {
                proof {
                    lemma_assoc_view_index(self.map@, i as int);
                }
                Some(&self.map[i].1)
            },
            None => {
                proof {
                    lemma_assoc_view_absent(self.map@, key@);
                }
                None
            },
        }
    }

    /// Remove and return the value stored under `key`, if any.
    pub fn remove(&mut self, key: &MapKey) -> (r: Option<MapEntry>)
        requires
            old(self).wf(),
        ensures
            final(self).wf(),
            final(self)@ == old(self)@.remove(key@),
            final(self).spec_key_size() == old(self).spec_key_size(),
            final(self).spec_value_size() == old(self).spec_value_size(),
            final(self).spec_max_entries() == old(self).spec_max_entries(),
            match r {
                Some(e) => old(self)@.contains_key(key@) && e@ == old(self)@[key@],
                None => !old(self)@.contains_key(key@),
            },
    {
        let ghost s0 = self.map@;
        let idx = self.find_index(key);
        match idx {
            Some(i) => {
                proof {
                    lemma_assoc_view_index(s0, i as int);
                }
                let pair = self.map.remove(i);
                proof {
                    lemma_assoc_view_remove(s0, self.map@, i as int, key@);
                }
                Some(pair.1)
            },
            None => {
                proof {
                    lemma_assoc_view_absent(s0, key@);
                    assert(self@ =~= old(self)@.remove(key@));
                }
                None
            },
        }
    }

    /// The map's data footprint: capacity times value size.
    pub fn len(&self) -> (r: usize)
        requires
            self.spec_max_entries() * self.spec_value_size() <= usize::MAX,
        ensures
            r == self.spec_max_entries() * self.spec_value_size(),
    {
        (self.max_entries as usize) * (self.value_size as usize)
    }

    /// The configured key size in bytes.
    pub fn key_size(&self) -> (r: u32)
        ensures
            r == self.spec_key_size(),
    {
        self.key_size
    }

    /// The configured value size in bytes.
    pub fn value_size(&self) -> (r: u32)
        ensures
            r == self.spec_value_size(),
    {
        self.value_size
    }

    /// Overwrite the value already stored under `key` with `value`'s bytes.
    /// The key must be present and the sizes must match the configuration.
    pub fn update(&mut self, key: &MapKey, value: &MapEntry)
        requires
            old(self).wf(),
            old(self)@.contains_key(key@),
            key@.len() == old(self).spec_key_size(),
            value@.len() == old(self).spec_value_size(),
        ensures
            final(self).wf(),
            final(self)@ == old(self)@.insert(key@, value@),
            final(self).spec_key_size() == old(self).spec_key_size(),
            final(self).spec_value_size() == old(self).spec_value_size(),
            final(self).spec_max_entries() == old(self).spec_max_entries(),
    {
        let new_key = MapKey { data: copy_bytes(&key.data) };
        let new_value = MapEntry { data: copy_bytes(&value.data) };
        self.insert(new_key, new_value);
    }
}

/// The attributes a map is created with.
pub struct BpfMapAttr {
    pub map_type: u32,
    pub key_size: u32,
    pub value_size: u32,
    pub max_entries: u32,
    pub map_flags: u32,
    pub name: String,
}

/// The map-creation service the loader consumes; the kernel (or a test
/// double) implements it over its own map table.
pub trait CreateMapOps {
    /// Create a map with the given attributes and hand back its descriptor.
    fn create_map(attr: BpfMapAttr) -> Result<MapFd, BpfError>;

    /// The data footprint of the map behind `map_fd`.
    fn map_data_len(map_fd: MapFd) -> usize;

    /// Overwrite the element of the map behind `map_fd` stored under `key`.
    fn update_map_element(map_fd: MapFd, key: &[u8], value: &[u8]) -> Result<(), BpfError>;
}

/// The map-lookup service the executor consumes when it patches map
/// addresses into loaded bytecode.
pub trait FindMapOps {
    /// The data footprint of the map behind `map_fd`.
    fn map_data_len(map_fd: usize) -> usize;

    /// The address of the map's value storage, as a plain machine word.
    fn map_data_ptr(map_fd: usize) -> usize;
}

/// The bytecode post-processor: patches map value addresses, obtained
/// through its [`FindMapOps`] service, into the load-immediate instructions
/// of a program.  The instruction rewriting itself runs through an outside
/// bytecode library and lives with the program embedding this crate.
pub struct BpfExecutor<F> {
    _f: core::marker::PhantomData<F>,
}

/// One relocation record of a program section, resolved to plain values.
#[derive(Debug)]
pub struct Relocation {
    pub offset: usize,
    pub symbol: String,
    pub section_index: usize,
    pub section_name: String,
    pub section_addr: u64,
    pub ty: u32,
}

/// A loaded program: its relocated bytecode and the map descriptors created
/// for its data sections, keyed by section index.
#[derive(Debug)]
pub struct Bpf {
    text: Vec<u8>,
    bpf_map: BTreeMap<usize, MapFd>,
}

impl Bpf {
    /// The loaded bytecode.
    pub closed spec fn spec_text(&self) -> Seq<u8> {
        self.text@
    }

    /// The section-index-to-descriptor table.
    pub closed spec fn spec_maps(&self) -> Map<usize, MapFd> {
        self.bpf_map@
    }

    /// A loaded program from its bytecode and map table.
    pub fn new(text: Vec<u8>, bpf_map: BTreeMap<usize, MapFd>) -> (b: Bpf)
        ensures
            b.spec_text() == text@,
            b.spec_maps() == bpf_map@,
    {
        Bpf { text, bpf_map }
    }

    /// The program's bytecode.
    pub fn text(&self) -> (r: &[u8])
        ensures
            r@ == self.spec_text(),
    {
        self.text.as_slice()
    }
}

} // verus!
