use std::collections::BTreeMap;

use kprobe::bpf::{Bpf, BpfMap, BpfMapAttr, MapEntry, MapKey};

fn zero_key(len: usize) -> MapKey {
    MapKey::new(vec![0; len])
}

#[test]
fn map_entry_holds_its_bytes() {
    let e = MapEntry::new(vec![1, 2, 3]);
    assert_eq!(e.data(), &[1, 2, 3]);
}

#[test]
fn map_entry_data_mut_writes_through() {
    let mut e = MapEntry::new(vec![1, 2, 3]);
    e.data_mut()[1] = 9;
    assert_eq!(e.data(), &[1, 9, 3]);
}

#[test]
fn map_key_holds_its_bytes() {
    let mut k = MapKey::new(vec![7, 8]);
    assert_eq!(k.data(), &[7, 8]);
    k.data_mut()[0] = 5;
    assert_eq!(k.data(), &[5, 8]);
}

#[test]
fn bpf_map_sizes_and_len() {
    let m = BpfMap::new(4, 16, 2);
    assert_eq!(m.key_size(), 4);
    assert_eq!(m.value_size(), 16);
    assert_eq!(m.len(), 32);
}

#[test]
fn bpf_map_insert_and_get() {
    let mut m = BpfMap::new(4, 8, 1);
    m.insert(zero_key(4), MapEntry::new(vec![1, 2, 3, 4, 5, 6, 7, 8]));
    let got = m.get(&zero_key(4)).unwrap();
    assert_eq!(got.data(), &[1, 2, 3, 4, 5, 6, 7, 8]);
    assert!(m.get(&MapKey::new(vec![9, 9, 9, 9])).is_none());
}

#[test]
fn bpf_map_insert_replaces_value_of_same_key() {
    let mut m = BpfMap::new(2, 2, 4);
    m.insert(MapKey::new(vec![1, 1]), MapEntry::new(vec![10, 10]));
    m.insert(MapKey::new(vec![1, 1]), MapEntry::new(vec![20, 20]));
    assert_eq!(m.get(&MapKey::new(vec![1, 1])).unwrap().data(), &[20, 20]);
}

#[test]
fn bpf_map_update_overwrites_in_place() {
    let mut m = BpfMap::new(4, 4, 1);
    m.insert(zero_key(4), MapEntry::new(vec![0, 0, 0, 0]));
    m.update(&zero_key(4), &MapEntry::new(vec![0xDE, 0xAD, 0xBE, 0xEF]));
    assert_eq!(m.get(&zero_key(4)).unwrap().data(), &[0xDE, 0xAD, 0xBE, 0xEF]);
}

#[test]
fn bpf_map_remove_returns_entry() {
    let mut m = BpfMap::new(2, 2, 4);
    m.insert(MapKey::new(vec![1, 2]), MapEntry::new(vec![3, 4]));
    let removed = m.remove(&MapKey::new(vec![1, 2])).unwrap();
    assert_eq!(removed.data(), &[3, 4]);
    assert!(m.get(&MapKey::new(vec![1, 2])).is_none());
    assert!(m.remove(&MapKey::new(vec![1, 2])).is_none());
}

#[test]
fn bpf_map_distinguishes_keys() {
    let mut m = BpfMap::new(2, 1, 4);
    m.insert(MapKey::new(vec![0, 1]), MapEntry::new(vec![1]));
    m.insert(MapKey::new(vec![1, 0]), MapEntry::new(vec![2]));
    assert_eq!(m.get(&MapKey::new(vec![0, 1])).unwrap().data(), &[1]);
    assert_eq!(m.get(&MapKey::new(vec![1, 0])).unwrap().data(), &[2]);
}

#[test]
fn bpf_program_exposes_text() {
    let mut maps = BTreeMap::new();
    maps.insert(3usize, 7usize);
    let prog = Bpf::new(vec![0x95, 0, 0, 0, 0, 0, 0, 0], maps);
    assert_eq!(prog.text(), &[0x95, 0, 0, 0, 0, 0, 0, 0]);
}

#[test]
fn map_attr_carries_section_parameters() {
    let attr = BpfMapAttr {
        map_type: 2,
        key_size: 4,
        value_size: 64,
        max_entries: 1,
        map_flags: 0,
        name: ".data".to_string(),
    };
    assert_eq!(attr.map_type, 2);
    assert_eq!(attr.key_size, 4);
    assert_eq!(attr.value_size, 64);
    assert_eq!(attr.max_entries, 1);
    assert_eq!(attr.name, ".data");
}
