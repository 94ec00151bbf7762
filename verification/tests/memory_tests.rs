use kprobe::memory::CodeMemory;

fn region(base: usize, len: usize) -> CodeMemory {
    let mut contents = Vec::new();
    for i in 0..len {
        contents.push((i % 251) as u8);
    }
    CodeMemory::new(base, contents)
}

#[test]
fn memory_new_reports_base_and_len() {
    let mem = region(0x1000, 64);
    assert_eq!(mem.base(), 0x1000);
    assert_eq!(mem.len(), 64);
}

#[test]
fn memory_contains_range() {
    let mem = region(0x1000, 64);
    assert!(mem.contains_range(0x1000, 4));
    assert!(mem.contains_range(0x103C, 4));
    assert!(!mem.contains_range(0x103D, 4));
    assert!(!mem.contains_range(0x0FFF, 4));
    assert!(!mem.contains_range(0x2000, 1));
}

#[test]
fn word_write_is_little_endian() {
    let mut mem = region(0x1000, 64);
    mem.write_word(0x1010, 0x1122_3344);
    assert_eq!(mem.read_byte(0x1010), 0x44);
    assert_eq!(mem.read_byte(0x1011), 0x33);
    assert_eq!(mem.read_byte(0x1012), 0x22);
    assert_eq!(mem.read_byte(0x1013), 0x11);
    assert_eq!(mem.read_word(0x1010), 0x1122_3344);
}

#[test]
fn half_write_is_little_endian() {
    let mut mem = region(0x1000, 64);
    mem.write_half(0x1020, 0xBEEF);
    assert_eq!(mem.read_byte(0x1020), 0xEF);
    assert_eq!(mem.read_byte(0x1021), 0xBE);
}

#[test]
fn word_write_leaves_other_bytes() {
    let mut mem = region(0x1000, 64);
    let before: Vec<u8> = (0..64).map(|i| mem.read_byte(0x1000 + i)).collect();
    mem.write_word(0x1010, 0xDEAD_BEEF);
    for i in 0..64 {
        let addr = 0x1000 + i;
        if (0x1010..0x1014).contains(&addr) {
            continue;
        }
        assert_eq!(mem.read_byte(addr), before[i]);
    }
}
