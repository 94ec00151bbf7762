use kprobe::arch::{breakpoint_address, insn_is_compressed, insn_width, Arch, EBREAK};
use kprobe::memory::CodeMemory;
use kprobe::probe::{Kprobe, KprobeBuilder, KprobeBuilderError, NopHandler};

const BASE: usize = 0x8000_0000;

/// A 32-bit RISC-V instruction word (low two bits `11`).
const INSN32: u32 = 0x00A5_0533;

/// A 16-bit compressed instruction in the low half of a word (low two
/// bits `01`).
const INSN16_WORD: u32 = 0x4701_4501;

fn region_with_words(words: &[(usize, u32)]) -> CodeMemory {
    let mut contents = Vec::new();
    for i in 0..256usize {
        contents.push((i % 7) as u8 + 1);
    }
    let mut mem = CodeMemory::new(BASE, contents);
    for &(addr, w) in words {
        mem.write_word(addr, w);
    }
    mem
}

fn snapshot(mem: &CodeMemory) -> Vec<u8> {
    (0..mem.len()).map(|i| mem.read_byte(BASE + i)).collect()
}

#[test]
fn install_saves_word_and_writes_trap() {
    let mut mem = region_with_words(&[(BASE + 0x10, INSN32)]);
    let mut probe = Kprobe::new("target".to_string(), BASE, 0x10, BASE + 0x80, Arch::Riscv64, NopHandler);
    assert_eq!(probe.address(), BASE + 0x10);
    assert!(!probe.is_installed());
    probe.install(&mut mem);
    assert!(probe.is_installed());
    assert_eq!(probe.old_inst(), INSN32);
    assert_eq!(mem.read_word(BASE + 0x10), EBREAK);
}

#[test]
fn install_uninstall_round_trip_restores_bytes() {
    let mut mem = region_with_words(&[(BASE + 0x10, INSN32)]);
    let before = snapshot(&mem);
    let mut probe = Kprobe::new("target".to_string(), BASE, 0x10, BASE + 0x80, Arch::Riscv64, NopHandler);
    probe.install(&mut mem);
    assert_ne!(snapshot(&mem), before);
    let resume = probe.uninstall(&mut mem);
    assert_eq!(snapshot(&mem), before);
    assert!(!probe.is_installed());
    assert_eq!(resume, BASE + 0x10 + 4);
}

#[test]
fn uninstall_resume_is_addr_plus_2_for_compressed() {
    let mut mem = region_with_words(&[(BASE + 0x20, INSN16_WORD)]);
    let mut probe = Kprobe::new("cfn".to_string(), BASE + 0x20, 0, BASE + 0x80, Arch::Riscv64, NopHandler);
    probe.install(&mut mem);
    let resume = probe.uninstall(&mut mem);
    assert_eq!(resume, BASE + 0x20 + 2);
}

#[test]
fn uninstall_resume_is_addr_plus_4_for_full_width() {
    let mut mem = region_with_words(&[(BASE + 0x20, INSN32)]);
    let mut probe = Kprobe::new("wfn".to_string(), BASE + 0x20, 0, BASE + 0x80, Arch::Riscv64, NopHandler);
    probe.install(&mut mem);
    let resume = probe.uninstall(&mut mem);
    assert_eq!(resume, BASE + 0x20 + 4);
}

#[test]
fn return_address_follows_saved_width() {
    let mut mem = region_with_words(&[(BASE + 0x10, INSN32), (BASE + 0x30, INSN16_WORD)]);
    let mut p32 = Kprobe::new("a".to_string(), BASE + 0x10, 0, BASE + 0x80, Arch::Riscv64, NopHandler);
    p32.install(&mut mem);
    assert_eq!(p32.return_address(), BASE + 0x14);
    let mut p16 = Kprobe::new("b".to_string(), BASE + 0x30, 0, BASE + 0x90, Arch::Riscv64, NopHandler);
    p16.install(&mut mem);
    assert_eq!(p16.return_address(), BASE + 0x32);
}

#[test]
fn simulate_single_step_stages_full_width_instruction() {
    let mut mem = region_with_words(&[(BASE + 0x10, INSN32)]);
    let mut probe = Kprobe::new("t".to_string(), BASE + 0x10, 0, BASE + 0x80, Arch::Riscv64, NopHandler);
    probe.install(&mut mem);
    let (entry, trap) = probe.simulate_single_step(&mut mem);
    assert_eq!(entry, BASE + 0x80);
    assert_eq!(trap, BASE + 0x84);
    assert_eq!(mem.read_word(entry), INSN32);
    assert_eq!(mem.read_word(trap), EBREAK);
}

#[test]
fn simulate_single_step_stages_compressed_instruction() {
    let mut mem = region_with_words(&[(BASE + 0x10, INSN16_WORD)]);
    let mut probe = Kprobe::new("t".to_string(), BASE + 0x10, 0, BASE + 0x80, Arch::Riscv64, NopHandler);
    probe.install(&mut mem);
    let (entry, trap) = probe.simulate_single_step(&mut mem);
    assert_eq!(entry, BASE + 0x80);
    assert_eq!(trap, BASE + 0x82);
    assert_eq!(mem.read_byte(entry), (INSN16_WORD & 0xFF) as u8);
    assert_eq!(mem.read_byte(entry + 1), ((INSN16_WORD >> 8) & 0xFF) as u8);
    assert_eq!(mem.read_word(trap), EBREAK);
    assert_eq!(probe.single_step_address(), entry);
    assert_eq!(probe.debug_address(), trap);
}

#[test]
fn insn_width_decodes_low_two_bits() {
    assert!(insn_is_compressed(0b00));
    assert!(insn_is_compressed(0b01));
    assert!(insn_is_compressed(0b10));
    assert!(!insn_is_compressed(0b11));
    assert_eq!(insn_width(0b00), 2);
    assert_eq!(insn_width(0b01), 2);
    assert_eq!(insn_width(0b10), 2);
    assert_eq!(insn_width(0b11), 4);
    assert_eq!(insn_width(EBREAK), 4);
    assert_eq!(insn_width(INSN16_WORD), 2);
}

#[test]
fn breakpoint_address_recovery_per_arch() {
    assert_eq!(breakpoint_address(Arch::X86_64, 0x4001), 0x4000);
    assert_eq!(breakpoint_address(Arch::Riscv64, 0x4002), 0x4000);
    assert_eq!(breakpoint_address(Arch::Loongarch64, 0x4004), 0x4000);
}

#[test]
fn builder_accumulates_fields() {
    let probe = KprobeBuilder::new()
        .symbol("detect_func".to_string())
        .symbol_addr(BASE + 0x10)
        .offset(4)
        .staging_addr(BASE + 0x80)
        .build()
        .unwrap();
    assert_eq!(probe.address(), BASE + 0x14);
    assert!(!probe.is_installed());
    assert_eq!(probe.single_step_address(), BASE + 0x80);
}

#[test]
fn builder_without_target_address_fails() {
    let r = KprobeBuilder::new().symbol("nowhere".to_string()).build();
    assert_eq!(r.err(), Some(KprobeBuilderError::MissingTargetAddress));
}

#[test]
fn builder_rejects_address_at_top_of_address_space() {
    let r = KprobeBuilder::new().symbol_addr(usize::MAX).offset(1).build();
    assert_eq!(r.err(), Some(KprobeBuilderError::AddressOutOfRange));
}

#[test]
fn builder_defaults_handler_to_nop() {
    let mut mem = region_with_words(&[(BASE + 0x10, INSN32)]);
    let mut probe = KprobeBuilder::new()
        .symbol_addr(BASE + 0x10)
        .staging_addr(BASE + 0x80)
        .build()
        .unwrap();
    probe.install(&mut mem);
    let regs = kprobe::regs::PtRegs { x: [0; 32] };
    probe.pre_handler(&regs);
    probe.post_handler(&regs);
    probe.fault_handler(&regs);
}
