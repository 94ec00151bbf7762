use std::cell::RefCell;
use std::rc::Rc;

use kprobe::arch::{pc_adjust, Arch, EBREAK};
use kprobe::dispatch::{KprobeManager, TrapOutcome, SINGLE_STEP_FLAG};
use kprobe::memory::CodeMemory;
use kprobe::probe::{Kprobe, KprobeBuilder, ProbeHandler};
use kprobe::regs::{PtRegs, TrapFrame};

const BASE: usize = 0x8000_0000;
const TARGET: usize = BASE + 0x10;
const STAGING: usize = BASE + 0x80;

/// A 32-bit RISC-V instruction word (low two bits `11`).
const INSN32: u32 = 0x00A5_0533;

#[derive(Clone, Default)]
struct Counters {
    enters: Rc<RefCell<usize>>,
    exits: Rc<RefCell<usize>>,
    faults: Rc<RefCell<usize>>,
}

impl ProbeHandler for Counters {
    fn on_enter(&mut self, _regs: &PtRegs) {
        *self.enters.borrow_mut() += 1;
    }

    fn on_exit(&mut self, _regs: &PtRegs) {
        *self.exits.borrow_mut() += 1;
    }

    fn on_fault(&mut self, _regs: &PtRegs) {
        *self.faults.borrow_mut() += 1;
    }
}

fn region() -> CodeMemory {
    let mut contents = Vec::new();
    for i in 0..256usize {
        contents.push((i % 7) as u8 + 1);
    }
    let mut mem = CodeMemory::new(BASE, contents);
    mem.write_word(TARGET, INSN32);
    mem
}

fn frame_at(sepc: usize) -> TrapFrame {
    TrapFrame { pt_regs: PtRegs { x: [0; 32] }, status: 0, sepc }
}

fn probed_manager(
    arch: Arch,
    mem: &mut CodeMemory,
    counters: &Counters,
) -> KprobeManager<Counters> {
    let mut manager = KprobeManager::new(arch);
    let mut probe = KprobeBuilder::new()
        .arch(arch)
        .symbol("detect_func".to_string())
        .symbol_addr(TARGET)
        .offset(0)
        .staging_addr(STAGING)
        .handler(counters.clone())
        .build()
        .unwrap();
    probe.install(mem);
    manager.register_probe(probe);
    manager
}

/// Drive one complete firing of the probe at TARGET on a staged
/// architecture: the breakpoint trap, then the completion trap the staged
/// buffer raises.
fn fire_once(manager: &mut KprobeManager<Counters>, mem: &mut CodeMemory) {
    let adjust = pc_adjust(manager.arch());
    let mut frame = frame_at(TARGET + adjust);
    let outcome = manager.ebreak_handler(&mut frame, mem);
    assert_eq!(outcome, TrapOutcome::Enter(TARGET));
    assert_eq!(frame.sepc, STAGING);
    // The staging buffer holds the original instruction, then a trap.
    assert_eq!(mem.read_word(STAGING), INSN32);
    assert_eq!(mem.read_word(STAGING + 4), EBREAK);
    // The processor executes the staged copy and traps right after it.
    let mut frame2 = frame_at(STAGING + 4 + adjust);
    let outcome2 = manager.ebreak_handler(&mut frame2, mem);
    assert_eq!(outcome2, TrapOutcome::Exit(TARGET));
    assert_eq!(frame2.sepc, TARGET + 4);
}

#[test]
fn staged_firing_pairs_enter_and_exit() {
    let mut mem = region();
    let counters = Counters::default();
    let mut manager = probed_manager(Arch::Riscv64, &mut mem, &counters);
    for n in 1..=3usize {
        fire_once(&mut manager, &mut mem);
        assert_eq!(*counters.enters.borrow(), n);
        assert_eq!(*counters.exits.borrow(), n);
    }
    assert_eq!(*counters.faults.borrow(), 0);
}

#[test]
fn dispatch_does_not_touch_registers() {
    let mut mem = region();
    let counters = Counters::default();
    let mut manager = probed_manager(Arch::Riscv64, &mut mem, &counters);
    let mut frame = frame_at(TARGET + 2);
    frame.pt_regs.x[10] = 0xABCD;
    frame.pt_regs.x[1] = 0x1234;
    manager.ebreak_handler(&mut frame, &mut mem);
    assert_eq!(frame.pt_regs.x[10], 0xABCD);
    assert_eq!(frame.pt_regs.x[1], 0x1234);
    assert_eq!(frame.status, 0);
}

#[test]
fn unknown_breakpoint_is_fatal_with_no_handler_calls() {
    let mut mem = region();
    let counters = Counters::default();
    let mut manager = probed_manager(Arch::Riscv64, &mut mem, &counters);
    let stray = BASE + 0x40;
    let mut frame = frame_at(stray + 2);
    let outcome = manager.ebreak_handler(&mut frame, &mut mem);
    assert_eq!(outcome, TrapOutcome::Fatal(stray));
    assert_eq!(frame.sepc, stray + 2);
    assert_eq!(*counters.enters.borrow(), 0);
    assert_eq!(*counters.exits.borrow(), 0);
}

#[test]
fn unknown_completion_skips_without_handler_calls() {
    let mut mem = region();
    let counters = Counters::default();
    let mut manager = probed_manager(Arch::Riscv64, &mut mem, &counters);
    let stray = BASE + 0x40;
    let mut frame = frame_at(stray);
    let outcome = manager.debug_handler(&mut frame);
    assert_eq!(outcome, TrapOutcome::Skip(stray));
    // Advanced by the default trap-instruction width.
    assert_eq!(frame.sepc, stray + 4);
    assert_eq!(*counters.enters.borrow(), 0);
    assert_eq!(*counters.exits.borrow(), 0);
}

#[test]
fn hardware_path_sets_and_clears_single_step_flag() {
    let mut mem = region();
    let counters = Counters::default();
    let mut manager = probed_manager(Arch::X86_64, &mut mem, &counters);
    let adjust = pc_adjust(Arch::X86_64);
    let mut frame = frame_at(TARGET + adjust);
    let outcome = manager.ebreak_handler(&mut frame, &mut mem);
    assert_eq!(outcome, TrapOutcome::Enter(TARGET));
    assert_eq!(frame.status & SINGLE_STEP_FLAG, SINGLE_STEP_FLAG);
    assert_eq!(frame.sepc, STAGING);
    assert_eq!(*counters.enters.borrow(), 1);
    // The debug trap reports the address right after the staged copy.
    let mut frame2 = frame_at(STAGING + 4);
    frame2.status = frame.status;
    let outcome2 = manager.debug_handler(&mut frame2);
    assert_eq!(outcome2, TrapOutcome::Exit(TARGET));
    assert_eq!(frame2.status & SINGLE_STEP_FLAG, 0);
    assert_eq!(frame2.sepc, TARGET + 4);
    assert_eq!(*counters.exits.borrow(), 1);
}

#[test]
fn unregister_returns_probe_for_uninstall() {
    let mut mem = region();
    let counters = Counters::default();
    let mut manager = probed_manager(Arch::Riscv64, &mut mem, &counters);
    assert!(manager.contains_probe(TARGET));
    let mut probe = manager.unregister_probe(TARGET).unwrap();
    assert!(!manager.contains_probe(TARGET));
    assert_eq!(probe.address(), TARGET);
    let resume = probe.uninstall(&mut mem);
    assert_eq!(resume, TARGET + 4);
    assert_eq!(mem.read_word(TARGET), INSN32);
    assert!(manager.unregister_probe(TARGET).is_none());
}

#[test]
fn staged_firing_of_compressed_instruction() {
    let mut mem = region();
    // A 16-bit compressed instruction sits at the target (low two bits 01).
    let insn16: u32 = 0x4701_4501;
    mem.write_word(TARGET, insn16);
    let counters = Counters::default();
    let mut manager = probed_manager(Arch::Riscv64, &mut mem, &counters);
    let mut frame = frame_at(TARGET + 2);
    assert_eq!(manager.ebreak_handler(&mut frame, &mut mem), TrapOutcome::Enter(TARGET));
    assert_eq!(frame.sepc, STAGING);
    // The staged copy is two bytes; the completion trap sits right after.
    assert_eq!(mem.read_word(STAGING + 2), EBREAK);
    let mut frame2 = frame_at(STAGING + 2 + 2);
    assert_eq!(manager.ebreak_handler(&mut frame2, &mut mem), TrapOutcome::Exit(TARGET));
    // Resume at the 16-bit instruction's successor.
    assert_eq!(frame2.sepc, TARGET + 2);
}

#[test]
fn loongarch_width_is_fixed_at_four() {
    let mut mem = region();
    // Low two bits 01 would mean a compressed instruction on RISC-V; on
    // LoongArch every instruction is four bytes.
    let insn: u32 = 0x4701_4501;
    mem.write_word(TARGET, insn);
    let counters = Counters::default();
    let mut manager = probed_manager(Arch::Loongarch64, &mut mem, &counters);
    let adjust = pc_adjust(Arch::Loongarch64);
    let mut frame = frame_at(TARGET + adjust);
    assert_eq!(manager.ebreak_handler(&mut frame, &mut mem), TrapOutcome::Enter(TARGET));
    assert_eq!(frame.sepc, STAGING);
    let mut frame2 = frame_at(STAGING + 4 + adjust);
    assert_eq!(manager.ebreak_handler(&mut frame2, &mut mem), TrapOutcome::Exit(TARGET));
    assert_eq!(frame2.sepc, TARGET + 4);
}

/// What the probed routine computes; stands in for a traced kernel
/// function.
fn detect_func(x: usize, y: usize) -> usize {
    x.wrapping_add(y.wrapping_mul(3))
}

#[test]
fn end_to_end_scenario() {
    let mut mem = region();
    let baseline = detect_func(1, 2);
    let before: Vec<u8> = (0..mem.len()).map(|i| mem.read_byte(BASE + i)).collect();

    // Build and install a probe at the routine's entry (offset 0).
    let counters = Counters::default();
    let mut manager = KprobeManager::new(Arch::Riscv64);
    let mut probe = KprobeBuilder::new()
        .symbol("detect_func".to_string())
        .symbol_addr(TARGET)
        .offset(0)
        .staging_addr(STAGING)
        .handler(counters.clone())
        .build()
        .unwrap();
    probe.install(&mut mem);
    manager.register_probe(probe);

    // Call the routine twice while the probe is installed; each call's
    // entry raises the breakpoint trap and then the staged completion.
    for _ in 0..2 {
        let r = detect_func(1, 2);
        assert_eq!(r, baseline);
        fire_once(&mut manager, &mut mem);
    }
    assert_eq!(*counters.enters.borrow(), 2);
    assert_eq!(*counters.exits.borrow(), 2);

    // Remove and uninstall; the code must be bit-for-bit as before.  Only
    // the probe's private staging buffer, scratch memory by design, may
    // differ.
    let mut probe = manager.unregister_probe(TARGET).unwrap();
    probe.uninstall(&mut mem);
    let after: Vec<u8> = (0..mem.len()).map(|i| mem.read_byte(BASE + i)).collect();
    for i in 0..after.len() {
        let addr = BASE + i;
        if (STAGING..STAGING + 8).contains(&addr) {
            continue;
        }
        assert_eq!(after[i], before[i], "byte at {addr:#x} changed");
    }
    assert_eq!(mem.read_word(TARGET), INSN32);

    // One more call: same value, no further handler invocations.
    assert_eq!(detect_func(1, 2), baseline);
    assert_eq!(*counters.enters.borrow(), 2);
    assert_eq!(*counters.exits.borrow(), 2);
    assert_eq!(*counters.faults.borrow(), 0);
}
