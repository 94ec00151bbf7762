//! The probe registry and the two trap entry points.
//!
//! A [`KprobeManager`] owns the address-keyed indices: probes keyed by
//! breakpoint address, the continuation (debug) index used by the hardware
//! single-step path, and the transient run index that tracks one-shot
//! in-flight staged steps.  The trap dispatcher routes breakpoint traps to
//! [`KprobeManager::ebreak_handler`] and debug (single-step completion)
//! traps to [`KprobeManager::debug_handler`].
//!
//! Both entry points are specified against a spec-level transition function
//! of the registry state, so that properties of whole trap sequences — such
//! as the strict enter/exit pairing of handler invocations — are proved once
//! about the model and carried to the executable code by the contracts.

use vstd::prelude::*;

use std::collections::BTreeMap;

use crate::arch::{
    breakpoint_address, has_hw_single_step, spec_has_hw_single_step, spec_pc_adjust,
    spec_trap_width, trap_width, Arch,
};
use crate::memory::CodeMemory;
use crate::probe::{staged_bytes, Kprobe, ProbeHandler, ProbeView};
use crate::regs::TrapFrame;

verus! {

broadcast use {vstd::std_specs::btree::group_btree_axioms, vstd::laws_cmp::group_laws_cmp};

/// The single-step (trap) flag bit of the saved processor status word.
pub const SINGLE_STEP_FLAG: usize = 0x100;

/// What one trap dispatch did.
#[derive(Clone, Copy, Debug, PartialEq, Eq)]
pub enum TrapOutcome {
    /// A registered probe fired: its enter handler ran and the single step
    /// was armed.  Carries the breakpoint address.
    Enter(usize),
    /// A single step completed: the exit handler ran and the counter was
    /// restored to the resume address.  Carries the breakpoint address.
    Exit(usize),
    /// A breakpoint trap at an address with no registry entry: there is no
    /// safe way to resume, the caller must abort.  Carries the recovered
    /// breakpoint address.
    Fatal(usize),
    /// A completion trap that no registry entry explains: non-fatal, the
    /// counter was advanced past the trap instruction.  Carries the
    /// reported counter.
    Skip(usize),
}

/// The spec-level state of a [`KprobeManager`].
#[verifier::ext_equal]
pub ghost struct ManagerView {
    pub arch: Arch,
    /// Breakpoint address -> probe.
    pub probes: Map<usize, ProbeView>,
    /// Continuation (debug) address -> breakpoint address, for the
    /// hardware single-step path; populated at registration.
    pub debug_list: Map<usize, usize>,
    /// Staged trap address -> breakpoint address, for in-flight software
    /// steps; one-shot, cleared on completion.
    pub run_list: Map<usize, usize>,
}

impl ManagerView {
    /// Every registered probe is installed, keyed by its own target
    /// address, and has representable addresses.
    pub open spec fn wf(self) -> bool {
        forall|a: usize|
            self.probes.contains_key(a) ==> {
                &&& (#[trigger] self.probes[a]).wf()
                &&& self.probes[a].installed
                &&& self.probes[a].address() == a
                &&& self.probes[a].arch == self.arch
            }
    }
}

/// The breakpoint address a reported program counter stands for.
pub open spec fn spec_breakpoint_address(arch: Arch, sepc: usize) -> usize {
    (sepc - spec_pc_adjust(arch)) as usize
}

/// Whether a breakpoint trap at reported counter `sepc` hits a registered
/// probe.
pub open spec fn ebreak_enter_hit(m: ManagerView, sepc: usize) -> bool {
    m.probes.contains_key(spec_breakpoint_address(m.arch, sepc))
}

/// Whether a breakpoint trap at reported counter `sepc` is the completion
/// of an in-flight staged single step.
pub open spec fn ebreak_exit_hit(m: ManagerView, sepc: usize) -> bool {
    let a = spec_breakpoint_address(m.arch, sepc);
    &&& !ebreak_enter_hit(m, sepc)
    &&& !spec_has_hw_single_step(m.arch)
    &&& m.run_list.contains_key(a)
    &&& m.probes.contains_key(m.run_list[a])
}

/// The registry state after a breakpoint trap at reported counter `sepc`:
/// a probe hit records the staged trap address in the run index (software
/// path only); a staged completion clears its one-shot run entry; anything
/// else leaves the registry unchanged.
pub open spec fn ebreak_step(m: ManagerView, sepc: usize) -> ManagerView {
    let a = spec_breakpoint_address(m.arch, sepc);
    if ebreak_enter_hit(m, sepc) {
        if spec_has_hw_single_step(m.arch) {
            m
        } else {
            ManagerView { run_list: m.run_list.insert(m.probes[a].step_trap_address(), a), ..m }
        }
    } else if ebreak_exit_hit(m, sepc) {
        ManagerView { run_list: m.run_list.remove(a), ..m }
    } else {
        m
    }
}

/// What a breakpoint trap at reported counter `sepc` does: enter a probe,
/// complete a staged step, or fail fast.
pub open spec fn ebreak_outcome(m: ManagerView, sepc: usize) -> TrapOutcome {
    let a = spec_breakpoint_address(m.arch, sepc);
    if ebreak_enter_hit(m, sepc) {
        TrapOutcome::Enter(a)
    } else if ebreak_exit_hit(m, sepc) {
        TrapOutcome::Exit(m.run_list[a])
    } else {
        TrapOutcome::Fatal(a)
    }
}

/// The program counter after a breakpoint trap: the staging-buffer entry on
/// a probe hit, the probe's resume address on a staged completion, and
/// unchanged on the fatal path (the caller aborts).
pub open spec fn ebreak_next_sepc(m: ManagerView, sepc: usize) -> usize {
    let a = spec_breakpoint_address(m.arch, sepc);
    if ebreak_enter_hit(m, sepc) {
        m.probes[a].single_step_address()
    } else if ebreak_exit_hit(m, sepc) {
        m.probes[m.run_list[a]].return_address()
    } else {
        sepc
    }
}

/// The status word after a breakpoint trap: the single-step flag is set on
/// a probe hit on the hardware path, otherwise the word is untouched.
pub open spec fn ebreak_next_status(m: ManagerView, sepc: usize, status: usize) -> usize {
    if ebreak_enter_hit(m, sepc) && spec_has_hw_single_step(m.arch) {
        status | SINGLE_STEP_FLAG
    } else {
        status
    }
}

/// Whether a debug (hardware single-step completion) trap at counter `sepc`
/// resolves to a registered probe through the continuation index.
pub open spec fn debug_hit(m: ManagerView, sepc: usize) -> bool {
    &&& m.debug_list.contains_key(sepc)
    &&& m.probes.contains_key(m.debug_list[sepc])
}

/// What a debug trap at counter `sepc` does: complete the step, or skip an
/// unexplained trap non-fatally.
pub open spec fn debug_outcome(m: ManagerView, sepc: usize) -> TrapOutcome {
    if debug_hit(m, sepc) {
        TrapOutcome::Exit(m.debug_list[sepc])
    } else {
        TrapOutcome::Skip(sepc)
    }
}

/// The program counter after a debug trap: the probe's resume address on a
/// hit, else advanced by the default trap-instruction width.
pub open spec fn debug_next_sepc(m: ManagerView, sepc: usize) -> usize {
    if debug_hit(m, sepc) {
        m.probes[m.debug_list[sepc]].return_address()
    } else {
        (sepc + spec_trap_width(m.arch)) as usize
    }
}

/// The status word after a debug trap: the single-step flag is cleared on a
/// hit, otherwise the word is untouched.
pub open spec fn debug_next_status(m: ManagerView, sepc: usize, status: usize) -> usize {
    if debug_hit(m, sepc) {
        status & !SINGLE_STEP_FLAG
    } else {
        status
    }
}

/// The hook the trap dispatcher implements for its classified exception
/// causes: route the trap frame to the handler the cause calls for.
pub trait TrapHandler {
    /// Handle one kernel-mode trap described by `trap_context`.
    fn do_kernel_handle(&self, trap_context: &mut TrapFrame);
}

/// The probe registry: the shared mutable state of the trap entry points.
/// It is an explicit, injectable service — constructed at startup, passed
/// into the trap dispatcher, never torn down.
pub struct KprobeManager<H> {
    arch: Arch,
    probes: BTreeMap<usize, Kprobe<H>>,
    debug_list: BTreeMap<usize, usize>,
    run_list: BTreeMap<usize, usize>,
}

impl<H> View for KprobeManager<H> {
    type V = ManagerView;

    closed spec fn view(&self) -> ManagerView {
        ManagerView {
            arch: self.arch,
            probes: self.probes@.map_values(|p: Kprobe<H>| p@),
            debug_list: self.debug_list@,
            run_list: self.run_list@,
        }
    }
}

impl<H: ProbeHandler> KprobeManager<H> {
    /// An empty registry for the given architecture.
    pub fn new(arch: Arch) -> (m: KprobeManager<H>)
        ensures
            m@ == (ManagerView {
                arch,
                probes: Map::empty(),
                debug_list: Map::empty(),
                run_list: Map::empty(),
            }),
            m@.wf(),
    {
        let m = KprobeManager {
            arch,
            probes: BTreeMap::new(),
            debug_list: BTreeMap::new(),
            run_list: BTreeMap::new(),
        };
        proof {
            assert(m@.probes =~= Map::<usize, ProbeView>::empty());
        }
        m
    }

    /// The architecture this registry serves.
    pub fn arch(&self) -> (r: Arch)
        ensures
            r == self@.arch,
    {
        self.arch
    }

    /// Whether a probe is registered at breakpoint address `addr`.
    pub fn contains_probe(&self, addr: usize) -> (r: bool)
        ensures
            r == self@.probes.contains_key(addr),
    {
        self.probes.contains_key(&addr)
    }

    /// Insert an installed probe under its breakpoint address.  On the
    /// hardware single-step path the continuation index is populated with
    /// the probe's debug address at the same time.
    pub fn register_probe(&mut self, probe: Kprobe<H>)
        requires
            old(self)@.wf(),
            probe@.wf(),
            probe@.installed,
            probe@.arch == old(self)@.arch,
            !old(self)@.probes.contains_key(probe@.address()),
        ensures
            final(self)@.arch == old(self)@.arch,
            final(self)@.probes == old(self)@.probes.insert(probe@.address(), probe@),
            final(self)@.run_list == old(self)@.run_list,
            final(self)@.debug_list == if spec_has_hw_single_step(old(self)@.arch) {
                old(self)@.debug_list.insert(probe@.step_trap_address(), probe@.address())
            } else {
                old(self)@.debug_list
            },
            final(self)@.wf(),
    {
        let addr = probe.address();
        if has_hw_single_step(self.arch) {
            let debug_addr = probe.debug_address();
            self.debug_list.insert(debug_addr, addr);
        }
        self.probes.insert(addr, probe);
        proof {
            assert(final(self)@.probes =~= old(self)@.probes.insert(probe@.address(), probe@));
        }
    }

    /// Remove the probe registered at breakpoint address `addr`, together
    /// with its continuation entry and any in-flight run entry, and hand it
    /// back so the caller can uninstall it.  Removal precedes byte
    /// restoration, so no in-flight trap can find a patched instruction
    /// with no registered handler.
    pub fn unregister_probe(&mut self, addr: usize) -> (r: Option<Kprobe<H>>)
        requires
            old(self)@.wf(),
        ensures
            final(self)@.arch == old(self)@.arch,
            final(self)@.wf(),
            match r {
                Some(p) => {
                    &&& old(self)@.probes.contains_key(addr)
                    &&& p@ == old(self)@.probes[addr]
                    &&& final(self)@.probes == old(self)@.probes.remove(addr)
                    &&& final(self)@.debug_list == old(self)@.debug_list.remove(
                        p@.step_trap_address(),
                    )
                    &&& final(self)@.run_list == old(self)@.run_list.remove(p@.step_trap_address())
                },
                None => {
                    &&& !old(self)@.probes.contains_key(addr)
                    &&& final(self)@ == old(self)@
                },
            },
    {
        let probe_opt = self.probes.remove(&addr);
        match probe_opt {
            Some(probe) => {
                proof {
                    assert(old(self)@.probes.contains_key(addr) && old(self)@.probes[addr]
                        == probe@);
                }
                let step_addr = probe.debug_address();
                self.debug_list.remove(&step_addr);
                self.run_list.remove(&step_addr);
                proof {
                    assert(final(self)@.probes =~= old(self)@.probes.remove(addr));
                }
                Some(probe)
            },
            None => {
                proof {
                    assert(final(self)@.probes =~= old(self)@.probes);
                }
                None
            },
        }
    }

    /// The breakpoint trap entry point.
    ///
    /// Recovers the breakpoint address from the reported counter, then:
    /// a registered probe fires (enter handler, single step armed, counter
    /// redirected to the staging buffer); a staged completion finishes
    /// (exit handler, one-shot run entry cleared, counter restored to the
    /// resume address); anything else is fatal — the caller must abort,
    /// since without the saved original instruction there is no safe way to
    /// resume.  Register state other than the counter and the single-step
    /// flag is never altered.
    pub fn ebreak_handler(&mut self, frame: &mut TrapFrame, mem: &mut CodeMemory) -> (o:
        TrapOutcome)
        requires
            old(self)@.wf(),
            old(frame).sepc >= spec_pc_adjust(old(self)@.arch),
            ebreak_enter_hit(old(self)@, old(frame).sepc) ==> old(mem)@.in_range(
                old(self)@.probes[spec_breakpoint_address(old(self)@.arch, old(frame).sepc)].inst_tmp_addr,
                8,
            ),
        ensures
            final(self)@ == ebreak_step(old(self)@, old(frame).sepc),
            final(self)@.wf(),
            o == ebreak_outcome(old(self)@, old(frame).sepc),
            final(frame).sepc == ebreak_next_sepc(old(self)@, old(frame).sepc),
            final(frame).status == ebreak_next_status(old(self)@, old(frame).sepc, old(
                frame,
            ).status),
            final(frame).pt_regs == old(frame).pt_regs,
            final(mem)@.base == old(mem)@.base,
            if ebreak_enter_hit(old(self)@, old(frame).sepc) {
                final(mem)@.bytes == staged_bytes(
                    old(self)@.arch,
                    old(mem)@.bytes,
                    old(mem)@.offset(
                        old(self)@.probes[spec_breakpoint_address(
                            old(self)@.arch,
                            old(frame).sepc,
                        )].inst_tmp_addr,
                    ),
                    old(self)@.probes[spec_breakpoint_address(
                        old(self)@.arch,
                        old(frame).sepc,
                    )].old_instruction,
                )
            } else {
                final(mem)@.bytes == old(mem)@.bytes
            },
    {
        let bp_addr = breakpoint_address(self.arch, frame.sepc);
        let probe_opt = self.probes.remove(&bp_addr);
        match probe_opt {
            Some(mut probe) => {
                proof {
                    assert(old(self)@.probes.contains_key(bp_addr));
                    assert(probe@ == old(self)@.probes[bp_addr]);
                    assert(probe@.wf() && probe@.installed);
                }
                probe.pre_handler(&frame.pt_regs);
                let step = probe.simulate_single_step(mem);
                frame.sepc = step.0;
                if has_hw_single_step(self.arch) {
                    frame.status = frame.status | SINGLE_STEP_FLAG;
                } else {
                    self.run_list.insert(step.1, bp_addr);
                }
                self.probes.insert(bp_addr, probe);
                proof {
                    assert(self@.probes =~= old(self)@.probes);
                    assert(self@ =~= ebreak_step(old(self)@, old(frame).sepc));
                }
                TrapOutcome::Enter(bp_addr)
            },
            None => {
                proof {
                    assert(self@.probes =~= old(self)@.probes);
                    assert(!old(self)@.probes.contains_key(bp_addr));
                }
                if !has_hw_single_step(self.arch) {
                    let run_hit = match self.run_list.get(&bp_addr) {
                        Some(orig) => Some(*orig),
                        None => None,
                    };
                    match run_hit {
                        Some(orig) => {
                            proof {
                                assert(old(self)@.run_list.contains_key(bp_addr)
                                    && old(self)@.run_list[bp_addr] == orig);
                            }
                            let probe_opt = self.probes.remove(&orig);
                            match probe_opt {
                                Some(mut probe) => {
                                    proof {
                                        assert(old(self)@.probes.contains_key(orig));
                                        assert(probe@ == old(self)@.probes[orig]);
                                        assert(probe@.wf() && probe@.installed);
                                    }
                                    probe.post_handler(&frame.pt_regs);
                                    frame.sepc = probe.return_address();
                                    self.run_list.remove(&bp_addr);
                                    self.probes.insert(orig, probe);
                                    proof {
                                        assert(self@.probes =~= old(self)@.probes);
                                        assert(self@ =~= ebreak_step(old(self)@, old(frame).sepc));
                                    }
                                    TrapOutcome::Exit(orig)
                                },
                                None => {
                                    proof {
                                        assert(self@.probes =~= old(self)@.probes);
                                        assert(self@ =~= ebreak_step(old(self)@, old(frame).sepc));
                                    }
                                    TrapOutcome::Fatal(bp_addr)
                                },
                            }
                        },
                        None => {
                            proof {
                                assert(self@ =~= ebreak_step(old(self)@, old(frame).sepc));
                            }
                            TrapOutcome::Fatal(bp_addr)
                        },
                    }
                } else {
                    proof {
                        assert(self@ =~= ebreak_step(old(self)@, old(frame).sepc));
                    }
                    TrapOutcome::Fatal(bp_addr)
                }
            },
        }
    }

    /// The debug (hardware single-step completion) trap entry point.
    ///
    /// Resolves the probe by the original breakpoint address recovered
    /// through the continuation index, invokes the exit handler, clears the
    /// single-step flag and restores the counter to the resume address.  A
    /// miss is non-fatal: the counter is advanced by the default
    /// trap-instruction width to avoid an infinite fault loop, and no
    /// handler runs.
    pub fn debug_handler(&mut self, frame: &mut TrapFrame) -> (o: TrapOutcome)
        requires
            old(self)@.wf(),
            old(frame).sepc + 4 <= usize::MAX,
        ensures
            final(self)@ == old(self)@,
            o == debug_outcome(old(self)@, old(frame).sepc),
            final(frame).sepc == debug_next_sepc(old(self)@, old(frame).sepc),
            final(frame).status == debug_next_status(old(self)@, old(frame).sepc, old(
                frame,
            ).status),
            final(frame).pt_regs == old(frame).pt_regs,
    {
        let pc = frame.sepc;
        let orig_hit = match self.debug_list.get(&pc) {
            Some(orig) => Some(*orig),
            None => None,
        };
        match orig_hit {
            Some(orig) => {
                proof {
                    assert(old(self)@.debug_list.contains_key(pc) && old(self)@.debug_list[pc]
                        == orig);
                }
                let probe_opt = self.probes.remove(&orig);
                match probe_opt {
                    Some(mut probe) => {
                        proof {
                            assert(old(self)@.probes.contains_key(orig));
                            assert(probe@ == old(self)@.probes[orig]);
                            assert(probe@.wf() && probe@.installed);
                        }
                        probe.post_handler(&frame.pt_regs);
                        frame.status = frame.status & !SINGLE_STEP_FLAG;
                        frame.sepc = probe.return_address();
                        self.probes.insert(orig, probe);
                        proof {
                            assert(self@.probes =~= old(self)@.probes);
                            assert(self@ =~= old(self)@);
                        }
                        TrapOutcome::Exit(orig)
                    },
                    None => {
                        proof {
                            assert(self@.probes =~= old(self)@.probes);
                            assert(self@ =~= old(self)@);
                        }
                        frame.sepc = pc + trap_width(self.arch);
                        TrapOutcome::Skip(pc)
                    },
                }
            },
            None => {
                frame.sepc = pc + trap_width(self.arch);
                TrapOutcome::Skip(pc)
            },
        }
    }
}


/// The outcomes of dispatching a sequence of breakpoint traps at the
/// reported counters `pcs`, one after the other.
pub open spec fn ebreak_trace_outcomes(m: ManagerView, pcs: Seq<usize>) -> Seq<TrapOutcome>
    decreases pcs.len(),
{
    if pcs.len() == 0 {
        Seq::empty()
    } else {
        seq![ebreak_outcome(m, pcs[0])] + ebreak_trace_outcomes(ebreak_step(m, pcs[0]), pcs.skip(1))
    }
}

/// The registry state after dispatching a sequence of breakpoint traps at
/// the reported counters `pcs`, one after the other.
pub open spec fn ebreak_trace_step(m: ManagerView, pcs: Seq<usize>) -> ManagerView
    decreases pcs.len(),
{
    if pcs.len() == 0 {
        m
    } else {
        ebreak_trace_step(ebreak_step(m, pcs[0]), pcs.skip(1))
    }
}

/// The reported counters of `n` consecutive firings of the probe at `a`:
/// for each firing, the breakpoint trap at the probed address followed by
/// the staged completion trap in the probe's staging buffer, each as the
/// architecture reports it (advanced by the per-architecture adjustment).
pub open spec fn firing_trace(m: ManagerView, a: usize, n: nat) -> Seq<usize>
    decreases n,
{
    if n == 0 {
        Seq::empty()
    } else {
        seq![
            (a + spec_pc_adjust(m.arch)) as usize,
            (m.probes[a].step_trap_address() + spec_pc_adjust(m.arch)) as usize,
        ] + firing_trace(m, a, (n - 1) as nat)
    }
}

/// `n` repetitions of `Enter(a), Exit(a)`.
pub open spec fn paired_outcomes(a: usize, n: nat) -> Seq<TrapOutcome>
    decreases n,
{
    if n == 0 {
        Seq::empty()
    } else {
        seq![TrapOutcome::Enter(a), TrapOutcome::Exit(a)] + paired_outcomes(a, (n - 1) as nat)
    }
}

/// **Pairing**: on a software-staged architecture, while a probe stays
/// registered at `a` and nothing else occupies its staging-buffer trap
/// address, `n` consecutive firings of the probed routine invoke the enter
/// and exit handlers exactly `n` times each, in strict alternation, with no
/// missed or duplicated firing — and each completed firing returns the
/// registry to its starting state.
pub proof fn lemma_enter_exit_pairing(m: ManagerView, a: usize, n: nat)
    requires
        m.wf(),
        !spec_has_hw_single_step(m.arch),
        m.probes.contains_key(a),
        !m.probes.contains_key(m.probes[a].step_trap_address()),
        !m.run_list.contains_key(m.probes[a].step_trap_address()),
    ensures
        ebreak_trace_outcomes(m, firing_trace(m, a, n)) == paired_outcomes(a, n),
        ebreak_trace_step(m, firing_trace(m, a, n)) == m,
    decreases n,
{
    if n > 0 {
        let adj = spec_pc_adjust(m.arch);
        let t = m.probes[a].step_trap_address();
        let pc1 = (a + adj) as usize;
        let pc2 = (t + adj) as usize;
        assert(m.probes[a].wf());
        assert(a + adj <= usize::MAX) by {
            assert(m.probes[a].address() == a);
        }
        assert(t + adj <= usize::MAX);
        assert(spec_breakpoint_address(m.arch, pc1) == a);
        assert(spec_breakpoint_address(m.arch, pc2) == t);

        let trace = firing_trace(m, a, n);
        let rest = firing_trace(m, a, (n - 1) as nat);
        assert(trace == seq![pc1, pc2] + rest);
        assert(trace[0] == pc1);
        assert(trace.skip(1) =~= seq![pc2] + rest);

        assert(ebreak_enter_hit(m, pc1));
        assert(ebreak_outcome(m, pc1) == TrapOutcome::Enter(a));
        let m1 = ebreak_step(m, pc1);
        assert(m1 == (ManagerView { run_list: m.run_list.insert(t, a), ..m }));

        assert((seq![pc2] + rest)[0] == pc2);
        assert((seq![pc2] + rest).skip(1) =~= rest);
        assert(!ebreak_enter_hit(m1, pc2));
        assert(ebreak_exit_hit(m1, pc2));
        assert(ebreak_outcome(m1, pc2) == TrapOutcome::Exit(a));
        let m2 = ebreak_step(m1, pc2);
        assert(m2.run_list =~= m.run_list);
        assert(m2 =~= m);

        lemma_enter_exit_pairing(m, a, (n - 1) as nat);
        assert(ebreak_trace_outcomes(m2, rest) == paired_outcomes(a, (n - 1) as nat));
        assert(ebreak_trace_step(m2, rest) == m);
        assert(ebreak_trace_step(m1, seq![pc2] + rest) == m);
        assert(ebreak_trace_step(m, trace) == m);
        assert(ebreak_trace_outcomes(m1, seq![pc2] + rest) == seq![TrapOutcome::Exit(a)]
            + paired_outcomes(a, (n - 1) as nat));
        assert(ebreak_trace_outcomes(m, trace) == seq![TrapOutcome::Enter(a)] + (seq![
            TrapOutcome::Exit(a),
        ] + paired_outcomes(a, (n - 1) as nat)));
        assert(ebreak_trace_outcomes(m, trace) =~= paired_outcomes(a, n));
    }
}

/// **Fail-fast on unknown traps**: a breakpoint trap whose recovered
/// address no registry entry explains is fatal and changes neither the
/// registry nor the counter — the caller must abort; an unexplained debug
/// (completion) trap is non-fatal: it advances the counter by the default
/// trap-instruction width and invokes no handler.
pub proof fn lemma_unknown_trap(m: ManagerView, sepc: usize)
    requires
        !ebreak_enter_hit(m, sepc),
        !ebreak_exit_hit(m, sepc),
        !debug_hit(m, sepc),
    ensures
        ebreak_outcome(m, sepc) == TrapOutcome::Fatal(spec_breakpoint_address(m.arch, sepc)),
        ebreak_step(m, sepc) == m,
        ebreak_next_sepc(m, sepc) == sepc,
        debug_outcome(m, sepc) == TrapOutcome::Skip(sepc),
        debug_next_sepc(m, sepc) == (sepc + spec_trap_width(m.arch)) as usize,
{
}

} // verus!

