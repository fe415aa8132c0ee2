//! The task-switch engine: the minimal callee-saved snapshot of a
//! schedulable task, and the routine that exchanges two such snapshots
//! through the live CPU state.

use vstd::prelude::*;

use crate::cpu::Cpu;
use crate::cpu::FpuState;
use crate::fp::FpStatus;
use crate::fp::FpTag;
use crate::fp::bank_is_zero;
use crate::regs::GeneralRegisters;

verus! {

broadcast use vstd::array::group_array_axioms;

/// Saved hardware state of a task: the callee-saved registers, the stack
/// pointer, the return address, the thread-pointer register, the
/// address-space root, and the lazily-saved FP bank.
///
/// One instance is owned per schedulable task and lives as long as the task.
/// Only the switch engine mutates it: once on every switch out of the task.
/// While the owning task runs, the in-CPU values are authoritative and this
/// snapshot must not be read.
#[derive(Clone, Copy, Debug)]
pub struct TaskContext {
    /// Return address: where the task resumes when switched back in.
    pub ra: usize,
    /// Stack pointer.
    pub sp: usize,
    pub s0: usize,
    pub s1: usize,
    pub s2: usize,
    pub s3: usize,
    pub s4: usize,
    pub s5: usize,
    pub s6: usize,
    pub s7: usize,
    pub s8: usize,
    pub s9: usize,
    pub s10: usize,
    pub s11: usize,
    /// Thread-pointer register (thread-local storage).
    pub tp: usize,
    /// The address-space root installed when the owning task is switched in.
    pub satp: usize,
    /// The lazily-saved FP bank.
    pub fp_status: FpStatus,
}

impl TaskContext {
    /// The invariant of every stored context: its FP bank is never tagged
    /// dirty, and a never-used bank is all zeros.
    pub open spec fn wf(self) -> bool {
        self.fp_status.inv()
    }

    /// The context with every register zero, no address-space root and a
    /// never-used FP bank.
    pub open spec fn zeroed_spec() -> TaskContext {
        TaskContext {
            ra: 0,
            sp: 0,
            s0: 0,
            s1: 0,
            s2: 0,
            s3: 0,
            s4: 0,
            s5: 0,
            s6: 0,
            s7: 0,
            s8: 0,
            s9: 0,
            s10: 0,
            s11: 0,
            tp: 0,
            satp: 0,
            fp_status: FpStatus { fp: crate::fp::spec_zero_bank(), fcsr: 0, fs: FpTag::Initial },
        }
    }

    /// Creates the context of a new task: every register zero, the
    /// address-space root set to the kernel's, the FP bank never used.
    ///
    /// The register fields are filled by `switch_to` the first time the
    /// task is switched out, and by `init` for regular tasks.
    pub fn new(kernel_satp: usize) -> (r: TaskContext)
        ensures
            r == (TaskContext { satp: kernel_satp, ..TaskContext::zeroed_spec() }),
            r.fp_status.fs == FpTag::Initial,
            r.wf(),
    {
        TaskContext {
            ra: 0,
            sp: 0,
            s0: 0,
            s1: 0,
            s2: 0,
            s3: 0,
            s4: 0,
            s5: 0,
            s6: 0,
            s7: 0,
            s8: 0,
            s9: 0,
            s10: 0,
            s11: 0,
            tp: 0,
            satp: kernel_satp,
            fp_status: FpStatus::initial(),
        }
    }

    /// Initializes the context for a new task with the given entry point,
    /// kernel stack top and thread-local-storage area; everything else is
    /// kept.
    pub fn init(&mut self, entry: usize, kstack_top: usize, tls_area: usize)
        ensures
            *final(self) == (TaskContext {
                ra: entry,
                sp: kstack_top,
                tp: tls_area,
                ..*old(self)
            }),
            final(self).wf() == old(self).wf(),
    {
        self.sp = kstack_top;
        self.ra = entry;
        self.tp = tls_area;
    }

    /// Changes the address-space root recorded in this context; the
    /// hardware root register is updated the next time the task is
    /// switched in.
    pub fn set_page_table_root(&mut self, satp: usize)
        ensures
            *final(self) == (TaskContext { satp, ..*old(self) }),
            final(self).wf() == old(self).wf(),
    {
        self.satp = satp;
    }
}

/// The exact effect of one task switch on the outgoing context and the live
/// CPU: what `switch_to` stores into `cur` and what the CPU holds when
/// `next` resumes.
///
/// The four steps are strictly ordered: thread-pointer exchange,
/// address-space swap with full translation-cache flush (only when the
/// roots differ), lazy FP spill and restore, raw callee-saved exchange with
/// control transferred to `next`'s return address. The definition is total;
/// the engine itself is only entered with `next` satisfying the stored-bank
/// invariant, so the restore path only sees clean or never-used banks.
pub open spec fn switch_spec(cur: TaskContext, next: TaskContext, cpu: Cpu) -> (TaskContext, Cpu) {
    let saved = TaskContext {
        ra: cpu.regs.ra,
        sp: cpu.regs.sp,
        s0: cpu.regs.s0,
        s1: cpu.regs.s1,
        s2: cpu.regs.s2,
        s3: cpu.regs.s3,
        s4: cpu.regs.s4,
        s5: cpu.regs.s5,
        s6: cpu.regs.s6,
        s7: cpu.regs.s7,
        s8: cpu.regs.s8,
        s9: cpu.regs.s9,
        s10: cpu.regs.s10,
        s11: cpu.regs.s11,
        tp: cpu.regs.tp,
        satp: cur.satp,
        fp_status: if cpu.fpu.fs == FpTag::Dirty {
            FpStatus { fp: cpu.fpu.regs, fcsr: cpu.fpu.fcsr, fs: FpTag::Clean }
        } else {
            cur.fp_status
        },
    };
    let flush = cur.satp != next.satp;
    let cpu_after = Cpu {
        regs: GeneralRegisters {
            ra: next.ra,
            sp: next.sp,
            s0: next.s0,
            s1: next.s1,
            s2: next.s2,
            s3: next.s3,
            s4: next.s4,
            s5: next.s5,
            s6: next.s6,
            s7: next.s7,
            s8: next.s8,
            s9: next.s9,
            s10: next.s10,
            s11: next.s11,
            tp: next.tp,
            ..cpu.regs
        },
        pc: next.ra,
        satp: if flush {
            next.satp
        } else {
            cpu.satp
        },
        tlb_flushes: if flush {
            (cpu.tlb_flushes + 1) as u64
        } else {
            cpu.tlb_flushes
        },
        fpu: if next.fp_status.fs == FpTag::Clean {
            FpuState { regs: next.fp_status.fp, fcsr: next.fp_status.fcsr, fs: FpTag::Clean }
        } else {
            FpuState { regs: crate::fp::spec_zero_bank(), fcsr: 0, fs: FpTag::Initial }
        },
        ..cpu
    };
    (saved, cpu_after)
}

impl TaskContext {
    /// Switches out of the running task, whose context is `self`, and into
    /// `next_ctx`.
    ///
    /// Stores the current CPU state into this context and loads `next_ctx`
    /// into the CPU, in the strict order of `switch_spec`: thread pointer,
    /// address space (with one full translation-cache flush, and only when
    /// the roots differ), lazy FP state, callee-saved registers. Control
    /// passes to the address in `next_ctx.ra`; the call "returns" only when
    /// a later switch names this context as its target.
    ///
    /// A dirty bank in the incoming context is an invariant violation the
    /// engine treats as fatal, so it is excluded here; the outgoing bank is
    /// demoted to clean or left never-used, never dirty.
    pub fn switch_to(&mut self, next_ctx: &TaskContext, cpu: &mut Cpu)
        requires
            old(self).wf(),
            next_ctx.wf(),
            old(cpu).tlb_flushes < u64::MAX,
        ensures
            *final(self) == switch_spec(*old(self), *next_ctx, *old(cpu)).0,
            *final(cpu) == switch_spec(*old(self), *next_ctx, *old(cpu)).1,
            final(self).wf(),
            final(self).fp_status.fs != FpTag::Dirty,
            final(self).satp == old(self).satp,
            final(cpu).pc == next_ctx.ra,
            old(self).satp == next_ctx.satp ==> final(cpu).tlb_flushes == old(cpu).tlb_flushes
                && final(cpu).satp == old(cpu).satp,
            old(self).satp != next_ctx.satp ==> final(cpu).tlb_flushes == old(cpu).tlb_flushes
                + 1 && final(cpu).satp == next_ctx.satp,
    {
        // (1) thread-local storage: read the live pointer out, install next's
        let hw_tp = cpu.regs.tp;
        cpu.regs.tp = next_ctx.tp;
        // (2) address space: swap the root and flush all translations, only
        // when the roots differ
        if self.satp != next_ctx.satp {
            cpu.satp = next_ctx.satp;
            cpu.tlb_flushes = cpu.tlb_flushes + 1;
        }
        // (3) lazy FP: spill a dirty unit into the outgoing bank and demote
        // it to clean, then restore or reset the unit for the incoming bank
        if cpu.fpu.fs == FpTag::Dirty {
            self.fp_status = FpStatus { fp: cpu.fpu.regs, fcsr: cpu.fpu.fcsr, fs: FpTag::Clean };
        }
        match next_ctx.fp_status.fs {
            FpTag::Clean => {
                cpu.fpu = FpuState {
                    regs: next_ctx.fp_status.fp,
                    fcsr: next_ctx.fp_status.fcsr,
                    fs: FpTag::Clean,
                };
            },
            FpTag::Initial => {
                cpu.fpu = FpuState { regs: [0; 32], fcsr: 0, fs: FpTag::Initial };
            },
            FpTag::Dirty => {
                proof {
                    assert(false);  // excluded: next_ctx.wf()
                }
            },
        }
        // (4) raw exchange: store the callee-saved registers and stack
        // pointer, load next's, and transfer control to next's return
        // address
        self.tp = hw_tp;
        self.ra = cpu.regs.ra;
        self.sp = cpu.regs.sp;
        self.s0 = cpu.regs.s0;
        self.s1 = cpu.regs.s1;
        self.s2 = cpu.regs.s2;
        self.s3 = cpu.regs.s3;
        self.s4 = cpu.regs.s4;
        self.s5 = cpu.regs.s5;
        self.s6 = cpu.regs.s6;
        self.s7 = cpu.regs.s7;
        self.s8 = cpu.regs.s8;
        self.s9 = cpu.regs.s9;
        self.s10 = cpu.regs.s10;
        self.s11 = cpu.regs.s11;
        cpu.regs.ra = next_ctx.ra;
        cpu.regs.sp = next_ctx.sp;
        cpu.regs.s0 = next_ctx.s0;
        cpu.regs.s1 = next_ctx.s1;
        cpu.regs.s2 = next_ctx.s2;
        cpu.regs.s3 = next_ctx.s3;
        cpu.regs.s4 = next_ctx.s4;
        cpu.regs.s5 = next_ctx.s5;
        cpu.regs.s6 = next_ctx.s6;
        cpu.regs.s7 = next_ctx.s7;
        cpu.regs.s8 = next_ctx.s8;
        cpu.regs.s9 = next_ctx.s9;
        cpu.regs.s10 = next_ctx.s10;
        cpu.regs.s11 = next_ctx.s11;
        cpu.pc = next_ctx.ra;
    }
}

/// Coherence between a running task's stored context and the live FP unit:
/// a clean unit matches the stored bank, a never-used unit is zero and so is
/// the stored bank. A dirty unit is unconstrained — its spill is exactly
/// what the switch engine does.
pub open spec fn fp_coherent(ctx: TaskContext, cpu: Cpu) -> bool {
    &&& cpu.fpu.fs == FpTag::Clean ==> ctx.fp_status.fs == FpTag::Clean && cpu.fpu.regs
        == ctx.fp_status.fp && cpu.fpu.fcsr == ctx.fp_status.fcsr
    &&& cpu.fpu.fs == FpTag::Initial ==> ctx.fp_status.fs == FpTag::Initial && bank_is_zero(
        cpu.fpu.regs,
    ) && cpu.fpu.fcsr == 0
}

/// After any switch, the outgoing context's FP bank is never tagged dirty:
/// a dirty unit is spilled and demoted to clean, and an already stored bank
/// keeps its non-dirty tag.
pub proof fn lemma_switch_outgoing_fp_never_dirty(cur: TaskContext, next: TaskContext, cpu: Cpu)
    requires
        cur.wf(),
    ensures
        switch_spec(cur, next, cpu).0.fp_status.fs != FpTag::Dirty,
        switch_spec(cur, next, cpu).0.wf(),
{
}

/// Switching between two contexts with the same address-space root performs
/// no translation-cache flush and leaves the hardware root untouched.
pub proof fn lemma_switch_same_root_no_flush(cur: TaskContext, next: TaskContext, cpu: Cpu)
    requires
        cur.satp == next.satp,
    ensures
        switch_spec(cur, next, cpu).1.tlb_flushes == cpu.tlb_flushes,
        switch_spec(cur, next, cpu).1.satp == cpu.satp,
{
}

/// A switch leaves the live FP unit coherent with the incoming context: a
/// clean bank is reloaded exactly, a never-used bank leaves the unit zeroed.
pub proof fn lemma_switch_establishes_fp_coherence(cur: TaskContext, next: TaskContext, cpu: Cpu)
    requires
        next.wf(),
    ensures
        fp_coherent(next, switch_spec(cur, next, cpu).1),
{
}

/// Round trip: after `switch(A, B)` and a later `switch(B, A')` back into
/// A's saved snapshot, the CPU holds every register A held before the first
/// switch, bit for bit — callee-saved registers, stack pointer, thread
/// pointer, FP bank and FP control word — and control resumes at A's return
/// address. Only the address-space root and the FP tag may differ, when the
/// switches intentionally changed them. B's run in between (`cpu_mid`) is
/// arbitrary.
pub proof fn lemma_switch_round_trip(a: TaskContext, b: TaskContext, cpu0: Cpu, cpu_mid: Cpu)
    requires
        a.wf(),
        b.wf(),
        fp_coherent(a, cpu0),
    ensures
        ({
            let (a_saved, cpu_in_b) = switch_spec(a, b, cpu0);
            let (b_saved, cpu_back) = switch_spec(b, a_saved, cpu_mid);
            &&& cpu_back.regs.ra == cpu0.regs.ra
            &&& cpu_back.regs.sp == cpu0.regs.sp
            &&& cpu_back.regs.s0 == cpu0.regs.s0
            &&& cpu_back.regs.s1 == cpu0.regs.s1
            &&& cpu_back.regs.s2 == cpu0.regs.s2
            &&& cpu_back.regs.s3 == cpu0.regs.s3
            &&& cpu_back.regs.s4 == cpu0.regs.s4
            &&& cpu_back.regs.s5 == cpu0.regs.s5
            &&& cpu_back.regs.s6 == cpu0.regs.s6
            &&& cpu_back.regs.s7 == cpu0.regs.s7
            &&& cpu_back.regs.s8 == cpu0.regs.s8
            &&& cpu_back.regs.s9 == cpu0.regs.s9
            &&& cpu_back.regs.s10 == cpu0.regs.s10
            &&& cpu_back.regs.s11 == cpu0.regs.s11
            &&& cpu_back.regs.tp == cpu0.regs.tp
            &&& cpu_back.pc == cpu0.regs.ra
            &&& cpu_back.fpu.regs == cpu0.fpu.regs
            &&& cpu_back.fpu.fcsr == cpu0.fpu.fcsr
        }),
{
    let (a_saved, cpu_in_b) = switch_spec(a, b, cpu0);
    let (b_saved, cpu_back) = switch_spec(b, a_saved, cpu_mid);
    if cpu0.fpu.fs == FpTag::Initial {
        // both banks are all zeros, so they are equal element for element
        assert(cpu_back.fpu.regs =~= cpu0.fpu.regs);
    }
}

} // verus!
