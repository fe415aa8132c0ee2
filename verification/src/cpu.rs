//! An explicit model of the live per-core machine state that the transfer
//! protocols read and write.
//!
//! On real hardware this state lives in registers and is touched by single
//! privileged instructions; here it is a value, so that every effect of a
//! task switch, a user-mode entry or a world switch can be stated in a
//! contract and proved. The unverified embedding keeps this model in step
//! with the hardware it drives.

use vstd::prelude::*;

use crate::fp::FpTag;
use crate::regs::GeneralRegisters;
use crate::regs::zero_regs;

verus! {

/// The live floating-point unit: the current bank, the control/status word,
/// and the hardware dirty-tracking tag.
#[derive(Clone, Copy, Debug)]
pub struct FpuState {
    /// The FP register bank currently in the unit.
    pub regs: [u64; 32],
    /// The FP control/status word currently in the unit.
    pub fcsr: usize,
    /// The hardware tag: `Dirty` when the unit holds values newer than the
    /// owning task's saved bank.
    pub fs: FpTag,
}

/// The live state of one core.
///
/// Exactly one value of this type stands for one physical core, and only one
/// flow of control touches it at a time; the transfer routines take it by
/// exclusive reference.
pub struct Cpu {
    /// The general-purpose register file.
    pub regs: GeneralRegisters,
    /// The program counter.
    pub pc: usize,
    /// The processor status word.
    pub sstatus: usize,
    /// The address-space root (translation-root register).
    pub satp: usize,
    /// The kernel stack top published for the next trap from user mode.
    pub sscratch: usize,
    /// Whether interrupts are currently accepted.
    pub irqs_on: bool,
    /// How many times the translation caches have been invalidated. The
    /// counter only observes the flush policy; hardware keeps no such count.
    pub tlb_flushes: u64,
    /// The live floating-point unit.
    pub fpu: FpuState,
    /// The host stack, as the stack of word-sized spill slots that the world
    /// switch pushes and pops.
    pub stack: Vec<usize>,
}

impl Cpu {
    /// A core as it stands before any context has run: everything zero,
    /// interrupts off, FP unit in its never-used state.
    pub fn boot() -> (r: Cpu)
        ensures
            r.regs == zero_regs(),
            r.pc == 0,
            r.sstatus == 0,
            r.satp == 0,
            r.sscratch == 0,
            !r.irqs_on,
            r.tlb_flushes == 0,
            r.fpu.fs == FpTag::Initial,
            forall|i: int| 0 <= i < 32 ==> r.fpu.regs[i] == 0,
            r.fpu.fcsr == 0,
            r.stack@ == Seq::<usize>::empty(),
    {
        Cpu {
            regs: GeneralRegisters::zeroed(),
            pc: 0,
            sstatus: 0,
            satp: 0,
            sscratch: 0,
            irqs_on: false,
            tlb_flushes: 0,
            fpu: FpuState { regs: [0; 32], fcsr: 0, fs: FpTag::Initial },
            stack: Vec::new(),
        }
    }
}

} // verus!
