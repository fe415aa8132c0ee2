//! The user-entry builder: a synthetic trap frame representing "as if a
//! trap had just occurred", so that a process's very first entry into user
//! mode can reuse the ordinary trap-return path.

use vstd::prelude::*;

use crate::cpu::Cpu;
use crate::regs::GeneralRegisters;
use crate::regs::TrapFrame;
use crate::regs::zero_frame;
use crate::regs::zero_regs;

verus! {

/// Status bit: previous interrupt enable. The trap-return instruction
/// copies it into the live interrupt-enable bit, so setting it here enters
/// user code with interrupts accepted.
pub const STATUS_SPIE: usize = 1 << 5;

/// Status bit: permit supervisor code to access user memory.
pub const STATUS_SUM: usize = 1 << 18;

/// The frame a fresh user entry is built from: every register zero except
/// the user stack pointer and the first argument register, the entry point
/// as the resume address, and a status word selecting user privilege with
/// interrupts enabled and supervisor access to user memory.
pub open spec fn user_entry_frame(entry: usize, ustack_top: usize, arg0: usize) -> TrapFrame {
    TrapFrame {
        regs: GeneralRegisters { sp: ustack_top, a0: arg0, ..zero_regs() },
        sepc: entry,
        sstatus: STATUS_SPIE | STATUS_SUM,
    }
}

/// Context to enter user space: a pre-populated trap frame, consumed
/// exactly once by [`UspaceContext::enter_uspace`], after which it is
/// indistinguishable from any other trap frame.
#[derive(Clone, Copy, Debug)]
pub struct UspaceContext {
    /// The synthetic trap frame.
    pub frame: TrapFrame,
}

impl UspaceContext {
    /// Creates an empty context with all registers set to zero.
    pub fn empty() -> (r: UspaceContext)
        ensures
            r.frame == zero_frame(),
    {
        UspaceContext { frame: TrapFrame::zeroed() }
    }

    /// Creates a new context with the given entry point, user stack
    /// pointer, and first argument.
    pub fn new(entry: usize, ustack_top: usize, arg0: usize) -> (r: UspaceContext)
        ensures
            r.frame == user_entry_frame(entry, ustack_top, arg0),
            r.frame.sepc == entry,
            r.frame.regs.sp == ustack_top,
            r.frame.regs.a0 == arg0,
    {
        let mut regs = GeneralRegisters::zeroed();
        regs.sp = ustack_top;
        regs.a0 = arg0;
        UspaceContext {
            frame: TrapFrame { regs, sepc: entry, sstatus: STATUS_SPIE | STATUS_SUM },
        }
    }

    /// Creates a new context from the given trap frame.
    pub fn from(trap_frame: &TrapFrame) -> (r: UspaceContext)
        ensures
            r.frame == *trap_frame,
    {
        UspaceContext { frame: *trap_frame }
    }

    /// The instruction pointer user code starts at.
    pub fn ip(&self) -> (r: usize)
        ensures
            r == self.frame.sepc,
    {
        self.frame.sepc
    }

    /// The user stack pointer.
    pub fn sp(&self) -> (r: usize)
        ensures
            r == self.frame.regs.sp,
    {
        self.frame.regs.sp
    }

    /// Enters user space: the one use of the frame-to-hardware direction of
    /// the trap protocol outside genuine trap return.
    ///
    /// Interrupts are masked for the transition, `kstack_top` is published
    /// as the stack the hardware will use to re-enter supervisor mode on
    /// the next trap from this context, and the frame is popped into the
    /// CPU exactly as ordinary trap return would pop it: the full register
    /// file, the resume address and the status word, with the live
    /// interrupt-enable bit taken from the status word's
    /// previous-interrupt-enable bit. On hardware this transfer never
    /// returns to its caller; here the model leaves the CPU in the landing
    /// state user code observes at its first instruction.
    pub fn enter_uspace(&self, kstack_top: usize, cpu: &mut Cpu)
        ensures
            final(cpu).regs == self.frame.regs,
            final(cpu).pc == self.frame.sepc,
            final(cpu).sstatus == self.frame.sstatus,
            final(cpu).sscratch == kstack_top,
            final(cpu).irqs_on == ((self.frame.sstatus >> 5) & 1 == 1),
            final(cpu).satp == old(cpu).satp,
            final(cpu).tlb_flushes == old(cpu).tlb_flushes,
            final(cpu).fpu == old(cpu).fpu,
            final(cpu).stack@ == old(cpu).stack@,
    {
        // mask interrupts: no trap may interleave with the switch of stacks
        cpu.irqs_on = false;
        // publish the kernel stack for the next trap out of user mode
        cpu.sscratch = kstack_top;
        // write the resume address, then pop the frame and drop privilege
        cpu.pc = self.frame.sepc;
        cpu.regs = self.frame.regs;
        cpu.sstatus = self.frame.sstatus;
        // trap return moves the previous-interrupt-enable bit into the live
        // interrupt-enable bit
        cpu.irqs_on = (self.frame.sstatus >> 5) & 1 == 1;
    }
}

} // verus!
