//! The register-frame model: the full general-purpose register file and the
//! trap frame captured at every involuntary transfer of control.

use vstd::prelude::*;

verus! {

/// The general-purpose register file, in the RISC-V layout this crate uses as
/// its reference register table.
///
/// `gp` and `tp` carry meaningful values only in frames captured from user
/// mode; the remaining slots are valid in every frame.
#[derive(Clone, Copy, Debug, PartialEq, Eq, Structural)]
pub struct GeneralRegisters {
    pub ra: usize,
    pub sp: usize,
    pub gp: usize,
    pub tp: usize,
    pub t0: usize,
    pub t1: usize,
    pub t2: usize,
    pub s0: usize,
    pub s1: usize,
    pub a0: usize,
    pub a1: usize,
    pub a2: usize,
    pub a3: usize,
    pub a4: usize,
    pub a5: usize,
    pub a6: usize,
    pub a7: usize,
    pub s2: usize,
    pub s3: usize,
    pub s4: usize,
    pub s5: usize,
    pub s6: usize,
    pub s7: usize,
    pub s8: usize,
    pub s9: usize,
    pub s10: usize,
    pub s11: usize,
    pub t3: usize,
    pub t4: usize,
    pub t5: usize,
    pub t6: usize,
}

/// The register file with every slot zero.
pub open spec fn zero_regs() -> GeneralRegisters {
    GeneralRegisters {
        ra: 0,
        sp: 0,
        gp: 0,
        tp: 0,
        t0: 0,
        t1: 0,
        t2: 0,
        s0: 0,
        s1: 0,
        a0: 0,
        a1: 0,
        a2: 0,
        a3: 0,
        a4: 0,
        a5: 0,
        a6: 0,
        a7: 0,
        s2: 0,
        s3: 0,
        s4: 0,
        s5: 0,
        s6: 0,
        s7: 0,
        s8: 0,
        s9: 0,
        s10: 0,
        s11: 0,
        t3: 0,
        t4: 0,
        t5: 0,
        t6: 0,
    }
}

impl GeneralRegisters {
    /// A register file with every slot zero.
    pub fn zeroed() -> (r: GeneralRegisters)
        ensures
            r == zero_regs(),
    {
        GeneralRegisters {
            ra: 0,
            sp: 0,
            gp: 0,
            tp: 0,
            t0: 0,
            t1: 0,
            t2: 0,
            s0: 0,
            s1: 0,
            a0: 0,
            a1: 0,
            a2: 0,
            a3: 0,
            a4: 0,
            a5: 0,
            a6: 0,
            a7: 0,
            s2: 0,
            s3: 0,
            s4: 0,
            s5: 0,
            s6: 0,
            s7: 0,
            s8: 0,
            s9: 0,
            s10: 0,
            s11: 0,
            t3: 0,
            t4: 0,
            t5: 0,
            t6: 0,
        }
    }
}

impl Default for GeneralRegisters {
    /// The default register file is all zeros.
    fn default() -> (r: GeneralRegisters)
        ensures
            r == zero_regs(),
    {
        GeneralRegisters::zeroed()
    }
}

/// The registers saved when a trap (interrupt or exception) occurs: the full
/// register file, the program counter at the trapped instruction, and the
/// processor status/mode word at the moment of the trap.
#[derive(Clone, Copy, Debug, PartialEq, Eq, Structural)]
pub struct TrapFrame {
    /// All general registers.
    pub regs: GeneralRegisters,
    /// Exception program counter: where execution resumes on trap return.
    pub sepc: usize,
    /// Processor status word captured at the trap.
    pub sstatus: usize,
}

/// The trap frame with every field zero.
pub open spec fn zero_frame() -> TrapFrame {
    TrapFrame { regs: zero_regs(), sepc: 0, sstatus: 0 }
}

impl TrapFrame {
    /// A trap frame with every field zero.
    pub fn zeroed() -> (r: TrapFrame)
        ensures
            r == zero_frame(),
    {
        TrapFrame { regs: GeneralRegisters::zeroed(), sepc: 0, sstatus: 0 }
    }

    /// Gets the 0th syscall argument.
    pub fn arg0(&self) -> (r: usize)
        ensures
            r == self.regs.a0,
    {
        self.regs.a0
    }

    /// Gets the 1st syscall argument.
    pub fn arg1(&self) -> (r: usize)
        ensures
            r == self.regs.a1,
    {
        self.regs.a1
    }

    /// Gets the 2nd syscall argument.
    pub fn arg2(&self) -> (r: usize)
        ensures
            r == self.regs.a2,
    {
        self.regs.a2
    }

    /// Gets the 3rd syscall argument.
    pub fn arg3(&self) -> (r: usize)
        ensures
            r == self.regs.a3,
    {
        self.regs.a3
    }

    /// Gets the 4th syscall argument.
    pub fn arg4(&self) -> (r: usize)
        ensures
            r == self.regs.a4,
    {
        self.regs.a4
    }

    /// Gets the 5th syscall argument.
    pub fn arg5(&self) -> (r: usize)
        ensures
            r == self.regs.a5,
    {
        self.regs.a5
    }

    /// Reads the syscall return-value slot.
    pub fn retval(&self) -> (r: usize)
        ensures
            r == self.regs.a0,
    {
        self.regs.a0
    }

    /// Writes the syscall return-value slot; every other field is kept.
    pub fn set_retval(&mut self, v: usize)
        ensures
            *final(self) == (TrapFrame {
                regs: GeneralRegisters { a0: v, ..old(self).regs },
                ..*old(self)
            }),
    {
        self.regs.a0 = v;
    }
}

impl Default for TrapFrame {
    /// The default trap frame is all zeros.
    fn default() -> (r: TrapFrame)
        ensures
            r == zero_frame(),
    {
        TrapFrame::zeroed()
    }
}

} // verus!
