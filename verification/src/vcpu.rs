//! The guest world-switch trampoline: the bidirectional transfer between
//! the host and guest privilege worlds of a hypervisor run loop.
//!
//! The entry half spills the host's callee-saved registers onto the host
//! stack and records the resulting stack pointer in a fixed-offset slot of
//! the per-vCPU structure, immediately past the guest's trap-frame storage;
//! the hardware then drops into the guest world. On a VM exit the hardware
//! spills the guest's register file into that frame storage, and the exit
//! half recovers the host stack pointer from the slot, restores the host's
//! callee-saved registers and makes the entry call appear to return with
//! the decoded exit kind. Control falling through past the entry transfer
//! would mean the stack can no longer be trusted; the unverified embedding
//! halts there unconditionally, so this model only ever takes the
//! trampoline path back.

use vstd::prelude::*;

use crate::cpu::Cpu;
use crate::regs::GeneralRegisters;
use crate::regs::TrapFrame;
use crate::regs::zero_frame;
use crate::trap::TrapClass;

verus! {

/// Words of guest state spilled into the frame storage at a VM exit: the
/// full register file plus program counter and status word.
pub const GUEST_FRAME_WORDS: usize = 33;

/// Bytes per spilled register slot.
pub const WORD_BYTES: usize = 8;

/// Displacement, in bytes, of the host-stack-pointer slot from the base of
/// the guest's frame storage.
pub const HOST_STACK_TOP_OFFSET: usize = 264;

/// How many host registers the entry half spills: the callee-saved set and
/// the return address.
pub const HOST_SPILL_WORDS: usize = 13;

/// The boundary-record slot sits exactly one guest frame past the frame
/// base. Pinning the displacement here guards against drift if the layout
/// of the frame changes.
pub proof fn lemma_host_slot_past_frame()
    ensures
        HOST_STACK_TOP_OFFSET == GUEST_FRAME_WORDS * WORD_BYTES,
{
}

/// A virtual CPU: the guest's trap-frame storage, immediately followed by
/// the host-stack-pointer slot of the host/guest boundary record.
#[derive(Clone, Copy, Debug)]
pub struct VCpu {
    /// The guest's register file, spilled here by hardware at every VM
    /// exit and reloaded on entry.
    pub ctx: TrapFrame,
    /// The host stack pointer, written by the entry half and consumed by
    /// the exit half. Valid only while a guest is actively running; it
    /// must never be read otherwise.
    pub host_stack_top: usize,
}

impl VCpu {
    /// A fresh virtual CPU: guest state zeroed, no host record.
    pub fn new() -> (r: VCpu)
        ensures
            r.ctx == zero_frame(),
            r.host_stack_top == 0,
    {
        VCpu { ctx: TrapFrame::zeroed(), host_stack_top: 0 }
    }
}

/// The slot the entry half writes the host stack pointer into, for a vCPU
/// whose guest frame storage starts at `frame_base`: one guest frame past
/// the base.
pub fn host_slot_addr(frame_base: usize) -> (r: usize)
    requires
        frame_base + HOST_STACK_TOP_OFFSET <= usize::MAX,
    ensures
        r == frame_base + HOST_STACK_TOP_OFFSET,
{
    frame_base + HOST_STACK_TOP_OFFSET
}

/// The words the entry half pushes, oldest first: the callee-saved
/// registers, then the return address.
pub open spec fn host_spill(regs: GeneralRegisters) -> Seq<usize> {
    seq![
        regs.s0,
        regs.s1,
        regs.s2,
        regs.s3,
        regs.s4,
        regs.s5,
        regs.s6,
        regs.s7,
        regs.s8,
        regs.s9,
        regs.s10,
        regs.s11,
        regs.ra,
    ]
}

/// Decodes the hardware's exit cause into the abstract trap kind the world
/// switch reports; codes the hardware never delivers decode to nothing.
pub open spec fn vmexit_kind_spec(code: u64) -> Option<TrapClass> {
    if code == 0 {
        Some(TrapClass::Synchronous)
    } else if code == 1 {
        Some(TrapClass::Irq)
    } else if code == 2 {
        Some(TrapClass::Fiq)
    } else if code == 3 {
        Some(TrapClass::SError)
    } else {
        None
    }
}

/// Decodes the hardware's exit cause into the abstract trap kind.
pub fn vmexit_kind(code: u64) -> (k: Option<TrapClass>)
    ensures
        k == vmexit_kind_spec(code),
{
    if code == 0 {
        Some(TrapClass::Synchronous)
    } else if code == 1 {
        Some(TrapClass::Irq)
    } else if code == 2 {
        Some(TrapClass::Fiq)
    } else if code == 3 {
        Some(TrapClass::SError)
    } else {
        None
    }
}

/// Exit decoding is total over the codes the hardware can deliver, and
/// every defined code decodes to exactly one kind.
pub proof fn lemma_vmexit_decode_total()
    ensures
        forall|code: u64| code <= 3 <==> (#[trigger] vmexit_kind_spec(code)) is Some,
{
}

/// The entry half: spills the host's callee-saved registers and return
/// address onto the host stack and records the resulting stack pointer in
/// the vCPU's boundary record. The transfer to guest-entry code follows;
/// everything else of the host state is left exactly as it stands.
pub fn run_guest_prepare(vcpu: &mut VCpu, cpu: &mut Cpu)
    requires
        old(cpu).stack@.len() + HOST_SPILL_WORDS <= usize::MAX,
    ensures
        final(cpu).stack@ == old(cpu).stack@ + host_spill(old(cpu).regs),
        final(vcpu).host_stack_top == final(cpu).stack@.len(),
        final(vcpu).ctx == old(vcpu).ctx,
        final(cpu).regs == old(cpu).regs,
        final(cpu).pc == old(cpu).pc,
        final(cpu).sstatus == old(cpu).sstatus,
        final(cpu).satp == old(cpu).satp,
        final(cpu).sscratch == old(cpu).sscratch,
        final(cpu).irqs_on == old(cpu).irqs_on,
        final(cpu).tlb_flushes == old(cpu).tlb_flushes,
        final(cpu).fpu == old(cpu).fpu,
{
    cpu.stack.push(cpu.regs.s0);
    cpu.stack.push(cpu.regs.s1);
    cpu.stack.push(cpu.regs.s2);
    cpu.stack.push(cpu.regs.s3);
    cpu.stack.push(cpu.regs.s4);
    cpu.stack.push(cpu.regs.s5);
    cpu.stack.push(cpu.regs.s6);
    cpu.stack.push(cpu.regs.s7);
    cpu.stack.push(cpu.regs.s8);
    cpu.stack.push(cpu.regs.s9);
    cpu.stack.push(cpu.regs.s10);
    cpu.stack.push(cpu.regs.s11);
    cpu.stack.push(cpu.regs.ra);
    vcpu.host_stack_top = cpu.stack.len();
    proof {
        assert(cpu.stack@ =~= old(cpu).stack@ + host_spill(old(cpu).regs));
    }
}

/// The register file after the exit half has popped the spilled words back:
/// the callee-saved registers and the return address come off the stack,
/// everything else keeps its value.
pub open spec fn host_restore(regs: GeneralRegisters, stack: Seq<usize>) -> GeneralRegisters {
    let n = stack.len() as int;
    GeneralRegisters {
        s0: stack[n - 13],
        s1: stack[n - 12],
        s2: stack[n - 11],
        s3: stack[n - 10],
        s4: stack[n - 9],
        s5: stack[n - 8],
        s6: stack[n - 7],
        s7: stack[n - 6],
        s8: stack[n - 5],
        s9: stack[n - 4],
        s10: stack[n - 3],
        s11: stack[n - 2],
        ra: stack[n - 1],
        ..regs
    }
}

/// The exit half: with the guest's register file already spilled into the
/// frame storage by hardware, recovers the host stack pointer from the
/// boundary record, restores the host's callee-saved registers and return
/// address from the stack, and returns to the host at the restored return
/// address — making the original entry call appear to return normally.
///
/// The boundary record is consumed here: it must still match the live host
/// stack, which is exactly its validity window.
pub fn vmexit_trampoline(vcpu: &VCpu, cpu: &mut Cpu)
    requires
        vcpu.host_stack_top == old(cpu).stack@.len(),
        old(cpu).stack@.len() >= HOST_SPILL_WORDS,
    ensures
        final(cpu).stack@ == old(cpu).stack@.subrange(
            0,
            old(cpu).stack@.len() - HOST_SPILL_WORDS,
        ),
        final(cpu).regs == host_restore(old(cpu).regs, old(cpu).stack@),
        final(cpu).pc == final(cpu).regs.ra,
        final(cpu).sstatus == old(cpu).sstatus,
        final(cpu).satp == old(cpu).satp,
        final(cpu).sscratch == old(cpu).sscratch,
        final(cpu).irqs_on == old(cpu).irqs_on,
        final(cpu).tlb_flushes == old(cpu).tlb_flushes,
        final(cpu).fpu == old(cpu).fpu,
{
    cpu.regs.ra = cpu.stack.pop().unwrap();
    cpu.regs.s11 = cpu.stack.pop().unwrap();
    cpu.regs.s10 = cpu.stack.pop().unwrap();
    cpu.regs.s9 = cpu.stack.pop().unwrap();
    cpu.regs.s8 = cpu.stack.pop().unwrap();
    cpu.regs.s7 = cpu.stack.pop().unwrap();
    cpu.regs.s6 = cpu.stack.pop().unwrap();
    cpu.regs.s5 = cpu.stack.pop().unwrap();
    cpu.regs.s4 = cpu.stack.pop().unwrap();
    cpu.regs.s3 = cpu.stack.pop().unwrap();
    cpu.regs.s2 = cpu.stack.pop().unwrap();
    cpu.regs.s1 = cpu.stack.pop().unwrap();
    cpu.regs.s0 = cpu.stack.pop().unwrap();
    cpu.pc = cpu.regs.ra;
    proof {
        assert(cpu.stack@ =~= old(cpu).stack@.subrange(
            0,
            old(cpu).stack@.len() - HOST_SPILL_WORDS,
        ));
    }
}

/// One complete world switch as the host run loop sees it: spill the host
/// state and enter the guest; the guest's run is external and is summarised
/// by the frame the hardware spills back and the exit code it delivers;
/// take the matching exit and decode why the guest left.
///
/// The host's callee-saved registers and stack come back exactly as they
/// were, whatever the guest did, and control stands at the host's return
/// address.
pub fn enter_guest(vcpu: &mut VCpu, cpu: &mut Cpu, spilled_frame: &TrapFrame, exit_code: u64) -> (k:
    Option<TrapClass>)
    requires
        old(cpu).stack@.len() + HOST_SPILL_WORDS <= usize::MAX,
    ensures
        k == vmexit_kind_spec(exit_code),
        final(vcpu).ctx == *spilled_frame,
        final(cpu).regs == old(cpu).regs,
        final(cpu).stack@ == old(cpu).stack@,
        final(cpu).pc == old(cpu).regs.ra,
        final(cpu).sstatus == old(cpu).sstatus,
        final(cpu).satp == old(cpu).satp,
        final(cpu).sscratch == old(cpu).sscratch,
        final(cpu).irqs_on == old(cpu).irqs_on,
        final(cpu).tlb_flushes == old(cpu).tlb_flushes,
        final(cpu).fpu == old(cpu).fpu,
        final(vcpu).host_stack_top == old(cpu).stack@.len() + HOST_SPILL_WORDS,
{
    run_guest_prepare(vcpu, cpu);
    // the hardware runs the guest and, at the VM exit, spills its register
    // file into the frame storage at the base of the boundary record
    vcpu.ctx = *spilled_frame;
    vmexit_trampoline(vcpu, cpu);
    proof {
        assert(cpu.stack@ =~= old(cpu).stack@);
        assert(cpu.regs =~= old(cpu).regs);
    }
    vmexit_kind(exit_code)
}

} // verus!
