//! Trap classification and dispatch.
//!
//! One classification happens per trap delivery and is stateless across
//! deliveries. The hardware-adjacent entry code captures the cause code, the
//! trap frame and the fault registers; the dispatcher here maps them to
//! exactly one [`TrapDisposition`], which tells the surrounding system which
//! externally supplied handler to run. Unrecoverable traps yield a
//! [`FatalDump`]; the decision never retries and never loses a cause code.

use vstd::prelude::*;

use crate::regs::TrapFrame;

verus! {

/// Mask of the processor-mode bits inside a status word.
pub const MODE_MASK: u32 = 0x1F;

/// The mode-bit pattern of user mode.
pub const MODE_USER: u32 = 0x10;

/// Flag bit: the faulting access was a read.
pub const PF_READ: u32 = 1;

/// Flag bit: the faulting access was a write.
pub const PF_WRITE: u32 = 1 << 1;

/// Flag bit: the faulting access was an instruction fetch.
pub const PF_EXECUTE: u32 = 1 << 2;

/// Flag bit: the fault was taken from user mode.
pub const PF_USER: u32 = 1 << 3;

/// Hardware exception vectors, in vector-table order.
#[derive(Clone, Copy, Debug, PartialEq, Eq, Structural)]
pub enum TrapKind {
    /// Reset exception.
    Reset,
    /// Undefined instruction exception.
    Undefined,
    /// Software interrupt (system call) exception.
    Svc,
    /// Prefetch abort exception.
    PrefetchAbort,
    /// Data abort exception.
    DataAbort,
    /// Reserved vector (should never occur).
    Reserved,
    /// IRQ interrupt.
    Irq,
    /// FIQ interrupt.
    Fiq,
}

/// The five abstract kinds every trap cause is classified into.
#[derive(Clone, Copy, Debug, PartialEq, Eq, Structural)]
pub enum TrapClass {
    /// A synchronous exception: system call, page fault, or undefined
    /// behaviour of the trapped instruction.
    Synchronous,
    /// An ordinary interrupt request.
    Irq,
    /// A fast interrupt request.
    Fiq,
    /// A system error / asynchronous abort.
    SError,
    /// A reserved or invalid cause.
    Reserved,
}

/// The access-flag set derived for a page fault.
#[derive(Clone, Copy, Debug, PartialEq, Eq, Structural)]
pub struct PageFaultFlags {
    /// The flag bits, a union of `PF_READ`, `PF_WRITE`, `PF_EXECUTE` and
    /// `PF_USER`.
    pub bits: u32,
}

impl PageFaultFlags {
    /// The empty flag set.
    pub fn empty() -> (r: PageFaultFlags)
        ensures
            r.bits == 0,
    {
        PageFaultFlags { bits: 0 }
    }

    /// The flag set with exactly the given bits.
    pub fn from_bits(bits: u32) -> (r: PageFaultFlags)
        ensures
            r.bits == bits,
    {
        PageFaultFlags { bits }
    }

    /// The union of two flag sets.
    pub fn union(self, other: PageFaultFlags) -> (r: PageFaultFlags)
        ensures
            r.bits == self.bits | other.bits,
    {
        PageFaultFlags { bits: self.bits | other.bits }
    }

    /// Whether every flag of `other` is also set in `self`.
    pub fn contains(self, other: PageFaultFlags) -> (r: bool)
        ensures
            r == (self.bits & other.bits == other.bits),
    {
        self.bits & other.bits == other.bits
    }
}

/// A structured dump of an unrecoverable trap: the classified vector and the
/// full frame. Producing it is the final decision of this core; the
/// surrounding system halts the core with it, and nothing here is retried.
#[derive(Clone, Copy, Debug, PartialEq, Eq, Structural)]
pub struct FatalDump {
    /// The classified trap vector.
    pub kind: TrapKind,
    /// The full register frame at the trap.
    pub frame: TrapFrame,
}

/// The hardware fault registers and the faulting instruction word, captured
/// by the entry code at trap delivery and consumed read-only here.
#[derive(Clone, Copy, Debug, PartialEq, Eq, Structural)]
pub struct TrapHwInfo {
    /// The instruction word at the frame's program counter (used to decode
    /// the system-call number out of a software-interrupt instruction).
    pub insn_at_pc: u32,
    /// Data fault status register.
    pub dfsr: u32,
    /// Data fault address register.
    pub dfar: usize,
    /// Instruction fault status register.
    pub ifsr: u32,
    /// Instruction fault address register.
    pub ifar: usize,
}

/// What the dispatcher decided: which externally supplied handler runs, with
/// which arguments, or that the trap is fatal.
#[derive(Clone, Copy, Debug, PartialEq, Eq, Structural)]
pub enum TrapDisposition {
    /// Forward to the external interrupt handler, with no further decoding.
    Irq,
    /// Forward to the external interrupt handler, fast-interrupt path.
    Fiq,
    /// Forward frame and number to the external system-call handler.
    Syscall {
        /// The decoded system-call number.
        num: usize,
    },
    /// Forward to the external page-fault handler.
    PageFault {
        /// The faulting virtual address.
        vaddr: usize,
        /// The derived access flags.
        flags: PageFaultFlags,
        /// Whether the fault was taken from user mode.
        is_user: bool,
    },
    /// Unrecoverable: halt with a structured dump.
    Fatal {
        /// The dump to halt with.
        dump: FatalDump,
    },
}

/// Maps a raw vector number to its trap kind; undefined numbers fall to
/// `Reserved`.
pub open spec fn trap_kind_spec(vector: u32) -> TrapKind {
    if vector == 0 {
        TrapKind::Reset
    } else if vector == 1 {
        TrapKind::Undefined
    } else if vector == 2 {
        TrapKind::Svc
    } else if vector == 3 {
        TrapKind::PrefetchAbort
    } else if vector == 4 {
        TrapKind::DataAbort
    } else if vector == 5 {
        TrapKind::Reserved
    } else if vector == 6 {
        TrapKind::Irq
    } else if vector == 7 {
        TrapKind::Fiq
    } else {
        TrapKind::Reserved
    }
}

/// The abstract kind of each trap vector.
pub open spec fn class_of_kind(kind: TrapKind) -> TrapClass {
    match kind {
        TrapKind::Reset => TrapClass::Reserved,
        TrapKind::Undefined => TrapClass::Synchronous,
        TrapKind::Svc => TrapClass::Synchronous,
        TrapKind::PrefetchAbort => TrapClass::Synchronous,
        TrapKind::DataAbort => TrapClass::Synchronous,
        TrapKind::Reserved => TrapClass::Reserved,
        TrapKind::Irq => TrapClass::Irq,
        TrapKind::Fiq => TrapClass::Fiq,
    }
}

/// Classification of a raw cause code into one of the five abstract kinds.
pub open spec fn classify_spec(vector: u32) -> TrapClass {
    class_of_kind(trap_kind_spec(vector))
}

/// Whether a status word's mode bits select user mode.
pub open spec fn is_user_mode(sstatus: usize) -> bool {
    sstatus & (MODE_MASK as usize) == (MODE_USER as usize)
}

/// Whether a fault status value is one this core can hand to the page-fault
/// handler: a translation or permission fault, at section or page
/// granularity.
pub open spec fn is_page_fault_status(fsr: u32) -> bool {
    ||| fsr & 0xF == 5
    ||| fsr & 0xF == 7
    ||| fsr & 0xF == 13
    ||| fsr & 0xF == 15
}

/// Maps a raw vector number to its trap kind.
pub fn trap_kind_of(vector: u32) -> (k: TrapKind)
    ensures
        k == trap_kind_spec(vector),
{
    match vector {
        0 => TrapKind::Reset,
        1 => TrapKind::Undefined,
        2 => TrapKind::Svc,
        3 => TrapKind::PrefetchAbort,
        4 => TrapKind::DataAbort,
        5 => TrapKind::Reserved,
        6 => TrapKind::Irq,
        7 => TrapKind::Fiq,
        _ => TrapKind::Reserved,
    }
}

/// Classifies a raw cause code into one of the five abstract kinds.
pub fn classify_trap(vector: u32) -> (c: TrapClass)
    ensures
        c == classify_spec(vector),
{
    let kind = trap_kind_of(vector);
    match kind {
        TrapKind::Reset => TrapClass::Reserved,
        TrapKind::Undefined => TrapClass::Synchronous,
        TrapKind::Svc => TrapClass::Synchronous,
        TrapKind::PrefetchAbort => TrapClass::Synchronous,
        TrapKind::DataAbort => TrapClass::Synchronous,
        TrapKind::Reserved => TrapClass::Reserved,
        TrapKind::Irq => TrapClass::Irq,
        TrapKind::Fiq => TrapClass::Fiq,
    }
}

/// Classification is total: every cause code is mapped to an abstract kind,
/// and to exactly one, the variants of [`TrapClass`] being mutually
/// exclusive by construction.
pub proof fn lemma_trap_classification_total()
    ensures
        forall|vector: u32|
            {
                let c = #[trigger] classify_spec(vector);
                c == TrapClass::Synchronous || c == TrapClass::Irq || c == TrapClass::Fiq
                    || c == TrapClass::SError || c == TrapClass::Reserved
            },
{
}

/// Extracts the processor-mode bits from a status word.
pub fn current_mode(cpsr: u32) -> (r: u32)
    ensures
        r == cpsr & MODE_MASK,
{
    cpsr & MODE_MASK
}

/// Checks whether a status word was captured in a privileged (non-user)
/// mode.
pub fn is_privileged(cpsr: u32) -> (r: bool)
    ensures
        r == (cpsr & MODE_MASK != MODE_USER),
{
    let mode = current_mode(cpsr);
    mode != MODE_USER
}

/// Handler decision for a vector with no recovery path: classify it and
/// dump the frame.
pub fn invalid_exception(tf: &TrapFrame, vector: u32) -> (dump: FatalDump)
    ensures
        dump.kind == trap_kind_spec(vector),
        dump.frame == *tf,
{
    FatalDump { kind: trap_kind_of(vector), frame: *tf }
}

/// Handler decision for an IRQ: forward with no further decoding.
pub fn handle_irq_exception(_tf: &TrapFrame) -> (d: TrapDisposition)
    ensures
        d == TrapDisposition::Irq,
{
    TrapDisposition::Irq
}

/// The decision for a software interrupt: the system-call number is the
/// immediate of the trapping instruction word.
pub open spec fn sync_spec(insn_at_pc: u32) -> TrapDisposition {
    TrapDisposition::Syscall { num: (insn_at_pc & 0xFFFFFF) as usize }
}

/// Handler decision for a software interrupt (system call): the call number
/// is decoded from the low 24 bits of the instruction word at the frame's
/// program counter, and frame and number go to the external system-call
/// handler.
pub fn handle_sync_exception(_tf: &TrapFrame, insn_at_pc: u32) -> (d: TrapDisposition)
    ensures
        d == sync_spec(insn_at_pc),
{
    let num = (insn_at_pc & 0xFFFFFF) as usize;
    TrapDisposition::Syscall { num }
}

/// The decision for a prefetch abort: an execute fault at the instruction
/// fault address, handleable only for translation and permission faults.
pub open spec fn prefetch_abort_spec(tf: TrapFrame, ifsr: u32, ifar: usize) -> TrapDisposition {
    let is_user = is_user_mode(tf.sstatus);
    let bits = if is_user {
        PF_EXECUTE | PF_USER
    } else {
        PF_EXECUTE
    };
    if is_page_fault_status(ifsr) {
        TrapDisposition::PageFault { vaddr: ifar, flags: PageFaultFlags { bits }, is_user }
    } else {
        TrapDisposition::Fatal {
            dump: FatalDump { kind: TrapKind::PrefetchAbort, frame: tf },
        }
    }
}

/// Handler decision for a prefetch abort exception.
pub fn handle_prefetch_abort_exception(tf: &TrapFrame, ifsr: u32, ifar: usize) -> (d:
    TrapDisposition)
    ensures
        d == prefetch_abort_spec(*tf, ifsr, ifar),
{
    let is_user = tf.sstatus & (MODE_MASK as usize) == (MODE_USER as usize);
    let bits = if is_user {
        PF_EXECUTE | PF_USER
    } else {
        PF_EXECUTE
    };
    let fs = ifsr & 0xF;
    if fs == 5 || fs == 7 || fs == 13 || fs == 15 {
        TrapDisposition::PageFault { vaddr: ifar, flags: PageFaultFlags { bits }, is_user }
    } else {
        TrapDisposition::Fatal {
            dump: FatalDump { kind: TrapKind::PrefetchAbort, frame: *tf },
        }
    }
}

/// The decision for a data abort: a read or write fault (by the status
/// register's write-not-read bit) at the data fault address, handleable only
/// for translation and permission faults.
pub open spec fn data_abort_spec(tf: TrapFrame, dfsr: u32, dfar: usize) -> TrapDisposition {
    let is_user = is_user_mode(tf.sstatus);
    let base = if dfsr & (1u32 << 11) != 0 {
        PF_WRITE
    } else {
        PF_READ
    };
    let bits = if is_user {
        base | PF_USER
    } else {
        base
    };
    if is_page_fault_status(dfsr) {
        TrapDisposition::PageFault { vaddr: dfar, flags: PageFaultFlags { bits }, is_user }
    } else {
        TrapDisposition::Fatal {
            dump: FatalDump { kind: TrapKind::DataAbort, frame: tf },
        }
    }
}

/// Handler decision for a data abort exception.
pub fn handle_data_abort_exception(tf: &TrapFrame, dfsr: u32, dfar: usize) -> (d: TrapDisposition)
    ensures
        d == data_abort_spec(*tf, dfsr, dfar),
{
    let is_user = tf.sstatus & (MODE_MASK as usize) == (MODE_USER as usize);
    let base = if dfsr & (1u32 << 11) != 0 {
        PF_WRITE
    } else {
        PF_READ
    };
    let bits = if is_user {
        base | PF_USER
    } else {
        base
    };
    let fs = dfsr & 0xF;
    if fs == 5 || fs == 7 || fs == 13 || fs == 15 {
        TrapDisposition::PageFault { vaddr: dfar, flags: PageFaultFlags { bits }, is_user }
    } else {
        TrapDisposition::Fatal {
            dump: FatalDump { kind: TrapKind::DataAbort, frame: *tf },
        }
    }
}

/// The one decision per trap delivery: which handler the disposition names
/// for each cause code.
pub open spec fn dispatch_spec(tf: TrapFrame, vector: u32, hw: TrapHwInfo) -> TrapDisposition {
    if vector == 2 {
        sync_spec(hw.insn_at_pc)
    } else if vector == 3 {
        prefetch_abort_spec(tf, hw.ifsr, hw.ifar)
    } else if vector == 4 {
        data_abort_spec(tf, hw.dfsr, hw.dfar)
    } else if vector == 6 {
        TrapDisposition::Irq
    } else if vector == 7 {
        TrapDisposition::Fiq
    } else {
        TrapDisposition::Fatal {
            dump: FatalDump { kind: trap_kind_spec(vector), frame: tf },
        }
    }
}

/// Classifies one delivered trap and decides its disposition.
///
/// Software interrupts become system calls; prefetch and data aborts with a
/// recognised fault status become page faults with derived access flags;
/// interrupt vectors are forwarded; everything else is fatal with a
/// structured dump.
pub fn dispatch_trap(tf: &TrapFrame, vector: u32, hw: &TrapHwInfo) -> (d: TrapDisposition)
    ensures
        d == dispatch_spec(*tf, vector, *hw),
{
    if vector == 2 {
        handle_sync_exception(tf, hw.insn_at_pc)
    } else if vector == 3 {
        handle_prefetch_abort_exception(tf, hw.ifsr, hw.ifar)
    } else if vector == 4 {
        handle_data_abort_exception(tf, hw.dfsr, hw.dfar)
    } else if vector == 6 {
        TrapDisposition::Irq
    } else if vector == 7 {
        TrapDisposition::Fiq
    } else {
        TrapDisposition::Fatal { dump: invalid_exception(tf, vector) }
    }
}

/// The dispatcher refines the abstract classification: interrupt causes
/// are forwarded undecoded, synchronous causes decode further into a
/// system call, a page fault or a fatal dump, and reserved causes are
/// always fatal.
pub proof fn lemma_dispatch_refines_classification(tf: TrapFrame, vector: u32, hw: TrapHwInfo)
    ensures
        classify_spec(vector) == TrapClass::Irq ==> dispatch_spec(tf, vector, hw)
            == TrapDisposition::Irq,
        classify_spec(vector) == TrapClass::Fiq ==> dispatch_spec(tf, vector, hw)
            == TrapDisposition::Fiq,
        classify_spec(vector) == TrapClass::Reserved ==> dispatch_spec(tf, vector, hw) is Fatal,
        classify_spec(vector) == TrapClass::Synchronous ==> dispatch_spec(tf, vector, hw)
            is Syscall || dispatch_spec(tf, vector, hw) is PageFault || dispatch_spec(
            tf,
            vector,
            hw,
        ) is Fatal,
{
}

/// Takes the externally supplied page-fault handler's answer: a handled
/// fault resumes the trapped context, an unhandled one escalates to a fatal
/// dump of the faulting vector and frame.
pub fn resolve_page_fault(tf: &TrapFrame, vector: u32, handled: bool) -> (r: Option<FatalDump>)
    ensures
        handled ==> r is None,
        !handled ==> r == Some(FatalDump { kind: trap_kind_spec(vector), frame: *tf }),
{
    if handled {
        None
    } else {
        Some(invalid_exception(tf, vector))
    }
}

} // verus!

