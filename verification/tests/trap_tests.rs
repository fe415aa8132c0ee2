use axcpu::trap::classify_trap;
use axcpu::trap::current_mode;
use axcpu::trap::dispatch_trap;
use axcpu::trap::handle_data_abort_exception;
use axcpu::trap::handle_irq_exception;
use axcpu::trap::handle_prefetch_abort_exception;
use axcpu::trap::handle_sync_exception;
use axcpu::trap::invalid_exception;
use axcpu::trap::is_privileged;
use axcpu::trap::resolve_page_fault;
use axcpu::trap::trap_kind_of;
use axcpu::trap::PageFaultFlags;
use axcpu::trap::TrapClass;
use axcpu::trap::TrapDisposition;
use axcpu::trap::TrapHwInfo;
use axcpu::trap::TrapKind;
use axcpu::trap::PF_EXECUTE;
use axcpu::trap::PF_READ;
use axcpu::trap::PF_USER;
use axcpu::trap::PF_WRITE;
use axcpu::TrapFrame;

fn user_frame() -> TrapFrame {
    let mut tf = TrapFrame::zeroed();
    tf.sstatus = 0x10; // user mode bits
    tf.sepc = 0x8000;
    tf
}

fn kernel_frame() -> TrapFrame {
    let mut tf = TrapFrame::zeroed();
    tf.sstatus = 0x13; // supervisor mode bits
    tf.sepc = 0x9000;
    tf
}

fn hw_info() -> TrapHwInfo {
    TrapHwInfo { insn_at_pc: 0, dfsr: 0, dfar: 0, ifsr: 0, ifar: 0 }
}

#[test]
fn trap_kinds_cover_every_vector() {
    assert_eq!(trap_kind_of(0), TrapKind::Reset);
    assert_eq!(trap_kind_of(1), TrapKind::Undefined);
    assert_eq!(trap_kind_of(2), TrapKind::Svc);
    assert_eq!(trap_kind_of(3), TrapKind::PrefetchAbort);
    assert_eq!(trap_kind_of(4), TrapKind::DataAbort);
    assert_eq!(trap_kind_of(5), TrapKind::Reserved);
    assert_eq!(trap_kind_of(6), TrapKind::Irq);
    assert_eq!(trap_kind_of(7), TrapKind::Fiq);
    assert_eq!(trap_kind_of(8), TrapKind::Reserved);
    assert_eq!(trap_kind_of(u32::MAX), TrapKind::Reserved);
}

#[test]
fn classification_selects_one_abstract_kind_per_cause() {
    assert_eq!(classify_trap(0), TrapClass::Reserved);
    assert_eq!(classify_trap(1), TrapClass::Synchronous);
    assert_eq!(classify_trap(2), TrapClass::Synchronous);
    assert_eq!(classify_trap(3), TrapClass::Synchronous);
    assert_eq!(classify_trap(4), TrapClass::Synchronous);
    assert_eq!(classify_trap(5), TrapClass::Reserved);
    assert_eq!(classify_trap(6), TrapClass::Irq);
    assert_eq!(classify_trap(7), TrapClass::Fiq);
    assert_eq!(classify_trap(9), TrapClass::Reserved);
    assert_eq!(classify_trap(u32::MAX), TrapClass::Reserved);
}

#[test]
fn page_fault_flag_derivation() {
    // synthetic fault status: write (bit 11), second-level (page)
    // translation fault (0b0111), taken from user mode
    let tf = user_frame();
    let dfsr = (1 << 11) | 0b0111;
    let d = handle_data_abort_exception(&tf, dfsr, 0xdead_0000);
    match d {
        TrapDisposition::PageFault { vaddr, flags, is_user } => {
            assert_eq!(vaddr, 0xdead_0000);
            assert_eq!(flags.bits, PF_WRITE | PF_USER);
            assert!(is_user);
        }
        other => panic!("expected a page fault, got {:?}", other),
    }
}

#[test]
fn data_abort_read_from_kernel_mode() {
    // no write bit, permission fault (section), supervisor mode
    let tf = kernel_frame();
    let d = handle_data_abort_exception(&tf, 0b1101, 0x1000);
    assert_eq!(
        d,
        TrapDisposition::PageFault {
            vaddr: 0x1000,
            flags: PageFaultFlags { bits: PF_READ },
            is_user: false,
        }
    );
}

#[test]
fn data_abort_unrecognised_status_is_fatal() {
    let tf = kernel_frame();
    // 0b0001: alignment fault, not a page fault this core can delegate
    let d = handle_data_abort_exception(&tf, 0b0001, 0x1000);
    match d {
        TrapDisposition::Fatal { dump } => {
            assert_eq!(dump.kind, TrapKind::DataAbort);
            assert_eq!(dump.frame, tf);
        }
        other => panic!("expected fatal, got {:?}", other),
    }
}

#[test]
fn prefetch_abort_user_translation_fault() {
    let tf = user_frame();
    let d = handle_prefetch_abort_exception(&tf, 0b0101, 0x4000);
    assert_eq!(
        d,
        TrapDisposition::PageFault {
            vaddr: 0x4000,
            flags: PageFaultFlags { bits: PF_EXECUTE | PF_USER },
            is_user: true,
        }
    );
}

#[test]
fn prefetch_abort_unrecognised_status_is_fatal() {
    let tf = user_frame();
    let d = handle_prefetch_abort_exception(&tf, 0b0010, 0x4000);
    match d {
        TrapDisposition::Fatal { dump } => assert_eq!(dump.kind, TrapKind::PrefetchAbort),
        other => panic!("expected fatal, got {:?}", other),
    }
}

#[test]
fn syscall_number_is_the_instruction_immediate() {
    let tf = user_frame();
    // software-interrupt instruction encoding: 0xEF000000 | imm24
    let d = handle_sync_exception(&tf, 0xEF00_002A);
    assert_eq!(d, TrapDisposition::Syscall { num: 0x2A });
}

#[test]
fn dispatch_covers_every_vector() {
    let tf = user_frame();
    let mut hw = hw_info();
    hw.insn_at_pc = 0xEF00_0001;
    hw.ifsr = 0b0111;
    hw.ifar = 0x111;
    hw.dfsr = (1 << 11) | 0b0101;
    hw.dfar = 0x222;

    match dispatch_trap(&tf, 0, &hw) {
        TrapDisposition::Fatal { dump } => assert_eq!(dump.kind, TrapKind::Reset),
        other => panic!("expected fatal, got {:?}", other),
    }
    match dispatch_trap(&tf, 1, &hw) {
        TrapDisposition::Fatal { dump } => assert_eq!(dump.kind, TrapKind::Undefined),
        other => panic!("expected fatal, got {:?}", other),
    }
    assert_eq!(dispatch_trap(&tf, 2, &hw), TrapDisposition::Syscall { num: 1 });
    assert_eq!(
        dispatch_trap(&tf, 3, &hw),
        TrapDisposition::PageFault {
            vaddr: 0x111,
            flags: PageFaultFlags { bits: PF_EXECUTE | PF_USER },
            is_user: true,
        }
    );
    assert_eq!(
        dispatch_trap(&tf, 4, &hw),
        TrapDisposition::PageFault {
            vaddr: 0x222,
            flags: PageFaultFlags { bits: PF_WRITE | PF_USER },
            is_user: true,
        }
    );
    match dispatch_trap(&tf, 5, &hw) {
        TrapDisposition::Fatal { dump } => assert_eq!(dump.kind, TrapKind::Reserved),
        other => panic!("expected fatal, got {:?}", other),
    }
    assert_eq!(dispatch_trap(&tf, 6, &hw), TrapDisposition::Irq);
    assert_eq!(dispatch_trap(&tf, 7, &hw), TrapDisposition::Fiq);
    match dispatch_trap(&tf, 42, &hw) {
        TrapDisposition::Fatal { dump } => assert_eq!(dump.kind, TrapKind::Reserved),
        other => panic!("expected fatal, got {:?}", other),
    }
}

#[test]
fn irq_exception_forwards_undecoded() {
    let tf = kernel_frame();
    assert_eq!(handle_irq_exception(&tf), TrapDisposition::Irq);
}

#[test]
fn invalid_exception_classifies_and_dumps() {
    let tf = kernel_frame();
    let dump = invalid_exception(&tf, 5);
    assert_eq!(dump.kind, TrapKind::Reserved);
    assert_eq!(dump.frame, tf);
}

#[test]
fn unhandled_page_fault_escalates() {
    let tf = user_frame();
    assert!(resolve_page_fault(&tf, 4, true).is_none());
    let dump = resolve_page_fault(&tf, 4, false).unwrap();
    assert_eq!(dump.kind, TrapKind::DataAbort);
    assert_eq!(dump.frame, tf);
}

#[test]
fn mode_bits_are_the_low_five() {
    assert_eq!(current_mode(0x600001D3), 0x13);
    assert_eq!(current_mode(0x10), 0x10);
}

#[test]
fn privilege_check_reads_the_mode_bits() {
    assert!(!is_privileged(0x10)); // user
    assert!(is_privileged(0x13)); // supervisor
    assert!(is_privileged(0x1F)); // system
    assert!(!is_privileged(0x600001D0 | 0x10)); // user, with flag bits set
}

#[test]
fn page_fault_flag_sets() {
    let empty = PageFaultFlags::empty();
    assert_eq!(empty.bits, 0);
    let rw = PageFaultFlags::from_bits(PF_READ).union(PageFaultFlags::from_bits(PF_WRITE));
    assert_eq!(rw.bits, PF_READ | PF_WRITE);
    assert!(rw.contains(PageFaultFlags::from_bits(PF_READ)));
    assert!(!rw.contains(PageFaultFlags::from_bits(PF_USER)));
}
