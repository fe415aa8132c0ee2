use axcpu::cpu::Cpu;
use axcpu::cpu::FpuState;
use axcpu::FpStatus;
use axcpu::FpTag;
use axcpu::GeneralRegisters;
use axcpu::TaskContext;

fn cpu_with_pattern() -> Cpu {
    let mut cpu = Cpu::boot();
    cpu.regs.ra = 0x1111;
    cpu.regs.sp = 0x2222;
    cpu.regs.s0 = 0x30;
    cpu.regs.s1 = 0x31;
    cpu.regs.s2 = 0x32;
    cpu.regs.s3 = 0x33;
    cpu.regs.s4 = 0x34;
    cpu.regs.s5 = 0x35;
    cpu.regs.s6 = 0x36;
    cpu.regs.s7 = 0x37;
    cpu.regs.s8 = 0x38;
    cpu.regs.s9 = 0x39;
    cpu.regs.s10 = 0x3a;
    cpu.regs.s11 = 0x3b;
    cpu.regs.tp = 0x4444;
    cpu.regs.a0 = 0xaaaa;
    cpu
}

#[test]
fn new_context_is_zeroed_with_kernel_root() {
    let ctx = TaskContext::new(0x8000_1000);
    assert_eq!(ctx.ra, 0);
    assert_eq!(ctx.sp, 0);
    assert_eq!(ctx.tp, 0);
    assert_eq!(ctx.satp, 0x8000_1000);
    assert_eq!(ctx.fp_status.fs, FpTag::Initial);
    assert_eq!(ctx.fp_status.fp, [0u64; 32]);
}

#[test]
fn init_sets_entry_stack_and_tls() {
    let mut ctx = TaskContext::new(0);
    ctx.init(0xc000_0000, 0xffff_f000, 0x77);
    assert_eq!(ctx.ra, 0xc000_0000);
    assert_eq!(ctx.sp, 0xffff_f000);
    assert_eq!(ctx.tp, 0x77);
}

#[test]
fn page_table_root_can_be_changed() {
    let mut ctx = TaskContext::new(1);
    ctx.set_page_table_root(2);
    assert_eq!(ctx.satp, 2);
}

#[test]
fn switch_saves_current_and_loads_next() {
    let mut cpu = cpu_with_pattern();
    let mut a = TaskContext::new(0);
    let mut b = TaskContext::new(0);
    b.init(0x5000, 0x6000, 0x7000);
    b.s0 = 0xb0;
    b.s11 = 0xbb;

    a.switch_to(&b, &mut cpu);

    // A took the live register values
    assert_eq!(a.ra, 0x1111);
    assert_eq!(a.sp, 0x2222);
    assert_eq!(a.s0, 0x30);
    assert_eq!(a.s11, 0x3b);
    assert_eq!(a.tp, 0x4444);
    // the CPU now holds B, and control is at B's return address
    assert_eq!(cpu.regs.ra, 0x5000);
    assert_eq!(cpu.regs.sp, 0x6000);
    assert_eq!(cpu.regs.tp, 0x7000);
    assert_eq!(cpu.regs.s0, 0xb0);
    assert_eq!(cpu.regs.s11, 0xbb);
    assert_eq!(cpu.pc, 0x5000);
    // registers outside the exchanged set are untouched
    assert_eq!(cpu.regs.a0, 0xaaaa);
}

#[test]
fn switch_round_trip_restores_every_register() {
    let mut cpu = cpu_with_pattern();
    cpu.fpu = FpuState { regs: [7u64; 32], fcsr: 0x55, fs: FpTag::Dirty };
    let before_regs = cpu.regs;
    let before_fpu_bank = cpu.fpu.regs;

    let mut a = TaskContext::new(0);
    let mut b = TaskContext::new(0);
    b.init(0x5000, 0x6000, 0x7000);

    a.switch_to(&b, &mut cpu);

    // B runs: clobber everything B may clobber
    cpu.regs.ra = 1;
    cpu.regs.sp = 2;
    cpu.regs.s0 = 3;
    cpu.regs.s11 = 4;
    cpu.regs.tp = 5;
    cpu.fpu.regs = [9u64; 32];
    cpu.fpu.fcsr = 9;
    cpu.fpu.fs = FpTag::Dirty;

    // B switches back into A's saved snapshot
    b.switch_to(&a, &mut cpu);

    assert_eq!(cpu.regs.ra, before_regs.ra);
    assert_eq!(cpu.regs.sp, before_regs.sp);
    assert_eq!(cpu.regs.s0, before_regs.s0);
    assert_eq!(cpu.regs.s1, before_regs.s1);
    assert_eq!(cpu.regs.s2, before_regs.s2);
    assert_eq!(cpu.regs.s3, before_regs.s3);
    assert_eq!(cpu.regs.s4, before_regs.s4);
    assert_eq!(cpu.regs.s5, before_regs.s5);
    assert_eq!(cpu.regs.s6, before_regs.s6);
    assert_eq!(cpu.regs.s7, before_regs.s7);
    assert_eq!(cpu.regs.s8, before_regs.s8);
    assert_eq!(cpu.regs.s9, before_regs.s9);
    assert_eq!(cpu.regs.s10, before_regs.s10);
    assert_eq!(cpu.regs.s11, before_regs.s11);
    assert_eq!(cpu.regs.tp, before_regs.tp);
    // control resumes right after A's switch call
    assert_eq!(cpu.pc, before_regs.ra);
    // A's FP bank came back bit for bit
    assert_eq!(cpu.fpu.regs, before_fpu_bank);
    assert_eq!(cpu.fpu.fcsr, 0x55);
}

#[test]
fn switch_out_never_leaves_a_dirty_tag() {
    // dirty unit: the bank is spilled and demoted to clean
    let mut cpu = cpu_with_pattern();
    cpu.fpu = FpuState { regs: [3u64; 32], fcsr: 1, fs: FpTag::Dirty };
    let mut a = TaskContext::new(0);
    let b = TaskContext::new(0);
    a.switch_to(&b, &mut cpu);
    assert_eq!(a.fp_status.fs, FpTag::Clean);
    assert_eq!(a.fp_status.fp, [3u64; 32]);
    assert_eq!(a.fp_status.fcsr, 1);

    // clean unit: nothing is spilled, the stored tag stays non-dirty
    let mut cpu2 = cpu_with_pattern();
    cpu2.fpu.fs = FpTag::Clean;
    let mut c = TaskContext::new(0);
    c.fp_status = FpStatus { fp: [0u64; 32], fcsr: 0, fs: FpTag::Clean };
    c.switch_to(&b, &mut cpu2);
    assert_ne!(c.fp_status.fs, FpTag::Dirty);
}

#[test]
fn switch_restores_clean_bank_and_zeroes_initial_bank() {
    let mut cpu = cpu_with_pattern();
    cpu.fpu = FpuState { regs: [9u64; 32], fcsr: 9, fs: FpTag::Clean };
    let mut a = TaskContext::new(0);
    let mut b = TaskContext::new(0);
    b.fp_status = FpStatus { fp: [5u64; 32], fcsr: 2, fs: FpTag::Clean };

    a.switch_to(&b, &mut cpu);
    assert_eq!(cpu.fpu.regs, [5u64; 32]);
    assert_eq!(cpu.fpu.fcsr, 2);
    assert_eq!(cpu.fpu.fs, FpTag::Clean);

    // switching into a never-used bank zeroes the unit
    let c = TaskContext::new(0);
    b.switch_to(&c, &mut cpu);
    assert_eq!(cpu.fpu.regs, [0u64; 32]);
    assert_eq!(cpu.fpu.fcsr, 0);
    assert_eq!(cpu.fpu.fs, FpTag::Initial);
}

#[test]
fn equal_address_space_roots_skip_the_flush() {
    let mut cpu = cpu_with_pattern();
    cpu.satp = 0x111;
    let mut a = TaskContext::new(0x111);
    let b = TaskContext::new(0x111);
    let flushes_before = cpu.tlb_flushes;
    a.switch_to(&b, &mut cpu);
    assert_eq!(cpu.tlb_flushes, flushes_before);
    assert_eq!(cpu.satp, 0x111);
}

#[test]
fn different_address_space_roots_flush_once() {
    let mut cpu = cpu_with_pattern();
    cpu.satp = 0x111;
    let mut a = TaskContext::new(0x111);
    let b = TaskContext::new(0x222);
    let flushes_before = cpu.tlb_flushes;
    a.switch_to(&b, &mut cpu);
    assert_eq!(cpu.tlb_flushes, flushes_before + 1);
    assert_eq!(cpu.satp, 0x222);
}

#[test]
fn default_fp_status_is_never_used() {
    let fp = FpStatus::default();
    assert_eq!(fp.fs, FpTag::Initial);
    assert_eq!(fp.fp, [0u64; 32]);
    assert_eq!(fp.fcsr, 0);
}

#[test]
fn default_registers_are_zero() {
    let regs = GeneralRegisters::default();
    assert_eq!(regs.ra, 0);
    assert_eq!(regs.sp, 0);
    assert_eq!(regs.a7, 0);
    assert_eq!(regs.t6, 0);
}
