//! Execution-context and privilege-transfer core.
//!
//! This library models and verifies the four register-transfer protocols at
//! the heart of a kernel's CPU support layer:
//!
//! - the voluntary task switch, which exchanges two callee-saved register
//!   snapshots ([`context::TaskContext`]) through the live CPU state;
//! - trap classification and dispatch, which maps a hardware cause code and a
//!   freshly captured [`regs::TrapFrame`] to exactly one disposition;
//! - the first entry into user mode, built as a synthetic trap frame
//!   ([`uspace::UspaceContext`]) consumed by the ordinary trap-return path;
//! - the host/guest world switch of a hypervisor run loop ([`vcpu::VCpu`]).
//!
//! The live per-core machine state (register file, translation root, FP unit,
//! host stack) is modelled explicitly by [`cpu::Cpu`], so that every effect of
//! a transfer is stated in a contract and proved. The single-instruction
//! hardware primitives that realise these effects on a real core (register
//! spills, translation-cache invalidation, privilege-level changes) are the
//! unverified embedding's concern and stay outside this crate.

pub mod context;
pub mod cpu;
pub mod fp;
pub mod regs;
pub mod trap;
pub mod uspace;
pub mod vcpu;

pub use context::TaskContext;
pub use cpu::Cpu;
pub use fp::FpStatus;
pub use fp::FpTag;
pub use regs::GeneralRegisters;
pub use regs::TrapFrame;
pub use trap::FatalDump;
pub use trap::PageFaultFlags;
pub use trap::TrapClass;
pub use trap::TrapDisposition;
pub use trap::TrapHwInfo;
pub use trap::TrapKind;
pub use trap::is_privileged;
pub use uspace::UspaceContext;
pub use vcpu::VCpu;
