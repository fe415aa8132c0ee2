//! The lazily-valid floating-point bank: a saved FP register bank together
//! with a tri-state validity tag.

use vstd::prelude::*;

verus! {

/// Validity of a saved FP bank relative to the live FP unit.
///
/// `Initial` means the owning task has never used the FP unit (the bank is
/// all zeros); `Clean` means the saved copy matches the unit; `Dirty` means
/// the unit holds newer values than the saved copy. A *stored* context never
/// carries `Dirty`: the switch engine always demotes the outgoing bank to
/// `Clean` before the incoming bank is inspected.
#[derive(Clone, Copy, Debug, PartialEq, Eq, Structural)]
pub enum FpTag {
    /// Never used: restore by zeroing the unit.
    Initial,
    /// Saved and matches the unit: restore by reloading the bank.
    Clean,
    /// The unit is newer than the saved copy. Only ever the state of the
    /// *live* FP unit, never of a stored bank.
    Dirty,
}

/// A saved floating-point bank: the register bank image, the FP control and
/// status word, and the validity tag.
#[derive(Clone, Copy, Debug)]
pub struct FpStatus {
    /// The saved FP register bank.
    pub fp: [u64; 32],
    /// The saved FP control/status word.
    pub fcsr: usize,
    /// Validity of the saved bank.
    pub fs: FpTag,
}

/// True when every slot of an FP bank image is zero.
pub open spec fn bank_is_zero(b: [u64; 32]) -> bool {
    forall|i: int| 0 <= i < 32 ==> b[i] == 0
}

/// The all-zero FP bank image: what zeroing the FP unit leaves behind.
pub open spec fn spec_zero_bank() -> [u64; 32] {
    vstd::array::spec_array_fill_for_copy_type::<u64, 32>(0u64)
}

impl FpStatus {
    /// The invariant of every stored FP bank: it is never tagged `Dirty`,
    /// and a bank that was never used is all zeros.
    pub open spec fn inv(self) -> bool {
        &&& self.fs != FpTag::Dirty
        &&& self.fs == FpTag::Initial ==> bank_is_zero(self.fp) && self.fcsr == 0
    }

    /// A bank that has never been used: all zeros, tagged `Initial`.
    pub fn initial() -> (r: FpStatus)
        ensures
            r == (FpStatus { fp: spec_zero_bank(), fcsr: 0, fs: FpTag::Initial }),
            bank_is_zero(r.fp),
            r.inv(),
    {
        FpStatus { fp: [0; 32], fcsr: 0, fs: FpTag::Initial }
    }
}

impl Default for FpStatus {
    /// The default bank has never been used.
    fn default() -> (r: FpStatus)
        ensures
            r == (FpStatus { fp: spec_zero_bank(), fcsr: 0, fs: FpTag::Initial }),
            bank_is_zero(r.fp),
            r.inv(),
    {
        FpStatus::initial()
    }
}

} // verus!
