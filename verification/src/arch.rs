//! The build-target capability tag the kernel dispatch goes by.
//!
//! In a compiled artifact the choice between the x86-family kernel, the
//! ARM-family kernel and the portable scalar kernel is a compile-time fact of
//! the target, not a run-time probe. This crate models that fact as an
//! explicit value: a caller holds exactly one [`Arch`] per build and passes
//! it to the dispatching entry points, which resolve to exactly one kernel
//! per tag.

use vstd::prelude::*;

verus! {

/// Which vector unit the build target offers.
#[derive(Clone, Copy, Debug, PartialEq, Eq, Structural)]
pub enum Arch {
    /// An x86-family target with a 4-wide vector unit.
    X86Family,
    /// An ARM-family target with a 4-wide vector unit.
    ArmFamily,
    /// Any other target: no vector unit, only the scalar kernel.
    Other,
}

impl Arch {
    /// Whether the target offers an accelerated 4-wide path at all.
    pub open spec fn accelerated(self) -> bool {
        self != Arch::Other
    }
}

} // verus!
