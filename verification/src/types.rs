//! The platform identity.

use vstd::prelude::*;

verus! {

/// The confidential-computing technology that the guest runs under.
#[derive(Clone, Copy, Debug, PartialEq, Eq, Structural)]
pub enum CpuType {
    /// Intel TDX.
    Td,
    /// AMD SEV; also the answer whenever the evidence for TDX is incomplete.
    Sev,
}

} // verus!
