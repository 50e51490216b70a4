//! Leaf `0x0000_0007`, sub-leaf `0`, register `edx`: the structured extended features.

use vstd::prelude::*;
use crate::flags::is_single_bit;

verus! {

/// The leaf that reports this set.
pub const LEAF: u32 = 0x0000_0007;

/// The sub-leaf that reports this set.
pub const SUBLEAF: u32 = 0;

pub const SGX_KEYS: u32 = 1 << 1;

pub const AVX512_4VNNIW: u32 = 1 << 2;

pub const AVX512_4FMAPS: u32 = 1 << 3;

pub const FSRM: u32 = 1 << 4;

pub const UINTR: u32 = 1 << 5;

pub const AVX512_VP2INTERSECT: u32 = 1 << 8;

pub const SRBDS_CTRL: u32 = 1 << 9;

pub const MD_CLEAR: u32 = 1 << 10;

pub const RTM_ALWAYS_ABORT: u32 = 1 << 11;

pub const RTM_FORCE_ABORT: u32 = 1 << 13;

pub const SERIALIZE: u32 = 1 << 14;

pub const HYBRID: u32 = 1 << 15;

pub const TSXLDTRK: u32 = 1 << 16;

pub const PCONFIG: u32 = 1 << 18;

pub const LBR: u32 = 1 << 19;

pub const CET_IBT: u32 = 1 << 20;

pub const AMX_BF16: u32 = 1 << 22;

pub const AVX512_FP16: u32 = 1 << 23;

pub const AMX_TILE: u32 = 1 << 24;

pub const AMX_INT8: u32 = 1 << 25;

pub const IBRS_IBPB: u32 = 1 << 26;

pub const STIBP: u32 = 1 << 27;

pub const L1D_FLUSH: u32 = 1 << 28;

pub const ARCH_CAP: u32 = 1 << 29;

pub const CORE_CAP: u32 = 1 << 30;

pub const SSBD: u32 = 1 << 31;

/// Every flag of the set is a single bit, and the flags stand here in
/// strictly rising order, so no two of them name the same bit.
pub proof fn lemma_flags_distinct()
    by (bit_vector)
    ensures
        is_single_bit(SGX_KEYS),
        is_single_bit(AVX512_4VNNIW),
        is_single_bit(AVX512_4FMAPS),
        is_single_bit(FSRM),
        is_single_bit(UINTR),
        is_single_bit(AVX512_VP2INTERSECT),
        is_single_bit(SRBDS_CTRL),
        is_single_bit(MD_CLEAR),
        is_single_bit(RTM_ALWAYS_ABORT),
        is_single_bit(RTM_FORCE_ABORT),
        is_single_bit(SERIALIZE),
        is_single_bit(HYBRID),
        is_single_bit(TSXLDTRK),
        is_single_bit(PCONFIG),
        is_single_bit(LBR),
        is_single_bit(CET_IBT),
        is_single_bit(AMX_BF16),
        is_single_bit(AVX512_FP16),
        is_single_bit(AMX_TILE),
        is_single_bit(AMX_INT8),
        is_single_bit(IBRS_IBPB),
        is_single_bit(STIBP),
        is_single_bit(L1D_FLUSH),
        is_single_bit(ARCH_CAP),
        is_single_bit(CORE_CAP),
        is_single_bit(SSBD),
        SGX_KEYS < AVX512_4VNNIW < AVX512_4FMAPS < FSRM < UINTR < AVX512_VP2INTERSECT
            < SRBDS_CTRL < MD_CLEAR < RTM_ALWAYS_ABORT < RTM_FORCE_ABORT < SERIALIZE < HYBRID
            < TSXLDTRK < PCONFIG < LBR < CET_IBT < AMX_BF16 < AVX512_FP16 < AMX_TILE < AMX_INT8
            < IBRS_IBPB < STIBP < L1D_FLUSH < ARCH_CAP < CORE_CAP < SSBD,
{
}

} // verus!
