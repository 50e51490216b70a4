//! Leaf `0x0000_0007`, sub-leaf `0`, register `ecx`: the structured extended features.

use vstd::prelude::*;
use crate::flags::is_single_bit;

verus! {

/// The leaf that reports this set.
pub const LEAF: u32 = 0x0000_0007;

/// The sub-leaf that reports this set.
pub const SUBLEAF: u32 = 0;

pub const PREFETCHWT1: u32 = 1 << 0;

pub const AVX512_VBMI: u32 = 1 << 1;

pub const UMIP: u32 = 1 << 2;

pub const PKU: u32 = 1 << 3;

pub const OSPKE: u32 = 1 << 4;

pub const WAITPKG: u32 = 1 << 5;

pub const AVX512_VBMI2: u32 = 1 << 6;

pub const CET_SS: u32 = 1 << 7;

pub const GFNI: u32 = 1 << 8;

pub const VAES: u32 = 1 << 9;

pub const VPCLMULQDQ: u32 = 1 << 10;

pub const AVX512_VNNI: u32 = 1 << 11;

pub const AVX512_BITALG: u32 = 1 << 12;

pub const TME_EN: u32 = 1 << 13;

pub const AVX512_VPOPCNTDQ: u32 = 1 << 14;

pub const LA57: u32 = 1 << 16;

pub const RDPID_TSCAUX: u32 = 1 << 22;

pub const KL: u32 = 1 << 23;

pub const BUS_LOCK_DETECT: u32 = 1 << 24;

pub const CLDEMOTE: u32 = 1 << 25;

pub const MOVDIRI: u32 = 1 << 27;

pub const MOVDIRI64B: u32 = 1 << 28;

pub const ENQCMD: u32 = 1 << 29;

pub const SGX_LC: u32 = 1 << 30;

pub const PKS: u32 = 1 << 31;

/// Every flag of the set is a single bit, and the flags stand here in
/// strictly rising order, so no two of them name the same bit.
pub proof fn lemma_flags_distinct()
    by (bit_vector)
    ensures
        is_single_bit(PREFETCHWT1),
        is_single_bit(AVX512_VBMI),
        is_single_bit(UMIP),
        is_single_bit(PKU),
        is_single_bit(OSPKE),
        is_single_bit(WAITPKG),
        is_single_bit(AVX512_VBMI2),
        is_single_bit(CET_SS),
        is_single_bit(GFNI),
        is_single_bit(VAES),
        is_single_bit(VPCLMULQDQ),
        is_single_bit(AVX512_VNNI),
        is_single_bit(AVX512_BITALG),
        is_single_bit(TME_EN),
        is_single_bit(AVX512_VPOPCNTDQ),
        is_single_bit(LA57),
        is_single_bit(RDPID_TSCAUX),
        is_single_bit(KL),
        is_single_bit(BUS_LOCK_DETECT),
        is_single_bit(CLDEMOTE),
        is_single_bit(MOVDIRI),
        is_single_bit(MOVDIRI64B),
        is_single_bit(ENQCMD),
        is_single_bit(SGX_LC),
        is_single_bit(PKS),
        PREFETCHWT1 < AVX512_VBMI < UMIP < PKU < OSPKE < WAITPKG < AVX512_VBMI2 < CET_SS
            < GFNI < VAES < VPCLMULQDQ < AVX512_VNNI < AVX512_BITALG < TME_EN < AVX512_VPOPCNTDQ
            < LA57 < RDPID_TSCAUX < KL < BUS_LOCK_DETECT < CLDEMOTE < MOVDIRI < MOVDIRI64B
            < ENQCMD < SGX_LC < PKS,
{
}

} // verus!
