//! The catalogue of named capability flags.
//!
//! Each sub-module is one flag set: the flags that one register of one
//! identification leaf reports. A flag is a constant with exactly one bit
//! set, the bit at which the processor reports the capability. The functions
//! here turn a flag into a bit position and from there into an index in the
//! flat feature space by which the feature cache is addressed.

use vstd::prelude::*;
use vstd::std_specs::bits::axiom_u32_trailing_zeros;
use vstd::std_specs::bits::u32_trailing_zeros;

pub mod cpuid01_ecx;
pub mod cpuid01_edx;
pub mod cpuid06_eax;
pub mod cpuid06_ecx;
pub mod cpuid07_0_ebx;
pub mod cpuid07_0_ecx;
pub mod cpuid07_0_edx;
pub mod cpuid40000001_eax;
pub mod cpuid80000001_edx;

verus! {

/// The number of capability bits in one feature word.
pub const FEATURE_WORD_BITS: u32 = 32;

/// Whether bit number `bit` of `word` is one.
pub open spec fn bit_is_set(word: u32, bit: u32) -> bool {
    (word >> bit) & 1 == 1
}

/// Whether exactly one bit of `flag` is one.
pub open spec fn is_single_bit(flag: u32) -> bool {
    flag != 0 && flag & ((flag - 1) as u32) == 0
}

/// The index of `flag` in the flat feature space, where `word` is the number
/// of the feature word that holds the flag's register.
pub open spec fn spec_feature_index(word: u32, flag: u32) -> int {
    word * FEATURE_WORD_BITS + u32_trailing_zeros(flag)
}

/// A single-bit flag has fewer than 32 trailing zeros, is the bit at that
/// position, and has no other bit set.
pub proof fn lemma_single_bit(flag: u32)
    requires
        is_single_bit(flag),
    ensures
        u32_trailing_zeros(flag) < 32,
        flag == 1u32 << u32_trailing_zeros(flag),
        forall|bit: u32|
            bit < 32 ==> (#[trigger] bit_is_set(flag, bit) <==> bit == u32_trailing_zeros(flag)),
{
    axiom_u32_trailing_zeros(flag);
    let zeros = u32_trailing_zeros(flag);
    assert(zeros < 32 && flag == 1u32 << zeros && (forall|bit: u32|
        bit < 32 ==> ((flag >> bit) & 1 == 1 <==> bit == zeros))) by (bit_vector)
        requires
            flag != 0 && flag & ((flag - 1) as u32) == 0,
            zeros <= 32,
            flag == 0 <==> zeros == 32,
            zeros < 32 ==> (flag >> zeros) & 1 == 1,
    ;
}

/// The position of the lowest bit that is set in `flag`; 32 when none is.
pub fn bit_position(flag: u32) -> (bit: u32)
    ensures
        bit == u32_trailing_zeros(flag),
        bit <= 32,
        flag == 0 <==> bit == 32,
        flag != 0 ==> bit_is_set(flag, bit),
        is_single_bit(flag) ==> flag == 1u32 << bit,
{
    proof {
        axiom_u32_trailing_zeros(flag);
        if is_single_bit(flag) {
            lemma_single_bit(flag);
        }
    }
    flag.trailing_zeros()
}

/// The index of `flag` in the flat feature space: 32 indices to a feature
/// word, and within the word the position of the flag's bit.
pub fn feature_index(word: u32, flag: u32) -> (index: u32)
    requires
        word * FEATURE_WORD_BITS + FEATURE_WORD_BITS <= u32::MAX,
    ensures
        index == spec_feature_index(word, flag),
        flag != 0 ==> index / FEATURE_WORD_BITS == word && bit_is_set(
            flag,
            index % FEATURE_WORD_BITS,
        ),
        is_single_bit(flag) ==> flag == 1u32 << (index % FEATURE_WORD_BITS),
{
    let bit: u32 = bit_position(flag);
    word * FEATURE_WORD_BITS + bit
}

/// No two flags share a feature index: two single-bit flags in two feature
/// words have the same index only if the words are the same word and the
/// flags the same flag.
pub proof fn lemma_feature_index_injective(word_a: u32, flag_a: u32, word_b: u32, flag_b: u32)
    requires
        is_single_bit(flag_a),
        is_single_bit(flag_b),
        spec_feature_index(word_a, flag_a) == spec_feature_index(word_b, flag_b),
    ensures
        word_a == word_b,
        flag_a == flag_b,
{
    lemma_single_bit(flag_a);
    lemma_single_bit(flag_b);
}

} // verus!
