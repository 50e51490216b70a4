//! The feature cache and the platform identity of the running processor.
//!
//! Both are computed once, on first use, from what the raw probe reports, and
//! kept in a [`WriteOnce`] slot that the caller owns. A query on a full slot
//! reads the slot and nothing else.

use vstd::prelude::*;
use vstd::std_specs::bits::u32_trailing_zeros;
use crate::cpuid::cpuid;
use crate::cpuid::CpuidResult;
use crate::flags::bit_is_set;
use crate::flags::cpuid01_edx;
use crate::flags::cpuid80000001_edx;
use crate::flags::is_single_bit;
use crate::flags::lemma_single_bit;
use crate::flags::spec_feature_index;
use crate::once::filled_from;
use crate::once::lazy_reads;
use crate::once::lemma_lazy_reads_agree;
use crate::once::WriteOnce;
use crate::resolver::resolve_with;
use crate::resolver::resolved_from;
use crate::types::CpuType;

verus! {

/// The number of feature words in the cache.
pub const FEATURE_WORDS: usize = 2;

/// The number of feature indices that the cache answers for: 32 to a word.
pub const FEATURE_COUNT: u32 = 64;

/// Global-page support: leaf `0x0000_0001`, `edx`, feature word 0.
pub const X86_FEATURE_PGE: u32 = 13;

/// No-execute support: leaf `0x8000_0001`, `edx`, feature word 1.
pub const X86_FEATURE_NX: u32 = 52;

/// The curated capability bits of the processor: feature word 0 is `edx` of
/// leaf `0x0000_0001`, feature word 1 is `edx` of leaf `0x8000_0001`.
///
/// The view is the sequence of the feature words.
#[derive(Clone, Copy, Debug)]
pub struct X86Features {
    word: [u32; FEATURE_WORDS],
}

impl View for X86Features {
    type V = Seq<u32>;

    closed spec fn view(&self) -> Seq<u32> {
        self.word@
    }
}

/// The feature word that a leaf's answer gives: its `edx`, and no capability
/// at all when the leaf is unavailable.
pub open spec fn feature_word(answer: Option<CpuidResult>) -> u32 {
    match answer {
        Some(regs) => regs.edx,
        None => 0,
    }
}

/// The feature words that the answers of the two feature leaves give.
pub open spec fn spec_from_leaves(
    cpuid01: Option<CpuidResult>,
    cpuid80000001: Option<CpuidResult>,
) -> Seq<u32> {
    seq![feature_word(cpuid01), feature_word(cpuid80000001)]
}

/// Whether `words` are the feature words that the answers of `probe` to the
/// two feature leaves give.
pub open spec fn read_from<F: Fn(u32) -> Option<CpuidResult>>(probe: F, words: Seq<u32>) -> bool {
    exists|cpuid01: Option<CpuidResult>, cpuid80000001: Option<CpuidResult>|
        {
            &&& call_ensures(probe, (cpuid01_edx::LEAF,), cpuid01)
            &&& call_ensures(probe, (cpuid80000001_edx::LEAF,), cpuid80000001)
            &&& #[trigger] spec_from_leaves(cpuid01, cpuid80000001) == words
        }
}

/// Whether the feature words `words` report the feature with index `feat`:
/// bit `feat % 32` of word `feat / 32`.
pub open spec fn spec_has_feature(words: Seq<u32>, feat: u32) -> bool {
    bit_is_set(words[feat as int / 32], (feat % 32) as u32)
}

impl X86Features {
    /// Reads the two feature leaves through the raw probe.
    pub fn new() -> (features: X86Features)
        ensures
            read_from(cpuid, features@),
    {
        X86Features::read_with(cpuid)
    }

    /// Reads the two feature leaves through `probe`: leaf `0x0000_0001`,
    /// then leaf `0x8000_0001`. The probe need not take the second before it
    /// has answered the first.
    pub fn read_with<F: Fn(u32) -> Option<CpuidResult>>(probe: F) -> (features: X86Features)
        requires
            call_requires(probe, (cpuid01_edx::LEAF,)),
            forall|cpuid01: Option<CpuidResult>| #[trigger]
                call_ensures(probe, (cpuid01_edx::LEAF,), cpuid01) ==> call_requires(
                    probe,
                    (cpuid80000001_edx::LEAF,),
                ),
        ensures
            read_from(probe, features@),
    {
        let cpuid01 = probe(cpuid01_edx::LEAF);
        let cpuid80000001 = probe(cpuid80000001_edx::LEAF);
        let features = X86Features::from_leaves(cpuid01, cpuid80000001);
        assert(spec_from_leaves(cpuid01, cpuid80000001) == features@);
        features
    }

    /// The feature words that the answers of the two feature leaves give.
    pub fn from_leaves(
        cpuid01: Option<CpuidResult>,
        cpuid80000001: Option<CpuidResult>,
    ) -> (features: X86Features)
        ensures
            features@ == spec_from_leaves(cpuid01, cpuid80000001),
    {
        let word0: u32 = match cpuid01 {
            Some(regs) => regs.edx,
            None => 0,
        };
        let word1: u32 = match cpuid80000001 {
            Some(regs) => regs.edx,
            None => 0,
        };
        let features = X86Features { word: [word0, word1] };
        assert(features@ =~= spec_from_leaves(cpuid01, cpuid80000001));
        features
    }

    /// Whether the feature with index `feat` is reported.
    pub fn has_feature(&self, feat: u32) -> (present: bool)
        requires
            feat < FEATURE_COUNT,
        ensures
            self@.len() == FEATURE_WORDS,
            present == spec_has_feature(self@, feat),
    {
        let word: u32 = self.word[(feat / 32) as usize];
        let bit: u32 = feat % 32;
        assert((word & (1u32 << bit) != 0) == ((word >> bit) & 1 == 1)) by (bit_vector)
            requires
                bit < 32,
        ;
        word & (1u32 << bit) != 0
    }
}

/// Whether the processor has the feature with index `feat`. The first call
/// on an empty cache reads the feature leaves through the raw probe and fills
/// the cache; every later call answers from the cache and leaves it as it is.
pub fn cpu_has_feature(cache: &mut WriteOnce<X86Features>, feat: u32) -> (present: bool)
    requires
        feat < FEATURE_COUNT,
    ensures
        filled_from(old(cache)@, final(cache)@),
        old(cache)@ is None ==> read_from(cpuid, final(cache)@->0@),
        present == spec_has_feature(final(cache)@->0@, feat),
{
    let features: X86Features = cache.get_or_init(X86Features::new);
    features.has_feature(feat)
}

/// Whether the processor answers as a TDX guest's does. The three leaves are
/// read through the raw probe, in order, and reading stops at the first check
/// that fails.
pub fn is_td_cpu() -> (td: bool)
    ensures
        resolved_from(cpuid, if td { CpuType::Td } else { CpuType::Sev }),
{
    resolve_with(cpuid) == CpuType::Td
}

/// The platform identity as the raw probe shows it.
pub fn get_cpu_type() -> (identity: CpuType)
    ensures
        resolved_from(cpuid, identity),
{
    if is_td_cpu() {
        CpuType::Td
    } else {
        CpuType::Sev
    }
}

/// The platform identity. The first call on an empty cache resolves it
/// through the raw probe and fills the cache; every later call answers from
/// the cache and leaves it as it is.
pub fn cpu_type(cache: &mut WriteOnce<CpuType>) -> (identity: CpuType)
    ensures
        filled_from(old(cache)@, final(cache)@),
        old(cache)@ is None ==> resolved_from(cpuid, identity),
        final(cache)@ == Some(identity),
{
    cache.get_or_init(get_cpu_type)
}

/// Whether the guest runs under SEV.
pub fn is_sev(cache: &mut WriteOnce<CpuType>) -> (sev: bool)
    ensures
        filled_from(old(cache)@, final(cache)@),
        old(cache)@ is None ==> resolved_from(cpuid, final(cache)@->0),
        sev == (final(cache)@ == Some(CpuType::Sev)),
{
    cpu_type(cache) == CpuType::Sev
}

/// Whether the guest runs under TDX.
pub fn is_tdx(cache: &mut WriteOnce<CpuType>) -> (tdx: bool)
    ensures
        filled_from(old(cache)@, final(cache)@),
        old(cache)@ is None ==> resolved_from(cpuid, final(cache)@->0),
        tdx == (final(cache)@ == Some(CpuType::Td)),
{
    cpu_type(cache) == CpuType::Td
}

/// A feature query decodes the register that backs its word: for an index
/// below 32 the bit of that number in `edx` of leaf `0x0000_0001`, for one
/// from 32 on the bit 32 lower in `edx` of leaf `0x8000_0001`.
pub proof fn lemma_has_feature_decodes(
    cpuid01: Option<CpuidResult>,
    cpuid80000001: Option<CpuidResult>,
    feat: u32,
)
    requires
        feat < FEATURE_COUNT,
    ensures
        spec_has_feature(spec_from_leaves(cpuid01, cpuid80000001), feat) == (if feat < 32 {
            bit_is_set(feature_word(cpuid01), feat)
        } else {
            bit_is_set(feature_word(cpuid80000001), (feat - 32) as u32)
        }),
{
}

/// An unavailable leaf reports no feature.
pub proof fn lemma_unavailable_leaf_has_no_feature(bit: u32)
    requires
        bit < 32,
    ensures
        !bit_is_set(feature_word(None), bit),
{
    assert((0u32 >> bit) & 1 == 0) by (bit_vector);
}

/// The feature at the index of a flag is reported exactly when the flag's bit
/// is set in the feature word that holds the flag's register.
pub proof fn lemma_has_feature_of_flag(words: Seq<u32>, word: u32, flag: u32)
    requires
        word < words.len() <= FEATURE_WORDS,
        is_single_bit(flag),
    ensures
        0 <= spec_feature_index(word, flag) < FEATURE_COUNT,
        spec_has_feature(words, spec_feature_index(word, flag) as u32) == (words[word as int] & flag
            != 0),
{
    lemma_single_bit(flag);
    let bit = u32_trailing_zeros(flag);
    let reg = words[word as int];
    assert((reg & flag != 0) == ((reg >> bit) & 1 == 1)) by (bit_vector)
        requires
            bit < 32,
            flag == 1u32 << bit,
    ;
}

/// The two curated indices are those of the global-page flag in feature word
/// 0 and of the no-execute flag in feature word 1.
pub proof fn lemma_curated_indices()
    ensures
        X86_FEATURE_PGE == spec_feature_index(0, cpuid01_edx::PGE),
        X86_FEATURE_NX == spec_feature_index(1, cpuid80000001_edx::NX),
{
    cpuid01_edx::lemma_flags_distinct();
    cpuid80000001_edx::lemma_flags_distinct();
    lemma_single_bit(cpuid01_edx::PGE);
    lemma_single_bit(cpuid80000001_edx::NX);
    let pge = u32_trailing_zeros(cpuid01_edx::PGE);
    let nx = u32_trailing_zeros(cpuid80000001_edx::NX);
    assert(pge == 13) by (bit_vector)
        requires
            pge < 32,
            1u32 << 13 == 1u32 << pge,
    ;
    assert(nx == 20) by (bit_vector)
        requires
            nx < 32,
            1u32 << 20 == 1u32 << nx,
    ;
}

/// Repeated feature queries agree: however many queries are made in a row on
/// one cache, each finds the words that answered the first, and is answered
/// from them.
pub proof fn lemma_has_feature_repeats(
    states: Seq<Option<X86Features>>,
    i: int,
    j: int,
    feat: u32,
)
    requires
        lazy_reads(states),
        1 <= i < states.len(),
        1 <= j < states.len(),
    ensures
        states[i] is Some,
        states[i] == states[j],
        spec_has_feature(states[i]->0@, feat) == spec_has_feature(states[j]->0@, feat),
{
    lemma_lazy_reads_agree(states, i, j);
}

/// The platform identity is stable: however many resolutions are made in a
/// row on one cache, each reports the identity that the first reported.
pub proof fn lemma_cpu_type_repeats(states: Seq<Option<CpuType>>, i: int, j: int)
    requires
        lazy_reads(states),
        1 <= i < states.len(),
        1 <= j < states.len(),
    ensures
        states[i] is Some,
        states[i]->0 == states[j]->0,
{
    lemma_lazy_reads_agree(states, i, j);
}

} // verus!
