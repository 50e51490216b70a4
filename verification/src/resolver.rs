//! The ordered signature match that tells a TDX guest from an SEV guest.
//!
//! Three checks are made, each on one leaf: the vendor text, the hypervisor
//! bit, the TDX signature. Each is necessary and none is sufficient, and the
//! first that fails settles the matter: the guest is taken for an SEV guest
//! and no further leaf is read. Only a machine that meets all three is a TDX
//! guest.
//!
//! [`Resolver`] is the match as a state machine: it names the leaf to query,
//! takes the answer, and either names the next leaf or comes to rest on an
//! identity. [`resolve_with`] runs it against a probe.

use vstd::prelude::*;
use crate::cpuid::CpuidResult;
use crate::flags::bit_is_set;
use crate::flags::cpuid01_ecx;
use crate::types::CpuType;

verus! {

/// The leaf that spells the vendor of the processor.
pub const VENDOR_LEAF: u32 = 0x0000_0000;

/// The leaf that spells the signature of the TDX module.
pub const TDX_LEAF: u32 = 0x0000_0021;

/// The bit of `ecx` of the feature leaf by which a hypervisor announces
/// itself.
pub const HYPERVISOR_PRESENT_BIT: u32 = 31;

/// The four characters that a register spells, lowest byte first.
pub open spec fn reg_text(reg: u32) -> Seq<char> {
    seq![
        (reg & 0xff) as u8 as char,
        ((reg >> 8) & 0xff) as u8 as char,
        ((reg >> 16) & 0xff) as u8 as char,
        ((reg >> 24) & 0xff) as u8 as char,
    ]
}

/// The twelve characters that a signature leaf spells: `ebx`, then `edx`,
/// then `ecx`.
pub open spec fn signature_text(regs: CpuidResult) -> Seq<char> {
    reg_text(regs.ebx) + reg_text(regs.edx) + reg_text(regs.ecx)
}

/// One of the three checks, in the order in which they are made.
#[derive(Clone, Copy, Debug, PartialEq, Eq, Structural)]
pub enum TdCheck {
    /// The vendor leaf must spell `GenuineIntel`.
    Vendor,
    /// The feature leaf must report that a hypervisor is present: without
    /// one, the vendor text is that of any Intel machine.
    Hypervisor,
    /// The TDX leaf must spell `IntelTDX` and four spaces.
    Signature,
}

impl TdCheck {
    /// The leaf that the check reads.
    pub open spec fn spec_leaf(self) -> u32 {
        match self {
            TdCheck::Vendor => VENDOR_LEAF,
            TdCheck::Hypervisor => cpuid01_ecx::LEAF,
            TdCheck::Signature => TDX_LEAF,
        }
    }

    /// Whether `answer`, the reply to a query of this check's leaf, meets the
    /// check. An unavailable leaf meets none.
    pub open spec fn spec_passes(self, answer: Option<CpuidResult>) -> bool {
        match answer {
            None => false,
            Some(regs) => match self {
                TdCheck::Vendor => signature_text(regs) == "GenuineIntel"@,
                TdCheck::Hypervisor => bit_is_set(regs.ecx, HYPERVISOR_PRESENT_BIT),
                TdCheck::Signature => signature_text(regs) == "IntelTDX    "@,
            },
        }
    }

    /// The check that follows this one, if any.
    pub open spec fn spec_next(self) -> Option<TdCheck> {
        match self {
            TdCheck::Vendor => Some(TdCheck::Hypervisor),
            TdCheck::Hypervisor => Some(TdCheck::Signature),
            TdCheck::Signature => None,
        }
    }

    /// Whether this check is made before `other`.
    pub open spec fn precedes(self, other: TdCheck) -> bool {
        match (self, other) {
            (TdCheck::Vendor, TdCheck::Hypervisor) => true,
            (TdCheck::Vendor, TdCheck::Signature) => true,
            (TdCheck::Hypervisor, TdCheck::Signature) => true,
            _ => false,
        }
    }

    /// The leaf that the check reads.
    #[verifier::when_used_as_spec(spec_leaf)]
    pub fn leaf(self) -> (leaf: u32)
        ensures
            leaf == self.spec_leaf(),
    {
        match self {
            TdCheck::Vendor => VENDOR_LEAF,
            TdCheck::Hypervisor => cpuid01_ecx::LEAF,
            TdCheck::Signature => TDX_LEAF,
        }
    }

    /// Whether `answer` meets the check.
    #[verifier::when_used_as_spec(spec_passes)]
    pub fn passes(self, answer: Option<CpuidResult>) -> (ok: bool)
        ensures
            ok == self.spec_passes(answer),
    {
        match answer {
            None => false,
            Some(regs) => {
                proof {
                    lemma_checks_on_registers(regs);
                }
                match self {
                    TdCheck::Vendor => regs.ebx == 0x756e_6547 && regs.edx == 0x4965_6e69
                        && regs.ecx == 0x6c65_746e,
                    TdCheck::Hypervisor => {
                        let ecx: u32 = regs.ecx;
                        assert((ecx & 0x8000_0000 != 0) == (ecx >= 0x8000_0000)) by (bit_vector);
                        ecx & 0x8000_0000 != 0
                    },
                    TdCheck::Signature => regs.ebx == 0x6574_6e49 && regs.edx == 0x5844_546c
                        && regs.ecx == 0x2020_2020,
                }
            },
        }
    }

    /// The check that follows this one, if any.
    #[verifier::when_used_as_spec(spec_next)]
    pub fn next(self) -> (following: Option<TdCheck>)
        ensures
            following == self.spec_next(),
    {
        match self {
            TdCheck::Vendor => Some(TdCheck::Hypervisor),
            TdCheck::Hypervisor => Some(TdCheck::Signature),
            TdCheck::Signature => None,
        }
    }
}

/// Two registers spell the same text only if they are equal.
proof fn lemma_reg_text_injective(a: u32, b: u32)
    ensures
        reg_text(a) == reg_text(b) <==> a == b,
{
    assert(a & 0xff < 256 && (a >> 8) & 0xff < 256 && (a >> 16) & 0xff < 256 && (a >> 24) & 0xff
        < 256) by (bit_vector);
    assert(b & 0xff < 256 && (b >> 8) & 0xff < 256 && (b >> 16) & 0xff < 256 && (b >> 24) & 0xff
        < 256) by (bit_vector);
    if reg_text(a) == reg_text(b) {
        assert(reg_text(a)[0] == reg_text(b)[0]);
        assert(reg_text(a)[1] == reg_text(b)[1]);
        assert(reg_text(a)[2] == reg_text(b)[2]);
        assert(reg_text(a)[3] == reg_text(b)[3]);
        assert(a == b) by (bit_vector)
            requires
                a & 0xff == b & 0xff,
                (a >> 8) & 0xff == (b >> 8) & 0xff,
                (a >> 16) & 0xff == (b >> 16) & 0xff,
                (a >> 24) & 0xff == (b >> 24) & 0xff,
        ;
    }
}

/// Two leaves spell the same signature only if they agree in `ebx`, `edx`
/// and `ecx`.
proof fn lemma_signature_text_injective(a: CpuidResult, b: CpuidResult)
    ensures
        signature_text(a) == signature_text(b) <==> (a.ebx == b.ebx && a.edx == b.edx && a.ecx
            == b.ecx),
{
    lemma_reg_text_injective(a.ebx, b.ebx);
    lemma_reg_text_injective(a.edx, b.edx);
    lemma_reg_text_injective(a.ecx, b.ecx);
    let text_a = signature_text(a);
    let text_b = signature_text(b);
    if text_a == text_b {
        assert(reg_text(a.ebx) =~= text_a.subrange(0, 4));
        assert(reg_text(b.ebx) =~= text_b.subrange(0, 4));
        assert(reg_text(a.edx) =~= text_a.subrange(4, 8));
        assert(reg_text(b.edx) =~= text_b.subrange(4, 8));
        assert(reg_text(a.ecx) =~= text_a.subrange(8, 12));
        assert(reg_text(b.ecx) =~= text_b.subrange(8, 12));
    }
}

/// The words `0x756e_6547`, `0x4965_6e69`, `0x6c65_746e` spell
/// `GenuineIntel`.
proof fn lemma_vendor_text(regs: CpuidResult)
    requires
        regs.ebx == 0x756e_6547,
        regs.edx == 0x4965_6e69,
        regs.ecx == 0x6c65_746e,
    ensures
        signature_text(regs) == "GenuineIntel"@,
{
    reveal_strlit("GenuineIntel");
    let ebx: u32 = regs.ebx;
    let edx: u32 = regs.edx;
    let ecx: u32 = regs.ecx;
    assert(ebx & 0xff == 0x47 && (ebx >> 8) & 0xff == 0x65 && (ebx >> 16) & 0xff == 0x6e && (ebx
        >> 24) & 0xff == 0x75) by (bit_vector)
        requires
            ebx == 0x756e_6547,
    ;
    assert(edx & 0xff == 0x69 && (edx >> 8) & 0xff == 0x6e && (edx >> 16) & 0xff == 0x65 && (edx
        >> 24) & 0xff == 0x49) by (bit_vector)
        requires
            edx == 0x4965_6e69,
    ;
    assert(ecx & 0xff == 0x6e && (ecx >> 8) & 0xff == 0x74 && (ecx >> 16) & 0xff == 0x65 && (ecx
        >> 24) & 0xff == 0x6c) by (bit_vector)
        requires
            ecx == 0x6c65_746e,
    ;
    assert(signature_text(regs) =~= "GenuineIntel"@);
}

/// The words `0x6574_6e49`, `0x5844_546c`, `0x2020_2020` spell `IntelTDX`
/// and four spaces.
proof fn lemma_tdx_text(regs: CpuidResult)
    requires
        regs.ebx == 0x6574_6e49,
        regs.edx == 0x5844_546c,
        regs.ecx == 0x2020_2020,
    ensures
        signature_text(regs) == "IntelTDX    "@,
{
    reveal_strlit("IntelTDX    ");
    let ebx: u32 = regs.ebx;
    let edx: u32 = regs.edx;
    let ecx: u32 = regs.ecx;
    assert(ebx & 0xff == 0x49 && (ebx >> 8) & 0xff == 0x6e && (ebx >> 16) & 0xff == 0x74 && (ebx
        >> 24) & 0xff == 0x65) by (bit_vector)
        requires
            ebx == 0x6574_6e49,
    ;
    assert(edx & 0xff == 0x6c && (edx >> 8) & 0xff == 0x54 && (edx >> 16) & 0xff == 0x44 && (edx
        >> 24) & 0xff == 0x58) by (bit_vector)
        requires
            edx == 0x5844_546c,
    ;
    assert(ecx & 0xff == 0x20 && (ecx >> 8) & 0xff == 0x20 && (ecx >> 16) & 0xff == 0x20 && (ecx
        >> 24) & 0xff == 0x20) by (bit_vector)
        requires
            ecx == 0x2020_2020,
    ;
    assert(signature_text(regs) =~= "IntelTDX    "@);
}

/// What the three checks ask of the registers themselves: the vendor check
/// the three words that spell `GenuineIntel`, the hypervisor check the top
/// bit of `ecx`, the signature check the three words that spell `IntelTDX`
/// and four spaces.
pub proof fn lemma_checks_on_registers(regs: CpuidResult)
    ensures
        TdCheck::Vendor.spec_passes(Some(regs)) <==> (regs.ebx == 0x756e_6547 && regs.edx
            == 0x4965_6e69 && regs.ecx == 0x6c65_746e),
        TdCheck::Hypervisor.spec_passes(Some(regs)) <==> regs.ecx >= 0x8000_0000,
        TdCheck::Signature.spec_passes(Some(regs)) <==> (regs.ebx == 0x6574_6e49 && regs.edx
            == 0x5844_546c && regs.ecx == 0x2020_2020),
{
    let intel = CpuidResult { eax: 0, ebx: 0x756e_6547, ecx: 0x6c65_746e, edx: 0x4965_6e69 };
    lemma_vendor_text(intel);
    lemma_signature_text_injective(regs, intel);
    let tdx = CpuidResult { eax: 0, ebx: 0x6574_6e49, ecx: 0x2020_2020, edx: 0x5844_546c };
    lemma_tdx_text(tdx);
    lemma_signature_text_injective(regs, tdx);
    let ecx: u32 = regs.ecx;
    assert(((ecx >> 31) & 1 == 1) == (ecx >= 0x8000_0000)) by (bit_vector);
}

/// The state of one resolution of the platform identity: still resolving,
/// with the check whose answer is awaited, or resolved for good.
#[derive(Clone, Copy, Debug, PartialEq, Eq, Structural)]
pub enum Resolver {
    Resolving(TdCheck),
    Resolved(CpuType),
}

impl Resolver {
    /// The state before any leaf has been read.
    pub open spec fn spec_start() -> Resolver {
        Resolver::Resolving(TdCheck::Vendor)
    }

    /// The leaf whose answer the resolver waits for; none once resolved.
    pub open spec fn spec_pending_leaf(self) -> Option<u32> {
        match self {
            Resolver::Resolving(check) => Some(check.spec_leaf()),
            Resolver::Resolved(_) => None,
        }
    }

    /// The state after `answer` has been given to the query of the pending
    /// leaf. A check that fails resolves to SEV at once; the last check, when
    /// it is met, resolves to TDX. A resolved state stays as it is.
    pub open spec fn spec_advance(self, answer: Option<CpuidResult>) -> Resolver {
        match self {
            Resolver::Resolving(check) => if !check.spec_passes(answer) {
                Resolver::Resolved(CpuType::Sev)
            } else {
                match check.spec_next() {
                    Some(following) => Resolver::Resolving(following),
                    None => Resolver::Resolved(CpuType::Td),
                }
            },
            Resolver::Resolved(identity) => Resolver::Resolved(identity),
        }
    }

    /// The identity, once resolved.
    pub open spec fn spec_identity(self) -> Option<CpuType> {
        match self {
            Resolver::Resolving(_) => None,
            Resolver::Resolved(identity) => Some(identity),
        }
    }

    /// The greatest number of answers that the resolver may still ask for.
    pub open spec fn checks_left(self) -> nat {
        match self {
            Resolver::Resolving(TdCheck::Vendor) => 3,
            Resolver::Resolving(TdCheck::Hypervisor) => 2,
            Resolver::Resolving(TdCheck::Signature) => 1,
            Resolver::Resolved(_) => 0,
        }
    }

    /// The state before any leaf has been read.
    #[verifier::when_used_as_spec(spec_start)]
    pub fn start() -> (state: Resolver)
        ensures
            state == Resolver::spec_start(),
    {
        Resolver::Resolving(TdCheck::Vendor)
    }

    /// The leaf to query next; none once resolved.
    #[verifier::when_used_as_spec(spec_pending_leaf)]
    pub fn pending_leaf(self) -> (leaf: Option<u32>)
        ensures
            leaf == self.spec_pending_leaf(),
    {
        match self {
            Resolver::Resolving(check) => Some(check.leaf()),
            Resolver::Resolved(_) => None,
        }
    }

    /// Takes the answer to the query of the pending leaf and moves on.
    #[verifier::when_used_as_spec(spec_advance)]
    pub fn advance(self, answer: Option<CpuidResult>) -> (state: Resolver)
        ensures
            state == self.spec_advance(answer),
            self is Resolving ==> state.checks_left() < self.checks_left(),
    {
        match self {
            Resolver::Resolving(check) => {
                if !check.passes(answer) {
                    Resolver::Resolved(CpuType::Sev)
                } else {
                    match check.next() {
                        Some(following) => Resolver::Resolving(following),
                        None => Resolver::Resolved(CpuType::Td),
                    }
                }
            },
            Resolver::Resolved(identity) => Resolver::Resolved(identity),
        }
    }

    /// The identity, once resolved.
    #[verifier::when_used_as_spec(spec_identity)]
    pub fn identity(self) -> (identity: Option<CpuType>)
        ensures
            identity == self.spec_identity(),
    {
        match self {
            Resolver::Resolving(_) => None,
            Resolver::Resolved(identity) => Some(identity),
        }
    }
}

/// What a machine answers to a query of `leaf`, where `machine` maps each
/// leaf that it knows to the registers it reports.
pub open spec fn answer_of(machine: Map<u32, CpuidResult>, leaf: u32) -> Option<CpuidResult> {
    if machine.dom().contains(leaf) {
        Some(machine[leaf])
    } else {
        None
    }
}

/// The identity of a machine: TDX if it meets all three checks, else SEV.
pub open spec fn identity_of(machine: Map<u32, CpuidResult>) -> CpuType {
    if TdCheck::Vendor.spec_passes(answer_of(machine, VENDOR_LEAF))
        && TdCheck::Hypervisor.spec_passes(answer_of(machine, cpuid01_ecx::LEAF))
        && TdCheck::Signature.spec_passes(answer_of(machine, TDX_LEAF)) {
        CpuType::Td
    } else {
        CpuType::Sev
    }
}

/// The state in which a resolver comes to rest when every query that it
/// makes from `state` on is answered by `machine`.
pub open spec fn run(state: Resolver, machine: Map<u32, CpuidResult>) -> Resolver
    decreases state.checks_left(),
{
    match state {
        Resolver::Resolving(check) => run(
            state.spec_advance(answer_of(machine, check.spec_leaf())),
            machine,
        ),
        Resolver::Resolved(_) => state,
    }
}

/// The leaves that a resolver asks `machine` for from `state` on, in order.
pub open spec fn queries(state: Resolver, machine: Map<u32, CpuidResult>) -> Seq<u32>
    decreases state.checks_left(),
{
    match state {
        Resolver::Resolving(check) => seq![check.spec_leaf()] + queries(
            state.spec_advance(answer_of(machine, check.spec_leaf())),
            machine,
        ),
        Resolver::Resolved(_) => Seq::empty(),
    }
}

/// Run against any machine, the resolver comes to rest resolved, and on the
/// identity of that machine.
pub proof fn lemma_run_resolves(machine: Map<u32, CpuidResult>)
    ensures
        run(Resolver::spec_start(), machine) == Resolver::Resolved(identity_of(machine)),
{
    reveal_with_fuel(run, 4);
}

/// The resolver asks for the vendor leaf, then for the feature leaf, then
/// for the TDX leaf, and stops asking at the first check that fails.
pub proof fn lemma_queries_in_order(machine: Map<u32, CpuidResult>)
    ensures
        queries(Resolver::spec_start(), machine) == (if !TdCheck::Vendor.spec_passes(
            answer_of(machine, VENDOR_LEAF),
        ) {
            seq![VENDOR_LEAF]
        } else if !TdCheck::Hypervisor.spec_passes(answer_of(machine, cpuid01_ecx::LEAF)) {
            seq![VENDOR_LEAF, cpuid01_ecx::LEAF]
        } else {
            seq![VENDOR_LEAF, cpuid01_ecx::LEAF, TDX_LEAF]
        }),
{
    reveal_with_fuel(queries, 4);
}

/// A resolved state is final: no answer moves it, and it asks for none.
pub proof fn lemma_resolved_is_final(identity: CpuType, answer: Option<CpuidResult>)
    ensures
        Resolver::Resolved(identity).spec_advance(answer) == Resolver::Resolved(identity),
        Resolver::Resolved(identity).spec_pending_leaf() is None,
{
}

/// A machine whose vendor leaf does not spell `GenuineIntel` is an SEV
/// machine, whatever its other leaves hold, and it is asked for the vendor
/// leaf alone.
pub proof fn lemma_vendor_mismatch_is_sev(machine: Map<u32, CpuidResult>)
    requires
        !TdCheck::Vendor.spec_passes(answer_of(machine, VENDOR_LEAF)),
    ensures
        identity_of(machine) == CpuType::Sev,
        run(Resolver::spec_start(), machine) == Resolver::Resolved(CpuType::Sev),
        queries(Resolver::spec_start(), machine) == seq![VENDOR_LEAF],
{
    lemma_run_resolves(machine);
    lemma_queries_in_order(machine);
}

/// A machine that spells `GenuineIntel` but shows no hypervisor is an SEV
/// machine: the vendor text alone does not make a TDX guest.
pub proof fn lemma_no_hypervisor_is_sev(machine: Map<u32, CpuidResult>)
    requires
        TdCheck::Vendor.spec_passes(answer_of(machine, VENDOR_LEAF)),
        !TdCheck::Hypervisor.spec_passes(answer_of(machine, cpuid01_ecx::LEAF)),
    ensures
        identity_of(machine) == CpuType::Sev,
        run(Resolver::spec_start(), machine) == Resolver::Resolved(CpuType::Sev),
        queries(Resolver::spec_start(), machine) == seq![VENDOR_LEAF, cpuid01_ecx::LEAF],
{
    lemma_run_resolves(machine);
    lemma_queries_in_order(machine);
}

/// Whether `machine` answers as `probe` does to every query that a resolver
/// puts to it.
pub open spec fn answers_as<F: Fn(u32) -> Option<CpuidResult>>(
    probe: F,
    machine: Map<u32, CpuidResult>,
) -> bool {
    forall|leaf: u32| #[trigger]
        queries(Resolver::spec_start(), machine).contains(leaf) ==> call_ensures(
            probe,
            (leaf,),
            answer_of(machine, leaf),
        )
}

/// What it takes to answer as `probe` does: the vendor leaf is always asked
/// for, the feature leaf only of a machine that met the vendor check, and the
/// TDX leaf only of one that met the hypervisor check as well.
pub proof fn lemma_answers_as_in_order<F: Fn(u32) -> Option<CpuidResult>>(
    probe: F,
    machine: Map<u32, CpuidResult>,
)
    ensures
        answers_as(probe, machine) <==> {
            &&& call_ensures(probe, (VENDOR_LEAF,), answer_of(machine, VENDOR_LEAF))
            &&& TdCheck::Vendor.spec_passes(answer_of(machine, VENDOR_LEAF)) ==> call_ensures(
                probe,
                (cpuid01_ecx::LEAF,),
                answer_of(machine, cpuid01_ecx::LEAF),
            )
            &&& TdCheck::Vendor.spec_passes(answer_of(machine, VENDOR_LEAF))
                && TdCheck::Hypervisor.spec_passes(answer_of(machine, cpuid01_ecx::LEAF))
                ==> call_ensures(probe, (TDX_LEAF,), answer_of(machine, TDX_LEAF))
        },
{
    lemma_queries_in_order(machine);
    let asked = queries(Resolver::spec_start(), machine);
    assert(asked[0] == VENDOR_LEAF);
    assert(asked.contains(VENDOR_LEAF));
    if asked.len() >= 2 {
        assert(asked[1] == cpuid01_ecx::LEAF);
        assert(asked.contains(cpuid01_ecx::LEAF));
    }
    if asked.len() >= 3 {
        assert(asked[2] == TDX_LEAF);
        assert(asked.contains(TDX_LEAF));
    }
    assert forall|leaf: u32| asked.contains(leaf) implies leaf == VENDOR_LEAF || (asked.len() >= 2
        && leaf == cpuid01_ecx::LEAF) || (asked.len() >= 3 && leaf == TDX_LEAF) by {
        let place = choose|place: int| 0 <= place < asked.len() && asked[place] == leaf;
        assert(place == 0 || place == 1 || place == 2);
    }
}

/// Whether `identity` is the identity of a machine that answers as `probe`
/// does to every query that a resolver puts to it.
pub open spec fn resolved_from<F: Fn(u32) -> Option<CpuidResult>>(
    probe: F,
    identity: CpuType,
) -> bool {
    exists|machine: Map<u32, CpuidResult>| #[trigger]
        answers_as(probe, machine) && identity == identity_of(machine)
}

/// Whether `probe` may be asked all that a resolver asks: the vendor leaf
/// in any case, the feature leaf once it has answered the vendor leaf so that
/// the vendor check is met, the TDX leaf once it has also answered the
/// feature leaf so that the hypervisor check is met. Nothing more is asked of
/// a probe, so nothing is asked out of this order or after a failed check.
pub open spec fn may_resolve<F: Fn(u32) -> Option<CpuidResult>>(probe: F) -> bool {
    &&& call_requires(probe, (VENDOR_LEAF,))
    &&& forall|vendor: Option<CpuidResult>| #[trigger]
        call_ensures(probe, (VENDOR_LEAF,), vendor) && TdCheck::Vendor.spec_passes(vendor)
            ==> call_requires(probe, (cpuid01_ecx::LEAF,))
    &&& forall|vendor: Option<CpuidResult>, features: Option<CpuidResult>|
        #![trigger
            call_ensures(probe, (VENDOR_LEAF,), vendor),
            call_ensures(probe, (cpuid01_ecx::LEAF,), features),
        ]
        call_ensures(probe, (VENDOR_LEAF,), vendor) && TdCheck::Vendor.spec_passes(vendor)
            && call_ensures(probe, (cpuid01_ecx::LEAF,), features)
            && TdCheck::Hypervisor.spec_passes(features) ==> call_requires(probe, (TDX_LEAF,))
}

/// Resolves the platform identity with `probe` as the source of every leaf.
/// The resolver's queries go to `probe` one by one, and no further query is
/// made once a check has failed. The identity returned is the identity of a
/// machine that answers those queries as `probe` did.
pub fn resolve_with<F: Fn(u32) -> Option<CpuidResult>>(probe: F) -> (identity: CpuType)
    requires
        may_resolve(probe),
    ensures
        resolved_from(probe, identity),
{
    let mut state = Resolver::start();
    let ghost mut machine: Map<u32, CpuidResult> = Map::empty();
    loop
        invariant
            may_resolve(probe),
            state is Resolving ==> forall|leaf: u32|
                machine.dom().contains(leaf) ==> exists|earlier: TdCheck|
                    earlier.precedes(state->Resolving_0) && leaf == earlier.spec_leaf(),
            state is Resolving ==> forall|earlier: TdCheck| #[trigger]
                earlier.precedes(state->Resolving_0) ==> earlier.spec_passes(
                    answer_of(machine, earlier.spec_leaf()),
                ) && call_ensures(
                    probe,
                    (earlier.spec_leaf(),),
                    answer_of(machine, earlier.spec_leaf()),
                ),
            state is Resolved ==> answers_as(probe, machine) && state->Resolved_0 == identity_of(
                machine,
            ),
        decreases state.checks_left(),
    {
        match state {
            Resolver::Resolved(identity) => {
                return identity;
            },
            Resolver::Resolving(check) => {
                assert(TdCheck::Vendor.precedes(TdCheck::Hypervisor));
                assert(TdCheck::Vendor.precedes(TdCheck::Signature));
                assert(TdCheck::Hypervisor.precedes(TdCheck::Signature));
                let answer = probe(check.leaf());
                proof {
                    if let Some(regs) = answer {
                        machine = machine.insert(check.spec_leaf(), regs);
                    }
                    assert(TdCheck::Vendor.precedes(TdCheck::Hypervisor));
                    assert(TdCheck::Vendor.precedes(TdCheck::Signature));
                    assert(TdCheck::Hypervisor.precedes(TdCheck::Signature));
                    lemma_answers_as_in_order(probe, machine);
                }
                state = state.advance(answer);
            },
        }
    }
}

} // verus!
