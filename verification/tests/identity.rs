use std::cell::RefCell;

use svsm_cpu::cpuid::cpuid;
use svsm_cpu::cpuid::CpuidResult;
use svsm_cpu::features::cpu_type;
use svsm_cpu::features::get_cpu_type;
use svsm_cpu::features::is_sev;
use svsm_cpu::features::is_td_cpu;
use svsm_cpu::features::is_tdx;
use svsm_cpu::once::WriteOnce;
use svsm_cpu::resolver::resolve_with;
use svsm_cpu::resolver::Resolver;
use svsm_cpu::resolver::TdCheck;
use svsm_cpu::types::CpuType;

const VENDOR_LEAF: u32 = 0x0000_0000;
const FEATURE_LEAF: u32 = 0x0000_0001;
const TDX_LEAF: u32 = 0x0000_0021;

fn word(text: &[u8; 4]) -> u32 {
    u32::from_le_bytes(*text)
}

/// A leaf that spells `text` in ebx, edx, ecx.
fn spelling(text: &[u8; 12], eax: u32) -> CpuidResult {
    CpuidResult {
        eax,
        ebx: word(&[text[0], text[1], text[2], text[3]]),
        edx: word(&[text[4], text[5], text[6], text[7]]),
        ecx: word(&[text[8], text[9], text[10], text[11]]),
    }
}

fn intel() -> CpuidResult {
    spelling(b"GenuineIntel", 0x23)
}

fn amd() -> CpuidResult {
    spelling(b"AuthenticAMD", 0x10)
}

fn tdx_signature() -> CpuidResult {
    spelling(b"IntelTDX    ", 0)
}

fn with_hypervisor() -> CpuidResult {
    CpuidResult { eax: 0x000c_06f2, ebx: 0, ecx: 0x8000_0000 | 0x0000_0201, edx: 0x0781_abff }
}

fn without_hypervisor() -> CpuidResult {
    CpuidResult { eax: 0x000c_06f2, ebx: !0, ecx: 0x7fff_ffff, edx: !0 }
}

/// Drives the resolver against a machine given as a list of leaves, and
/// returns the identity together with the leaves that were asked for.
fn resolve_on(machine: &[(u32, CpuidResult)]) -> (CpuType, Vec<u32>) {
    let mut asked = Vec::new();
    let mut state = Resolver::start();
    while let Some(leaf) = state.pending_leaf() {
        asked.push(leaf);
        let answer = machine.iter().find(|(l, _)| *l == leaf).map(|(_, regs)| *regs);
        state = state.advance(answer);
        assert!(asked.len() <= 3);
    }
    (state.identity().unwrap(), asked)
}

/// Resolves with a probe that answers from `machine`, and returns the
/// identity together with the leaves that the probe was asked for.
fn probe_on(machine: &[(u32, CpuidResult)]) -> (CpuType, Vec<u32>) {
    let asked = RefCell::new(Vec::new());
    let identity = resolve_with(|leaf: u32| {
        asked.borrow_mut().push(leaf);
        machine.iter().find(|(l, _)| *l == leaf).map(|(_, regs)| *regs)
    });
    (identity, asked.into_inner())
}

#[test]
fn resolve_with_asks_in_order_and_stops_at_the_first_failure() {
    let tdx = [
        (VENDOR_LEAF, intel()),
        (FEATURE_LEAF, with_hypervisor()),
        (TDX_LEAF, tdx_signature()),
    ];
    assert_eq!(probe_on(&tdx), (CpuType::Td, vec![VENDOR_LEAF, FEATURE_LEAF, TDX_LEAF]));

    let other_vendor = [
        (VENDOR_LEAF, amd()),
        (FEATURE_LEAF, with_hypervisor()),
        (TDX_LEAF, tdx_signature()),
    ];
    assert_eq!(probe_on(&other_vendor), (CpuType::Sev, vec![VENDOR_LEAF]));

    let bare_metal = [
        (VENDOR_LEAF, intel()),
        (FEATURE_LEAF, without_hypervisor()),
        (TDX_LEAF, tdx_signature()),
    ];
    assert_eq!(probe_on(&bare_metal), (CpuType::Sev, vec![VENDOR_LEAF, FEATURE_LEAF]));

    let other_hypervisor = [
        (VENDOR_LEAF, intel()),
        (FEATURE_LEAF, with_hypervisor()),
        (TDX_LEAF, spelling(b"KVMKVMKVM\0\0\0", 0)),
    ];
    assert_eq!(
        probe_on(&other_hypervisor),
        (CpuType::Sev, vec![VENDOR_LEAF, FEATURE_LEAF, TDX_LEAF])
    );
}

#[test]
fn resolve_with_takes_an_unavailable_leaf_for_a_failed_check() {
    assert_eq!(probe_on(&[]), (CpuType::Sev, vec![VENDOR_LEAF]));
    assert_eq!(
        probe_on(&[(VENDOR_LEAF, intel())]),
        (CpuType::Sev, vec![VENDOR_LEAF, FEATURE_LEAF])
    );
    assert_eq!(
        probe_on(&[(VENDOR_LEAF, intel()), (FEATURE_LEAF, with_hypervisor())]),
        (CpuType::Sev, vec![VENDOR_LEAF, FEATURE_LEAF, TDX_LEAF])
    );
    // Leaves that the resolver does not ask for change nothing.
    assert_eq!(
        probe_on(&[(TDX_LEAF, tdx_signature()), (FEATURE_LEAF, with_hypervisor())]),
        (CpuType::Sev, vec![VENDOR_LEAF])
    );
}

#[test]
fn resolve_with_agrees_with_the_resolver_driven_by_hand() {
    let vendors = [Some(intel()), Some(amd()), None];
    let features = [Some(with_hypervisor()), Some(without_hypervisor()), None];
    let signatures = [Some(tdx_signature()), Some(intel()), None];
    for vendor in vendors {
        for feature in features {
            for signature in signatures {
                let mut machine = Vec::new();
                if let Some(regs) = vendor {
                    machine.push((VENDOR_LEAF, regs));
                }
                if let Some(regs) = feature {
                    machine.push((FEATURE_LEAF, regs));
                }
                if let Some(regs) = signature {
                    machine.push((TDX_LEAF, regs));
                }
                assert_eq!(probe_on(&machine), resolve_on(&machine));
                let td = vendor == Some(intel())
                    && feature == Some(with_hypervisor())
                    && signature == Some(tdx_signature());
                assert_eq!(probe_on(&machine).0 == CpuType::Td, td);
            }
        }
    }
}

#[test]
fn signature_words_are_the_texts() {
    assert_eq!(intel().ebx, 0x756e_6547);
    assert_eq!(intel().edx, 0x4965_6e69);
    assert_eq!(intel().ecx, 0x6c65_746e);
    assert_eq!(tdx_signature().ebx, 0x6574_6e49);
    assert_eq!(tdx_signature().edx, 0x5844_546c);
    assert_eq!(tdx_signature().ecx, 0x2020_2020);
}

#[test]
fn checks_read_their_leaves_in_order() {
    assert_eq!(TdCheck::Vendor.leaf(), 0x0000_0000);
    assert_eq!(TdCheck::Hypervisor.leaf(), 0x0000_0001);
    assert_eq!(TdCheck::Signature.leaf(), 0x0000_0021);
    assert_eq!(TdCheck::Vendor.next(), Some(TdCheck::Hypervisor));
    assert_eq!(TdCheck::Hypervisor.next(), Some(TdCheck::Signature));
    assert_eq!(TdCheck::Signature.next(), None);
}

#[test]
fn vendor_check_wants_genuine_intel() {
    assert!(TdCheck::Vendor.passes(Some(intel())));
    assert!(!TdCheck::Vendor.passes(Some(amd())));
    assert!(!TdCheck::Vendor.passes(None));
    assert!(!TdCheck::Vendor.passes(Some(spelling(b"GenuineIntex", 0))));
    assert!(!TdCheck::Vendor.passes(Some(spelling(b"genuineIntel", 0))));
    assert!(!TdCheck::Vendor.passes(Some(spelling(b"GenuIneIntel", 0))));
    assert!(!TdCheck::Vendor.passes(Some(tdx_signature())));
    // The order of the registers is ebx, edx, ecx: swapping two breaks it.
    let mut swapped = intel();
    std::mem::swap(&mut swapped.ecx, &mut swapped.edx);
    assert!(!TdCheck::Vendor.passes(Some(swapped)));
    // eax is not part of the text.
    let mut other_eax = intel();
    other_eax.eax = 0xffff_ffff;
    assert!(TdCheck::Vendor.passes(Some(other_eax)));
}

#[test]
fn hypervisor_check_wants_the_top_bit_of_ecx() {
    assert!(TdCheck::Hypervisor.passes(Some(with_hypervisor())));
    assert!(!TdCheck::Hypervisor.passes(Some(without_hypervisor())));
    assert!(!TdCheck::Hypervisor.passes(None));
    let only = CpuidResult { eax: 0, ebx: 0, ecx: 0x8000_0000, edx: 0 };
    assert!(TdCheck::Hypervisor.passes(Some(only)));
    let elsewhere = CpuidResult { eax: !0, ebx: !0, ecx: 0, edx: !0 };
    assert!(!TdCheck::Hypervisor.passes(Some(elsewhere)));
}

#[test]
fn signature_check_wants_intel_tdx_and_four_spaces() {
    assert!(TdCheck::Signature.passes(Some(tdx_signature())));
    assert!(!TdCheck::Signature.passes(None));
    assert!(!TdCheck::Signature.passes(Some(intel())));
    assert!(!TdCheck::Signature.passes(Some(spelling(b"IntelTDX\0\0\0\0", 0))));
    assert!(!TdCheck::Signature.passes(Some(spelling(b"IntelTDX   \0", 0))));
    assert!(!TdCheck::Signature.passes(Some(spelling(b"intelTDX    ", 0))));
    assert!(!TdCheck::Signature.passes(Some(spelling(b"IntelTDY    ", 0))));
}

#[test]
fn resolver_walks_the_three_checks_to_tdx() {
    let state = Resolver::start();
    assert_eq!(state, Resolver::Resolving(TdCheck::Vendor));
    assert_eq!(state.pending_leaf(), Some(VENDOR_LEAF));
    assert_eq!(state.identity(), None);
    let state = state.advance(Some(intel()));
    assert_eq!(state, Resolver::Resolving(TdCheck::Hypervisor));
    assert_eq!(state.pending_leaf(), Some(FEATURE_LEAF));
    assert_eq!(state.identity(), None);
    let state = state.advance(Some(with_hypervisor()));
    assert_eq!(state, Resolver::Resolving(TdCheck::Signature));
    assert_eq!(state.pending_leaf(), Some(TDX_LEAF));
    assert_eq!(state.identity(), None);
    let state = state.advance(Some(tdx_signature()));
    assert_eq!(state, Resolver::Resolved(CpuType::Td));
    assert_eq!(state.pending_leaf(), None);
    assert_eq!(state.identity(), Some(CpuType::Td));
}

#[test]
fn a_machine_that_meets_all_checks_is_tdx() {
    let machine = [
        (VENDOR_LEAF, intel()),
        (FEATURE_LEAF, with_hypervisor()),
        (TDX_LEAF, tdx_signature()),
    ];
    assert_eq!(resolve_on(&machine), (CpuType::Td, vec![VENDOR_LEAF, FEATURE_LEAF, TDX_LEAF]));
}

#[test]
fn vendor_mismatch_is_sev_whatever_the_other_leaves_hold() {
    // Everything else says TDX; the vendor leaf alone decides.
    let machine = [
        (VENDOR_LEAF, amd()),
        (FEATURE_LEAF, with_hypervisor()),
        (TDX_LEAF, tdx_signature()),
    ];
    assert_eq!(resolve_on(&machine), (CpuType::Sev, vec![VENDOR_LEAF]));
    let machine = [(VENDOR_LEAF, amd())];
    assert_eq!(resolve_on(&machine), (CpuType::Sev, vec![VENDOR_LEAF]));
    let machine = [
        (VENDOR_LEAF, spelling(b"\0\0\0\0\0\0\0\0\0\0\0\0", 0)),
        (FEATURE_LEAF, without_hypervisor()),
        (TDX_LEAF, amd()),
    ];
    assert_eq!(resolve_on(&machine), (CpuType::Sev, vec![VENDOR_LEAF]));
    assert_eq!(
        Resolver::start().advance(Some(amd())),
        Resolver::Resolved(CpuType::Sev)
    );
}

#[test]
fn vendor_match_without_hypervisor_is_sev() {
    let machine = [
        (VENDOR_LEAF, intel()),
        (FEATURE_LEAF, without_hypervisor()),
        (TDX_LEAF, tdx_signature()),
    ];
    assert_eq!(resolve_on(&machine), (CpuType::Sev, vec![VENDOR_LEAF, FEATURE_LEAF]));
}

#[test]
fn signature_mismatch_is_sev() {
    let machine = [
        (VENDOR_LEAF, intel()),
        (FEATURE_LEAF, with_hypervisor()),
        (TDX_LEAF, spelling(b"KVMKVMKVM\0\0\0", 0)),
    ];
    assert_eq!(resolve_on(&machine), (CpuType::Sev, vec![VENDOR_LEAF, FEATURE_LEAF, TDX_LEAF]));
    // One register off is enough.
    for off in 0..3 {
        let mut signature = tdx_signature();
        match off {
            0 => signature.ebx ^= 1,
            1 => signature.edx ^= 0x0100_0000,
            _ => signature.ecx ^= 0x0000_8000,
        }
        let machine = [
            (VENDOR_LEAF, intel()),
            (FEATURE_LEAF, with_hypervisor()),
            (TDX_LEAF, signature),
        ];
        assert_eq!(resolve_on(&machine).0, CpuType::Sev);
    }
}

#[test]
fn an_unavailable_leaf_is_sev_at_every_step() {
    assert_eq!(resolve_on(&[]), (CpuType::Sev, vec![VENDOR_LEAF]));
    let machine = [(VENDOR_LEAF, intel())];
    assert_eq!(resolve_on(&machine), (CpuType::Sev, vec![VENDOR_LEAF, FEATURE_LEAF]));
    let machine = [(VENDOR_LEAF, intel()), (FEATURE_LEAF, with_hypervisor())];
    assert_eq!(resolve_on(&machine), (CpuType::Sev, vec![VENDOR_LEAF, FEATURE_LEAF, TDX_LEAF]));
}

#[test]
fn a_resolved_state_is_final() {
    for identity in [CpuType::Sev, CpuType::Td] {
        let state = Resolver::Resolved(identity);
        assert_eq!(state.pending_leaf(), None);
        assert_eq!(state.identity(), Some(identity));
        for answer in [None, Some(intel()), Some(amd()), Some(with_hypervisor()), Some(tdx_signature())] {
            assert_eq!(state.advance(answer), state);
        }
    }
}

#[test]
fn platform_identity_is_stable() {
    let mut cache = WriteOnce::new();
    assert!(!cache.is_set());
    let first = cpu_type(&mut cache);
    assert_eq!(cache.get(), Some(&first));
    for _ in 0..10 {
        assert_eq!(cpu_type(&mut cache), first);
        assert_eq!(is_sev(&mut cache), first == CpuType::Sev);
        assert_eq!(is_tdx(&mut cache), first == CpuType::Td);
    }
    assert_eq!(cache.get(), Some(&first));
}

#[test]
fn a_full_cache_answers_without_resolving() {
    // Whatever the processor under the test is, a cache that holds an
    // identity reports that identity.
    let mut td = WriteOnce::new();
    assert!(td.set(CpuType::Td).is_ok());
    assert_eq!(cpu_type(&mut td), CpuType::Td);
    assert!(is_tdx(&mut td));
    assert!(!is_sev(&mut td));
    assert_eq!(td.get(), Some(&CpuType::Td));

    let mut sev = WriteOnce::new();
    assert!(sev.set(CpuType::Sev).is_ok());
    assert_eq!(cpu_type(&mut sev), CpuType::Sev);
    assert!(is_sev(&mut sev));
    assert!(!is_tdx(&mut sev));
    assert_eq!(sev.get(), Some(&CpuType::Sev));
}

#[test]
fn predicates_fill_an_empty_cache() {
    let mut cache = WriteOnce::new();
    let sev = is_sev(&mut cache);
    assert!(cache.is_set());
    assert_eq!(is_tdx(&mut cache), !sev);
    assert_eq!(cpu_type(&mut cache) == CpuType::Sev, sev);
}

#[test]
fn raw_probe_always_answers() {
    for leaf in [0x0000_0000, 0x0000_0001, 0x0000_0007, 0x0000_0021, 0x4000_0001, 0x8000_0001, 0xffff_ffff] {
        assert!(cpuid(leaf).is_some(), "leaf {:#010x}", leaf);
    }
}

#[test]
fn raw_probe_answers_and_drives_the_resolver() {
    let vendor = cpuid(VENDOR_LEAF);
    assert!(vendor.is_some());
    // The processor's own answers, put through the resolver by hand, give
    // what the library's driver gives.
    let mut state = Resolver::start();
    while let Some(leaf) = state.pending_leaf() {
        state = state.advance(cpuid(leaf));
    }
    let by_hand = state.identity().unwrap();
    assert_eq!(is_td_cpu(), by_hand == CpuType::Td);
    assert_eq!(get_cpu_type(), by_hand);
    assert_eq!(resolve_with(cpuid), by_hand);
}
