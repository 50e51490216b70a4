use svsm_cpu::cpuid::cpuid_table;
use svsm_cpu::cpuid::cpuid_table_raw;
use svsm_cpu::cpuid::dump_cpuid_table;
use svsm_cpu::cpuid::register_cpuid_table;
use svsm_cpu::cpuid::CpuidLeaf;
use svsm_cpu::cpuid::CpuidPage;
use svsm_cpu::cpuid::CpuidResult;
use svsm_cpu::cpuid::RegisterError;
use svsm_cpu::cpuid::SnpCpuidFn;
use svsm_cpu::cpuid::SnpCpuidTable;
use svsm_cpu::cpuid::SNP_CPUID_MAX_COUNT;

fn entry(key: (u32, u32, u64, u64), out: (u32, u32, u32, u32)) -> SnpCpuidFn {
    SnpCpuidFn {
        eax_in: key.0,
        ecx_in: key.1,
        xcr0_in: key.2,
        xss_in: key.3,
        eax_out: out.0,
        ebx_out: out.1,
        ecx_out: out.2,
        edx_out: out.3,
    }
}

fn table_of(entries: &[SnpCpuidFn]) -> SnpCpuidTable {
    let mut func = [SnpCpuidFn::default(); SNP_CPUID_MAX_COUNT];
    for (slot, entry) in func.iter_mut().zip(entries.iter()) {
        *slot = *entry;
    }
    SnpCpuidTable { count: entries.len() as u32, func }
}

fn regs(eax: u32, ebx: u32, ecx: u32, edx: u32) -> CpuidResult {
    CpuidResult { eax, ebx, ecx, edx }
}

#[test]
fn lookup_returns_the_registers_of_the_matching_entry() {
    let table = table_of(&[
        entry((0x0000_0000, 0, 0, 0), (0x10, 0x11, 0x12, 0x13)),
        entry((0x0000_0001, 0, 0, 0), (0x20, 0x21, 0x22, 0x23)),
        entry((0x8000_0001, 0, 0, 0), (0x30, 0x31, 0x32, 0x33)),
    ]);
    let mut page = CpuidPage::uninit();
    assert_eq!(register_cpuid_table(&mut page, &table), Ok(()));
    assert_eq!(cpuid_table_raw(&page, 0x0000_0000, 0, 0, 0), Some(regs(0x10, 0x11, 0x12, 0x13)));
    assert_eq!(cpuid_table_raw(&page, 0x0000_0001, 0, 0, 0), Some(regs(0x20, 0x21, 0x22, 0x23)));
    assert_eq!(cpuid_table_raw(&page, 0x8000_0001, 0, 0, 0), Some(regs(0x30, 0x31, 0x32, 0x33)));
}

#[test]
fn lookup_returns_nothing_for_an_absent_query() {
    let table = table_of(&[entry((0x0000_0001, 2, 3, 4), (1, 2, 3, 4))]);
    let mut page = CpuidPage::uninit();
    assert_eq!(register_cpuid_table(&mut page, &table), Ok(()));
    assert_eq!(cpuid_table_raw(&page, 0x0000_0001, 2, 3, 4), Some(regs(1, 2, 3, 4)));
    assert_eq!(cpuid_table_raw(&page, 0x0000_0002, 2, 3, 4), None);
    assert_eq!(cpuid_table_raw(&page, 0x0000_0001, 1, 3, 4), None);
    assert_eq!(cpuid_table_raw(&page, 0x0000_0001, 2, 0, 4), None);
    assert_eq!(cpuid_table_raw(&page, 0x0000_0001, 2, 3, 5), None);
    assert_eq!(cpuid_table_raw(&page, 0, 0, 0, 0), None);
}

#[test]
fn lookup_tells_entries_apart_by_their_masks() {
    let table = table_of(&[
        entry((0x0000_000d, 1, 0x3, 0x0), (1, 2, 3, 4)),
        entry((0x0000_000d, 1, 0x7, 0x0), (5, 6, 7, 8)),
        entry((0x0000_000d, 1, 0x7, 0x100), (9, 10, 11, 12)),
    ]);
    let mut page = CpuidPage::uninit();
    assert_eq!(register_cpuid_table(&mut page, &table), Ok(()));
    assert_eq!(cpuid_table_raw(&page, 0xd, 1, 0x3, 0x0), Some(regs(1, 2, 3, 4)));
    assert_eq!(cpuid_table_raw(&page, 0xd, 1, 0x7, 0x0), Some(regs(5, 6, 7, 8)));
    assert_eq!(cpuid_table_raw(&page, 0xd, 1, 0x7, 0x100), Some(regs(9, 10, 11, 12)));
    assert_eq!(cpuid_table_raw(&page, 0xd, 1, 0x1, 0x0), None);
    assert_eq!(cpuid_table_raw(&page, 0xd, 1, 0x3, 0x100), None);
}

#[test]
fn lookup_takes_the_first_of_two_entries_with_one_query() {
    let table = table_of(&[
        entry((7, 0, 0, 0), (1, 1, 1, 1)),
        entry((7, 0, 0, 0), (2, 2, 2, 2)),
    ]);
    let mut page = CpuidPage::uninit();
    assert_eq!(register_cpuid_table(&mut page, &table), Ok(()));
    assert_eq!(cpuid_table_raw(&page, 7, 0, 0, 0), Some(regs(1, 1, 1, 1)));
}

#[test]
fn lookup_does_not_read_past_the_count() {
    let mut table = table_of(&[
        entry((1, 0, 0, 0), (1, 2, 3, 4)),
        entry((2, 0, 0, 0), (5, 6, 7, 8)),
    ]);
    table.count = 1;
    let mut page = CpuidPage::uninit();
    assert_eq!(register_cpuid_table(&mut page, &table), Ok(()));
    assert_eq!(cpuid_table_raw(&page, 1, 0, 0, 0), Some(regs(1, 2, 3, 4)));
    assert_eq!(cpuid_table_raw(&page, 2, 0, 0, 0), None);
}

#[test]
fn lookup_in_an_empty_table_finds_nothing() {
    let table = table_of(&[]);
    let mut page = CpuidPage::uninit();
    assert_eq!(register_cpuid_table(&mut page, &table), Ok(()));
    // The unused slots are all zero; a query of all zeros must not match one.
    assert_eq!(cpuid_table_raw(&page, 0, 0, 0, 0), None);
    assert_eq!(cpuid_table(&page, 0), None);
}

#[test]
fn lookup_reaches_the_last_slot_of_a_full_table() {
    let mut entries = Vec::new();
    for i in 0..SNP_CPUID_MAX_COUNT as u32 {
        entries.push(entry((i, i + 1, 0, 0), (i, i * 2, i * 3, i * 4)));
    }
    let table = table_of(&entries);
    assert_eq!(table.count, 64);
    let mut page = CpuidPage::uninit();
    assert_eq!(register_cpuid_table(&mut page, &table), Ok(()));
    assert_eq!(cpuid_table_raw(&page, 63, 64, 0, 0), Some(regs(63, 126, 189, 252)));
    assert_eq!(cpuid_table_raw(&page, 0, 1, 0, 0), Some(regs(0, 0, 0, 0)));
    assert_eq!(cpuid_table_raw(&page, 64, 65, 0, 0), None);
}

#[test]
fn cpuid_table_asks_for_sub_leaf_zero_and_no_extended_state() {
    let table = table_of(&[
        entry((0x0000_0007, 1, 0, 0), (1, 1, 1, 1)),
        entry((0x0000_0007, 0, 0x3, 0), (2, 2, 2, 2)),
        entry((0x0000_0007, 0, 0, 0x1), (3, 3, 3, 3)),
        entry((0x0000_0007, 0, 0, 0), (4, 4, 4, 4)),
    ]);
    let mut page = CpuidPage::uninit();
    assert_eq!(register_cpuid_table(&mut page, &table), Ok(()));
    assert_eq!(cpuid_table(&page, 0x0000_0007), Some(regs(4, 4, 4, 4)));
    assert_eq!(cpuid_table(&page, 0x0000_0007), cpuid_table_raw(&page, 0x0000_0007, 0, 0, 0));
    assert_eq!(cpuid_table(&page, 0x0000_0008), None);
}

#[test]
fn a_registered_page_is_full_and_answers_from_its_table() {
    let table = table_of(&[entry((1, 0, 0, 0), (1, 2, 3, 4))]);
    let mut page = CpuidPage::uninit();
    assert!(!page.is_init());
    assert_eq!(register_cpuid_table(&mut page, &table), Ok(()));
    // A full page is what bars every further registration.
    assert!(page.is_init());
    assert_eq!(cpuid_table_raw(&page, 1, 0, 0, 0), Some(regs(1, 2, 3, 4)));
    assert!(page.is_init());
}

#[test]
fn registration_rejects_a_count_beyond_the_room() {
    let mut bad = table_of(&[entry((1, 0, 0, 0), (1, 2, 3, 4))]);
    bad.count = 65;
    let mut page = CpuidPage::uninit();
    assert_eq!(register_cpuid_table(&mut page, &bad), Err(RegisterError::InvalidCount));
    assert!(!page.is_init());
    bad.count = u32::MAX;
    let mut page = CpuidPage::uninit();
    assert_eq!(register_cpuid_table(&mut page, &bad), Err(RegisterError::InvalidCount));
    assert!(!page.is_init());
    // A rejected table does not use up the one registration.
    let good = table_of(&[entry((1, 0, 0, 0), (1, 2, 3, 4))]);
    assert_eq!(register_cpuid_table(&mut page, &good), Ok(()));
    assert_eq!(cpuid_table(&page, 1), Some(regs(1, 2, 3, 4)));
}

#[test]
fn dump_gives_the_entries_in_use_in_table_order() {
    let entries = [
        entry((3, 0, 0, 0), (1, 2, 3, 4)),
        entry((1, 0, 7, 0), (5, 6, 7, 8)),
        entry((2, 9, 0, 1), (9, 10, 11, 12)),
    ];
    let table = table_of(&entries);
    let mut page = CpuidPage::uninit();
    assert_eq!(register_cpuid_table(&mut page, &table), Ok(()));
    assert_eq!(dump_cpuid_table(&page), entries.to_vec());

    let empty = table_of(&[]);
    let mut page = CpuidPage::uninit();
    assert_eq!(register_cpuid_table(&mut page, &empty), Ok(()));
    assert_eq!(dump_cpuid_table(&page), Vec::new());
}

#[test]
fn new_leaf_has_no_extended_state() {
    let leaf = CpuidLeaf::new(0x8000_0001, 3);
    assert_eq!(leaf, CpuidLeaf { cpuid_fn: 0x8000_0001, cpuid_subfn: 3, xcr0: 0, xss: 0 });
}

#[test]
fn entry_splits_into_query_and_registers() {
    let e = entry((0xd, 1, 0x7, 0x100), (9, 10, 11, 12));
    assert_eq!(e.leaf(), CpuidLeaf { cpuid_fn: 0xd, cpuid_subfn: 1, xcr0: 0x7, xss: 0x100 });
    assert_eq!(e.result(), regs(9, 10, 11, 12));
}
