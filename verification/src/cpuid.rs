//! The raw probe and the table of identification results that the guest may
//! trust.

use vstd::pervasive::unreached;
use vstd::prelude::*;
use crate::once::WriteOnce;

verus! {

/// The number of entries that a table has room for.
pub const SNP_CPUID_MAX_COUNT: usize = 64;

/// The four registers that one identification query reports.
#[derive(Clone, Copy, Debug, PartialEq, Eq, Structural)]
pub struct CpuidResult {
    pub eax: u32,
    pub ebx: u32,
    pub ecx: u32,
    pub edx: u32,
}

/// One identification query: the leaf, the sub-leaf, and the two masks of
/// enabled extended state under which the question is asked. The same leaf
/// and sub-leaf may have different answers under different masks.
#[derive(Clone, Copy, Debug, PartialEq, Eq, Structural)]
pub struct CpuidLeaf {
    pub cpuid_fn: u32,
    pub cpuid_subfn: u32,
    pub xcr0: u64,
    pub xss: u64,
}

impl CpuidLeaf {
    /// The query for `cpuid_fn` and `cpuid_subfn` with no extended state
    /// enabled.
    pub fn new(cpuid_fn: u32, cpuid_subfn: u32) -> (leaf: CpuidLeaf)
        ensures
            leaf == (CpuidLeaf { cpuid_fn, cpuid_subfn, xcr0: 0, xss: 0 }),
    {
        CpuidLeaf { cpuid_fn, cpuid_subfn, xcr0: 0, xss: 0 }
    }
}

/// One entry of the table: a query and the registers that answer it.
#[derive(Clone, Copy, Debug, Default, PartialEq, Eq, Structural)]
pub struct SnpCpuidFn {
    pub eax_in: u32,
    pub ecx_in: u32,
    pub xcr0_in: u64,
    pub xss_in: u64,
    pub eax_out: u32,
    pub ebx_out: u32,
    pub ecx_out: u32,
    pub edx_out: u32,
}

impl SnpCpuidFn {
    /// The query that the entry answers.
    pub open spec fn spec_leaf(&self) -> CpuidLeaf {
        CpuidLeaf {
            cpuid_fn: self.eax_in,
            cpuid_subfn: self.ecx_in,
            xcr0: self.xcr0_in,
            xss: self.xss_in,
        }
    }

    /// The registers that the entry answers with.
    pub open spec fn spec_result(&self) -> CpuidResult {
        CpuidResult {
            eax: self.eax_out,
            ebx: self.ebx_out,
            ecx: self.ecx_out,
            edx: self.edx_out,
        }
    }

    /// The query that the entry answers.
    #[verifier::when_used_as_spec(spec_leaf)]
    pub fn leaf(&self) -> (leaf: CpuidLeaf)
        ensures
            leaf == self.spec_leaf(),
    {
        CpuidLeaf {
            cpuid_fn: self.eax_in,
            cpuid_subfn: self.ecx_in,
            xcr0: self.xcr0_in,
            xss: self.xss_in,
        }
    }

    /// The registers that the entry answers with.
    #[verifier::when_used_as_spec(spec_result)]
    pub fn result(&self) -> (result: CpuidResult)
        ensures
            result == self.spec_result(),
    {
        CpuidResult {
            eax: self.eax_out,
            ebx: self.ebx_out,
            ecx: self.ecx_out,
            edx: self.edx_out,
        }
    }
}

/// The table as the launch firmware lays it out: room for
/// `SNP_CPUID_MAX_COUNT` entries, of which the first `count` are in use.
///
/// The view is the sequence of the entries in use.
#[derive(Clone, Copy, Debug)]
pub struct SnpCpuidTable {
    pub count: u32,
    pub func: [SnpCpuidFn; SNP_CPUID_MAX_COUNT],
}

impl View for SnpCpuidTable {
    type V = Seq<SnpCpuidFn>;

    open spec fn view(&self) -> Seq<SnpCpuidFn> {
        self.func@.take(self.count as int)
    }
}

impl SnpCpuidTable {
    /// Whether the count is one that the table has room for.
    pub open spec fn well_formed(&self) -> bool {
        self.count <= SNP_CPUID_MAX_COUNT
    }
}

/// Whether `index` is the place of the first entry of `entries` that answers
/// `leaf`.
pub open spec fn is_first_match(entries: Seq<SnpCpuidFn>, leaf: CpuidLeaf, index: int) -> bool {
    &&& 0 <= index < entries.len()
    &&& entries[index].spec_leaf() == leaf
    &&& forall|earlier: int| 0 <= earlier < index ==> entries[earlier].spec_leaf() != leaf
}

/// The answer of `entries` to `leaf`: the registers of the first entry whose
/// query equals `leaf` in all four fields, and nothing where no entry does.
pub open spec fn lookup(entries: Seq<SnpCpuidFn>, leaf: CpuidLeaf) -> Option<CpuidResult> {
    if exists|index: int| is_first_match(entries, leaf, index) {
        Some(entries[choose|index: int| is_first_match(entries, leaf, index)].spec_result())
    } else {
        None
    }
}

/// At most one place is that of the first match.
pub proof fn lemma_first_match_unique(
    entries: Seq<SnpCpuidFn>,
    leaf: CpuidLeaf,
    index: int,
    other: int,
)
    requires
        is_first_match(entries, leaf, index),
        is_first_match(entries, leaf, other),
    ensures
        index == other,
{
}

/// A table answers with the registers of its first matching entry.
pub proof fn lemma_lookup_first_match(entries: Seq<SnpCpuidFn>, leaf: CpuidLeaf, index: int)
    requires
        is_first_match(entries, leaf, index),
    ensures
        lookup(entries, leaf) == Some(entries[index].spec_result()),
{
    let chosen = choose|index: int| is_first_match(entries, leaf, index);
    lemma_first_match_unique(entries, leaf, index, chosen);
}

/// A table answers with nothing that it does not hold: whatever a lookup
/// returns are the registers of an entry of the table whose query is the one
/// that was asked.
pub proof fn lemma_lookup_from_table(entries: Seq<SnpCpuidFn>, leaf: CpuidLeaf)
    requires
        lookup(entries, leaf) is Some,
    ensures
        exists|index: int|
            0 <= index < entries.len() && entries[index].spec_leaf() == leaf
                && #[trigger] entries[index].spec_result() == lookup(entries, leaf)->0,
{
    let chosen = choose|index: int| is_first_match(entries, leaf, index);
    assert(entries[chosen].spec_result() == lookup(entries, leaf)->0);
}

/// A table answers nothing exactly to the queries that none of its entries
/// holds.
pub proof fn lemma_lookup_absent(entries: Seq<SnpCpuidFn>, leaf: CpuidLeaf)
    ensures
        lookup(entries, leaf) is None <==> forall|index: int|
            0 <= index < entries.len() ==> entries[index].spec_leaf() != leaf,
{
    if exists|index: int| 0 <= index < entries.len() && entries[index].spec_leaf() == leaf {
        let place = choose|index: int|
            0 <= index < entries.len() && entries[index].spec_leaf() == leaf;
        lemma_some_first_match(entries, leaf, place);
    }
}

/// Where some entry up to `bound` answers `leaf`, there is a first one.
proof fn lemma_some_first_match(entries: Seq<SnpCpuidFn>, leaf: CpuidLeaf, bound: int)
    requires
        0 <= bound < entries.len(),
        entries[bound].spec_leaf() == leaf,
    ensures
        exists|index: int| is_first_match(entries, leaf, index),
    decreases bound,
{
    if exists|earlier: int| 0 <= earlier < bound && entries[earlier].spec_leaf() == leaf {
        let earlier = choose|earlier: int|
            0 <= earlier < bound && entries[earlier].spec_leaf() == leaf;
        lemma_some_first_match(entries, leaf, earlier);
    } else {
        assert(is_first_match(entries, leaf, bound));
    }
}

/// Whether no two entries hold the same query.
pub open spec fn distinct_leaves(entries: Seq<SnpCpuidFn>) -> bool {
    forall|i: int, j: int|
        0 <= i < j < entries.len() ==> entries[i].spec_leaf() != entries[j].spec_leaf()
}

/// In a table with distinct queries, each entry is the answer to its own
/// query, wherever it stands.
pub proof fn lemma_lookup_own_leaf(entries: Seq<SnpCpuidFn>, index: int)
    requires
        distinct_leaves(entries),
        0 <= index < entries.len(),
    ensures
        lookup(entries, entries[index].spec_leaf()) == Some(entries[index].spec_result()),
{
    assert(is_first_match(entries, entries[index].spec_leaf(), index));
    lemma_lookup_first_match(entries, entries[index].spec_leaf(), index);
}

/// The masks tell entries apart: two entries of a table with distinct
/// queries that share leaf and sub-leaf differ in a mask, and each is the
/// answer under its own masks.
pub proof fn lemma_lookup_by_masks(entries: Seq<SnpCpuidFn>, i: int, j: int)
    requires
        distinct_leaves(entries),
        0 <= i < entries.len(),
        0 <= j < entries.len(),
        i != j,
        entries[i].eax_in == entries[j].eax_in,
        entries[i].ecx_in == entries[j].ecx_in,
    ensures
        entries[i].xcr0_in != entries[j].xcr0_in || entries[i].xss_in != entries[j].xss_in,
        lookup(entries, entries[i].spec_leaf()) == Some(entries[i].spec_result()),
        lookup(entries, entries[j].spec_leaf()) == Some(entries[j].spec_result()),
{
    lemma_lookup_own_leaf(entries, i);
    lemma_lookup_own_leaf(entries, j);
}

/// Why a table was not registered.
#[derive(Clone, Copy, Debug, PartialEq, Eq, Structural)]
pub enum RegisterError {
    /// The table claims more entries than it has room for.
    InvalidCount,
}

/// The place of the one table that the guest trusts: empty when made, filled
/// by `register_cpuid_table`, and never changed after that. No function
/// takes a full page for writing.
///
/// The view is `None` while no table is registered, and from then on the
/// entries in use of the table that is.
pub struct CpuidPage<'a> {
    table: WriteOnce<&'a SnpCpuidTable>,
}

impl<'a> View for CpuidPage<'a> {
    type V = Option<Seq<SnpCpuidFn>>;

    closed spec fn view(&self) -> Option<Seq<SnpCpuidFn>> {
        match self.table@ {
            Some(table) => Some(table@),
            None => None,
        }
    }
}

impl<'a> CpuidPage<'a> {
    #[verifier::type_invariant]
    spec fn registered_table_is_well_formed(self) -> bool {
        self.table@ matches Some(table) ==> table.well_formed()
    }

    /// A page with no table registered.
    pub fn uninit() -> (page: CpuidPage<'a>)
        ensures
            page@ is None,
    {
        CpuidPage { table: WriteOnce::new() }
    }

    /// Whether a table is registered.
    pub fn is_init(&self) -> (init: bool)
        ensures
            init == (self@ is Some),
    {
        self.table.is_set()
    }
}

/// What registering `table` leaves in an empty page: the entries in use of
/// a well-formed table, and nothing of one whose count exceeds its room.
pub open spec fn page_after_register(table: SnpCpuidTable) -> Option<Seq<SnpCpuidFn>> {
    if table.well_formed() {
        Some(table@)
    } else {
        None
    }
}

/// Registers `table` as the table that the guest trusts. A table whose count
/// exceeds its room is rejected and the page stays empty.
///
/// A page takes one table: the page must be empty when this is called, and a
/// successful call leaves it full for good.
pub fn register_cpuid_table<'a>(page: &mut CpuidPage<'a>, table: &'a SnpCpuidTable) -> (outcome:
    Result<(), RegisterError>)
    requires
        old(page)@ is None,
    ensures
        outcome == (if table.well_formed() {
            Ok::<(), RegisterError>(())
        } else {
            Err::<(), RegisterError>(RegisterError::InvalidCount)
        }),
        final(page)@ == page_after_register(*table),
{
    if table.count as usize > SNP_CPUID_MAX_COUNT {
        return Err(RegisterError::InvalidCount);
    }
    match page.table.set(table) {
        Ok(()) => Ok(()),
        Err(_) => unreached(),
    }
}

/// A page is registered once: a successful registration leaves the page
/// full, so that no further registration can be made on it, and what it
/// holds are the entries in use of the table that was registered.
pub proof fn lemma_register_once(table: SnpCpuidTable)
    requires
        table.well_formed(),
    ensures
        page_after_register(table) is Some,
        page_after_register(table) == Some(table@),
{
}

/// Looks `(eax, ecx, xcr0, xss)` up in the registered table: the registers of
/// the first entry that holds exactly this query, or nothing.
pub fn cpuid_table_raw(page: &CpuidPage, eax: u32, ecx: u32, xcr0: u64, xss: u64) -> (result:
    Option<CpuidResult>)
    requires
        page@ is Some,
    ensures
        result == lookup(
            page@->0,
            (CpuidLeaf { cpuid_fn: eax, cpuid_subfn: ecx, xcr0: xcr0, xss: xss }),
        ),
{
    proof {
        use_type_invariant(page);
    }
    let table: &SnpCpuidTable = *page.table.get().unwrap();
    let leaf = CpuidLeaf { cpuid_fn: eax, cpuid_subfn: ecx, xcr0: xcr0, xss: xss };
    let count: usize = table.count as usize;
    let mut i: usize = 0;
    while i < count
        invariant
            i <= count,
            count == table.count,
            table.well_formed(),
            page@ == Some(table@),
            leaf == (CpuidLeaf { cpuid_fn: eax, cpuid_subfn: ecx, xcr0: xcr0, xss: xss }),
            forall|earlier: int| 0 <= earlier < i ==> table@[earlier].spec_leaf() != leaf,
        decreases count - i,
    {
        let entry: &SnpCpuidFn = &table.func[i];
        assert(*entry == table@[i as int]);
        if entry.leaf() == leaf {
            proof {
                assert(is_first_match(table@, leaf, i as int));
                lemma_lookup_first_match(table@, leaf, i as int);
            }
            return Some(entry.result());
        }
        i += 1;
    }
    proof {
        lemma_lookup_absent(table@, leaf);
    }
    None
}

/// Looks leaf `eax` up in the registered table, for sub-leaf zero and with no
/// extended state enabled.
pub fn cpuid_table(page: &CpuidPage, eax: u32) -> (result: Option<CpuidResult>)
    requires
        page@ is Some,
    ensures
        result == lookup(page@->0, (CpuidLeaf { cpuid_fn: eax, cpuid_subfn: 0, xcr0: 0, xss: 0 })),
{
    cpuid_table_raw(page, eax, 0, 0, 0)
}

/// The entries in use of the registered table, in table order, for a caller
/// that wants to log them.
pub fn dump_cpuid_table(page: &CpuidPage) -> (entries: Vec<SnpCpuidFn>)
    requires
        page@ is Some,
    ensures
        entries@ == page@->0,
{
    proof {
        use_type_invariant(page);
    }
    let table: &SnpCpuidTable = *page.table.get().unwrap();
    let count: usize = table.count as usize;
    let mut entries: Vec<SnpCpuidFn> = Vec::new();
    let mut i: usize = 0;
    while i < count
        invariant
            i <= count,
            count == table.count,
            table.well_formed(),
            entries@ == table@.take(i as int),
        decreases count - i,
    {
        entries.push(table.func[i]);
        i += 1;
    }
    entries
}

/// Executes the CPUID instruction for leaf `eax` (sub-leaf zero) through
/// `core::arch::x86_64::__cpuid` and copies the four registers it reports.
///
/// The instruction always reports four registers, so a result always comes
/// back. Which registers is not promised: they are whatever the processor,
/// or a hypervisor that intercepts the instruction, chooses to answer, and
/// two calls need not agree.
#[verifier::external_body]
pub fn cpuid(eax: u32) -> (result: Option<CpuidResult>)
    ensures
        result is Some,
{
    let regs = core::arch::x86_64::__cpuid(eax);
    Some(CpuidResult { eax: regs.eax, ebx: regs.ebx, ecx: regs.ecx, edx: regs.edx })
}

} // verus!
