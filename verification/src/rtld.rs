//! Self-relocation of a module loaded at a random base address.
//!
//! The caller reads the module's dynamic table (until its `DT_NULL` entry)
//! and hands its entries to `parse_dynamic`, which finds the relocation
//! tables. For each entry of those tables, `rel_patch` and `rela_patch`
//! tell which word to patch and how: a relative relocation without addend
//! adds the base to the word, one with addend sets the word to the base
//! plus the addend.

use vstd::prelude::*;

verus! {

pub const DT_NULL: i64 = 0;
pub const DT_RELA: i64 = 7;
pub const DT_RELASZ: i64 = 8;
pub const DT_RELAENT: i64 = 9;
pub const DT_REL: i64 = 17;
pub const DT_RELSZ: i64 = 18;
pub const DT_RELENT: i64 = 19;
pub const DT_RELACOUNT: i64 = 0x6fff_fff9;
pub const DT_RELCOUNT: i64 = 0x6fff_fffa;

/// The relocation type that adds the module's base address to a word.
pub const R_AARCH64_RELATIVE: u32 = 1027;

/// Size of an ELF64 relocation entry without addend.
pub const REL64_SIZE: u64 = 16;

/// Size of an ELF64 relocation entry with addend.
pub const RELA64_SIZE: u64 = 24;

/// An entry of the dynamic table.
#[derive(Debug, Copy, Clone, PartialEq, Eq, Structural)]
pub struct DynamicEntry {
    pub tag: i64,
    pub val: u64,
}

/// Where the relocation tables are and how many entries they hold.
#[derive(Debug, Copy, Clone, PartialEq, Eq, Structural)]
pub struct RelocationTables {
    pub rela: u64,
    pub rel: u64,
    pub rela_entry_size: u64,
    pub rel_entry_size: u64,
    pub rela_entry_count: u64,
    pub rel_entry_count: u64,
    pub rela_size: u64,
    pub rel_size: u64,
}

/// The tables before any dynamic entry is read.
pub open spec fn initial_tables() -> RelocationTables {
    RelocationTables {
        rela: 0,
        rel: 0,
        rela_entry_size: RELA64_SIZE,
        rel_entry_size: REL64_SIZE,
        rela_entry_count: 0,
        rel_entry_count: 0,
        rela_size: 0,
        rel_size: 0,
    }
}

/// The tables after reading one dynamic entry; a later entry of a kind
/// replaces an earlier one, and other kinds are ignored.
pub open spec fn apply_entry(t: RelocationTables, base: u64, e: DynamicEntry) -> RelocationTables {
    if e.tag == DT_RELA {
        RelocationTables { rela: (base + e.val) as u64, ..t }
    } else if e.tag == DT_RELAENT {
        RelocationTables { rela_entry_size: e.val, ..t }
    } else if e.tag == DT_RELASZ {
        RelocationTables { rela_size: e.val, ..t }
    } else if e.tag == DT_REL {
        RelocationTables { rel: (base + e.val) as u64, ..t }
    } else if e.tag == DT_RELENT {
        RelocationTables { rel_entry_size: e.val, ..t }
    } else if e.tag == DT_RELSZ {
        RelocationTables { rel_size: e.val, ..t }
    } else if e.tag == DT_RELACOUNT {
        RelocationTables { rela_entry_count: e.val, ..t }
    } else if e.tag == DT_RELCOUNT {
        RelocationTables { rel_entry_count: e.val, ..t }
    } else {
        t
    }
}

/// The tables after reading the first `n` dynamic entries.
pub open spec fn scan(base: u64, entries: Seq<DynamicEntry>, n: nat) -> RelocationTables
    decreases n,
{
    if n == 0 {
        initial_tables()
    } else {
        apply_entry(scan(base, entries, (n - 1) as nat), base, entries[n - 1])
    }
}

/// The number of entries before the first `DT_NULL` one (all of them when there is none).
pub open spec fn table_length(entries: Seq<DynamicEntry>) -> nat
    decreases entries.len(),
{
    if entries.len() == 0 {
        0
    } else if entries[0].tag == DT_NULL {
        0
    } else {
        1 + table_length(entries.drop_first())
    }
}

/// A missing entry count is computed from the table's size and entry size.
pub open spec fn finish_tables(t: RelocationTables) -> RelocationTables {
    RelocationTables {
        rela_entry_count: if t.rela_entry_count == 0 {
            t.rela_size / t.rela_entry_size
        } else {
            t.rela_entry_count
        },
        rel_entry_count: if t.rel_entry_count == 0 {
            t.rel_size / t.rel_entry_size
        } else {
            t.rel_entry_count
        },
        ..t
    }
}

/// Whether the dynamic table can be read: the table addresses fit the
/// address space, and an entry count left out comes with a non-zero entry size.
pub open spec fn dynamic_readable(base: u64, entries: Seq<DynamicEntry>) -> bool {
    let n = table_length(entries);
    &&& forall|i: int|
        0 <= i < n ==> ((#[trigger] entries[i]).tag == DT_RELA || entries[i].tag == DT_REL) ==> base
            + entries[i].val <= u64::MAX
    &&& (scan(base, entries, n).rela_entry_count == 0 ==> scan(base, entries, n).rela_entry_size != 0)
    &&& (scan(base, entries, n).rel_entry_count == 0 ==> scan(base, entries, n).rel_entry_size != 0)
}

proof fn lemma_table_length(entries: Seq<DynamicEntry>)
    ensures
        table_length(entries) <= entries.len(),
        forall|i: int| 0 <= i < table_length(entries) ==> (#[trigger] entries[i]).tag != DT_NULL,
        table_length(entries) < entries.len() ==> entries[table_length(entries) as int].tag == DT_NULL,
    decreases entries.len(),
{
    if entries.len() > 0 && entries[0].tag != DT_NULL {
        lemma_table_length(entries.drop_first());
        assert forall|i: int| 0 <= i < table_length(entries) implies (#[trigger] entries[i]).tag != DT_NULL by {
            if i > 0 {
                assert(entries[i] == entries.drop_first()[i - 1]);
            }
        }
    }
}

/// Reads the dynamic table of a module loaded at `aslr_base`: the entries
/// up to the first `DT_NULL` give the relocation tables' addresses (relative
/// to the base), sizes, entry sizes and entry counts.
pub fn parse_dynamic(aslr_base: u64, entries: &[DynamicEntry]) -> (r: RelocationTables)
    requires
        dynamic_readable(aslr_base, entries@),
    ensures
        r == finish_tables(scan(aslr_base, entries@, table_length(entries@))),
{
    proof {
        lemma_table_length(entries@);
    }
    let mut t = RelocationTables {
        rela: 0,
        rel: 0,
        rela_entry_size: RELA64_SIZE,
        rel_entry_size: REL64_SIZE,
        rela_entry_count: 0,
        rel_entry_count: 0,
        rela_size: 0,
        rel_size: 0,
    };
    let mut i: usize = 0;
    while i < entries.len()
        invariant
            i <= table_length(entries@),
            table_length(entries@) <= entries@.len(),
            forall|k: int| 0 <= k < table_length(entries@) ==> (#[trigger] entries@[k]).tag != DT_NULL,
            table_length(entries@) < entries@.len() ==> entries@[table_length(entries@) as int].tag == DT_NULL,
            dynamic_readable(aslr_base, entries@),
            t == scan(aslr_base, entries@, i as nat),
        ensures
            i == table_length(entries@),
            t == scan(aslr_base, entries@, i as nat),
        decreases entries@.len() - i,
    {
        let e = entries[i];
        if e.tag == DT_NULL {
            break;
        }
        assert(e == entries@[i as int]);
        if e.tag == DT_RELA {
            t.rela = aslr_base + e.val;
        } else if e.tag == DT_RELAENT {
            t.rela_entry_size = e.val;
        } else if e.tag == DT_RELASZ {
            t.rela_size = e.val;
        } else if e.tag == DT_REL {
            t.rel = aslr_base + e.val;
        } else if e.tag == DT_RELENT {
            t.rel_entry_size = e.val;
        } else if e.tag == DT_RELSZ {
            t.rel_size = e.val;
        } else if e.tag == DT_RELACOUNT {
            t.rela_entry_count = e.val;
        } else if e.tag == DT_RELCOUNT {
            t.rel_entry_count = e.val;
        }
        i = i + 1;
    }
    assert(i == table_length(entries@));
    if t.rela_entry_count == 0 {
        t.rela_entry_count = t.rela_size / t.rela_entry_size;
    }
    if t.rel_entry_count == 0 {
        t.rel_entry_count = t.rel_size / t.rel_entry_size;
    }
    t
}

/// Whether `parse_dynamic` can read the dynamic table of a module loaded at
/// `aslr_base`: the table addresses fit the address space, and a missing
/// entry count comes with a non-zero entry size.
pub fn is_dynamic_readable(aslr_base: u64, entries: &[DynamicEntry]) -> (r: bool)
    ensures
        r == dynamic_readable(aslr_base, entries@),
{
    proof {
        lemma_table_length(entries@);
    }
    let mut t = RelocationTables {
        rela: 0,
        rel: 0,
        rela_entry_size: RELA64_SIZE,
        rel_entry_size: REL64_SIZE,
        rela_entry_count: 0,
        rel_entry_count: 0,
        rela_size: 0,
        rel_size: 0,
    };
    let mut i: usize = 0;
    while i < entries.len()
        invariant
            i <= table_length(entries@),
            table_length(entries@) <= entries@.len(),
            forall|k: int| 0 <= k < table_length(entries@) ==> (#[trigger] entries@[k]).tag != DT_NULL,
            table_length(entries@) < entries@.len() ==> entries@[table_length(entries@) as int].tag == DT_NULL,
            forall|k: int|
                0 <= k < i ==> ((#[trigger] entries@[k]).tag == DT_RELA || entries@[k].tag == DT_REL)
                    ==> aslr_base + entries@[k].val <= u64::MAX,
            t == scan(aslr_base, entries@, i as nat),
        ensures
            i == table_length(entries@),
            t == scan(aslr_base, entries@, i as nat),
            forall|k: int|
                0 <= k < i ==> ((#[trigger] entries@[k]).tag == DT_RELA || entries@[k].tag == DT_REL)
                    ==> aslr_base + entries@[k].val <= u64::MAX,
        decreases entries@.len() - i,
    {
        let e = entries[i];
        if e.tag == DT_NULL {
            break;
        }
        assert(e == entries@[i as int]);
        if (e.tag == DT_RELA || e.tag == DT_REL) && e.val > u64::MAX - aslr_base {
            return false;
        }
        if e.tag == DT_RELA {
            t.rela = aslr_base + e.val;
        } else if e.tag == DT_RELAENT {
            t.rela_entry_size = e.val;
        } else if e.tag == DT_RELASZ {
            t.rela_size = e.val;
        } else if e.tag == DT_REL {
            t.rel = aslr_base + e.val;
        } else if e.tag == DT_RELENT {
            t.rel_entry_size = e.val;
        } else if e.tag == DT_RELSZ {
            t.rel_size = e.val;
        } else if e.tag == DT_RELACOUNT {
            t.rela_entry_count = e.val;
        } else if e.tag == DT_RELCOUNT {
            t.rel_entry_count = e.val;
        }
        i = i + 1;
    }
    (t.rela_entry_count != 0 || t.rela_entry_size != 0) && (t.rel_entry_count != 0 || t.rel_entry_size != 0)
}

/// The relocation type of an entry: the low 32 bits of its info word.
pub fn r_type(r_info: u64) -> (r: u32)
    ensures
        r == r_info % 0x1_0000_0000,
{
    let t = r_info & 0xffff_ffff;
    assert(r_info & 0xffff_ffff == r_info % 0x1_0000_0000) by (bit_vector);
    t as u32
}

/// Address of the `i`-th entry of the table without addends.
pub fn rel_entry_address(t: &RelocationTables, i: u64) -> (r: u64)
    requires
        t.rel + i * t.rel_entry_size <= u64::MAX,
    ensures
        r == t.rel + i * t.rel_entry_size,
{
    proof {
        assert(i * t.rel_entry_size <= u64::MAX) by (nonlinear_arith)
            requires
                t.rel + i * t.rel_entry_size <= u64::MAX,
                t.rel >= 0,
        ;
    }
    t.rel + i * t.rel_entry_size
}

/// Address of the `i`-th entry of the table with addends.
pub fn rela_entry_address(t: &RelocationTables, i: u64) -> (r: u64)
    requires
        t.rela + i * t.rela_entry_size <= u64::MAX,
    ensures
        r == t.rela + i * t.rela_entry_size,
{
    proof {
        assert(i * t.rela_entry_size <= u64::MAX) by (nonlinear_arith)
            requires
                t.rela + i * t.rela_entry_size <= u64::MAX,
                t.rela >= 0,
        ;
    }
    t.rela + i * t.rela_entry_size
}

/// What a relocation does to the word it targets.
#[derive(Debug, Copy, Clone, PartialEq, Eq, Structural)]
pub enum WordPatch {
    /// The amount is added to the word (the word holds the addend).
    Add(u64),
    /// The word is replaced by the value, whatever it held.
    Replace(u64),
}

/// The word after a patch.
pub open spec fn patched_word(old: u64, p: WordPatch) -> u64 {
    match p {
        WordPatch::Add(d) => (old + d) as u64,
        WordPatch::Replace(v) => v,
    }
}

/// The new value of a word that a relocation targets.
pub fn apply_word_patch(old: u64, p: WordPatch) -> (r: u64)
    requires
        p matches WordPatch::Add(d) ==> old + d <= u64::MAX,
    ensures
        r == patched_word(old, p),
{
    match p {
        WordPatch::Add(d) => old + d,
        WordPatch::Replace(v) => v,
    }
}

/// The relocation without addend at `r_offset` with `r_info`, for a module
/// at `aslr_base`: a relative relocation adds the base to the word at
/// base + offset (the word holds the addend); other relocations are left alone.
pub open spec fn rel_patch_spec(aslr_base: u64, r_offset: u64, r_info: u64) -> Option<(u64, WordPatch)> {
    if r_info % 0x1_0000_0000 == R_AARCH64_RELATIVE as int {
        Some(((aslr_base + r_offset) as u64, WordPatch::Add(aslr_base)))
    } else {
        None
    }
}

/// The word to patch for a relocation without addend and what to do to it.
pub fn rel_patch(aslr_base: u64, r_offset: u64, r_info: u64) -> (r: Option<(u64, WordPatch)>)
    requires
        aslr_base + r_offset <= u64::MAX,
    ensures
        r == rel_patch_spec(aslr_base, r_offset, r_info),
{
    if r_type(r_info) == R_AARCH64_RELATIVE {
        Some((aslr_base + r_offset, WordPatch::Add(aslr_base)))
    } else {
        None
    }
}

/// The base moved by a signed addend, wrapping around the address space.
pub open spec fn wrapped_sum(base: u64, addend: i64) -> u64 {
    if base + addend > u64::MAX {
        (base + addend - 0x1_0000_0000_0000_0000) as u64
    } else if base + addend < 0 {
        (base + addend + 0x1_0000_0000_0000_0000) as u64
    } else {
        (base + addend) as u64
    }
}

/// The relocation with addend at `r_offset` with `r_info` and `r_addend`, for
/// a module at `aslr_base`: a relative relocation sets the word at
/// base + offset to the base plus the addend (wrapping); other relocations
/// are left alone.
pub open spec fn rela_patch_spec(aslr_base: u64, r_offset: u64, r_info: u64, r_addend: i64) -> Option<(u64, WordPatch)> {
    if r_info % 0x1_0000_0000 == R_AARCH64_RELATIVE as int {
        Some(((aslr_base + r_offset) as u64, WordPatch::Replace(wrapped_sum(aslr_base, r_addend))))
    } else {
        None
    }
}

/// The word to patch for a relocation with addend and what to do to it.
pub fn rela_patch(aslr_base: u64, r_offset: u64, r_info: u64, r_addend: i64) -> (r: Option<(u64, WordPatch)>)
    requires
        aslr_base + r_offset <= u64::MAX,
    ensures
        r == rela_patch_spec(aslr_base, r_offset, r_info, r_addend),
{
    if r_type(r_info) == R_AARCH64_RELATIVE {
        Some((aslr_base + r_offset, WordPatch::Replace(aslr_base.wrapping_add_signed(r_addend))))
    } else {
        None
    }
}

/// A relative relocation with addend targets the word at base + offset and
/// leaves base + addend (wrapping) in it, whatever the word held before.
pub proof fn lemma_rela_relative_word(aslr_base: u64, r_offset: u64, r_info: u64, r_addend: i64, old: u64)
    requires
        r_info % 0x1_0000_0000 == R_AARCH64_RELATIVE as int,
    ensures
        rela_patch_spec(aslr_base, r_offset, r_info, r_addend) matches Some((target, p))
            && target == (aslr_base + r_offset) as u64
            && patched_word(old, p) == wrapped_sum(aslr_base, r_addend),
{
}

/// Reading the dynamic table ignores everything from its first `DT_NULL`
/// entry on: entries appended after it change nothing.
pub proof fn lemma_null_ends_table(entries: Seq<DynamicEntry>, rest: Seq<DynamicEntry>)
    requires
        exists|i: int| 0 <= i < entries.len() && (#[trigger] entries[i]).tag == DT_NULL,
    ensures
        table_length(entries + rest) == table_length(entries),
    decreases entries.len(),
{
    if entries[0].tag != DT_NULL {
        let i = choose|i: int| 0 <= i < entries.len() && (#[trigger] entries[i]).tag == DT_NULL;
        assert(i > 0);
        assert(entries.drop_first()[i - 1] == entries[i]);
        assert((entries + rest).drop_first() =~= entries.drop_first() + rest);
        lemma_null_ends_table(entries.drop_first(), rest);
    }
}

/// An entry of the relocation table without addends.
#[derive(Debug, Copy, Clone, PartialEq, Eq, Structural)]
pub struct RelEntry {
    pub r_offset: u64,
    pub r_info: u64,
}

/// An entry of the relocation table with addends.
#[derive(Debug, Copy, Clone, PartialEq, Eq, Structural)]
pub struct RelaEntry {
    pub r_offset: u64,
    pub r_info: u64,
    pub r_addend: i64,
}

/// The patches of the entries without addends, in table order: one for each
/// relative entry, and none for any other.
pub open spec fn rel_patches(aslr_base: u64, entries: Seq<RelEntry>) -> Seq<(u64, WordPatch)>
    decreases entries.len(),
{
    if entries.len() == 0 {
        Seq::empty()
    } else {
        let before = rel_patches(aslr_base, entries.drop_last());
        match rel_patch_spec(aslr_base, entries.last().r_offset, entries.last().r_info) {
            Some(p) => before.push(p),
            None => before,
        }
    }
}

/// The patches of the entries with addends, in table order: one for each
/// relative entry, and none for any other.
pub open spec fn rela_patches(aslr_base: u64, entries: Seq<RelaEntry>) -> Seq<(u64, WordPatch)>
    decreases entries.len(),
{
    if entries.len() == 0 {
        Seq::empty()
    } else {
        let before = rela_patches(aslr_base, entries.drop_last());
        match rela_patch_spec(aslr_base, entries.last().r_offset, entries.last().r_info, entries.last().r_addend) {
            Some(p) => before.push(p),
            None => before,
        }
    }
}

/// The patches that relocate a module at `aslr_base`, from the entries of
/// its table without addends and then of its table with addends: each
/// relative entry gives exactly one patch, of the word at base + offset,
/// in table order, and no other entry gives any.
pub fn relocation_patches(aslr_base: u64, rel: &[RelEntry], rela: &[RelaEntry]) -> (r: Vec<(u64, WordPatch)>)
    requires
        forall|i: int| 0 <= i < rel@.len() ==> aslr_base + (#[trigger] rel@[i]).r_offset <= u64::MAX,
        forall|i: int| 0 <= i < rela@.len() ==> aslr_base + (#[trigger] rela@[i]).r_offset <= u64::MAX,
    ensures
        r@ == rel_patches(aslr_base, rel@) + rela_patches(aslr_base, rela@),
{
    let mut out: Vec<(u64, WordPatch)> = Vec::new();
    let mut i: usize = 0;
    while i < rel.len()
        invariant
            i <= rel@.len(),
            forall|k: int| 0 <= k < rel@.len() ==> aslr_base + (#[trigger] rel@[k]).r_offset <= u64::MAX,
            out@ == rel_patches(aslr_base, rel@.subrange(0, i as int)),
        decreases rel@.len() - i,
    {
        let e = rel[i];
        assert(rel@.subrange(0, i + 1).drop_last() =~= rel@.subrange(0, i as int));
        if let Some(p) = rel_patch(aslr_base, e.r_offset, e.r_info) {
            out.push(p);
        }
        i = i + 1;
    }
    assert(rel@.subrange(0, rel@.len() as int) =~= rel@);
    let ghost first = out@;
    let mut j: usize = 0;
    while j < rela.len()
        invariant
            j <= rela@.len(),
            forall|k: int| 0 <= k < rela@.len() ==> aslr_base + (#[trigger] rela@[k]).r_offset <= u64::MAX,
            out@ == first + rela_patches(aslr_base, rela@.subrange(0, j as int)),
        decreases rela@.len() - j,
    {
        let e = rela[j];
        assert(rela@.subrange(0, j + 1).drop_last() =~= rela@.subrange(0, j as int));
        let ghost before = out@;
        if let Some(p) = rela_patch(aslr_base, e.r_offset, e.r_info, e.r_addend) {
            out.push(p);
            assert(out@ =~= first + rela_patches(aslr_base, rela@.subrange(0, j + 1)));
        }
        j = j + 1;
    }
    assert(rela@.subrange(0, rela@.len() as int) =~= rela@);
    out
}

/// Whether `p` is the patch of a relative entry of `entries`: it sets the
/// word at base + offset of that entry to base + addend.
pub open spec fn patch_of_relative_entry(aslr_base: u64, entries: Seq<RelaEntry>, p: (u64, WordPatch)) -> bool {
    exists|i: int|
        0 <= i < entries.len() && (#[trigger] entries[i]).r_info % 0x1_0000_0000 == R_AARCH64_RELATIVE as int && p == (
            (aslr_base + entries[i].r_offset) as u64,
            WordPatch::Replace(wrapped_sum(aslr_base, entries[i].r_addend)),
        )
}

/// Every patch of the table with addends comes from a relative entry of it,
/// and there are no more patches than entries.
pub proof fn lemma_rela_patches_from_relative_entries(aslr_base: u64, entries: Seq<RelaEntry>)
    ensures
        rela_patches(aslr_base, entries).len() <= entries.len(),
        forall|k: int|
            0 <= k < rela_patches(aslr_base, entries).len() ==> patch_of_relative_entry(
                aslr_base,
                entries,
                #[trigger] rela_patches(aslr_base, entries)[k],
            ),
    decreases entries.len(),
{
    if entries.len() > 0 {
        let rest = entries.drop_last();
        lemma_rela_patches_from_relative_entries(aslr_base, rest);
        let ps = rela_patches(aslr_base, entries);
        let before = rela_patches(aslr_base, rest);
        assert forall|k: int| 0 <= k < ps.len() implies patch_of_relative_entry(aslr_base, entries, #[trigger] ps[k]) by {
            if k < before.len() {
                assert(patch_of_relative_entry(aslr_base, rest, before[k]));
                let i = choose|i: int|
                    0 <= i < rest.len() && (#[trigger] rest[i]).r_info % 0x1_0000_0000 == R_AARCH64_RELATIVE as int
                        && before[k] == (
                        (aslr_base + rest[i].r_offset) as u64,
                        WordPatch::Replace(wrapped_sum(aslr_base, rest[i].r_addend)),
                    );
                assert(entries[i] == rest[i]);
            } else {
                assert(entries[entries.len() - 1] == entries.last());
            }
        }
    }
}

/// Whether an entry of the table without addends is a relative relocation.
pub open spec fn relative_rel() -> spec_fn(RelEntry) -> bool {
    |e: RelEntry| e.r_info % 0x1_0000_0000 == R_AARCH64_RELATIVE as int
}

/// Whether an entry of the table with addends is a relative relocation.
pub open spec fn relative_rela() -> spec_fn(RelaEntry) -> bool {
    |e: RelaEntry| e.r_info % 0x1_0000_0000 == R_AARCH64_RELATIVE as int
}

/// Every relative entry of the table without addends, wherever it stands,
/// is relocated: its patch adds the base to the word at base + offset; and
/// there are exactly as many patches as relative entries.
pub proof fn lemma_every_relative_rel_entry_patched(aslr_base: u64, entries: Seq<RelEntry>)
    ensures
        rel_patches(aslr_base, entries).len() == entries.filter(relative_rel()).len(),
        forall|i: int|
            0 <= i < entries.len() && (#[trigger] entries[i]).r_info % 0x1_0000_0000 == R_AARCH64_RELATIVE as int
                ==> rel_patches(aslr_base, entries).contains(
                ((aslr_base + entries[i].r_offset) as u64, WordPatch::Add(aslr_base)),
            ),
    decreases entries.len(),
{
    reveal(Seq::filter);
    if entries.len() > 0 {
        let rest = entries.drop_last();
        lemma_every_relative_rel_entry_patched(aslr_base, rest);
        let ps = rel_patches(aslr_base, entries);
        let before = rel_patches(aslr_base, rest);
        assert forall|i: int|
            0 <= i < entries.len() && (#[trigger] entries[i]).r_info % 0x1_0000_0000 == R_AARCH64_RELATIVE as int
                implies ps.contains(((aslr_base + entries[i].r_offset) as u64, WordPatch::Add(aslr_base))) by {
            let p = ((aslr_base + entries[i].r_offset) as u64, WordPatch::Add(aslr_base));
            if i < entries.len() - 1 {
                assert(rest[i] == entries[i]);
                assert(before.contains(p));
                let k = choose|k: int| 0 <= k < before.len() && before[k] == p;
                if ps != before {
                    assert(ps == before.push(ps.last()));
                    assert(ps[k] == p);
                }
            } else {
                assert(entries.last() == entries[i]);
                assert(ps == before.push(p));
                assert(ps[before.len() as int] == p);
            }
        }
    }
}

/// Every relative entry of the table with addends, wherever it stands, is
/// relocated: its patch sets the word at base + offset to the base plus its
/// addend; and there are exactly as many patches as relative entries.
pub proof fn lemma_every_relative_rela_entry_patched(aslr_base: u64, entries: Seq<RelaEntry>)
    ensures
        rela_patches(aslr_base, entries).len() == entries.filter(relative_rela()).len(),
        forall|i: int|
            0 <= i < entries.len() && (#[trigger] entries[i]).r_info % 0x1_0000_0000 == R_AARCH64_RELATIVE as int
                ==> rela_patches(aslr_base, entries).contains(
                (
                    (aslr_base + entries[i].r_offset) as u64,
                    WordPatch::Replace(wrapped_sum(aslr_base, entries[i].r_addend)),
                ),
            ),
    decreases entries.len(),
{
    reveal(Seq::filter);
    if entries.len() > 0 {
        let rest = entries.drop_last();
        lemma_every_relative_rela_entry_patched(aslr_base, rest);
        let ps = rela_patches(aslr_base, entries);
        let before = rela_patches(aslr_base, rest);
        assert forall|i: int|
            0 <= i < entries.len() && (#[trigger] entries[i]).r_info % 0x1_0000_0000 == R_AARCH64_RELATIVE as int
                implies ps.contains(
                (
                    (aslr_base + entries[i].r_offset) as u64,
                    WordPatch::Replace(wrapped_sum(aslr_base, entries[i].r_addend)),
                ),
            ) by {
            let p = (
                (aslr_base + entries[i].r_offset) as u64,
                WordPatch::Replace(wrapped_sum(aslr_base, entries[i].r_addend)),
            );
            if i < entries.len() - 1 {
                assert(rest[i] == entries[i]);
                assert(before.contains(p));
                let k = choose|k: int| 0 <= k < before.len() && before[k] == p;
                if ps != before {
                    assert(ps == before.push(ps.last()));
                    assert(ps[k] == p);
                }
            } else {
                assert(entries.last() == entries[i]);
                assert(ps == before.push(p));
                assert(ps[before.len() as int] == p);
            }
        }
    }
}

/// The base moved by a signed addend is the sum taken modulo 2^64.
pub proof fn lemma_wrapped_sum_is_modular(base: u64, addend: i64)
    ensures
        wrapped_sum(base, addend) as int == (base + addend) % 0x1_0000_0000_0000_0000,
{
}

} // verus!
