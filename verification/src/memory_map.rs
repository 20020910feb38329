//! What a memory map means: which of its entries are populated, when the
//! populated entries are in order, and which regions of usable memory they
//! describe.
//!
//! Everything here is stated over a sequence of entries of any length.

use crate::layout::IgvmMemoryMapEntry;
use crate::region::{MemoryRegion, PAGE_SIZE};
use vstd::prelude::*;

verus! {

/// The first index from `i` on that is past the end of `entries` or holds an
/// entry with no pages.
pub open spec fn populated_from(entries: Seq<IgvmMemoryMapEntry>, i: int) -> int
    decreases entries.len() - i,
{
    if 0 <= i < entries.len() && entries[i].number_of_pages != 0 {
        populated_from(entries, i + 1)
    } else {
        i
    }
}

/// The number of populated entries: those before the first entry with no
/// pages. What stands behind that entry does not count.
pub open spec fn populated_count(entries: Seq<IgvmMemoryMapEntry>) -> int {
    populated_from(entries, 0)
}

/// The high-water mark against which entry `i` is held: zero for the first
/// entry, and for every other one the end page of the entry before it.
pub open spec fn high_water_mark(entries: Seq<IgvmMemoryMapEntry>, i: int) -> u64 {
    if i <= 0 {
        0
    } else {
        entries[i - 1].end_page_spec()
    }
}

/// Entry `i` starts at or above the high-water mark, and its end page has
/// not wrapped below the mark.
pub open spec fn entry_in_order(entries: Seq<IgvmMemoryMapEntry>, i: int) -> bool {
    &&& entries[i].starting_gpa_page_number >= high_water_mark(entries, i)
    &&& entries[i].end_page_spec() >= high_water_mark(entries, i)
}

/// Every populated entry is in order.
pub open spec fn well_ordered(entries: Seq<IgvmMemoryMapEntry>) -> bool {
    forall|i: int| 0 <= i < populated_count(entries) ==> #[trigger] entry_in_order(entries, i)
}

/// The entry's start address and length in bytes fit the fields of a region.
pub open spec fn region_fits(e: IgvmMemoryMapEntry) -> bool {
    &&& e.starting_gpa_page_number * PAGE_SIZE <= u64::MAX
    &&& e.number_of_pages * PAGE_SIZE <= usize::MAX
}

/// The region that an entry covers, in bytes.
pub open spec fn region_of(e: IgvmMemoryMapEntry) -> MemoryRegion {
    MemoryRegion {
        start: (e.starting_gpa_page_number * PAGE_SIZE) as u64,
        len: (e.number_of_pages * PAGE_SIZE) as usize,
    }
}

/// The test for usable memory, as a function value.
pub open spec fn usable() -> spec_fn(IgvmMemoryMapEntry) -> bool {
    |e: IgvmMemoryMapEntry| e.is_usable_spec()
}

/// `region_of`, as a function value.
pub open spec fn to_region() -> spec_fn(IgvmMemoryMapEntry) -> MemoryRegion {
    |e: IgvmMemoryMapEntry| region_of(e)
}

/// The regions of the usable entries among the first `n` entries, in the
/// order of the entries.
pub open spec fn usable_regions_of_prefix(entries: Seq<IgvmMemoryMapEntry>, n: int) -> Seq<
    MemoryRegion,
> {
    entries.take(n).filter(usable()).map_values(to_region())
}

/// The regions of usable memory that a map describes: those of its populated
/// entries that are of the usable type, in table order.
pub open spec fn usable_regions(entries: Seq<IgvmMemoryMapEntry>) -> Seq<MemoryRegion> {
    usable_regions_of_prefix(entries, populated_count(entries))
}

/// Every usable populated entry fits a region.
pub open spec fn regions_fit(entries: Seq<IgvmMemoryMapEntry>) -> bool {
    forall|i: int|
        0 <= i < populated_count(entries) && (#[trigger] entries[i]).is_usable_spec()
            ==> region_fits(entries[i])
}

/// An entry fits a region exactly if its first page is at most the last
/// page with a 64-bit byte address, and its page count is at most the number
/// of whole pages in the largest length.
pub proof fn lemma_region_fits(e: IgvmMemoryMapEntry)
    ensures
        region_fits(e) <==> e.starting_gpa_page_number <= u64::MAX / 4096 && e.number_of_pages
            <= usize::MAX / 4096,
{
    let start = e.starting_gpa_page_number as int;
    let pages = e.number_of_pages as int;
    let limit = usize::MAX as int;
    assert(start * PAGE_SIZE == start * 4096);
    assert(pages * PAGE_SIZE == pages * 4096);
    assert(pages * 4096 <= limit <==> pages <= limit / 4096);
}

/// `populated_from` never goes back, never leaves the sequence, and stops at
/// the first entry without pages.
pub proof fn lemma_populated_from(entries: Seq<IgvmMemoryMapEntry>, i: int)
    requires
        0 <= i <= entries.len(),
    ensures
        i <= populated_from(entries, i) <= entries.len(),
        forall|j: int|
            i <= j < populated_from(entries, i) ==> (#[trigger] entries[j]).number_of_pages != 0,
        populated_from(entries, i) < entries.len() ==> entries[populated_from(
            entries,
            i,
        )].number_of_pages == 0,
    decreases entries.len() - i,
{
    if i < entries.len() && entries[i].number_of_pages != 0 {
        lemma_populated_from(entries, i + 1);
    }
}

/// The populated count is the one index `n` within the sequence such that
/// every entry before `n` has pages and the entry at `n`, if there is one,
/// has none.
pub proof fn lemma_populated_count_is(entries: Seq<IgvmMemoryMapEntry>, n: int)
    requires
        0 <= n <= entries.len(),
        forall|j: int| 0 <= j < n ==> (#[trigger] entries[j]).number_of_pages != 0,
        n < entries.len() ==> entries[n].number_of_pages == 0,
    ensures
        populated_count(entries) == n,
{
    lemma_populated_from(entries, 0);
    let c = populated_count(entries);
    if c < n {
        assert(entries[c].number_of_pages != 0);
    } else if c > n {
        assert(entries[n].number_of_pages != 0);
    }
}

/// Taking one more entry into the prefix appends its region if it is usable
/// and changes nothing otherwise.
pub proof fn lemma_usable_regions_step(entries: Seq<IgvmMemoryMapEntry>, n: int)
    requires
        0 <= n < entries.len(),
    ensures
        usable_regions_of_prefix(entries, n + 1) == if entries[n].is_usable_spec() {
            usable_regions_of_prefix(entries, n).push(region_of(entries[n]))
        } else {
            usable_regions_of_prefix(entries, n)
        },
{
    let before = entries.take(n);
    assert(entries.take(n + 1) =~= before.push(entries[n]));
    before.lemma_filter_push(entries[n], usable());
    if entries[n].is_usable_spec() {
        before.filter(usable()).lemma_push_map_commute(to_region(), entries[n]);
    }
}

/// A map whose first entry has no pages has no populated entry: it is in
/// order and describes no region, whatever its other entries hold.
pub proof fn lemma_empty_map(entries: Seq<IgvmMemoryMapEntry>)
    requires
        entries.len() == 0 || entries[0].number_of_pages == 0,
    ensures
        populated_count(entries) == 0,
        well_ordered(entries),
        usable_regions(entries) == Seq::<MemoryRegion>::empty(),
{
    assert(entries.take(0) =~= Seq::<IgvmMemoryMapEntry>::empty());
    assert(Seq::<IgvmMemoryMapEntry>::empty().filter(usable()) =~= Seq::<
        IgvmMemoryMapEntry,
    >::empty()) by {
        Seq::<IgvmMemoryMapEntry>::empty().lemma_filter_len(usable());
    }
    assert(usable_regions(entries) =~= Seq::<MemoryRegion>::empty());
}

/// What lies behind the first entry without pages is ignored: two maps with
/// the same populated entries, both ended there, are in order alike and
/// describe the same regions.
pub proof fn lemma_trailing_entries_ignored(
    a: Seq<IgvmMemoryMapEntry>,
    b: Seq<IgvmMemoryMapEntry>,
)
    requires
        populated_count(a) <= b.len(),
        forall|i: int| 0 <= i < populated_count(a) ==> a[i] == b[i],
        populated_count(a) < b.len() ==> b[populated_count(a)].number_of_pages == 0,
    ensures
        populated_count(b) == populated_count(a),
        well_ordered(b) == well_ordered(a),
        usable_regions(b) == usable_regions(a),
{
    let n = populated_count(a);
    lemma_populated_from(a, 0);
    assert forall|j: int| 0 <= j < n implies (#[trigger] b[j]).number_of_pages != 0 by {
        assert(a[j].number_of_pages != 0);
    }
    lemma_populated_count_is(b, n);
    assert forall|i: int| 0 <= i < n implies entry_in_order(a, i) == entry_in_order(b, i) by {
        if i > 0 {
            assert(a[i - 1] == b[i - 1]);
        }
    }
    if well_ordered(a) {
        assert forall|i: int| 0 <= i < n implies #[trigger] entry_in_order(b, i) by {
            assert(entry_in_order(a, i));
        }
    }
    if well_ordered(b) {
        assert forall|i: int| 0 <= i < n implies #[trigger] entry_in_order(a, i) by {
            assert(entry_in_order(b, i));
        }
    }
    assert(a.take(n) =~= b.take(n));
}

/// Whether a map is in order does not depend on the types of its entries:
/// entries of every type are held against the high-water mark.
pub proof fn lemma_order_ignores_entry_type(
    a: Seq<IgvmMemoryMapEntry>,
    b: Seq<IgvmMemoryMapEntry>,
)
    requires
        a.len() == b.len(),
        forall|i: int|
            0 <= i < a.len() ==> a[i].starting_gpa_page_number == b[i].starting_gpa_page_number
                && a[i].number_of_pages == b[i].number_of_pages,
    ensures
        populated_count(b) == populated_count(a),
        well_ordered(b) == well_ordered(a),
{
    let n = populated_count(a);
    lemma_populated_from(a, 0);
    assert forall|j: int| 0 <= j < n implies (#[trigger] b[j]).number_of_pages != 0 by {
        assert(a[j].number_of_pages != 0);
    }
    lemma_populated_count_is(b, n);
    assert forall|i: int| 0 <= i < n implies entry_in_order(a, i) == entry_in_order(b, i) by {
        assert(a[i].end_page_spec() == b[i].end_page_spec());
        if i > 0 {
            assert(a[i - 1].end_page_spec() == b[i - 1].end_page_spec());
        }
    }
    if well_ordered(a) {
        assert forall|i: int| 0 <= i < n implies #[trigger] entry_in_order(b, i) by {
            assert(entry_in_order(a, i));
        }
    }
    if well_ordered(b) {
        assert forall|i: int| 0 <= i < n implies #[trigger] entry_in_order(a, i) by {
            assert(entry_in_order(b, i));
        }
    }
}

/// Every region of a prefix is the region of a usable entry of that prefix.
pub proof fn lemma_regions_come_from_usable_entries(
    entries: Seq<IgvmMemoryMapEntry>,
    n: int,
    k: int,
) -> (j: int)
    requires
        0 <= n <= entries.len(),
        0 <= k < usable_regions_of_prefix(entries, n).len(),
    ensures
        0 <= j < n,
        entries[j].is_usable_spec(),
        usable_regions_of_prefix(entries, n)[k] == region_of(entries[j]),
    decreases n,
{
    if n == 0 {
        assert(entries.take(0) =~= Seq::<IgvmMemoryMapEntry>::empty());
        Seq::<IgvmMemoryMapEntry>::empty().lemma_filter_len(usable());
        0
    } else {
        lemma_usable_regions_step(entries, n - 1);
        let before = usable_regions_of_prefix(entries, n - 1);
        if k < before.len() {
            lemma_regions_come_from_usable_entries(entries, n - 1, k)
        } else {
            n - 1
        }
    }
}

/// The region of every usable entry of a prefix is among the prefix's
/// regions.
pub proof fn lemma_usable_entries_give_regions(
    entries: Seq<IgvmMemoryMapEntry>,
    n: int,
    j: int,
) -> (k: int)
    requires
        0 <= j < n <= entries.len(),
        entries[j].is_usable_spec(),
    ensures
        0 <= k < usable_regions_of_prefix(entries, n).len(),
        usable_regions_of_prefix(entries, n)[k] == region_of(entries[j]),
    decreases n,
{
    lemma_usable_regions_step(entries, n - 1);
    let before = usable_regions_of_prefix(entries, n - 1);
    if j == n - 1 {
        before.len() as int
    } else {
        lemma_usable_entries_give_regions(entries, n - 1, j)
    }
}

/// Along the populated entries of a map that is in order, the high-water
/// mark never falls.
pub proof fn lemma_high_water_mark_rises(entries: Seq<IgvmMemoryMapEntry>, i: int, j: int)
    requires
        well_ordered(entries),
        0 <= i <= j <= populated_count(entries),
    ensures
        high_water_mark(entries, i) <= high_water_mark(entries, j),
    decreases j - i,
{
    if i < j {
        lemma_high_water_mark_rises(entries, i, j - 1);
        assert(entry_in_order(entries, j - 1));
    }
}

/// In a map that is in order, the regions of a prefix of the populated
/// entries lie one behind the other, and all of them end at or below the
/// byte address of the high-water mark.
pub proof fn lemma_prefix_regions_ascend(entries: Seq<IgvmMemoryMapEntry>, n: int)
    requires
        well_ordered(entries),
        regions_fit(entries),
        0 <= n <= populated_count(entries),
    ensures
        forall|k: int, l: int|
            0 <= k < l < usable_regions_of_prefix(entries, n).len() ==> (
            #[trigger] usable_regions_of_prefix(entries, n)[k]).end() <= (
            #[trigger] usable_regions_of_prefix(entries, n)[l]).start,
        forall|k: int|
            0 <= k < usable_regions_of_prefix(entries, n).len() ==> (
            #[trigger] usable_regions_of_prefix(entries, n)[k]).end() <= high_water_mark(
                entries,
                n,
            ) * PAGE_SIZE,
    decreases n,
{
    lemma_populated_from(entries, 0);
    if n == 0 {
        assert(entries.take(0) =~= Seq::<IgvmMemoryMapEntry>::empty());
        Seq::<IgvmMemoryMapEntry>::empty().lemma_filter_len(usable());
    } else {
        lemma_prefix_regions_ascend(entries, n - 1);
        lemma_usable_regions_step(entries, n - 1);
        let before = usable_regions_of_prefix(entries, n - 1);
        let now = usable_regions_of_prefix(entries, n);
        let e = entries[n - 1];
        let mark = high_water_mark(entries, n - 1);
        assert(entry_in_order(entries, n - 1));
        assert(mark <= high_water_mark(entries, n));
        assert(mark * PAGE_SIZE <= high_water_mark(entries, n) * PAGE_SIZE) by (nonlinear_arith)
            requires
                mark <= high_water_mark(entries, n),
        ;
        if e.is_usable_spec() {
            assert(region_fits(e));
            assert(e.starting_gpa_page_number + e.number_of_pages <= u64::MAX) by (nonlinear_arith)
                requires
                    e.starting_gpa_page_number * PAGE_SIZE <= u64::MAX,
                    e.number_of_pages * PAGE_SIZE <= usize::MAX,
                    usize::MAX <= u64::MAX,
                    PAGE_SIZE == 4096,
            ;
            assert(region_of(e).end() == high_water_mark(entries, n) * PAGE_SIZE)
                by (nonlinear_arith)
                requires
                    region_of(e).start == e.starting_gpa_page_number * PAGE_SIZE,
                    region_of(e).len == e.number_of_pages * PAGE_SIZE,
                    region_of(e).end() == region_of(e).start + region_of(e).len,
                    high_water_mark(entries, n) == e.starting_gpa_page_number
                        + e.number_of_pages,
            ;
            assert(mark * PAGE_SIZE <= region_of(e).start) by (nonlinear_arith)
                requires
                    mark <= e.starting_gpa_page_number,
                    region_of(e).start == e.starting_gpa_page_number * PAGE_SIZE,
            ;
            assert(now == before.push(region_of(e)));
            assert forall|k: int, l: int| 0 <= k < l < now.len() implies (#[trigger] now[k]).end()
                <= (#[trigger] now[l]).start by {
                if l < before.len() {
                    assert(before[k].end() <= before[l].start);
                } else {
                    assert(before[k].end() <= mark * PAGE_SIZE);
                }
            }
            assert forall|k: int| 0 <= k < now.len() implies (#[trigger] now[k]).end()
                <= high_water_mark(entries, n) * PAGE_SIZE by {
                if k < before.len() {
                    assert(before[k].end() <= mark * PAGE_SIZE);
                }
            }
        } else {
            assert(now == before);
        }
    }
}

/// The regions of a map that is in order lie one behind the other in
/// memory: each ends at or before the start of the next, so they ascend and
/// no two of them overlap.
pub proof fn lemma_regions_ascend(entries: Seq<IgvmMemoryMapEntry>)
    requires
        well_ordered(entries),
        regions_fit(entries),
    ensures
        forall|k: int, l: int|
            0 <= k < l < usable_regions(entries).len() ==> (#[trigger] usable_regions(
                entries,
            )[k]).end() <= (#[trigger] usable_regions(entries)[l]).start,
{
    lemma_populated_from(entries, 0);
    lemma_prefix_regions_ascend(entries, populated_count(entries));
}

} // verus!
