//! The generic correlation engine: matching two declaration lists by name.
//!
//! For every item on the right, the left list is scanned for the first item
//! with the same name; a match is handed to a per-kind comparator, an
//! unmatched right item is reported as added. Every left item without a
//! same-named right item is then reported as removed, always classified
//! breaking. The abstract form of this engine is shared by every list-shaped
//! comparison in the tree.

use vstd::prelude::*;

use crate::diff_location::DiffLocationSegmentView;
use crate::named::Named;
use crate::report::{added_entry, removed_entry, ChangeType, ReportEntryView};

verus! {

/// The first index at or after `i` whose item is named `name`.
pub open spec fn find_named_from<T: Named>(s: Seq<T>, name: Seq<char>, i: int) -> Option<int>
    decreases s.len() - i,
{
    if i < 0 || i >= s.len() {
        None
    } else if s[i].spec_name() == name {
        Some(i)
    } else {
        find_named_from(s, name, i + 1)
    }
}

/// The first index whose item is named `name`, if any.
pub open spec fn find_named<T: Named>(s: Seq<T>, name: Seq<char>) -> Option<int> {
    find_named_from(s, name, 0)
}

/// What a first-match search result means: the found index carries the name
/// and no earlier index does; a miss means no index carries it.
pub proof fn lemma_find_named_from_properties<T: Named>(s: Seq<T>, name: Seq<char>, i: int)
    requires
        0 <= i <= s.len(),
    ensures
        match find_named_from(s, name, i) {
            Some(j) => i <= j < s.len() && s[j].spec_name() == name && (forall|k: int|
                i <= k < j ==> (#[trigger] s[k].spec_name()) != name),
            None => forall|k: int| i <= k < s.len() ==> (#[trigger] s[k].spec_name()) != name,
        },
    decreases s.len() - i,
{
    if i < s.len() {
        if s[i].spec_name() != name {
            lemma_find_named_from_properties(s, name, i + 1);
        }
    }
}

/// What a full first-match search result means.
pub proof fn lemma_find_named_properties<T: Named>(s: Seq<T>, name: Seq<char>)
    ensures
        match find_named(s, name) {
            Some(j) => 0 <= j < s.len() && s[j].spec_name() == name && (forall|k: int|
                0 <= k < j ==> (#[trigger] s[k].spec_name()) != name),
            None => forall|k: int| 0 <= k < s.len() ==> (#[trigger] s[k].spec_name()) != name,
        },
{
    lemma_find_named_from_properties(s, name, 0);
}

/// Linear scan for the first item carrying the given name.
pub fn find_by_name<T: Named>(items: &Vec<T>, name: &String) -> (r: Option<usize>)
    ensures
        match r {
            Some(j) => find_named(items@, name@) == Some(j as int),
            None => find_named(items@, name@) is None,
        },
{
    let mut i: usize = 0;
    while i < items.len()
        invariant
            i <= items@.len(),
            find_named(items@, name@) == find_named_from(items@, name@, i as int),
        decreases items@.len() - i,
    {
        let item = &items[i];
        let item_name = item.name();
        if item_name == *name {
            return Some(i);
        }
        i = i + 1;
    }
    None
}

/// Reports for the first `i` items of the right list: the comparator's
/// reports for each matched pair, an addition report for each unmatched
/// item, in right-list order.
pub open spec fn correlate_add_upto<T: Named>(
    left: Seq<T>,
    right: Seq<T>,
    loc: Seq<DiffLocationSegmentView>,
    classify: spec_fn(T) -> ChangeType,
    compare: spec_fn(T, T) -> Seq<ReportEntryView>,
    i: int,
) -> Seq<ReportEntryView>
    decreases i,
{
    if i <= 0 {
        Seq::empty()
    } else {
        correlate_add_upto(left, right, loc, classify, compare, i - 1) + (match find_named(
            left,
            right[i - 1].spec_name(),
        ) {
            Some(j) => compare(left[j], right[i - 1]),
            None => seq![added_entry(loc, right[i - 1].spec_name(), classify(right[i - 1]))],
        })
    }
}

/// Removal reports for the first `i` items of the left list: one breaking
/// report for each left item without a same-named right item.
pub open spec fn correlate_removed_upto<T: Named>(
    left: Seq<T>,
    right: Seq<T>,
    loc: Seq<DiffLocationSegmentView>,
    i: int,
) -> Seq<ReportEntryView>
    decreases i,
{
    if i <= 0 {
        Seq::empty()
    } else {
        correlate_removed_upto(left, right, loc, i - 1) + (if find_named(
            right,
            left[i - 1].spec_name(),
        ) is Some {
            Seq::empty()
        } else {
            seq![removed_entry(loc, left[i - 1].spec_name())]
        })
    }
}

/// Everything one list-shaped comparison emits: additions and matched-pair
/// reports in right-list order, then removals in left-list order.
pub open spec fn correlate_reports<T: Named>(
    left: Seq<T>,
    right: Seq<T>,
    loc: Seq<DiffLocationSegmentView>,
    classify: spec_fn(T) -> ChangeType,
    compare: spec_fn(T, T) -> Seq<ReportEntryView>,
) -> Seq<ReportEntryView> {
    correlate_add_upto(left, right, loc, classify, compare, right.len() as int)
        + correlate_removed_upto(left, right, loc, left.len() as int)
}

/// Names are pairwise distinct within the list.
pub open spec fn names_unique<T: Named>(s: Seq<T>) -> bool {
    forall|i: int, j: int|
        0 <= i < j < s.len() ==> (#[trigger] s[i].spec_name()) != (#[trigger] s[j].spec_name())
}

proof fn lemma_add_upto_identity<T: Named>(
    s: Seq<T>,
    loc: Seq<DiffLocationSegmentView>,
    classify: spec_fn(T) -> ChangeType,
    compare: spec_fn(T, T) -> Seq<ReportEntryView>,
    i: int,
)
    requires
        0 <= i <= s.len(),
        names_unique(s),
        forall|j: int|
            0 <= j < s.len() ==> (#[trigger] compare(s[j], s[j])) == Seq::<
                ReportEntryView,
            >::empty(),
    ensures
        correlate_add_upto(s, s, loc, classify, compare, i) == Seq::<ReportEntryView>::empty(),
    decreases i,
{
    if i > 0 {
        lemma_add_upto_identity(s, loc, classify, compare, i - 1);
        let name = s[i - 1].spec_name();
        lemma_find_named_properties(s, name);
        match find_named(s, name) {
            Some(j) => {
                assert(j == i - 1);
                assert(compare(s[j], s[i - 1]) == Seq::<ReportEntryView>::empty());
            }
            None => {
                assert(false);
            }
        }
        assert(correlate_add_upto(s, s, loc, classify, compare, i) =~= Seq::<
            ReportEntryView,
        >::empty());
    }
}

proof fn lemma_removed_upto_identity<T: Named>(
    s: Seq<T>,
    loc: Seq<DiffLocationSegmentView>,
    i: int,
)
    requires
        0 <= i <= s.len(),
    ensures
        correlate_removed_upto(s, s, loc, i) == Seq::<ReportEntryView>::empty(),
    decreases i,
{
    if i > 0 {
        lemma_removed_upto_identity(s, loc, i - 1);
        let name = s[i - 1].spec_name();
        lemma_find_named_properties(s, name);
        assert(find_named(s, name) is Some);
        assert(correlate_removed_upto(s, s, loc, i) =~= Seq::<ReportEntryView>::empty());
    }
}

/// Correlating a list against itself emits nothing, provided names are
/// unique and the comparator emits nothing for equal pairs.
pub proof fn lemma_correlate_identity<T: Named>(
    s: Seq<T>,
    loc: Seq<DiffLocationSegmentView>,
    classify: spec_fn(T) -> ChangeType,
    compare: spec_fn(T, T) -> Seq<ReportEntryView>,
)
    requires
        names_unique(s),
        forall|j: int|
            0 <= j < s.len() ==> (#[trigger] compare(s[j], s[j])) == Seq::<
                ReportEntryView,
            >::empty(),
    ensures
        correlate_reports(s, s, loc, classify, compare) == Seq::<ReportEntryView>::empty(),
{
    lemma_add_upto_identity(s, loc, classify, compare, s.len() as int);
    lemma_removed_upto_identity(s, loc, s.len() as int);
    assert(correlate_reports(s, s, loc, classify, compare) =~= Seq::<ReportEntryView>::empty());
}

/// In a list with unique names, the first match for an element's own name
/// is that element's index.
proof fn lemma_find_in_unique<T: Named>(s: Seq<T>, m: int)
    requires
        names_unique(s),
        0 <= m < s.len(),
    ensures
        find_named(s, s[m].spec_name()) == Some(m),
{
    let name = s[m].spec_name();
    lemma_find_named_properties(s, name);
    match find_named(s, name) {
        Some(j) => {
            if j < m {
                assert(s[j].spec_name() == s[m].spec_name());
                assert(false);
            }
            if j > m {
                assert(s[m].spec_name() != name);
                assert(false);
            }
        }
        None => {
            assert(s[m].spec_name() != name);
            assert(false);
        }
    }
}

proof fn lemma_add_upto_inserted_right<T: Named>(
    s: Seq<T>,
    f: T,
    p: int,
    loc: Seq<DiffLocationSegmentView>,
    classify: spec_fn(T) -> ChangeType,
    compare: spec_fn(T, T) -> Seq<ReportEntryView>,
    i: int,
)
    requires
        0 <= p <= s.len(),
        names_unique(s),
        find_named(s, f.spec_name()) is None,
        forall|j: int|
            0 <= j < s.len() ==> (#[trigger] compare(s[j], s[j])) == Seq::<
                ReportEntryView,
            >::empty(),
        0 <= i <= s.len() + 1,
    ensures
        correlate_add_upto(s, s.insert(p, f), loc, classify, compare, i) == (if i <= p {
            Seq::<ReportEntryView>::empty()
        } else {
            seq![added_entry(loc, f.spec_name(), classify(f))]
        }),
    decreases i,
{
    s.insert_ensures(p, f);
    let ext = s.insert(p, f);
    if i > 0 {
        lemma_add_upto_inserted_right(s, f, p, loc, classify, compare, i - 1);
        if i - 1 < p {
            assert(ext[i - 1] == s[i - 1]);
            lemma_find_in_unique(s, i - 1);
            assert(compare(s[i - 1], s[i - 1]) == Seq::<ReportEntryView>::empty());
        } else if i - 1 == p {
            assert(ext[p] == f);
        } else {
            assert(ext[i - 1] == s[i - 2]);
            lemma_find_in_unique(s, i - 2);
            assert(compare(s[i - 2], s[i - 2]) == Seq::<ReportEntryView>::empty());
        }
        assert(correlate_add_upto(s, ext, loc, classify, compare, i) =~= (if i <= p {
            Seq::<ReportEntryView>::empty()
        } else {
            seq![added_entry(loc, f.spec_name(), classify(f))]
        }));
    }
}

proof fn lemma_removed_upto_inserted_right<T: Named>(
    s: Seq<T>,
    f: T,
    p: int,
    loc: Seq<DiffLocationSegmentView>,
    i: int,
)
    requires
        0 <= p <= s.len(),
        0 <= i <= s.len(),
    ensures
        correlate_removed_upto(s, s.insert(p, f), loc, i) == Seq::<ReportEntryView>::empty(),
    decreases i,
{
    s.insert_ensures(p, f);
    let ext = s.insert(p, f);
    if i > 0 {
        lemma_removed_upto_inserted_right(s, f, p, loc, i - 1);
        let name = s[i - 1].spec_name();
        lemma_find_named_properties(ext, name);
        match find_named(ext, name) {
            Some(j) => {}
            None => {
                if i - 1 < p {
                    assert(ext[i - 1] == s[i - 1]);
                    assert(ext[i - 1].spec_name() != name);
                } else {
                    assert(ext[i] == s[i - 1]);
                    assert(ext[i].spec_name() != name);
                }
                assert(false);
            }
        }
        assert(correlate_removed_upto(s, ext, loc, i) =~= Seq::<ReportEntryView>::empty());
    }
}

proof fn lemma_add_upto_inserted_left<T: Named>(
    s: Seq<T>,
    f: T,
    p: int,
    loc: Seq<DiffLocationSegmentView>,
    classify: spec_fn(T) -> ChangeType,
    compare: spec_fn(T, T) -> Seq<ReportEntryView>,
    i: int,
)
    requires
        0 <= p <= s.len(),
        names_unique(s.insert(p, f)),
        forall|j: int|
            0 <= j < s.len() ==> (#[trigger] compare(s[j], s[j])) == Seq::<
                ReportEntryView,
            >::empty(),
        0 <= i <= s.len(),
    ensures
        correlate_add_upto(s.insert(p, f), s, loc, classify, compare, i) == Seq::<
            ReportEntryView,
        >::empty(),
    decreases i,
{
    s.insert_ensures(p, f);
    let ext = s.insert(p, f);
    if i > 0 {
        lemma_add_upto_inserted_left(s, f, p, loc, classify, compare, i - 1);
        let name = s[i - 1].spec_name();
        let pos: int = if i - 1 < p {
            i - 1
        } else {
            i
        };
        assert(ext[pos] == s[i - 1]);
        lemma_find_in_unique(ext, pos);
        assert(find_named(ext, name) == Some(pos));
        assert(compare(s[i - 1], s[i - 1]) == Seq::<ReportEntryView>::empty());
        assert(correlate_add_upto(ext, s, loc, classify, compare, i) =~= Seq::<
            ReportEntryView,
        >::empty());
    }
}

proof fn lemma_removed_upto_inserted_left<T: Named>(
    s: Seq<T>,
    f: T,
    p: int,
    loc: Seq<DiffLocationSegmentView>,
    i: int,
)
    requires
        0 <= p <= s.len(),
        names_unique(s),
        find_named(s, f.spec_name()) is None,
        0 <= i <= s.len() + 1,
    ensures
        correlate_removed_upto(s.insert(p, f), s, loc, i) == (if i <= p {
            Seq::<ReportEntryView>::empty()
        } else {
            seq![removed_entry(loc, f.spec_name())]
        }),
    decreases i,
{
    s.insert_ensures(p, f);
    let ext = s.insert(p, f);
    if i > 0 {
        lemma_removed_upto_inserted_left(s, f, p, loc, i - 1);
        if i - 1 < p {
            assert(ext[i - 1] == s[i - 1]);
            lemma_find_in_unique(s, i - 1);
        } else if i - 1 == p {
            assert(ext[p] == f);
        } else {
            assert(ext[i - 1] == s[i - 2]);
            lemma_find_in_unique(s, i - 2);
        }
        assert(correlate_removed_upto(ext, s, loc, i) =~= (if i <= p {
            Seq::<ReportEntryView>::empty()
        } else {
            seq![removed_entry(loc, f.spec_name())]
        }));
    }
}

/// Correlation detects one extra item wherever it stands in the list, and
/// swapping the two sides turns the addition report into a removal report:
/// correlating `s` against `s` with `f` inserted at any position emits
/// exactly one addition, classified by the caller-supplied classifier;
/// correlating the extended list against `s` emits exactly one removal,
/// always classified breaking.
pub proof fn lemma_correlate_one_inserted<T: Named>(
    s: Seq<T>,
    f: T,
    p: int,
    loc: Seq<DiffLocationSegmentView>,
    classify: spec_fn(T) -> ChangeType,
    compare: spec_fn(T, T) -> Seq<ReportEntryView>,
)
    requires
        0 <= p <= s.len(),
        names_unique(s.insert(p, f)),
        forall|j: int|
            0 <= j < s.len() ==> (#[trigger] compare(s[j], s[j])) == Seq::<
                ReportEntryView,
            >::empty(),
    ensures
        correlate_reports(s, s.insert(p, f), loc, classify, compare) == seq![
            added_entry(loc, f.spec_name(), classify(f)),
        ],
        correlate_reports(s.insert(p, f), s, loc, classify, compare) == seq![
            removed_entry(loc, f.spec_name()),
        ],
{
    s.insert_ensures(p, f);
    let ext = s.insert(p, f);

    // The original items keep unique names: each occurs once in the
    // extended list.
    assert(names_unique(s)) by {
        assert forall|a: int, b: int| 0 <= a < b < s.len() implies (#[trigger] s[a].spec_name())
            != (#[trigger] s[b].spec_name()) by {
            let pa: int = if a < p {
                a
            } else {
                a + 1
            };
            let pb: int = if b < p {
                b
            } else {
                b + 1
            };
            assert(ext[pa] == s[a]);
            assert(ext[pb] == s[b]);
            assert(ext[pa].spec_name() != ext[pb].spec_name());
        };
    }

    // The inserted item's name occurs nowhere in the original list.
    lemma_find_named_properties(s, f.spec_name());
    match find_named(s, f.spec_name()) {
        Some(j) => {
            let pj: int = if j < p {
                j
            } else {
                j + 1
            };
            assert(ext[pj] == s[j]);
            assert(ext[p] == f);
            if pj < p {
                assert(ext[pj].spec_name() != ext[p].spec_name());
            } else {
                assert(ext[p].spec_name() != ext[pj].spec_name());
            }
            assert(false);
        }
        None => {}
    }

    lemma_add_upto_inserted_right(s, f, p, loc, classify, compare, s.len() as int + 1);
    lemma_removed_upto_inserted_right(s, f, p, loc, s.len() as int);
    assert(correlate_reports(s, ext, loc, classify, compare) =~= seq![
        added_entry(loc, f.spec_name(), classify(f)),
    ]);

    lemma_add_upto_inserted_left(s, f, p, loc, classify, compare, s.len() as int);
    lemma_removed_upto_inserted_left(s, f, p, loc, s.len() as int + 1);
    assert(correlate_reports(ext, s, loc, classify, compare) =~= seq![
        removed_entry(loc, f.spec_name()),
    ]);
}

/// The special case of one item appended at the end: correlating `s`
/// against `s.push(f)` emits exactly one addition; swapped, exactly one
/// removal, always classified breaking.
pub proof fn lemma_correlate_one_added<T: Named>(
    s: Seq<T>,
    f: T,
    loc: Seq<DiffLocationSegmentView>,
    classify: spec_fn(T) -> ChangeType,
    compare: spec_fn(T, T) -> Seq<ReportEntryView>,
)
    requires
        names_unique(s.push(f)),
        forall|j: int|
            0 <= j < s.len() ==> (#[trigger] compare(s[j], s[j])) == Seq::<
                ReportEntryView,
            >::empty(),
    ensures
        correlate_reports(s, s.push(f), loc, classify, compare) == seq![
            added_entry(loc, f.spec_name(), classify(f)),
        ],
        correlate_reports(s.push(f), s, loc, classify, compare) == seq![
            removed_entry(loc, f.spec_name()),
        ],
{
    assert(s.insert(s.len() as int, f) =~= s.push(f));
    lemma_correlate_one_inserted(s, f, s.len() as int, loc, classify, compare);
}

proof fn lemma_add_upto_pointwise<T: Named>(
    left: Seq<T>,
    right: Seq<T>,
    loc: Seq<DiffLocationSegmentView>,
    classify: spec_fn(T) -> ChangeType,
    compare: spec_fn(T, T) -> Seq<ReportEntryView>,
    k: int,
    i: int,
)
    requires
        left.len() == right.len(),
        names_unique(left),
        forall|j: int|
            0 <= j < left.len() ==> (#[trigger] left[j].spec_name()) == right[j].spec_name(),
        0 <= k < left.len(),
        forall|j: int|
            0 <= j < left.len() && j != k ==> (#[trigger] compare(left[j], right[j])) == Seq::<
                ReportEntryView,
            >::empty(),
        0 <= i <= right.len(),
    ensures
        correlate_add_upto(left, right, loc, classify, compare, i) == (if i <= k {
            Seq::<ReportEntryView>::empty()
        } else {
            compare(left[k], right[k])
        }),
    decreases i,
{
    if i > 0 {
        lemma_add_upto_pointwise(left, right, loc, classify, compare, k, i - 1);
        let name = right[i - 1].spec_name();
        assert(left[i - 1].spec_name() == name);
        lemma_find_named_properties(left, name);
        match find_named(left, name) {
            Some(j) => {
                assert(j == i - 1);
            }
            None => {
                assert(false);
            }
        }
        if i - 1 != k {
            assert(compare(left[i - 1], right[i - 1]) == Seq::<ReportEntryView>::empty());
        }
        assert(correlate_add_upto(left, right, loc, classify, compare, i) =~= (if i <= k {
            Seq::<ReportEntryView>::empty()
        } else {
            compare(left[k], right[k])
        }));
    }
}

proof fn lemma_removed_upto_pointwise<T: Named>(
    left: Seq<T>,
    right: Seq<T>,
    loc: Seq<DiffLocationSegmentView>,
    i: int,
)
    requires
        left.len() == right.len(),
        forall|j: int|
            0 <= j < left.len() ==> (#[trigger] left[j].spec_name()) == right[j].spec_name(),
        0 <= i <= left.len(),
    ensures
        correlate_removed_upto(left, right, loc, i) == Seq::<ReportEntryView>::empty(),
    decreases i,
{
    if i > 0 {
        lemma_removed_upto_pointwise(left, right, loc, i - 1);
        let name = left[i - 1].spec_name();
        assert(right[i - 1].spec_name() == name);
        lemma_find_named_properties(right, name);
        match find_named(right, name) {
            Some(j) => {}
            None => {
                assert(false);
            }
        }
        assert(correlate_removed_upto(left, right, loc, i) =~= Seq::<ReportEntryView>::empty());
    }
}

/// When the two lists pair up name by name and every matched pair but one
/// compares empty, the whole correlation emits exactly that one pair's
/// comparison: nothing is added or removed, only changed.
pub proof fn lemma_correlate_one_changed<T: Named>(
    left: Seq<T>,
    right: Seq<T>,
    loc: Seq<DiffLocationSegmentView>,
    classify: spec_fn(T) -> ChangeType,
    compare: spec_fn(T, T) -> Seq<ReportEntryView>,
    k: int,
)
    requires
        left.len() == right.len(),
        names_unique(left),
        forall|j: int|
            0 <= j < left.len() ==> (#[trigger] left[j].spec_name()) == right[j].spec_name(),
        0 <= k < left.len(),
        forall|j: int|
            0 <= j < left.len() && j != k ==> (#[trigger] compare(left[j], right[j])) == Seq::<
                ReportEntryView,
            >::empty(),
    ensures
        correlate_reports(left, right, loc, classify, compare) == compare(left[k], right[k]),
{
    lemma_add_upto_pointwise(left, right, loc, classify, compare, k, right.len() as int);
    lemma_removed_upto_pointwise(left, right, loc, left.len() as int);
    assert(correlate_reports(left, right, loc, classify, compare) =~= compare(left[k], right[k]));
}

} // verus!
