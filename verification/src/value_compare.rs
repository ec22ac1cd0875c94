//! Leaf-level comparisons of optional texts and plain values.

use vstd::prelude::*;
use vstd::string::StringExecFns;

use crate::diff_location::{DiffLocation, DiffLocationSegmentView, view_opt_string};
use crate::report::{entries, ChangeType, ReportEntry, ReportEntryView, ReportKind, ReportKindView};

verus! {

/// A quoted text, or the placeholder `?` when the text must not be echoed.
pub open spec fn printed_string(s: Seq<char>, print_string: bool) -> Seq<char> {
    if print_string {
        s
    } else {
        "?"@
    }
}

/// Reports for a pair of optional texts: nothing when both sides agree, one
/// entry otherwise, classified by the caller per direction of the change.
pub open spec fn optional_string_reports(
    loc: Seq<DiffLocationSegmentView>,
    change_type_if_different: ChangeType,
    change_type_if_added: ChangeType,
    change_type_if_removed: ChangeType,
    print_string: bool,
    left: Option<Seq<char>>,
    right: Option<Seq<char>>,
) -> Seq<ReportEntryView> {
    match (left, right) {
        (Some(l), Some(r)) => if l == r {
            Seq::empty()
        } else {
            seq![
                ReportEntryView {
                    location: loc,
                    kind: ReportKindView::StringChanged {
                        left: printed_string(l, print_string),
                        right: printed_string(r, print_string),
                    },
                    change_type: change_type_if_different,
                },
            ]
        },
        (None, None) => Seq::empty(),
        (Some(l), None) => seq![
            ReportEntryView {
                location: loc,
                kind: ReportKindView::StringRemoved { value: printed_string(l, print_string) },
                change_type: change_type_if_removed,
            },
        ],
        (None, Some(r)) => seq![
            ReportEntryView {
                location: loc,
                kind: ReportKindView::StringAdded { value: printed_string(r, print_string) },
                change_type: change_type_if_added,
            },
        ],
    }
}

fn printed_copy(s: &String, print_string: bool) -> (r: String)
    ensures
        r@ == printed_string(s@, print_string),
{
    if print_string {
        s.clone()
    } else {
        "?".to_owned()
    }
}

/// Compares two optional texts, emitting at most one report entry.
pub fn compare_optional_strings(
    loc: &DiffLocation,
    change_type_if_different: ChangeType,
    change_type_if_added: ChangeType,
    change_type_if_removed: ChangeType,
    print_string: bool,
    left: &Option<String>,
    right: &Option<String>,
) -> (out: Vec<ReportEntry>)
    ensures
        entries(out@) == optional_string_reports(
            loc@,
            change_type_if_different,
            change_type_if_added,
            change_type_if_removed,
            print_string,
            view_opt_string(*left),
            view_opt_string(*right),
        ),
{
    let mut out: Vec<ReportEntry> = Vec::new();
    match (left, right) {
        (Some(l), Some(r)) => {
            if !(*l == *r) {
                out.push(
                    ReportEntry {
                        location: loc.duplicate(),
                        kind: ReportKind::StringChanged {
                            left: printed_copy(l, print_string),
                            right: printed_copy(r, print_string),
                        },
                        change_type: change_type_if_different,
                    },
                );
            }
        }
        (None, None) => {}
        (Some(l), None) => {
            out.push(
                ReportEntry {
                    location: loc.duplicate(),
                    kind: ReportKind::StringRemoved { value: printed_copy(l, print_string) },
                    change_type: change_type_if_removed,
                },
            );
        }
        (None, Some(r)) => {
            out.push(
                ReportEntry {
                    location: loc.duplicate(),
                    kind: ReportKind::StringAdded { value: printed_copy(r, print_string) },
                    change_type: change_type_if_added,
                },
            );
        }
    }
    proof {
        assert(entries(out@) =~= optional_string_reports(
            loc@,
            change_type_if_different,
            change_type_if_added,
            change_type_if_removed,
            print_string,
            view_opt_string(*left),
            view_opt_string(*right),
        ));
    }
    out
}

/// The text a flag renders as.
pub open spec fn bool_str(b: bool) -> Seq<char> {
    if b {
        "true"@
    } else {
        "false"@
    }
}

/// Reports for a pair of flags: nothing when equal, one entry otherwise.
pub open spec fn bool_reports(
    loc: Seq<DiffLocationSegmentView>,
    left: bool,
    right: bool,
    change_type: ChangeType,
) -> Seq<ReportEntryView> {
    if left == right {
        Seq::empty()
    } else {
        seq![
            ReportEntryView {
                location: loc,
                kind: ReportKindView::ValueChanged {
                    left: bool_str(left),
                    right: bool_str(right),
                },
                change_type,
            },
        ]
    }
}

fn bool_as_string(b: bool) -> (r: String)
    ensures
        r@ == bool_str(b),
{
    if b {
        "true".to_owned()
    } else {
        "false".to_owned()
    }
}

/// Compares two flags, emitting at most one report entry.
pub fn compare_bools(loc: &DiffLocation, left: bool, right: bool, change_type: ChangeType) -> (out:
    Vec<ReportEntry>)
    ensures
        entries(out@) == bool_reports(loc@, left, right, change_type),
{
    let mut out: Vec<ReportEntry> = Vec::new();
    if left != right {
        out.push(
            ReportEntry {
                location: loc.duplicate(),
                kind: ReportKind::ValueChanged {
                    left: bool_as_string(left),
                    right: bool_as_string(right),
                },
                change_type,
            },
        );
    }
    proof {
        assert(entries(out@) =~= bool_reports(loc@, left, right, change_type));
    }
    out
}

/// Reports for a pair of rendered literal values: nothing when equal, one
/// entry otherwise.
pub open spec fn value_reports(
    loc: Seq<DiffLocationSegmentView>,
    left: Seq<char>,
    right: Seq<char>,
    change_type: ChangeType,
) -> Seq<ReportEntryView> {
    if left == right {
        Seq::empty()
    } else {
        seq![
            ReportEntryView {
                location: loc,
                kind: ReportKindView::ValueChanged { left, right },
                change_type,
            },
        ]
    }
}

/// Compares two rendered literal values, emitting at most one report entry.
pub fn compare_string_values(
    loc: &DiffLocation,
    left: &String,
    right: &String,
    change_type: ChangeType,
) -> (out: Vec<ReportEntry>)
    ensures
        entries(out@) == value_reports(loc@, left@, right@, change_type),
{
    let mut out: Vec<ReportEntry> = Vec::new();
    if !(*left == *right) {
        out.push(
            ReportEntry {
                location: loc.duplicate(),
                kind: ReportKind::ValueChanged { left: left.clone(), right: right.clone() },
                change_type,
            },
        );
    }
    proof {
        assert(entries(out@) =~= value_reports(loc@, left@, right@, change_type));
    }
    out
}

} // verus!
