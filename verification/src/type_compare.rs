//! Structural comparison of type references.
//!
//! Two references are identical only if every nesting level's named identity
//! and nullability flag match. A differing name or a list-versus-non-list
//! mismatch is breaking; a nullability difference is breaking exactly when
//! the left side was nullable (the constraint was tightened).

use vstd::prelude::*;
use vstd::string::StringExecFns;

use crate::diff_location::{DiffLocation, DiffLocationSegmentView};
use crate::document::{BaseTypeRef, TypeRef};
use crate::report::{entries, ChangeType, ReportEntry, ReportEntryView, ReportKind, ReportKindView};

verus! {

/// The classification of one level's nullability flags: no difference when
/// they agree, breaking when the left side was nullable (the constraint was
/// tightened), non-breaking otherwise.
pub open spec fn level_nullability_diff(
    left_nullable: bool,
    right_nullable: bool,
) -> Option<ChangeType> {
    if left_nullable == right_nullable {
        None
    } else if left_nullable {
        Some(ChangeType::Breaking)
    } else {
        Some(ChangeType::NonBreaking)
    }
}

/// Combines the difference found at one nesting level with the difference
/// found below it: no difference anywhere means identical, and a breaking
/// difference at any level outweighs a non-breaking one at another.
pub open spec fn merge_type_diffs(
    outer: Option<ChangeType>,
    inner: Option<ChangeType>,
) -> Option<ChangeType> {
    match (outer, inner) {
        (None, _) => inner,
        (_, None) => outer,
        (Some(o), Some(i)) => Some(
            if o == ChangeType::Breaking || i == ChangeType::Breaking {
                ChangeType::Breaking
            } else {
                ChangeType::NonBreaking
            },
        ),
    }
}

/// The classification of the difference between two type references, or
/// nothing when they are structurally identical: every nesting level's
/// named identity and nullability flag must match.
pub open spec fn type_ref_diff(left: TypeRef, right: TypeRef) -> Option<ChangeType>
    decreases left,
{
    match (left.base, right.base) {
        (BaseTypeRef::Named(ln), BaseTypeRef::Named(rn)) => if ln@ == rn@ {
            level_nullability_diff(left.nullable, right.nullable)
        } else {
            Some(ChangeType::Breaking)
        },
        (BaseTypeRef::List(li), BaseTypeRef::List(ri)) => merge_type_diffs(
            level_nullability_diff(left.nullable, right.nullable),
            type_ref_diff(*li, *ri),
        ),
        (BaseTypeRef::Named(ln), BaseTypeRef::List(ri)) => Some(ChangeType::Breaking),
        (BaseTypeRef::List(li), BaseTypeRef::Named(rn)) => Some(ChangeType::Breaking),
    }
}

fn compare_level_nullability(left_nullable: bool, right_nullable: bool) -> (r: Option<ChangeType>)
    ensures
        r == level_nullability_diff(left_nullable, right_nullable),
{
    if left_nullable == right_nullable {
        None
    } else if left_nullable {
        Some(ChangeType::Breaking)
    } else {
        Some(ChangeType::NonBreaking)
    }
}

fn merge_level_results(outer: Option<ChangeType>, inner: Option<ChangeType>) -> (r: Option<
    ChangeType,
>)
    ensures
        r == merge_type_diffs(outer, inner),
{
    match (outer, inner) {
        (None, _) => inner,
        (_, None) => outer,
        (Some(o), Some(i)) => Some(
            if matches!(o, ChangeType::Breaking) || matches!(i, ChangeType::Breaking) {
                ChangeType::Breaking
            } else {
                ChangeType::NonBreaking
            },
        ),
    }
}

/// Compares two type references, checking each level's named identity and
/// nullability flag and descending into list inner types while both sides
/// remain lists.
pub fn compare_types_recursive(left: &TypeRef, right: &TypeRef) -> (r: Option<ChangeType>)
    ensures
        r == type_ref_diff(*left, *right),
    decreases *left,
{
    match (&left.base, &right.base) {
        (BaseTypeRef::Named(ln), BaseTypeRef::Named(rn)) => {
            if *ln == *rn {
                compare_level_nullability(left.nullable, right.nullable)
            } else {
                Some(ChangeType::Breaking)
            }
        }
        (BaseTypeRef::List(li), BaseTypeRef::List(ri)) => {
            let outer = compare_level_nullability(left.nullable, right.nullable);
            let inner = compare_types_recursive(&**li, &**ri);
            merge_level_results(outer, inner)
        }
        (BaseTypeRef::Named(ln), BaseTypeRef::List(ri)) => Some(ChangeType::Breaking),
        (BaseTypeRef::List(li), BaseTypeRef::Named(rn)) => Some(ChangeType::Breaking),
    }
}

/// The text a type reference renders as: the name, or the inner type in
/// brackets, with `!` appended when the level is non-null.
pub open spec fn type_render(t: TypeRef) -> Seq<char>
    decreases t,
{
    (match t.base {
        BaseTypeRef::Named(n) => n@,
        BaseTypeRef::List(inner) => "["@ + type_render(*inner) + "]"@,
    }) + (if t.nullable {
        Seq::<char>::empty()
    } else {
        "!"@
    })
}

/// Renders a type reference in source syntax.
pub fn render_type_ref(t: &TypeRef) -> (r: String)
    ensures
        r@ == type_render(*t),
    decreases *t,
{
    let mut s: String = match &t.base {
        BaseTypeRef::Named(n) => n.clone(),
        BaseTypeRef::List(inner) => {
            let mut s2 = "[".to_owned();
            let inner_str = render_type_ref(&**inner);
            s2.append(inner_str.as_str());
            s2.append("]");
            s2
        }
    };
    if !t.nullable {
        s.append("!");
    }
    proof {
        assert(s@ =~= type_render(*t));
    }
    s
}

/// Reports for a pair of type references: nothing when identical, otherwise
/// one entry showing both renderings, classified by the nullability and
/// list-shape rule.
pub open spec fn type_reports(
    loc: Seq<DiffLocationSegmentView>,
    left: TypeRef,
    right: TypeRef,
) -> Seq<ReportEntryView> {
    match type_ref_diff(left, right) {
        None => Seq::empty(),
        Some(change_type) => seq![
            ReportEntryView {
                location: loc,
                kind: ReportKindView::ValueChanged {
                    left: type_render(left),
                    right: type_render(right),
                },
                change_type,
            },
        ],
    }
}

/// Compares two type references, emitting at most one report entry.
pub fn compare_types(loc: &DiffLocation, left: &TypeRef, right: &TypeRef) -> (out: Vec<ReportEntry>)
    ensures
        entries(out@) == type_reports(loc@, *left, *right),
{
    let mut out: Vec<ReportEntry> = Vec::new();
    match compare_types_recursive(left, right) {
        Some(change_type) => {
            out.push(
                ReportEntry {
                    location: loc.duplicate(),
                    kind: ReportKind::ValueChanged {
                        left: render_type_ref(left),
                        right: render_type_ref(right),
                    },
                    change_type,
                },
            );
        }
        None => {}
    }
    proof {
        assert(entries(out@) =~= type_reports(loc@, *left, *right));
    }
    out
}

} // verus!
