//! Report entries: the product of a schema comparison.
//!
//! Every detected difference is emitted as one entry holding the location in
//! the tree, a structured description of the difference, and its
//! classification.

use vstd::prelude::*;
use vstd::string::StringExecFns;

use crate::diff_location::{
    location_display, DiffLocation, DiffLocationSegmentView,
};

verus! {

/// Classification of a detected difference.
#[derive(Clone, Copy, Debug, PartialEq, Eq, Structural)]
pub enum ChangeType {
    Breaking,
    NonBreaking,
    Unknown,
}

/// The text a classification renders as.
pub open spec fn change_type_str(t: ChangeType) -> Seq<char> {
    match t {
        ChangeType::Breaking => "breaking"@,
        ChangeType::NonBreaking => "non-breaking"@,
        ChangeType::Unknown => "unknown"@,
    }
}

impl ChangeType {
    /// The classification's display text.
    pub fn as_str(&self) -> (r: &str)
        ensures
            r@ == change_type_str(*self),
    {
        match self {
            ChangeType::Breaking => "breaking",
            ChangeType::NonBreaking => "non-breaking",
            ChangeType::Unknown => "unknown",
        }
    }
}

/// Abstract value of a structured difference description.
pub enum ReportKindView {
    /// An item exists on the right only.
    ItemAdded { name: Seq<char> },
    /// An item exists on the left only.
    ItemRemoved { name: Seq<char> },
    /// A quoted textual value differs on the two sides.
    StringChanged { left: Seq<char>, right: Seq<char> },
    /// A quoted textual value exists on the right only.
    StringAdded { value: Seq<char> },
    /// A quoted textual value exists on the left only.
    StringRemoved { value: Seq<char> },
    /// An unquoted (already rendered) value differs on the two sides.
    ValueChanged { left: Seq<char>, right: Seq<char> },
    /// A type definition changed its kind; its internals are not compared.
    TypeMismatch { name: Seq<char> },
}

/// Structured description of one difference.
#[derive(Debug)]
pub enum ReportKind {
    ItemAdded { name: String },
    ItemRemoved { name: String },
    StringChanged { left: String, right: String },
    StringAdded { value: String },
    StringRemoved { value: String },
    ValueChanged { left: String, right: String },
    TypeMismatch { name: String },
}

impl View for ReportKind {
    type V = ReportKindView;

    open spec fn view(&self) -> ReportKindView {
        match self {
            ReportKind::ItemAdded { name } => ReportKindView::ItemAdded { name: name@ },
            ReportKind::ItemRemoved { name } => ReportKindView::ItemRemoved { name: name@ },
            ReportKind::StringChanged { left, right } => ReportKindView::StringChanged {
                left: left@,
                right: right@,
            },
            ReportKind::StringAdded { value } => ReportKindView::StringAdded { value: value@ },
            ReportKind::StringRemoved { value } => ReportKindView::StringRemoved { value: value@ },
            ReportKind::ValueChanged { left, right } => ReportKindView::ValueChanged {
                left: left@,
                right: right@,
            },
            ReportKind::TypeMismatch { name } => ReportKindView::TypeMismatch { name: name@ },
        }
    }
}

/// The description text a difference renders as.
pub open spec fn kind_display(k: ReportKindView) -> Seq<char> {
    match k {
        ReportKindView::ItemAdded { name } => "item is added to the right, name = '"@ + name
            + "'"@,
        ReportKindView::ItemRemoved { name } => "item is removed, name = '"@ + name + "'"@,
        ReportKindView::StringChanged { left, right } => "left value = '"@ + left
            + "', right value = '"@ + right + "'"@,
        ReportKindView::StringAdded { value } => "added to right, value = '"@ + value + "'"@,
        ReportKindView::StringRemoved { value } => "item is removed, value = '"@ + value + "'"@,
        ReportKindView::ValueChanged { left, right } => "left value = "@ + left
            + ", right value = "@ + right,
        ReportKindView::TypeMismatch { name } => "type mismatch, name = '"@ + name + "'"@,
    }
}

impl ReportKind {
    /// Renders the description as text.
    pub fn display_string(&self) -> (r: String)
        ensures
            r@ == kind_display(self@),
    {
        match self {
            ReportKind::ItemAdded { name } => {
                let mut s = "item is added to the right, name = '".to_owned();
                s.append(name.as_str());
                s.append("'");
                s
            }
            ReportKind::ItemRemoved { name } => {
                let mut s = "item is removed, name = '".to_owned();
                s.append(name.as_str());
                s.append("'");
                s
            }
            ReportKind::StringChanged { left, right } => {
                let mut s = "left value = '".to_owned();
                s.append(left.as_str());
                s.append("', right value = '");
                s.append(right.as_str());
                s.append("'");
                s
            }
            ReportKind::StringAdded { value } => {
                let mut s = "added to right, value = '".to_owned();
                s.append(value.as_str());
                s.append("'");
                s
            }
            ReportKind::StringRemoved { value } => {
                let mut s = "item is removed, value = '".to_owned();
                s.append(value.as_str());
                s.append("'");
                s
            }
            ReportKind::ValueChanged { left, right } => {
                let mut s = "left value = ".to_owned();
                s.append(left.as_str());
                s.append(", right value = ");
                s.append(right.as_str());
                s
            }
            ReportKind::TypeMismatch { name } => {
                let mut s = "type mismatch, name = '".to_owned();
                s.append(name.as_str());
                s.append("'");
                s
            }
        }
    }
}

/// Abstract value of one report entry.
pub struct ReportEntryView {
    pub location: Seq<DiffLocationSegmentView>,
    pub kind: ReportKindView,
    pub change_type: ChangeType,
}

/// One detected difference: where it was found, what it is, and how it is
/// classified.
#[derive(Debug)]
pub struct ReportEntry {
    pub location: DiffLocation,
    pub kind: ReportKind,
    pub change_type: ChangeType,
}

impl View for ReportEntry {
    type V = ReportEntryView;

    open spec fn view(&self) -> ReportEntryView {
        ReportEntryView {
            location: self.location@,
            kind: self.kind@,
            change_type: self.change_type,
        }
    }
}

/// The abstract values of a sequence of report entries.
pub open spec fn entries(s: Seq<ReportEntry>) -> Seq<ReportEntryView> {
    s.map_values(|e: ReportEntry| e@)
}

/// Appending one entry appends its abstract value.
pub proof fn lemma_entries_push(s: Seq<ReportEntry>, e: ReportEntry)
    ensures
        entries(s.push(e)) == entries(s).push(e@),
{
    assert(entries(s.push(e)) =~= entries(s).push(e@));
}

/// The abstract values of concatenated entry sequences concatenate.
pub proof fn lemma_entries_add(a: Seq<ReportEntry>, b: Seq<ReportEntry>)
    ensures
        entries(a + b) == entries(a) + entries(b),
{
    assert(entries(a + b) =~= entries(a) + entries(b));
}

/// Abstract entry for an item present on the right only.
pub open spec fn added_entry(
    loc: Seq<DiffLocationSegmentView>,
    name: Seq<char>,
    change_type: ChangeType,
) -> ReportEntryView {
    ReportEntryView { location: loc, kind: ReportKindView::ItemAdded { name }, change_type }
}

/// Abstract entry for an item present on the left only; removals are always
/// breaking.
pub open spec fn removed_entry(
    loc: Seq<DiffLocationSegmentView>,
    name: Seq<char>,
) -> ReportEntryView {
    ReportEntryView {
        location: loc,
        kind: ReportKindView::ItemRemoved { name },
        change_type: ChangeType::Breaking,
    }
}

/// The full output line an entry renders as.
pub open spec fn entry_line(e: ReportEntryView) -> Seq<char> {
    location_display(e.location) + ": "@ + kind_display(e.kind) + " (breaking = "@
        + change_type_str(e.change_type) + ")"@
}

/// Renders one report entry as the output line
/// `<location>: <description> (breaking = <classification>)`.
pub fn render_report_entry(e: &ReportEntry) -> (r: String)
    ensures
        r@ == entry_line(e@),
{
    let mut s = e.location.display_string();
    s.append(": ");
    let kind_str = e.kind.display_string();
    s.append(kind_str.as_str());
    s.append(" (breaking = ");
    s.append(e.change_type.as_str());
    s.append(")");
    s
}

} // verus!
