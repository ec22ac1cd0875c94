//! Breadcrumb paths identifying where in the schema tree a difference was
//! found.
//!
//! A location is an append-only sequence of segments; `push` returns a new
//! location and never mutates the receiver, so sibling comparisons can extend
//! the same parent path independently.

use vstd::prelude::*;
use vstd::string::StringExecFns;

verus! {

/// The kind of tree node a location segment refers to.
#[derive(Clone, Copy, Debug, PartialEq, Eq, Structural)]
pub enum DiffLocationSegmentType {
    DefaultValue,
    Description,
    Directive,
    DirectiveArgument,
    DirectiveDefinition,
    EnumDefinition,
    EnumValueDefinition,
    Extends,
    Field,
    Implements,
    InputArgument,
    InputObject,
    InterfaceDefinition,
    IsRepeatable,
    Mutation,
    ObjectDefinition,
    ScalarDefinition,
    SchemaDefinition,
    Subscription,
    Query,
    Type,
    TypeDefinition,
    UnionDefinition,
    UnionMemberDefinition,
}

/// The text a segment type renders as.
pub open spec fn segment_type_str(t: DiffLocationSegmentType) -> Seq<char> {
    match t {
        DiffLocationSegmentType::DefaultValue => "DefaultValue"@,
        DiffLocationSegmentType::Description => "Description"@,
        DiffLocationSegmentType::Directive => "Directive"@,
        DiffLocationSegmentType::DirectiveArgument => "DirectiveArgument"@,
        DiffLocationSegmentType::DirectiveDefinition => "DirectiveDefinition"@,
        DiffLocationSegmentType::EnumDefinition => "EnumDefinition"@,
        DiffLocationSegmentType::EnumValueDefinition => "EnumValueDefinition"@,
        DiffLocationSegmentType::Extends => "Extends"@,
        DiffLocationSegmentType::Field => "Field"@,
        DiffLocationSegmentType::Implements => "Implements"@,
        DiffLocationSegmentType::InputArgument => "InputArgument"@,
        DiffLocationSegmentType::InputObject => "InputObject"@,
        DiffLocationSegmentType::InterfaceDefinition => "InterfaceDefinition"@,
        DiffLocationSegmentType::IsRepeatable => "IsRepeatable"@,
        DiffLocationSegmentType::Mutation => "Mutation"@,
        DiffLocationSegmentType::ObjectDefinition => "ObjectDefinition"@,
        DiffLocationSegmentType::ScalarDefinition => "ScalarDefinition"@,
        DiffLocationSegmentType::SchemaDefinition => "SchemaDefinition"@,
        DiffLocationSegmentType::Subscription => "Subscription"@,
        DiffLocationSegmentType::Query => "Query"@,
        DiffLocationSegmentType::Type => "Type"@,
        DiffLocationSegmentType::TypeDefinition => "TypeDefinition"@,
        DiffLocationSegmentType::UnionDefinition => "UnionDefinition"@,
        DiffLocationSegmentType::UnionMemberDefinition => "UnionMemberDefinition"@,
    }
}

impl DiffLocationSegmentType {
    /// The segment type's display text.
    pub fn as_str(&self) -> (r: &str)
        ensures
            r@ == segment_type_str(*self),
    {
        match self {
            DiffLocationSegmentType::DefaultValue => "DefaultValue",
            DiffLocationSegmentType::Description => "Description",
            DiffLocationSegmentType::Directive => "Directive",
            DiffLocationSegmentType::DirectiveArgument => "DirectiveArgument",
            DiffLocationSegmentType::DirectiveDefinition => "DirectiveDefinition",
            DiffLocationSegmentType::EnumDefinition => "EnumDefinition",
            DiffLocationSegmentType::EnumValueDefinition => "EnumValueDefinition",
            DiffLocationSegmentType::Extends => "Extends",
            DiffLocationSegmentType::Field => "Field",
            DiffLocationSegmentType::Implements => "Implements",
            DiffLocationSegmentType::InputArgument => "InputArgument",
            DiffLocationSegmentType::InputObject => "InputObject",
            DiffLocationSegmentType::InterfaceDefinition => "InterfaceDefinition",
            DiffLocationSegmentType::IsRepeatable => "IsRepeatable",
            DiffLocationSegmentType::Mutation => "Mutation",
            DiffLocationSegmentType::ObjectDefinition => "ObjectDefinition",
            DiffLocationSegmentType::ScalarDefinition => "ScalarDefinition",
            DiffLocationSegmentType::SchemaDefinition => "SchemaDefinition",
            DiffLocationSegmentType::Subscription => "Subscription",
            DiffLocationSegmentType::Query => "Query",
            DiffLocationSegmentType::Type => "Type",
            DiffLocationSegmentType::TypeDefinition => "TypeDefinition",
            DiffLocationSegmentType::UnionDefinition => "UnionDefinition",
            DiffLocationSegmentType::UnionMemberDefinition => "UnionMemberDefinition",
        }
    }
}

/// The mathematical value of an optional name: the character sequence it
/// holds, if any.
pub open spec fn view_opt_string(o: Option<String>) -> Option<Seq<char>> {
    match o {
        Some(s) => Some(s@),
        None => None,
    }
}

/// Abstract value of one location segment.
pub struct DiffLocationSegmentView {
    pub segment_type: DiffLocationSegmentType,
    pub name: Option<Seq<char>>,
}

/// Abstract segment constructor, used throughout the contracts.
pub open spec fn segment_view(
    segment_type: DiffLocationSegmentType,
    name: Option<Seq<char>>,
) -> DiffLocationSegmentView {
    DiffLocationSegmentView { segment_type, name }
}

/// One step of a breadcrumb path: a segment type plus an optional
/// discriminating name.
#[derive(Debug)]
pub struct DiffLocationSegment {
    pub segment_type: DiffLocationSegmentType,
    pub name: Option<String>,
}

impl View for DiffLocationSegment {
    type V = DiffLocationSegmentView;

    open spec fn view(&self) -> DiffLocationSegmentView {
        segment_view(self.segment_type, view_opt_string(self.name))
    }
}

/// The text one segment renders as: `Kind` alone, or `Kind(name)` when a
/// discriminating name is present.
pub open spec fn segment_display(s: DiffLocationSegmentView) -> Seq<char> {
    match s.name {
        Some(n) => segment_type_str(s.segment_type) + "("@ + n + ")"@,
        None => segment_type_str(s.segment_type),
    }
}

impl DiffLocationSegment {
    /// Builds a segment from its parts.
    pub fn new(segment_type: DiffLocationSegmentType, name: Option<String>) -> (r: Self)
        ensures
            r.segment_type == segment_type,
            r.name == name,
    {
        DiffLocationSegment { segment_type, name }
    }

    /// An independent copy of this segment.
    pub fn duplicate(&self) -> (r: Self)
        ensures
            r == *self,
    {
        let name: Option<String> = match &self.name {
            Some(n) => Some(n.clone()),
            None => None,
        };
        DiffLocationSegment { segment_type: self.segment_type, name }
    }

    /// Renders the segment as text.
    pub fn display_string(&self) -> (r: String)
        ensures
            r@ == segment_display(self@),
    {
        match &self.name {
            Some(name) => {
                let mut s = self.segment_type.as_str().to_owned();
                s.append("(");
                s.append(name.as_str());
                s.append(")");
                s
            }
            None => self.segment_type.as_str().to_owned(),
        }
    }
}

/// A breadcrumb path from the document root to the place a difference was
/// detected.
#[derive(Debug)]
pub struct DiffLocation {
    segments: Vec<DiffLocationSegment>,
}

impl View for DiffLocation {
    type V = Seq<DiffLocationSegmentView>;

    closed spec fn view(&self) -> Seq<DiffLocationSegmentView> {
        self.segments@.map_values(|s: DiffLocationSegment| s@)
    }
}

/// The text a whole path renders as: its segments joined by `" -> "`,
/// taking the first `i` segments.
pub open spec fn location_display_upto(segs: Seq<DiffLocationSegmentView>, i: int) -> Seq<char>
    decreases i,
{
    if i <= 0 {
        Seq::empty()
    } else if i == 1 {
        segment_display(segs[0])
    } else {
        location_display_upto(segs, i - 1) + " -> "@ + segment_display(segs[i - 1])
    }
}

/// The text a whole path renders as.
pub open spec fn location_display(segs: Seq<DiffLocationSegmentView>) -> Seq<char> {
    location_display_upto(segs, segs.len() as int)
}

impl DiffLocation {
    /// A single-segment path.
    pub fn new(segment_type: DiffLocationSegmentType, name: Option<String>) -> (r: Self)
        ensures
            r@ == Seq::empty().push(segment_view(segment_type, view_opt_string(name))),
    {
        let mut segments: Vec<DiffLocationSegment> = Vec::new();
        segments.push(DiffLocationSegment::new(segment_type, name));
        let r = DiffLocation { segments };
        proof {
            assert(r@ =~= Seq::empty().push(segment_view(segment_type, view_opt_string(name))));
        }
        r
    }

    /// A new path with one more segment; the receiver is left unchanged.
    pub fn push(&self, segment_type: DiffLocationSegmentType, name: Option<String>) -> (r: Self)
        ensures
            r@ == self@.push(segment_view(segment_type, view_opt_string(name))),
    {
        let mut segments: Vec<DiffLocationSegment> = Vec::new();
        let mut i: usize = 0;
        while i < self.segments.len()
            invariant
                i <= self.segments@.len(),
                segments@.len() == i,
                forall|k: int| 0 <= k < i ==> segments@[k] == self.segments@[k],
            decreases self.segments@.len() - i,
        {
            let seg = &self.segments[i];
            segments.push(seg.duplicate());
            i = i + 1;
        }
        segments.push(DiffLocationSegment::new(segment_type, name));
        let r = DiffLocation { segments };
        proof {
            assert(r@ =~= self@.push(segment_view(segment_type, view_opt_string(name))));
        }
        r
    }

    /// An independent copy of this path.
    pub fn duplicate(&self) -> (r: Self)
        ensures
            r@ == self@,
    {
        let mut segments: Vec<DiffLocationSegment> = Vec::new();
        let mut i: usize = 0;
        while i < self.segments.len()
            invariant
                i <= self.segments@.len(),
                segments@.len() == i,
                forall|k: int| 0 <= k < i ==> segments@[k] == self.segments@[k],
            decreases self.segments@.len() - i,
        {
            let seg = &self.segments[i];
            segments.push(seg.duplicate());
            i = i + 1;
        }
        let r = DiffLocation { segments };
        proof {
            assert(r@ =~= self@);
        }
        r
    }

    /// Renders the path, joining segments with `" -> "`.
    pub fn display_string(&self) -> (r: String)
        ensures
            r@ == location_display(self@),
    {
        let mut buffer = String::new();
        let mut i: usize = 0;
        while i < self.segments.len()
            invariant
                i <= self.segments@.len(),
                buffer@ == location_display_upto(self@, i as int),
            decreases self.segments@.len() - i,
        {
            if i != 0 {
                buffer.append(" -> ");
            }
            let seg = &self.segments[i];
            let seg_str = seg.display_string();
            buffer.append(seg_str.as_str());
            i = i + 1;
        }
        buffer
    }
}

} // verus!
